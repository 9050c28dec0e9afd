//! Resolving buttons to what pressing them does, and looking an action up
//! by the id that the page posts.

use vstd::prelude::*;
use crate::config::{Button, ButtonView, buttons_view, strings_view};
use crate::text::{push_str, str_eq};

verus! {

/// Names what `format!("{:?}", s)` produces for a string slice `s`: the
/// text in double quotes, each character escaped by `char::escape_debug`.
pub uninterp spec fn debug_quoted(s: Seq<char>) -> Seq<char>;

/// `<str as Debug>::fmt`, called through `format!("{:?}", s)`; the result
/// is the name `debug_quoted` applied to `s`.
#[verifier::external_body]
fn debug_str(s: &str) -> (r: String)
    ensures
        r@ == debug_quoted(s@),
{
    format!("{:?}", s)
}

/// A program and its arguments, run directly (no shell) unless the program
/// is itself `sh`.
#[derive(Debug)]
pub struct SpawnSpec {
    pub program: String,
    pub args: Vec<String>,
}

/// What pressing a button does.
#[derive(Debug)]
pub enum Resolved {
    /// Just close the menu.
    Cancel,
    /// Spawn a command, then close.
    Spawn(SpawnSpec),
    /// Resolution failed (unknown action, no command); the reason is
    /// reported and the menu closes so the user is not stuck.
    Unknown(String),
}

/// `Resolved` as plain values.
pub enum ResolvedView {
    Cancel,
    Spawn { program: Seq<char>, args: Seq<Seq<char>> },
    Unknown(Seq<char>),
}

impl View for Resolved {
    type V = ResolvedView;

    open spec fn view(&self) -> ResolvedView {
        match self {
            Resolved::Cancel => ResolvedView::Cancel,
            Resolved::Spawn(s) => ResolvedView::Spawn {
                program: s.program@,
                args: strings_view(s.args@),
            },
            Resolved::Unknown(r) => ResolvedView::Unknown(r@),
        }
    }
}

/// A command with its arguments.
pub open spec fn spawn_of(program: Seq<char>, args: Seq<Seq<char>>) -> ResolvedView {
    ResolvedView::Spawn { program, args }
}

/// The built-in actions, for the user `user`:
/// `cancel` closes; `logout` runs `loginctl terminate-user <user>`;
/// `reboot`, `shutdown`, `suspend`, `hibernate` run `systemctl reboot`,
/// `poweroff`, `suspend`, `hibernate`; `lock` runs `loginctl lock-session`.
pub open spec fn builtin_spec(name: Seq<char>, user: Seq<char>) -> Option<ResolvedView> {
    if name == "cancel"@ {
        Some(ResolvedView::Cancel)
    } else if name == "logout"@ {
        Some(spawn_of("loginctl"@, seq!["terminate-user"@, user]))
    } else if name == "reboot"@ {
        Some(spawn_of("systemctl"@, seq!["reboot"@]))
    } else if name == "shutdown"@ {
        Some(spawn_of("systemctl"@, seq!["poweroff"@]))
    } else if name == "suspend"@ {
        Some(spawn_of("systemctl"@, seq!["suspend"@]))
    } else if name == "hibernate"@ {
        Some(spawn_of("systemctl"@, seq!["hibernate"@]))
    } else if name == "lock"@ {
        Some(spawn_of("loginctl"@, seq!["lock-session"@]))
    } else {
        None
    }
}

/// The action name a button without a `command` resolves by: its `action`,
/// or its `id` when `action` is absent.
pub open spec fn action_name(b: ButtonView) -> Seq<char> {
    match b.action {
        Some(a) => a,
        None => b.id,
    }
}

/// What a button does: an explicit `command` always wins and runs through
/// `sh -c`; otherwise its action name is looked up among the built-ins.
pub open spec fn resolve_spec(b: ButtonView, user: Seq<char>) -> ResolvedView {
    match b.command {
        Some(cmd) => spawn_of("sh"@, seq!["-c"@, cmd]),
        None => match builtin_spec(action_name(b), user) {
            Some(r) => r,
            None => ResolvedView::Unknown(
                "unknown built-in action "@ + debug_quoted(action_name(b)),
            ),
        },
    }
}

fn spawn(program: &str, arg: &str) -> (r: Resolved)
    ensures
        r@ == spawn_of(program@, seq![arg@]),
{
    let mut args: Vec<String> = Vec::new();
    args.push(String::from_str(arg));
    assert(strings_view(args@) =~= seq![arg@]);
    Resolved::Spawn(SpawnSpec { program: String::from_str(program), args })
}

/// Resolves a built-in action name for the user `user`.
pub fn builtin(name: &str, user: &str) -> (r: Option<Resolved>)
    ensures
        match r {
            Some(x) => builtin_spec(name@, user@) == Some(x@),
            None => builtin_spec(name@, user@) is None,
        },
{
    if str_eq(name, "cancel") {
        Some(Resolved::Cancel)
    } else if str_eq(name, "logout") {
        let mut args: Vec<String> = Vec::new();
        args.push(String::from_str("terminate-user"));
        args.push(String::from_str(user));
        assert(strings_view(args@) =~= seq!["terminate-user"@, user@]);
        Some(Resolved::Spawn(SpawnSpec { program: String::from_str("loginctl"), args }))
    } else if str_eq(name, "reboot") {
        Some(spawn("systemctl", "reboot"))
    } else if str_eq(name, "shutdown") {
        Some(spawn("systemctl", "poweroff"))
    } else if str_eq(name, "suspend") {
        Some(spawn("systemctl", "suspend"))
    } else if str_eq(name, "hibernate") {
        Some(spawn("systemctl", "hibernate"))
    } else if str_eq(name, "lock") {
        Some(spawn("loginctl", "lock-session"))
    } else {
        None
    }
}

/// The reason reported for an action name that is no built-in, given the
/// name already quoted.
pub fn unknown_reason(quoted: &str) -> (r: String)
    ensures
        r@ == "unknown built-in action "@ + quoted@,
{
    let mut reason = String::from_str("unknown built-in action ");
    push_str(&mut reason, quoted);
    reason
}

/// Resolves what pressing `btn` does, for the user `user`.
pub fn resolve(btn: &Button, user: &str) -> (r: Resolved)
    ensures
        r@ == resolve_spec(btn@, user@),
{
    if let Some(cmd) = &btn.command {
        let mut args: Vec<String> = Vec::new();
        args.push(String::from_str("-c"));
        args.push(cmd.clone());
        assert(strings_view(args@) =~= seq!["-c"@, cmd@]);
        return Resolved::Spawn(SpawnSpec { program: String::from_str("sh"), args });
    }
    let name: &str = match &btn.action {
        Some(a) => a.as_str(),
        None => btn.id.as_str(),
    };
    match builtin(name, user) {
        Some(b) => b,
        None => {
            let quoted = debug_str(name);
            Resolved::Unknown(unknown_reason(quoted.as_str()))
        },
    }
}

/// One resolved button, keyed by its id.
pub struct Entry {
    pub id: String,
    pub resolved: Resolved,
}

/// Maps the action ids that the page posts to what they do.
pub struct Dispatcher {
    entries: Vec<Entry>,
}

/// The table of a list of buttons, in button order.
pub open spec fn table(bs: Seq<ButtonView>, user: Seq<char>) -> Seq<(Seq<char>, ResolvedView)> {
    bs.map_values(|b: ButtonView| (b.id, resolve_spec(b, user)))
}

/// The resolution registered for `id`: that of the last entry with this id,
/// as when the entries are collected into a map in order.
pub open spec fn lookup(t: Seq<(Seq<char>, ResolvedView)>, id: Seq<char>) -> Option<ResolvedView>
    decreases t.len(),
{
    if t.len() == 0 {
        None
    } else if t.last().0 == id {
        Some(t.last().1)
    } else {
        lookup(t.drop_last(), id)
    }
}

/// An optional borrowed resolution as plain values.
pub open spec fn opt_resolved(r: Option<&Resolved>) -> Option<ResolvedView> {
    match r {
        Some(x) => Some(x@),
        None => None,
    }
}

impl View for Dispatcher {
    type V = Seq<(Seq<char>, ResolvedView)>;

    closed spec fn view(&self) -> Seq<(Seq<char>, ResolvedView)> {
        self.entries@.map_values(|e: Entry| (e.id@, e.resolved@))
    }
}

impl Dispatcher {
    /// Resolves every button, for the user `user` (the value of `$USER`,
    /// empty when unset).
    pub fn new(buttons: &[Button], user: &str) -> (r: Self)
        ensures
            r@ == table(buttons_view(buttons@), user@),
    {
        let mut entries: Vec<Entry> = Vec::new();
        let n = buttons.len();
        for i in 0..n
            invariant
                n == buttons@.len(),
                entries@.len() == i,
                entries@.map_values(|e: Entry| (e.id@, e.resolved@)) == table(
                    buttons_view(buttons@.take(i as int)),
                    user@,
                ),
        {
            let b = &buttons[i];
            let ghost before = entries@;
            entries.push(Entry { id: b.id.clone(), resolved: resolve(b, user) });
            assert(buttons_view(buttons@.take(i + 1)) =~= buttons_view(buttons@.take(i as int)).push(
                b@,
            ));
            assert(entries@ == before.push(entries@[i as int]));
            assert(entries@[i as int].id@ == b.id@);
            assert(entries@[i as int].resolved@ == resolve_spec(b@, user@));
            assert(buttons_view(buttons@.take(i + 1))[i as int] == b@);
            let ghost f = |e: Entry| (e.id@, e.resolved@);
            assert(entries@.map_values(f) =~= before.map_values(f).push(f(entries@[i as int])));
            assert(table(buttons_view(buttons@.take(i + 1)), user@) =~= table(
                buttons_view(buttons@.take(i as int)),
                user@,
            ).push((b.id@, resolve_spec(b@, user@))));
            assert(entries@.map_values(|e: Entry| (e.id@, e.resolved@)) =~= table(
                buttons_view(buttons@.take(i + 1)),
                user@,
            ));
        }
        assert(buttons@.take(n as int) =~= buttons@);
        Dispatcher { entries }
    }

    /// What the action `action_id` does; `None` when no button registered it.
    pub fn dispatch(&self, action_id: &str) -> (r: Option<&Resolved>)
        ensures
            opt_resolved(r) == lookup(self@, action_id@),
    {
        let mut k = self.entries.len();
        assert(self@.take(k as int) =~= self@);
        while k > 0
            invariant
                k <= self.entries@.len(),
                lookup(self@, action_id@) == lookup(self@.take(k as int), action_id@),
            decreases k,
        {
            let e = &self.entries[k - 1];
            assert(self@.take(k as int).drop_last() =~= self@.take(k - 1));
            if str_eq(e.id.as_str(), action_id) {
                return Some(&e.resolved);
            }
            k = k - 1;
        }
        None
    }
}

} // verus!

verus! {

/// An action id that no button carries is not registered.
pub proof fn lemma_unregistered_id(bs: Seq<ButtonView>, user: Seq<char>, id: Seq<char>)
    requires
        forall|i: int| 0 <= i < bs.len() ==> #[trigger] bs[i].id != id,
    ensures
        lookup(table(bs, user), id) is None,
    decreases bs.len(),
{
    if bs.len() > 0 {
        assert(table(bs, user).drop_last() =~= table(bs.drop_last(), user));
        assert(bs[bs.len() - 1].id != id);
        lemma_unregistered_id(bs.drop_last(), user, id);
    }
}

/// When several buttons share an id, the last of them decides what the id
/// does, as with a map filled in button order.
pub proof fn lemma_last_button_wins(bs: Seq<ButtonView>, user: Seq<char>, i: int)
    requires
        0 <= i < bs.len(),
        forall|j: int| i < j < bs.len() ==> #[trigger] bs[j].id != bs[i].id,
    ensures
        lookup(table(bs, user), bs[i].id) == Some(resolve_spec(bs[i], user)),
    decreases bs.len(),
{
    if i < bs.len() - 1 {
        assert(table(bs, user).drop_last() =~= table(bs.drop_last(), user));
        assert(bs[bs.len() - 1].id != bs[i].id);
        lemma_last_button_wins(bs.drop_last(), user, i);
    }
}

} // verus!

verus! {

/// The built-in table, for any user `u`: `cancel` closes, `logout` runs
/// `loginctl terminate-user u`, `reboot`/`shutdown`/`suspend`/`hibernate`
/// run `systemctl reboot`/`poweroff`/`suspend`/`hibernate`, and `lock` runs
/// `loginctl lock-session`.
pub proof fn lemma_builtin_table(u: Seq<char>)
    ensures
        builtin_spec("cancel"@, u) == Some(ResolvedView::Cancel),
        builtin_spec("logout"@, u) == Some(
            ResolvedView::Spawn { program: "loginctl"@, args: seq!["terminate-user"@, u] },
        ),
        builtin_spec("reboot"@, u) == Some(
            ResolvedView::Spawn { program: "systemctl"@, args: seq!["reboot"@] },
        ),
        builtin_spec("shutdown"@, u) == Some(
            ResolvedView::Spawn { program: "systemctl"@, args: seq!["poweroff"@] },
        ),
        builtin_spec("suspend"@, u) == Some(
            ResolvedView::Spawn { program: "systemctl"@, args: seq!["suspend"@] },
        ),
        builtin_spec("hibernate"@, u) == Some(
            ResolvedView::Spawn { program: "systemctl"@, args: seq!["hibernate"@] },
        ),
        builtin_spec("lock"@, u) == Some(
            ResolvedView::Spawn { program: "loginctl"@, args: seq!["lock-session"@] },
        ),
{
    reveal_strlit("cancel");
    reveal_strlit("logout");
    reveal_strlit("reboot");
    reveal_strlit("shutdown");
    reveal_strlit("suspend");
    reveal_strlit("hibernate");
    reveal_strlit("lock");
    assert("cancel"@.len() == 6 && "cancel"@[0] == 'c');
    assert("logout"@.len() == 6 && "logout"@[0] == 'l');
    assert("reboot"@.len() == 6 && "reboot"@[0] == 'r');
    assert("shutdown"@.len() == 8 && "shutdown"@[0] == 's');
    assert("suspend"@.len() == 7 && "suspend"@[0] == 's');
    assert("hibernate"@.len() == 9 && "hibernate"@[0] == 'h');
    assert("lock"@.len() == 4 && "lock"@[0] == 'l');
}

/// An explicit command always wins: whatever the action and id, it runs as
/// `sh -c <command>`. Without one, a button resolves as the built-in named
/// by its action, or by its id when the action is absent, and any name
/// outside the table gives an unknown-action reason naming it.
pub proof fn lemma_resolve_rules(b: ButtonView, u: Seq<char>)
    ensures
        b.command matches Some(cmd) ==> resolve_spec(b, u) == (ResolvedView::Spawn {
            program: "sh"@,
            args: seq!["-c"@, cmd],
        }),
        b.command is None ==> (b.action matches Some(a) ==> resolve_spec(b, u) == resolve_spec(
            ButtonView { action: None, id: a, ..b },
            u,
        )),
        b.command is None && builtin_spec(action_name(b), u) is None ==> resolve_spec(b, u)
            == ResolvedView::Unknown("unknown built-in action "@ + debug_quoted(action_name(b))),
        b.command is None ==> (builtin_spec(action_name(b), u) matches Some(r) ==> resolve_spec(
            b,
            u,
        ) == r),
{
}

} // verus!
