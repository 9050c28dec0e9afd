//! The daemon's line protocol: the commands a client sends over the socket,
//! how a received line is read back, and where the socket lives.

use vstd::prelude::*;
use crate::config::joined;
use crate::text::{push_str, str_eq, trim, trimmed};

verus! {

/// A command sent to a running daemon.
#[derive(PartialEq, Eq, Structural, Clone, Copy, Debug)]
pub enum Command {
    /// Reveal the menu.
    Show,
    /// Reveal the menu if hidden, hide it if shown.
    Toggle,
}

/// What the daemon makes of one received line.
#[derive(Debug)]
pub enum Request {
    /// A known command.
    Command(Command),
    /// A blank line, ignored.
    Empty,
    /// Anything else (the trimmed text), reported and ignored.
    Unknown(String),
}

/// `Request` as plain values.
pub enum RequestView {
    Command(Command),
    Empty,
    Unknown(Seq<char>),
}

impl View for Request {
    type V = RequestView;

    open spec fn view(&self) -> RequestView {
        match self {
            Request::Command(c) => RequestView::Command(*c),
            Request::Empty => RequestView::Empty,
            Request::Unknown(s) => RequestView::Unknown(s@),
        }
    }
}

/// The word that names a command on the wire.
pub open spec fn command_text(c: Command) -> Seq<char> {
    match c {
        Command::Show => "show"@,
        Command::Toggle => "toggle"@,
    }
}

/// How a received line is read: surrounding white space is ignored, then
/// `show` and `toggle` are commands, nothing at all is a blank line, and any
/// other text is unknown.
pub open spec fn request_spec(line: Seq<char>) -> RequestView {
    let t = trimmed(line);
    if t == "show"@ {
        RequestView::Command(Command::Show)
    } else if t == "toggle"@ {
        RequestView::Command(Command::Toggle)
    } else if t.len() == 0 {
        RequestView::Empty
    } else {
        RequestView::Unknown(t)
    }
}

/// Reads one line received on the socket.
pub fn parse_request(line: &str) -> (r: Request)
    ensures
        r@ == request_spec(line@),
{
    let t = trim(line);
    if str_eq(t.as_str(), "show") {
        Request::Command(Command::Show)
    } else if str_eq(t.as_str(), "toggle") {
        Request::Command(Command::Toggle)
    } else if crate::text::chars_of(t.as_str()).len() == 0 {
        Request::Empty
    } else {
        Request::Unknown(t)
    }
}

impl Command {
    /// The word that names this command on the wire.
    pub fn word(&self) -> (r: &'static str)
        ensures
            r@ == command_text(*self),
    {
        match self {
            Command::Show => "show",
            Command::Toggle => "toggle",
        }
    }
}

/// The line a client writes for `command`: its word and a newline.
pub fn client_line(command: Command) -> (r: String)
    ensures
        r@ == command_text(command) + seq!['\n'],
{
    proof {
        reveal_strlit("\n");
    }
    let mut r = String::from_str(command.word());
    push_str(&mut r, "\n");
    r
}

/// Why the socket path cannot be had.
#[derive(PartialEq, Eq, Structural, Clone, Copy, Debug)]
pub enum DaemonError {
    /// `$XDG_RUNTIME_DIR` is unset, so there is no user-private runtime
    /// directory to put the socket in.
    RuntimeDirUnset,
}

/// The daemon socket: `glogout.sock` in `$XDG_RUNTIME_DIR` (given here as
/// `runtime_dir`, `None` when unset).
pub fn socket_path(runtime_dir: Option<&str>) -> (r: Result<String, DaemonError>)
    ensures
        match runtime_dir {
            Some(d) => r matches Ok(p) && p@ == joined(d@, "glogout.sock"@),
            None => r == Err::<String, DaemonError>(DaemonError::RuntimeDirUnset),
        },
{
    proof {
        reveal_strlit("glogout.sock");
    }
    match runtime_dir {
        Some(d) => Ok(crate::config::join_path(d, "glogout.sock")),
        None => Err(DaemonError::RuntimeDirUnset),
    }
}

/// What a client sends, the daemon reads back as the same command.
pub proof fn lemma_client_line_round_trip(c: Command)
    ensures
        request_spec(command_text(c) + seq!['\n']) == RequestView::Command(c),
{
    reveal_strlit("show");
    reveal_strlit("toggle");
    let w = command_text(c);
    let line = w + seq!['\n'];
    assert(crate::text::is_white_space('\n'));
    assert(!crate::text::is_white_space(w[0]));
    assert(!crate::text::is_white_space(w.last()));
    assert(crate::text::trim_start(line) == line);
    assert(line.drop_last() =~= w);
    assert(crate::text::trim_end(line) == crate::text::trim_end(w));
    assert(crate::text::trim_end(w) == w);
    if c == Command::Toggle {
        assert(w != "show"@);
    }
}

} // verus!

verus! {

/// What a starting daemon does about the socket path.
#[derive(PartialEq, Eq, Structural, Clone, Copy, Debug)]
pub enum SocketAction {
    /// Nothing is there: bind.
    Bind,
    /// Another daemon answers on it: refuse to start.
    Refuse,
    /// A file is there but nothing answers (a crashed daemon's leftover):
    /// unlink it, then bind.
    ReplaceStale,
}

/// Decides from whether the socket path exists and whether a connection to
/// it succeeded (tried only when it exists).
pub fn socket_action(exists: bool, connected: bool) -> (r: SocketAction)
    ensures
        r == (if !exists {
            SocketAction::Bind
        } else if connected {
            SocketAction::Refuse
        } else {
            SocketAction::ReplaceStale
        }),
{
    if !exists {
        SocketAction::Bind
    } else if connected {
        SocketAction::Refuse
    } else {
        SocketAction::ReplaceStale
    }
}

} // verus!

verus! {

/// The wire words are `show` and `toggle`, and a line holding exactly one
/// of them, with any surrounding white space, is that command.
pub proof fn lemma_wire_words(pre: Seq<char>, post: Seq<char>)
    requires
        forall|i: int| 0 <= i < pre.len() ==> crate::text::is_white_space(#[trigger] pre[i]),
        forall|i: int| 0 <= i < post.len() ==> crate::text::is_white_space(#[trigger] post[i]),
    ensures
        command_text(Command::Show) == seq!['s', 'h', 'o', 'w'],
        command_text(Command::Toggle) == seq!['t', 'o', 'g', 'g', 'l', 'e'],
        request_spec(pre + seq!['s', 'h', 'o', 'w'] + post) == RequestView::Command(Command::Show),
        request_spec(pre + seq!['t', 'o', 'g', 'g', 'l', 'e'] + post) == RequestView::Command(
            Command::Toggle,
        ),
{
    reveal_strlit("show");
    reveal_strlit("toggle");
    let show = seq!['s', 'h', 'o', 'w'];
    let toggle = seq!['t', 'o', 'g', 'g', 'l', 'e'];
    assert(!crate::text::is_white_space('s') && !crate::text::is_white_space('w'));
    assert(!crate::text::is_white_space('t') && !crate::text::is_white_space('e'));
    lemma_trim_around(pre, show, post);
    lemma_trim_around(pre, toggle, post);
    assert("show"@ =~= show);
    assert("toggle"@ =~= toggle);
    assert(toggle.len() != show.len());
}

/// Trimming white space around a word that neither starts nor ends with
/// white space gives the word.
pub proof fn lemma_trim_around(pre: Seq<char>, w: Seq<char>, post: Seq<char>)
    requires
        w.len() > 0,
        !crate::text::is_white_space(w[0]),
        !crate::text::is_white_space(w.last()),
        forall|i: int| 0 <= i < pre.len() ==> crate::text::is_white_space(#[trigger] pre[i]),
        forall|i: int| 0 <= i < post.len() ==> crate::text::is_white_space(#[trigger] post[i]),
    ensures
        trimmed(pre + w + post) == w,
    decreases pre.len() + post.len(),
{
    let s = pre + w + post;
    if pre.len() > 0 {
        assert(crate::text::is_white_space(pre[0]));
        assert(s[0] == pre[0]);
        assert(s.skip(1) =~= pre.skip(1) + w + post);
        assert forall|i: int| 0 <= i < pre.skip(1).len() implies crate::text::is_white_space(
            #[trigger] pre.skip(1)[i],
        ) by {
            assert(pre.skip(1)[i] == pre[i + 1]);
        }
        lemma_trim_around(pre.skip(1), w, post);
    } else if post.len() > 0 {
        assert(s =~= w + post);
        assert(crate::text::trim_start(s) == s);
        assert(crate::text::is_white_space(post.last()));
        assert(s.last() == post.last());
        assert(s.drop_last() =~= pre + w + post.drop_last());
        assert forall|i: int| 0 <= i < post.drop_last().len() implies crate::text::is_white_space(
            #[trigger] post.drop_last()[i],
        ) by {
            assert(post.drop_last()[i] == post[i]);
        }
        lemma_trim_around(pre, w, post.drop_last());
        assert(crate::text::trim_start(s.drop_last()) == s.drop_last());
    } else {
        assert(s =~= w);
    }
}

} // verus!
