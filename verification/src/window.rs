//! Choosing the monitor that carries the menu.

use vstd::prelude::*;
use crate::config::opt_view;
use crate::text::str_eq;

verus! {

/// What the choice needs to know of a connected monitor.
#[derive(Debug)]
pub struct MonitorInfo {
    /// The connector name (e.g. `DP-1`), when the display reports one.
    pub connector: Option<String>,
    /// Logical position of the monitor's top-left corner.
    pub x: i32,
    pub y: i32,
}

/// A monitor as plain values.
pub struct MonitorView {
    pub connector: Option<Seq<char>>,
    pub x: int,
    pub y: int,
}

impl View for MonitorInfo {
    type V = MonitorView;

    open spec fn view(&self) -> MonitorView {
        MonitorView { connector: opt_view(self.connector), x: self.x as int, y: self.y as int }
    }
}

/// The views of a list of monitors.
pub open spec fn monitors_view(ms: Seq<MonitorInfo>) -> Seq<MonitorView> {
    ms.map_values(|m: MonitorInfo| m@)
}

/// The first position in `ms` whose monitor satisfies `p`.
pub open spec fn first_index(ms: Seq<MonitorView>, p: spec_fn(MonitorView) -> bool) -> Option<
    int,
>
    decreases ms.len(),
{
    if ms.len() == 0 {
        None
    } else if p(ms[0]) {
        Some(0)
    } else {
        match first_index(ms.skip(1), p) {
            Some(i) => Some(i + 1),
            None => None,
        }
    }
}

/// The monitor has the connector name `name`.
pub open spec fn named(name: Seq<char>) -> spec_fn(MonitorView) -> bool {
    |m: MonitorView| m.connector == Some(name)
}

/// The monitor sits at the logical origin.
pub open spec fn at_origin() -> spec_fn(MonitorView) -> bool {
    |m: MonitorView| m.x == 0 && m.y == 0
}

/// The monitor chosen without a matching configured output: the first one
/// at the logical origin (conventionally the primary), else the first one.
pub open spec fn primary_guess(ms: Seq<MonitorView>) -> Option<int> {
    match first_index(ms, at_origin()) {
        Some(i) => Some(i),
        None => if ms.len() > 0 {
            Some(0)
        } else {
            None
        },
    }
}

/// The menu monitor: the first whose connector is `wanted`, else the
/// primary guess.
pub open spec fn menu_monitor(ms: Seq<MonitorView>, wanted: Option<Seq<char>>) -> Option<int> {
    match wanted {
        Some(n) => match first_index(ms, named(n)) {
            Some(i) => Some(i),
            None => primary_guess(ms),
        },
        None => primary_guess(ms),
    }
}

/// The chosen monitor, and whether a configured output was not found (the
/// caller reports that before falling back).
#[derive(PartialEq, Eq, Structural, Clone, Copy, Debug)]
pub struct MonitorChoice {
    pub index: Option<usize>,
    pub wanted_missing: bool,
}

/// The first index at which `p` holds, scanning `ms` forward.
fn find_first_named(ms: &[MonitorInfo], name: &str) -> (r: Option<usize>)
    ensures
        match r {
            Some(i) => first_index(monitors_view(ms@), named(name@)) == Some(i as int),
            None => first_index(monitors_view(ms@), named(name@)) is None,
        },
{
    let n = ms.len();
    let ghost v = monitors_view(ms@);
    let mut i: usize = 0;
    proof {
        assert(v.skip(0) =~= v);
    }
    while i < n
        invariant
            n == ms@.len(),
            v == monitors_view(ms@),
            i <= n,
            first_index(v, named(name@)) == match first_index(v.skip(i as int), named(name@)) {
                Some(k) => Some(k + i),
                None => None::<int>,
            },
        decreases n - i,
    {
        let hit = match &ms[i].connector {
            Some(c) => str_eq(c.as_str(), name),
            None => false,
        };
        assert(v.skip(i as int)[0] == ms@[i as int]@);
        assert(v.skip(i as int).skip(1) =~= v.skip(i + 1));
        if hit {
            return Some(i);
        }
        i = i + 1;
    }
    None
}

/// The first index of a monitor at the logical origin.
fn find_first_at_origin(ms: &[MonitorInfo]) -> (r: Option<usize>)
    ensures
        match r {
            Some(i) => first_index(monitors_view(ms@), at_origin()) == Some(i as int),
            None => first_index(monitors_view(ms@), at_origin()) is None,
        },
{
    let n = ms.len();
    let ghost v = monitors_view(ms@);
    let mut i: usize = 0;
    proof {
        assert(v.skip(0) =~= v);
    }
    while i < n
        invariant
            n == ms@.len(),
            v == monitors_view(ms@),
            i <= n,
            first_index(v, at_origin()) == match first_index(v.skip(i as int), at_origin()) {
                Some(k) => Some(k + i),
                None => None::<int>,
            },
        decreases n - i,
    {
        assert(v.skip(i as int)[0] == ms@[i as int]@);
        assert(v.skip(i as int).skip(1) =~= v.skip(i + 1));
        if ms[i].x == 0 && ms[i].y == 0 {
            return Some(i);
        }
        i = i + 1;
    }
    None
}

/// Picks the menu monitor among `monitors` for the configured output
/// `wanted`. This is only a hint: some compositors place a
/// keyboard-grabbing surface on the focused output instead.
pub fn pick_menu_monitor(monitors: &[MonitorInfo], wanted: Option<&str>) -> (r: MonitorChoice)
    ensures
        match r.index {
            Some(i) => menu_monitor(
                monitors_view(monitors@),
                match wanted {
                    Some(w) => Some(w@),
                    None => None,
                },
            ) == Some(i as int),
            None => menu_monitor(
                monitors_view(monitors@),
                match wanted {
                    Some(w) => Some(w@),
                    None => None,
                },
            ) is None,
        },
        r.wanted_missing == match wanted {
            Some(w) => first_index(monitors_view(monitors@), named(w@)) is None,
            None => false,
        },
{
    let mut wanted_missing = false;
    if let Some(name) = wanted {
        match find_first_named(monitors, name) {
            Some(i) => {
                return MonitorChoice { index: Some(i), wanted_missing: false };
            },
            None => {
                wanted_missing = true;
            },
        }
    }
    let index = match find_first_at_origin(monitors) {
        Some(i) => Some(i),
        None => if monitors.len() > 0 {
            Some(0)
        } else {
            None
        },
    };
    MonitorChoice { index, wanted_missing }
}

/// A found index is in range.
pub proof fn lemma_first_index_in_range(ms: Seq<MonitorView>, p: spec_fn(MonitorView) -> bool)
    ensures
        first_index(ms, p) matches Some(i) ==> 0 <= i < ms.len() && p(ms[i]),
    decreases ms.len(),
{
    if ms.len() > 0 && !p(ms[0]) {
        lemma_first_index_in_range(ms.skip(1), p);
    }
}

/// Whenever any monitor is connected, some monitor carries the menu; only
/// with no monitor at all is there none.
pub proof fn lemma_menu_monitor_exists(ms: Seq<MonitorView>, wanted: Option<Seq<char>>)
    ensures
        menu_monitor(ms, wanted) matches Some(i) ==> 0 <= i < ms.len(),
        menu_monitor(ms, wanted) is None <==> ms.len() == 0,
{
    lemma_first_index_in_range(ms, at_origin());
    if let Some(n) = wanted {
        lemma_first_index_in_range(ms, named(n));
    }
}

/// Some position is found whenever some monitor satisfies the predicate,
/// and it is no later than that monitor.
pub proof fn lemma_first_index_found(ms: Seq<MonitorView>, p: spec_fn(MonitorView) -> bool, k: int)
    requires
        0 <= k < ms.len(),
        p(ms[k]),
    ensures
        first_index(ms, p) matches Some(i) && i <= k,
    decreases ms.len(),
{
    if !p(ms[0]) {
        assert(ms.skip(1)[k - 1] == ms[k]);
        lemma_first_index_found(ms.skip(1), p, k - 1);
    }
}

/// A configured output that is connected always carries the menu.
pub proof fn lemma_wanted_output_wins(ms: Seq<MonitorView>, name: Seq<char>, k: int)
    requires
        0 <= k < ms.len(),
        ms[k].connector == Some(name),
    ensures
        menu_monitor(ms, Some(name)) matches Some(i) && 0 <= i <= k && ms[i].connector == Some(
            name,
        ),
{
    lemma_first_index_in_range(ms, named(name));
    lemma_first_index_found(ms, named(name), k);
}

} // verus!
