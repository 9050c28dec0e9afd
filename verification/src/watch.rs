//! Which filesystem events in the config directory call for a reload.

use vstd::prelude::*;
use crate::config::opt_view;
use crate::text::str_eq;

verus! {

/// Debounce window for editor save patterns, in milliseconds.
pub const DEBOUNCE_MS: u64 = 150;

/// The file names whose change triggers a reload.
pub open spec fn is_watched_name(name: Seq<char>) -> bool {
    name == "config.toml"@ || name == "style.css"@ || name == "template.html"@
}

/// Whether `name` is one of `config.toml`, `style.css`, `template.html`.
pub fn is_relevant_name(name: &str) -> (r: bool)
    ensures
        r == is_watched_name(name@),
{
    str_eq(name, "config.toml") || str_eq(name, "style.css") || str_eq(name, "template.html")
}

/// One debounced filesystem event, as plain values.
#[derive(Debug)]
pub struct FsEvent {
    /// The event is an access (open, read, close) rather than a change.
    pub is_access: bool,
    /// The final component of each path, `None` where it has none or it is
    /// not valid UTF-8.
    pub file_names: Vec<Option<String>>,
}

/// An event that changes a watched file. Access events never count: the
/// reload itself reads the watched files, and counting those reads would
/// reload forever.
pub open spec fn event_relevant(e: FsEvent) -> bool {
    !e.is_access && exists|j: int|
        0 <= j < e.file_names@.len() && (#[trigger] opt_view(e.file_names@[j]) matches Some(
            n,
        ) && is_watched_name(n))
}

/// Whether some event of the batch changes a watched file.
pub open spec fn batch_relevant(events: Seq<FsEvent>) -> bool {
    exists|i: int| 0 <= i < events.len() && event_relevant(#[trigger] events[i])
}

/// Whether one event changes a watched file.
fn relevant_event(e: &FsEvent) -> (r: bool)
    ensures
        r == event_relevant(*e),
{
    if e.is_access {
        return false;
    }
    let n = e.file_names.len();
    for j in 0..n
        invariant
            n == e.file_names@.len(),
            !e.is_access,
            forall|k: int|
                0 <= k < j ==> !(#[trigger] opt_view(e.file_names@[k]) matches Some(n)
                    && is_watched_name(n)),
    {
        if let Some(name) = &e.file_names[j] {
            if is_relevant_name(name.as_str()) {
                assert(opt_view(e.file_names@[j as int]) matches Some(n) && is_watched_name(n));
                return true;
            }
        }
    }
    false
}

/// Whether a debounced batch of events calls for a reload.
pub fn batch_is_relevant(events: &[FsEvent]) -> (r: bool)
    ensures
        r == batch_relevant(events@),
{
    let n = events.len();
    for i in 0..n
        invariant
            n == events@.len(),
            forall|k: int| 0 <= k < i ==> !event_relevant(#[trigger] events@[k]),
    {
        if relevant_event(&events[i]) {
            return true;
        }
    }
    false
}

} // verus!

verus! {

/// A batch made only of access events never reloads, so the reload's own
/// reads of the watched files cannot set off another reload.
pub proof fn lemma_access_only_batch(events: Seq<FsEvent>)
    requires
        forall|i: int| 0 <= i < events.len() ==> (#[trigger] events[i]).is_access,
    ensures
        !batch_relevant(events),
{
    assert forall|i: int| 0 <= i < events.len() implies !event_relevant(#[trigger] events[i]) by {
        assert(events[i].is_access);
    }
}

} // verus!

verus! {

/// A batch calls for a reload exactly when one of its parts does: relevance
/// looks at every event, wherever it stands in the batch.
pub proof fn lemma_batch_concat(a: Seq<FsEvent>, b: Seq<FsEvent>)
    ensures
        batch_relevant(a + b) == (batch_relevant(a) || batch_relevant(b)),
{
    let ab = a + b;
    if batch_relevant(a) {
        let i = choose|i: int| 0 <= i < a.len() && event_relevant(#[trigger] a[i]);
        assert(ab[i] == a[i]);
    }
    if batch_relevant(b) {
        let i = choose|i: int| 0 <= i < b.len() && event_relevant(#[trigger] b[i]);
        assert(ab[a.len() + i] == b[i]);
    }
    if batch_relevant(ab) {
        let i = choose|i: int| 0 <= i < ab.len() && event_relevant(#[trigger] ab[i]);
        if i < a.len() {
            assert(ab[i] == a[i]);
        } else {
            assert(ab[i] == b[i - a.len()]);
        }
    }
}

/// A one-event batch is relevant exactly when its event is, and an empty
/// batch never is.
pub proof fn lemma_batch_single(e: FsEvent)
    ensures
        batch_relevant(seq![e]) == event_relevant(e),
        !batch_relevant(Seq::<FsEvent>::empty()),
{
    if event_relevant(e) {
        assert(seq![e][0] == e);
    }
}

/// Adding events to a batch never makes a reload go away.
pub proof fn lemma_batch_grows(b: Seq<FsEvent>, e: FsEvent)
    requires
        batch_relevant(b),
    ensures
        batch_relevant(b.push(e)),
        batch_relevant(seq![e] + b),
{
    lemma_batch_concat(b, seq![e]);
    assert(b.push(e) =~= b + seq![e]);
    lemma_batch_concat(seq![e], b);
}

/// A change event naming `config.toml`, `style.css` or `template.html`
/// (among any other paths) is relevant; an access event never is.
pub proof fn lemma_event_names(e: FsEvent, j: int)
    requires
        0 <= j < e.file_names@.len(),
        opt_view(e.file_names@[j]) matches Some(n) && (n == "config.toml"@ || n == "style.css"@
            || n == "template.html"@),
    ensures
        event_relevant(e) == !e.is_access,
{
}

} // verus!
