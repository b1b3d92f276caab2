//! The transcript: an append-only log of events, read back as a recent window
//! and filtered per viewer.
use vstd::prelude::*;
use crate::actors::{DM_ACTOR, str_eq};
use crate::types::{TranscriptEvent, Visibility};

verus! {

/// Whether `viewer` may read `e`: public events are read by everyone; a whisper
/// by its sender, its target and the director.
pub open spec fn can_see(viewer: Seq<char>, e: TranscriptEvent) -> bool {
    match e.visibility {
        Visibility::Public => true,
        Visibility::Whisper { sender, target } => viewer == DM_ACTOR@ || viewer == sender@
            || viewer == target@,
    }
}

pub open spec fn whisper_sender(v: Visibility) -> Seq<char> {
    match v {
        Visibility::Whisper { sender, target } => sender@,
        Visibility::Public => Seq::empty(),
    }
}

pub open spec fn whisper_target(v: Visibility) -> Seq<char> {
    match v {
        Visibility::Whisper { sender, target } => target@,
        Visibility::Public => Seq::empty(),
    }
}

/// At most the last `limit` events, in the order they were appended.
pub open spec fn recent_spec(events: Seq<TranscriptEvent>, limit: nat) -> Seq<TranscriptEvent> {
    if events.len() > limit {
        events.skip(events.len() - limit)
    } else {
        events
    }
}

pub open spec fn visible_filter(viewer: Seq<char>) -> spec_fn(TranscriptEvent) -> bool {
    |e: TranscriptEvent| can_see(viewer, e)
}

/// The recent window of `events` as `viewer` sees it.
pub open spec fn visible_spec(events: Seq<TranscriptEvent>, viewer: Seq<char>, limit: nat) -> Seq<
    TranscriptEvent,
> {
    recent_spec(events, limit).filter(visible_filter(viewer))
}

pub fn event_visible_to(viewer: &str, e: &TranscriptEvent) -> (r: bool)
    ensures
        r == can_see(viewer@, *e),
{
    match &e.visibility {
        Visibility::Public => true,
        Visibility::Whisper { sender, target } => str_eq(viewer, DM_ACTOR) || str_eq(
            viewer,
            sender.as_str(),
        ) || str_eq(viewer, target.as_str()),
    }
}

/// The last `limit` events (all of them when there are fewer), oldest first.
pub fn recent_events(events: &Vec<TranscriptEvent>, limit: usize) -> (r: Vec<TranscriptEvent>)
    ensures
        r@ == recent_spec(events@, limit as nat),
{
    let n = events.len();
    let start: usize = if n > limit {
        n - limit
    } else {
        0
    };
    let mut r: Vec<TranscriptEvent> = Vec::new();
    let mut i: usize = start;
    while i < n
        invariant
            start <= i <= n == events@.len(),
            r@ == events@.subrange(start as int, i as int),
        decreases n - i,
    {
        r.push(events[i].copy());
        assert(events@.subrange(start as int, i + 1) == events@.subrange(start as int, i as int).push(
            events@[i as int],
        ));
        i = i + 1;
    }
    assert(events@.subrange(start as int, n as int) == recent_spec(events@, limit as nat));
    r
}

/// The events of `window` that `viewer` may read, in order.
pub fn filter_visible(window: &Vec<TranscriptEvent>, viewer: &str) -> (r: Vec<TranscriptEvent>)
    ensures
        r@ == window@.filter(visible_filter(viewer@)),
{
    let mut r: Vec<TranscriptEvent> = Vec::new();
    let mut i: usize = 0;
    while i < window.len()
        invariant
            i <= window@.len(),
            r@ == window@.take(i as int).filter(visible_filter(viewer@)),
        decreases window@.len() - i,
    {
        proof {
            reveal(Seq::filter);
            assert(window@.take(i + 1).drop_last() == window@.take(i as int));
            assert(window@.take(i + 1).last() == window@[i as int]);
        }
        if event_visible_to(viewer, &window[i]) {
            r.push(window[i].copy());
        }
        i = i + 1;
    }
    assert(window@.take(window@.len() as int) == window@);
    r
}

/// The recent window of the transcript as `viewer` sees it.
pub fn visible_events(events: &Vec<TranscriptEvent>, viewer: &str, limit: usize) -> (r: Vec<
    TranscriptEvent,
>)
    ensures
        r@ == visible_spec(events@, viewer@, limit as nat),
{
    let window = recent_events(events, limit);
    filter_visible(&window, viewer)
}

/// No viewer reads a whisper unless it is its sender, its target or the director;
/// every viewer reads every public event of the window; nothing outside the window
/// is shown.
pub proof fn lemma_visibility(events: Seq<TranscriptEvent>, viewer: Seq<char>, limit: nat)
    ensures
        forall|e: TranscriptEvent| #[trigger]
            visible_spec(events, viewer, limit).contains(e) ==> recent_spec(events, limit).contains(
                e,
            ),
        forall|e: TranscriptEvent|
            recent_spec(events, limit).contains(e) ==> (#[trigger] visible_spec(
                events,
                viewer,
                limit,
            ).contains(e) <==> can_see(viewer, e)),
        forall|e: TranscriptEvent|
            recent_spec(events, limit).contains(e) && e.visibility is Public ==> #[trigger] visible_spec(
                events,
                viewer,
                limit,
            ).contains(e),
        forall|e: TranscriptEvent|
            recent_spec(events, limit).contains(e) && e.visibility is Whisper ==> (
            #[trigger] visible_spec(events, viewer, limit).contains(e) <==> (viewer == DM_ACTOR@
                || viewer == whisper_sender(e.visibility) || viewer == whisper_target(
                e.visibility,
            ))),
{
    let w = recent_spec(events, limit);
    let p = visible_filter(viewer);
    let v = w.filter(p);
    assert forall|e: TranscriptEvent| #[trigger] v.contains(e) implies w.contains(e) && can_see(
        viewer,
        e,
    ) by {
        w.lemma_filter_contains_rev(p, e);
        let j = choose|j: int| 0 <= j < v.len() && v[j] == e;
        w.lemma_filter_pred(p, j);
    }
    assert forall|e: TranscriptEvent| w.contains(e) && can_see(viewer, e) implies #[trigger] v.contains(
        e,
    ) by {
        let j = choose|j: int| 0 <= j < w.len() && w[j] == e;
        w.lemma_filter_contains(p, j);
    }
}

/// After appending `log` one event at a time to an empty transcript, the window
/// of size `n` holds its last `min(n, k)` events in the order they were appended.
pub proof fn lemma_recent_after_appends(log: Seq<TranscriptEvent>, n: nat)
    ensures
        recent_spec(log, n).len() == if n < log.len() {
            n
        } else {
            log.len()
        },
        forall|i: int|
            0 <= i < recent_spec(log, n).len() ==> #[trigger] recent_spec(log, n)[i] == log[log.len()
                - recent_spec(log, n).len() + i],
{
}

/// Appending one event moves the window forward by that event and keeps the rest in order.
pub proof fn lemma_recent_append(log: Seq<TranscriptEvent>, e: TranscriptEvent, n: nat)
    requires
        n > 0,
    ensures
        recent_spec(log.push(e), n) == recent_spec(log, (n - 1) as nat).push(e),
{
    let w = recent_spec(log.push(e), n);
    let p = recent_spec(log, (n - 1) as nat);
    assert(w =~= p.push(e));
}

} // verus!
