//! What holds of every run of the harness, whatever the feed, the build
//! runner and the cancellation flag do.

use vstd::prelude::*;
use crate::harness::{ActionView, EventView, HarnessError, HarnessState, Phase, StopReason};
use crate::item::{cursor_below, page_answers, strictly_descending};
use crate::results::Tally;
use crate::verdict::VerdictView;

verus! {

/// The state that `events`, reported one after the other, lead to from `s`.
pub open spec fn run(s: HarnessState, events: Seq<EventView>) -> HarnessState
    decreases events.len(),
{
    if events.len() == 0 {
        s
    } else {
        run(s, events.drop_last()).step(events.last()).next
    }
}

/// A state before anything has happened: nothing fetched, nothing built,
/// nothing counted. Both [`HarnessState::continuous`] and
/// [`HarnessState::single`] are of this kind.
pub open spec fn fresh(s: HarnessState) -> bool {
    &&& s.phase == (if s.single {
        Phase::AwaitingItem
    } else {
        Phase::AwaitingPage
    })
    &&& s.single ==> s.ignore == Set::<u64>::empty()
    &&& s.cursor is None
    &&& s.pending.len() == 0
    &&& s.results == Tally::empty().with_total(s.results.total)
    &&& s.built.len() == 0
    &&& s.started == 0
    &&& s.aborted == 0
}

/// Every run begins fresh, in either mode.
pub proof fn law_runs_begin_fresh(ignore: Set<u64>, announced: nat, expected_author: Seq<char>)
    ensures
        fresh(HarnessState::continuous(ignore, announced)),
        fresh(HarnessState::single(expected_author)),
{
}

/// Whether `event`, arriving in state `at`, is a page as the feed promises
/// it for the cursor of `at`. Any event that is not an awaited page counts as
/// kept.
pub open spec fn page_kept(at: HarnessState, event: EventView) -> bool {
    match event {
        EventView::Page(items) => at.phase == Phase::AwaitingPage ==> page_answers(
            items,
            at.cursor,
        ),
        _ => true,
    }
}

/// Whether every page among `events` is as the feed promises it for the
/// cursor with which it was asked for.
pub open spec fn feed_kept(s: HarnessState, events: Seq<EventView>) -> bool {
    forall|k: int| 0 <= k < events.len() ==> page_kept(#[trigger] run(s, events.take(k)), events[k])
}

/// The number of items that are with the build runner: one or none.
pub open spec fn in_flight(s: HarnessState) -> nat {
    match s.phase {
        Phase::AwaitingVerdict(_) => 1,
        _ => 0,
    }
}

/// Whether no verdict among `events` is `Aborted`.
pub open spec fn no_build_aborted(events: Seq<EventView>) -> bool {
    forall|k: int|
        0 <= k < events.len() ==> !(#[trigger] events[k] matches EventView::Verdict(
            VerdictView::Aborted,
        ))
}

/// The order that a run keeps among the items it has built, those it still
/// holds and its cursor.
pub open spec fn orderly(s: HarnessState) -> bool {
    if s.single {
        &&& s.ignore == Set::<u64>::empty()
        &&& s.built.len() <= 1
        &&& s.phase == Phase::AwaitingItem ==> s.built.len() == 0
        &&& s.phase is AwaitingItem || s.phase is AwaitingVerdict || s.phase is Stopped
    } else {
        &&& !(s.phase is AwaitingItem)
        &&& strictly_descending(s.pending)
        &&& s.built.no_duplicates()
        &&& s.built.len() > 0 ==> s.cursor is Some
        &&& forall|i: int| 0 <= i < s.built.len() ==> s.cursor->0 <= #[trigger] s.built[i]
        &&& forall|i: int|
            0 <= i < s.built.len() && s.pending.len() > 0 ==> s.pending[0].id
                < #[trigger] s.built[i]
        &&& s.pending.len() > 0 ==> s.cursor is Some && s.pending[0].id <= s.cursor->0
    }
}

/// The bookkeeping that a run keeps: every item taken up is settled, aborted
/// or still with the build runner, and every failure has its diagnostic.
pub open spec fn accounted(s: HarnessState) -> bool {
    &&& s.results.settled() + s.aborted + in_flight(s) == s.started
    &&& s.results.failed == s.results.failures.len()
}

/// One step keeps the order, if the event is a page as the feed promises it.
pub proof fn lemma_step_keeps_order(s: HarnessState, event: EventView)
    requires
        orderly(s),
        page_kept(s, event),
    ensures
        orderly(s.step(event).next),
{
}

/// One step keeps the books.
pub proof fn lemma_step_keeps_account(s: HarnessState, event: EventView)
    requires
        accounted(s),
    ensures
        accounted(s.step(event).next),
{
}

proof fn lemma_prefix_of_kept_feed(s: HarnessState, events: Seq<EventView>, n: int)
    requires
        feed_kept(s, events),
        0 <= n <= events.len(),
    ensures
        feed_kept(s, events.take(n)),
{
    assert forall|k: int| 0 <= k < events.take(n).len() implies page_kept(
        #[trigger] run(s, events.take(n).take(k)),
        events.take(n)[k],
    ) by {
        assert(events.take(n).take(k) =~= events.take(k));
    }
}

/// A run that begins in order and is fed as promised stays in order.
pub proof fn lemma_run_keeps_order(s: HarnessState, events: Seq<EventView>)
    requires
        orderly(s),
        feed_kept(s, events),
    ensures
        orderly(run(s, events)),
    decreases events.len(),
{
    if events.len() > 0 {
        let n = events.len() - 1;
        lemma_prefix_of_kept_feed(s, events, n);
        lemma_run_keeps_order(s, events.drop_last());
        lemma_step_keeps_order(run(s, events.drop_last()), events.last());
    }
}

/// A run that begins with its books in balance keeps them so.
pub proof fn lemma_run_keeps_account(s: HarnessState, events: Seq<EventView>)
    requires
        accounted(s),
    ensures
        accounted(run(s, events)),
    decreases events.len(),
{
    if events.len() > 0 {
        lemma_run_keeps_account(s, events.drop_last());
        lemma_step_keeps_account(run(s, events.drop_last()), events.last());
    }
}

/// No item is handed to the build runner twice: whatever pages the feed
/// returns, as long as each is in descending order and strictly older than
/// the cursor it answers, the identifiers built in a run are all different.
pub proof fn law_no_item_is_built_twice(s: HarnessState, events: Seq<EventView>)
    requires
        fresh(s),
        feed_kept(s, events),
    ensures
        run(s, events).built.no_duplicates(),
{
    lemma_run_keeps_order(s, events);
}

/// The cursor only falls. Each event of a run leaves the cursor where it is
/// or moves it strictly down, and taking up an item always moves it strictly
/// down, with one exception: below zero there is no cursor value, so an item
/// with identifier 0 that is taken up when the cursor is already 0 leaves it
/// there.
pub proof fn law_cursor_only_falls(s: HarnessState, events: Seq<EventView>, k: int)
    requires
        fresh(s),
        feed_kept(s, events),
        0 <= k < events.len(),
    ensures
        ({
            let before = run(s, events.take(k));
            let after = run(s, events.take(k + 1));
            &&& after.cursor == before.cursor || cursor_below(after.cursor, before.cursor)
            &&& after.started > before.started && !before.single && before.cursor != Some(0u64)
                ==> cursor_below(after.cursor, before.cursor)
        }),
{
    lemma_prefix_of_kept_feed(s, events, k);
    lemma_run_keeps_order(s, events.take(k));
    assert(events.take(k + 1).drop_last() =~= events.take(k));
}

/// Every item is accounted for. At any point of a run, the items taken up so
/// far are those that passed, failed or were ignored, those whose build was
/// aborted, and the one that may still be with the build runner. So the
/// number that a report calls aborted, the items expected less those that
/// passed, failed or were ignored, is the items never taken up plus the
/// aborted and unfinished builds; and as long as no more items are taken up
/// than were expected, the settled ones never exceed the expected total.
pub proof fn law_every_item_is_accounted_for(s: HarnessState, events: Seq<EventView>)
    requires
        fresh(s),
    ensures
        ({
            let end = run(s, events);
            &&& end.results.settled() + end.aborted + in_flight(end) == end.started
            &&& end.results.aborted_remainder() == (end.results.total - end.started) + end.aborted
                + in_flight(end)
            &&& end.results.failed == end.results.failures.len()
            &&& end.started <= end.results.total ==> end.results.settled() <= end.results.total
        }),
{
    lemma_run_keeps_account(s, events);
}

proof fn lemma_aborted_counts_aborted_verdicts(s: HarnessState, events: Seq<EventView>)
    requires
        no_build_aborted(events),
    ensures
        run(s, events).aborted == s.aborted,
    decreases events.len(),
{
    if events.len() > 0 {
        lemma_aborted_counts_aborted_verdicts(s, events.drop_last());
    }
}

/// In a run in which no build is aborted, the items that passed, failed or
/// were ignored are exactly the items taken up, but for the one that may
/// still be with the build runner; once the run has stopped they are all of
/// them.
pub proof fn law_uninterrupted_run_settles_every_item(s: HarnessState, events: Seq<EventView>)
    requires
        fresh(s),
        no_build_aborted(events),
    ensures
        ({
            let end = run(s, events);
            &&& end.results.settled() + in_flight(end) == end.started
            &&& end.phase is Stopped ==> end.results.settled() == end.started
        }),
{
    lemma_run_keeps_account(s, events);
    lemma_aborted_counts_aborted_verdicts(s, events);
}

/// What a run keeps to when it chooses what to build: a single-item run
/// ignores nothing, only a single-item run waits for one item, and nothing
/// built so far is in the ignore set.
pub open spec fn selective(s: HarnessState) -> bool {
    &&& s.single ==> s.ignore == Set::<u64>::empty()
    &&& s.phase is AwaitingItem ==> s.single
    &&& forall|i: int| 0 <= i < s.built.len() ==> !s.ignore.contains(#[trigger] s.built[i])
}

/// One step keeps the selection, never changes the ignore set, and never
/// answers with a build of an ignored item.
pub proof fn lemma_step_keeps_selection(s: HarnessState, event: EventView)
    requires
        selective(s),
    ensures
        selective(s.step(event).next),
        s.step(event).next.ignore == s.ignore,
        s.step(event).next.single == s.single,
        s.step(event).outcome matches Ok(ActionView::Build(item)) ==> !s.ignore.contains(item.id),
{
}

proof fn lemma_run_keeps_selection(s: HarnessState, events: Seq<EventView>)
    requires
        selective(s),
    ensures
        selective(run(s, events)),
        run(s, events).ignore == s.ignore,
    decreases events.len(),
{
    if events.len() > 0 {
        lemma_run_keeps_selection(s, events.drop_last());
        lemma_step_keeps_selection(run(s, events.drop_last()), events.last());
    }
}

/// An ignored item is never handed to the build runner: the ignore set of a
/// run never changes, no identifier that the run has built is in it, and the
/// answer to any further event is never a build of an item in it.
pub proof fn law_ignored_items_are_never_built(
    s: HarnessState,
    events: Seq<EventView>,
    event: EventView,
)
    requires
        fresh(s),
    ensures
        run(s, events).ignore == s.ignore,
        forall|i: int|
            0 <= i < run(s, events).built.len() ==> !s.ignore.contains(
                #[trigger] run(s, events).built[i],
            ),
        run(s, events).step(event).outcome matches Ok(ActionView::Build(item))
            ==> !s.ignore.contains(item.id),
{
    lemma_run_keeps_selection(s, events);
    lemma_step_keeps_selection(run(s, events), event);
}

/// A run that has stopped stays stopped: it refuses every further event and
/// changes nothing, so nothing is built after a stop, whatever the reason for
/// it was.
pub proof fn law_stopped_run_stays_stopped(s: HarnessState, events: Seq<EventView>)
    requires
        s.phase is Stopped,
    ensures
        run(s, events) == s,
        forall|event: EventView|
            #[trigger] s.step(event).outcome == Err::<ActionView, HarnessError>(
                HarnessError::UnexpectedEvent,
            ),
    decreases events.len(),
{
    if events.len() > 0 {
        law_stopped_run_stays_stopped(s, events.drop_last());
    }
}

/// Cancellation does not touch what is on record. A verdict is recorded as
/// it arrives, and when the cancellation flag is found set afterwards the run
/// stops with the tally exactly as that verdict left it.
pub proof fn law_cancellation_keeps_recorded_verdict(
    s: HarnessState,
    id: u64,
    verdict: VerdictView,
)
    requires
        s.phase == Phase::AwaitingVerdict(id),
        !s.single,
    ensures
        ({
            let recorded = s.step(EventView::Verdict(verdict)).next;
            let stopped = recorded.step(EventView::Flag(true));
            &&& recorded.results == s.results.with_verdict(id, verdict)
            &&& stopped.next.results == recorded.results
            &&& stopped.next.phase == Phase::Stopped(StopReason::Cancelled)
            &&& stopped.outcome == Ok::<ActionView, HarnessError>(
                ActionView::Stop(StopReason::Cancelled),
            )
        }),
{
}

/// Nothing on record is ever revised: no event lowers a count, and the
/// failures recorded before an event are still there after it, in the same
/// places.
pub proof fn law_recorded_outcomes_stand(s: HarnessState, event: EventView)
    ensures
        ({
            let t = s.step(event).next;
            &&& s.results.passed <= t.results.passed
            &&& s.results.failed <= t.results.failed
            &&& s.results.ignored <= t.results.ignored
            &&& s.results.total == t.results.total
            &&& s.results.failures.len() <= t.results.failures.len()
            &&& forall|i: int|
                0 <= i < s.results.failures.len() ==> t.results.failures[i]
                    == s.results.failures[i]
        }),
{
}

} // verus!
