//! The control loop of a run, as a transition function.
//!
//! The harness never fetches or builds anything itself. It tells its driver
//! what to do next (an [`Action`]), and the driver reports what came of it (an
//! [`Event`]). Between the two the harness keeps the cursor, the rest of the
//! current page and the tally.
//!
//! A continuous run asks for a page, takes up its items one by one, largest
//! identifier first, and asks for the cancellation flag after each item and
//! once more after each page. It ends when a page comes back empty or the
//! flag is found set. A single-item run asks for its item, has it built if it
//! is by the expected author, and ends with the verdict.

use vstd::prelude::*;
use crate::ignore::IgnoreSet;
use crate::item::{Cursor, ItemView, WorkItem, cursor_after, items_view, next_cursor};
use crate::results::{ResultData, Tally};
use crate::verdict::{BuildVerdict, VerdictView};

verus! {

/// Why a run has come to its end.
#[derive(Debug, Clone, Copy, PartialEq, Eq, Structural)]
pub enum StopReason {
    /// The feed returned an empty page: nothing older is left.
    Drained,
    /// Cancellation was observed between two items or two pages.
    Cancelled,
    /// The one item of a single-item run has its verdict.
    Completed,
    /// The one item of a single-item run does not come from the expected
    /// author; nothing was built.
    Rejected,
    /// The feed failed to deliver what it was asked for.
    FeedFailed,
}

/// Where a run stands, and so which event it expects next.
#[derive(Debug, Clone, Copy, PartialEq, Eq, Structural)]
pub enum Phase {
    /// A single-item run waits for its item.
    AwaitingItem,
    /// A continuous run waits for the page older than its cursor.
    AwaitingPage,
    /// The item with this identifier is with the build runner.
    AwaitingVerdict(u64),
    /// An item is done; the cancellation flag is to be read before the next
    /// one is taken up.
    AfterItem,
    /// A page is done; the cancellation flag is to be read once more before
    /// the next page is fetched.
    AfterPage,
    /// The run is over.
    Stopped(StopReason),
}

/// Why the harness refused an event.
#[derive(Debug, Clone, Copy, PartialEq, Eq, Structural)]
pub enum HarnessError {
    /// The event is not the one that the current phase expects. The state is
    /// left as it was.
    UnexpectedEvent,
    /// The item of a single-item run names no author.
    AuthorMissing,
    /// The item of a single-item run was written by another author than the
    /// expected one.
    AuthorMismatch,
    /// The feed failed; the run cannot go on.
    FeedFailed,
}

/// What the driver reports to the harness.
#[derive(Debug)]
pub enum Event {
    /// The item that a single-item run asked for.
    Item(WorkItem),
    /// The page that the feed returned for the current cursor.
    Page(Vec<WorkItem>),
    /// The verdict of the build runner on the item it was handed.
    Verdict(BuildVerdict),
    /// The cancellation flag as it was just read: `true` if cancellation has
    /// been requested.
    Flag(bool),
    /// The feed could not deliver the item or the page it was asked for.
    FeedFailed,
}

/// The mathematical value of an [`Event`].
pub enum EventView {
    Item(ItemView),
    Page(Seq<ItemView>),
    Verdict(VerdictView),
    Flag(bool),
    FeedFailed,
}

impl View for Event {
    type V = EventView;

    open spec fn view(&self) -> EventView {
        match self {
            Event::Item(item) => EventView::Item(item@),
            Event::Page(items) => EventView::Page(items_view(items@)),
            Event::Verdict(verdict) => EventView::Verdict(verdict@),
            Event::Flag(cancelled) => EventView::Flag(*cancelled),
            Event::FeedFailed => EventView::FeedFailed,
        }
    }
}

/// What the harness asks of its driver.
#[derive(Debug)]
pub enum Action {
    /// Fetch the item with this identifier and report it as [`Event::Item`].
    FetchItem(u64),
    /// Fetch the page for this cursor and report it as [`Event::Page`].
    FetchPage(Cursor),
    /// Hand this item to the build runner and report the verdict as
    /// [`Event::Verdict`].
    Build(WorkItem),
    /// Read the cancellation flag and report it as [`Event::Flag`].
    Observe,
    /// Stop: the run is over.
    Stop(StopReason),
}

/// The mathematical value of an [`Action`].
pub enum ActionView {
    FetchItem(u64),
    FetchPage(Cursor),
    Build(ItemView),
    Observe,
    Stop(StopReason),
}

impl View for Action {
    type V = ActionView;

    open spec fn view(&self) -> ActionView {
        match self {
            Action::FetchItem(id) => ActionView::FetchItem(*id),
            Action::FetchPage(cursor) => ActionView::FetchPage(*cursor),
            Action::Build(item) => ActionView::Build(item@),
            Action::Observe => ActionView::Observe,
            Action::Stop(reason) => ActionView::Stop(*reason),
        }
    }
}

/// The mathematical value of what [`Harness::step`] returns.
pub open spec fn outcome_view(outcome: Result<Action, HarnessError>) -> Result<
    ActionView,
    HarnessError,
> {
    match outcome {
        Ok(action) => Ok(action@),
        Err(error) => Err(error),
    }
}

/// The mathematical value of a [`Harness`], together with the record of what
/// the run has done so far.
pub struct HarnessState {
    /// Whether this is a single-item run.
    pub single: bool,
    pub phase: Phase,
    pub cursor: Cursor,
    /// The identifiers that the run skips.
    pub ignore: Set<u64>,
    /// The author that the item of a single-item run must have.
    pub expected_author: Seq<char>,
    /// The items of the current page that have not been taken up yet.
    pub pending: Seq<ItemView>,
    pub results: Tally,
    /// The identifiers handed to the build runner so far, first one first.
    pub built: Seq<u64>,
    /// The number of items taken up so far, built or ignored.
    pub started: nat,
    /// The number of verdicts so far that were `Aborted`.
    pub aborted: nat,
}

/// A state after an event, and what the harness answered.
pub struct Transition {
    pub next: HarnessState,
    pub outcome: Result<ActionView, HarnessError>,
}

impl HarnessState {
    /// The state in which a continuous run begins: the feed has announced
    /// `announced` items, nothing is fetched yet.
    pub open spec fn continuous(ignore: Set<u64>, announced: nat) -> HarnessState {
        HarnessState {
            single: false,
            phase: Phase::AwaitingPage,
            cursor: None,
            ignore,
            expected_author: Seq::empty(),
            pending: Seq::empty(),
            results: Tally::empty().with_total(announced),
            built: Seq::empty(),
            started: 0,
            aborted: 0,
        }
    }

    /// The state in which a single-item run begins. Such a run expects one
    /// item and ignores none.
    pub open spec fn single(expected_author: Seq<char>) -> HarnessState {
        HarnessState {
            single: true,
            phase: Phase::AwaitingItem,
            cursor: None,
            ignore: Set::empty(),
            expected_author,
            pending: Seq::empty(),
            results: Tally::empty().with_total(1),
            built: Seq::empty(),
            started: 0,
            aborted: 0,
        }
    }

    /// The run stops for `reason`.
    pub open spec fn stop(self, reason: StopReason) -> Transition {
        Transition {
            next: HarnessState { phase: Phase::Stopped(reason), ..self },
            outcome: Ok(ActionView::Stop(reason)),
        }
    }

    /// The event is refused and the state stays as it is.
    pub open spec fn refuse(self) -> Transition {
        Transition { next: self, outcome: Err(HarnessError::UnexpectedEvent) }
    }

    /// The run ends with an error, for `reason`.
    pub open spec fn fail(self, reason: StopReason, error: HarnessError) -> Transition {
        Transition {
            next: HarnessState { phase: Phase::Stopped(reason), ..self },
            outcome: Err(error),
        }
    }

    /// The item is handed to the build runner.
    pub open spec fn hand_out(self, item: ItemView) -> Transition {
        Transition {
            next: HarnessState {
                phase: Phase::AwaitingVerdict(item.id),
                built: self.built.push(item.id),
                started: self.started + 1,
                ..self
            },
            outcome: Ok(ActionView::Build(item)),
        }
    }

    /// The first pending item is taken up. The cursor moves below it before
    /// anything else happens. An ignored item is counted and skipped; any
    /// other is handed to the build runner.
    pub open spec fn take_up(self) -> Transition
        recommends
            self.pending.len() > 0,
    {
        let item = self.pending[0];
        let moved = HarnessState {
            cursor: Some(cursor_after(item.id)),
            pending: self.pending.drop_first(),
            ..self
        };
        if self.ignore.contains(item.id) {
            Transition {
                next: HarnessState {
                    phase: Phase::AfterItem,
                    results: moved.results.with_ignored(),
                    started: moved.started + 1,
                    ..moved
                },
                outcome: Ok(ActionView::Observe),
            }
        } else {
            moved.hand_out(item)
        }
    }

    /// The item of a single-item run has arrived. It is built only if it
    /// names the expected author.
    pub open spec fn admit_item(self, item: ItemView) -> Transition {
        match item.author {
            None => self.fail(StopReason::Rejected, HarnessError::AuthorMissing),
            Some(author) => if author == self.expected_author {
                self.hand_out(item)
            } else {
                self.fail(StopReason::Rejected, HarnessError::AuthorMismatch)
            },
        }
    }

    /// The verdict on item `id` has arrived and is recorded as it is. A
    /// single-item run is then complete; a continuous run goes on to read the
    /// cancellation flag.
    pub open spec fn settle(self, id: u64, verdict: VerdictView) -> Transition {
        let recorded = HarnessState {
            results: self.results.with_verdict(id, verdict),
            aborted: if verdict is Aborted {
                self.aborted + 1
            } else {
                self.aborted
            },
            ..self
        };
        if self.single {
            recorded.stop(StopReason::Completed)
        } else {
            Transition {
                next: HarnessState { phase: Phase::AfterItem, ..recorded },
                outcome: Ok(ActionView::Observe),
            }
        }
    }

    /// The state after `event`, and the answer to it.
    pub open spec fn step(self, event: EventView) -> Transition {
        match (self.phase, event) {
            (Phase::AwaitingItem, EventView::Item(item)) => self.admit_item(item),
            (Phase::AwaitingItem, EventView::FeedFailed) => self.fail(
                StopReason::FeedFailed,
                HarnessError::FeedFailed,
            ),
            (Phase::AwaitingPage, EventView::FeedFailed) => self.fail(
                StopReason::FeedFailed,
                HarnessError::FeedFailed,
            ),
            (Phase::AwaitingPage, EventView::Page(items)) => if items.len() == 0 {
                self.stop(StopReason::Drained)
            } else {
                HarnessState { pending: items, ..self }.take_up()
            },
            (Phase::AwaitingVerdict(id), EventView::Verdict(verdict)) => self.settle(id, verdict),
            (Phase::AfterItem, EventView::Flag(cancelled)) => if cancelled {
                self.stop(StopReason::Cancelled)
            } else if self.pending.len() > 0 {
                self.take_up()
            } else {
                Transition {
                    next: HarnessState { phase: Phase::AfterPage, ..self },
                    outcome: Ok(ActionView::Observe),
                }
            },
            (Phase::AfterPage, EventView::Flag(cancelled)) => if cancelled {
                self.stop(StopReason::Cancelled)
            } else {
                Transition {
                    next: HarnessState { phase: Phase::AwaitingPage, ..self },
                    outcome: Ok(ActionView::FetchPage(self.cursor)),
                }
            },
            _ => self.refuse(),
        }
    }
}

/// The control loop of one run.
pub struct Harness {
    single: bool,
    phase: Phase,
    cursor: Cursor,
    ignore: IgnoreSet,
    expected_author: String,
    pending: Vec<WorkItem>,
    results: ResultData,
    built: Ghost<Seq<u64>>,
    started: Ghost<nat>,
    aborted: Ghost<nat>,
}

impl View for Harness {
    type V = HarnessState;

    closed spec fn view(&self) -> HarnessState {
        HarnessState {
            single: self.single,
            phase: self.phase,
            cursor: self.cursor,
            ignore: self.ignore@,
            expected_author: self.expected_author@,
            pending: items_view(self.pending@),
            results: self.results@,
            built: self.built@,
            started: self.started@,
            aborted: self.aborted@,
        }
    }
}

impl Harness {
    /// Begins a continuous run over a feed that has announced `announced`
    /// items. The first thing to do is to fetch the newest page.
    pub fn continuous(ignore: IgnoreSet, announced: u64) -> (begun: (Harness, Action))
        ensures
            begun.0@ == HarnessState::continuous(ignore@, announced as nat),
            begun.1@ == ActionView::FetchPage(None),
    {
        let mut results = ResultData::new();
        results.set_total(announced);
        let harness = Harness {
            single: false,
            phase: Phase::AwaitingPage,
            cursor: None,
            ignore,
            expected_author: String::new(),
            pending: Vec::new(),
            results,
            built: Ghost(Seq::empty()),
            started: Ghost(0),
            aborted: Ghost(0),
        };
        assert(harness@.pending =~= Seq::empty());
        (harness, Action::FetchPage(None))
    }

    /// Begins a single-item run for the item with identifier `id`, which must
    /// come from `expected_author`. The first thing to do is to fetch that
    /// item.
    pub fn single(id: u64, expected_author: String) -> (begun: (Harness, Action))
        ensures
            begun.0@ == HarnessState::single(expected_author@),
            begun.1@ == ActionView::FetchItem(id),
    {
        let mut results = ResultData::new();
        results.set_total(1);
        let harness = Harness {
            single: true,
            phase: Phase::AwaitingItem,
            cursor: None,
            ignore: IgnoreSet::empty(),
            expected_author,
            pending: Vec::new(),
            results,
            built: Ghost(Seq::empty()),
            started: Ghost(0),
            aborted: Ghost(0),
        };
        assert(harness@.pending =~= Seq::empty());
        (harness, Action::FetchItem(id))
    }

    /// Where the run stands.
    pub fn phase(&self) -> (phase: Phase)
        ensures
            phase == self@.phase,
    {
        self.phase
    }

    /// The cursor for the next page.
    pub fn cursor(&self) -> (cursor: Cursor)
        ensures
            cursor == self@.cursor,
    {
        self.cursor
    }

    /// The tally so far.
    pub fn results(&self) -> (results: &ResultData)
        ensures
            results@ == self@.results,
    {
        &self.results
    }

    /// Whether the run is over, and if so why.
    pub fn stopped(&self) -> (reason: Option<StopReason>)
        ensures
            reason == (match self@.phase {
                Phase::Stopped(r) => Some(r),
                _ => None,
            }),
    {
        match self.phase {
            Phase::Stopped(r) => Some(r),
            _ => None,
        }
    }

    fn stop(&mut self, reason: StopReason) -> (action: Action)
        ensures
            final(self)@ == old(self)@.stop(reason).next,
            Ok::<ActionView, HarnessError>(action@) == old(self)@.stop(reason).outcome,
    {
        self.phase = Phase::Stopped(reason);
        Action::Stop(reason)
    }

    fn fail(&mut self, reason: StopReason, error: HarnessError) -> (refusal: HarnessError)
        ensures
            final(self)@ == old(self)@.fail(reason, error).next,
            Err::<ActionView, HarnessError>(refusal) == old(self)@.fail(reason, error).outcome,
    {
        self.phase = Phase::Stopped(reason);
        error
    }

    fn hand_out(&mut self, item: WorkItem) -> (action: Action)
        ensures
            final(self)@ == old(self)@.hand_out(item@).next,
            Ok::<ActionView, HarnessError>(action@) == old(self)@.hand_out(item@).outcome,
    {
        self.phase = Phase::AwaitingVerdict(item.id);
        self.built = Ghost(self.built@.push(item.id));
        self.started = Ghost(self.started@ + 1);
        Action::Build(item)
    }

    fn take_up(&mut self) -> (action: Action)
        requires
            old(self)@.pending.len() > 0,
            old(self)@.results.has_room(),
        ensures
            final(self)@ == old(self)@.take_up().next,
            Ok::<ActionView, HarnessError>(action@) == old(self)@.take_up().outcome,
    {
        let item = self.pending.remove(0);
        assert(items_view(self.pending@) =~= old(self)@.pending.drop_first());
        self.cursor = Some(next_cursor(item.id));
        if self.ignore.contains(item.id) {
            self.results.record_ignored();
            self.phase = Phase::AfterItem;
            self.started = Ghost(self.started@ + 1);
            Action::Observe
        } else {
            self.hand_out(item)
        }
    }

    /// Takes the driver's report and answers with what to do next.
    ///
    /// An event that the current phase does not expect is refused with
    /// [`HarnessError::UnexpectedEvent`] and changes nothing. The item of a
    /// single-item run that does not name the expected author ends the run
    /// with an error before anything is built, and so does a failure of the
    /// feed.
    pub fn step(&mut self, event: Event) -> (outcome: Result<Action, HarnessError>)
        requires
            old(self)@.results.has_room(),
        ensures
            final(self)@ == old(self)@.step(event@).next,
            outcome_view(outcome) == old(self)@.step(event@).outcome,
    {
        let phase = self.phase;
        match event {
            Event::Item(item) => match phase {
                Phase::AwaitingItem => {
                    let named = match &item.author {
                        Some(author) => Some(*author == self.expected_author),
                        None => None,
                    };
                    match named {
                        None => Err(self.fail(StopReason::Rejected, HarnessError::AuthorMissing)),
                        Some(expected) => {
                            if expected {
                                Ok(self.hand_out(item))
                            } else {
                                Err(
                                    self.fail(
                                        StopReason::Rejected,
                                        HarnessError::AuthorMismatch,
                                    ),
                                )
                            }
                        },
                    }
                },
                _ => Err(HarnessError::UnexpectedEvent),
            },
            Event::Page(items) => match phase {
                Phase::AwaitingPage => {
                    if items.len() == 0 {
                        Ok(self.stop(StopReason::Drained))
                    } else {
                        self.pending = items;
                        Ok(self.take_up())
                    }
                },
                _ => Err(HarnessError::UnexpectedEvent),
            },
            Event::Verdict(verdict) => match phase {
                Phase::AwaitingVerdict(id) => {
                    if let BuildVerdict::Aborted = verdict {
                        self.aborted = Ghost(self.aborted@ + 1);
                    }
                    self.results.record(id, verdict);
                    if self.single {
                        Ok(self.stop(StopReason::Completed))
                    } else {
                        self.phase = Phase::AfterItem;
                        Ok(Action::Observe)
                    }
                },
                _ => Err(HarnessError::UnexpectedEvent),
            },
            Event::Flag(cancelled) => match phase {
                Phase::AfterItem => {
                    if cancelled {
                        Ok(self.stop(StopReason::Cancelled))
                    } else if self.pending.len() > 0 {
                        Ok(self.take_up())
                    } else {
                        self.phase = Phase::AfterPage;
                        Ok(Action::Observe)
                    }
                },
                Phase::AfterPage => {
                    if cancelled {
                        Ok(self.stop(StopReason::Cancelled))
                    } else {
                        self.phase = Phase::AwaitingPage;
                        Ok(Action::FetchPage(self.cursor))
                    }
                },
                _ => Err(HarnessError::UnexpectedEvent),
            },
            Event::FeedFailed => match phase {
                Phase::AwaitingItem => Err(
                    self.fail(StopReason::FeedFailed, HarnessError::FeedFailed),
                ),
                Phase::AwaitingPage => Err(
                    self.fail(StopReason::FeedFailed, HarnessError::FeedFailed),
                ),
                _ => Err(HarnessError::UnexpectedEvent),
            },
        }
    }
}

} // verus!
