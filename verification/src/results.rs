//! The tally of a run.

use vstd::prelude::*;
use crate::verdict::{BuildVerdict, VerdictView};

verus! {

/// The mathematical value of a [`ResultData`]: unbounded counts and the
/// failures in the order in which they were recorded.
pub struct Tally {
    pub passed: nat,
    pub failed: nat,
    pub ignored: nat,
    pub total: nat,
    pub failures: Seq<(u64, Seq<char>)>,
}

impl Tally {
    /// The tally of a run that has not started.
    pub open spec fn empty() -> Tally {
        Tally { passed: 0, failed: 0, ignored: 0, total: 0, failures: Seq::empty() }
    }

    /// The number of items that have a final outcome: passed, failed or
    /// ignored.
    pub open spec fn settled(self) -> nat {
        self.passed + self.failed + self.ignored
    }

    /// The tally after the expected number of items was set to `total`.
    pub open spec fn with_total(self, total: nat) -> Tally {
        Tally { total, ..self }
    }

    /// The tally after one item was skipped without a build.
    pub open spec fn with_ignored(self) -> Tally {
        Tally { ignored: self.ignored + 1, ..self }
    }

    /// The tally after the verdict on item `id` was recorded. A pass and a
    /// failure each count once, a failure keeps its diagnostic, and an aborted
    /// attempt counts as neither.
    pub open spec fn with_verdict(self, id: u64, verdict: VerdictView) -> Tally {
        match verdict {
            VerdictView::Pass => Tally { passed: self.passed + 1, ..self },
            VerdictView::Fail(diagnostic) => Tally {
                failed: self.failed + 1,
                failures: self.failures.push((id, diagnostic)),
                ..self
            },
            VerdictView::Aborted => self,
        }
    }

    /// The number of items that the run expected and that neither passed,
    /// failed nor were ignored. Negative when the feed delivered more items
    /// than it announced.
    pub open spec fn aborted_remainder(self) -> int {
        self.total - self.passed - self.failed - self.ignored
    }

    /// Every counter can still be raised by one on the machine.
    pub open spec fn has_room(self) -> bool {
        self.passed < u64::MAX && self.failed < u64::MAX && self.ignored < u64::MAX
    }
}

/// The mathematical value of a list of failures.
pub open spec fn failure_views(failures: Seq<(u64, String)>) -> Seq<(u64, Seq<char>)> {
    Seq::new(failures.len(), |i: int| (failures[i].0, failures[i].1@))
}

/// The counts of a run and the diagnostics of its failures.
pub struct ResultData {
    failures: Vec<(u64, String)>,
    pass_count: u64,
    fail_count: u64,
    ignore_count: u64,
    total_count: u64,
}

impl View for ResultData {
    type V = Tally;

    closed spec fn view(&self) -> Tally {
        Tally {
            passed: self.pass_count as nat,
            failed: self.fail_count as nat,
            ignored: self.ignore_count as nat,
            total: self.total_count as nat,
            failures: failure_views(self.failures@),
        }
    }
}

impl ResultData {
    /// An empty tally: no item expected, none recorded.
    pub fn new() -> (results: ResultData)
        ensures
            results@ == Tally::empty(),
    {
        let results = ResultData {
            failures: Vec::new(),
            pass_count: 0,
            fail_count: 0,
            ignore_count: 0,
            total_count: 0,
        };
        assert(results@.failures =~= Seq::empty());
        results
    }

    /// Sets the number of items that the run expects to handle.
    pub fn set_total(&mut self, total: u64)
        ensures
            final(self)@ == old(self)@.with_total(total as nat),
    {
        self.total_count = total;
    }

    /// Counts one item that was skipped without a build.
    pub fn record_ignored(&mut self)
        requires
            old(self)@.ignored < u64::MAX,
        ensures
            final(self)@ == old(self)@.with_ignored(),
    {
        self.ignore_count = self.ignore_count + 1;
    }

    /// Records the verdict on item `id`.
    pub fn record(&mut self, id: u64, verdict: BuildVerdict)
        requires
            old(self)@.passed < u64::MAX,
            old(self)@.failed < u64::MAX,
        ensures
            final(self)@ == old(self)@.with_verdict(id, verdict@),
    {
        match verdict {
            BuildVerdict::Pass => {
                self.pass_count = self.pass_count + 1;
            },
            BuildVerdict::Fail(diagnostic) => {
                self.fail_count = self.fail_count + 1;
                self.failures.push((id, diagnostic));
                assert(self@.failures =~= old(self)@.failures.push((id, diagnostic@)));
            },
            BuildVerdict::Aborted => {},
        }
    }

    /// The number of items that passed.
    pub fn pass_count(&self) -> (n: u64)
        ensures
            n == self@.passed,
    {
        self.pass_count
    }

    /// The number of items that failed.
    pub fn fail_count(&self) -> (n: u64)
        ensures
            n == self@.failed,
    {
        self.fail_count
    }

    /// The number of items that were skipped without a build.
    pub fn ignore_count(&self) -> (n: u64)
        ensures
            n == self@.ignored,
    {
        self.ignore_count
    }

    /// The number of items that the run expects to handle.
    pub fn total_count(&self) -> (n: u64)
        ensures
            n == self@.total,
    {
        self.total_count
    }

    /// The failures on record, in the order in which they were recorded: each
    /// with the item's identifier and the compiler's diagnostic.
    pub fn failures(&self) -> (failures: &Vec<(u64, String)>)
        ensures
            failure_views(failures@) == self@.failures,
    {
        &self.failures
    }

    /// Whether every counter can still be raised by one.
    pub fn has_room(&self) -> (room: bool)
        ensures
            room == self@.has_room(),
    {
        self.pass_count < u64::MAX && self.fail_count < u64::MAX && self.ignore_count < u64::MAX
    }
}

} // verus!
