use vstd::prelude::*;
use crate::harness::{Assertion, FailReason, Outcome, ParseResult, Sample, SkipReason, outcomes_of};

verus! {

/// How far a sample got in a run.
#[derive(PartialEq, Eq, Structural, Clone, Copy, Debug)]
pub enum SampleStatus {
    Parsed,
    Unreadable,
    TimedOut,
}

/// What happened to one sample during a run.
pub ghost enum Step {
    Parsed(ParseResult),
    Unreadable,
    TimedOut,
}

/// The outcomes of every assertion on one sample.
pub struct SampleRecord {
    pub path: String,
    pub category: String,
    pub status: SampleStatus,
    pub outcomes: Vec<Outcome>,
}

pub ghost struct RecordModel {
    pub path: Seq<char>,
    pub category: Seq<char>,
    pub status: SampleStatus,
    pub outcomes: Seq<Outcome>,
}

impl View for SampleRecord {
    type V = RecordModel;

    open spec fn view(&self) -> RecordModel {
        RecordModel {
            path: self.path@,
            category: self.category@,
            status: self.status,
            outcomes: self.outcomes@,
        }
    }
}

/// The record of sample `s` after `step`, under `assertions`.
pub open spec fn record_of(s: Sample, assertions: Seq<Assertion>, step: Step) -> RecordModel {
    match step {
        Step::Parsed(r) => RecordModel {
            path: s.path@,
            category: s.category@,
            status: SampleStatus::Parsed,
            outcomes: outcomes_of(assertions, s, r),
        },
        Step::Unreadable => RecordModel {
            path: s.path@,
            category: s.category@,
            status: SampleStatus::Unreadable,
            outcomes: Seq::new(assertions.len(), |j: int| Outcome::Fail(FailReason::Unreadable)),
        },
        Step::TimedOut => RecordModel {
            path: s.path@,
            category: s.category@,
            status: SampleStatus::TimedOut,
            outcomes: Seq::new(assertions.len(), |j: int| Outcome::Skipped(SkipReason::Timeout)),
        },
    }
}

/// The records of the first `steps.len()` samples.
pub open spec fn records_of(samples: Seq<Sample>, assertions: Seq<Assertion>, steps: Seq<Step>) -> Seq<
    RecordModel,
> {
    Seq::new(steps.len(), |k: int| record_of(samples[k], assertions, steps[k]))
}

/// Some assertion failed.
pub open spec fn has_failure(outcomes: Seq<Outcome>) -> bool {
    exists|j: int| 0 <= j < outcomes.len() && #[trigger] outcomes[j] is Fail
}

pub open spec fn record_timed_out(r: RecordModel) -> bool {
    r.status == SampleStatus::TimedOut
}

pub open spec fn record_failed(r: RecordModel) -> bool {
    !record_timed_out(r) && has_failure(r.outcomes)
}

pub open spec fn record_passed(r: RecordModel) -> bool {
    !record_timed_out(r) && !has_failure(r.outcomes)
}

pub open spec fn count_passed(rs: Seq<RecordModel>) -> nat
    decreases rs.len(),
{
    if rs.len() == 0 {
        0
    } else {
        count_passed(rs.drop_last()) + if record_passed(rs.last()) { 1nat } else { 0nat }
    }
}

pub open spec fn count_failed(rs: Seq<RecordModel>) -> nat
    decreases rs.len(),
{
    if rs.len() == 0 {
        0
    } else {
        count_failed(rs.drop_last()) + if record_failed(rs.last()) { 1nat } else { 0nat }
    }
}

pub open spec fn count_timed_out(rs: Seq<RecordModel>) -> nat
    decreases rs.len(),
{
    if rs.len() == 0 {
        0
    } else {
        count_timed_out(rs.drop_last()) + if record_timed_out(rs.last()) { 1nat } else { 0nat }
    }
}

/// Every record is counted once: as passed, failed or timed out.
pub proof fn lemma_counts_partition(rs: Seq<RecordModel>)
    ensures
        count_passed(rs) + count_failed(rs) + count_timed_out(rs) == rs.len(),
    decreases rs.len(),
{
    if rs.len() > 0 {
        lemma_counts_partition(rs.drop_last());
    }
}

/// A timed-out record anywhere makes the timed-out count positive.
pub proof fn lemma_timed_out_counted(rs: Seq<RecordModel>, k: int)
    requires
        0 <= k < rs.len(),
        record_timed_out(rs[k]),
    ensures
        count_timed_out(rs) > 0,
    decreases rs.len(),
{
    if k < rs.len() - 1 {
        lemma_timed_out_counted(rs.drop_last(), k);
    }
}

/// Per-sample counts of a run.
#[derive(PartialEq, Eq, Structural, Clone, Copy, Debug)]
pub struct Summary {
    pub samples: usize,
    pub passed: usize,
    pub failed: usize,
    pub timed_out: usize,
}

/// The counts of `rs`.
pub open spec fn summary_matches(s: Summary, rs: Seq<RecordModel>) -> bool {
    &&& s.samples == rs.len()
    &&& s.passed == count_passed(rs)
    &&& s.failed == count_failed(rs)
    &&& s.timed_out == count_timed_out(rs)
}

/// A run passes when no assertion failed and no sample was cut off by the timeout.
pub open spec fn summary_passes(s: Summary) -> bool {
    s.failed == 0 && s.timed_out == 0
}

/// The finished outcome of a run: the names of the assertions, then one record per
/// sample, in corpus order, with its outcomes in assertion order; and the counts.
pub struct Report {
    pub assertion_names: Vec<String>,
    pub records: Vec<SampleRecord>,
    pub summary: Summary,
}

impl Report {
    pub open spec fn records_view(&self) -> Seq<RecordModel> {
        Seq::new(self.records@.len(), |k: int| self.records@[k]@)
    }

    /// The run passed: no failure and no timeout.
    pub fn passed(&self) -> (r: bool)
        ensures
            r == summary_passes(self.summary),
    {
        self.summary.failed == 0 && self.summary.timed_out == 0
    }

    /// The process exit code for this report: 0 when the run passed, 1 otherwise.
    pub fn exit_code(&self) -> (r: i32)
        ensures
            r == (if summary_passes(self.summary) { 0i32 } else { 1i32 }),
    {
        if self.passed() {
            0
        } else {
            1
        }
    }
}

} // verus!
