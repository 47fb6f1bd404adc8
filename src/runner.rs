use vstd::prelude::*;
use crate::harness::{Assertion, FailReason, Outcome, ParseResult, Sample, SkipReason, check};
use crate::report::{
    RecordModel, Report, SampleRecord, SampleStatus, Step, Summary, has_failure,
    lemma_counts_partition, lemma_timed_out_counted, record_of, record_timed_out, records_of,
    summary_matches, summary_passes,
};

verus! {

/// The phases of a run. A run ends when `finish` hands out its report.
#[derive(PartialEq, Eq, Structural, Clone, Copy, Debug)]
pub enum Phase {
    Idle,
    Loading,
    Processing,
    Reporting,
}

/// What the runner needs next from its driver.
#[derive(PartialEq, Eq, Structural, Clone, Copy, Debug)]
pub enum Action {
    /// Hand the text of this sample to the parser and submit the result.
    Parse(usize),
    /// This sample could not be read: record that.
    RecordReadError(usize),
    /// Every sample is done: take the report.
    Report,
}

/// One run of the harness over one corpus. A fresh runner is made for each run.
pub struct Runner {
    phase: Phase,
    samples: Vec<Sample>,
    assertions: Vec<Assertion>,
    records: Vec<SampleRecord>,
    summary: Summary,
    steps: Ghost<Seq<Step>>,
    parse_requests: Ghost<Seq<int>>,
}

impl Runner {
    pub closed spec fn phase(&self) -> Phase {
        self.phase
    }

    pub closed spec fn samples(&self) -> Seq<Sample> {
        self.samples@
    }

    pub closed spec fn assertions(&self) -> Seq<Assertion> {
        self.assertions@
    }

    /// What happened to each sample processed so far, in corpus order.
    pub closed spec fn steps(&self) -> Seq<Step> {
        self.steps@
    }

    /// The indices of the samples handed to the parser, in the order it was asked.
    pub closed spec fn parse_requests(&self) -> Seq<int> {
        self.parse_requests@
    }

    pub closed spec fn summary(&self) -> Summary {
        self.summary
    }

    pub closed spec fn records_view(&self) -> Seq<RecordModel> {
        Seq::new(self.records@.len(), |k: int| self.records@[k]@)
    }

    /// The number of samples processed so far.
    pub open spec fn done(&self) -> int {
        self.steps().len() as int
    }

    pub closed spec fn wf(&self) -> bool {
        &&& self.wf_records()
        &&& (self.phase == Phase::Idle || self.phase == Phase::Loading) ==> self.samples@.len() == 0
        &&& self.phase == Phase::Processing ==> {
            &&& self.steps@.len() < self.samples@.len()
            &&& forall|k: int| 0 <= k < self.steps@.len() ==> !(#[trigger] self.steps@[k] is TimedOut)
        }
        &&& self.phase == Phase::Reporting ==> self.steps@.len() == self.samples@.len()
    }

    /// The records, the counts and the ghost history agree.
    closed spec fn wf_records(&self) -> bool {
        &&& self.records@.len() == self.steps@.len() <= self.samples@.len()
        &&& self.records_view() == records_of(self.samples@, self.assertions@, self.steps@)
        &&& summary_matches(self.summary, self.records_view())
        &&& forall|k: int|
            0 <= k < self.steps@.len() ==> {
                &&& (#[trigger] self.steps@[k] is Parsed ==> self.samples@[k].text is Some)
                &&& (self.steps@[k] is Unreadable ==> self.samples@[k].text is None)
            }
        &&& forall|k1: int, k2: int|
            0 <= k1 < k2 < self.steps@.len() && #[trigger] self.steps@[k1] is TimedOut
                ==> #[trigger] self.steps@[k2] is TimedOut
        &&& forall|i: int, j: int|
            0 <= i < j < self.parse_requests@.len() ==> #[trigger] self.parse_requests@[i]
                < #[trigger] self.parse_requests@[j]
        &&& forall|i: int|
            0 <= i < self.parse_requests@.len() ==> {
                &&& 0 <= #[trigger] self.parse_requests@[i] < self.steps@.len()
                &&& self.steps@[self.parse_requests@[i]] is Parsed
            }
        &&& forall|k: int|
            0 <= k < self.steps@.len() && #[trigger] self.steps@[k] is Parsed
                ==> self.parse_requests@.contains(k)
    }

    pub fn new() -> (r: Runner)
        ensures
            r.wf(),
            r.phase() == Phase::Idle,
            r.samples().len() == 0,
            r.steps().len() == 0,
    {
        let r = Runner {
            phase: Phase::Idle,
            samples: Vec::new(),
            assertions: Vec::new(),
            records: Vec::new(),
            summary: Summary { samples: 0, passed: 0, failed: 0, timed_out: 0 },
            steps: Ghost(Seq::empty()),
            parse_requests: Ghost(Seq::empty()),
        };
        assert(r.records_view() =~= records_of(r.samples@, r.assertions@, r.steps@));
        r
    }

    /// The corpus is being read.
    pub fn start_loading(&mut self)
        requires
            old(self).wf(),
            old(self).phase() == Phase::Idle,
        ensures
            final(self).wf(),
            final(self).phase() == Phase::Loading,
            final(self).samples() == old(self).samples(),
            final(self).steps() == old(self).steps(),
    {
        self.phase = Phase::Loading;
    }

    /// The corpus has been read: processing begins with the first sample.
    pub fn loaded(&mut self, samples: Vec<Sample>, assertions: Vec<Assertion>)
        requires
            old(self).wf(),
            old(self).phase() == Phase::Loading,
        ensures
            final(self).wf(),
            final(self).phase() == (if samples@.len() == 0 { Phase::Reporting } else { Phase::Processing }),
            final(self).samples() == samples@,
            final(self).assertions() == assertions@,
            final(self).steps().len() == 0,
            final(self).parse_requests().len() == 0,
    {
        self.phase = if samples.len() == 0 { Phase::Reporting } else { Phase::Processing };
        self.samples = samples;
        self.assertions = assertions;
        self.steps = Ghost(Seq::empty());
        self.parse_requests = Ghost(Seq::empty());
        assert(self.records_view() =~= records_of(self.samples@, self.assertions@, self.steps@));
    }

    /// The next thing to do: parse the next sample, record that it could not be
    /// read, or report.
    pub fn next_action(&self) -> (r: Action)
        requires
            self.wf(),
            self.phase() == Phase::Processing || self.phase() == Phase::Reporting,
        ensures
            self.done() < self.samples().len() ==> {
                if self.samples()[self.done()].text is Some {
                    r == Action::Parse(self.done() as usize)
                } else {
                    r == Action::RecordReadError(self.done() as usize)
                }
            },
            self.done() == self.samples().len() ==> r == Action::Report,
    {
        let i = self.records.len();
        if i < self.samples.len() {
            match &self.samples[i].text {
                Some(_) => Action::Parse(i),
                None => Action::RecordReadError(i),
            }
        } else {
            Action::Report
        }
    }

    /// The sample at index `i`.
    pub fn sample(&self, i: usize) -> (r: &Sample)
        requires
            i < self.samples().len(),
        ensures
            *r == self.samples()[i as int],
    {
        &self.samples[i]
    }

    fn has_fail(outcomes: &Vec<Outcome>) -> (r: bool)
        ensures
            r == has_failure(outcomes@),
    {
        let mut j: usize = 0;
        while j < outcomes.len()
            invariant
                j <= outcomes@.len(),
                forall|k: int| 0 <= k < j ==> !(#[trigger] outcomes@[k] is Fail),
            decreases outcomes@.len() - j,
        {
            match outcomes[j] {
                Outcome::Fail(_) => {
                    return true;
                },
                _ => {},
            }
            j = j + 1;
        }
        false
    }

    /// Appends the record of the next sample and counts it.
    fn append_record(&mut self, rec: SampleRecord, step: Ghost<Step>)
        requires
            old(self).wf_records(),
            old(self).done() < old(self).samples().len(),
            rec@ == record_of(old(self).samples()[old(self).done()], old(self).assertions(), step@),
            step@ is Parsed ==> old(self).samples()[old(self).done()].text is Some,
            step@ is Unreadable ==> old(self).samples()[old(self).done()].text is None,
            !(step@ is TimedOut) ==> forall|k: int|
                0 <= k < old(self).done() ==> !(#[trigger] old(self).steps()[k] is TimedOut),
        ensures
            final(self).wf_records(),
            final(self).phase() == old(self).phase(),
            final(self).samples() == old(self).samples(),
            final(self).assertions() == old(self).assertions(),
            final(self).steps() == old(self).steps().push(step@),
            final(self).parse_requests() == (if step@ is Parsed {
                old(self).parse_requests().push(old(self).done())
            } else {
                old(self).parse_requests()
            }),
    {
        let ghost before = self.records_view();
        let ghost rm = rec@;
        let ghost i = self.steps@.len() as int;
        let n = self.samples.len();
        assert(self.records@.len() < n);
        let failed = Self::has_fail(&rec.outcomes);
        let timed_out = rec.status == SampleStatus::TimedOut;
        proof {
            lemma_counts_partition(before);
        }
        if timed_out {
            self.summary.timed_out = self.summary.timed_out + 1;
        } else if failed {
            self.summary.failed = self.summary.failed + 1;
        } else {
            self.summary.passed = self.summary.passed + 1;
        }
        self.summary.samples = self.summary.samples + 1;
        self.records.push(rec);
        self.steps = Ghost(self.steps@.push(step@));
        self.parse_requests = Ghost(
            if step@ is Parsed {
                self.parse_requests@.push(i)
            } else {
                self.parse_requests@
            },
        );
        proof {
            let after = self.records_view();
            assert(after =~= before.push(rm));
            assert(after.drop_last() =~= before);
            assert(after =~= records_of(self.samples@, self.assertions@, self.steps@));
            assert forall|k1: int, k2: int|
                0 <= k1 < k2 < self.steps@.len() && #[trigger] self.steps@[k1] is TimedOut
                    implies #[trigger] self.steps@[k2] is TimedOut by {
                if k2 == i {
                    assert(old(self).steps()[k1] is TimedOut);
                }
            }
            assert forall|k: int|
                0 <= k < self.steps@.len() && #[trigger] self.steps@[k] is Parsed
                    implies self.parse_requests@.contains(k) by {
                if k == i {
                    assert(self.parse_requests@.last() == k);
                } else {
                    let j = choose|j: int| 0 <= j < old(self).parse_requests().len() && old(self).parse_requests()[j] == k;
                    assert(self.parse_requests@[j] == k);
                }
            }
        }
    }

    /// Records the parser's result for the next sample, with the outcome of every
    /// assertion on it.
    pub fn submit_parse(&mut self, result: ParseResult)
        requires
            old(self).wf(),
            old(self).phase() == Phase::Processing,
            old(self).samples()[old(self).done()].text is Some,
        ensures
            final(self).wf(),
            final(self).phase() == (if final(self).done() == final(self).samples().len() {
                Phase::Reporting
            } else {
                Phase::Processing
            }),
            final(self).samples() == old(self).samples(),
            final(self).assertions() == old(self).assertions(),
            final(self).steps() == old(self).steps().push(Step::Parsed(result)),
            final(self).parse_requests() == old(self).parse_requests().push(old(self).done()),
    {
        let i = self.records.len();
        let outcomes = check(&result, &self.samples[i], &self.assertions);
        let rec = SampleRecord {
            path: self.samples[i].path.clone(),
            category: self.samples[i].category.clone(),
            status: SampleStatus::Parsed,
            outcomes,
        };
        self.append_record(rec, Ghost(Step::Parsed(result)));
        if self.records.len() == self.samples.len() {
            self.phase = Phase::Reporting;
        }
    }

    /// `n` copies of one outcome.
    fn repeat_outcome(o: Outcome, n: usize) -> (r: Vec<Outcome>)
        ensures
            r@ == Seq::new(n as nat, |j: int| o),
    {
        let mut r: Vec<Outcome> = Vec::new();
        let mut j: usize = 0;
        while j < n
            invariant
                j <= n,
                r@ == Seq::new(j as nat, |k: int| o),
            decreases n - j,
        {
            r.push(o);
            j = j + 1;
            assert(r@ =~= Seq::new(j as nat, |k: int| o));
        }
        r
    }

    /// Records that the next sample could not be read: every assertion fails on it.
    pub fn submit_read_error(&mut self)
        requires
            old(self).wf(),
            old(self).phase() == Phase::Processing,
            old(self).samples()[old(self).done()].text is None,
        ensures
            final(self).wf(),
            final(self).phase() == (if final(self).done() == final(self).samples().len() {
                Phase::Reporting
            } else {
                Phase::Processing
            }),
            final(self).samples() == old(self).samples(),
            final(self).assertions() == old(self).assertions(),
            final(self).steps() == old(self).steps().push(Step::Unreadable),
            final(self).parse_requests() == old(self).parse_requests(),
    {
        let i = self.records.len();
        let outcomes = Self::repeat_outcome(Outcome::Fail(FailReason::Unreadable), self.assertions.len());
        let rec = SampleRecord {
            path: self.samples[i].path.clone(),
            category: self.samples[i].category.clone(),
            status: SampleStatus::Unreadable,
            outcomes,
        };
        assert(rec.outcomes@ =~= record_of(self.samples@[i as int], self.assertions@, Step::Unreadable).outcomes);
        self.append_record(rec, Ghost(Step::Unreadable));
        if self.records.len() == self.samples.len() {
            self.phase = Phase::Reporting;
        }
    }

    /// The run's time is up: every sample not yet processed is marked skipped for
    /// timeout, on every assertion, and the run moves on to reporting.
    pub fn time_out(&mut self)
        requires
            old(self).wf(),
            old(self).phase() == Phase::Processing,
        ensures
            final(self).wf(),
            final(self).phase() == Phase::Reporting,
            final(self).samples() == old(self).samples(),
            final(self).assertions() == old(self).assertions(),
            final(self).steps() == old(self).steps() + Seq::new(
                (old(self).samples().len() - old(self).done()) as nat,
                |k: int| Step::TimedOut,
            ),
            final(self).parse_requests() == old(self).parse_requests(),
    {
        let ghost start = self.steps@;
        let ghost d0 = self.steps@.len() as int;
        while self.records.len() < self.samples.len()
            invariant
                self.wf_records(),
                self.samples@ == old(self).samples(),
                self.assertions@ == old(self).assertions(),
                self.phase == old(self).phase(),
                d0 <= self.steps@.len() <= self.samples@.len(),
                self.steps@ == start + Seq::new((self.steps@.len() - d0) as nat, |k: int| Step::TimedOut),
                forall|k: int| 0 <= k < d0 ==> !(#[trigger] start[k] is TimedOut),
                start.len() == d0,
                self.parse_requests@ == old(self).parse_requests(),
            decreases self.samples@.len() - self.steps@.len(),
        {
            let i = self.records.len();
            let outcomes = Self::repeat_outcome(Outcome::Skipped(SkipReason::Timeout), self.assertions.len());
            let rec = SampleRecord {
                path: self.samples[i].path.clone(),
                category: self.samples[i].category.clone(),
                status: SampleStatus::TimedOut,
                outcomes,
            };
            assert(rec.outcomes@ =~= record_of(self.samples@[i as int], self.assertions@, Step::TimedOut).outcomes);
            self.append_record(rec, Ghost(Step::TimedOut));
            assert(self.steps@ =~= start + Seq::new((self.steps@.len() - d0) as nat, |k: int| Step::TimedOut));
        }
        self.phase = Phase::Reporting;
    }

    /// Ends the run and hands out its report.
    pub fn finish(self) -> (r: Report)
        requires
            self.wf(),
            self.phase() == Phase::Reporting,
        ensures
            r.records_view() == records_of(self.samples(), self.assertions(), self.steps()),
            r.records_view().len() == self.samples().len(),
            summary_matches(r.summary, r.records_view()),
            r.assertion_names@.len() == self.assertions().len(),
            forall|j: int| 0 <= j < self.assertions().len() ==> #[trigger] r.assertion_names@[j]@ == self.assertions()[j].name@,
    {
        let mut names: Vec<String> = Vec::new();
        let mut j: usize = 0;
        while j < self.assertions.len()
            invariant
                j <= self.assertions@.len(),
                names@.len() == j,
                forall|k: int| 0 <= k < j ==> #[trigger] names@[k]@ == self.assertions@[k].name@,
            decreases self.assertions@.len() - j,
        {
            names.push(self.assertions[j].name.clone());
            j = j + 1;
        }
        Report { assertion_names: names, records: self.records, summary: self.summary }
    }
}

/// Each sample that was read and not cut off by the timeout is handed to the parser
/// exactly once in a finished run: its index is among the parse requests, and no index
/// is requested twice. Samples that could not be read, or that the timeout cut off,
/// are never handed to it.
pub proof fn lemma_each_sample_parsed_once(runner: &Runner)
    requires
        runner.wf(),
        runner.phase() == Phase::Reporting,
    ensures
        forall|k: int|
            0 <= k < runner.samples().len() ==> (runner.parse_requests().contains(k) <==> (
            runner.samples()[k].text is Some && !(#[trigger] runner.steps()[k] is TimedOut))),
        forall|i: int, j: int|
            0 <= i < runner.parse_requests().len() && 0 <= j < runner.parse_requests().len() && i
                != j ==> runner.parse_requests()[i] != runner.parse_requests()[j],
{
    assert forall|k: int|
        0 <= k < runner.samples().len() implies (runner.parse_requests().contains(k) <==> (
        runner.samples()[k].text is Some && !(#[trigger] runner.steps()[k] is TimedOut))) by {
        if runner.parse_requests().contains(k) {
            let i = choose|i: int|
                0 <= i < runner.parse_requests().len() && runner.parse_requests()[i] == k;
            assert(runner.steps()[runner.parse_requests()[i]] is Parsed);
        }
    }
    assert forall|i: int, j: int|
        0 <= i < runner.parse_requests().len() && 0 <= j < runner.parse_requests().len() && i
            != j implies runner.parse_requests()[i] != runner.parse_requests()[j] by {
        if i < j {
            assert(runner.parse_requests()[i] < runner.parse_requests()[j]);
        } else {
            assert(runner.parse_requests()[j] < runner.parse_requests()[i]);
        }
    }
}

/// Two finished runs over the same corpus and the same assertions, in which no timeout
/// struck and the parser gave each text the same result both times, hold the same
/// records, in the same order, and the same counts.
pub proof fn lemma_runs_agree(a: &Runner, b: &Runner, parser: spec_fn(Seq<char>) -> ParseResult)
    requires
        a.wf(),
        b.wf(),
        a.phase() == Phase::Reporting,
        b.phase() == Phase::Reporting,
        a.samples() == b.samples(),
        a.assertions() == b.assertions(),
        forall|k: int| 0 <= k < a.steps().len() ==> !(#[trigger] a.steps()[k] is TimedOut),
        forall|k: int| 0 <= k < b.steps().len() ==> !(#[trigger] b.steps()[k] is TimedOut),
        forall|k: int|
            0 <= k < a.steps().len() && #[trigger] a.steps()[k] is Parsed ==> a.steps()[k]
                == Step::Parsed(parser(a.samples()[k].text.unwrap()@)),
        forall|k: int|
            0 <= k < b.steps().len() && #[trigger] b.steps()[k] is Parsed ==> b.steps()[k]
                == Step::Parsed(parser(b.samples()[k].text.unwrap()@)),
    ensures
        a.records_view() == b.records_view(),
        a.summary() == b.summary(),
{
    assert forall|k: int| 0 <= k < a.steps().len() implies #[trigger] a.steps()[k] == b.steps()[k] by {
        if a.samples()[k].text is Some {
            assert(!(a.steps()[k] is Unreadable));
            assert(!(b.steps()[k] is Unreadable));
            assert(a.steps()[k] is Parsed);
            assert(b.steps()[k] is Parsed);
        } else {
            assert(!(a.steps()[k] is Parsed));
            assert(!(b.steps()[k] is Parsed));
        }
    }
    assert(a.steps() =~= b.steps());
    assert(a.records_view() =~= b.records_view());
}

/// A run over an empty corpus reports no sample and passes.
pub proof fn lemma_empty_corpus_passes(runner: &Runner)
    requires
        runner.wf(),
        runner.phase() == Phase::Reporting,
        runner.samples().len() == 0,
    ensures
        runner.records_view().len() == 0,
        runner.summary() == (Summary { samples: 0, passed: 0, failed: 0, timed_out: 0 }),
        summary_passes(runner.summary()),
{
}

/// When the timeout strikes, every sample not yet processed is recorded as skipped for
/// timeout on every assertion, and the run does not pass.
pub proof fn lemma_timeout_fails(runner: &Runner)
    requires
        runner.wf(),
        runner.phase() == Phase::Reporting,
        exists|k: int| 0 <= k < runner.steps().len() && #[trigger] runner.steps()[k] is TimedOut,
    ensures
        forall|k: int|
            0 <= k < runner.steps().len() && #[trigger] runner.steps()[k] is TimedOut ==> {
                &&& runner.records_view()[k].status == SampleStatus::TimedOut
                &&& forall|j: int|
                    0 <= j < runner.records_view()[k].outcomes.len()
                        ==> #[trigger] runner.records_view()[k].outcomes[j] == Outcome::Skipped(
                        SkipReason::Timeout,
                    )
            },
        !summary_passes(runner.summary()),
{
    let k = choose|k: int| 0 <= k < runner.steps().len() && #[trigger] runner.steps()[k] is TimedOut;
    assert(record_timed_out(runner.records_view()[k]));
    lemma_timed_out_counted(runner.records_view(), k);
}

} // verus!
