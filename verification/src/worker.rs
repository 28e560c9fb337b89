//! Worker decisions. A pool of workers pulls jobs from a shared queue;
//! this module holds the decisions a worker takes between jobs: whether to
//! stop, whether to synthesize a skip because a smaller sibling already
//! failed, how the progress counters change, and whether a finished result
//! is appended to the shared accumulator under cancellation.

use vstd::prelude::*;

use crate::results::{results_view, JobError, JobOutput, JobResult, JobResultView, ResourceUsage};
use crate::types::{AlignStats, Job, JobView};

verus! {

/// One finished record justifies skipping a job when it failed, its
/// dataset is generated, and the job is larger in the skip order.
pub open spec fn skip_because_spec(j: JobView, prev: JobResultView) -> bool {
    prev.output is Err && prev.job.dataset.is_generated_spec() && j.is_larger_spec(prev.job)
}

/// The dynamic in-batch skip rule: the job's dataset is generated and some
/// already-finished record justifies the skip.
pub open spec fn should_skip_spec(j: JobView, done: Seq<JobResultView>) -> bool {
    j.dataset.is_generated_spec() && exists|k: int|
        0 <= k < done.len() && skip_because_spec(j, done[k])
}

/// Whether the job must be skipped, given the results finished so far.
pub fn should_skip(job: &Job, done: &Vec<JobResult>) -> (r: bool)
    ensures
        r == should_skip_spec(job@, results_view(done@)),
{
    let ghost dv = results_view(done@);
    if !job.dataset.is_generated() {
        return false;
    }
    let mut i: usize = 0;
    while i < done.len()
        invariant
            i <= done.len(),
            dv == results_view(done@),
            forall|k: int| 0 <= k < i ==> !skip_because_spec(job@, dv[k]),
        decreases done.len() - i,
    {
        let prev = &done[i];
        if prev.output.is_err() && prev.job.dataset.is_generated() && job.is_larger(&prev.job) {
            assert(skip_because_spec(job@, dv[i as int]));
            return true;
        }
        i += 1;
    }
    false
}

/// What a worker does with the job it pulled from the queue.
#[derive(Debug, Clone, Copy, PartialEq, Eq, Structural)]
pub enum JobDecision {
    /// Cancellation was requested: stop, leaving pending jobs undispatched.
    Halt,
    /// A smaller sibling already failed: record a skip, spawn nothing.
    SynthesizeSkip,
    /// Run the job in a child process.
    Execute,
}

/// The decision for the next pulled job: stop under cancellation, skip a
/// job doomed by a smaller failed sibling, and execute everything else.
pub fn decide_job(job: &Job, done: &Vec<JobResult>, cancelled: bool) -> (r: JobDecision)
    ensures
        r == (if cancelled {
            JobDecision::Halt
        } else if should_skip_spec(job@, results_view(done@)) {
            JobDecision::SynthesizeSkip
        } else {
            JobDecision::Execute
        }),
{
    if cancelled {
        JobDecision::Halt
    } else if should_skip(job, done) {
        JobDecision::SynthesizeSkip
    } else {
        JobDecision::Execute
    }
}

/// The record synthesized for a skipped job: no child ran, so the resource
/// usage is all zeros and the output is the `Skipped` failure.
pub fn skipped_result(job: Job, stats: AlignStats) -> (r: JobResult)
    ensures
        r@.job == job@,
        r@.stats == stats,
        r@.resources == (ResourceUsage { walltime_us: 0, usertime_us: 0, systemtime_us: 0, maxrss: 0 }),
        r@.output == (Err::<crate::results::JobOutputView, JobError>(JobError::Skipped)),
{
    JobResult { job, stats, resources: ResourceUsage::zero(), output: Err(JobError::Skipped) }
}

/// Progress counters shown after each finished job.
#[derive(Debug, Clone, Copy, PartialEq, Eq, Structural)]
pub struct Counts {
    pub done: usize,
    pub success: usize,
    pub unsupported: usize,
    pub skipped: usize,
    pub failed: usize,
}

impl Counts {
    /// Each class is counted at most once per finished job.
    pub open spec fn wf(self) -> bool {
        self.success <= self.done && self.unsupported <= self.done && self.skipped <= self.done
            && self.failed <= self.done
    }

    pub fn new() -> (r: Counts)
        ensures
            r.done == 0 && r.success == 0 && r.unsupported == 0 && r.skipped == 0 && r.failed == 0,
            r.wf(),
    {
        Counts { done: 0, success: 0, unsupported: 0, skipped: 0, failed: 0 }
    }

    /// Count one finished job: a success, a synthesized skip, an
    /// unsupported combination, or a failure. An interrupted job counts
    /// toward `done` only.
    pub fn record(&mut self, output: &Result<JobOutput, JobError>)
        requires
            old(self).wf(),
            old(self).done < usize::MAX,
        ensures
            final(self).done == old(self).done + 1,
            final(self).success == old(self).success + (if output is Ok { 1int } else { 0int }),
            final(self).skipped == old(self).skipped + (if *output == Err::<JobOutput, JobError>(
                JobError::Skipped,
            ) {
                1int
            } else {
                0int
            }),
            final(self).unsupported == old(self).unsupported + (if *output == Err::<JobOutput, JobError>(
                JobError::Unsupported,
            ) {
                1int
            } else {
                0int
            }),
            final(self).failed == old(self).failed + (if counts_as_failed(*output) {
                1int
            } else {
                0int
            }),
            final(self).wf(),
    {
        self.done += 1;
        match output {
            Ok(_) => {
                self.success += 1;
            },
            Err(JobError::Skipped) => {
                self.skipped += 1;
            },
            Err(JobError::Unsupported) => {
                self.unsupported += 1;
            },
            Err(JobError::Interrupted) => {},
            Err(_) => {
                self.failed += 1;
            },
        }
    }
}

/// A finished job counts as failed when it produced no output for any
/// reason other than a skip, an unsupported combination, or an interrupt.
pub open spec fn counts_as_failed(output: Result<JobOutput, JobError>) -> bool {
    match output {
        Ok(_) => false,
        Err(e) => e != JobError::Skipped && e != JobError::Unsupported && e != JobError::Interrupted,
    }
}

/// How one finished record changes the shared accumulator: it is appended
/// unless cancellation is pending and the record is not a success.
pub open spec fn record_spec(
    s: Seq<JobResultView>,
    r: JobResultView,
    cancelled: bool,
) -> Seq<JobResultView> {
    if r.output is Ok || !cancelled {
        s.push(r)
    } else {
        s
    }
}

/// Append a finished result to the accumulator, unless the orchestrator
/// was cancelled and the result is not a success: a Ctrl-C must not add
/// half-finished failure rows to the corpus.
pub fn record_result(results: &mut Vec<JobResult>, result: JobResult, cancelled: bool)
    ensures
        results_view(final(results)@) == record_spec(results_view(old(results)@), result@, cancelled),
{
    let ghost prev = results_view(results@);
    let ghost rv = result@;
    if result.output.is_ok() || !cancelled {
        results.push(result);
        assert(results_view(results@) =~= prev.push(rv));
    }
}

/// The accumulator after a whole tail of finished records was offered to
/// `record_spec` in order, under one cancellation state.
pub open spec fn record_all_spec(
    s: Seq<JobResultView>,
    xs: Seq<JobResultView>,
    cancelled: bool,
) -> Seq<JobResultView>
    decreases xs.len(),
{
    if xs.len() == 0 {
        s
    } else {
        record_spec(record_all_spec(s, xs.drop_last(), cancelled), xs.last(), cancelled)
    }
}

/// Cancellation cleanliness: once cancellation is pending, the accumulator
/// gains exactly the successful records of what still finishes — no new
/// failure row is ever appended after a Ctrl-C.
pub proof fn lemma_cancellation_cleanliness(s: Seq<JobResultView>, xs: Seq<JobResultView>)
    ensures
        record_all_spec(s, xs, true) == s + xs.filter(|r: JobResultView| r.output is Ok),
    decreases xs.len(),
{
    reveal(Seq::filter);
    let pred = |r: JobResultView| r.output is Ok;
    if xs.len() == 0 {
        assert(xs.filter(pred) =~= Seq::<JobResultView>::empty());
        assert(record_all_spec(s, xs, true) =~= s + xs.filter(pred));
    } else {
        lemma_cancellation_cleanliness(s, xs.drop_last());
        if pred(xs.last()) {
            assert(s + xs.drop_last().filter(pred) + seq![xs.last()] =~= s + xs.filter(pred));
        }
        assert(record_all_spec(s, xs, true) =~= s + xs.filter(pred));
    }
}

/// Skip consistency: whenever the skip rule fires for a job, some finished
/// failure on a generated dataset witnesses it, and the job itself is
/// larger than that witness in the skip order (in particular, both
/// datasets are generated).
pub proof fn lemma_skip_consistency(j: JobView, done: Seq<JobResultView>)
    requires
        should_skip_spec(j, done),
    ensures
        exists|k: int|
            0 <= k < done.len() && (#[trigger] done[k]).output is Err
                && done[k].job.dataset.is_generated_spec() && j.dataset.is_generated_spec()
                && j.is_larger_spec(done[k].job),
{
    let k = choose|k: int| 0 <= k < done.len() && skip_because_spec(j, done[k]);
    assert(done[k].output is Err && done[k].job.dataset.is_generated_spec()
        && j.dataset.is_generated_spec() && j.is_larger_spec(done[k].job));
}

} // verus!
