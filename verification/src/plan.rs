//! The incremental planner: which candidate jobs are re-run against a
//! prior corpus, and how executed results are merged back into it.

use vstd::prelude::*;
use vstd::seq_lib::group_seq_properties;

use crate::results::{results_view, JobResult, JobResultView};
use crate::types::{AlignStats, Job, JobView};

verus! {

/// The view of a candidate batch: each job with its dataset summary.
pub open spec fn batch_view(s: Seq<(Job, AlignStats)>) -> Seq<(JobView, AlignStats)> {
    s.map_values(|p: (Job, AlignStats)| (p.0@, p.1))
}

/// A prior record makes a candidate job redundant when it is the same job
/// and either succeeded, or (unless failed jobs are re-run) was already
/// attempted with at least the candidate's resources.
pub open spec fn covers_spec(p: JobResultView, j: JobView, rerun_failed: bool) -> bool {
    p.job.is_same_as_spec(j) && (p.output is Ok || (!rerun_failed
        && p.job.has_more_resources_than_spec(j)))
}

/// A candidate job is kept when no prior record makes it redundant.
pub open spec fn keep_spec(j: JobView, prior: Seq<JobResultView>, rerun_failed: bool) -> bool {
    !exists|k: int| 0 <= k < prior.len() && covers_spec(prior[k], j, rerun_failed)
}

/// The batch that actually runs: every candidate under a non-incremental
/// run, and only the non-redundant candidates under an incremental one.
pub open spec fn planned_spec(
    jobs: Seq<(JobView, AlignStats)>,
    prior: Seq<JobResultView>,
    incremental: bool,
    rerun_failed: bool,
) -> Seq<(JobView, AlignStats)> {
    if incremental {
        jobs.filter(|p: (JobView, AlignStats)| keep_spec(p.0, prior, rerun_failed))
    } else {
        jobs
    }
}

/// Whether a prior record is superseded by some executed record of the
/// same job.
pub open spec fn replaced_spec(p: JobResultView, executed: Seq<JobResultView>) -> bool {
    exists|k: int| 0 <= k < executed.len() && executed[k].job.is_same_as_spec(p.job)
}

/// The merged corpus: prior records not superseded by an executed record,
/// in their original order, followed by the executed records.
pub open spec fn merged_spec(
    prior: Seq<JobResultView>,
    executed: Seq<JobResultView>,
) -> Seq<JobResultView> {
    prior.filter(|p: JobResultView| !replaced_spec(p, executed)) + executed
}

pub(crate) proof fn lemma_filter_push<A>(s: Seq<A>, x: A, pred: spec_fn(A) -> bool)
    ensures
        s.push(x).filter(pred) == if pred(x) {
            s.filter(pred).push(x)
        } else {
            s.filter(pred)
        },
{
    reveal(Seq::filter);
    assert(s.push(x).drop_last() =~= s);
}

/// Whether no prior record makes the candidate job redundant.
pub fn keep_job(job: &Job, prior: &Vec<JobResult>, rerun_failed: bool) -> (r: bool)
    ensures
        r == keep_spec(job@, results_view(prior@), rerun_failed),
{
    let ghost pv = results_view(prior@);
    let mut i: usize = 0;
    while i < prior.len()
        invariant
            i <= prior.len(),
            pv == results_view(prior@),
            forall|k: int| 0 <= k < i ==> !covers_spec(pv[k], job@, rerun_failed),
        decreases prior.len() - i,
    {
        let p = &prior[i];
        if p.job.is_same_as(job) && (p.output.is_ok() || (!rerun_failed
            && p.job.has_more_resources_than(job))) {
            assert(covers_spec(pv[i as int], job@, rerun_failed));
            return false;
        }
        i += 1;
    }
    true
}

/// Decide the batch to execute. Under `incremental`, candidates that a
/// prior record covers are dropped; otherwise the batch is unchanged.
pub fn plan_jobs(
    jobs: &Vec<(Job, AlignStats)>,
    prior: &Vec<JobResult>,
    incremental: bool,
    rerun_failed: bool,
) -> (r: Vec<(Job, AlignStats)>)
    ensures
        batch_view(r@) == planned_spec(
            batch_view(jobs@),
            results_view(prior@),
            incremental,
            rerun_failed,
        ),
{
    broadcast use group_seq_properties;

    let ghost jv = batch_view(jobs@);
    let ghost pv = results_view(prior@);
    let ghost pred = |p: (JobView, AlignStats)| keep_spec(p.0, pv, rerun_failed);
    let mut out: Vec<(Job, AlignStats)> = Vec::new();
    let mut i: usize = 0;
    while i < jobs.len()
        invariant
            i <= jobs.len(),
            jv == batch_view(jobs@),
            pv == results_view(prior@),
            pred == (|p: (JobView, AlignStats)| keep_spec(p.0, pv, rerun_failed)),
            incremental ==> batch_view(out@) == jv.subrange(0, i as int).filter(pred),
            !incremental ==> batch_view(out@) == jv.subrange(0, i as int),
        decreases jobs.len() - i,
    {
        let keep = !incremental || keep_job(&jobs[i].0, prior, rerun_failed);
        proof {
            assert(jv.subrange(0, i + 1 as int) =~= jv.subrange(0, i as int).push(jv[i as int]));
            lemma_filter_push(jv.subrange(0, i as int), jv[i as int], pred);
        }
        let ghost prev = batch_view(out@);
        if keep {
            out.push((jobs[i].0.clone(), jobs[i].1));
            assert(batch_view(out@) =~= prev.push(jv[i as int]));
        }
        i += 1;
    }
    assert(jv.subrange(0, jobs@.len() as int) =~= jv);
    out
}

/// Whether some executed record holds the same job.
pub fn any_same_job(executed: &Vec<JobResult>, job: &Job) -> (r: bool)
    ensures
        r == exists|k: int|
            0 <= k < executed@.len() && results_view(executed@)[k].job.is_same_as_spec(job@),
{
    let ghost ev = results_view(executed@);
    let mut i: usize = 0;
    while i < executed.len()
        invariant
            i <= executed.len(),
            ev == results_view(executed@),
            forall|k: int| 0 <= k < i ==> !ev[k].job.is_same_as_spec(job@),
        decreases executed.len() - i,
    {
        if executed[i].job.is_same_as(job) {
            assert(ev[i as int].job.is_same_as_spec(job@));
            return true;
        }
        i += 1;
    }
    false
}

/// Merge the executed batch into the prior corpus: prior records whose job
/// was re-run are dropped, all others stay in order, and the executed
/// records follow.
pub fn merge_results(prior: &Vec<JobResult>, executed: &Vec<JobResult>) -> (r: Vec<JobResult>)
    ensures
        results_view(r@) == merged_spec(results_view(prior@), results_view(executed@)),
{
    let ghost pv = results_view(prior@);
    let ghost ev = results_view(executed@);
    let ghost pred = |p: JobResultView| !replaced_spec(p, ev);
    let mut out: Vec<JobResult> = Vec::new();
    let mut i: usize = 0;
    while i < prior.len()
        invariant
            i <= prior.len(),
            pv == results_view(prior@),
            ev == results_view(executed@),
            pred == (|p: JobResultView| !replaced_spec(p, ev)),
            results_view(out@) == pv.subrange(0, i as int).filter(pred),
        decreases prior.len() - i,
    {
        let keep = !any_same_job(executed, &prior[i].job);
        proof {
            assert(pv.subrange(0, i + 1 as int) =~= pv.subrange(0, i as int).push(pv[i as int]));
            lemma_filter_push(pv.subrange(0, i as int), pv[i as int], pred);
            assert(keep == pred(pv[i as int]));
        }
        if keep {
            out.push(prior[i].clone());
            assert(results_view(out@) =~= pv.subrange(0, i as int).filter(pred).push(
                pv[i as int],
            ));
        }
        i += 1;
    }
    assert(pv.subrange(0, prior@.len() as int) =~= pv);
    let mut j: usize = 0;
    while j < executed.len()
        invariant
            j <= executed.len(),
            pv == results_view(prior@),
            ev == results_view(executed@),
            pred == (|p: JobResultView| !replaced_spec(p, ev)),
            results_view(out@) == pv.filter(pred) + ev.subrange(0, j as int),
        decreases executed.len() - j,
    {
        let ghost prev = results_view(out@);
        out.push(executed[j].clone());
        assert(results_view(out@) =~= prev.push(ev[j as int]));
        assert(prev.push(ev[j as int]) =~= pv.filter(pred) + ev.subrange(0, j + 1 as int));
        j += 1;
    }
    assert(ev.subrange(0, executed@.len() as int) =~= ev);
    assert(results_view(out@) =~= merged_spec(pv, ev));
    out
}

/// Semantic job equality is symmetric.
pub proof fn lemma_same_as_symmetric(a: JobView, b: JobView)
    ensures
        a.is_same_as_spec(b) == b.is_same_as_spec(a),
{
}

/// Incremental monotonicity: a job with a successful prior record is never
/// part of the planned batch of an incremental run, and as long as every
/// executed record's job comes from that planned batch, the successful
/// prior record survives the merge unchanged.
pub proof fn lemma_incremental_monotonicity(
    jobs: Seq<(JobView, AlignStats)>,
    prior: Seq<JobResultView>,
    rerun_failed: bool,
    executed: Seq<JobResultView>,
    pi: int,
)
    requires
        0 <= pi < prior.len(),
        prior[pi].output is Ok,
        forall|k: int|
            0 <= k < executed.len() ==> exists|m: int|
                0 <= m < planned_spec(jobs, prior, true, rerun_failed).len() && (#[trigger] executed[k]).job
                    == planned_spec(jobs, prior, true, rerun_failed)[m].0,
    ensures
        forall|m: int|
            0 <= m < planned_spec(jobs, prior, true, rerun_failed).len() ==> !(#[trigger] planned_spec(
                jobs,
                prior,
                true,
                rerun_failed,
            )[m]).0.is_same_as_spec(prior[pi].job),
        merged_spec(prior, executed).contains(prior[pi]),
{
    broadcast use vstd::seq_lib::group_filter_ensures;

    let planned = planned_spec(jobs, prior, true, rerun_failed);
    let keep = |p: (JobView, AlignStats)| keep_spec(p.0, prior, rerun_failed);
    assert forall|m: int| 0 <= m < planned.len() implies !(#[trigger] planned[m]).0.is_same_as_spec(
        prior[pi].job,
    ) by {
        assert(keep(planned[m]));
        assert(!covers_spec(prior[pi], planned[m].0, rerun_failed));
        lemma_same_as_symmetric(prior[pi].job, planned[m].0);
    }
    let replaced = |p: JobResultView| !replaced_spec(p, executed);
    assert(replaced(prior[pi])) by {
        if replaced_spec(prior[pi], executed) {
            let k = choose|k: int|
                0 <= k < executed.len() && executed[k].job.is_same_as_spec(prior[pi].job);
            let m = choose|m: int|
                0 <= m < planned.len() && executed[k].job == planned[m].0;
            assert(!planned[m].0.is_same_as_spec(prior[pi].job));
        }
    }
    let kept = prior.filter(replaced);
    assert(kept.contains(prior[pi]));
    let i = choose|i: int| 0 <= i < kept.len() && kept[i] == prior[pi];
    assert(merged_spec(prior, executed)[i] == prior[pi]);
}

} // verus!
