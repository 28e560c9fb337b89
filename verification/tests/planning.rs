use pa_bench::plan::{any_same_job, keep_job, merge_results, plan_jobs};
use pa_bench::results::{JobError, JobOutput, JobResult, Measured, ResourceUsage};
use pa_bench::types::{
    AlignStats, Algorithm, CostModel, Dataset, ErrorModel, GeneratedDataset, Job,
    ParasailStripedParams,
};

fn gen_dataset(seed: u64) -> Dataset {
    Dataset::Generated(GeneratedDataset {
        prefix: String::from("evals/data"),
        seed,
        error_model: ErrorModel::Uniform,
        error_rate_ppm: 10000,
        length: 100,
        total_size: 10000,
        pattern_length: None,
    })
}

fn job(seed: u64, time_limit: u64) -> Job {
    Job {
        time_limit,
        mem_limit: 1 << 30,
        dataset: gen_dataset(seed),
        costs: CostModel::unit(),
        traceback: false,
        algo: Algorithm::ParasailStriped(ParasailStripedParams),
    }
}

fn measured() -> Measured {
    Measured {
        runtime_us: 1000,
        memory: 4096,
        time_start_s: 0,
        time_end_s: 1,
        cpu_start: Some(1),
        cpu_end: Some(1),
        cpu_freq_start_khz: None,
        cpu_freq_end_khz: None,
    }
}

fn success(j: Job, costs: Vec<i32>) -> JobResult {
    JobResult {
        job: j,
        stats: AlignStats::zero(),
        resources: ResourceUsage::zero(),
        output: Ok(JobOutput {
            costs,
            exact_costs: None,
            is_exact: true,
            p_correct: None,
            measured: measured(),
        }),
    }
}

fn failure(j: Job, e: JobError) -> JobResult {
    JobResult {
        job: j,
        stats: AlignStats::zero(),
        resources: ResourceUsage::zero(),
        output: Err(e),
    }
}

#[test]
fn cold_start_runs_everything_then_nothing() {
    let batch: Vec<(Job, AlignStats)> = vec![
        (job(1, 60), AlignStats::zero()),
        (job(2, 60), AlignStats::zero()),
        (job(3, 60), AlignStats::zero()),
        (job(4, 60), AlignStats::zero()),
    ];
    let empty_prior: Vec<JobResult> = vec![];
    let planned = plan_jobs(&batch, &empty_prior, true, false);
    assert_eq!(planned.len(), 4);

    // all four succeed; the merged corpus has four rows
    let executed: Vec<JobResult> =
        planned.into_iter().map(|(j, _)| success(j, vec![1])).collect();
    let corpus = merge_results(&empty_prior, &executed);
    assert_eq!(corpus.len(), 4);

    // a second incremental run launches nothing
    let replanned = plan_jobs(&batch, &corpus, true, false);
    assert_eq!(replanned.len(), 0);
}

#[test]
fn non_incremental_keeps_the_whole_batch() {
    let batch = vec![(job(1, 60), AlignStats::zero())];
    let prior = vec![success(job(1, 60), vec![1])];
    let planned = plan_jobs(&batch, &prior, false, false);
    assert_eq!(planned.len(), 1);
}

#[test]
fn resource_bump_reruns_a_starved_failure() {
    // the prior attempt timed out with a smaller time budget
    let prior = vec![failure(job(1, 10), JobError::Timeout)];
    let bumped = job(1, 60);
    // prior resources < new: the job is re-executed
    assert!(keep_job(&bumped, &prior, false));
    // prior resources >= new and failures are not rerun: skipped
    let starved = job(1, 10);
    assert!(!keep_job(&starved, &prior, false));
    let even_less = job(1, 5);
    assert!(!keep_job(&even_less, &prior, false));
    // with --rerun-failed every failure is retried
    assert!(keep_job(&starved, &prior, true));
}

#[test]
fn prior_success_is_never_rerun() {
    let prior = vec![success(job(1, 10), vec![3])];
    // even with more resources, a successful job is reused
    assert!(!keep_job(&job(1, 60), &prior, false));
    assert!(!keep_job(&job(1, 60), &prior, true));
}

#[test]
fn merge_replaces_rerun_rows_and_keeps_the_rest() {
    let p1 = success(job(1, 60), vec![1]);
    let p2 = failure(job(2, 60), JobError::Panic);
    let p3 = success(job(3, 60), vec![3]);
    let prior = vec![p1, p2, p3];
    let executed = vec![success(job(2, 90), vec![2])];
    let corpus = merge_results(&prior, &executed);
    // prior-first order with the re-run row replaced at the end
    assert_eq!(corpus.len(), 3);
    assert!(corpus[0].job.is_same_as(&job(1, 60)));
    assert!(corpus[1].job.is_same_as(&job(3, 60)));
    assert!(corpus[2].job.is_same_as(&job(2, 60)));
    assert!(corpus[2].output.is_ok());
    assert!(any_same_job(&executed, &job(2, 60)));
    assert!(!any_same_job(&executed, &job(1, 60)));
}
