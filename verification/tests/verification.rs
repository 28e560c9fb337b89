use pa_bench::crosscheck::{verify_costs, VerifyError};
use pa_bench::results::{Fraction, JobError, JobOutput, JobResult, Measured, ResourceUsage};
use pa_bench::types::{
    AlignStats, Algorithm, BlockAlignerParams, CostModel, Dataset, ErrorModel, GeneratedDataset,
    Job, ParasailStripedParams,
};

fn gen_dataset(seed: u64) -> Dataset {
    Dataset::Generated(GeneratedDataset {
        prefix: String::from("evals/data"),
        seed,
        error_model: ErrorModel::Uniform,
        error_rate_ppm: 10000,
        length: 100,
        total_size: 10000,
        pattern_length: None,
    })
}

fn job(seed: u64, algo: Algorithm) -> Job {
    Job {
        time_limit: 60,
        mem_limit: 1 << 30,
        dataset: gen_dataset(seed),
        costs: CostModel::unit(),
        traceback: false,
        algo,
    }
}

fn exact_algo() -> Algorithm {
    Algorithm::ParasailStriped(ParasailStripedParams)
}

fn approx_algo() -> Algorithm {
    Algorithm::BlockAligner(BlockAlignerParams { min_size: 32, max_size: 64 })
}

fn measured() -> Measured {
    Measured {
        runtime_us: 1000,
        memory: 4096,
        time_start_s: 0,
        time_end_s: 1,
        cpu_start: None,
        cpu_end: None,
        cpu_freq_start_khz: None,
        cpu_freq_end_khz: None,
    }
}

fn run(j: Job, costs: Vec<i32>, is_exact: bool) -> JobResult {
    JobResult {
        job: j,
        stats: AlignStats::zero(),
        resources: ResourceUsage::zero(),
        output: Ok(JobOutput {
            costs,
            exact_costs: None,
            is_exact,
            p_correct: None,
            measured: measured(),
        }),
    }
}

fn failed(j: Job) -> JobResult {
    JobResult {
        job: j,
        stats: AlignStats::zero(),
        resources: ResourceUsage::zero(),
        output: Err(JobError::Timeout),
    }
}

#[test]
fn approximate_rows_gain_reference_and_fraction() {
    // the approximate row comes first in the corpus; sorting moves the
    // exact reference in front of it
    let corpus = vec![
        run(job(1, approx_algo()), vec![3, 2, 4], false),
        run(job(1, exact_algo()), vec![3, 1, 4], true),
    ];
    let verified = verify_costs(&corpus).expect("consistent corpus");
    assert_eq!(verified.len(), 2);
    // after the stable sort the exact row is first
    let exact_row = &verified[0];
    let approx_row = &verified[1];
    assert!(matches!(exact_row.job.algo, Algorithm::ParasailStriped(_)));
    let out = approx_row.output.as_ref().unwrap();
    assert_eq!(out.exact_costs, Some(vec![3, 1, 4]));
    assert_eq!(out.p_correct, Some(Fraction { num: 2, den: 3 }));
    // the exact row itself is untouched
    let ref_out = exact_row.output.as_ref().unwrap();
    assert_eq!(ref_out.exact_costs, None);
    assert_eq!(ref_out.p_correct, None);
}

#[test]
fn agreeing_exact_rows_pass() {
    let corpus = vec![
        run(job(1, exact_algo()), vec![5, 6], true),
        run(job(1, approx_algo()), vec![5, 6], true),
    ];
    let verified = verify_costs(&corpus).expect("exact rows agree");
    // every exact success with the same input carries equal costs
    for r in &verified {
        assert_eq!(r.output.as_ref().unwrap().costs, vec![5, 6]);
    }
}

#[test]
fn disagreeing_exact_rows_abort_naming_both_jobs() {
    let corpus = vec![
        run(job(1, exact_algo()), vec![3, 1, 4], true),
        run(job(1, approx_algo()), vec![3, 2, 4], true),
    ];
    match verify_costs(&corpus) {
        Err(VerifyError::CostMismatch { job: j, reference }) => {
            assert!(matches!(j.algo, Algorithm::BlockAligner(_)));
            assert!(matches!(reference.algo, Algorithm::ParasailStriped(_)));
        },
        other => panic!("expected a cost mismatch, got {:?}", other),
    }
}

#[test]
fn different_cost_counts_abort() {
    let corpus = vec![
        run(job(1, exact_algo()), vec![3, 1, 4], true),
        run(job(1, approx_algo()), vec![3, 1], false),
    ];
    match verify_costs(&corpus) {
        Err(VerifyError::LengthMismatch { job: j, reference }) => {
            assert!(matches!(j.algo, Algorithm::BlockAligner(_)));
            assert!(matches!(reference.algo, Algorithm::ParasailStriped(_)));
        },
        other => panic!("expected a length mismatch, got {:?}", other),
    }
}

#[test]
fn rows_without_a_reference_stay_unchanged() {
    // different inputs: no row references another
    let corpus = vec![
        run(job(1, approx_algo()), vec![1], false),
        run(job(2, exact_algo()), vec![2], true),
        failed(job(3, exact_algo())),
    ];
    let verified = verify_costs(&corpus).expect("nothing to compare");
    assert_eq!(verified.len(), 3);
    // the exact row was sorted to the front; the failure stays last
    assert!(verified[0].output.is_ok());
    assert_eq!(verified[1].output.as_ref().unwrap().p_correct, None);
    assert!(verified[2].output.is_err());
}

#[test]
fn sort_is_stable_within_groups() {
    let corpus = vec![
        run(job(1, approx_algo()), vec![1], false),
        run(job(2, exact_algo()), vec![2], true),
        run(job(3, exact_algo()), vec![3], true),
        run(job(4, approx_algo()), vec![4], false),
    ];
    let verified = verify_costs(&corpus).expect("nothing conflicts");
    let costs: Vec<i32> =
        verified.iter().map(|r| r.output.as_ref().unwrap().costs[0]).collect();
    // exact successes first in their order, then the others in theirs
    assert_eq!(costs, vec![2, 3, 1, 4]);
}

#[test]
fn fully_correct_approximation_scores_one() {
    let corpus = vec![
        run(job(1, exact_algo()), vec![7, 8], true),
        run(job(1, approx_algo()), vec![7, 8], false),
    ];
    let verified = verify_costs(&corpus).expect("consistent corpus");
    let out = verified[1].output.as_ref().unwrap();
    assert_eq!(out.p_correct, Some(Fraction { num: 2, den: 2 }));
}
