use pa_bench::expand::{expand, resolve_limit, Experiment, DEFAULT_MEM_LIMIT_BYTES, DEFAULT_TIME_LIMIT_S};
use pa_bench::types::{
    AlignStats, Algorithm, BlockAlignerParams, CostModel, Dataset, ErrorModel, GeneratedDataset,
    ParasailStripedParams,
};

fn gen_dataset(seed: u64) -> Dataset {
    Dataset::Generated(GeneratedDataset {
        prefix: String::from("evals/data"),
        seed,
        error_model: ErrorModel::Uniform,
        error_rate_ppm: 10000,
        length: 100,
        total_size: 10000,
        pattern_length: None,
    })
}

fn experiment_2x2() -> Experiment {
    Experiment {
        datasets: vec![(gen_dataset(1), AlignStats::zero()), (gen_dataset(2), AlignStats::zero())],
        costs: vec![CostModel::unit()],
        traceback: vec![false],
        algos: vec![
            Algorithm::ParasailStriped(ParasailStripedParams),
            Algorithm::BlockAligner(BlockAlignerParams { min_size: 32, max_size: 64 }),
        ],
        time_limit: None,
        mem_limit: None,
    }
}

#[test]
fn limit_resolution_priority() {
    assert_eq!(resolve_limit(Some(5), Some(7), 60), 5);
    assert_eq!(resolve_limit(None, Some(7), 60), 7);
    assert_eq!(resolve_limit(None, None, 60), 60);
    assert_eq!(DEFAULT_TIME_LIMIT_S, 60);
    assert_eq!(DEFAULT_MEM_LIMIT_BYTES, 1024 * 1024 * 1024);
}

#[test]
fn product_shape_and_order() {
    let e = experiment_2x2();
    let jobs = expand(&e, None, None);
    // two datasets times one cost model times one flag times two algorithms
    assert_eq!(jobs.len(), 4);
    // datasets are the outermost axis, algorithms the innermost
    assert!(jobs[0].0.dataset.same_dataset(&gen_dataset(1)));
    assert!(jobs[1].0.dataset.same_dataset(&gen_dataset(1)));
    assert!(jobs[2].0.dataset.same_dataset(&gen_dataset(2)));
    assert!(jobs[3].0.dataset.same_dataset(&gen_dataset(2)));
    assert!(matches!(jobs[0].0.algo, Algorithm::ParasailStriped(_)));
    assert!(matches!(jobs[1].0.algo, Algorithm::BlockAligner(_)));
    // the hard-coded fallbacks apply when nothing overrides them
    assert_eq!(jobs[0].0.time_limit, DEFAULT_TIME_LIMIT_S);
    assert_eq!(jobs[0].0.mem_limit, DEFAULT_MEM_LIMIT_BYTES);
}

#[test]
fn expansion_is_deterministic() {
    let e = experiment_2x2();
    let once = expand(&e, Some(10), None);
    let twice = expand(&e, Some(10), None);
    assert_eq!(once.len(), twice.len());
    for (a, b) in once.iter().zip(twice.iter()) {
        assert!(a.0.is_same_as(&b.0));
        assert_eq!(a.0.time_limit, b.0.time_limit);
        assert_eq!(a.0.mem_limit, b.0.mem_limit);
        assert_eq!(a.1, b.1);
    }
}

#[test]
fn command_line_overrides_experiment_file() {
    let mut e = experiment_2x2();
    e.time_limit = Some(120);
    e.mem_limit = Some(2048);
    let from_file = expand(&e, None, None);
    assert_eq!(from_file[0].0.time_limit, 120);
    assert_eq!(from_file[0].0.mem_limit, 2048);
    let from_cli = expand(&e, Some(30), Some(4096));
    assert_eq!(from_cli[0].0.time_limit, 30);
    assert_eq!(from_cli[0].0.mem_limit, 4096);
}

#[test]
fn empty_axis_gives_no_jobs() {
    let mut e = experiment_2x2();
    e.algos = vec![];
    assert_eq!(expand(&e, None, None).len(), 0);
}
