use pa_bench::numfmt::{i32_to_string, u64_to_string};
use pa_bench::session::log_file_name;
use pa_bench::types::{
    Algorithm, BlockAlignerParams, CostModel, Dataset, ErrorModel, GeneratedDataset, Job,
    ParasailStripedParams,
};

fn gen_dataset(seed: u64, error_rate_ppm: u32, length: usize, total_size: usize) -> GeneratedDataset {
    GeneratedDataset {
        prefix: String::from("evals/data"),
        seed,
        error_model: ErrorModel::Uniform,
        error_rate_ppm,
        length,
        total_size,
        pattern_length: None,
    }
}

fn job(dataset: Dataset, time_limit: u64, mem_limit: u64) -> Job {
    Job {
        time_limit,
        mem_limit,
        dataset,
        costs: CostModel::unit(),
        traceback: false,
        algo: Algorithm::ParasailStriped(ParasailStripedParams),
    }
}

#[test]
fn unit_cost_model() {
    let cm = CostModel::unit();
    assert!(cm.is_unit());
    assert_eq!(cm, CostModel { match_cost: 0, sub_cost: 1, open_cost: 0, extend_cost: 1 });
    let other = CostModel { match_cost: 0, sub_cost: 2, open_cost: 0, extend_cost: 1 };
    assert!(!other.is_unit());
}

#[test]
fn u64_rendering() {
    assert_eq!(u64_to_string(0), "0");
    assert_eq!(u64_to_string(7), "7");
    assert_eq!(u64_to_string(10), "10");
    assert_eq!(u64_to_string(65536), "65536");
    assert_eq!(u64_to_string(u64::MAX), "18446744073709551615");
}

#[test]
fn i32_rendering() {
    assert_eq!(i32_to_string(0), "0");
    assert_eq!(i32_to_string(-5), "-5");
    assert_eq!(i32_to_string(42), "42");
    assert_eq!(i32_to_string(i32::MIN), "-2147483648");
}

#[test]
fn dataset_name_and_path() {
    let d = gen_dataset(31415, 50000, 100, 10000);
    assert_eq!(d.name(), "Uniform-t10000-n100-e50000.seq");
    assert_eq!(d.path(), "evals/data/Uniform-t10000-n100-e50000.seq");
}

#[test]
fn session_log_name() {
    assert_eq!(log_file_name("bench", "2024-01-02T03:04:05"), "bench_2024-01-02T03:04:05.json");
}

#[test]
fn generated_dataset_order() {
    let small = gen_dataset(1, 1000, 100, 10000);
    let large = gen_dataset(1, 2000, 200, 20000);
    assert!(large.is_larger_than(&small));
    assert!(large.is_larger_than(&large));
    assert!(!small.is_larger_than(&large));
    // a different error model breaks the order in both directions
    let mut other_model = gen_dataset(1, 2000, 200, 20000);
    other_model.error_model = ErrorModel::NoisyInsert;
    assert!(!other_model.is_larger_than(&small));
    // the seed takes no part in the order
    let reseeded = gen_dataset(99, 2000, 200, 20000);
    assert!(reseeded.is_larger_than(&small));
}

#[test]
fn dataset_equality() {
    let a = Dataset::Generated(gen_dataset(1, 1000, 100, 10000));
    let b = Dataset::Generated(gen_dataset(1, 1000, 100, 10000));
    let c = Dataset::Generated(gen_dataset(2, 1000, 100, 10000));
    assert!(a.same_dataset(&b));
    assert!(!a.same_dataset(&c));
    assert!(!a.same_dataset(&Dataset::File(String::from("x.seq"))));
    let d1 = Dataset::Data(vec![(String::from("ACGT"), String::from("ACCT"))]);
    let d2 = Dataset::Data(vec![(String::from("ACGT"), String::from("ACCT"))]);
    let d3 = Dataset::Data(vec![(String::from("ACGT"), String::from("AGGT"))]);
    assert!(d1.same_dataset(&d2));
    assert!(!d1.same_dataset(&d3));
    assert!(d1.is_generated() == false);
    assert!(a.is_generated());
}

#[test]
fn job_relations() {
    let d = Dataset::Generated(gen_dataset(1, 1000, 100, 10000));
    let j1 = job(d.clone(), 60, 1 << 30);
    let mut j2 = job(d.clone(), 10, 1 << 20);
    assert!(j1.is_same_as(&j2));
    assert!(j1.same_input(&j2));
    assert!(j1.has_more_resources_than(&j2));
    assert!(!j2.has_more_resources_than(&j1));
    j2.traceback = true;
    assert!(!j1.is_same_as(&j2));
    assert!(j1.same_input(&j2));
    j2.costs = CostModel { match_cost: 0, sub_cost: 2, open_cost: 0, extend_cost: 1 };
    assert!(!j1.same_input(&j2));
    let j3 = job(
        Dataset::Generated(gen_dataset(1, 1000, 100, 10000)),
        60,
        1 << 30,
    );
    let mut j4 = job(Dataset::Generated(gen_dataset(1, 2000, 200, 20000)), 30, 1 << 20);
    // the larger dataset attempted with fewer resources is the larger job
    assert!(j4.is_larger(&j3));
    assert!(!j3.is_larger(&j4));
    j4.algo = Algorithm::BlockAligner(BlockAlignerParams { min_size: 32, max_size: 64 });
    assert!(!j4.is_larger(&j3));
    // non-generated datasets never take part in the skip order
    let jf = job(Dataset::File(String::from("x.seq")), 30, 1 << 20);
    assert!(!jf.is_larger(&j3));
    assert!(!j3.is_larger(&jf));
}

#[test]
fn job_clone_preserves_everything() {
    let d = Dataset::Data(vec![(String::from("AC"), String::from("AG"))]);
    let j = job(d, 60, 1024);
    let k = j.clone();
    assert!(j.is_same_as(&k));
    assert_eq!(j.time_limit, k.time_limit);
    assert_eq!(j.mem_limit, k.mem_limit);
}
