//! The data model of the orchestrator: datasets, cost models, algorithms
//! and jobs, together with their mathematical views and the comparison
//! relations that the planner and the workers rely on.

use vstd::prelude::*;
use vstd::string::StringExecFns;

use crate::numfmt::{dec_digits, u64_to_string};

verus! {

/// A cost model for pairwise alignment: costs for a match, a substitution,
/// opening a gap and extending a gap.
#[derive(Debug, Clone, Copy, PartialEq, Eq, Structural)]
pub struct CostModel {
    pub match_cost: i32,
    pub sub_cost: i32,
    pub open_cost: i32,
    pub extend_cost: i32,
}

impl CostModel {
    /// The unit cost model: free matches, unit substitutions and gaps.
    pub open spec fn is_unit_spec(self) -> bool {
        self.match_cost == 0 && self.sub_cost == 1 && self.open_cost == 0 && self.extend_cost == 1
    }

    pub fn unit() -> (r: CostModel)
        ensures
            r.is_unit_spec(),
    {
        CostModel { match_cost: 0, sub_cost: 1, open_cost: 0, extend_cost: 1 }
    }

    pub fn is_unit(&self) -> (r: bool)
        ensures
            r == self.is_unit_spec(),
    {
        self.match_cost == 0 && self.sub_cost == 1 && self.open_cost == 0 && self.extend_cost == 1
    }
}

/// How errors are introduced when a dataset is synthesized.
#[derive(Debug, Clone, Copy, PartialEq, Eq, Structural)]
pub enum ErrorModel {
    Uniform,
    NoisyInsert,
    NoisyDelete,
    NoisyDuplicate,
    NoisyMove,
}

/// Parameters that deterministically describe a synthesized dataset.
/// The error rate is stored in parts per million, so that one million
/// stands for an error rate of one.
#[derive(Debug, PartialEq)]
pub struct GeneratedDataset {
    pub prefix: String,
    pub seed: u64,
    pub error_model: ErrorModel,
    pub error_rate_ppm: u32,
    pub length: usize,
    pub total_size: usize,
    pub pattern_length: Option<usize>,
}

pub ghost struct GeneratedDatasetView {
    pub prefix: Seq<char>,
    pub seed: u64,
    pub error_model: ErrorModel,
    pub error_rate_ppm: u32,
    pub length: usize,
    pub total_size: usize,
    pub pattern_length: Option<usize>,
}

impl View for GeneratedDataset {
    type V = GeneratedDatasetView;

    open spec fn view(&self) -> GeneratedDatasetView {
        GeneratedDatasetView {
            prefix: self.prefix@,
            seed: self.seed,
            error_model: self.error_model,
            error_rate_ppm: self.error_rate_ppm,
            length: self.length,
            total_size: self.total_size,
            pattern_length: self.pattern_length,
        }
    }
}

impl GeneratedDatasetView {
    /// The partial order on generated datasets: same shape of errors,
    /// and error rate, sequence length and total size at least as large.
    pub open spec fn is_larger_than_spec(self, o: GeneratedDatasetView) -> bool {
        &&& self.error_model == o.error_model
        &&& self.pattern_length == o.pattern_length
        &&& self.error_rate_ppm >= o.error_rate_ppm
        &&& self.length >= o.length
        &&& self.total_size >= o.total_size
    }

    /// Equality of all describing parameters.
    pub open spec fn eq_spec(self, o: GeneratedDatasetView) -> bool {
        &&& self.prefix == o.prefix
        &&& self.seed == o.seed
        &&& self.error_model == o.error_model
        &&& self.error_rate_ppm == o.error_rate_ppm
        &&& self.length == o.length
        &&& self.total_size == o.total_size
        &&& self.pattern_length == o.pattern_length
    }
}

fn option_usize_eq(a: &Option<usize>, b: &Option<usize>) -> (r: bool)
    ensures
        r == (*a == *b),
{
    match (a, b) {
        (Some(x), Some(y)) => *x == *y,
        (None, None) => true,
        _ => false,
    }
}

impl GeneratedDataset {
    pub fn is_larger_than(&self, o: &Self) -> (r: bool)
        ensures
            r == self@.is_larger_than_spec(o@),
    {
        self.error_model == o.error_model
            && option_usize_eq(&self.pattern_length, &o.pattern_length)
            && self.error_rate_ppm >= o.error_rate_ppm
            && self.length >= o.length
            && self.total_size >= o.total_size
    }

    pub fn same_params(&self, o: &Self) -> (r: bool)
        ensures
            r == self@.eq_spec(o@),
    {
        self.prefix == o.prefix
            && self.seed == o.seed
            && self.error_model == o.error_model
            && self.error_rate_ppm == o.error_rate_ppm
            && self.length == o.length
            && self.total_size == o.total_size
            && option_usize_eq(&self.pattern_length, &o.pattern_length)
    }
}

/// The name of an error model, as it appears in dataset file names.
pub open spec fn error_model_seq(m: ErrorModel) -> Seq<char> {
    match m {
        ErrorModel::Uniform => "Uniform"@,
        ErrorModel::NoisyInsert => "NoisyInsert"@,
        ErrorModel::NoisyDelete => "NoisyDelete"@,
        ErrorModel::NoisyDuplicate => "NoisyDuplicate"@,
        ErrorModel::NoisyMove => "NoisyMove"@,
    }
}

pub fn error_model_str(m: ErrorModel) -> (r: &'static str)
    ensures
        r@ == error_model_seq(m),
{
    match m {
        ErrorModel::Uniform => "Uniform",
        ErrorModel::NoisyInsert => "NoisyInsert",
        ErrorModel::NoisyDelete => "NoisyDelete",
        ErrorModel::NoisyDuplicate => "NoisyDuplicate",
        ErrorModel::NoisyMove => "NoisyMove",
    }
}

impl GeneratedDatasetView {
    /// The on-disk file name: a pure function of the dataset's parameters.
    pub open spec fn name_spec(self) -> Seq<char> {
        error_model_seq(self.error_model) + "-t"@ + dec_digits(self.total_size as nat) + "-n"@
            + dec_digits(self.length as nat) + "-e"@ + dec_digits(self.error_rate_ppm as nat)
            + ".seq"@
    }

    /// The on-disk path: the prefix, a separator, and the name.
    pub open spec fn path_spec(self) -> Seq<char> {
        self.prefix + "/"@ + self.name_spec()
    }
}

impl GeneratedDataset {
    /// The dataset's on-disk file name, determined by its parameters alone.
    pub fn name(&self) -> (r: String)
        ensures
            r@ == self@.name_spec(),
    {
        let mut s = error_model_str(self.error_model).to_owned();
        s.append("-t");
        s.append(u64_to_string(self.total_size as u64).as_str());
        s.append("-n");
        s.append(u64_to_string(self.length as u64).as_str());
        s.append("-e");
        s.append(u64_to_string(self.error_rate_ppm as u64).as_str());
        s.append(".seq");
        s
    }

    /// The dataset's on-disk path under its prefix.
    pub fn path(&self) -> (r: String)
        ensures
            r@ == self@.path_spec(),
    {
        let mut s = self.prefix.clone();
        s.append("/");
        s.append(self.name().as_str());
        s
    }
}

/// A source of sequence pairs: synthesized by parameters, read from a
/// `.seq` file, or inlined (the latter only for small test inputs).
#[derive(Debug, PartialEq)]
pub enum Dataset {
    Generated(GeneratedDataset),
    File(String),
    Data(Vec<(String, String)>),
}

pub ghost enum DatasetView {
    Generated(GeneratedDatasetView),
    File(Seq<char>),
    Data(Seq<(Seq<char>, Seq<char>)>),
}

impl View for Dataset {
    type V = DatasetView;

    open spec fn view(&self) -> DatasetView {
        match self {
            Dataset::Generated(g) => DatasetView::Generated(g@),
            Dataset::File(p) => DatasetView::File(p@),
            Dataset::Data(d) => DatasetView::Data(d@.map_values(|p: (String, String)| (p.0@, p.1@))),
        }
    }
}

impl DatasetView {
    pub open spec fn is_generated_spec(self) -> bool {
        self is Generated
    }

    /// Equality of dataset descriptions, down to the characters of paths
    /// and inline data.
    pub open spec fn eq_spec(self, o: DatasetView) -> bool {
        match (self, o) {
            (DatasetView::Generated(a), DatasetView::Generated(b)) => a.eq_spec(b),
            (DatasetView::File(a), DatasetView::File(b)) => a == b,
            (DatasetView::Data(a), DatasetView::Data(b)) => a == b,
            _ => false,
        }
    }
}

fn pairs_eq(a: &Vec<(String, String)>, b: &Vec<(String, String)>) -> (r: bool)
    ensures
        r == (a@.map_values(|p: (String, String)| (p.0@, p.1@)) == b@.map_values(
            |p: (String, String)| (p.0@, p.1@),
        )),
{
    let ghost am = a@.map_values(|p: (String, String)| (p.0@, p.1@));
    let ghost bm = b@.map_values(|p: (String, String)| (p.0@, p.1@));
    if a.len() != b.len() {
        assert(am.len() != bm.len());
        return false;
    }
    let mut i: usize = 0;
    while i < a.len()
        invariant
            i <= a.len(),
            a.len() == b.len(),
            am == a@.map_values(|p: (String, String)| (p.0@, p.1@)),
            bm == b@.map_values(|p: (String, String)| (p.0@, p.1@)),
            forall|k: int| 0 <= k < i ==> am[k] == bm[k],
        decreases a.len() - i,
    {
        let (x0, x1) = (&a[i].0, &a[i].1);
        let (y0, y1) = (&b[i].0, &b[i].1);
        if !(*x0 == *y0 && *x1 == *y1) {
            assert(am[i as int] != bm[i as int]);
            return false;
        }
        assert(am[i as int] == bm[i as int]);
        i += 1;
    }
    assert(am =~= bm);
    true
}

impl Clone for GeneratedDataset {
    fn clone(&self) -> (res: Self)
        ensures
            res@ == self@,
    {
        GeneratedDataset {
            prefix: self.prefix.clone(),
            seed: self.seed,
            error_model: self.error_model,
            error_rate_ppm: self.error_rate_ppm,
            length: self.length,
            total_size: self.total_size,
            pattern_length: self.pattern_length,
        }
    }
}

fn clone_pairs(d: &Vec<(String, String)>) -> (r: Vec<(String, String)>)
    ensures
        r@.map_values(|p: (String, String)| (p.0@, p.1@)) == d@.map_values(
            |p: (String, String)| (p.0@, p.1@),
        ),
{
    let mut r: Vec<(String, String)> = Vec::new();
    let mut i: usize = 0;
    while i < d.len()
        invariant
            i <= d.len(),
            r@.len() == i,
            forall|k: int|
                0 <= k < i ==> r@[k].0@ == d@[k].0@ && r@[k].1@ == d@[k].1@,
        decreases d.len() - i,
    {
        r.push((d[i].0.clone(), d[i].1.clone()));
        i += 1;
    }
    assert(r@.map_values(|p: (String, String)| (p.0@, p.1@)) =~= d@.map_values(
        |p: (String, String)| (p.0@, p.1@),
    ));
    r
}

impl Clone for Dataset {
    fn clone(&self) -> (res: Self)
        ensures
            res@ == self@,
    {
        match self {
            Dataset::Generated(g) => Dataset::Generated(g.clone()),
            Dataset::File(p) => Dataset::File(p.clone()),
            Dataset::Data(d) => Dataset::Data(clone_pairs(d)),
        }
    }
}

impl Dataset {
    pub fn is_generated(&self) -> (r: bool)
        ensures
            r == self@.is_generated_spec(),
    {
        matches!(self, Dataset::Generated(..))
    }

    pub fn same_dataset(&self, o: &Self) -> (r: bool)
        ensures
            r == self@.eq_spec(o@),
    {
        match (self, o) {
            (Dataset::Generated(a), Dataset::Generated(b)) => a.same_params(b),
            (Dataset::File(a), Dataset::File(b)) => *a == *b,
            (Dataset::Data(a), Dataset::Data(b)) => pairs_eq(a, b),
            _ => false,
        }
    }
}

/// Parameters of the block-aligner family.
#[derive(Debug, Clone, Copy, PartialEq, Eq, Structural)]
pub struct BlockAlignerParams {
    pub min_size: usize,
    pub max_size: usize,
}

/// The striped parasail aligner takes no parameters.
#[derive(Debug, Clone, Copy, PartialEq, Eq, Structural)]
pub struct ParasailStripedParams;

/// The edlib aligner takes no parameters.
#[derive(Debug, Clone, Copy, PartialEq, Eq, Structural)]
pub struct EdlibParams;

/// Which algorithm to run and benchmark, along with algorithm-specific
/// parameters.
#[derive(Debug, Clone, Copy, PartialEq, Eq, Structural)]
pub enum Algorithm {
    BlockAligner(BlockAlignerParams),
    ParasailStriped(ParasailStripedParams),
}

/// Summary statistics of the sequence pairs of one dataset.
#[derive(Debug, Clone, Copy, PartialEq, Eq, Structural)]
pub struct AlignStats {
    pub sequence_pairs: u64,
    pub total_bases: u64,
    pub max_length: u64,
}

impl AlignStats {
    pub fn zero() -> (r: AlignStats)
        ensures
            r.sequence_pairs == 0 && r.total_bases == 0 && r.max_length == 0,
    {
        AlignStats { sequence_pairs: 0, total_bases: 0, max_length: 0 }
    }
}

/// An alignment job: one benchmark task for the runner, together with its
/// resource limits. The time limit is in seconds of cpu time; the memory
/// limit is in bytes.
#[derive(Debug, PartialEq)]
pub struct Job {
    pub time_limit: u64,
    pub mem_limit: u64,
    pub dataset: Dataset,
    pub costs: CostModel,
    pub traceback: bool,
    pub algo: Algorithm,
}

pub ghost struct JobView {
    pub time_limit: u64,
    pub mem_limit: u64,
    pub dataset: DatasetView,
    pub costs: CostModel,
    pub traceback: bool,
    pub algo: Algorithm,
}

impl View for Job {
    type V = JobView;

    open spec fn view(&self) -> JobView {
        JobView {
            time_limit: self.time_limit,
            mem_limit: self.mem_limit,
            dataset: self.dataset@,
            costs: self.costs,
            traceback: self.traceback,
            algo: self.algo,
        }
    }
}

impl JobView {
    /// Semantic equality of jobs: everything but the resource limits.
    pub open spec fn is_same_as_spec(self, o: JobView) -> bool {
        &&& self.dataset.eq_spec(o.dataset)
        &&& self.costs == o.costs
        &&& self.traceback == o.traceback
        &&& self.algo == o.algo
    }

    /// Componentwise comparison of the resource limits.
    pub open spec fn has_more_resources_than_spec(self, o: JobView) -> bool {
        self.time_limit >= o.time_limit && self.mem_limit >= o.mem_limit
    }

    /// Same benchmark input: same dataset and same cost model.
    pub open spec fn same_input_spec(self, o: JobView) -> bool {
        self.dataset.eq_spec(o.dataset) && self.costs == o.costs
    }

    /// The in-batch skip order: same task on a dataset at least as hard,
    /// attempted with at most the resources of `o`. Both datasets must be
    /// generated.
    pub open spec fn is_larger_spec(self, o: JobView) -> bool {
        match (self.dataset, o.dataset) {
            (DatasetView::Generated(a), DatasetView::Generated(b)) => {
                &&& self.costs == o.costs
                &&& self.algo == o.algo
                &&& self.traceback == o.traceback
                &&& self.time_limit <= o.time_limit
                &&& self.mem_limit <= o.mem_limit
                &&& a.is_larger_than_spec(b)
            },
            _ => false,
        }
    }
}

impl Clone for Job {
    fn clone(&self) -> (res: Self)
        ensures
            res@ == self@,
    {
        Job {
            time_limit: self.time_limit,
            mem_limit: self.mem_limit,
            dataset: self.dataset.clone(),
            costs: self.costs,
            traceback: self.traceback,
            algo: self.algo,
        }
    }
}

/// Dataset equality is an equivalence: reflexive, symmetric, transitive.
pub proof fn lemma_dataset_eq_equivalence(a: DatasetView, b: DatasetView, c: DatasetView)
    ensures
        a.eq_spec(a),
        a.eq_spec(b) == b.eq_spec(a),
        a.eq_spec(b) && b.eq_spec(c) ==> a.eq_spec(c),
{
}

/// Same-input is an equivalence on jobs: reflexive, symmetric, transitive.
pub proof fn lemma_same_input_equivalence(a: JobView, b: JobView, c: JobView)
    ensures
        a.same_input_spec(a),
        a.same_input_spec(b) == b.same_input_spec(a),
        a.same_input_spec(b) && b.same_input_spec(c) ==> a.same_input_spec(c),
{
    lemma_dataset_eq_equivalence(a.dataset, b.dataset, c.dataset);
    lemma_dataset_eq_equivalence(b.dataset, a.dataset, c.dataset);
}

impl Job {
    /// Whether the jobs are the same, ignoring resources.
    pub fn is_same_as(&self, o: &Self) -> (r: bool)
        ensures
            r == self@.is_same_as_spec(o@),
    {
        self.dataset.same_dataset(&o.dataset) && self.costs == o.costs
            && self.traceback == o.traceback && self.algo == o.algo
    }

    /// Whether this job was given at least the resources of `o`.
    pub fn has_more_resources_than(&self, o: &Self) -> (r: bool)
        ensures
            r == self@.has_more_resources_than_spec(o@),
    {
        self.time_limit >= o.time_limit && self.mem_limit >= o.mem_limit
    }

    /// Whether the jobs run on the same input: dataset and cost model.
    pub fn same_input(&self, o: &Self) -> (r: bool)
        ensures
            r == self@.same_input_spec(o@),
    {
        self.dataset.same_dataset(&o.dataset) && self.costs == o.costs
    }

    /// Whether this job is larger than another job, in the sense of the
    /// in-batch skip rule. Returns false when either dataset is not
    /// generated.
    pub fn is_larger(&self, o: &Self) -> (r: bool)
        ensures
            r == self@.is_larger_spec(o@),
    {
        match (&self.dataset, &o.dataset) {
            (Dataset::Generated(a), Dataset::Generated(b)) => {
                self.costs == o.costs && self.algo == o.algo && self.traceback == o.traceback
                    && self.time_limit <= o.time_limit && self.mem_limit <= o.mem_limit
                    && a.is_larger_than(b)
            },
            _ => false,
        }
    }
}

} // verus!
