//! The experiment expander: a declarative experiment is turned into the
//! flat, deterministically ordered batch of jobs — the Cartesian product
//! of its datasets, cost models, traceback flags and algorithms — with the
//! resolved resource limits and each dataset's summary attached.

use vstd::prelude::*;

use crate::plan::batch_view;
use crate::types::{AlignStats, Algorithm, CostModel, Dataset, DatasetView, Job, JobView};

verus! {

/// The hard-coded fallback time limit, in seconds.
pub const DEFAULT_TIME_LIMIT_S: u64 = 60;

/// The hard-coded fallback memory limit: one GiB, in bytes.
pub const DEFAULT_MEM_LIMIT_BYTES: u64 = 1024 * 1024 * 1024;

/// A declarative experiment: the axes of the job matrix and the optional
/// per-experiment resource limits.
#[derive(Debug)]
pub struct Experiment {
    pub datasets: Vec<(Dataset, AlignStats)>,
    pub costs: Vec<CostModel>,
    pub traceback: Vec<bool>,
    pub algos: Vec<Algorithm>,
    pub time_limit: Option<u64>,
    pub mem_limit: Option<u64>,
}

pub ghost struct ExperimentView {
    pub datasets: Seq<(DatasetView, AlignStats)>,
    pub costs: Seq<CostModel>,
    pub traceback: Seq<bool>,
    pub algos: Seq<Algorithm>,
    pub time_limit: Option<u64>,
    pub mem_limit: Option<u64>,
}

impl View for Experiment {
    type V = ExperimentView;

    open spec fn view(&self) -> ExperimentView {
        ExperimentView {
            datasets: self.datasets@.map_values(|p: (Dataset, AlignStats)| (p.0@, p.1)),
            costs: self.costs@,
            traceback: self.traceback@,
            algos: self.algos@,
            time_limit: self.time_limit,
            mem_limit: self.mem_limit,
        }
    }
}

/// Resolution of a resource limit: the command line wins over the
/// experiment file, which wins over the hard-coded fallback.
pub open spec fn resolve_limit_spec(cli: Option<u64>, file: Option<u64>, fallback: u64) -> u64 {
    match cli {
        Some(v) => v,
        None => match file {
            Some(v) => v,
            None => fallback,
        },
    }
}

pub fn resolve_limit(cli: Option<u64>, file: Option<u64>, fallback: u64) -> (r: u64)
    ensures
        r == resolve_limit_spec(cli, file, fallback),
{
    match cli {
        Some(v) => v,
        None => match file {
            Some(v) => v,
            None => fallback,
        },
    }
}

/// One cell of the job matrix.
pub open spec fn cell_spec(
    tl: u64,
    ml: u64,
    d: (DatasetView, AlignStats),
    c: CostModel,
    t: bool,
    a: Algorithm,
) -> (JobView, AlignStats) {
    (
        JobView { time_limit: tl, mem_limit: ml, dataset: d.0, costs: c, traceback: t, algo: a },
        d.1,
    )
}

/// The innermost axis: one job per algorithm.
pub open spec fn cells_for_algos(
    tl: u64,
    ml: u64,
    d: (DatasetView, AlignStats),
    c: CostModel,
    t: bool,
    algos: Seq<Algorithm>,
) -> Seq<(JobView, AlignStats)> {
    Seq::new(algos.len(), |l: int| cell_spec(tl, ml, d, c, t, algos[l]))
}

/// The traceback axis.
pub open spec fn cells_for_tracebacks(
    tl: u64,
    ml: u64,
    d: (DatasetView, AlignStats),
    c: CostModel,
    ts: Seq<bool>,
    algos: Seq<Algorithm>,
) -> Seq<(JobView, AlignStats)>
    decreases ts.len(),
{
    if ts.len() == 0 {
        Seq::empty()
    } else {
        cells_for_tracebacks(tl, ml, d, c, ts.drop_last(), algos) + cells_for_algos(
            tl,
            ml,
            d,
            c,
            ts.last(),
            algos,
        )
    }
}

/// The cost-model axis.
pub open spec fn cells_for_costs(
    tl: u64,
    ml: u64,
    d: (DatasetView, AlignStats),
    cs: Seq<CostModel>,
    ts: Seq<bool>,
    algos: Seq<Algorithm>,
) -> Seq<(JobView, AlignStats)>
    decreases cs.len(),
{
    if cs.len() == 0 {
        Seq::empty()
    } else {
        cells_for_costs(tl, ml, d, cs.drop_last(), ts, algos) + cells_for_tracebacks(
            tl,
            ml,
            d,
            cs.last(),
            ts,
            algos,
        )
    }
}

/// The dataset axis: the outermost.
pub open spec fn cells_for_datasets(
    tl: u64,
    ml: u64,
    ds: Seq<(DatasetView, AlignStats)>,
    cs: Seq<CostModel>,
    ts: Seq<bool>,
    algos: Seq<Algorithm>,
) -> Seq<(JobView, AlignStats)>
    decreases ds.len(),
{
    if ds.len() == 0 {
        Seq::empty()
    } else {
        cells_for_datasets(tl, ml, ds.drop_last(), cs, ts, algos) + cells_for_costs(
            tl,
            ml,
            ds.last(),
            cs,
            ts,
            algos,
        )
    }
}

/// The whole expansion: a pure function of the experiment and the
/// command-line limits.
pub open spec fn expand_spec(e: ExperimentView, cli_time: Option<u64>, cli_mem: Option<u64>) -> Seq<
    (JobView, AlignStats),
> {
    cells_for_datasets(
        resolve_limit_spec(cli_time, e.time_limit, DEFAULT_TIME_LIMIT_S),
        resolve_limit_spec(cli_mem, e.mem_limit, DEFAULT_MEM_LIMIT_BYTES),
        e.datasets,
        e.costs,
        e.traceback,
        e.algos,
    )
}

fn push_algos(
    tl: u64,
    ml: u64,
    d: &(Dataset, AlignStats),
    c: CostModel,
    t: bool,
    algos: &Vec<Algorithm>,
    out: &mut Vec<(Job, AlignStats)>,
)
    ensures
        batch_view(final(out)@) == batch_view(old(out)@) + cells_for_algos(
            tl,
            ml,
            (d.0@, d.1),
            c,
            t,
            algos@,
        ),
{
    let ghost orig = batch_view(out@);
    let ghost target = cells_for_algos(tl, ml, (d.0@, d.1), c, t, algos@);
    let mut l: usize = 0;
    while l < algos.len()
        invariant
            l <= algos.len(),
            target == cells_for_algos(tl, ml, (d.0@, d.1), c, t, algos@),
            batch_view(out@) == orig + target.subrange(0, l as int),
        decreases algos.len() - l,
    {
        let ghost prev = batch_view(out@);
        out.push(
            (
                Job {
                    time_limit: tl,
                    mem_limit: ml,
                    dataset: d.0.clone(),
                    costs: c,
                    traceback: t,
                    algo: algos[l],
                },
                d.1,
            ),
        );
        assert(batch_view(out@) =~= prev.push(target[l as int]));
        assert(batch_view(out@) =~= orig + target.subrange(0, l + 1 as int));
        l += 1;
    }
    assert(target.subrange(0, algos@.len() as int) =~= target);
}

fn push_tracebacks(
    tl: u64,
    ml: u64,
    d: &(Dataset, AlignStats),
    c: CostModel,
    ts: &Vec<bool>,
    algos: &Vec<Algorithm>,
    out: &mut Vec<(Job, AlignStats)>,
)
    ensures
        batch_view(final(out)@) == batch_view(old(out)@) + cells_for_tracebacks(
            tl,
            ml,
            (d.0@, d.1),
            c,
            ts@,
            algos@,
        ),
{
    let ghost orig = batch_view(out@);
    let mut k: usize = 0;
    while k < ts.len()
        invariant
            k <= ts.len(),
            batch_view(out@) == orig + cells_for_tracebacks(
                tl,
                ml,
                (d.0@, d.1),
                c,
                ts@.subrange(0, k as int),
                algos@,
            ),
        decreases ts.len() - k,
    {
        push_algos(tl, ml, d, c, ts[k], algos, out);
        proof {
            let sub = ts@.subrange(0, k + 1 as int);
            assert(sub.drop_last() =~= ts@.subrange(0, k as int));
            assert(sub.last() == ts@[k as int]);
        }
        k += 1;
    }
    assert(ts@.subrange(0, ts@.len() as int) =~= ts@);
}

fn push_costs(
    tl: u64,
    ml: u64,
    d: &(Dataset, AlignStats),
    cs: &Vec<CostModel>,
    ts: &Vec<bool>,
    algos: &Vec<Algorithm>,
    out: &mut Vec<(Job, AlignStats)>,
)
    ensures
        batch_view(final(out)@) == batch_view(old(out)@) + cells_for_costs(
            tl,
            ml,
            (d.0@, d.1),
            cs@,
            ts@,
            algos@,
        ),
{
    let ghost orig = batch_view(out@);
    let mut j: usize = 0;
    while j < cs.len()
        invariant
            j <= cs.len(),
            batch_view(out@) == orig + cells_for_costs(
                tl,
                ml,
                (d.0@, d.1),
                cs@.subrange(0, j as int),
                ts@,
                algos@,
            ),
        decreases cs.len() - j,
    {
        push_tracebacks(tl, ml, d, cs[j], ts, algos, out);
        proof {
            let sub = cs@.subrange(0, j + 1 as int);
            assert(sub.drop_last() =~= cs@.subrange(0, j as int));
            assert(sub.last() == cs@[j as int]);
        }
        j += 1;
    }
    assert(cs@.subrange(0, cs@.len() as int) =~= cs@);
}

/// Expand an experiment into its job batch. The batch is a pure function
/// of the experiment and the command-line limits; its order is the
/// experiment's own: datasets, then cost models, then traceback flags,
/// then algorithms.
pub fn expand(e: &Experiment, cli_time: Option<u64>, cli_mem: Option<u64>) -> (r: Vec<
    (Job, AlignStats),
>)
    ensures
        batch_view(r@) == expand_spec(e@, cli_time, cli_mem),
{
    let tl = resolve_limit(cli_time, e.time_limit, DEFAULT_TIME_LIMIT_S);
    let ml = resolve_limit(cli_mem, e.mem_limit, DEFAULT_MEM_LIMIT_BYTES);
    let mut out: Vec<(Job, AlignStats)> = Vec::new();
    assert(batch_view(out@) =~= Seq::<(JobView, AlignStats)>::empty());
    let mut i: usize = 0;
    while i < e.datasets.len()
        invariant
            i <= e.datasets.len(),
            tl == resolve_limit_spec(cli_time, e@.time_limit, DEFAULT_TIME_LIMIT_S),
            ml == resolve_limit_spec(cli_mem, e@.mem_limit, DEFAULT_MEM_LIMIT_BYTES),
            batch_view(out@) == cells_for_datasets(
                tl,
                ml,
                e@.datasets.subrange(0, i as int),
                e@.costs,
                e@.traceback,
                e@.algos,
            ),
        decreases e.datasets.len() - i,
    {
        push_costs(tl, ml, &e.datasets[i], &e.costs, &e.traceback, &e.algos, &mut out);
        proof {
            let sub = e@.datasets.subrange(0, i + 1 as int);
            assert(sub.drop_last() =~= e@.datasets.subrange(0, i as int));
            assert(sub.last() == e@.datasets[i as int]);
            assert(e@.datasets[i as int] == (e.datasets@[i as int].0@, e.datasets@[i as int].1));
        }
        i += 1;
    }
    assert(e@.datasets.subrange(0, e@.datasets.len() as int) =~= e@.datasets);
    out
}

/// Expansion determinism: the batch is pinned by the experiment and the
/// command-line limits, so two expansions of the same experiment agree,
/// including their order.
pub proof fn lemma_expansion_deterministic(
    e: ExperimentView,
    cli_time: Option<u64>,
    cli_mem: Option<u64>,
    r1: Seq<(JobView, AlignStats)>,
    r2: Seq<(JobView, AlignStats)>,
)
    requires
        r1 == expand_spec(e, cli_time, cli_mem),
        r2 == expand_spec(e, cli_time, cli_mem),
    ensures
        r1 == r2,
{
}

} // verus!
