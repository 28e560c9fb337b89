//! Results of executed jobs: resource accounting, runner measurements,
//! job outputs, the closed set of failure classes, and the persisted
//! result record.

use vstd::prelude::*;

use crate::types::{AlignStats, Job, JobView};

verus! {

/// OS-level resource usage of one finished child process. Times are in
/// microseconds; `maxrss` is in bytes.
#[derive(Debug, Clone, Copy, PartialEq, Eq, Structural)]
pub struct ResourceUsage {
    pub walltime_us: u64,
    pub usertime_us: u64,
    pub systemtime_us: u64,
    pub maxrss: u64,
}

impl ResourceUsage {
    pub fn zero() -> (r: ResourceUsage)
        ensures
            r.walltime_us == 0 && r.usertime_us == 0 && r.systemtime_us == 0 && r.maxrss == 0,
    {
        ResourceUsage { walltime_us: 0, usertime_us: 0, systemtime_us: 0, maxrss: 0 }
    }
}

/// Measurements that the runner itself reports and the orchestrator passes
/// through: start and end instants (seconds since the Unix epoch), the cpu
/// core at start and end, and the cpu frequency (kHz) at start and end.
#[derive(Debug, Clone, Copy, PartialEq)]
pub struct Measured {
    pub runtime_us: u64,
    pub memory: u64,
    pub time_start_s: i64,
    pub time_end_s: i64,
    pub cpu_start: Option<i32>,
    pub cpu_end: Option<i32>,
    pub cpu_freq_start_khz: Option<u64>,
    pub cpu_freq_end_khz: Option<u64>,
}

/// A ratio of two machine integers, used for the proportion of correct
/// costs; `num <= den` whenever the verifier produces it.
#[derive(Debug, Clone, Copy, PartialEq, Eq, Structural)]
pub struct Fraction {
    pub num: u64,
    pub den: u64,
}

/// The output of a successful alignment job.
#[derive(Debug, PartialEq)]
pub struct JobOutput {
    pub costs: Vec<i32>,
    pub exact_costs: Option<Vec<i32>>,
    pub is_exact: bool,
    pub p_correct: Option<Fraction>,
    pub measured: Measured,
}

pub ghost struct JobOutputView {
    pub costs: Seq<i32>,
    pub exact_costs: Option<Seq<i32>>,
    pub is_exact: bool,
    pub p_correct: Option<Fraction>,
    pub measured: Measured,
}

impl View for JobOutput {
    type V = JobOutputView;

    open spec fn view(&self) -> JobOutputView {
        JobOutputView {
            costs: self.costs@,
            exact_costs: match self.exact_costs {
                Some(c) => Some(c@),
                None => None,
            },
            is_exact: self.is_exact,
            p_correct: self.p_correct,
            measured: self.measured,
        }
    }
}

/// Why a job did not produce an output. The set is closed: every child
/// exit is mapped onto one of these.
#[derive(Debug, Clone, Copy, PartialEq, Eq, Structural)]
pub enum JobError {
    /// Synthesized by a worker: a smaller sibling job already failed.
    Skipped,
    /// The child was interrupted by the user (SIGINT).
    Interrupted,
    /// The child panicked (exit code 101).
    Panic,
    /// The kernel killed the child when its cpu time ran out (SIGKILL).
    Timeout,
    /// The child aborted because it could not allocate (SIGABRT).
    MemoryLimit,
    /// The algorithm/parameter combination is not supported (exit code 102).
    Unsupported,
    /// Killed by any other signal.
    Signal(i32),
    /// Exited with any other nonzero code.
    ExitCode(i32),
}

/// The persisted record of one job: the job itself, its dataset summary,
/// the observed resource usage, and its output or failure class.
#[derive(Debug, PartialEq)]
pub struct JobResult {
    pub job: Job,
    pub stats: AlignStats,
    pub resources: ResourceUsage,
    pub output: Result<JobOutput, JobError>,
}

pub ghost struct JobResultView {
    pub job: JobView,
    pub stats: AlignStats,
    pub resources: ResourceUsage,
    pub output: Result<JobOutputView, JobError>,
}

impl View for JobResult {
    type V = JobResultView;

    open spec fn view(&self) -> JobResultView {
        JobResultView {
            job: self.job@,
            stats: self.stats,
            resources: self.resources,
            output: match &self.output {
                Ok(o) => Ok(o@),
                Err(e) => Err(*e),
            },
        }
    }
}

impl JobResultView {
    /// Whether this record is a success whose costs are exact.
    pub open spec fn is_exact_success(self) -> bool {
        match self.output {
            Ok(o) => o.is_exact,
            Err(_) => false,
        }
    }
}

/// The view of a sequence of job results.
pub open spec fn results_view(s: Seq<JobResult>) -> Seq<JobResultView> {
    s.map_values(|r: JobResult| r@)
}

/// Copy a cost vector element by element.
pub fn clone_costs(v: &Vec<i32>) -> (r: Vec<i32>)
    ensures
        r@ == v@,
{
    let mut r: Vec<i32> = Vec::new();
    let mut i: usize = 0;
    while i < v.len()
        invariant
            i <= v.len(),
            r@ == v@.subrange(0, i as int),
        decreases v.len() - i,
    {
        r.push(v[i]);
        assert(r@ =~= v@.subrange(0, i + 1 as int));
        i += 1;
    }
    assert(r@ =~= v@);
    r
}

impl Clone for JobOutput {
    fn clone(&self) -> (res: Self)
        ensures
            res@ == self@,
    {
        JobOutput {
            costs: clone_costs(&self.costs),
            exact_costs: match &self.exact_costs {
                Some(c) => Some(clone_costs(c)),
                None => None,
            },
            is_exact: self.is_exact,
            p_correct: self.p_correct,
            measured: self.measured,
        }
    }
}

impl Clone for JobResult {
    fn clone(&self) -> (res: Self)
        ensures
            res@ == self@,
    {
        JobResult {
            job: self.job.clone(),
            stats: self.stats,
            resources: self.resources,
            output: match &self.output {
                Ok(o) => Ok(o.clone()),
                Err(e) => Err(*e),
            },
        }
    }
}

} // verus!
