//! Core selection for pinning: the first available core is reserved for
//! the orchestrator itself, and each worker gets one of the following
//! cores.

use vstd::prelude::*;

verus! {

/// No core id occurs twice.
pub open spec fn distinct_spec(s: Seq<usize>) -> bool {
    forall|i: int, j: int| 0 <= i < j < s.len() ==> s[i] != s[j]
}

/// The smaller of two lengths.
pub open spec fn min_spec(a: int, b: int) -> int {
    if a <= b {
        a
    } else {
        b
    }
}

/// Split the OS's core list into the orchestrator's own core and the
/// worker cores: the first core is reserved for the orchestrator, and up
/// to `num_jobs` of the following cores are handed to workers, in order.
pub fn select_cores(core_ids: &Vec<usize>, num_jobs: usize) -> (r: (usize, Vec<usize>))
    requires
        core_ids@.len() >= 1,
    ensures
        r.0 == core_ids@[0],
        r.1@ == core_ids@.subrange(
            1,
            1 + min_spec(num_jobs as int, core_ids@.len() - 1),
        ),
{
    let orchestrator = core_ids[0];
    let mut workers: Vec<usize> = Vec::new();
    let mut i: usize = 1;
    while i < core_ids.len() && i <= num_jobs
        invariant
            1 <= i,
            i <= core_ids@.len(),
            i as int <= num_jobs + 1,
            workers@ == core_ids@.subrange(1, i as int),
        decreases core_ids.len() - i,
    {
        workers.push(core_ids[i]);
        assert(workers@ =~= core_ids@.subrange(1, i + 1 as int));
        i += 1;
    }
    assert(i as int == 1 + min_spec(num_jobs as int, core_ids@.len() - 1));
    (orchestrator, workers)
}

/// Pinning: with at least `k + 1` distinct cores available, the selection
/// hands exactly `k` distinct cores to workers, and the orchestrator's own
/// core is disjoint from all of them.
pub proof fn lemma_pinning(ids: Seq<usize>, k: int)
    requires
        distinct_spec(ids),
        0 <= k,
        k + 1 <= ids.len(),
    ensures
        ids.subrange(1, k + 1).len() == k,
        distinct_spec(ids.subrange(1, k + 1)),
        !ids.subrange(1, k + 1).contains(ids[0]),
{
    let w = ids.subrange(1, k + 1);
    assert forall|i: int, j: int| 0 <= i < j < w.len() implies w[i] != w[j] by {
        assert(w[i] == ids[i + 1] && w[j] == ids[j + 1]);
    }
    assert forall|i: int| 0 <= i < w.len() implies w[i] != ids[0] by {
        assert(w[i] == ids[i + 1]);
    }
    if w.contains(ids[0]) {
        let i = choose|i: int| 0 <= i < w.len() && w[i] == ids[0];
        assert(false);
    }
}

} // verus!
