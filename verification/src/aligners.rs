//! The aligner wrappers' logic: how the edlib and parasail libraries are
//! configured from a cost model, and how their raw answers are turned into
//! costs and traces. The libraries themselves are linked by the runner
//! binary; this crate holds the decisions around their calls.

use vstd::prelude::*;

use crate::cigar::{cigar_expand, cigar_wf, Cigar, CigarOp};
use crate::types::CostModel;

verus! {

/// The edlib aligner: edit distance under the unit cost model, with an
/// optional alignment trace.
#[derive(Debug, Clone, Copy, PartialEq, Eq, Structural)]
pub struct Edlib {
    pub trace: bool,
}

/// The meaning of one operation byte in an edlib alignment.
pub open spec fn edlib_op_spec(b: u8) -> CigarOp
    recommends
        b <= 3,
{
    if b == 0 {
        CigarOp::Match
    } else if b == 1 {
        CigarOp::Del
    } else if b == 2 {
        CigarOp::Ins
    } else {
        CigarOp::Sub
    }
}

impl Edlib {
    /// Configure edlib. It supports only the unit cost model; the trace
    /// flag selects the path task.
    pub fn new(cm: CostModel, trace: bool) -> (r: Edlib)
        requires
            cm.is_unit_spec(),
        ensures
            r.trace == trace,
    {
        Edlib { trace }
    }

    /// Turn edlib's raw answer — the distance and, when tracing, the
    /// alignment's operation bytes — into a cost and a trace. Returns
    /// nothing when some operation byte is not one edlib defines.
    pub fn interpret(&self, distance: i32, alignment: Option<&Vec<u8>>) -> (r: Option<
        (i32, Option<Cigar>),
    >)
        requires
            match alignment {
                Some(a) => a@.len() <= u32::MAX,
                None => true,
            },
        ensures
            alignment is None ==> r == Some((distance, None::<Cigar>)),
            alignment is Some ==> ((r is Some) == (forall|k: int|
                0 <= k < alignment->0@.len() ==> #[trigger] alignment->0@[k] <= 3)),
            alignment is Some && r is Some ==> {
                &&& r->Some_0.0 == distance
                &&& r->Some_0.1 is Some
                &&& cigar_expand(r->Some_0.1->Some_0@) == alignment->0@.map_values(
                    |b: u8| edlib_op_spec(b),
                )
                &&& cigar_wf(r->Some_0.1->Some_0@)
            },
    {
        match alignment {
            None => Some((distance, None)),
            Some(a) => {
                let ghost target = a@.map_values(|b: u8| edlib_op_spec(b));
                let mut ops: Vec<CigarOp> = Vec::new();
                let mut i: usize = 0;
                while i < a.len()
                    invariant
                        i <= a.len(),
                        alignment == Some(a),
                        a@.len() <= u32::MAX,
                        target == a@.map_values(|b: u8| edlib_op_spec(b)),
                        ops@ == target.subrange(0, i as int),
                        forall|k: int| 0 <= k < i ==> #[trigger] a@[k] <= 3,
                    decreases a.len() - i,
                {
                    let b = a[i];
                    let op = if b == 0 {
                        CigarOp::Match
                    } else if b == 1 {
                        CigarOp::Del
                    } else if b == 2 {
                        CigarOp::Ins
                    } else if b == 3 {
                        CigarOp::Sub
                    } else {
                        assert(alignment == Some(a));
                        assert(!(forall|k: int|
                            0 <= k < alignment->0@.len() ==> #[trigger] alignment->0@[k] <= 3)) by {
                            assert(alignment->0@[i as int] > 3);
                        }
                        return None;
                    };
                    ops.push(op);
                    assert(ops@ =~= target.subrange(0, i + 1 as int));
                    i += 1;
                }
                assert(target.subrange(0, a@.len() as int) =~= target);
                Some((distance, Some(Cigar::from_ops(&ops))))
            },
        }
    }
}

/// The striped parasail aligner: global alignment scores over a match /
/// mismatch matrix and affine gaps. It reports scores, not costs, and
/// supports no trace.
#[derive(Debug, Clone, Copy, PartialEq, Eq, Structural)]
pub struct ParasailStriped {
    pub matrix_match: i32,
    pub matrix_mismatch: i32,
    pub gap_open: i32,
    pub gap_extend: i32,
}

impl ParasailStriped {
    /// Configure parasail from a cost model: the substitution matrix
    /// scores a match with the match cost and a mismatch with the negated
    /// substitution cost, and opening a gap costs the opening plus one
    /// extension. Parasail supports no traceback.
    pub fn new(cm: CostModel, trace: bool) -> (r: ParasailStriped)
        requires
            !trace,
            cm.sub_cost > i32::MIN,
            i32::MIN <= cm.open_cost + cm.extend_cost <= i32::MAX,
        ensures
            r.matrix_match == cm.match_cost,
            r.matrix_mismatch == -cm.sub_cost,
            r.gap_open == cm.open_cost + cm.extend_cost,
            r.gap_extend == cm.extend_cost,
    {
        ParasailStriped {
            matrix_match: cm.match_cost,
            matrix_mismatch: -cm.sub_cost,
            gap_open: cm.open_cost + cm.extend_cost,
            gap_extend: cm.extend_cost,
        }
    }

    /// Parasail maximizes a score where the orchestrator accounts costs:
    /// the cost of an alignment is the negated score, and there is never a
    /// trace.
    pub fn interpret(&self, score: i32) -> (r: (i32, Option<Cigar>))
        requires
            score > i32::MIN,
        ensures
            r.0 == -score,
            r.1 is None,
    {
        (-score, None)
    }
}

} // verus!
