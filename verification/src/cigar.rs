//! Alignment traces: edit operations and their run-length-encoded form.

use vstd::prelude::*;

verus! {

/// One edit operation of a pairwise alignment.
#[derive(Debug, Clone, Copy, PartialEq, Eq, Structural)]
pub enum CigarOp {
    Match,
    Sub,
    Ins,
    Del,
}

/// A run of equal operations.
#[derive(Debug, Clone, Copy, PartialEq, Eq, Structural)]
pub struct CigarElem {
    pub op: CigarOp,
    pub cnt: u32,
}

/// A run-length-encoded alignment trace.
#[derive(Debug, PartialEq)]
pub struct Cigar {
    pub ops: Vec<CigarElem>,
}

impl Clone for Cigar {
    fn clone(&self) -> (res: Self)
        ensures
            res@ == self@,
    {
        let mut ops: Vec<CigarElem> = Vec::new();
        let mut i: usize = 0;
        while i < self.ops.len()
            invariant
                i <= self.ops.len(),
                ops@ == self.ops@.subrange(0, i as int),
            decreases self.ops.len() - i,
        {
            ops.push(self.ops[i]);
            assert(ops@ =~= self.ops@.subrange(0, i + 1 as int));
            i += 1;
        }
        assert(ops@ =~= self.ops@);
        Cigar { ops }
    }
}

/// The operations an encoded trace stands for, in order.
pub open spec fn cigar_expand(elems: Seq<CigarElem>, ) -> Seq<CigarOp>
    decreases elems.len(),
{
    if elems.len() == 0 {
        Seq::empty()
    } else {
        cigar_expand(elems.drop_last()) + Seq::new(
            elems.last().cnt as nat,
            |k: int| elems.last().op,
        )
    }
}

/// A well-formed encoding: no empty runs, and adjacent runs hold different
/// operations.
pub open spec fn cigar_wf(elems: Seq<CigarElem>) -> bool {
    (forall|i: int| 0 <= i < elems.len() ==> (#[trigger] elems[i]).cnt > 0) && (forall|i: int|
        0 < i < elems.len() ==> (#[trigger] elems[i]).op != elems[i - 1].op)
}

impl View for Cigar {
    type V = Seq<CigarElem>;

    open spec fn view(&self) -> Seq<CigarElem> {
        self.ops@
    }
}

impl Cigar {
    /// Run-length-encode a sequence of operations. The encoding is
    /// well-formed and expands back to exactly the input.
    #[verifier::rlimit(50)]
    pub fn from_ops(ops: &Vec<CigarOp>) -> (r: Cigar)
        requires
            ops@.len() <= u32::MAX,
        ensures
            cigar_expand(r@) == ops@,
            cigar_wf(r@),
    {
        let mut elems: Vec<CigarElem> = Vec::new();
        let mut i: usize = 0;
        while i < ops.len()
            invariant
                i <= ops.len(),
                ops@.len() <= u32::MAX,
                cigar_expand(elems@) == ops@.subrange(0, i as int),
                cigar_wf(elems@),
                i > 0 && elems@.len() > 0 ==> elems@.last().op == ops@[i - 1],
                elems@.len() > 0 ==> i > 0,
                forall|k: int|
                    0 <= k < elems@.len() ==> (#[trigger] elems@[k]).cnt <= i,
            decreases ops.len() - i,
        {
            let op = ops[i];
            let ghost prev_elems = elems@;
            let extend = if elems.len() > 0 {
                let last_idx = elems.len() - 1;
                elems[last_idx].op == op
            } else {
                false
            };
            if extend {
                let last_idx = elems.len() - 1;
                let run = elems[last_idx];
                elems.set(last_idx, CigarElem { op: run.op, cnt: run.cnt + 1 });
                proof {
                    let new_elems = elems@;
                    assert(new_elems.drop_last() =~= prev_elems.drop_last());
                    assert(cigar_expand(new_elems) =~= cigar_expand(prev_elems.drop_last())
                        + Seq::new((run.cnt + 1) as nat, |k: int| run.op));
                    assert(Seq::new((run.cnt + 1) as nat, |k: int| run.op) =~= Seq::new(
                        run.cnt as nat,
                        |k: int| run.op,
                    ).push(op));
                    assert(cigar_expand(new_elems) =~= cigar_expand(prev_elems).push(op));
                    assert(cigar_expand(new_elems) =~= ops@.subrange(0, i + 1 as int));
                }
            } else {
                elems.push(CigarElem { op, cnt: 1 });
                proof {
                    let new_elems = elems@;
                    assert(new_elems.drop_last() =~= prev_elems);
                    assert(Seq::new(1nat, |k: int| op) =~= Seq::empty().push(op));
                    assert(cigar_expand(new_elems) =~= cigar_expand(prev_elems).push(op));
                    assert(cigar_expand(new_elems) =~= ops@.subrange(0, i + 1 as int));
                }
            }
            i += 1;
        }
        assert(ops@.subrange(0, ops@.len() as int) =~= ops@);
        Cigar { ops: elems }
    }
}

} // verus!
