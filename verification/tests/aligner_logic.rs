use pa_bench::aligners::{Edlib, ParasailStriped};
use pa_bench::cigar::{Cigar, CigarElem, CigarOp};
use pa_bench::types::CostModel;

#[test]
fn cigar_run_length_encoding() {
    let ops = vec![
        CigarOp::Match,
        CigarOp::Match,
        CigarOp::Sub,
        CigarOp::Sub,
        CigarOp::Sub,
        CigarOp::Ins,
    ];
    let cigar = Cigar::from_ops(&ops);
    assert_eq!(
        cigar.ops,
        vec![
            CigarElem { op: CigarOp::Match, cnt: 2 },
            CigarElem { op: CigarOp::Sub, cnt: 3 },
            CigarElem { op: CigarOp::Ins, cnt: 1 },
        ]
    );
    let empty = Cigar::from_ops(&vec![]);
    assert!(empty.ops.is_empty());
    let single = Cigar::from_ops(&vec![CigarOp::Del]);
    assert_eq!(single.ops, vec![CigarElem { op: CigarOp::Del, cnt: 1 }]);
}

#[test]
fn edlib_requires_unit_costs_and_keeps_the_trace_flag() {
    let e = Edlib::new(CostModel::unit(), true);
    assert!(e.trace);
    let e = Edlib::new(CostModel::unit(), false);
    assert!(!e.trace);
}

#[test]
fn edlib_interpretation_maps_operations() {
    let e = Edlib::new(CostModel::unit(), true);
    // edlib's operation bytes: match, delete, insert, substitute
    let raw = vec![0u8, 0, 1, 2, 3, 3];
    let (cost, cigar) = e.interpret(4, Some(&raw)).expect("all operations are known");
    assert_eq!(cost, 4);
    let cigar = cigar.expect("tracing returns an alignment");
    assert_eq!(
        cigar.ops,
        vec![
            CigarElem { op: CigarOp::Match, cnt: 2 },
            CigarElem { op: CigarOp::Del, cnt: 1 },
            CigarElem { op: CigarOp::Ins, cnt: 1 },
            CigarElem { op: CigarOp::Sub, cnt: 2 },
        ]
    );
}

#[test]
fn edlib_interpretation_without_alignment() {
    let e = Edlib::new(CostModel::unit(), false);
    let (cost, cigar) = e.interpret(7, None).expect("no alignment to check");
    assert_eq!(cost, 7);
    assert!(cigar.is_none());
}

#[test]
fn edlib_rejects_unknown_operations() {
    let e = Edlib::new(CostModel::unit(), true);
    let raw = vec![0u8, 7, 1];
    assert!(e.interpret(1, Some(&raw)).is_none());
}

#[test]
fn parasail_parameters_from_cost_model() {
    let cm = CostModel { match_cost: 0, sub_cost: 1, open_cost: 2, extend_cost: 3 };
    let p = ParasailStriped::new(cm, false);
    assert_eq!(p.matrix_match, 0);
    assert_eq!(p.matrix_mismatch, -1);
    // opening a gap costs the opening penalty plus one extension
    assert_eq!(p.gap_open, 5);
    assert_eq!(p.gap_extend, 3);
}

#[test]
fn parasail_scores_become_costs() {
    let p = ParasailStriped::new(CostModel::unit(), false);
    let (cost, cigar) = p.interpret(-42);
    assert_eq!(cost, 42);
    assert!(cigar.is_none());
    let (cost, _) = p.interpret(3);
    assert_eq!(cost, -3);
}
