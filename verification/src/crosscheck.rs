//! The cost verifier. Over a merged corpus it stable-sorts the exact
//! successes to the front, and checks every later success against the
//! first exact success on the same input: two exact algorithms must agree
//! exactly, and an approximate algorithm is annotated with the reference
//! costs and the fraction of positions it got right.

use vstd::prelude::*;

use crate::plan::lemma_filter_push;
use crate::results::{
    clone_costs, results_view, Fraction, JobOutput, JobOutputView, JobResult, JobResultView,
};
use crate::types::{lemma_same_input_equivalence, Job, JobView};

verus! {

/// The stable exact-first order: all exact successes, in their original
/// order, then everything else, in its original order.
pub open spec fn sort_spec(s: Seq<JobResultView>) -> Seq<JobResultView> {
    s.filter(|r: JobResultView| r.is_exact_success()) + s.filter(
        |r: JobResultView| !r.is_exact_success(),
    )
}

/// Whether a record can serve as the exact reference for a job: a
/// successful exact run on the same input.
pub open spec fn is_ref_for(c: JobResultView, job: JobView) -> bool {
    c.output is Ok && c.output->Ok_0.is_exact && c.job.same_input_spec(job)
}

/// The first index in `[from, until)` holding an exact reference for the
/// job, if any.
pub open spec fn find_ref(s: Seq<JobResultView>, job: JobView, from: int, until: int) -> Option<
    int,
>
    decreases until - from,
{
    if from >= until {
        None
    } else if is_ref_for(s[from], job) {
        Some(from)
    } else {
        find_ref(s, job, from + 1, until)
    }
}

/// How many positions of two cost vectors agree.
pub open spec fn count_matching(a: Seq<i32>, b: Seq<i32>) -> nat
    decreases a.len(),
{
    if a.len() == 0 {
        0
    } else {
        count_matching(a.drop_last(), b.drop_last()) + (if a.last() == b.last() {
            1nat
        } else {
            0nat
        })
    }
}

/// A record violates verification when it is a success with an exact
/// reference whose cost vector has a different length, or — for an exact
/// success — different contents.
pub open spec fn violation_at(s: Seq<JobResultView>, i: int) -> bool
    recommends
        0 <= i < s.len(),
{
    s[i].output is Ok && match find_ref(s, s[i].job, 0, i) {
        None => false,
        Some(m) => {
            let oc = s[i].output->Ok_0.costs;
            let rc = s[m].output->Ok_0.costs;
            oc.len() != rc.len() || (s[i].output->Ok_0.is_exact && oc != rc)
        },
    }
}

/// No record violates verification.
pub open spec fn all_consistent(s: Seq<JobResultView>) -> bool {
    forall|i: int| 0 <= i < s.len() ==> !violation_at(s, i)
}

/// What verification makes of the record at `i`: an approximate success
/// with an exact reference gains the reference costs and the fraction of
/// matching positions; everything else is left unchanged.
pub open spec fn processed_spec(s: Seq<JobResultView>, i: int) -> JobResultView
    recommends
        0 <= i < s.len(),
{
    if s[i].output is Ok && !s[i].output->Ok_0.is_exact {
        match find_ref(s, s[i].job, 0, i) {
            None => s[i],
            Some(m) => {
                let o = s[i].output->Ok_0;
                let rc = s[m].output->Ok_0.costs;
                JobResultView {
                    job: s[i].job,
                    stats: s[i].stats,
                    resources: s[i].resources,
                    output: Ok(
                        JobOutputView {
                            costs: o.costs,
                            exact_costs: Some(rc),
                            is_exact: o.is_exact,
                            p_correct: Some(
                                Fraction {
                                    num: count_matching(o.costs, rc) as u64,
                                    den: o.costs.len() as u64,
                                },
                            ),
                            measured: o.measured,
                        },
                    ),
                }
            },
        }
    } else {
        s[i]
    }
}

/// The verifier's fatal errors, each naming the offending record's job and
/// the reference job it was held against.
#[derive(Debug)]
pub enum VerifyError {
    /// The two runs returned cost vectors of different lengths.
    LengthMismatch { job: Job, reference: Job },
    /// Two exact runs on the same input disagree.
    CostMismatch { job: Job, reference: Job },
}

pub ghost enum VerifyErrorView {
    LengthMismatch { job: JobView, reference: JobView },
    CostMismatch { job: JobView, reference: JobView },
}

impl View for VerifyError {
    type V = VerifyErrorView;

    open spec fn view(&self) -> VerifyErrorView {
        match self {
            VerifyError::LengthMismatch { job, reference } => VerifyErrorView::LengthMismatch {
                job: job@,
                reference: reference@,
            },
            VerifyError::CostMismatch { job, reference } => VerifyErrorView::CostMismatch {
                job: job@,
                reference: reference@,
            },
        }
    }
}

/// The named pair at `(i, m)` is a record and its reference, and the named
/// violation holds between them.
pub open spec fn names_violation_at(
    s: Seq<JobResultView>,
    e: VerifyErrorView,
    i: int,
    m: int,
) -> bool {
    &&& 0 <= m < i < s.len()
    &&& find_ref(s, s[i].job, 0, i) == Some(m)
    &&& s[i].output is Ok
    &&& match e {
        VerifyErrorView::LengthMismatch { job, reference } => {
            &&& job == s[i].job
            &&& reference == s[m].job
            &&& s[i].output->Ok_0.costs.len() != s[m].output->Ok_0.costs.len()
        },
        VerifyErrorView::CostMismatch { job, reference } => {
            &&& job == s[i].job
            &&& reference == s[m].job
            &&& s[i].output->Ok_0.is_exact
            &&& s[i].output->Ok_0.costs.len() == s[m].output->Ok_0.costs.len()
            &&& s[i].output->Ok_0.costs != s[m].output->Ok_0.costs
        },
    }
}

/// The error names some record and its reference with a real violation.
pub open spec fn names_violation(s: Seq<JobResultView>, e: VerifyErrorView) -> bool {
    exists|i: int, m: int| #[trigger] names_violation_at(s, e, i, m)
}

proof fn lemma_count_matching_le(a: Seq<i32>, b: Seq<i32>)
    ensures
        count_matching(a, b) <= a.len(),
    decreases a.len(),
{
    if a.len() > 0 {
        lemma_count_matching_le(a.drop_last(), b.drop_last());
    }
}

/// The fraction of matching positions is between zero and one: the count
/// of agreeing positions never exceeds the vector's length.
pub proof fn lemma_p_correct_bounds(a: Seq<i32>, b: Seq<i32>)
    ensures
        0 <= count_matching(a, b) <= a.len(),
{
    lemma_count_matching_le(a, b);
}

proof fn lemma_find_ref_none_extend(s: Seq<JobResultView>, job: JobView, from: int, k: int)
    requires
        0 <= from <= k < s.len(),
        find_ref(s, job, from, k) == None::<int>,
        !is_ref_for(s[k], job),
    ensures
        find_ref(s, job, from, k + 1) == None::<int>,
    decreases k - from,
{
    if from < k {
        lemma_find_ref_none_extend(s, job, from + 1, k);
    } else {
        assert(find_ref(s, job, k + 1, k + 1) == None::<int>);
    }
}

proof fn lemma_find_ref_first(s: Seq<JobResultView>, job: JobView, from: int, k: int, until: int)
    requires
        0 <= from <= k < until,
        k < s.len(),
        find_ref(s, job, from, k) == None::<int>,
        is_ref_for(s[k], job),
    ensures
        find_ref(s, job, from, until) == Some(k),
    decreases k - from,
{
    if from < k {
        lemma_find_ref_first(s, job, from + 1, k, until);
    }
}

/// What the first-reference search guarantees: a found index is the least
/// reference index, and `None` means there is none.
pub proof fn lemma_find_ref_props(s: Seq<JobResultView>, job: JobView, from: int, until: int)
    requires
        0 <= from <= until <= s.len(),
    ensures
        match find_ref(s, job, from, until) {
            Some(m) => from <= m < until && is_ref_for(s[m], job) && forall|x: int|
                from <= x < m ==> !is_ref_for(#[trigger] s[x], job),
            None => forall|x: int| from <= x < until ==> !is_ref_for(#[trigger] s[x], job),
        },
    decreases until - from,
{
    if from < until && !is_ref_for(s[from], job) {
        lemma_find_ref_props(s, job, from + 1, until);
    }
}

/// Find the first exact reference for `job` among the records before
/// `upto`.
fn find_reference(results: &Vec<JobResult>, upto: usize, job: &Job) -> (r: Option<usize>)
    requires
        upto <= results@.len(),
    ensures
        match r {
            Some(m) => m < upto && find_ref(results_view(results@), job@, 0, upto as int) == Some(
                m as int,
            ),
            None => find_ref(results_view(results@), job@, 0, upto as int) == None::<int>,
        },
{
    let ghost sv = results_view(results@);
    let mut k: usize = 0;
    while k < upto
        invariant
            k <= upto <= results@.len(),
            sv == results_view(results@),
            find_ref(sv, job@, 0, k as int) == None::<int>,
        decreases upto - k,
    {
        let hit = match &results[k].output {
            Ok(o) => o.is_exact && results[k].job.same_input(job),
            Err(_) => false,
        };
        if hit {
            proof {
                assert(is_ref_for(sv[k as int], job@));
                lemma_find_ref_first(sv, job@, 0, k as int, upto as int);
            }
            return Some(k);
        }
        proof {
            assert(!is_ref_for(sv[k as int], job@));
            lemma_find_ref_none_extend(sv, job@, 0, k as int);
        }
        k += 1;
    }
    None
}

/// The reference's cost vector.
fn ref_costs(results: &Vec<JobResult>, m: usize) -> (r: &Vec<i32>)
    requires
        m < results@.len(),
        results_view(results@)[m as int].output is Ok,
    ensures
        r@ == results_view(results@)[m as int].output->Ok_0.costs,
{
    match &results[m].output {
        Ok(o) => &o.costs,
        Err(_) => vstd::pervasive::unreached(),
    }
}

fn costs_eq(a: &Vec<i32>, b: &Vec<i32>) -> (r: bool)
    ensures
        r == (a@ == b@),
{
    if a.len() != b.len() {
        return false;
    }
    let mut i: usize = 0;
    while i < a.len()
        invariant
            i <= a.len(),
            a@.len() == b@.len(),
            forall|k: int| 0 <= k < i ==> a@[k] == b@[k],
        decreases a.len() - i,
    {
        if a[i] != b[i] {
            return false;
        }
        i += 1;
    }
    assert(a@ =~= b@);
    true
}

fn count_matching_exec(a: &Vec<i32>, b: &Vec<i32>) -> (r: usize)
    requires
        a@.len() == b@.len(),
    ensures
        r == count_matching(a@, b@),
{
    let mut n: usize = 0;
    let mut i: usize = 0;
    while i < a.len()
        invariant
            i <= a.len(),
            a@.len() == b@.len(),
            n == count_matching(a@.subrange(0, i as int), b@.subrange(0, i as int)),
            n <= i,
        decreases a.len() - i,
    {
        proof {
            let ap = a@.subrange(0, i + 1 as int);
            let bp = b@.subrange(0, i + 1 as int);
            assert(ap.drop_last() =~= a@.subrange(0, i as int));
            assert(bp.drop_last() =~= b@.subrange(0, i as int));
        }
        if a[i] == b[i] {
            n += 1;
        }
        i += 1;
    }
    assert(a@.subrange(0, a@.len() as int) =~= a@);
    assert(b@.subrange(0, b@.len() as int) =~= b@);
    n
}

/// Stable-sort the corpus so that all exact successes come first, each
/// group keeping its original order.
fn sort_exact_first(results: &Vec<JobResult>) -> (r: Vec<JobResult>)
    ensures
        results_view(r@) == sort_spec(results_view(results@)),
{
    let ghost sv = results_view(results@);
    let ghost pe = |r: JobResultView| r.is_exact_success();
    let ghost pn = |r: JobResultView| !r.is_exact_success();
    let mut exacts: Vec<JobResult> = Vec::new();
    let mut others: Vec<JobResult> = Vec::new();
    let mut i: usize = 0;
    while i < results.len()
        invariant
            i <= results.len(),
            sv == results_view(results@),
            pe == (|r: JobResultView| r.is_exact_success()),
            pn == (|r: JobResultView| !r.is_exact_success()),
            results_view(exacts@) == sv.subrange(0, i as int).filter(pe),
            results_view(others@) == sv.subrange(0, i as int).filter(pn),
        decreases results.len() - i,
    {
        let is_exact = match &results[i].output {
            Ok(o) => o.is_exact,
            Err(_) => false,
        };
        proof {
            assert(sv.subrange(0, i + 1 as int) =~= sv.subrange(0, i as int).push(sv[i as int]));
            lemma_filter_push(sv.subrange(0, i as int), sv[i as int], pe);
            lemma_filter_push(sv.subrange(0, i as int), sv[i as int], pn);
        }
        if is_exact {
            let ghost prev = results_view(exacts@);
            exacts.push(results[i].clone());
            assert(results_view(exacts@) =~= prev.push(sv[i as int]));
        } else {
            let ghost prev = results_view(others@);
            others.push(results[i].clone());
            assert(results_view(others@) =~= prev.push(sv[i as int]));
        }
        i += 1;
    }
    assert(sv.subrange(0, sv.len() as int) =~= sv);
    let mut j: usize = 0;
    let ghost oth = results_view(others@);
    while j < others.len()
        invariant
            j <= others.len(),
            oth == results_view(others@),
            results_view(exacts@) == sv.filter(pe) + oth.subrange(0, j as int),
        decreases others.len() - j,
    {
        let ghost prev = results_view(exacts@);
        exacts.push(others[j].clone());
        assert(results_view(exacts@) =~= prev.push(oth[j as int]));
        assert(results_view(exacts@) =~= sv.filter(pe) + oth.subrange(0, j + 1 as int));
        j += 1;
    }
    assert(oth.subrange(0, oth.len() as int) =~= oth);
    assert(results_view(exacts@) =~= sort_spec(sv));
    exacts
}

/// Verifier correctness bounds: an approximate success with an exact
/// reference is annotated with the reference costs and with the fraction
/// of positions on which it agrees with them; the fraction's numerator
/// never exceeds its denominator, so it lies between zero and one.
pub proof fn lemma_verifier_correctness(s: Seq<JobResultView>, k: int)
    requires
        0 <= k < s.len(),
        s[k].output is Ok,
        !s[k].output->Ok_0.is_exact,
        find_ref(s, s[k].job, 0, k) is Some,
        s[k].output->Ok_0.costs.len() <= u64::MAX,
    ensures
        ({
            let m = find_ref(s, s[k].job, 0, k)->Some_0;
            let oc = s[k].output->Ok_0.costs;
            let rc = s[m].output->Ok_0.costs;
            let p = processed_spec(s, k);
            &&& p.output is Ok
            &&& p.output->Ok_0.exact_costs == Some(rc)
            &&& p.output->Ok_0.p_correct == Some(
                Fraction { num: count_matching(oc, rc) as u64, den: oc.len() as u64 },
            )
            &&& count_matching(oc, rc) <= oc.len()
        }),
{
    let m = find_ref(s, s[k].job, 0, k)->Some_0;
    lemma_count_matching_le(s[k].output->Ok_0.costs, s[m].output->Ok_0.costs);
}

proof fn lemma_verifier_equality_ordered(s: Seq<JobResultView>, j: int, i: int)
    requires
        all_consistent(s),
        0 <= j < i < s.len(),
        s[i].is_exact_success(),
        s[j].is_exact_success(),
        s[i].job.same_input_spec(s[j].job),
    ensures
        s[i].output->Ok_0.costs == s[j].output->Ok_0.costs,
{
    lemma_same_input_equivalence(s[i].job, s[j].job, s[j].job);
    assert(is_ref_for(s[j], s[i].job));
    lemma_find_ref_props(s, s[i].job, 0, i);
    match find_ref(s, s[i].job, 0, i) {
        None => {
            assert(!is_ref_for(s[j], s[i].job));
        },
        Some(m) => {
            assert(!violation_at(s, i));
            assert(s[i].output->Ok_0.costs == s[m].output->Ok_0.costs);
            if m == j {
            } else {
                // the least reference lies before `j`; it is a reference for
                // `s[j]` too, and the least such, so consistency at `j`
                // carries the costs across
                assert(m < j) by {
                    if j < m {
                        assert(!is_ref_for(s[j], s[i].job));
                    }
                }
                assert(s[m].job.same_input_spec(s[j].job)) by {
                    lemma_same_input_equivalence(s[m].job, s[i].job, s[j].job);
                }
                assert(is_ref_for(s[m], s[j].job));
                lemma_find_ref_props(s, s[j].job, 0, j);
                match find_ref(s, s[j].job, 0, j) {
                    None => {
                        assert(!is_ref_for(s[m], s[j].job));
                    },
                    Some(m2) => {
                        assert(!violation_at(s, j));
                        assert(s[j].output->Ok_0.costs == s[m2].output->Ok_0.costs);
                        assert(m == m2) by {
                            if m < m2 {
                                assert(!is_ref_for(s[m], s[j].job));
                            }
                            if m2 < m {
                                assert(is_ref_for(s[m2], s[i].job)) by {
                                    lemma_same_input_equivalence(
                                        s[m2].job,
                                        s[j].job,
                                        s[i].job,
                                    );
                                    lemma_same_input_equivalence(
                                        s[j].job,
                                        s[i].job,
                                        s[i].job,
                                    );
                                }
                            }
                        }
                    },
                }
            }
        },
    }
}

/// Verifier equality: in a corpus that passed verification, any two exact
/// successes on the same input carry equal cost vectors.
pub proof fn lemma_verifier_equality(s: Seq<JobResultView>, i: int, j: int)
    requires
        all_consistent(s),
        0 <= i < s.len(),
        0 <= j < s.len(),
        s[i].is_exact_success(),
        s[j].is_exact_success(),
        s[i].job.same_input_spec(s[j].job),
    ensures
        s[i].output->Ok_0.costs == s[j].output->Ok_0.costs,
{
    if i == j {
    } else if j < i {
        lemma_verifier_equality_ordered(s, j, i);
    } else {
        lemma_same_input_equivalence(s[i].job, s[j].job, s[j].job);
        lemma_verifier_equality_ordered(s, i, j);
    }
}

/// Verify costs over a merged corpus. Exact successes are moved (stably)
/// to the front; then every success is held against the first exact
/// success on the same input. Two exact runs must agree; an approximate
/// run gains the reference costs and the fraction of positions it got
/// right. The result is the annotated corpus, or a hard error naming the
/// two disagreeing jobs.
pub fn verify_costs(results: &Vec<JobResult>) -> (r: Result<Vec<JobResult>, VerifyError>)
    ensures
        (r is Ok) == all_consistent(sort_spec(results_view(results@))),
        r is Ok ==> {
            let sv = sort_spec(results_view(results@));
            let out = results_view(r->Ok_0@);
            out.len() == sv.len() && forall|k: int|
                0 <= k < sv.len() ==> out[k] == processed_spec(sv, k)
        },
        r is Err ==> names_violation(sort_spec(results_view(results@)), r->Err_0@),
{
    let sorted = sort_exact_first(results);
    let ghost sv = results_view(sorted@);
    let mut out: Vec<JobResult> = Vec::new();
    let mut i: usize = 0;
    while i < sorted.len()
        invariant
            i <= sorted.len(),
            sv == results_view(sorted@),
            sv == sort_spec(results_view(results@)),
            results_view(out@).len() == i,
            forall|k: int| 0 <= k < i ==> results_view(out@)[k] == processed_spec(sv, k),
            forall|k: int| 0 <= k < i ==> !violation_at(sv, k),
        decreases sorted.len() - i,
    {
        let ghost prev = results_view(out@);
        let cur = sorted[i].clone();
        let JobResult { job: cjob, stats: cstats, resources: cres, output: coutput } = cur;
        match coutput {
            Err(e) => {
                out.push(JobResult { job: cjob, stats: cstats, resources: cres, output: Err(e) });
                assert(!violation_at(sv, i as int));
                assert(results_view(out@) =~= prev.push(processed_spec(sv, i as int)));
            },
            Ok(o) => {
                let found = find_reference(&sorted, i, &cjob);
                match found {
                    None => {
                        out.push(
                            JobResult { job: cjob, stats: cstats, resources: cres, output: Ok(o) },
                        );
                        assert(!violation_at(sv, i as int));
                        assert(results_view(out@) =~= prev.push(processed_spec(sv, i as int)));
                    },
                    Some(m) => {
                        proof {
                            lemma_find_ref_props(sv, sv[i as int].job, 0, i as int);
                            assert(is_ref_for(sv[m as int], sv[i as int].job));
                        }
                        let rc = ref_costs(&sorted, m);
                        if o.costs.len() != rc.len() {
                            let e = VerifyError::LengthMismatch {
                                job: cjob,
                                reference: sorted[m].job.clone(),
                            };
                            proof {
                                assert(violation_at(sv, i as int));
                                assert(names_violation_at(sv, e@, i as int, m as int));
                                assert(!all_consistent(sv));
                            }
                            return Err(e);
                        } else if o.is_exact {
                            if !costs_eq(&o.costs, rc) {
                                let e = VerifyError::CostMismatch {
                                    job: cjob,
                                    reference: sorted[m].job.clone(),
                                };
                                proof {
                                    assert(violation_at(sv, i as int));
                                    assert(names_violation_at(sv, e@, i as int, m as int));
                                    assert(!all_consistent(sv));
                                }
                                return Err(e);
                            }
                            out.push(
                                JobResult {
                                    job: cjob,
                                    stats: cstats,
                                    resources: cres,
                                    output: Ok(o),
                                },
                            );
                            assert(!violation_at(sv, i as int));
                            assert(results_view(out@) =~= prev.push(processed_spec(sv, i as int)));
                        } else {
                            let num = count_matching_exec(&o.costs, rc);
                            proof {
                                lemma_count_matching_le(o.costs@, rc@);
                            }
                            let den = o.costs.len();
                            let annotated = JobOutput {
                                costs: o.costs,
                                exact_costs: Some(clone_costs(rc)),
                                is_exact: o.is_exact,
                                p_correct: Some(Fraction { num: num as u64, den: den as u64 }),
                                measured: o.measured,
                            };
                            let record = JobResult {
                                job: cjob,
                                stats: cstats,
                                resources: cres,
                                output: Ok(annotated),
                            };
                            assert(record@ == processed_spec(sv, i as int));
                            out.push(record);
                            assert(!violation_at(sv, i as int));
                            assert(results_view(out@) =~= prev.push(processed_spec(sv, i as int)));
                        }
                    },
                }
            },
        }
        i += 1;
    }
    Ok(out)
}

} // verus!
