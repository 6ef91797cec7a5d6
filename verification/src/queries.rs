//! The floating-point comparisons that the checks of a test case may ask for on a program's output: the
//! caller decides them (with floating-point arithmetic) and hands them back in `ProgramOutput`.
use vstd::prelude::*;
use crate::case_check::TestCaseCheck;
use crate::conditions::{CompoundCheckCondition, Condition};
use crate::criterion::{Criterion, needs_float_verdict, number_view};
use crate::output::{same_number, same_tolerance};
use crate::single_condition::SingleCheckCondition;
use crate::value::{FloatNum, Number, NumberView, SValue, SValueView};

verus! {

/// A comparison of two numbers that needs floating-point arithmetic (a float takes part, or a
/// tolerance is given) and that a check may ask for.
pub struct FloatQuery {
    pub value: Number,
    pub other: Number,
    pub tolerance: Option<FloatNum>,
}

/// The number and tolerance of each number criterion in `c`, in order.
pub open spec fn condition_criteria(c: Condition<SingleCheckCondition>) -> Seq<(Number, Option<FloatNum>)>
    decreases c,
{
    match c {
        Condition::Single(s) => match s.criterion {
            Criterion::EqualNumbers { other, float_tolerance } => seq![(other, float_tolerance)],
            _ => Seq::empty(),
        },
        Condition::Compound(CompoundCheckCondition::All(v)) => conditions_criteria(v@),
        Condition::Compound(CompoundCheckCondition::Any(v)) => conditions_criteria(v@),
        Condition::Compound(CompoundCheckCondition::Not(b)) => condition_criteria(*b),
    }
}

/// The number criteria of the conditions `s`, in order.
pub open spec fn conditions_criteria(s: Seq<Condition<SingleCheckCondition>>) -> Seq<(Number, Option<FloatNum>)>
    decreases s,
{
    if s.len() == 0 {
        Seq::empty()
    } else {
        conditions_criteria(s.drop_last()) + condition_criteria(s.last())
    }
}

/// The number criteria of the checks, in order.
pub open spec fn checks_criteria(checks: Seq<TestCaseCheck>) -> Seq<(Number, Option<FloatNum>)>
    decreases checks.len(),
{
    if checks.len() == 0 {
        Seq::empty()
    } else {
        checks_criteria(checks.drop_last()) + condition_criteria(checks.last().condition)
    }
}

/// The numbers that a criterion may see for the printed value `v`: the value itself if it is a
/// number, and the 0 and 1 that `ExtractSingleNumber` makes of a boolean.
pub open spec fn is_candidate(v: SValueView, n: NumberView) -> bool {
    number_view(v) == Some(n) || n == NumberView::Int(0) || n == NumberView::Int(1)
}


/// `queries` holds a query about `n`, `other` and `tolerance`.
pub open spec fn asked(queries: Seq<FloatQuery>, n: NumberView, other: Number, tolerance: Option<FloatNum>) -> bool {
    exists|k: int|
        0 <= k < queries.len() && same_number(#[trigger] queries[k].value@, n) && same_number(queries[k].other@, other@)
            && same_tolerance(queries[k].tolerance, tolerance)
}

fn clone_tolerance(t: &Option<FloatNum>) -> (r: Option<FloatNum>)
    ensures
        r == *t,
{
    match t {
        Some(f) => Some(f.clone()),
        None => None,
    }
}

/// Appends the number criteria of `c` to `out`.
fn collect_criteria(c: &Condition<SingleCheckCondition>, out: &mut Vec<(Number, Option<FloatNum>)>)
    ensures
        final(out)@ == old(out)@ + condition_criteria(*c),
    decreases c,
{
    match c {
        Condition::Single(s) => match &s.criterion {
            Criterion::EqualNumbers { other, float_tolerance } => {
                out.push((other.clone(), clone_tolerance(float_tolerance)));
            },
            _ => {
                assert(old(out)@ + condition_criteria(*c) =~= old(out)@);
            },
        },
        Condition::Compound(CompoundCheckCondition::All(v)) => {
            collect_list_criteria(v, out);
        },
        Condition::Compound(CompoundCheckCondition::Any(v)) => {
            collect_list_criteria(v, out);
        },
        Condition::Compound(CompoundCheckCondition::Not(b)) => {
            collect_criteria(b, out);
        },
    }
}

/// Appends the number criteria of the conditions `v` to `out`.
fn collect_list_criteria(v: &Vec<Condition<SingleCheckCondition>>, out: &mut Vec<(Number, Option<FloatNum>)>)
    ensures
        final(out)@ == old(out)@ + conditions_criteria(v@),
    decreases v,
{
    let ghost start = out@;
    let mut i: usize = 0;
    assert(start + conditions_criteria(v@.take(0)) =~= start);
    while i < v.len()
        invariant
            i <= v@.len(),
            out@ == start + conditions_criteria(v@.take(i as int)),
        decreases v@.len() - i,
    {
        proof {
            assert(decreases_to!(v => v@[i as int]));
            assert(v@.take(i + 1).drop_last() =~= v@.take(i as int));
        }
        collect_criteria(&v[i], out);
        proof {
            assert(start + conditions_criteria(v@.take(i + 1)) =~= start + conditions_criteria(v@.take(i as int))
                + condition_criteria(v@[i as int]));
        }
        i += 1;
    }
    proof {
        assert(v@.take(v@.len() as int) =~= v@);
    }
}

/// The number criteria of the checks.
pub fn criteria_of(checks: &Vec<TestCaseCheck>) -> (r: Vec<(Number, Option<FloatNum>)>)
    ensures
        r@ == checks_criteria(checks@),
{
    let mut r: Vec<(Number, Option<FloatNum>)> = Vec::new();
    let mut i: usize = 0;
    while i < checks.len()
        invariant
            i <= checks@.len(),
            r@ == checks_criteria(checks@.take(i as int)),
        decreases checks@.len() - i,
    {
        proof {
            assert(checks@.take(i + 1).drop_last() =~= checks@.take(i as int));
        }
        collect_criteria(&checks[i].condition, &mut r);
        i += 1;
    }
    proof {
        assert(checks@.take(checks@.len() as int) =~= checks@);
    }
    r
}

/// The number that a printed value is, if it is one.
fn number_of(v: &SValue) -> (r: Option<Number>)
    ensures
        match r {
            Some(n) => number_view(v@) == Some(n@),
            None => number_view(v@) is None,
        },
{
    match v {
        SValue::Int(i) => Some(Number::Int(*i)),
        SValue::Float(f) => Some(Number::Float(f.clone())),
        _ => None,
    }
}

/// Every float comparison that a number criterion of `checks` may ask for on the printed `lines`.
pub fn float_queries(checks: &Vec<TestCaseCheck>, lines: &Vec<SValue>) -> (r: Vec<FloatQuery>)
    ensures
        forall|i: int, j: int, n: NumberView|
            0 <= i < lines@.len() && 0 <= j < checks_criteria(checks@).len()
                && #[trigger] is_candidate(lines@[i]@, n)
                && needs_float_verdict(n, (#[trigger] checks_criteria(checks@)[j]).0@, checks_criteria(checks@)[j].1)
                ==> asked(r@, n, checks_criteria(checks@)[j].0, checks_criteria(checks@)[j].1),
{
    let criteria = criteria_of(checks);
    let mut numbers: Vec<Number> = Vec::new();
    numbers.push(Number::Int(0));
    numbers.push(Number::Int(1));
    let mut i: usize = 0;
    while i < lines.len()
        invariant
            i <= lines@.len(),
            numbers@.len() >= 2,
            numbers@[0]@ == NumberView::Int(0),
            numbers@[1]@ == NumberView::Int(1),
            forall|k: int| 0 <= k < i && (#[trigger] number_view(lines@[k]@)) is Some
                ==> exists|m: int| 0 <= m < numbers@.len() && (#[trigger] numbers@[m])@ == number_view(lines@[k]@).unwrap(),
        decreases lines@.len() - i,
    {
        let ghost before = numbers@;
        match number_of(&lines[i]) {
            Some(n) => {
                numbers.push(n);
            },
            None => {},
        }
        proof {
            assert forall|k: int| 0 <= k < i + 1 && (#[trigger] number_view(lines@[k]@)) is Some
                implies exists|m: int| 0 <= m < numbers@.len() && (#[trigger] numbers@[m])@ == number_view(lines@[k]@).unwrap() by {
                if k < i {
                    let m = choose|m: int| 0 <= m < before.len() && (#[trigger] before[m])@ == number_view(lines@[k]@).unwrap();
                    assert(numbers@[m] == before[m]);
                } else {
                    assert(numbers@[numbers@.len() - 1]@ == number_view(lines@[k]@).unwrap());
                }
            }
        }
        i += 1;
    }
    let mut r: Vec<FloatQuery> = Vec::new();
    let mut a: usize = 0;
    while a < numbers.len()
        invariant
            a <= numbers@.len(),
            criteria@ == checks_criteria(checks@),
            forall|m: int, j: int|
                0 <= m < a && 0 <= j < criteria@.len() && needs_float_verdict((#[trigger] numbers@[m])@, (#[trigger] criteria@[j]).0@, criteria@[j].1)
                    ==> asked(r@, numbers@[m]@, criteria@[j].0, criteria@[j].1),
        decreases numbers@.len() - a,
    {
        let mut b: usize = 0;
        while b < criteria.len()
            invariant
                a < numbers@.len(),
                b <= criteria@.len(),
                criteria@ == checks_criteria(checks@),
                forall|m: int, j: int|
                    0 <= m < a && 0 <= j < criteria@.len() && needs_float_verdict((#[trigger] numbers@[m])@, (#[trigger] criteria@[j]).0@, criteria@[j].1)
                        ==> asked(r@, numbers@[m]@, criteria@[j].0, criteria@[j].1),
                forall|j: int|
                    0 <= j < b && needs_float_verdict(numbers@[a as int]@, (#[trigger] criteria@[j]).0@, criteria@[j].1)
                        ==> asked(r@, numbers@[a as int]@, criteria@[j].0, criteria@[j].1),
            decreases criteria@.len() - b,
        {
            let value = &numbers[a];
            let (other, tolerance) = &criteria[b];
            let floats = match (value, other, tolerance) {
                (Number::Int(_), Number::Int(_), None) => false,
                _ => true,
            };
            if floats {
                let ghost before = r@;
                r.push(FloatQuery { value: value.clone(), other: other.clone(), tolerance: clone_tolerance(tolerance) });
                proof {
                    let k = r@.len() - 1;
                    assert(same_number(r@[k].value@, numbers@[a as int]@));
                    assert forall|m: int, j: int|
                        0 <= m < a && 0 <= j < criteria@.len() && needs_float_verdict((#[trigger] numbers@[m])@, (#[trigger] criteria@[j]).0@, criteria@[j].1)
                            implies asked(r@, numbers@[m]@, criteria@[j].0, criteria@[j].1) by {
                        let k2 = choose|k2: int| 0 <= k2 < before.len() && same_number(#[trigger] before[k2].value@, numbers@[m]@)
                            && same_number(before[k2].other@, criteria@[j].0@) && same_tolerance(before[k2].tolerance, criteria@[j].1);
                        assert(r@[k2] == before[k2]);
                    }
                    assert forall|j: int|
                        0 <= j < b && needs_float_verdict(numbers@[a as int]@, (#[trigger] criteria@[j]).0@, criteria@[j].1)
                            implies asked(r@, numbers@[a as int]@, criteria@[j].0, criteria@[j].1) by {
                        let k2 = choose|k2: int| 0 <= k2 < before.len() && same_number(#[trigger] before[k2].value@, numbers@[a as int]@)
                            && same_number(before[k2].other@, criteria@[j].0@) && same_tolerance(before[k2].tolerance, criteria@[j].1);
                        assert(r@[k2] == before[k2]);
                    }
                }
            }
            b += 1;
        }
        a += 1;
    }
    proof {
        assert forall|i: int, j: int, n: NumberView|
            0 <= i < lines@.len() && 0 <= j < checks_criteria(checks@).len()
                && #[trigger] is_candidate(lines@[i]@, n)
                && needs_float_verdict(n, (#[trigger] checks_criteria(checks@)[j]).0@, checks_criteria(checks@)[j].1)
                implies asked(r@, n, checks_criteria(checks@)[j].0, checks_criteria(checks@)[j].1) by {
            if n == NumberView::Int(0) {
                assert(numbers@[0]@ == n);
            } else if n == NumberView::Int(1) {
                assert(numbers@[1]@ == n);
            } else {
                assert(number_view(lines@[i]@) == Some(n));
                let m = choose|m: int| 0 <= m < numbers@.len() && (#[trigger] numbers@[m])@ == n;
                assert(needs_float_verdict(numbers@[m]@, criteria@[j].0@, criteria@[j].1));
            }
        }
    }
    r
}

} // verus!
