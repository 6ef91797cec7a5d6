//! What a program run left for the checks to judge: the values it printed, and the float
//! comparisons that the caller decided for them.
use vstd::prelude::*;
use crate::value::{FloatNum, Number, NumberView, SValue};

verus! {

/// The outcome of a comparison of two numbers that needs floating-point arithmetic (a float
/// takes part, or a tolerance is given). This library does no floating-point arithmetic: whoever
/// runs the program decides such comparisons and hands them in.
pub struct FloatComparison {
    /// the number the program printed
    pub value: Number,
    /// the number it is compared with
    pub other: Number,
    /// the tolerance of the comparison, if any
    pub tolerance: Option<FloatNum>,
    /// whether the two numbers count as equal
    pub equal: bool,
}

/// The values a program printed, in order, and the float comparisons decided for them.
pub struct ProgramOutput {
    pub lines: Vec<SValue>,
    pub float_comparisons: Vec<FloatComparison>,
}

/// `a` and `b` are the same number: equal integers, or floats with the same bit pattern.
pub open spec fn same_number(a: NumberView, b: NumberView) -> bool {
    match (a, b) {
        (NumberView::Int(x), NumberView::Int(y)) => x == y,
        (NumberView::Float(x), NumberView::Float(y)) => x.bits == y.bits,
        _ => false,
    }
}

/// `a` and `b` are the same optional tolerance.
pub open spec fn same_tolerance(a: Option<FloatNum>, b: Option<FloatNum>) -> bool {
    match (a, b) {
        (Some(x), Some(y)) => x.bits == y.bits,
        (None, None) => true,
        _ => false,
    }
}

/// The comparison `c` is about `value`, `other` and `tolerance`.
pub open spec fn compares(c: FloatComparison, value: NumberView, other: NumberView, tolerance: Option<FloatNum>) -> bool {
    same_number(c.value@, value) && same_number(c.other@, other) && same_tolerance(c.tolerance, tolerance)
}

/// The verdict of the first comparison in `table` about `value`, `other` and `tolerance`;
/// `false` where there is none.
pub open spec fn float_verdict(
    table: Seq<FloatComparison>,
    value: NumberView,
    other: NumberView,
    tolerance: Option<FloatNum>,
) -> bool
    decreases table.len(),
{
    if table.len() == 0 {
        false
    } else if compares(table[0], value, other, tolerance) {
        table[0].equal
    } else {
        float_verdict(table.drop_first(), value, other, tolerance)
    }
}

/// Whether `a` and `b` are the same number.
pub fn is_same_number(a: &Number, b: &Number) -> (r: bool)
    ensures
        r == same_number(a@, b@),
{
    match (a, b) {
        (Number::Int(x), Number::Int(y)) => *x == *y,
        (Number::Float(x), Number::Float(y)) => x.bits == y.bits,
        _ => false,
    }
}

/// Whether `a` and `b` are the same optional tolerance.
pub fn is_same_tolerance(a: &Option<FloatNum>, b: &Option<FloatNum>) -> (r: bool)
    ensures
        r == same_tolerance(*a, *b),
{
    match (a, b) {
        (Some(x), Some(y)) => x.bits == y.bits,
        (None, None) => true,
        _ => false,
    }
}

impl ProgramOutput {
    /// The verdict that the output records for comparing `value` with `other`.
    pub fn float_verdict_for(&self, value: &Number, other: &Number, tolerance: &Option<FloatNum>) -> (r: bool)
        ensures
            r == float_verdict(self.float_comparisons@, value@, other@, *tolerance),
    {
        let table = &self.float_comparisons;
        let mut i: usize = 0;
        proof {
            assert(table@.skip(0) =~= table@);
        }
        while i < table.len()
            invariant
                i <= table@.len(),
                table@ == self.float_comparisons@,
                float_verdict(table@, value@, other@, *tolerance)
                    == float_verdict(table@.skip(i as int), value@, other@, *tolerance),
            decreases table@.len() - i,
        {
            let c = &table[i];
            proof {
                assert(table@.skip(i as int)[0] == table@[i as int]);
                assert(table@.skip(i as int).drop_first() =~= table@.skip(i + 1));
            }
            if is_same_number(&c.value, value) && is_same_number(&c.other, other)
                && is_same_tolerance(&c.tolerance, tolerance) {
                assert(compares(table@.skip(i as int)[0], value@, other@, *tolerance));
                return c.equal;
            }
            i += 1;
        }
        false
    }
}

} // verus!
