//! Building a single check: select, then transform any number of times, then one criterion.
use vstd::prelude::*;
use crate::case_check::{CaseCheckSeverity, TestCaseCheck};
use crate::conditions::Condition;
use crate::criterion::Criterion;
use crate::selector::Selector;
use crate::single_condition::{SingleCaseCheckCondition, SingleCheckCondition};
use crate::transformation::Transformation;
use crate::value::{FloatNum, Number};

verus! {

/// Constructs an atomic check condition.
///
/// The procedure is always: select, transform, criterion. A `Check` is created with
/// [`Check::new`] or one of the constructors for common selectors; afterwards any number of
/// transformations can be applied (even none); finally one criterion turns the `Check` into a
/// [`CheckConditionBuilder`], which can be made into a [`TestCaseCheck`].
pub struct Check {
    pub select: Selector,
    pub transformations: Vec<Transformation>,
}

/// A condition made of one check.
pub struct CheckConditionBuilder(pub Condition<SingleCaseCheckCondition>);

impl Check {
    /// `r` is the condition that selects like this check, applies its transformations and judges
    /// by a criterion `c` for which `criterion_ok(c)` holds.
    pub open spec fn single_with(self, r: Condition<SingleCaseCheckCondition>, criterion_ok: spec_fn(Criterion) -> bool) -> bool {
        &&& r matches Condition::Single(c)
        &&& c.select == self.select
        &&& c.transformations == self.transformations
        &&& criterion_ok(c.criterion)
    }

    pub fn new(select: Selector) -> (r: Self)
        ensures
            r.select == select,
            r.transformations@ == Seq::<Transformation>::empty(),
    {
        Check { select, transformations: Vec::new() }
    }

    /// Shortcut for [`Selector::LastLine`]
    pub fn last_line() -> (r: Self)
        ensures
            r.select == Selector::LastLine,
            r.transformations@ == Seq::<Transformation>::empty(),
    {
        Self::new(Selector::LastLine)
    }

    /// Shortcut for [`Selector::FirstLine`]
    pub fn first_line() -> (r: Self)
        ensures
            r.select == Selector::FirstLine,
            r.transformations@ == Seq::<Transformation>::empty(),
    {
        Self::new(Selector::FirstLine)
    }

    /// `n` begins with `0`, so `n = 1` is the second to last line
    pub fn nth_line_from_end(n: u16) -> (r: Self)
        ensures
            r.select == (Selector::NthLineFromEnd { n }),
            r.transformations@ == Seq::<Transformation>::empty(),
    {
        Self::new(Selector::NthLineFromEnd { n })
    }

    /// `n` begins with `0`, so `n = 1` is the second line
    pub fn nth_line_from_start(n: u16) -> (r: Self)
        ensures
            r.select == (Selector::NthLineFromStart { n }),
            r.transformations@ == Seq::<Transformation>::empty(),
    {
        Self::new(Selector::NthLineFromStart { n })
    }

    /// Appends the transformation `t`.
    pub fn transform(self, t: Transformation) -> (r: Self)
        ensures
            r.select == self.select,
            r.transformations@ == self.transformations@.push(t),
    {
        let mut s = self;
        s.transformations.push(t);
        s
    }

    /// Finishes the check with `criterion`.
    pub fn criterion(self, criterion: Criterion) -> (r: CheckConditionBuilder)
        ensures
            r.0 == Condition::Single(SingleCheckCondition {
                select: self.select,
                transformations: self.transformations,
                criterion,
            }),
    {
        CheckConditionBuilder(Condition::Single(SingleCheckCondition::new(self.select, self.transformations, criterion)))
    }

    /// Shortcut for [`Transformation::ToUppercase`]
    pub fn t_to_uppercase(self) -> (r: Self)
        ensures
            r.select == self.select,
            r.transformations@ == self.transformations@.push(Transformation::ToUppercase),
    {
        self.transform(Transformation::ToUppercase)
    }

    /// Shortcut for [`Transformation::TrimLeftRight`]
    pub fn t_trim_left_right(self) -> (r: Self)
        ensures
            r.select == self.select,
            r.transformations@ == self.transformations@.push(Transformation::TrimLeftRight),
    {
        self.transform(Transformation::TrimLeftRight)
    }

    /// Shortcut for [`Transformation::ExtractSingleNumber`]
    pub fn t_extract_single_number(self) -> (r: Self)
        ensures
            r.select == self.select,
            r.transformations@ == self.transformations@.push(Transformation::ExtractSingleNumber),
    {
        self.transform(Transformation::ExtractSingleNumber)
    }

    /// Shortcut for [`Criterion::EqualNumbers`] without a tolerance
    pub fn c_exactly_equal_numbers(self, number: Number) -> (r: CheckConditionBuilder)
        ensures
            r.0 == Condition::Single(SingleCheckCondition {
                select: self.select,
                transformations: self.transformations,
                criterion: Criterion::EqualNumbers { other: number, float_tolerance: None },
            }),
    {
        self.criterion(Criterion::EqualNumbers { other: number, float_tolerance: None })
    }

    /// Shortcut for [`Criterion::EqualNumbers`] with a tolerance
    pub fn c_tolerance_equal_numbers(self, number: Number, tolerance: FloatNum) -> (r: CheckConditionBuilder)
        ensures
            r.0 == Condition::Single(SingleCheckCondition {
                select: self.select,
                transformations: self.transformations,
                criterion: Criterion::EqualNumbers { other: number, float_tolerance: Some(tolerance) },
            }),
    {
        self.criterion(Criterion::EqualNumbers { other: number, float_tolerance: Some(tolerance) })
    }

    /// Shortcut for [`Criterion::OneOf`]
    pub fn c_one_of(self, options: Vec<&str>) -> (r: CheckConditionBuilder)
        ensures
            self.single_with(r.0, |c: Criterion| c matches Criterion::OneOf { options: o }
                && o@.map_values(|s: String| s@) == options@.map_values(|s: &str| s@)),
    {
        let mut owned: Vec<String> = Vec::new();
        let mut i: usize = 0;
        while i < options.len()
            invariant
                i <= options@.len(),
                owned@.map_values(|s: String| s@) == options@.take(i as int).map_values(|s: &str| s@),
            decreases options@.len() - i,
        {
            let ghost prev = owned@;
            owned.push(String::from_str(options[i]));
            proof {
                assert(owned@.map_values(|s: String| s@) =~= prev.map_values(|s: String| s@).push(options@[i as int]@));
                assert(options@.take(i + 1).map_values(|s: &str| s@) =~= options@.take(i as int).map_values(|s: &str| s@).push(options@[i as int]@));
            }
            i += 1;
        }
        proof {
            assert(options@.take(options@.len() as int) =~= options@);
        }
        self.criterion(Criterion::OneOf { options: owned })
    }

    /// Shortcut for [`Criterion::Contains`]
    pub fn c_contains(self, text: &str) -> (r: CheckConditionBuilder)
        ensures
            self.single_with(r.0, |c: Criterion| c matches Criterion::Contains { text: t } && t@ == text@),
    {
        self.criterion(Criterion::Contains { text: String::from_str(text) })
    }

    /// Shortcut for [`Criterion::ContainedIn`]
    pub fn c_is_contained_in(self, text: &str) -> (r: CheckConditionBuilder)
        ensures
            self.single_with(r.0, |c: Criterion| c matches Criterion::ContainedIn { text: t } && t@ == text@),
    {
        self.criterion(Criterion::ContainedIn { text: String::from_str(text) })
    }

    /// Shortcut for [`Criterion::EqualTexts`]
    pub fn c_equal_texts(self, text: &str) -> (r: CheckConditionBuilder)
        ensures
            self.single_with(r.0, |c: Criterion| c matches Criterion::EqualTexts { other: t } && t@ == text@),
    {
        self.criterion(Criterion::EqualTexts { other: String::from_str(text) })
    }
}

impl CheckConditionBuilder {
    pub fn with_severity(self, severity: CaseCheckSeverity) -> (r: TestCaseCheck)
        ensures
            r == TestCaseCheck::new_spec(severity, self.0),
    {
        TestCaseCheck::new(severity, self.0)
    }

    pub fn make_warning(self) -> (r: TestCaseCheck)
        ensures
            r == TestCaseCheck::new_spec(CaseCheckSeverity::Warning, self.0),
    {
        self.with_severity(CaseCheckSeverity::Warning)
    }

    pub fn make_error(self) -> (r: TestCaseCheck)
        ensures
            r == TestCaseCheck::new_spec(CaseCheckSeverity::Error, self.0),
    {
        self.with_severity(CaseCheckSeverity::Error)
    }
}

impl From<CheckConditionBuilder> for Condition<SingleCaseCheckCondition> {
    fn from(value: CheckConditionBuilder) -> (r: Self) {
        value.0
    }
}

impl vstd::std_specs::convert::FromSpecImpl<CheckConditionBuilder> for Condition<SingleCaseCheckCondition> {
    open spec fn obeys_from_spec() -> bool {
        true
    }

    open spec fn from_spec(v: CheckConditionBuilder) -> Self {
        v.0
    }
}

} // verus!
