//! Criteria that judge the selected and transformed value of a program's output.
use vstd::prelude::*;
use crate::output::{ProgramOutput, float_verdict};
use crate::render::{DebugText, list_text, push_list, quoted_texts, quoted_texts_of};
use crate::text::{contains, contains_text, debug_str, str_debug};
use crate::value::{FloatNum, Number, NumberView, SValue, SValueView, optional_float_debug, optional_float_text};

verus! {

pub enum Criterion {
    EqualTexts {
        /// the text to compare the transformed selection to
        other: String,
    },
    EqualNumbers {
        /// the number to compare the transformed selection to
        other: Number,
        /// if present, the delta within which two numbers still count as equal
        float_tolerance: Option<FloatNum>,
    },
    ContainedIn { text: String },
    Contains { text: String },
    OneOf { options: Vec<String> },
}

pub enum CriterionError<'s> {
    ExpectedNumberAsOutput,
    NotOneOfAllowedOptions(&'s Vec<String>),
    DoesntContainExpectedText(&'s str),
    IsNotContainedIn(&'s str),
    UnequalTexts(&'s str),
    NumbersNotEqual { other: Number, float_tolerance: Option<FloatNum> },
}

/// The number that a printed value is, if it is one: an integer or a float value. A text is
/// never taken for a number, whatever it holds; `ExtractSingleNumber` leaves the number it
/// finds in a text as text, so a criterion on numbers sees only values printed as numbers (or
/// the 0 and 1 made of a boolean).
pub open spec fn number_view(v: SValueView) -> Option<NumberView> {
    match v {
        SValueView::Int(i) => Some(NumberView::Int(i)),
        SValueView::Float(f) => Some(NumberView::Float(f)),
        _ => None,
    }
}

/// Whether the comparison of `value` with `other` needs floating-point arithmetic: it does
/// unless both are integers and no tolerance is given.
pub open spec fn needs_float_verdict(value: NumberView, other: NumberView, tolerance: Option<FloatNum>) -> bool {
    !(value is Int && other is Int && tolerance is None)
}

/// Whether a printed number equals `other`. Two integers without a tolerance are compared
/// exactly; a tolerance, where one is given, is the delta within which any two numbers still
/// count as equal. Every comparison that needs floating-point arithmetic goes by the verdict
/// in `table`.
pub open spec fn numbers_equal(
    value: NumberView,
    other: NumberView,
    tolerance: Option<FloatNum>,
    table: Seq<crate::output::FloatComparison>,
) -> bool {
    match (value, other, tolerance) {
        (NumberView::Int(a), NumberView::Int(b), None) => a == b,
        _ => float_verdict(table, value, other, tolerance),
    }
}

/// The texts of `options`.
pub open spec fn option_texts(options: Seq<String>) -> Seq<Seq<char>> {
    options.map_values(|s: String| s@)
}

/// An optional float with its content taken by view.
pub open spec fn optional_float_view(f: Option<FloatNum>) -> Option<crate::value::FloatNumView> {
    match f {
        Some(x) => Some(x@),
        None => None,
    }
}

impl Criterion {
    /// Whether the criterion accepts the value `v`, float comparisons going by `table`.
    pub open spec fn accepts(&self, v: SValueView, table: Seq<crate::output::FloatComparison>) -> bool {
        match self {
            Criterion::OneOf { options } => option_texts(options@).contains(v.spec_text()),
            Criterion::Contains { text } => contains(v.spec_text(), text@),
            Criterion::ContainedIn { text } => contains(text@, v.spec_text()),
            Criterion::EqualTexts { other } => v.spec_text() == other@,
            Criterion::EqualNumbers { other, float_tolerance } => match number_view(v) {
                Some(n) => numbers_equal(n, other@, *float_tolerance, table),
                None => false,
            },
        }
    }

    /// Whether `e` is the error with which the criterion rejects `v`.
    pub open spec fn rejects_with(&self, v: SValueView, e: CriterionError) -> bool {
        match self {
            Criterion::OneOf { options } => e matches CriterionError::NotOneOfAllowedOptions(o) && *o == *options,
            Criterion::Contains { text } => e matches CriterionError::DoesntContainExpectedText(t) && t@ == text@,
            Criterion::ContainedIn { text } => e matches CriterionError::IsNotContainedIn(t) && t@ == text@,
            Criterion::EqualTexts { other } => e matches CriterionError::UnequalTexts(t) && t@ == other@,
            Criterion::EqualNumbers { other, float_tolerance } => match number_view(v) {
                Some(_) => e matches CriterionError::NumbersNotEqual { other: o, float_tolerance: f }
                    && o == *other && f == *float_tolerance,
                None => e is ExpectedNumberAsOutput,
            },
        }
    }

    /// Judges the program value `value`; float comparisons go by those that `output` records.
    pub fn is_satisfied<'s>(&'s self, value: &SValue, output: &ProgramOutput) -> (r: Result<(), CriterionError<'s>>)
        ensures
            r is Ok <==> self.accepts(value@, output.float_comparisons@),
            r matches Err(e) ==> self.rejects_with(value@, e),
    {
        let stringified = value.to_text();
        match self {
            Criterion::OneOf { options } => {
                if contains_option(options, &stringified) {
                    Ok(())
                } else {
                    Err(CriterionError::NotOneOfAllowedOptions(options))
                }
            },
            Criterion::Contains { text } => {
                if contains_text(stringified.as_str(), text.as_str()) {
                    Ok(())
                } else {
                    Err(CriterionError::DoesntContainExpectedText(text.as_str()))
                }
            },
            Criterion::ContainedIn { text } => {
                if contains_text(text.as_str(), stringified.as_str()) {
                    Ok(())
                } else {
                    Err(CriterionError::IsNotContainedIn(text.as_str()))
                }
            },
            Criterion::EqualTexts { other } => {
                if stringified == *other {
                    Ok(())
                } else {
                    Err(CriterionError::UnequalTexts(other.as_str()))
                }
            },
            Criterion::EqualNumbers { other, float_tolerance } => {
                match equal_numbers(value, other, float_tolerance, output) {
                    Ok(true) => Ok(()),
                    Ok(false) => Err(CriterionError::NumbersNotEqual {
                        other: other.clone(),
                        float_tolerance: clone_tolerance(float_tolerance),
                    }),
                    Err(e) => Err(e),
                }
            },
        }
    }
}

/// Whether `text` is one of `options`.
fn contains_option(options: &Vec<String>, text: &String) -> (r: bool)
    ensures
        r == option_texts(options@).contains(text@),
{
    let mut i: usize = 0;
    while i < options.len()
        invariant
            i <= options@.len(),
            forall|j: int| 0 <= j < i ==> options@[j]@ != text@,
        decreases options@.len() - i,
    {
        if options[i] == *text {
            assert(option_texts(options@)[i as int] == text@);
            return true;
        }
        i += 1;
    }
    proof {
        if option_texts(options@).contains(text@) {
            let j = choose|j: int| 0 <= j < options@.len() && option_texts(options@)[j] == text@;
            assert(options@[j]@ == text@);
        }
    }
    false
}

/// A copy of an optional tolerance.
fn clone_tolerance(t: &Option<FloatNum>) -> (r: Option<FloatNum>)
    ensures
        r == *t,
{
    match t {
        Some(f) => Some(f.clone()),
        None => None,
    }
}

/// Whether a printed value equals the number `other`; an error when the value is no number.
pub fn equal_numbers<'a>(
    value: &SValue,
    other: &Number,
    float_tolerance: &Option<FloatNum>,
    output: &ProgramOutput,
) -> (r: Result<bool, CriterionError<'a>>)
    ensures
        match number_view(value@) {
            Some(n) => r == Ok::<bool, CriterionError<'a>>(
                numbers_equal(n, other@, *float_tolerance, output.float_comparisons@),
            ),
            None => r matches Err(CriterionError::ExpectedNumberAsOutput),
        },
{
    match value {
        SValue::Int(v) => match (other, float_tolerance) {
            (Number::Int(i), None) => Ok(*v == *i),
            _ => Ok(output.float_verdict_for(&Number::Int(*v), other, float_tolerance)),
        },
        SValue::Float(f) => {
            Ok(output.float_verdict_for(&Number::Float(f.clone()), other, float_tolerance))
        },
        _ => Err(CriterionError::ExpectedNumberAsOutput),
    }
}

impl<'s> CriterionError<'s> {
    /// The explanation of the error for the program value `v`.
    pub open spec fn explanation(&self, v: SValueView) -> Seq<char> {
        match self {
            CriterionError::ExpectedNumberAsOutput => v.shown() + " is not a number as required"@,
            CriterionError::NotOneOfAllowedOptions(options) =>
                "program output "@ + v.shown() + " should be one of the following: "@
                    + list_text(quoted_texts(options@)),
            CriterionError::DoesntContainExpectedText(t) =>
                "program output "@ + v.shown() + " should contain "@ + str_debug(t@),
            CriterionError::IsNotContainedIn(t) =>
                "program output "@ + v.shown() + " should be contained in "@ + str_debug(t@),
            CriterionError::UnequalTexts(t) =>
                "program output "@ + v.shown() + " is expected to be exactly equal to "@ + str_debug(t@),
            CriterionError::NumbersNotEqual { other, float_tolerance } => match float_tolerance {
                Some(tolerance) =>
                    "program output "@ + v.shown() + " should differ at most "@ + tolerance.display@
                        + " from number "@ + other@.shown(),
                None =>
                    "program output "@ + v.shown() + " should be exactly the same number as "@
                        + other@.shown(),
            },
        }
    }

    /// Explains why the program value `value` was rejected.
    pub fn explain(&self, value: &SValue) -> (r: String)
        ensures
            r@ == self.explanation(value@),
    {
        let shown = value.debug_text();
        match self {
            CriterionError::ExpectedNumberAsOutput => {
                let mut r = shown;
                r.append(" is not a number as required");
                r
            },
            CriterionError::NotOneOfAllowedOptions(options) => {
                let mut r = String::from_str("program output ");
                r.append(shown.as_str());
                r.append(" should be one of the following: ");
                let quoted = quoted_texts_of(options);
                push_list(&mut r, &quoted);
                r
            },
            CriterionError::DoesntContainExpectedText(t) => {
                let mut r = String::from_str("program output ");
                r.append(shown.as_str());
                r.append(" should contain ");
                r.append(debug_str(t).as_str());
                r
            },
            CriterionError::IsNotContainedIn(t) => {
                let mut r = String::from_str("program output ");
                r.append(shown.as_str());
                r.append(" should be contained in ");
                r.append(debug_str(t).as_str());
                r
            },
            CriterionError::UnequalTexts(t) => {
                let mut r = String::from_str("program output ");
                r.append(shown.as_str());
                r.append(" is expected to be exactly equal to ");
                r.append(debug_str(t).as_str());
                r
            },
            CriterionError::NumbersNotEqual { other, float_tolerance } => {
                let mut r = String::from_str("program output ");
                r.append(shown.as_str());
                match float_tolerance {
                    Some(tolerance) => {
                        r.append(" should differ at most ");
                        r.append(tolerance.display.as_str());
                        r.append(" from number ");
                    },
                    None => {
                        r.append(" should be exactly the same number as ");
                    },
                }
                r.append(other.debug_text().as_str());
                r
            },
        }
    }
}

impl DebugText for Criterion {
    open spec fn spec_debug(&self) -> Seq<char> {
        match self {
            Criterion::EqualTexts { other } => "EqualTexts { other: "@ + str_debug(other@) + " }"@,
            Criterion::EqualNumbers { other, float_tolerance } =>
                "EqualNumbers { other: "@ + other@.shown() + ", float_tolerance: "@
                    + optional_float_debug(optional_float_view(*float_tolerance)) + " }"@,
            Criterion::ContainedIn { text } => "ContainedIn { text: "@ + str_debug(text@) + " }"@,
            Criterion::Contains { text } => "Contains { text: "@ + str_debug(text@) + " }"@,
            Criterion::OneOf { options } => "OneOf { options: "@ + list_text(quoted_texts(options@)) + " }"@,
        }
    }

    fn debug_text(&self) -> (r: String) {
        match self {
            Criterion::EqualTexts { other } => {
                let mut r = String::from_str("EqualTexts { other: ");
                r.append(debug_str(other.as_str()).as_str());
                r.append(" }");
                r
            },
            Criterion::EqualNumbers { other, float_tolerance } => {
                let mut r = String::from_str("EqualNumbers { other: ");
                r.append(other.debug_text().as_str());
                r.append(", float_tolerance: ");
                r.append(optional_float_text(float_tolerance).as_str());
                r.append(" }");
                r
            },
            Criterion::ContainedIn { text } => {
                let mut r = String::from_str("ContainedIn { text: ");
                r.append(debug_str(text.as_str()).as_str());
                r.append(" }");
                r
            },
            Criterion::Contains { text } => {
                let mut r = String::from_str("Contains { text: ");
                r.append(debug_str(text.as_str()).as_str());
                r.append(" }");
                r
            },
            Criterion::OneOf { options } => {
                let mut r = String::from_str("OneOf { options: ");
                let quoted = quoted_texts_of(options);
                push_list(&mut r, &quoted);
                r.append(" }");
                r
            },
        }
    }
}

} // verus!
