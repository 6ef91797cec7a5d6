//! Transformations applied to a selected value before a criterion judges it.
use vstd::prelude::*;
use crate::pattern::{Pattern, regex_accepts, regex_matches};
use crate::text::{to_uppercase, trim_whitespace, uppercase, trim};
use crate::value::{SValue, SValueView};

verus! {

#[derive(Debug, Clone, Copy, PartialEq, Eq, Structural)]
pub enum Transformation {
    TrimLeftRight,
    ToUppercase,
    ExtractSingleNumber,
}

#[derive(Debug, Clone, Copy, PartialEq, Eq, Structural)]
pub enum TransformationError {
    /// output doesn't contain mandatory number
    DidntFindNumber,
    /// output contains multiple numbers, choice is ambiguous
    AmbiguousChoiceForNumber,
    /// the regular expression for numbers was rejected by the regex engine
    InvalidNumberPattern,
}

/// The regular expression that a number in a text matches: an optional sign, digits, and an
/// optional fraction.
pub open spec fn number_pattern() -> Seq<char> {
    seq!['[', '+', '-', ']', '?', '[', '0', '-', '9', ']', '+', '(', '[', '.', ']', '[', '0', '-', '9', ']', '+', ')', '?']
}

/// What `ExtractSingleNumber` gives for a text: the one number in it, or an error when
/// there is none or more than one.
pub open spec fn extract_single_number(text: Seq<char>) -> Result<Seq<char>, TransformationError> {
    if !regex_accepts(number_pattern()) {
        Err(TransformationError::InvalidNumberPattern)
    } else {
        let found = regex_matches(number_pattern(), text);
        if found.len() == 0 {
            Err(TransformationError::DidntFindNumber)
        } else if found.len() > 1 {
            Err(TransformationError::AmbiguousChoiceForNumber)
        } else {
            Ok(found[0])
        }
    }
}

impl Transformation {
    /// What the transformation gives for a value.
    pub open spec fn apply(self, value: SValueView) -> Result<SValueView, TransformationError> {
        match self {
            Transformation::ToUppercase => Ok(SValueView::Text(uppercase(value.spec_text()))),
            Transformation::TrimLeftRight => Ok(SValueView::Text(trim(value.spec_text()))),
            Transformation::ExtractSingleNumber => match value {
                SValueView::Bool(b) => Ok(SValueView::Int(if b { 1 } else { 0 })),
                SValueView::Text(t) => match extract_single_number(t) {
                    Ok(n) => Ok(SValueView::Text(n)),
                    Err(e) => Err(e),
                },
                _ => Ok(value),
            },
        }
    }

    /// Applies the transformation to `value`.
    pub fn transform(&self, value: SValue) -> (r: Result<SValue, TransformationError>)
        ensures
            match self.apply(value@) {
                Ok(v) => r matches Ok(w) && w@ == v,
                Err(e) => r == Err::<SValue, TransformationError>(e),
            },
    {
        match self {
            Transformation::ToUppercase => Ok(SValue::Text(to_uppercase(value.to_text().as_str()))),
            Transformation::TrimLeftRight => Ok(SValue::Text(trim_whitespace(value.to_text().as_str()))),
            Transformation::ExtractSingleNumber => match value {
                SValue::Int(i) => Ok(SValue::Int(i)),
                SValue::Float(f) => Ok(SValue::Float(f)),
                SValue::Bool(true) => Ok(SValue::Int(1)),
                SValue::Bool(false) => Ok(SValue::Int(0)),
                SValue::Text(text) => match extract_number(text.as_str()) {
                    Ok(n) => Ok(SValue::Text(n)),
                    Err(e) => Err(e),
                },
            },
        }
    }
}

/// The one number that `text` contains.
pub fn extract_number(text: &str) -> (r: Result<String, TransformationError>)
    ensures
        match extract_single_number(text@) {
            Ok(n) => r matches Ok(m) && m@ == n,
            Err(e) => r == Err::<String, TransformationError>(e),
        },
        r matches Ok(m) ==> crate::text::contains(text@, m@),
{
    let source = "[+-]?[0-9]+([.][0-9]+)?";
    proof {
        reveal_strlit("[+-]?[0-9]+([.][0-9]+)?");
        assert(source@ =~= number_pattern());
    }
    let pattern = match Pattern::compile(source) {
        Ok(p) => p,
        Err(_) => {
            return Err(TransformationError::InvalidNumberPattern);
        },
    };
    let mut found = pattern.find_all(text);
    proof {
        assert(found@.len() == regex_matches(number_pattern(), text@).len());
    }
    if found.len() == 0 {
        Err(TransformationError::DidntFindNumber)
    } else if found.len() > 1 {
        Err(TransformationError::AmbiguousChoiceForNumber)
    } else {
        let ghost first = found@[0]@;
        assert(first == regex_matches(number_pattern(), text@)[0]);
        Ok(found.swap_remove(0))
    }
}

} // verus!

verus! {

impl crate::render::DebugText for Transformation {
    open spec fn spec_debug(&self) -> Seq<char> {
        match self {
            Transformation::TrimLeftRight => "TrimLeftRight"@,
            Transformation::ToUppercase => "ToUppercase"@,
            Transformation::ExtractSingleNumber => "ExtractSingleNumber"@,
        }
    }

    fn debug_text(&self) -> (r: String) {
        match self {
            Transformation::TrimLeftRight => String::from_str("TrimLeftRight"),
            Transformation::ToUppercase => String::from_str("ToUppercase"),
            Transformation::ExtractSingleNumber => String::from_str("ExtractSingleNumber"),
        }
    }
}

impl crate::render::DebugText for TransformationError {
    open spec fn spec_debug(&self) -> Seq<char> {
        match self {
            TransformationError::DidntFindNumber => "DidntFindNumber"@,
            TransformationError::AmbiguousChoiceForNumber => "AmbiguousChoiceForNumber"@,
            TransformationError::InvalidNumberPattern => "InvalidNumberPattern"@,
        }
    }

    fn debug_text(&self) -> (r: String) {
        match self {
            TransformationError::DidntFindNumber => String::from_str("DidntFindNumber"),
            TransformationError::AmbiguousChoiceForNumber => String::from_str("AmbiguousChoiceForNumber"),
            TransformationError::InvalidNumberPattern => String::from_str("InvalidNumberPattern"),
        }
    }
}

impl TransformationError {
    /// The message that describes the error.
    pub open spec fn spec_message(&self) -> Seq<char> {
        match self {
            TransformationError::DidntFindNumber => "output doesn't contain mandatory number"@,
            TransformationError::AmbiguousChoiceForNumber => "output contains multiple numbers, choice is ambiguous"@,
            TransformationError::InvalidNumberPattern => "the pattern for numbers was rejected"@,
        }
    }

    /// The message that describes the error (what `to_string()` gives for it).
    pub fn message(&self) -> (r: String)
        ensures
            r@ == self.spec_message(),
    {
        match self {
            TransformationError::DidntFindNumber => String::from_str("output doesn't contain mandatory number"),
            TransformationError::AmbiguousChoiceForNumber => {
                String::from_str("output contains multiple numbers, choice is ambiguous")
            },
            TransformationError::InvalidNumberPattern => String::from_str("the pattern for numbers was rejected"),
        }
    }
}

} // verus!
