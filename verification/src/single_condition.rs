//! A single check on a program's output: select a printed value, transform it, judge it.
use vstd::prelude::*;
use crate::conditions::{AnySingleCondition, ExplainableFailure};
use crate::criterion::{Criterion, CriterionError};
use crate::output::ProgramOutput;
use crate::render::{DebugText, debug_texts, debug_texts_of, list_text, push_list};
use crate::selector::Selector;
use crate::transformation::{Transformation, TransformationError};
use crate::value::{SValue, SValueView, digits, nat_text};

verus! {

/// Select a printed value, apply the transformations in order, judge the result by the criterion.
pub struct SingleCheckCondition {
    pub select: Selector,
    pub transformations: Vec<Transformation>,
    pub criterion: Criterion,
}

/// The name under which the condition is used inside `Condition`.
pub type SingleCaseCheckCondition = SingleCheckCondition;

/// A condition on the output of a test case: checks combined with `All`, `Any` and `Not`.
pub type TestCaseCheckCondition = crate::conditions::Condition<SingleCheckCondition>;

pub enum CheckConditionError<'s> {
    /// failure when selecting from the output
    SelectorHasNoTarget(&'s Selector),
    /// a transformation rejected its input
    Transformation {
        error: TransformationError,
        input: SValue,
        idx: usize,
        context: &'s SingleCheckCondition,
    },
    /// a criterion rejected the output
    Criterion {
        /// the cause the produced value is invalid
        criterion_err: CriterionError<'s>,
        /// collection of selector, transformations and applied criterion
        context: &'s SingleCheckCondition,
        /// the selected value after transformations that was seen by the criterion
        program_value: SValue,
    },
}

/// Applies the transformations `ts`, from position `i` on, to `v`: the final value, or the
/// error, the input and the position of the first transformation that fails.
pub open spec fn pipeline(
    ts: Seq<Transformation>,
    v: SValueView,
    i: int,
) -> Result<SValueView, (TransformationError, SValueView, int)>
    decreases ts.len() - i,
{
    if 0 <= i < ts.len() {
        match ts[i].apply(v) {
            Ok(w) => pipeline(ts, w, i + 1),
            Err(e) => Err((e, v, i)),
        }
    } else {
        Ok(v)
    }
}

impl SingleCheckCondition {
    pub fn new(select: Selector, transformations: Vec<Transformation>, criterion: Criterion) -> (r: Self)
        ensures
            r.select == select,
            r.transformations == transformations,
            r.criterion == criterion,
    {
        SingleCheckCondition { select, transformations, criterion }
    }

    pub fn select(&self) -> (r: &Selector)
        ensures
            *r == self.select,
    {
        &self.select
    }

    pub fn transformations(&self) -> (r: &Vec<Transformation>)
        ensures
            *r == self.transformations,
    {
        &self.transformations
    }

    pub fn criterion(&self) -> (r: &Criterion)
        ensures
            *r == self.criterion,
    {
        &self.criterion
    }

    /// Selects the value from `output`, applies the transformations in order and judges the
    /// result by the criterion; the first step that fails gives the error.
    pub fn is_satisfied<'s>(&'s self, input: &ProgramOutput) -> (r: Result<(), CheckConditionError<'s>>)
        ensures
            r is Ok <==> self.satisfied_by(input),
            r matches Err(e) ==> self.fails_with(input, e) && e.explainable(),
    {
        let idx = match self.select.position(input.lines.len()) {
            Some(i) => i,
            None => {
                return Err(CheckConditionError::SelectorHasNoTarget(&self.select));
            },
        };
        let ghost start = input.lines@[idx as int]@;
        assert(self.selected(input) == Some(start));
        let mut value = input.lines[idx].clone();
        let mut i: usize = 0;
        while i < self.transformations.len()
            invariant
                i <= self.transformations@.len(),
                self.selected(input) == Some(start),
                pipeline(self.transformations@, start, 0) == pipeline(self.transformations@, value@, i as int),
            decreases self.transformations@.len() - i,
        {
            let t = self.transformations[i];
            match t.transform(value.clone()) {
                Ok(w) => {
                    value = w;
                },
                Err(error) => {
                    return Err(CheckConditionError::Transformation { error, input: value, idx: i, context: self });
                },
            }
            i += 1;
        }
        match self.criterion.is_satisfied(&value, input) {
            Ok(()) => Ok(()),
            Err(criterion_err) => Err(CheckConditionError::Criterion { criterion_err, context: self, program_value: value }),
        }
    }

    /// The printed value that the selector picks from `output`.
    pub open spec fn selected(&self, output: &ProgramOutput) -> Option<SValueView> {
        match self.select.target(output.lines@.len() as int) {
            Some(i) => Some(output.lines@[i]@),
            None => None,
        }
    }
}

impl AnySingleCondition for SingleCheckCondition {
    type Error<'s> = CheckConditionError<'s>;

    type Input<'i> = &'i ProgramOutput;

    open spec fn satisfied_by(&self, input: &ProgramOutput) -> bool {
        match self.selected(input) {
            None => false,
            Some(v) => match pipeline(self.transformations@, v, 0) {
                Ok(w) => self.criterion.accepts(w, input.float_comparisons@),
                Err(_) => false,
            },
        }
    }

    open spec fn fails_with<'s>(&self, input: &ProgramOutput, e: CheckConditionError<'s>) -> bool where Self: 's {
        match self.selected(input) {
            None => e matches CheckConditionError::SelectorHasNoTarget(s) && *s == self.select,
            Some(v) => match pipeline(self.transformations@, v, 0) {
                Err((err, x, k)) => {
                    &&& e matches CheckConditionError::Transformation { error, input: y, idx, context }
                    &&& error == err
                    &&& y@ == x
                    &&& idx == k
                    &&& *context == *self
                },
                Ok(w) => {
                    &&& !self.criterion.accepts(w, input.float_comparisons@)
                    &&& e matches CheckConditionError::Criterion { criterion_err, context, program_value }
                    &&& program_value@ == w
                    &&& *context == *self
                    &&& self.criterion.rejects_with(w, criterion_err)
                },
            },
        }
    }

    fn check<'s>(&'s self, input: &ProgramOutput) -> (r: Result<(), CheckConditionError<'s>>) {
        self.is_satisfied(input)
    }
}

impl<'s> ExplainableFailure for CheckConditionError<'s> {
    open spec fn explainable(&self) -> bool {
        match self {
            CheckConditionError::Transformation { idx, context, .. } => *idx < context.transformations@.len(),
            _ => true,
        }
    }

    open spec fn explanation(&self) -> Seq<char> {
        match self {
            CheckConditionError::SelectorHasNoTarget(selector) =>
                "the program output didn't contain a target for the selector: "@ + selector.spec_debug(),
            CheckConditionError::Transformation { error, input, idx, context } =>
                "the transformation at index "@ + digits(*idx as nat) + " ("@
                    + context.transformations@[*idx as int].spec_debug() + ") failed on input "@ + input@.shown() + " with "@ + error.spec_debug(),
            CheckConditionError::Criterion { criterion_err, program_value, .. } =>
                criterion_err.explanation(program_value@),
        }
    }

    fn explain(&self) -> (r: String) {
        match self {
            CheckConditionError::SelectorHasNoTarget(selector) => {
                let mut r = String::from_str("the program output didn't contain a target for the selector: ");
                r.append(selector.debug_text().as_str());
                r
            },
            CheckConditionError::Transformation { error, input, idx, context } => {
                let mut r = String::from_str("the transformation at index ");
                r.append(nat_text(*idx as u64).as_str());
                r.append(" (");
                r.append(context.transformations[*idx].debug_text().as_str());
                r.append(") failed on input ");
                r.append(input.debug_text().as_str());
                r.append(" with ");
                r.append(error.debug_text().as_str());
                r
            },
            CheckConditionError::Criterion { criterion_err, program_value, .. } => {
                criterion_err.explain(program_value)
            },
        }
    }
}

impl DebugText for SingleCheckCondition {
    open spec fn spec_debug(&self) -> Seq<char> {
        "SingleCheckCondition { select: "@ + self.select.spec_debug() + ", transformations: "@
            + list_text(debug_texts(self.transformations@)) + ", criterion: "@
            + self.criterion.spec_debug() + " }"@
    }

    fn debug_text(&self) -> (r: String) {
        let mut r = String::from_str("SingleCheckCondition { select: ");
        r.append(self.select.debug_text().as_str());
        r.append(", transformations: ");
        let texts = debug_texts_of(&self.transformations);
        push_list(&mut r, &texts);
        r.append(", criterion: ");
        r.append(self.criterion.debug_text().as_str());
        r.append(" }");
        r
    }
}

} // verus!
