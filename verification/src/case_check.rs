//! A check of one test case: a condition on the program output, with a severity and messages.
use vstd::prelude::*;
use crate::conditions::{Condition, ConditionError, error_explainable, fails_with, holds};
use crate::output::ProgramOutput;
use crate::parts::CheckResultMessages;
use crate::single_condition::SingleCaseCheckCondition;

verus! {

#[derive(Debug, Clone, Copy, PartialEq, Eq, Structural)]
pub enum CaseCheckSeverity {
    /// if this check fails, only an info is shown that a nice-to-have criteria is not fulfilled
    NiceToHave,
    /// if this check fails, a warning is produced
    Warning,
    /// if this check fails, an error is produced
    Error,
}

/// The outcome of a check on one program run.
pub struct CheckReport<'s> {
    pub severity: CaseCheckSeverity,
    pub failure: Option<ConditionError<'s, SingleCaseCheckCondition>>,
    pub message: Option<&'s CheckResultMessages>,
}

pub struct TestCaseCheck {
    pub severity: CaseCheckSeverity,
    pub on_success: Option<CheckResultMessages>,
    pub on_failure: Option<CheckResultMessages>,
    pub condition: Condition<SingleCaseCheckCondition>,
}

/// A reference to the message inside `m`, if there is one.
pub open spec fn message_ref<'a>(m: &'a Option<CheckResultMessages>, r: Option<&'a CheckResultMessages>) -> bool {
    match m {
        Some(x) => r matches Some(y) && *y == *x,
        None => r is None,
    }
}

/// A reference to the message inside `m`, if there is one.
pub(crate) fn message_of<'a>(m: &'a Option<CheckResultMessages>) -> (r: Option<&'a CheckResultMessages>)
    ensures
        message_ref(m, r),
{
    match m {
        Some(x) => Some(x),
        None => None,
    }
}

impl TestCaseCheck {
    /// Evaluates the check on the output of a program run.
    pub fn run_on<'a>(&'a self, output: &ProgramOutput) -> (r: CheckReport<'a>)
        ensures
            r.severity == self.severity,
            r.failure is None <==> holds(self.condition, output),
            r.failure matches Some(e) ==> fails_with(self.condition, output, e) && error_explainable(e),
            if holds(self.condition, output) {
                message_ref(&self.on_success, r.message)
            } else {
                message_ref(&self.on_failure, r.message)
            },
    {
        let result = self.condition.check(output);
        let message = if result.is_ok() {
            message_of(&self.on_success)
        } else {
            message_of(&self.on_failure)
        };
        let failure = match result {
            Ok(()) => None,
            Err(e) => Some(e),
        };
        CheckReport { severity: self.severity, failure, message }
    }

    pub fn new(severity: CaseCheckSeverity, condition: Condition<SingleCaseCheckCondition>) -> (r: Self)
        ensures
            r.severity == severity,
            r.on_success is None,
            r.on_failure is None,
            r.condition == condition,
    {
        TestCaseCheck { severity, on_success: None, on_failure: None, condition }
    }

    pub fn new_error(condition: Condition<SingleCaseCheckCondition>) -> (r: Self)
        ensures
            r == TestCaseCheck::new_spec(CaseCheckSeverity::Error, condition),
    {
        Self::new(CaseCheckSeverity::Error, condition)
    }

    pub fn new_warning(condition: Condition<SingleCaseCheckCondition>) -> (r: Self)
        ensures
            r == TestCaseCheck::new_spec(CaseCheckSeverity::Warning, condition),
    {
        Self::new(CaseCheckSeverity::Warning, condition)
    }

    pub fn new_nice_to_have(condition: Condition<SingleCaseCheckCondition>) -> (r: Self)
        ensures
            r == TestCaseCheck::new_spec(CaseCheckSeverity::NiceToHave, condition),
    {
        Self::new(CaseCheckSeverity::NiceToHave, condition)
    }

    /// A check with the given severity and condition and no messages.
    pub open spec fn new_spec(severity: CaseCheckSeverity, condition: Condition<SingleCaseCheckCondition>) -> Self {
        TestCaseCheck { severity, on_success: None, on_failure: None, condition }
    }

    pub fn severity(&self) -> (r: &CaseCheckSeverity)
        ensures
            *r == self.severity,
    {
        &self.severity
    }

    pub fn on_success(&self) -> (r: &Option<CheckResultMessages>)
        ensures
            *r == self.on_success,
    {
        &self.on_success
    }

    pub fn on_failure(&self) -> (r: &Option<CheckResultMessages>)
        ensures
            *r == self.on_failure,
    {
        &self.on_failure
    }

    pub fn condition(&self) -> (r: &Condition<SingleCaseCheckCondition>)
        ensures
            *r == self.condition,
    {
        &self.condition
    }

    pub fn with_severity(self, severity: CaseCheckSeverity) -> (r: Self)
        ensures
            r == (TestCaseCheck { severity, ..self }),
    {
        TestCaseCheck { severity, ..self }
    }

    pub fn set_severity(&mut self, severity: CaseCheckSeverity)
        ensures
            *final(self) == (TestCaseCheck { severity, ..*old(self) }),
    {
        self.severity = severity;
    }

    pub fn with_on_success(self, on_success: Option<CheckResultMessages>) -> (r: Self)
        ensures
            r == (TestCaseCheck { on_success, ..self }),
    {
        TestCaseCheck { on_success, ..self }
    }

    pub fn set_on_success(&mut self, on_success: Option<CheckResultMessages>)
        ensures
            *final(self) == (TestCaseCheck { on_success, ..*old(self) }),
    {
        self.on_success = on_success;
    }

    pub fn with_on_failure(self, on_failure: Option<CheckResultMessages>) -> (r: Self)
        ensures
            r == (TestCaseCheck { on_failure, ..self }),
    {
        TestCaseCheck { on_failure, ..self }
    }

    pub fn set_on_failure(&mut self, on_failure: Option<CheckResultMessages>)
        ensures
            *final(self) == (TestCaseCheck { on_failure, ..*old(self) }),
    {
        self.on_failure = on_failure;
    }

    pub fn with_condition(self, condition: Condition<SingleCaseCheckCondition>) -> (r: Self)
        ensures
            r == (TestCaseCheck { condition, ..self }),
    {
        TestCaseCheck { condition, ..self }
    }

    pub fn set_condition(&mut self, condition: Condition<SingleCaseCheckCondition>)
        ensures
            *final(self) == (TestCaseCheck { condition, ..*old(self) }),
    {
        self.condition = condition;
    }
}

impl<'a> CheckReport<'a> {
    pub fn success(&self) -> (r: bool)
        ensures
            r == (self.failure is None),
    {
        self.failure.is_none()
    }

    pub fn failure(&self) -> (r: Option<&ConditionError<'a, SingleCaseCheckCondition>>)
        ensures
            match self.failure {
                Some(e) => r matches Some(x) && *x == e,
                None => r is None,
            },
    {
        match &self.failure {
            Some(e) => Some(e),
            None => None,
        }
    }

    pub fn severity(&self) -> (r: &CaseCheckSeverity)
        ensures
            *r == self.severity,
    {
        &self.severity
    }

    pub fn message(&self) -> (r: Option<&'a CheckResultMessages>)
        ensures
            r == self.message,
    {
        self.message
    }
}

} // verus!
