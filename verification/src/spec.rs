//! The parts a test specification is written with.
pub use crate::builder::{Check, CheckConditionBuilder};
pub use crate::case_check::{CaseCheckSeverity, TestCaseCheck};
pub use crate::conditions::{AnySingleCondition, CompoundCheckCondition, Condition};
pub use crate::criterion::Criterion;
pub use crate::lints::{BlockKind, Lint, LintCondition, LintSeverity};
pub use crate::selector::Selector;
pub use crate::single_condition::{SingleCaseCheckCondition, SingleCheckCondition, TestCaseCheckCondition};
pub use crate::specification::{StaticTestCategory, TestCase, TestCategory, TestSpecification};
pub use crate::transformation::Transformation;
