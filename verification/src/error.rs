//! The errors of the library.
pub use crate::conditions::ConditionError;
pub use crate::criterion::CriterionError;
pub use crate::lints::LintConditionError;
pub use crate::single_condition::CheckConditionError;
pub use crate::specification::SpecError;
pub use crate::transformation::TransformationError;
