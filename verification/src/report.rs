//! The reports of checks and lints.
pub use crate::case_check::CheckReport;
pub use crate::lints::LintReport;
