//! Test specifications for programs: checks on what a program prints when it runs with given
//! inputs, and lints on the blocks it is made of.
//!
//! A check selects one printed value, transforms it any number of times and judges the result
//! by a criterion; checks and lints combine with `All`, `Any` and `Not`.

pub mod builder;
pub mod case_check;
pub mod conditions;
pub mod criterion;
pub mod error;
pub mod laws;
pub mod lints;
pub mod output;
pub mod parts;
pub mod pattern;
pub mod queries;
pub mod render;
pub mod report;
pub mod selector;
pub mod single_condition;
pub mod spec;
pub mod specification;
pub mod text;
pub mod transformation;
pub mod value;

pub use conditions::ExplainableFailure;
pub use output::{FloatComparison, ProgramOutput};
pub use parts::{CheckResultMessages, RandomsCfg, RandomsGenerate};
pub use value::{FloatNum, Number, SValue};
