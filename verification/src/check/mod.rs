//! The checker: evaluates the statements of a context to values and checks
//! that what is given, taken and conjured fits together.
pub mod items;
pub mod value;
pub mod names;
pub mod equality;
pub mod error;
pub mod lambda_dependencies;
pub mod context_resolver;
pub mod resolver;
pub mod describes;
pub mod substitute;
pub mod occurrence;
pub mod giving;
pub mod evaluate;
pub mod operations;
pub mod format;
