//! A checker for a small language of signatures and functions.
use vstd::prelude::*;

pub mod chars;
pub mod check;
pub mod error;
pub mod lines;
pub mod location;
pub mod parse;
pub mod source;
pub mod syntax;

verus! {
} // verus!
