//! Translation of FlatZinc statements into ground facts for answer-set and
//! Prolog-style reasoners.
//!
//! [`translate::write_fz_stmt`] takes one statement at a time, checks it
//! against the canonical phase order (predicates, parameters, variables,
//! constraints, the solve goal), and appends its facts, one line each;
//! [`translate::finish`] closes a run.
pub mod ast;
pub mod emit;
pub mod encode;
pub mod laws;
pub mod text;
pub mod translate;

pub use translate::{finish, write_fz_stmt, FlatZincError, Placement};
