//! The rules behind the exported functions: what each of them asks of a
//! unit, and what it hands back to the caller.

pub mod asigntse;
pub mod config;
pub mod functions;
pub mod return_codes;
pub mod seapi;
