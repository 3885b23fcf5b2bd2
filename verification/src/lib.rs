//! A pluggable static-analysis rule engine for a Lua linter.
//!
//! The crate models a parsed syntax tree, walks it with a visitor, and lets
//! lint rules report diagnostics for patterns that are syntactically legal
//! but semantically suspicious. One concrete rule is provided: flagging a
//! division whose divisor is the bare numeric literal `0`.

pub mod ast;
pub mod diagnostic;
pub mod divide_by_zero;
pub mod rule;
pub mod visitor;
