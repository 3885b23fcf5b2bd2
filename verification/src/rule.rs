//! The rule contract: the polymorphic interface every lint rule implements,
//! together with the shared analysis context handed to each rule.

use vstd::prelude::*;
use crate::ast::Ast;
use crate::diagnostic::Diagnostic;

verus! {

/// The reporting weight of a rule's findings, used by the driver for
/// build-policy decisions.
#[derive(Clone, Copy, Debug, PartialEq, Eq, Structural)]
pub enum Severity {
    Allow,
    Error,
    Warning,
}

/// A coarse category of rules, used for filtering and documentation.
#[derive(Clone, Copy, Debug, PartialEq, Eq, Structural)]
pub enum RuleType {
    Complexity,
    Correctness,
    Style,
}

/// Read-only data shared across all rules for one file, opaque to the rules
/// that do not consume it.
pub struct Context {}

/// The interface every lint rule implements. A rule is constructed once from
/// its configuration and then reused across files; `pass` must be a pure
/// function of the tree, the context and the immutable rule instance, so
/// that independent files can be analyzed concurrently.
pub trait Rule: Sized {
    /// Rule-specific configuration, parsed by the driver from the external
    /// configuration format.
    type Config;

    /// The error produced when the configuration is semantically invalid.
    type Error;

    /// Constructs a rule instance from its configuration.
    fn new(config: Self::Config) -> Result<Self, Self::Error>;

    /// Runs the rule once over one parsed file. Absence of findings is an
    /// empty sequence, never an error: unexpected tree shapes are skipped.
    fn pass(&self, ast: &Ast, context: &Context) -> Vec<Diagnostic>;

    /// The fixed severity of this rule's findings.
    fn severity(&self) -> Severity;

    /// The fixed category of this rule.
    fn rule_type(&self) -> RuleType;
}

} // verus!
