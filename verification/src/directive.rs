//! Module-level directives: enabled extensions and diagnostic filters.

use vstd::prelude::*;
use crate::arena::Handle;

verus! {

/// The language extensions that `enable` directives switched on.
#[derive(Debug, Clone, Copy, PartialEq, Eq, Default)]
pub struct EnableExtensions {
    pub dual_source_blending: bool,
    pub half_float: bool,
    pub clip_distances: bool,
}

/// The severity a diagnostic filter sets.
#[derive(Debug, Clone, Copy, PartialEq, Eq, Hash)]
pub enum Severity {
    Off,
    Info,
    Warning,
    Error,
}

/// A triggering rule that a diagnostic filter can name.
#[derive(Debug, Clone, Copy, PartialEq, Eq, Hash)]
pub enum StandardFilterableTriggeringRule {
    DerivativeUniformity,
}

/// A `diagnostic(severity, rule)` directive or attribute.
#[derive(Debug, Clone, Copy, PartialEq, Eq, Hash)]
pub struct DiagnosticFilter {
    pub new_severity: Severity,
    pub triggering_rule: StandardFilterableTriggeringRule,
}

/// A diagnostic filter together with the filter it refines, forming a tree
/// whose leaves are the filters in force at a point of the module.
#[derive(Debug)]
pub struct DiagnosticFilterNode {
    pub inner: DiagnosticFilter,
    pub parent: Option<Handle<DiagnosticFilterNode>>,
}

} // verus!
