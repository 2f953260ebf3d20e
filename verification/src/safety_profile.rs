//! The record that is kept for each source line.

use vstd::prelude::*;

use crate::label_risk::MermaidLabelRisk;

verus! {

/// The safety record of one source line.
///
/// Everything in it is a fact that the caller supplies. The two verdicts,
/// [`needs_quoting`](Self::needs_quoting) and
/// [`is_high_risk`](Self::is_high_risk), are computed from `label_risk` each
/// time they are asked for and stored nowhere, so they cannot disagree with
/// the flags.
#[derive(Debug)]
pub struct MermaidSafetyProfile {
    /// Position of the line in its file, counted from 1. Used for reporting only.
    pub line_number: u32,
    /// The line as it stands in the source.
    pub raw_line: String,
    /// The line declares a node.
    pub is_node_def: bool,
    /// The line declares an edge. A line may declare neither, or both.
    pub is_edge_def: bool,
    /// What was found inside the line's label.
    pub label_risk: MermaidLabelRisk,
    /// The label can be wrapped in quotes without changing which nodes and
    /// edges the diagram has.
    pub autoconvertible: bool,
}

impl Clone for MermaidSafetyProfile {
    /// A copy with the same line, flags and label record, and so with the
    /// same two verdicts.
    fn clone(&self) -> (copy: Self)
        ensures
            copy == *self,
    {
        MermaidSafetyProfile {
            line_number: self.line_number,
            raw_line: self.raw_line.clone(),
            is_node_def: self.is_node_def,
            is_edge_def: self.is_edge_def,
            label_risk: self.label_risk.clone(),
            autoconvertible: self.autoconvertible,
        }
    }
}

impl MermaidSafetyProfile {
    /// The verdict of [`needs_quoting`](Self::needs_quoting), as contracts state it.
    pub open spec fn spec_needs_quoting(&self) -> bool {
        self.label_risk.needs_quoting()
    }

    /// The verdict of [`is_high_risk`](Self::is_high_risk), as contracts state it.
    pub open spec fn spec_is_high_risk(&self) -> bool {
        self.label_risk.is_high_risk()
    }

    /// Whether the label has to be quoted to be safe: it is not quoted yet
    /// and holds a line-break marker, an arithmetic operator or a pipe.
    #[verifier::when_used_as_spec(spec_needs_quoting)]
    pub fn needs_quoting(&self) -> (needed: bool)
        ensures
            needed == self.label_risk.needs_quoting(),
            self.label_risk.quoted ==> !needed,
            !self.label_risk.quoted && (self.label_risk.has_html_br || self.label_risk.has_math_ops
                || self.label_risk.has_pipes) ==> needed,
            !self.label_risk.has_html_br && !self.label_risk.has_math_ops
                && !self.label_risk.has_pipes ==> !needed,
    {
        !self.label_risk.quoted && (self.label_risk.has_html_br || self.label_risk.has_math_ops
            || self.label_risk.has_pipes)
    }

    /// Whether the line is likely to break rendering as it stands: the label
    /// needs quoting and its risky characters are not padded with whitespace.
    #[verifier::when_used_as_spec(spec_is_high_risk)]
    pub fn is_high_risk(&self) -> (high: bool)
        ensures
            high == self.label_risk.is_high_risk(),
            high ==> self.needs_quoting(),
    {
        self.needs_quoting() && !self.label_risk.surrounding_whitespace_ok
    }
}

} // verus!
