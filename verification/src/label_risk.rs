//! What a scanner found inside one label, and the verdicts that follow.

use vstd::prelude::*;

verus! {

/// What was found inside the label of one source line.
///
/// The five flags are observations, each made on its own. None is computed
/// from another, and no combination of them is refused: a label recorded as
/// quoted and as holding a pipe is taken as it is.
#[derive(Debug)]
pub struct MermaidLabelRisk {
    /// The label holds an inline line-break marker (`<br>` or `<br/>`).
    pub has_html_br: bool,
    /// The label holds an arithmetic operator: one of `=`, `*`, `+`, `-`, `/`, `^`.
    pub has_math_ops: bool,
    /// The label holds a pipe, `|`.
    pub has_pipes: bool,
    /// The label, as written, is already wrapped in matching quotes.
    pub quoted: bool,
    /// Every risky character in the label has whitespace on both sides.
    pub surrounding_whitespace_ok: bool,
}

impl Clone for MermaidLabelRisk {
    /// A copy with the same five flags.
    fn clone(&self) -> (copy: Self)
        ensures
            copy == *self,
    {
        MermaidLabelRisk {
            has_html_br: self.has_html_br,
            has_math_ops: self.has_math_ops,
            has_pipes: self.has_pipes,
            quoted: self.quoted,
            surrounding_whitespace_ok: self.surrounding_whitespace_ok,
        }
    }
}

impl MermaidLabelRisk {
    /// The label holds something that the renderer may read as syntax: a
    /// line-break marker, an arithmetic operator or a pipe.
    pub open spec fn has_hazard(&self) -> bool {
        self.has_html_br || self.has_math_ops || self.has_pipes
    }

    /// The label is not quoted yet and holds at least one hazard.
    pub open spec fn needs_quoting(&self) -> bool {
        !self.quoted && self.has_hazard()
    }

    /// The label needs quoting, and the whitespace that often lets the
    /// renderer tell the hazard from syntax is missing.
    pub open spec fn is_high_risk(&self) -> bool {
        self.needs_quoting() && !self.surrounding_whitespace_ok
    }
}

/// A label that is already quoted never needs quoting, whatever else was
/// found in it.
pub proof fn lemma_quoted_needs_no_quoting(risk: MermaidLabelRisk)
    requires
        risk.quoted,
    ensures
        !risk.needs_quoting(),
{
}

/// An unquoted label with a line-break marker, an arithmetic operator or a
/// pipe needs quoting: each of the three is enough alone.
pub proof fn lemma_unquoted_hazard_needs_quoting(risk: MermaidLabelRisk)
    requires
        !risk.quoted,
        risk.has_html_br || risk.has_math_ops || risk.has_pipes,
    ensures
        risk.needs_quoting(),
{
}

/// A label with no line-break marker, no arithmetic operator and no pipe
/// needs no quoting, whether or not it is quoted or padded with whitespace.
pub proof fn lemma_no_hazard_needs_no_quoting(risk: MermaidLabelRisk)
    requires
        !risk.has_html_br,
        !risk.has_math_ops,
        !risk.has_pipes,
    ensures
        !risk.needs_quoting(),
{
}

/// High risk narrows the need for quoting: every label that is high risk
/// needs quoting.
pub proof fn lemma_high_risk_needs_quoting(risk: MermaidLabelRisk)
    ensures
        risk.is_high_risk() ==> risk.needs_quoting(),
{
}

} // verus!
