//! Diagnostics: what a rule reports.
use vstd::prelude::*;
use crate::ast::Span;

verus! {

/// The issue severity; it orders issues and never stops a run.
#[derive(Debug, Clone, Copy, PartialEq, Eq, Structural)]
pub enum Severity {
    Info,
    Warning,
    Error,
}

/// The specific violation that a lint reports.
#[derive(Debug, Clone, Copy, PartialEq, Eq, Structural)]
pub enum LintKind {
    MaxHeadingDepthViolation,
    InconsistentHeadingHierarchy,
    DefinitionTermWithoutDef,
    DefinitionWithoutTerm,
    ListOneElement,
    ListMixedType,
    IllegalListContent,
    TemplateNotAllowed,
    InvalidTemplateName,
    DeprecatedTemplateName,
    DeprecatedArgumentName,
    MissingTemplateArgument,
    IllegalArgument,
    IllegalArgumentContent,
    IllegalSectionName,
    MathSyntaxError,
    MathLexingError,
    MathUnknownFunction,
    DeprecatedRightarrow,
    DeprecatedLeftrightarrow,
    IllegalHtml,
}

/// An issue found in a document.
#[derive(Debug, Clone, PartialEq)]
pub struct Lint {
    /// Position in the source document.
    pub position: Span,
    /// Short, general explanation.
    pub explanation: String,
    /// Long explanation of the lint.
    pub explanation_long: String,
    /// Explains what to do about it.
    pub solution: String,
    /// Lint severity.
    pub severity: Severity,
    /// The lint kind.
    pub kind: LintKind,
}

/// What a lint says, with its texts as characters.
pub struct Finding {
    pub position: Span,
    pub explanation: Seq<char>,
    pub explanation_long: Seq<char>,
    pub solution: Seq<char>,
    pub severity: Severity,
    pub kind: LintKind,
}

impl View for Lint {
    type V = Finding;

    open spec fn view(&self) -> Finding {
        Finding {
            position: self.position,
            explanation: self.explanation@,
            explanation_long: self.explanation_long@,
            solution: self.solution@,
            severity: self.severity,
            kind: self.kind,
        }
    }
}

/// The finding of a lint with these texts, severity and kind at `position`.
pub open spec fn finding(
    position: Span,
    explanation: Seq<char>,
    explanation_long: Seq<char>,
    solution: Seq<char>,
    severity: Severity,
    kind: LintKind,
) -> Finding {
    Finding { position, explanation, explanation_long, solution, severity, kind }
}

/// Whether `longer` begins with `shorter`.
pub open spec fn extends(longer: Seq<Lint>, shorter: Seq<Lint>) -> bool {
    shorter.len() <= longer.len() && longer.subrange(0, shorter.len() as int) == shorter
}

/// Every list of lints extends itself.
pub proof fn lemma_extends_refl(a: Seq<Lint>)
    ensures
        extends(a, a),
{
    assert(a.subrange(0, a.len() as int) =~= a);
}

/// `extends` is transitive.
pub proof fn lemma_extends_trans(a: Seq<Lint>, b: Seq<Lint>, c: Seq<Lint>)
    requires
        extends(a, b),
        extends(b, c),
    ensures
        extends(a, c),
{
    assert(a.subrange(0, c.len() as int) =~= b.subrange(0, c.len() as int));
}

/// The findings of a list of lints, in order.
pub open spec fn findings(lints: Seq<Lint>) -> Seq<Finding> {
    lints.map_values(|l: Lint| l@)
}

/// An example of a bad and a good input for one kind of lint.
#[derive(Debug, Clone, PartialEq)]
pub struct Example {
    /// Example identifier.
    pub name: String,
    /// Example of a bad input.
    pub bad: String,
    /// Example of a good input.
    pub good: String,
    /// Explanation why the bad input is bad.
    pub bad_explanation: String,
    /// Explanation why the good input is good.
    pub good_explanation: String,
    /// The kind of lint that the bad input gives.
    pub kind: LintKind,
}

impl Lint {
    /// Builds a lint.
    pub fn new(
        position: Span,
        explanation: String,
        explanation_long: String,
        solution: String,
        severity: Severity,
        kind: LintKind,
    ) -> (r: Lint)
        ensures
            r@ == finding(position, explanation@, explanation_long@, solution@, severity, kind),
    {
        Lint { position, explanation, explanation_long, solution, severity, kind }
    }

    /// The short explanation.
    pub fn description(&self) -> (r: &str)
        ensures
            r@ == self.explanation@,
    {
        self.explanation.as_str()
    }
}

impl Example {
    /// Builds an example from its texts.
    pub fn new(
        name: &str,
        bad: &str,
        bad_explanation: &str,
        good: &str,
        good_explanation: &str,
        kind: LintKind,
    ) -> (r: Example)
        ensures
            r.name@ == name@,
            r.bad@ == bad@,
            r.good@ == good@,
            r.bad_explanation@ == bad_explanation@,
            r.good_explanation@ == good_explanation@,
            r.kind == kind,
    {
        Example {
            name: name.to_owned(),
            bad: bad.to_owned(),
            good: good.to_owned(),
            bad_explanation: bad_explanation.to_owned(),
            good_explanation: good_explanation.to_owned(),
            kind,
        }
    }
}

} // verus!
