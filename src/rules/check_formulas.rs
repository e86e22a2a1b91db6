//! Formulas: deprecated arrows, and the validator's verdict.
use vstd::prelude::*;
use crate::ast::{Element, MarkupType, Span};
use crate::lint::{Example, Finding, Lint, LintKind, Severity, finding, findings};
use crate::settings::{RuleMeta, Settings};
use crate::tex::{TexResult, Verdict, held};
use crate::text::views;
use crate::text::{contains, has_infix, quoted, text, with_quoted};
use crate::traversal::Rule;

verus! {

/// Checks math formulas.
pub struct CheckFormulas {
    pub lints: Vec<Lint>,
    pub examples: Vec<Example>,
}

/// The formula text and its span, if `root` is math markup whose sole content is text.
pub open spec fn formula_of(root: Element) -> Option<(Seq<char>, Span)> {
    match root {
        Element::Formatted { markup, content, .. } => if markup == MarkupType::Math
            && content@.len() == 1 {
            match content@[0] {
                Element::Text { position, text } => Some((text@, position)),
                _ => None,
            }
        } else {
            None
        },
        _ => None,
    }
}

pub const RIGHTARROW_TEXT: &'static str = "\\Rightarrow should not be used in math markup any more.";
pub const RIGHTARROW_LONG: &'static str = "\\implies should be used instead of \\Rightarrow, because it conveys more semantic meaning. Sometimes \\implies{} works better before `&`.";
pub const RIGHTARROW_SOLUTION: &'static str = "Replace \\Rightarrow by \\implies or \\implies{}.";
pub const LEFTRIGHTARROW_TEXT: &'static str = "\\Leftrightarrow should not be used in math markup any more.";
pub const LEFTRIGHTARROW_LONG: &'static str = "\\iff should be used instead of \\Leftrightarrow, because it conveys more semantic meaning. Iff is mathmatical speak for \"if and only if\".";
pub const LEFTRIGHTARROW_SOLUTION: &'static str = "Replace \\Leftrightarrow by \\iff.";
pub const SYNTAX_TEXT: &'static str = "This formula is not a valid LaTeX formula. You need to correct it.";
pub const LEXING_TEXT: &'static str = "This formula contains characters which are not allowed in LaTeX for MediaWiki. You need to delete the unallowed characters.";
pub const MACRO_TEXT_START: &'static str = "The macro ";
pub const MACRO_TEXT_END: &'static str = " is not known in LaTeX for MediaWiki or is not allowed in formulas. You need to correct the macro name or to change your formula.";
pub const UNKNOWN_TEXT: &'static str = "An unknown error occured with this formula.";
pub const VERDICT_LONG: &'static str = "Only a subset of LaTeX with some additional macros is allowed in MediaWiki. This formula does not result in a correct LaTeX output.";
pub const VERDICT_SOLUTION: &'static str = "Only use LaTeX code allowed by the MediaWiki Software.";

/// The lint for `\Rightarrow` in a formula at `position`.
pub open spec fn rightarrow_finding(position: Span) -> Finding {
    finding(position, RIGHTARROW_TEXT@, RIGHTARROW_LONG@, RIGHTARROW_SOLUTION@, Severity::Warning, LintKind::DeprecatedRightarrow)
}

/// The lint for `\Leftrightarrow` in a formula at `position`.
pub open spec fn leftrightarrow_finding(position: Span) -> Finding {
    finding(
        position,
        LEFTRIGHTARROW_TEXT@,
        LEFTRIGHTARROW_LONG@,
        LEFTRIGHTARROW_SOLUTION@,
        Severity::Warning,
        LintKind::DeprecatedLeftrightarrow,
    )
}

/// The lint for a rejected formula at `position`, with `explanation` naming the cause.
pub open spec fn verdict_finding(position: Span, explanation: Seq<char>, kind: LintKind) -> Finding {
    finding(position, explanation, VERDICT_LONG@, VERDICT_SOLUTION@, Severity::Error, kind)
}

/// What a verdict reports of a formula at `position`; an unknown macro is named.
pub open spec fn verdict_findings(verdict: Verdict, position: Span) -> Seq<Finding> {
    match verdict {
        Verdict::Accepted(_) => seq![],
        Verdict::SyntaxError => seq![verdict_finding(position, SYNTAX_TEXT@, LintKind::MathSyntaxError)],
        Verdict::LexingError => seq![verdict_finding(position, LEXING_TEXT@, LintKind::MathLexingError)],
        Verdict::UnknownFunction(f) => seq![
            verdict_finding(position, quoted(MACRO_TEXT_START@, f, MACRO_TEXT_END@), LintKind::MathUnknownFunction),
        ],
        Verdict::UnknownError => seq![verdict_finding(position, UNKNOWN_TEXT@, LintKind::MathUnknownFunction)],
    }
}

/// What the formula rule reports of `root`.
pub open spec fn formula_findings(settings: Settings, root: Element) -> Seq<Finding> {
    match formula_of(root) {
        Some((t, position)) => {
            let right: Seq<Finding> = if has_infix(t, "\\Rightarrow"@) {
                seq![rightarrow_finding(position)]
            } else {
                seq![]
            };
            let left_right: Seq<Finding> = if has_infix(t, "\\Leftrightarrow"@) {
                seq![leftrightarrow_finding(position)]
            } else {
                seq![]
            };
            let checked: Seq<Finding> = match settings.tex_checker {
                Some(c) => match held(c.entries(), t) {
                    Some(v) => verdict_findings(v, position),
                    None => seq![],
                },
                None => seq![],
            };
            right + left_right + checked
        },
        None => seq![],
    }
}

fn rightarrow_lint(position: Span) -> (r: Lint)
    ensures
        r@ == rightarrow_finding(position),
{
    Lint::new(
        position,
        text(RIGHTARROW_TEXT),
        text(RIGHTARROW_LONG),
        text(RIGHTARROW_SOLUTION),
        Severity::Warning,
        LintKind::DeprecatedRightarrow,
    )
}

fn leftrightarrow_lint(position: Span) -> (r: Lint)
    ensures
        r@ == leftrightarrow_finding(position),
{
    Lint::new(
        position,
        text(LEFTRIGHTARROW_TEXT),
        text(LEFTRIGHTARROW_LONG),
        text(LEFTRIGHTARROW_SOLUTION),
        Severity::Warning,
        LintKind::DeprecatedLeftrightarrow,
    )
}

/// The lint for a verdict other than acceptance.
fn verdict_lint(verdict: &TexResult, position: Span) -> (r: Option<Lint>)
    ensures
        verdict_findings(verdict@, position) == (match r {
            Some(l) => seq![l@],
            None => Seq::<Finding>::empty(),
        }),
{
    let (explanation, kind) = match verdict {
        TexResult::Accepted(_) => {
            return None;
        },
        TexResult::SyntaxError => (text(SYNTAX_TEXT), LintKind::MathSyntaxError),
        TexResult::LexingError => (text(LEXING_TEXT), LintKind::MathLexingError),
        TexResult::UnknownFunction(f) => (
            with_quoted(MACRO_TEXT_START, f.as_str(), MACRO_TEXT_END),
            LintKind::MathUnknownFunction,
        ),
        TexResult::UnknownError => (text(UNKNOWN_TEXT), LintKind::MathUnknownFunction),
    };
    Some(Lint::new(position, explanation, text(VERDICT_LONG), text(VERDICT_SOLUTION), Severity::Error, kind))
}

impl CheckFormulas {
    /// A rule with no lints yet.
    pub fn new() -> (r: CheckFormulas)
        ensures
            r.lints@.len() == 0,
    {
        CheckFormulas {
            lints: Vec::new(),
            examples: vec![
                Example::new(
                    "math_syntax_error",
                    "<math>\\frac{1}{2</math>",
                    "There is an error in the math forumla. In this formula for example is the closing tag '}' missing.",
                    "<math>\\frac{1}{2}</math>",
                    "This formula is syntactically correct.",
                    LintKind::MathSyntaxError,
                ),
                Example::new(
                    "math_lexing_error",
                    "<math>\\[ x^2 \\]</math>",
                    "The formula contains invalid characters. The chracter `[` is for example not allowed in LaTeX for MediaWiki.",
                    "<math>x^2</math>",
                    "This formula does not contain invalid characters.",
                    LintKind::MathLexingError,
                ),
                Example::new(
                    "math_unknown_function",
                    "<math>\\badfrac{1}{2}</math>",
                    "The macro `badfrac` is not defined in MediaWiki LaTeX",
                    "<math>\\frac{1}{2}</math>",
                    "`frac` is a valid LaTeX macro.",
                    LintKind::MathUnknownFunction,
                ),
                Example::new(
                    "righarrow_to_implies",
                    "<math>A\\Rightarrow B</math>",
                    "Rightarrow is not semantic and usually means implies.",
                    "<math>A\\implies B</math>",
                    "`implies` is correctly used. You may need to use `\\implies{}` before `&`.",
                    LintKind::DeprecatedRightarrow,
                ),
                Example::new(
                    "leftrightarrow_to_iff",
                    "<math>A\\Leftrightarrow B</math>",
                    "Leftrightarrow is not semantic and usually means iff.",
                    "<math>A\\iff B</math>",
                    "`iff` is correctly used. Iff means \"if and only if\".",
                    LintKind::DeprecatedLeftrightarrow,
                ),
            ],
        }
    }

    /// The rule's name and description.
    pub fn meta(&self) -> (r: RuleMeta)
        ensures
            r.name@ == "CheckFormulas"@,
            r.description@ == "Verify math formulas."@,
    {
        RuleMeta { name: text("CheckFormulas"), description: text("Verify math formulas.") }
    }

    /// The examples of what this rule reports.
    pub fn examples(&self) -> (r: &Vec<Example>)
        ensures
            r == &self.examples,
    {
        &self.examples
    }
}

impl Rule for CheckFormulas {
    open spec fn lint_list(&self) -> Seq<Lint> {
        self.lints@
    }

    open spec fn node_findings(settings: Settings, path: Seq<Element>, root: Element) -> Seq<Finding> {
        formula_findings(settings, root)
    }

    /// The walk does not go into a formula when no checker is configured.
    open spec fn descends(settings: Settings, path: Seq<Element>, root: Element) -> bool {
        !(formula_of(root) is Some && settings.tex_checker is None)
    }

    fn work(&mut self, root: &Element, settings: &Settings, path: &Vec<&Element>) -> (cont: bool) {
        let ghost l0 = findings(self.lints@);
        let ghost start = self.lints@;
        let mut cont = true;
        if let Element::Formatted { markup, content, .. } = root {
            if *markup == MarkupType::Math && content.len() == 1 {
                if let Element::Text { position, text: formula } = &content[0] {
                    if contains(formula.as_str(), "\\Rightarrow") {
                        self.lints.push(rightarrow_lint(*position));
                    }
                    if contains(formula.as_str(), "\\Leftrightarrow") {
                        self.lints.push(leftrightarrow_lint(*position));
                    }
                    if settings.tex_checker.is_none() {
                        cont = false;
                    }
                    if let Some(checker) = &settings.tex_checker {
                        if let Some(verdict) = checker.peek(formula.as_str()) {
                            if let Some(l) = verdict_lint(&verdict, *position) {
                                self.lints.push(l);
                            }
                        }
                    }
                    assert(findings(self.lints@) =~= l0 + formula_findings(*settings, *root));
                }
            }
        }
        assert(findings(self.lints@) =~= l0 + formula_findings(*settings, *root));
        assert(self.lints@.subrange(0, start.len() as int) =~= start);
        cont
    }

    fn lints(&self) -> (r: &Vec<Lint>) {
        &self.lints
    }
}

/// The formula texts of `root` itself that the checker of `settings` holds no
/// verdict for; none without a checker.
pub open spec fn own_pending(settings: Settings, root: Element) -> Seq<Seq<char>> {
    match (formula_of(root), settings.tex_checker) {
        (Some((t, _)), Some(c)) => if held(c.entries(), t) is None {
            seq![t]
        } else {
            seq![]
        },
        _ => seq![],
    }
}

/// The formula texts of the tree `root`, in reading order, that a checker is
/// configured for but holds no verdict for.
pub open spec fn pending_of(settings: Settings, root: Element) -> Seq<Seq<char>>
    decreases root, 1nat,
{
    own_pending(settings, root) + match root {
        Element::Document { content, .. } => pending_seq(settings, content@),
        Element::Formatted { content, .. } => pending_seq(settings, content@),
        Element::Paragraph { content, .. } => pending_seq(settings, content@),
        Element::ListItem { content, .. } => pending_seq(settings, content@),
        Element::List { content, .. } => pending_seq(settings, content@),
        Element::TableCell { content, .. } => pending_seq(settings, content@),
        Element::HtmlTag { content, .. } => pending_seq(settings, content@),
        Element::Gallery { content, .. } => pending_seq(settings, content@),
        Element::Heading { caption, content, .. } => pending_seq(settings, caption@)
            + pending_seq(settings, content@),
        Element::Template { name, content, .. } => pending_seq(settings, name@)
            + pending_seq(settings, content@),
        Element::TemplateArgument { value, .. } => pending_seq(settings, value@),
        Element::InternalReference { target, options, caption, .. } => pending_seq(settings, target@) + pending_options(settings, options@) + pending_seq(settings, caption@),
        Element::ExternalReference { caption, .. } => pending_seq(settings, caption@),
        Element::Table { caption, rows, .. } => pending_seq(settings, caption@)
            + pending_seq(settings, rows@),
        Element::TableRow { cells, .. } => pending_seq(settings, cells@),
        Element::Text { .. } => seq![],
        Element::Comment { .. } => seq![],
        Element::Error { .. } => seq![],
    }
}

/// `pending_of` of each of `items` in turn.
pub open spec fn pending_seq(settings: Settings, items: Seq<Element>) -> Seq<Seq<char>>
    decreases items, 0nat,
{
    if items.len() == 0 {
        seq![]
    } else {
        pending_seq(settings, items.drop_last()) + pending_of(settings, items.last())
    }
}

/// `pending_seq` of each list of option nodes in turn.
pub open spec fn pending_options(settings: Settings, options: Seq<Vec<Element>>) -> Seq<Seq<char>>
    decreases options, 0nat,
{
    if options.len() == 0 {
        seq![]
    } else {
        pending_options(settings, options.drop_last()) + pending_seq(settings, options.last()@)
    }
}

/// Appends to `out` the formula texts of `root` that need the validator.
fn pending_tree(root: &Element, settings: &Settings, out: &mut Vec<String>)
    ensures
        views(final(out)@) == views(old(out)@) + pending_of(*settings, *root),
    decreases root, 1nat,
{
    let ghost start = views(out@);
    if let Element::Formatted { markup, content, .. } = root {
        if *markup == MarkupType::Math && content.len() == 1 {
            if let Element::Text { text: formula, .. } = &content[0] {
                if let Some(checker) = &settings.tex_checker {
                    if checker.peek(formula.as_str()).is_none() {
                        out.push(formula.clone());
                    }
                }
            }
        }
    }
    assert(views(out@) =~= start + own_pending(*settings, *root));
    match root {
        Element::Document { content, .. } => pending_vec(content, settings, out),
        Element::Formatted { content, .. } => pending_vec(content, settings, out),
        Element::Paragraph { content, .. } => pending_vec(content, settings, out),
        Element::ListItem { content, .. } => pending_vec(content, settings, out),
        Element::List { content, .. } => pending_vec(content, settings, out),
        Element::TableCell { content, .. } => pending_vec(content, settings, out),
        Element::HtmlTag { content, .. } => pending_vec(content, settings, out),
        Element::Gallery { content, .. } => pending_vec(content, settings, out),
        Element::Heading { caption, content, .. } => {
            pending_vec(caption, settings, out);
            pending_vec(content, settings, out);
        },
        Element::Template { name, content, .. } => {
            pending_vec(name, settings, out);
            pending_vec(content, settings, out);
        },
        Element::TemplateArgument { value, .. } => pending_vec(value, settings, out),
        Element::InternalReference { target, options, caption, .. } => {
            pending_vec(target, settings, out);
            pending_options_exec(options, settings, out);
            pending_vec(caption, settings, out);
        },
        Element::ExternalReference { caption, .. } => pending_vec(caption, settings, out),
        Element::Table { caption, rows, .. } => {
            pending_vec(caption, settings, out);
            pending_vec(rows, settings, out);
        },
        Element::TableRow { cells, .. } => pending_vec(cells, settings, out),
        Element::Text { .. } => {},
        Element::Comment { .. } => {},
        Element::Error { .. } => {},
    }
    assert(views(out@) =~= start + pending_of(*settings, *root));
}

/// Appends to `out` the pending formula texts of each of `items` in turn.
fn pending_vec(items: &Vec<Element>, settings: &Settings, out: &mut Vec<String>)
    ensures
        views(final(out)@) == views(old(out)@) + pending_seq(*settings, items@),
    decreases items@, 0nat,
{
    let ghost start = views(out@);
    let mut i: usize = 0;
    while i < items.len()
        invariant
            i <= items@.len(),
            views(out@) == start + pending_seq(*settings, items@.take(i as int)),
        decreases items@.len() - i,
    {
        assert(decreases_to!(items@ => items@[i as int]));
        pending_tree(&items[i], settings, out);
        proof {
            let t = items@.take(i as int + 1);
            assert(t.drop_last() =~= items@.take(i as int));
        }
        i = i + 1;
    }
    assert(items@.take(i as int) =~= items@);
}

/// Appends to `out` the pending formula texts of each option list in turn.
fn pending_options_exec(options: &Vec<Vec<Element>>, settings: &Settings, out: &mut Vec<String>)
    ensures
        views(final(out)@) == views(old(out)@) + pending_options(*settings, options@),
    decreases options@, 0nat,
{
    let ghost start = views(out@);
    let mut i: usize = 0;
    while i < options.len()
        invariant
            i <= options@.len(),
            views(out@) == start + pending_options(*settings, options@.take(i as int)),
        decreases options@.len() - i,
    {
        assert(decreases_to!(options@ => options@[i as int]));
        pending_vec(&options[i], settings, out);
        proof {
            let t = options@.take(i as int + 1);
            assert(t.drop_last() =~= options@.take(i as int));
        }
        i = i + 1;
    }
    assert(options@.take(i as int) =~= options@);
}

/// The formula texts of `root`, in reading order, whose verdicts the
/// configured cache lacks; none when no cache is configured.
pub fn pending_formulas(root: &Element, settings: &Settings) -> (r: Vec<String>)
    ensures
        views(r@) == pending_of(*settings, *root),
{
    let mut out: Vec<String> = Vec::new();
    assert(views(out@) =~= Seq::<Seq<char>>::empty());
    pending_tree(root, settings, &mut out);
    assert(Seq::<Seq<char>>::empty() + pending_of(*settings, *root) =~= pending_of(*settings, *root));
    out
}

} // verus!
