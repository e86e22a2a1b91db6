//! Html tags: only those of the whitelist.
use vstd::prelude::*;
use crate::ast::{Element, Span};
use crate::lint::{Example, Finding, Lint, LintKind, Severity, finding, findings};
use crate::settings::{RuleMeta, Settings};
use crate::text::{contains_string, normal_name, normalize_name, quoted, text, views, with_quoted};
use crate::traversal::Rule;

verus! {

/// Checks that html tags are on the whitelist.
pub struct CheckHtml {
    pub lints: Vec<Lint>,
    pub examples: Vec<Example>,
}

pub const HTML_TEXT: &'static str = " is not allowed for this project.";
pub const HTML_LONG: &'static str = "Custom HTML tags are usually not well portable and can impair consistency. <span> for example would allow any CSS markup.";
pub const HTML_SOLUTION: &'static str = "Use MediaWiki markup or allowed templtes.";

/// The lint for the html tag `name` at `position`; its text names the tag.
pub open spec fn html_finding(position: Span, name: Seq<char>) -> Finding {
    finding(position, quoted(""@, name, HTML_TEXT@), HTML_LONG@, HTML_SOLUTION@, Severity::Error, LintKind::IllegalHtml)
}

/// What the html rule reports of `root`, given the whitelist.
pub open spec fn html_findings(whitelist: Seq<Seq<char>>, root: Element) -> Seq<Finding> {
    match root {
        Element::HtmlTag { position, name, .. } => if whitelist.contains(normal_name(name@)) {
            seq![]
        } else {
            seq![html_finding(position, name@)]
        },
        _ => seq![],
    }
}

fn illegal_html(position: Span, name: &str) -> (r: Lint)
    ensures
        r@ == html_finding(position, name@),
{
    Lint::new(
        position,
        with_quoted("", name, HTML_TEXT),
        text(HTML_LONG),
        text(HTML_SOLUTION),
        Severity::Error,
        LintKind::IllegalHtml,
    )
}

impl CheckHtml {
    /// A rule with no lints yet.
    pub fn new() -> (r: CheckHtml)
        ensures
            r.lints@.len() == 0,
    {
        CheckHtml {
            lints: Vec::new(),
            examples: vec![
                Example::new(
                    "illegal_span",
                    "<big>big text</big>",
                    "<big> is not allowed for this Projekt because it lacks portability.",
                    "'''fat text'''",
                    "Bold text highlights just as well.",
                    LintKind::IllegalHtml,
                ),
            ],
        }
    }

    /// The rule's name and description.
    pub fn meta(&self) -> (r: RuleMeta)
        ensures
            r.name@ == "CheckHtml"@,
            r.description@ == "Hints for text elements."@,
    {
        RuleMeta { name: text("CheckHtml"), description: text("Hints for text elements.") }
    }

    /// The examples of what this rule reports.
    pub fn examples(&self) -> (r: &Vec<Example>)
        ensures
            r == &self.examples,
    {
        &self.examples
    }
}

impl Rule for CheckHtml {
    open spec fn lint_list(&self) -> Seq<Lint> {
        self.lints@
    }

    open spec fn node_findings(settings: Settings, path: Seq<Element>, root: Element) -> Seq<Finding> {
        html_findings(views(settings.html_whitelist@), root)
    }

    open spec fn descends(settings: Settings, path: Seq<Element>, root: Element) -> bool {
        true
    }

    fn work(&mut self, root: &Element, settings: &Settings, path: &Vec<&Element>) -> (cont: bool) {
        let ghost l0 = findings(self.lints@);
        let ghost start = self.lints@;
        if let Element::HtmlTag { position, name, .. } = root {
            let normal = normalize_name(name.as_str());
            if !contains_string(&settings.html_whitelist, &normal) {
                self.lints.push(illegal_html(*position, name.as_str()));
            }
        }
        assert(findings(self.lints@) =~= l0 + html_findings(views(settings.html_whitelist@), *root));
        assert(self.lints@.subrange(0, start.len() as int) =~= start);
        true
    }

    fn lints(&self) -> (r: &Vec<Lint>) {
        &self.lints
    }
}

} // verus!
