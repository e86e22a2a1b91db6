//! The rules, and the registry that lists them.
pub mod check_headings;
pub mod check_lists;
pub mod check_html;
pub mod check_formulas;
pub mod check_templates;

use vstd::prelude::*;
use crate::ast::Element;
use crate::lint::{Example, Finding, Lint, LintKind, extends, findings};
use crate::settings::{RuleMeta, Settings};
use crate::traversal::{Checkable, Rule, walk};
use self::check_formulas::CheckFormulas;
use self::check_headings::CheckHeadings;
use self::check_html::CheckHtml;
use self::check_lists::CheckLists;
use self::check_templates::CheckTemplates;

verus! {

/// One of the registered rules.
pub enum AnyRule {
    Headings(CheckHeadings),
    Lists(CheckLists),
    Templates(CheckTemplates),
    Formulas(CheckFormulas),
    Html(CheckHtml),
}

impl AnyRule {
    /// The lints collected so far.
    pub open spec fn lint_list(&self) -> Seq<Lint> {
        match self {
            AnyRule::Headings(r) => r.lint_list(),
            AnyRule::Lists(r) => r.lint_list(),
            AnyRule::Templates(r) => r.lint_list(),
            AnyRule::Formulas(r) => r.lint_list(),
            AnyRule::Html(r) => r.lint_list(),
        }
    }

    /// The rule's name.
    pub open spec fn name_spec(&self) -> Seq<char> {
        match self {
            AnyRule::Headings(_) => "CheckHeadings"@,
            AnyRule::Lists(_) => "CheckLists"@,
            AnyRule::Templates(_) => "CheckTemplates"@,
            AnyRule::Formulas(_) => "CheckFormulas"@,
            AnyRule::Html(_) => "CheckHtml"@,
        }
    }

    /// The rule's description.
    pub open spec fn description_spec(&self) -> Seq<char> {
        match self {
            AnyRule::Headings(_) => "Checks for erroneous headings."@,
            AnyRule::Lists(_) => "Checks for malformed lists"@,
            AnyRule::Templates(_) => "Checks for the correct use of templates."@,
            AnyRule::Formulas(_) => "Verify math formulas."@,
            AnyRule::Html(_) => "Hints for text elements."@,
        }
    }

    /// The findings of a walk of this rule over the tree `root`.
    pub open spec fn walk_of(&self, settings: Settings, root: Element) -> Seq<Finding> {
        match self {
            AnyRule::Headings(_) => walk::<CheckHeadings>(settings, seq![], root),
            AnyRule::Lists(_) => walk::<CheckLists>(settings, seq![], root),
            AnyRule::Templates(_) => walk::<CheckTemplates>(settings, seq![], root),
            AnyRule::Formulas(_) => walk::<CheckFormulas>(settings, seq![], root),
            AnyRule::Html(_) => walk::<CheckHtml>(settings, seq![], root),
        }
    }

    /// The examples of the rule.
    pub open spec fn examples_spec(&self) -> Seq<Example> {
        match self {
            AnyRule::Headings(r) => r.examples@,
            AnyRule::Lists(r) => r.examples@,
            AnyRule::Templates(r) => r.examples@,
            AnyRule::Formulas(r) => r.examples@,
            AnyRule::Html(r) => r.examples@,
        }
    }

    /// Runs the rule over the tree `root`.
    pub fn run(&mut self, root: &Element, settings: &Settings)
        ensures
            findings(final(self).lint_list()) == findings(old(self).lint_list()) + old(self).walk_of(*settings, *root),
            extends(final(self).lint_list(), old(self).lint_list()),
            (*final(self) is Headings) == (*old(self) is Headings),
            (*final(self) is Lists) == (*old(self) is Lists),
            (*final(self) is Templates) == (*old(self) is Templates),
            (*final(self) is Formulas) == (*old(self) is Formulas),
            (*final(self) is Html) == (*old(self) is Html),
    {
        match self {
            AnyRule::Headings(r) => root.check(r, settings),
            AnyRule::Lists(r) => root.check(r, settings),
            AnyRule::Templates(r) => root.check(r, settings),
            AnyRule::Formulas(r) => root.check(r, settings),
            AnyRule::Html(r) => root.check(r, settings),
        }
    }

    /// The lints collected so far.
    pub fn lints(&self) -> (r: &Vec<Lint>)
        ensures
            r@ == self.lint_list(),
    {
        match self {
            AnyRule::Headings(r) => r.lints(),
            AnyRule::Lists(r) => r.lints(),
            AnyRule::Templates(r) => r.lints(),
            AnyRule::Formulas(r) => r.lints(),
            AnyRule::Html(r) => r.lints(),
        }
    }

    /// The examples of what the rule reports.
    pub fn examples(&self) -> (r: &Vec<Example>)
        ensures
            r@ == self.examples_spec(),
    {
        match self {
            AnyRule::Headings(r) => r.examples(),
            AnyRule::Lists(r) => r.examples(),
            AnyRule::Templates(r) => r.examples(),
            AnyRule::Formulas(r) => r.examples(),
            AnyRule::Html(r) => r.examples(),
        }
    }

    /// The rule's name and description.
    pub fn meta(&self) -> (r: RuleMeta)
        ensures
            r.name@ == self.name_spec(),
            r.description@ == self.description_spec(),
    {
        match self {
            AnyRule::Headings(r) => r.meta(),
            AnyRule::Lists(r) => r.meta(),
            AnyRule::Templates(r) => r.meta(),
            AnyRule::Formulas(r) => r.meta(),
            AnyRule::Html(r) => r.meta(),
        }
    }
}

/// All available rules, none of which has collected anything yet.
pub fn get_rules() -> (r: Vec<AnyRule>)
    ensures
        r@.len() == 5,
        r@[0] is Headings,
        r@[1] is Lists,
        r@[2] is Templates,
        r@[3] is Formulas,
        r@[4] is Html,
        forall|i: int| 0 <= i < 5 ==> (#[trigger] r@[i]).lint_list().len() == 0,
{
    let rules = vec![
        AnyRule::Headings(CheckHeadings::new()),
        AnyRule::Lists(CheckLists::new()),
        AnyRule::Templates(CheckTemplates::new()),
        AnyRule::Formulas(CheckFormulas::new()),
        AnyRule::Html(CheckHtml::new()),
    ];
    rules
}

/// The examples of the first `n` rules of `rules` whose kind is `kind`, in order.
pub open spec fn examples_of(rules: Seq<AnyRule>, kind: LintKind, n: int) -> Seq<Example>
    decreases n,
{
    if n <= 0 {
        seq![]
    } else {
        examples_of(rules, kind, n - 1) + rules[n - 1].examples_spec().filter(|e: Example| e.kind == kind)
    }
}

/// A copy of an example.
fn copy_example(e: &Example) -> (r: Example)
    ensures
        r == *e,
{
    Example {
        name: e.name.clone(),
        bad: e.bad.clone(),
        good: e.good.clone(),
        bad_explanation: e.bad_explanation.clone(),
        good_explanation: e.good_explanation.clone(),
        kind: e.kind,
    }
}

/// The examples for lints of kind `kind`, over all `rules`.
pub fn get_examples(rules: &Vec<AnyRule>, kind: LintKind) -> (r: Vec<Example>)
    ensures
        r@ == examples_of(rules@, kind, rules@.len() as int),
{
    let mut result: Vec<Example> = Vec::new();
    let mut i: usize = 0;
    while i < rules.len()
        invariant
            i <= rules@.len(),
            result@ == examples_of(rules@, kind, i as int),
        decreases rules@.len() - i,
    {
        let examples = rules[i].examples();
        let ghost start = result@;
        let mut j: usize = 0;
        while j < examples.len()
            invariant
                j <= examples@.len(),
                examples@ == rules@[i as int].examples_spec(),
                result@ == start + examples@.take(j as int).filter(|e: Example| e.kind == kind),
            decreases examples@.len() - j,
        {
            proof {
                let t = examples@.take(j as int + 1);
                assert(t.drop_last() =~= examples@.take(j as int));
                reveal(Seq::filter);
            }
            if examples[j].kind == kind {
                result.push(copy_example(&examples[j]));
            }
            j = j + 1;
        }
        assert(examples@.take(j as int) =~= examples@);
        i = i + 1;
    }
    result
}

/// The findings of all rules over the tree `root`, rule after rule in the
/// order of the registry.
pub open spec fn all_findings(settings: Settings, root: Element) -> Seq<Finding> {
    walk::<CheckHeadings>(settings, seq![], root) + walk::<CheckLists>(settings, seq![], root) + walk::<
        CheckTemplates,
    >(settings, seq![], root) + walk::<CheckFormulas>(settings, seq![], root) + walk::<CheckHtml>(
        settings,
        seq![],
        root,
    )
}

/// A copy of a lint.
fn copy_lint(l: &Lint) -> (r: Lint)
    ensures
        r == *l,
{
    Lint {
        position: l.position,
        explanation: l.explanation.clone(),
        explanation_long: l.explanation_long.clone(),
        solution: l.solution.clone(),
        severity: l.severity,
        kind: l.kind,
    }
}

/// Appends copies of `from` to `out`.
fn append_copies(out: &mut Vec<Lint>, from: &Vec<Lint>)
    ensures
        final(out)@ == old(out)@ + from@,
{
    let ghost start = out@;
    let mut i: usize = 0;
    while i < from.len()
        invariant
            i <= from@.len(),
            out@ == start + from@.take(i as int),
        decreases from@.len() - i,
    {
        out.push(copy_lint(&from[i]));
        assert(from@.take(i as int + 1) =~= from@.take(i as int).push(from@[i as int]));
        i = i + 1;
    }
    assert(from@.take(i as int) =~= from@);
}

proof fn lemma_findings_add(a: Seq<Lint>, b: Seq<Lint>)
    ensures
        findings(a + b) == findings(a) + findings(b),
{
    assert(findings(a + b) =~= findings(a) + findings(b));
}

/// Runs every rule once over `root` and returns all their lints, rule after
/// rule in the order of the registry, each rule's in reading order.
pub fn run_all(root: &Element, settings: &Settings) -> (r: Vec<Lint>)
    ensures
        findings(r@) == all_findings(*settings, *root),
{
    let mut lints: Vec<Lint> = Vec::new();
    let mut headings = CheckHeadings::new();
    root.check(&mut headings, settings);
    append_copies(&mut lints, headings.lints());
    let ghost l1 = lints@;
    let mut lists = CheckLists::new();
    root.check(&mut lists, settings);
    append_copies(&mut lints, lists.lints());
    proof { lemma_findings_add(l1, lists.lints@); }
    let ghost l2 = lints@;
    let mut templates = CheckTemplates::new();
    root.check(&mut templates, settings);
    append_copies(&mut lints, templates.lints());
    proof { lemma_findings_add(l2, templates.lints@); }
    let ghost l3 = lints@;
    let mut formulas = CheckFormulas::new();
    root.check(&mut formulas, settings);
    append_copies(&mut lints, formulas.lints());
    proof { lemma_findings_add(l3, formulas.lints@); }
    let ghost l4 = lints@;
    let mut html = CheckHtml::new();
    root.check(&mut html, settings);
    append_copies(&mut lints, html.lints());
    proof {
        lemma_findings_add(l4, html.lints@);
        assert(findings(Seq::<Lint>::empty()) =~= Seq::<Finding>::empty());
        assert(findings(headings.lints@) == walk::<CheckHeadings>(*settings, seq![], *root));
    }
    lints
}

} // verus!
