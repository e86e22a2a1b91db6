//! Headings: not too deep, and one level below their parent heading.
use vstd::prelude::*;
use crate::ast::{Element, Span};
use crate::lint::{Example, Finding, Lint, LintKind, Severity, finding, findings};
use crate::settings::{RuleMeta, Settings};
use crate::text::{digits, text, with_number};
use crate::traversal::{Rule, every_node, lemma_walk_quiet, nodes, walk, walk_options, walk_seq};

verus! {

/// Checks for erroneous headings.
pub struct CheckHeadings {
    pub lints: Vec<Lint>,
    pub examples: Vec<Example>,
}

/// The depth of the nearest heading among `ancestors`, nearest being last.
pub open spec fn nearest_heading(ancestors: Seq<Element>) -> Option<usize>
    decreases ancestors.len(),
{
    if ancestors.len() == 0 {
        None
    } else {
        match ancestors.last() {
            Element::Heading { depth, .. } => Some(depth),
            _ => nearest_heading(ancestors.drop_last()),
        }
    }
}

/// Whether a heading of depth `depth` is more than one level below a parent
/// heading of depth `parent`.
pub open spec fn too_far_below(depth: usize, parent: usize) -> bool {
    depth > parent + 1
}

pub const MAX_DEPTH_TEXT: &'static str = "A heading should not be deeper than level ";
pub const MAX_DEPTH_LONG: &'static str = "MFNF aims for a relatively shallow article structure. To achieve this, the minimum heading level allowed is 2, the maximum heading level is ";
pub const MAX_DEPTH_SOLUTION: &'static str = "Change your headings or your article structure to have a more shallow structure.";
pub const HIERARCHY_TEXT: &'static str = "A sub heading should be exactly one level deeper than its parent heading!";
pub const HIERARCHY_LONG: &'static str = "If a heading has a higher heading than a previous heading, it is considered a sub heading of this heading. Thus, headings make up a hierarchy. But a heading more than one level deeper than its parent makes no semantic sense. Heading levels should not be used to do text formatting!";
pub const HIERARCHY_SOLUTION: &'static str = "Reduce depth of this heading by ";

/// The lint for a heading at `position` deeper than `max`; its texts name the limit.
pub open spec fn max_depth_finding(max: usize, position: Span) -> Finding {
    finding(
        position,
        MAX_DEPTH_TEXT@ + digits(max as nat) + "!"@,
        MAX_DEPTH_LONG@ + digits(max as nat) + "."@,
        MAX_DEPTH_SOLUTION@,
        Severity::Warning,
        LintKind::MaxHeadingDepthViolation,
    )
}

/// The lint for a heading at `position` that is `excess` levels too far
/// below its parent; its solution names the excess.
pub open spec fn hierarchy_finding(position: Span, excess: nat) -> Finding {
    finding(
        position,
        HIERARCHY_TEXT@,
        HIERARCHY_LONG@,
        HIERARCHY_SOLUTION@ + digits(excess) + "."@,
        Severity::Warning,
        LintKind::InconsistentHeadingHierarchy,
    )
}

/// The depth lint of `root`, if it is a heading deeper than `max_depth`.
pub open spec fn too_deep_findings(max_depth: usize, root: Element) -> Seq<Finding> {
    match root {
        Element::Heading { position, depth, .. } => if depth > max_depth {
            seq![max_depth_finding(max_depth, position)]
        } else {
            seq![]
        },
        _ => seq![],
    }
}

/// The hierarchy lint of `root`, if it is a heading more than one level below
/// the nearest heading of `path`, which ends in `root`.
pub open spec fn hierarchy_findings(path: Seq<Element>, root: Element) -> Seq<Finding> {
    match root {
        Element::Heading { position, depth, .. } => match nearest_heading(path.drop_last()) {
            Some(parent) => if too_far_below(depth, parent) {
                seq![hierarchy_finding(position, (depth - parent - 1) as nat)]
            } else {
                seq![]
            },
            None => seq![],
        },
        _ => seq![],
    }
}

/// What the heading rule reports of `root`, whose ancestors and itself are `path`.
pub open spec fn heading_findings(max_depth: usize, path: Seq<Element>, root: Element) -> Seq<Finding> {
    too_deep_findings(max_depth, root) + hierarchy_findings(path, root)
}

fn max_depth_lint(max: usize, position: Span) -> (r: Lint)
    ensures
        r@ == max_depth_finding(max, position),
{
    Lint::new(
        position,
        with_number(MAX_DEPTH_TEXT, max, "!"),
        with_number(MAX_DEPTH_LONG, max, "."),
        text(MAX_DEPTH_SOLUTION),
        Severity::Warning,
        LintKind::MaxHeadingDepthViolation,
    )
}

fn inconsistent_hierarchy_lint(position: Span, diff: usize) -> (r: Lint)
    ensures
        r@ == hierarchy_finding(position, diff as nat),
{
    Lint::new(
        position,
        text(HIERARCHY_TEXT),
        text(HIERARCHY_LONG),
        with_number(HIERARCHY_SOLUTION, diff, "."),
        Severity::Warning,
        LintKind::InconsistentHeadingHierarchy,
    )
}

/// The depth of the nearest heading among the first `end` nodes of `path`.
fn find_parent_heading(path: &Vec<&Element>, end: usize) -> (r: Option<usize>)
    requires
        end <= path@.len(),
    ensures
        r == nearest_heading(nodes(path@).take(end as int)),
    decreases end,
{
    if end == 0 {
        return None;
    }
    let ghost t = nodes(path@).take(end as int);
    assert(t.drop_last() =~= nodes(path@).take(end - 1));
    match path[end - 1] {
        Element::Heading { depth, .. } => Some(*depth),
        _ => find_parent_heading(path, end - 1),
    }
}

impl CheckHeadings {
    /// A rule with no lints yet.
    pub fn new() -> (r: CheckHeadings)
        ensures
            r.lints@.len() == 0,
    {
        CheckHeadings {
            lints: Vec::new(),
            examples: vec![
                Example::new(
                    "deep_heading",
                    "===== deep heading =====\n",
                    "Headings of depth more than three are not allowed. This a rule we use in order to make the LaTeX export easier which only admits two heading in an article. This heading has depth 5 and is thus not allowed.",
                    "== normal heading ==\n",
                    "This heading is of depth 2 and is thus allowed.",
                    LintKind::MaxHeadingDepthViolation,
                ),
                Example::new(
                    "inconsistent_heading",
                    "== top level ==\n==== low level ====\n",
                    "The lower level heading has depth 4 and its parent has depth 2. Thus it is two levels deeper than its parent which is not allowed.",
                    "== top level ==\n=== low level ===\n",
                    "The heading hierarchy is consistent. The lower level is exactly one level deeper than its parent heading.",
                    LintKind::InconsistentHeadingHierarchy,
                ),
            ],
        }
    }

    /// The rule's name and description.
    pub fn meta(&self) -> (r: RuleMeta)
        ensures
            r.name@ == "CheckHeadings"@,
            r.description@ == "Checks for erroneous headings."@,
    {
        RuleMeta { name: text("CheckHeadings"), description: text("Checks for erroneous headings.") }
    }

    /// The examples of what this rule reports.
    pub fn examples(&self) -> (r: &Vec<Example>)
        ensures
            r == &self.examples,
    {
        &self.examples
    }
}

impl Rule for CheckHeadings {
    open spec fn lint_list(&self) -> Seq<Lint> {
        self.lints@
    }

    open spec fn node_findings(settings: Settings, path: Seq<Element>, root: Element) -> Seq<Finding> {
        heading_findings(settings.max_heading_depth, path, root)
    }

    open spec fn descends(settings: Settings, path: Seq<Element>, root: Element) -> bool {
        true
    }

    fn work(&mut self, root: &Element, settings: &Settings, path: &Vec<&Element>) -> (cont: bool) {
        let ghost old_lints = self.lints@;
        if let Element::Heading { position, depth, .. } = root {
            let max = settings.max_heading_depth;
            if *depth > max {
                self.lints.push(max_depth_lint(max, *position));
            }
            let parent = find_parent_heading(path, path.len() - 1);
            assert(nodes(path@).take(path@.len() - 1) =~= nodes(path@).drop_last());
            if let Some(parent) = parent {
                if *depth > parent && *depth - parent > 1 {
                    self.lints.push(inconsistent_hierarchy_lint(*position, *depth - parent - 1));
                }
            }
            assert(findings(self.lints@) =~= findings(old_lints) + heading_findings(max, nodes(path@), *root));
        } else {
            assert(findings(self.lints@) =~= findings(old_lints) + heading_findings(settings.max_heading_depth, nodes(path@), *root));
        }
        assert(self.lints@.subrange(0, old_lints.len() as int) =~= old_lints);
        true
    }

    fn lints(&self) -> (r: &Vec<Lint>) {
        &self.lints
    }
}

/// Whether `root`, if a heading, is at most `max_depth` deep and at most one
/// level below its nearest heading ancestor; `path` ends in `root`.
pub open spec fn heading_in_order(max_depth: usize, path: Seq<Element>, root: Element) -> bool {
    match root {
        Element::Heading { depth, .. } => depth <= max_depth && match nearest_heading(path.drop_last()) {
            Some(parent) => !too_far_below(depth, parent),
            None => true,
        },
        _ => true,
    }
}

/// A document whose every heading is at most the configured depth and at
/// most one level below its nearest heading ancestor gets no heading lints.
pub proof fn lemma_ordered_headings_quiet(settings: Settings, root: Element)
    requires
        every_node(|p: Seq<Element>, e: Element| heading_in_order(settings.max_heading_depth, p, e), seq![], root),
    ensures
        walk::<CheckHeadings>(settings, seq![], root) == Seq::<Finding>::empty(),
{
    let pred = |p: Seq<Element>, e: Element| heading_in_order(settings.max_heading_depth, p, e);
    assert forall|p: Seq<Element>, e: Element| #[trigger] pred(p, e) implies CheckHeadings::node_findings(
        settings,
        p,
        e,
    ).len() == 0 by {
        if let Element::Heading { .. } = e {
            assert(heading_findings(settings.max_heading_depth, p, e) =~= Seq::<Finding>::empty());
        }
    }
    lemma_walk_quiet::<CheckHeadings>(settings, pred, seq![], root);
}

/// Whether a finding reports a heading deeper than the maximum.
pub open spec fn is_depth_violation(f: Finding) -> bool {
    f.kind == LintKind::MaxHeadingDepthViolation
}

/// One depth violation for each heading of the tree `root` that is deeper
/// than `max_depth`, in reading order.
pub open spec fn deep_headings(max_depth: usize, root: Element) -> Seq<Finding>
    decreases root, 1nat,
{
    too_deep_findings(max_depth, root) + match root {
        Element::Document { content, .. } => deep_headings_seq(max_depth, content@),
        Element::Formatted { content, .. } => deep_headings_seq(max_depth, content@),
        Element::Paragraph { content, .. } => deep_headings_seq(max_depth, content@),
        Element::ListItem { content, .. } => deep_headings_seq(max_depth, content@),
        Element::List { content, .. } => deep_headings_seq(max_depth, content@),
        Element::TableCell { content, .. } => deep_headings_seq(max_depth, content@),
        Element::HtmlTag { content, .. } => deep_headings_seq(max_depth, content@),
        Element::Gallery { content, .. } => deep_headings_seq(max_depth, content@),
        Element::Heading { caption, content, .. } => deep_headings_seq(max_depth, caption@)
            + deep_headings_seq(max_depth, content@),
        Element::Template { name, content, .. } => deep_headings_seq(max_depth, name@)
            + deep_headings_seq(max_depth, content@),
        Element::TemplateArgument { value, .. } => deep_headings_seq(max_depth, value@),
        Element::InternalReference { target, options, caption, .. } => deep_headings_seq(max_depth, target@)
            + deep_headings_options(max_depth, options@) + deep_headings_seq(max_depth, caption@),
        Element::ExternalReference { caption, .. } => deep_headings_seq(max_depth, caption@),
        Element::Table { caption, rows, .. } => deep_headings_seq(max_depth, caption@)
            + deep_headings_seq(max_depth, rows@),
        Element::TableRow { cells, .. } => deep_headings_seq(max_depth, cells@),
        Element::Text { .. } => seq![],
        Element::Comment { .. } => seq![],
        Element::Error { .. } => seq![],
    }
}

/// `deep_headings` of each of `items` in turn.
pub open spec fn deep_headings_seq(max_depth: usize, items: Seq<Element>) -> Seq<Finding>
    decreases items, 0nat,
{
    if items.len() == 0 {
        seq![]
    } else {
        deep_headings_seq(max_depth, items.drop_last()) + deep_headings(max_depth, items.last())
    }
}

/// `deep_headings_seq` of each list of option nodes in turn.
pub open spec fn deep_headings_options(max_depth: usize, options: Seq<Vec<Element>>) -> Seq<Finding>
    decreases options, 0nat,
{
    if options.len() == 0 {
        seq![]
    } else {
        deep_headings_options(max_depth, options.drop_last()) + deep_headings_seq(max_depth, options.last()@)
    }
}

proof fn lemma_own_violation(max_depth: usize, path: Seq<Element>, root: Element)
    ensures
        heading_findings(max_depth, path, root).filter(|f: Finding| is_depth_violation(f)) == too_deep_findings(max_depth, root),
{
    reveal(Seq::filter);
    let pred = |f: Finding| is_depth_violation(f);
    let too_deep = too_deep_findings(max_depth, root);
    let hierarchy = hierarchy_findings(path, root);
    Seq::filter_distributes_over_add(too_deep, hierarchy, pred);
    if too_deep.len() > 0 {
        assert(too_deep.drop_last() =~= Seq::<Finding>::empty());
    }
    if hierarchy.len() > 0 {
        assert(hierarchy.drop_last() =~= Seq::<Finding>::empty());
    }
    assert(Seq::<Finding>::empty().filter(pred) =~= Seq::<Finding>::empty());
    assert(too_deep.filter(pred) =~= too_deep);
    assert(hierarchy.filter(pred) =~= Seq::<Finding>::empty());
    assert(too_deep + Seq::<Finding>::empty() =~= too_deep);
}

/// The depth violations that the heading rule reports over a tree are
/// exactly its headings deeper than the maximum, one for each, at their
/// positions and in reading order. So a document with a single heading
/// deeper than the maximum gets a single such lint, at that heading.
#[verifier::spinoff_prover]
#[verifier::rlimit(100)]
pub proof fn lemma_depth_violations(settings: Settings, path: Seq<Element>, root: Element)
    ensures
        walk::<CheckHeadings>(settings, path, root).filter(|f: Finding| is_depth_violation(f)) == deep_headings(
            settings.max_heading_depth,
            root,
        ),
    decreases root, 1nat,
{
    let max = settings.max_heading_depth;
    let pred = |f: Finding| is_depth_violation(f);
    let p = path.push(root);
    lemma_own_violation(max, p, root);
    let own = heading_findings(max, p, root);
    let below: Seq<Finding> = match root {
        Element::Document { content, .. } => {
            lemma_seq_violations(settings, p, content@);
            walk_seq::<CheckHeadings>(settings, p, content@)
        },
        Element::Formatted { content, .. } => {
            lemma_seq_violations(settings, p, content@);
            walk_seq::<CheckHeadings>(settings, p, content@)
        },
        Element::Paragraph { content, .. } => {
            lemma_seq_violations(settings, p, content@);
            walk_seq::<CheckHeadings>(settings, p, content@)
        },
        Element::ListItem { content, .. } => {
            lemma_seq_violations(settings, p, content@);
            walk_seq::<CheckHeadings>(settings, p, content@)
        },
        Element::List { content, .. } => {
            lemma_seq_violations(settings, p, content@);
            walk_seq::<CheckHeadings>(settings, p, content@)
        },
        Element::TableCell { content, .. } => {
            lemma_seq_violations(settings, p, content@);
            walk_seq::<CheckHeadings>(settings, p, content@)
        },
        Element::HtmlTag { content, .. } => {
            lemma_seq_violations(settings, p, content@);
            walk_seq::<CheckHeadings>(settings, p, content@)
        },
        Element::Gallery { content, .. } => {
            lemma_seq_violations(settings, p, content@);
            walk_seq::<CheckHeadings>(settings, p, content@)
        },
        Element::Heading { caption, content, .. } => {
            lemma_seq_violations(settings, p, caption@);
            lemma_seq_violations(settings, p, content@);
            let a = walk_seq::<CheckHeadings>(settings, p, caption@);
            let b = walk_seq::<CheckHeadings>(settings, p, content@);
            Seq::filter_distributes_over_add(a, b, pred);
            a + b
        },
        Element::Template { name, content, .. } => {
            lemma_seq_violations(settings, p, name@);
            lemma_seq_violations(settings, p, content@);
            let a = walk_seq::<CheckHeadings>(settings, p, name@);
            let b = walk_seq::<CheckHeadings>(settings, p, content@);
            Seq::filter_distributes_over_add(a, b, pred);
            a + b
        },
        Element::TemplateArgument { value, .. } => {
            lemma_seq_violations(settings, p, value@);
            walk_seq::<CheckHeadings>(settings, p, value@)
        },
        Element::InternalReference { target, options, caption, .. } => {
            lemma_seq_violations(settings, p, target@);
            lemma_options_violations(settings, p, options@);
            lemma_seq_violations(settings, p, caption@);
            let a = walk_seq::<CheckHeadings>(settings, p, target@);
            let b = walk_options::<CheckHeadings>(settings, p, options@);
            let c = walk_seq::<CheckHeadings>(settings, p, caption@);
            Seq::filter_distributes_over_add(a, b, pred);
            Seq::filter_distributes_over_add(a + b, c, pred);
            a + b + c
        },
        Element::ExternalReference { caption, .. } => {
            lemma_seq_violations(settings, p, caption@);
            walk_seq::<CheckHeadings>(settings, p, caption@)
        },
        Element::Table { caption, rows, .. } => {
            lemma_seq_violations(settings, p, caption@);
            lemma_seq_violations(settings, p, rows@);
            let a = walk_seq::<CheckHeadings>(settings, p, caption@);
            let b = walk_seq::<CheckHeadings>(settings, p, rows@);
            Seq::filter_distributes_over_add(a, b, pred);
            a + b
        },
        Element::TableRow { cells, .. } => {
            lemma_seq_violations(settings, p, cells@);
            walk_seq::<CheckHeadings>(settings, p, cells@)
        },
        Element::Text { .. } => seq![],
        Element::Comment { .. } => seq![],
        Element::Error { .. } => seq![],
    };
    assert(walk::<CheckHeadings>(settings, path, root) == own + below);
    Seq::filter_distributes_over_add(own, below, pred);
    reveal(Seq::filter);
    assert(Seq::<Finding>::empty().filter(pred) =~= Seq::<Finding>::empty());
}

proof fn lemma_seq_violations(settings: Settings, path: Seq<Element>, items: Seq<Element>)
    ensures
        walk_seq::<CheckHeadings>(settings, path, items).filter(|f: Finding| is_depth_violation(f)) == deep_headings_seq(
            settings.max_heading_depth,
            items,
        ),
    decreases items, 0nat,
{
    let pred = |f: Finding| is_depth_violation(f);
    if items.len() == 0 {
        reveal(Seq::filter);
        assert(Seq::<Finding>::empty().filter(pred) =~= Seq::<Finding>::empty());
    } else {
        lemma_seq_violations(settings, path, items.drop_last());
        lemma_depth_violations(settings, path, items.last());
        Seq::filter_distributes_over_add(
            walk_seq::<CheckHeadings>(settings, path, items.drop_last()),
            walk::<CheckHeadings>(settings, path, items.last()),
            pred,
        );
    }
}

proof fn lemma_options_violations(settings: Settings, path: Seq<Element>, options: Seq<Vec<Element>>)
    ensures
        walk_options::<CheckHeadings>(settings, path, options).filter(|f: Finding| is_depth_violation(f))
            == deep_headings_options(settings.max_heading_depth, options),
    decreases options, 0nat,
{
    let pred = |f: Finding| is_depth_violation(f);
    if options.len() == 0 {
        reveal(Seq::filter);
        assert(Seq::<Finding>::empty().filter(pred) =~= Seq::<Finding>::empty());
    } else {
        lemma_options_violations(settings, path, options.drop_last());
        lemma_seq_violations(settings, path, options.last()@);
        Seq::filter_distributes_over_add(
            walk_options::<CheckHeadings>(settings, path, options.drop_last()),
            walk_seq::<CheckHeadings>(settings, path, options.last()@),
            pred,
        );
    }
}

} // verus!
