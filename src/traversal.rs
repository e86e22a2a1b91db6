//! The walk that every rule makes over a document tree.
//!
//! The walk is pre-order and depth first and visits children in the order in
//! which they are stored. Before a node is visited it is pushed on the
//! ancestor path, and it is popped once its children are done; a rule sees the
//! path, ending in the node itself, and may stop the walk from descending.
use vstd::prelude::*;
use crate::ast::Element;
use crate::lint::{Lint, Finding, extends, findings, lemma_extends_refl, lemma_extends_trans};
use crate::settings::Settings;

verus! {

/// The nodes of an ancestor path.
pub open spec fn nodes(path: Seq<&Element>) -> Seq<Element> {
    path.map_values(|e: &Element| *e)
}

/// A check that the walk calls on every node and that collects lints.
pub trait Rule: Sized {
    /// The lints collected so far.
    spec fn lint_list(&self) -> Seq<Lint>;

    /// The findings that visiting `root` adds; `path` ends in `root`.
    spec fn node_findings(settings: Settings, path: Seq<Element>, root: Element) -> Seq<Finding>;

    /// Whether the walk goes on into the children of `root`.
    spec fn descends(settings: Settings, path: Seq<Element>, root: Element) -> bool;

    /// Visits one node.
    fn work(&mut self, root: &Element, settings: &Settings, path: &Vec<&Element>) -> (cont: bool)
        requires
            path@.len() > 0,
            nodes(path@).last() == *root,
        ensures
            findings(final(self).lint_list()) == findings(old(self).lint_list()) + Self::node_findings(
                *settings,
                nodes(path@),
                *root,
            ),
            extends(final(self).lint_list(), old(self).lint_list()),
            cont == Self::descends(*settings, nodes(path@), *root),
    ;

    /// The lints collected so far.
    fn lints(&self) -> (r: &Vec<Lint>)
        ensures
            r@ == self.lint_list(),
    ;
}

/// The findings of a walk over `root`, below the ancestors `path`.
pub open spec fn walk<R: Rule>(settings: Settings, path: Seq<Element>, root: Element) -> Seq<Finding>
    decreases root, 1nat,
{
    let p = path.push(root);
    let own = R::node_findings(settings, p, root);
    if !R::descends(settings, p, root) {
        own
    } else {
        own + match root {
            Element::Document { content, .. } => walk_seq::<R>(settings, p, content@),
            Element::Formatted { content, .. } => walk_seq::<R>(settings, p, content@),
            Element::Paragraph { content, .. } => walk_seq::<R>(settings, p, content@),
            Element::ListItem { content, .. } => walk_seq::<R>(settings, p, content@),
            Element::List { content, .. } => walk_seq::<R>(settings, p, content@),
            Element::TableCell { content, .. } => walk_seq::<R>(settings, p, content@),
            Element::HtmlTag { content, .. } => walk_seq::<R>(settings, p, content@),
            Element::Gallery { content, .. } => walk_seq::<R>(settings, p, content@),
            Element::Heading { caption, content, .. } => walk_seq::<R>(settings, p, caption@)
                + walk_seq::<R>(settings, p, content@),
            Element::Template { name, content, .. } => walk_seq::<R>(settings, p, name@)
                + walk_seq::<R>(settings, p, content@),
            Element::TemplateArgument { value, .. } => walk_seq::<R>(settings, p, value@),
            Element::InternalReference { target, options, caption, .. } => walk_seq::<R>(
                settings,
                p,
                target@,
            ) + walk_options::<R>(settings, p, options@) + walk_seq::<R>(settings, p, caption@),
            Element::ExternalReference { caption, .. } => walk_seq::<R>(settings, p, caption@),
            Element::Table { caption, rows, .. } => walk_seq::<R>(settings, p, caption@)
                + walk_seq::<R>(settings, p, rows@),
            Element::TableRow { cells, .. } => walk_seq::<R>(settings, p, cells@),
            Element::Text { .. } => seq![],
            Element::Comment { .. } => seq![],
            Element::Error { .. } => seq![],
        }
    }
}

/// The findings of walks over each of `items` in turn.
pub open spec fn walk_seq<R: Rule>(settings: Settings, path: Seq<Element>, items: Seq<Element>) -> Seq<Finding>
    decreases items, 0nat,
{
    if items.len() == 0 {
        seq![]
    } else {
        walk_seq::<R>(settings, path, items.drop_last()) + walk::<R>(settings, path, items.last())
    }
}

/// The findings of walks over each list of option nodes in turn.
pub open spec fn walk_options<R: Rule>(
    settings: Settings,
    path: Seq<Element>,
    options: Seq<Vec<Element>>,
) -> Seq<Finding>
    decreases options, 0nat,
{
    if options.len() == 0 {
        seq![]
    } else {
        walk_options::<R>(settings, path, options.drop_last()) + walk_seq::<R>(
            settings,
            path,
            options.last()@,
        )
    }
}

/// Walks `root` with `rule`; `path` holds the ancestors of `root` and is
/// the same again when the walk returns.
pub fn run<'e, R: Rule>(rule: &mut R, root: &'e Element, settings: &Settings, path: &mut Vec<&'e Element>)
    ensures
        findings(final(rule).lint_list()) == findings(old(rule).lint_list()) + walk::<R>(*settings, nodes(old(path)@), *root),
        extends(final(rule).lint_list(), old(rule).lint_list()),
        final(path)@ == old(path)@,
    decreases root, 1nat,
{
    let ghost before = path@;
    let ghost start = rule.lint_list();
    path.push(root);
    assert(nodes(path@) =~= nodes(before).push(*root));
    let cont = rule.work(root, settings, path);
    let ghost l1 = rule.lint_list();
    proof { lemma_extends_refl(l1); }
    if cont {
        match root {
            Element::Document { content, .. } => run_vec(rule, content, settings, path),
            Element::Formatted { content, .. } => run_vec(rule, content, settings, path),
            Element::Paragraph { content, .. } => run_vec(rule, content, settings, path),
            Element::ListItem { content, .. } => run_vec(rule, content, settings, path),
            Element::List { content, .. } => run_vec(rule, content, settings, path),
            Element::TableCell { content, .. } => run_vec(rule, content, settings, path),
            Element::HtmlTag { content, .. } => run_vec(rule, content, settings, path),
            Element::Gallery { content, .. } => run_vec(rule, content, settings, path),
            Element::Heading { caption, content, .. } => {
                let ghost a = rule.lint_list();
                run_vec(rule, caption, settings, path);
                let ghost b = rule.lint_list();
                run_vec(rule, content, settings, path);
                proof { lemma_extends_trans(rule.lint_list(), b, a); }
            },
            Element::Template { name, content, .. } => {
                let ghost a = rule.lint_list();
                run_vec(rule, name, settings, path);
                let ghost b = rule.lint_list();
                run_vec(rule, content, settings, path);
                proof { lemma_extends_trans(rule.lint_list(), b, a); }
            },
            Element::TemplateArgument { value, .. } => run_vec(rule, value, settings, path),
            Element::InternalReference { target, options, caption, .. } => {
                let ghost a = rule.lint_list();
                run_vec(rule, target, settings, path);
                let ghost b = rule.lint_list();
                run_options(rule, options, settings, path);
                proof { lemma_extends_trans(rule.lint_list(), b, a); }
                let ghost c = rule.lint_list();
                run_vec(rule, caption, settings, path);
                proof { lemma_extends_trans(rule.lint_list(), c, a); }
            },
            Element::ExternalReference { caption, .. } => run_vec(rule, caption, settings, path),
            Element::Table { caption, rows, .. } => {
                let ghost a = rule.lint_list();
                run_vec(rule, caption, settings, path);
                let ghost b = rule.lint_list();
                run_vec(rule, rows, settings, path);
                proof { lemma_extends_trans(rule.lint_list(), b, a); }
            },
            Element::TableRow { cells, .. } => run_vec(rule, cells, settings, path),
            Element::Text { .. } => {},
            Element::Comment { .. } => {},
            Element::Error { .. } => {},
        }
    }
    proof { lemma_extends_trans(rule.lint_list(), l1, start); }
    path.pop();
    assert(path@ =~= before);
}

/// Walks each of `items` in turn, below the ancestors `path`.
pub fn run_vec<'e, R: Rule>(rule: &mut R, items: &'e Vec<Element>, settings: &Settings, path: &mut Vec<&'e Element>)
    ensures
        findings(final(rule).lint_list()) == findings(old(rule).lint_list()) + walk_seq::<R>(*settings, nodes(old(path)@), items@),
        extends(final(rule).lint_list(), old(rule).lint_list()),
        final(path)@ == old(path)@,
    decreases items@, 0nat,
{
    let ghost c0 = findings(rule.lint_list());
    let ghost l0 = rule.lint_list();
    let ghost before = path@;
    let ghost np = nodes(path@);
    proof { lemma_extends_refl(l0); }
    let mut i: usize = 0;
    while i < items.len()
        invariant
            0 <= i <= items@.len(),
            path@ == before,
            nodes(path@) == np,
            extends(rule.lint_list(), l0),
            findings(rule.lint_list()) == c0 + walk_seq::<R>(*settings, np, items@.take(i as int)),
        decreases items@.len() - i,
    {
        assert(decreases_to!(items@ => items@[i as int]));
        let ghost mid = rule.lint_list();
        run(rule, &items[i], settings, path);
        proof { lemma_extends_trans(rule.lint_list(), mid, l0); }
        proof {
            let t = items@.take(i as int + 1);
            assert(t.drop_last() =~= items@.take(i as int));
            assert(t.last() == items@[i as int]);
        }
        i = i + 1;
    }
    assert(items@.take(i as int) =~= items@);
}

/// Walks each list of option nodes of an internal reference in turn.
pub fn run_options<'e, R: Rule>(
    rule: &mut R,
    options: &'e Vec<Vec<Element>>,
    settings: &Settings,
    path: &mut Vec<&'e Element>,
)
    ensures
        findings(final(rule).lint_list()) == findings(old(rule).lint_list()) + walk_options::<R>(*settings, nodes(old(path)@), options@),
        extends(final(rule).lint_list(), old(rule).lint_list()),
        final(path)@ == old(path)@,
    decreases options@, 0nat,
{
    let ghost c0 = findings(rule.lint_list());
    let ghost l0 = rule.lint_list();
    let ghost before = path@;
    let ghost np = nodes(path@);
    proof { lemma_extends_refl(l0); }
    let mut i: usize = 0;
    while i < options.len()
        invariant
            0 <= i <= options@.len(),
            path@ == before,
            nodes(path@) == np,
            extends(rule.lint_list(), l0),
            findings(rule.lint_list()) == c0 + walk_options::<R>(*settings, np, options@.take(i as int)),
        decreases options@.len() - i,
    {
        assert(decreases_to!(options@ => options@[i as int]));
        let ghost mid = rule.lint_list();
        run_vec(rule, &options[i], settings, path);
        proof { lemma_extends_trans(rule.lint_list(), mid, l0); }
        proof {
            let t = options@.take(i as int + 1);
            assert(t.drop_last() =~= options@.take(i as int));
            assert(t.last() == options@[i as int]);
        }
        i = i + 1;
    }
    assert(options@.take(i as int) =~= options@);
}

/// Whether `pred` holds of every node of the tree `root` below the ancestors
/// `path`; `pred` is given the path ending in the node, and the node.
pub open spec fn every_node(pred: spec_fn(Seq<Element>, Element) -> bool, path: Seq<Element>, root: Element) -> bool
    decreases root, 1nat,
{
    let p = path.push(root);
    pred(p, root) && match root {
        Element::Document { content, .. } => every_node_seq(pred, p, content@),
        Element::Formatted { content, .. } => every_node_seq(pred, p, content@),
        Element::Paragraph { content, .. } => every_node_seq(pred, p, content@),
        Element::ListItem { content, .. } => every_node_seq(pred, p, content@),
        Element::List { content, .. } => every_node_seq(pred, p, content@),
        Element::TableCell { content, .. } => every_node_seq(pred, p, content@),
        Element::HtmlTag { content, .. } => every_node_seq(pred, p, content@),
        Element::Gallery { content, .. } => every_node_seq(pred, p, content@),
        Element::Heading { caption, content, .. } => every_node_seq(pred, p, caption@)
            && every_node_seq(pred, p, content@),
        Element::Template { name, content, .. } => every_node_seq(pred, p, name@)
            && every_node_seq(pred, p, content@),
        Element::TemplateArgument { value, .. } => every_node_seq(pred, p, value@),
        Element::InternalReference { target, options, caption, .. } => every_node_seq(pred, p, target@)
            && every_node_options(pred, p, options@) && every_node_seq(pred, p, caption@),
        Element::ExternalReference { caption, .. } => every_node_seq(pred, p, caption@),
        Element::Table { caption, rows, .. } => every_node_seq(pred, p, caption@)
            && every_node_seq(pred, p, rows@),
        Element::TableRow { cells, .. } => every_node_seq(pred, p, cells@),
        Element::Text { .. } => true,
        Element::Comment { .. } => true,
        Element::Error { .. } => true,
    }
}

/// Whether `every_node` holds of each of `items`.
pub open spec fn every_node_seq(pred: spec_fn(Seq<Element>, Element) -> bool, path: Seq<Element>, items: Seq<Element>) -> bool
    decreases items, 0nat,
{
    if items.len() == 0 {
        true
    } else {
        every_node_seq(pred, path, items.drop_last()) && every_node(pred, path, items.last())
    }
}

/// Whether `every_node_seq` holds of each list of option nodes.
pub open spec fn every_node_options(
    pred: spec_fn(Seq<Element>, Element) -> bool,
    path: Seq<Element>,
    options: Seq<Vec<Element>>,
) -> bool
    decreases options, 0nat,
{
    if options.len() == 0 {
        true
    } else {
        every_node_options(pred, path, options.drop_last()) && every_node_seq(pred, path, options.last()@)
    }
}

/// A walk reports nothing over a tree whose every node satisfies a predicate
/// on which the rule reports nothing.
pub proof fn lemma_walk_quiet<R: Rule>(
    settings: Settings,
    pred: spec_fn(Seq<Element>, Element) -> bool,
    path: Seq<Element>,
    root: Element,
)
    requires
        forall|p: Seq<Element>, e: Element| #[trigger] pred(p, e) ==> R::node_findings(settings, p, e).len() == 0,
        every_node(pred, path, root),
    ensures
        walk::<R>(settings, path, root) == Seq::<Finding>::empty(),
    decreases root, 1nat,
{
    let p = path.push(root);
    assert(pred(p, root));
    match root {
        Element::Document { content, .. } => lemma_walk_seq_quiet::<R>(settings, pred, p, content@),
        Element::Formatted { content, .. } => lemma_walk_seq_quiet::<R>(settings, pred, p, content@),
        Element::Paragraph { content, .. } => lemma_walk_seq_quiet::<R>(settings, pred, p, content@),
        Element::ListItem { content, .. } => lemma_walk_seq_quiet::<R>(settings, pred, p, content@),
        Element::List { content, .. } => lemma_walk_seq_quiet::<R>(settings, pred, p, content@),
        Element::TableCell { content, .. } => lemma_walk_seq_quiet::<R>(settings, pred, p, content@),
        Element::HtmlTag { content, .. } => lemma_walk_seq_quiet::<R>(settings, pred, p, content@),
        Element::Gallery { content, .. } => lemma_walk_seq_quiet::<R>(settings, pred, p, content@),
        Element::Heading { caption, content, .. } => {
            lemma_walk_seq_quiet::<R>(settings, pred, p, caption@);
            lemma_walk_seq_quiet::<R>(settings, pred, p, content@);
        },
        Element::Template { name, content, .. } => {
            lemma_walk_seq_quiet::<R>(settings, pred, p, name@);
            lemma_walk_seq_quiet::<R>(settings, pred, p, content@);
        },
        Element::TemplateArgument { value, .. } => lemma_walk_seq_quiet::<R>(settings, pred, p, value@),
        Element::InternalReference { target, options, caption, .. } => {
            lemma_walk_seq_quiet::<R>(settings, pred, p, target@);
            lemma_walk_options_quiet::<R>(settings, pred, p, options@);
            lemma_walk_seq_quiet::<R>(settings, pred, p, caption@);
        },
        Element::ExternalReference { caption, .. } => lemma_walk_seq_quiet::<R>(settings, pred, p, caption@),
        Element::Table { caption, rows, .. } => {
            lemma_walk_seq_quiet::<R>(settings, pred, p, caption@);
            lemma_walk_seq_quiet::<R>(settings, pred, p, rows@);
        },
        Element::TableRow { cells, .. } => lemma_walk_seq_quiet::<R>(settings, pred, p, cells@),
        Element::Text { .. } => {},
        Element::Comment { .. } => {},
        Element::Error { .. } => {},
    }
    assert(walk::<R>(settings, path, root) =~= Seq::<Finding>::empty());
}

/// `lemma_walk_quiet` for each of `items`.
pub proof fn lemma_walk_seq_quiet<R: Rule>(
    settings: Settings,
    pred: spec_fn(Seq<Element>, Element) -> bool,
    path: Seq<Element>,
    items: Seq<Element>,
)
    requires
        forall|p: Seq<Element>, e: Element| #[trigger] pred(p, e) ==> R::node_findings(settings, p, e).len() == 0,
        every_node_seq(pred, path, items),
    ensures
        walk_seq::<R>(settings, path, items) == Seq::<Finding>::empty(),
    decreases items, 0nat,
{
    if items.len() > 0 {
        lemma_walk_seq_quiet::<R>(settings, pred, path, items.drop_last());
        lemma_walk_quiet::<R>(settings, pred, path, items.last());
        assert(walk_seq::<R>(settings, path, items) =~= Seq::<Finding>::empty());
    }
}

/// `lemma_walk_quiet` for each list of option nodes.
pub proof fn lemma_walk_options_quiet<R: Rule>(
    settings: Settings,
    pred: spec_fn(Seq<Element>, Element) -> bool,
    path: Seq<Element>,
    options: Seq<Vec<Element>>,
)
    requires
        forall|p: Seq<Element>, e: Element| #[trigger] pred(p, e) ==> R::node_findings(settings, p, e).len() == 0,
        every_node_options(pred, path, options),
    ensures
        walk_options::<R>(settings, path, options) == Seq::<Finding>::empty(),
    decreases options, 0nat,
{
    if options.len() > 0 {
        lemma_walk_options_quiet::<R>(settings, pred, path, options.drop_last());
        lemma_walk_seq_quiet::<R>(settings, pred, path, options.last()@);
        assert(walk_options::<R>(settings, path, options) =~= Seq::<Finding>::empty());
    }
}

/// A tree that a rule can be run on.
pub trait Checkable {
    /// The root of the tree.
    spec fn root(&self) -> Element;

    /// Runs `rule` over the whole tree.
    fn check<R: Rule>(&self, rule: &mut R, settings: &Settings)
        ensures
            findings(final(rule).lint_list()) == findings(old(rule).lint_list()) + walk::<R>(*settings, seq![], self.root()),
            extends(final(rule).lint_list(), old(rule).lint_list()),
    ;
}

impl Checkable for Element {
    open spec fn root(&self) -> Element {
        *self
    }

    fn check<R: Rule>(&self, rule: &mut R, settings: &Settings) {
        let mut path: Vec<&Element> = Vec::new();
        assert(nodes(path@) =~= Seq::<Element>::empty());
        run(rule, self, settings, &mut path);
    }
}

} // verus!
