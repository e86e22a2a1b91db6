//! Lists: one kind of item per list, and terms paired with definitions.
use vstd::prelude::*;
use crate::ast::{Element, ListItemKind, Span, span_of};
use crate::lint::{Example, Finding, Lint, LintKind, Severity, extends, finding, findings, lemma_extends_refl, lemma_extends_trans};
use crate::settings::{RuleMeta, Settings};
use crate::text::text;
use crate::traversal::Rule;

verus! {

/// Checks for malformed lists.
pub struct CheckLists {
    pub lints: Vec<Lint>,
    pub examples: Vec<Example>,
}

/// The semantic group of a list item kind: a term and its definition are one group.
pub open spec fn factor(kind: ListItemKind) -> ListItemKind {
    if kind == ListItemKind::DefinitionTerm {
        ListItemKind::Definition
    } else {
        kind
    }
}

/// Whether `e` is a list item of kind `kind`.
pub open spec fn is_item_of(e: Element, kind: ListItemKind) -> bool {
    match e {
        Element::ListItem { kind: k, .. } => k == kind,
        _ => false,
    }
}

pub const TERM_ALONE_TEXT: &'static str = "A defined term (;) must be followed by its definition (:)!";
pub const TERM_ALONE_LONG: &'static str = "The ; and : elements mark definition lists. They should only be used for lists of a terms and their corresponding definition. Using it for indentation defeats its semantic meaning.";
pub const TERM_ALONE_SOLUTION: &'static str = "Add a definition item (:) after the term.";
pub const DEF_ALONE_TEXT: &'static str = "A definition (:) must be preceded by a definition term (;)!";
pub const DEF_ALONE_LONG: &'static str = "The ; and : elements mark definition lists. They should only be used for lists of a terms and their corresponding definition. Using it for indentation defeats its semantic meaning.";
pub const DEF_ALONE_SOLUTION: &'static str = "Add a term (;) before the definition.";
pub const ONE_ELEMENT_TEXT: &'static str = "Lists with one element are useless!";
pub const ONE_ELEMENT_LONG: &'static str = "A list is a collection of elements. But this list only contains one list element. Maybe some items are missing or some other kind of markup should be used.";
pub const ONE_ELEMENT_SOLUTION: &'static str = "Do you need a list here? For lists with longer paragraphs, use the `list`-template!";
pub const MIXED_TEXT: &'static str = "Lists kinds (unordered, ordered, definition) should not be mixed!";
pub const MIXED_LONG: &'static str = "Mediawiki allows mixed types of list items. This is discouraged, as it does not convey any universally understood meaning.";
pub const MIXED_SOLUTION: &'static str = "Use consistent item types or split into several lists.";
pub const FOREIGN_TEXT: &'static str = "A list should only contain list items!";
pub const FOREIGN_LONG: &'static str = "The parser placed something other than a list item directly in a list. This is not expected and the list may not be shown as intended.";
pub const FOREIGN_SOLUTION: &'static str = "Check the markup of this list.";

/// The lint that `term_without_def` builds at `position`.
pub open spec fn term_without_def_finding(position: Span) -> Finding {
    finding(position, TERM_ALONE_TEXT@, TERM_ALONE_LONG@, TERM_ALONE_SOLUTION@, Severity::Warning, LintKind::DefinitionTermWithoutDef)
}

/// The lint that `def_without_term` builds at `position`.
pub open spec fn def_without_term_finding(position: Span) -> Finding {
    finding(position, DEF_ALONE_TEXT@, DEF_ALONE_LONG@, DEF_ALONE_SOLUTION@, Severity::Warning, LintKind::DefinitionWithoutTerm)
}

/// The lint that `list_one_element` builds at `position`.
pub open spec fn list_one_element_finding(position: Span) -> Finding {
    finding(position, ONE_ELEMENT_TEXT@, ONE_ELEMENT_LONG@, ONE_ELEMENT_SOLUTION@, Severity::Info, LintKind::ListOneElement)
}

/// The lint that `list_mixed_type` builds at `position`.
pub open spec fn list_mixed_type_finding(position: Span) -> Finding {
    finding(position, MIXED_TEXT@, MIXED_LONG@, MIXED_SOLUTION@, Severity::Error, LintKind::ListMixedType)
}

/// The lint that `illegal_list_content` builds at `position`.
pub open spec fn illegal_list_content_finding(position: Span) -> Finding {
    finding(position, FOREIGN_TEXT@, FOREIGN_LONG@, FOREIGN_SOLUTION@, Severity::Error, LintKind::IllegalListContent)
}

/// What the list rule reports of the entry at `i` of a list at `list_pos`
/// whose entries are `items`.
pub open spec fn entry_findings(list_pos: Span, items: Seq<Element>, i: int) -> Seq<Finding> {
    match items[i] {
        Element::ListItem { position, kind, .. } => {
            let last = i + 1 == items.len();
            let term_alone: Seq<Finding> = if kind == ListItemKind::DefinitionTerm && (last
                || !is_item_of(items[i + 1], ListItemKind::Definition)) {
                seq![term_without_def_finding(if last { list_pos } else { position })]
            } else {
                seq![]
            };
            let def_alone: Seq<Finding> = if kind == ListItemKind::Definition && (i == 0
                || !is_item_of(items[i - 1], ListItemKind::DefinitionTerm)) {
                seq![def_without_term_finding(position)]
            } else {
                seq![]
            };
            let mixed: Seq<Finding> = if i > 0 && (match items[i - 1] {
                Element::ListItem { kind: prev, .. } => factor(prev) != factor(kind),
                _ => false,
            }) {
                seq![list_mixed_type_finding(position)]
            } else {
                seq![]
            };
            term_alone + def_alone + mixed
        },
        other => seq![illegal_list_content_finding(span_of(other))],
    }
}

/// What the list rule reports of the first `n` entries of a list.
pub open spec fn entries_findings(list_pos: Span, items: Seq<Element>, n: int) -> Seq<Finding>
    decreases n,
{
    if n <= 0 {
        seq![]
    } else {
        entries_findings(list_pos, items, n - 1) + entry_findings(list_pos, items, n - 1)
    }
}

/// What the list rule reports of `root`.
pub open spec fn list_findings(root: Element) -> Seq<Finding> {
    match root {
        Element::List { position, content } => {
            let one: Seq<Finding> = if content@.len() == 1 {
                seq![list_one_element_finding(position)]
            } else {
                seq![]
            };
            one + entries_findings(position, content@, content@.len() as int)
        },
        _ => seq![],
    }
}

fn term_without_def(position: Span) -> (r: Lint)
    ensures
        r@ == term_without_def_finding(position),
{
    Lint::new(position, text(TERM_ALONE_TEXT), text(TERM_ALONE_LONG), text(TERM_ALONE_SOLUTION), Severity::Warning, LintKind::DefinitionTermWithoutDef)
}

fn def_without_term(position: Span) -> (r: Lint)
    ensures
        r@ == def_without_term_finding(position),
{
    Lint::new(position, text(DEF_ALONE_TEXT), text(DEF_ALONE_LONG), text(DEF_ALONE_SOLUTION), Severity::Warning, LintKind::DefinitionWithoutTerm)
}

fn list_one_element(position: Span) -> (r: Lint)
    ensures
        r@ == list_one_element_finding(position),
{
    Lint::new(position, text(ONE_ELEMENT_TEXT), text(ONE_ELEMENT_LONG), text(ONE_ELEMENT_SOLUTION), Severity::Info, LintKind::ListOneElement)
}

fn list_mixed_type(position: Span) -> (r: Lint)
    ensures
        r@ == list_mixed_type_finding(position),
{
    Lint::new(position, text(MIXED_TEXT), text(MIXED_LONG), text(MIXED_SOLUTION), Severity::Error, LintKind::ListMixedType)
}

fn illegal_list_content(position: Span) -> (r: Lint)
    ensures
        r@ == illegal_list_content_finding(position),
{
    Lint::new(position, text(FOREIGN_TEXT), text(FOREIGN_LONG), text(FOREIGN_SOLUTION), Severity::Error, LintKind::IllegalListContent)
}

/// Factors list item kinds in semantic groups: a term counts as a definition.
pub fn term_to_def(kind: &ListItemKind) -> (r: ListItemKind)
    ensures
        r == factor(*kind),
{
    if let ListItemKind::DefinitionTerm = *kind {
        ListItemKind::Definition
    } else {
        *kind
    }
}

/// The kind of `e` if it is a list item.
fn item_kind(e: &Element) -> (r: Option<ListItemKind>)
    ensures
        r == (match *e {
            Element::ListItem { kind, .. } => Some(kind),
            _ => None::<ListItemKind>,
        }),
{
    match e {
        Element::ListItem { kind, .. } => Some(*kind),
        _ => None,
    }
}

impl CheckLists {
    /// Pushes what the list rule reports of the entry at `i`.
    fn check_entry(&mut self, list_pos: Span, items: &Vec<Element>, i: usize)
        requires
            i < items@.len(),
        ensures
            findings(final(self).lints@) == findings(old(self).lints@) + entry_findings(list_pos, items@, i as int),
            extends(final(self).lints@, old(self).lints@),
            final(self).examples == old(self).examples,
    {
        let ghost l0 = findings(self.lints@);
        let ghost start = self.lints@;
        let n = items.len();
        match &items[i] {
            Element::ListItem { position, kind, .. } => {
                let last = i + 1 == n;
                if *kind == ListItemKind::DefinitionTerm {
                    let next_is_def = !last && item_kind(&items[i + 1]) == Some(ListItemKind::Definition);
                    if !next_is_def {
                        self.lints.push(term_without_def(if last { list_pos } else { *position }));
                    }
                }
                if *kind == ListItemKind::Definition {
                    let prev_is_term = i > 0 && item_kind(&items[i - 1]) == Some(ListItemKind::DefinitionTerm);
                    if !prev_is_term {
                        self.lints.push(def_without_term(*position));
                    }
                }
                if i > 0 {
                    if let Some(prev) = item_kind(&items[i - 1]) {
                        if term_to_def(&prev) != term_to_def(kind) {
                            self.lints.push(list_mixed_type(*position));
                        }
                    }
                }
                assert(findings(self.lints@) =~= l0 + entry_findings(list_pos, items@, i as int));
                assert(self.lints@.subrange(0, start.len() as int) =~= start);
            },
            other => {
                self.lints.push(illegal_list_content(other.get_position()));
                assert(findings(self.lints@) =~= l0 + entry_findings(list_pos, items@, i as int));
                assert(self.lints@.subrange(0, start.len() as int) =~= start);
            },
        }
    }

    /// A rule with no lints yet.
    pub fn new() -> (r: CheckLists)
        ensures
            r.lints@.len() == 0,
    {
        CheckLists {
            lints: Vec::new(),
            examples: vec![
                Example::new(
                    "definition_term_without_def",
                    "; term 1\n; term 2",
                    "The definitions of `term 1` and `term 2` are missing.",
                    "; term 1\n: definition 1\n; term 2\n: definition 2",
                    "The terms `term 1` and `term 2` are followed by their definitions.",
                    LintKind::DefinitionTermWithoutDef,
                ),
                Example::new(
                    "definition_term_single",
                    "; term 1",
                    "The definition of `term 1` is missing.",
                    "; term 1\n: definition 1",
                    "The terms `term 1` is followed by its definition.",
                    LintKind::DefinitionTermWithoutDef,
                ),
                Example::new(
                    "math_usage_definition_term",
                    ":<math>x^2</math>",
                    "A definition list is used for indenting a mathematical formula. This would result in a definition list without a definition term. The proper way to indent a formula is by using the {{Formel|...}} template.",
                    "{{Formel|<math>x^2</math>}}",
                    "The formula is defined inside the apropriate template for math formulas.",
                    LintKind::DefinitionWithoutTerm,
                ),
                Example::new(
                    "definition_without_term",
                    ": definition 1",
                    "The term for definition `definition 1` is missing.",
                    "; term 1\n: definition 1",
                    "The term `term 1` is followed by its definition.",
                    LintKind::DefinitionWithoutTerm,
                ),
                Example::new(
                    "multiple_defs_without_term",
                    "; term 1\n: definition 1\n: definition 2",
                    "The term for `definition 2` is missing.",
                    "; term 1\n: definition 1\n; term 2\n: definition 2",
                    "`defintion 2` follows the definition term `term 2`.",
                    LintKind::DefinitionWithoutTerm,
                ),
                Example::new(
                    "list_one_item_split_lists",
                    "* item 1\n\n* item 2",
                    "An empty line ends a list. Thus we have here two seperate lists. In order to have one list we need to delete the empty line between the two lists.",
                    "* item 1\n* item 2",
                    "We only have list with two items since there is no empty line betweens the lines.",
                    LintKind::ListOneElement,
                ),
                Example::new(
                    "list_one_item_important_paragraph",
                    "Some paragraph.\n\n* An important fact.\n\nAnother paragraph.",
                    "Here the list asteriks `*` is used to format a text. However, the formated element is no list. There another format which is semantically more propriate should be used.",
                    "Some paragraph.\n\n{{-|An important fact.}}\n\nAnother paragraph.",
                    "Instead of a list the template {{-|...}} for marking important paragraphs is used for formating the important paragraph.",
                    LintKind::ListOneElement,
                ),
                Example::new(
                    "mixed_list",
                    "* item one\n* item two\n# item three",
                    "`item three` is ordered, but every other list item is unordered. Ordered list items are marked with `#` and unordered list items with `*`.",
                    "* item one\n* item two\n* item three",
                    "The list type is consistent between all list items.",
                    LintKind::ListMixedType,
                ),
                Example::new(
                    "mixed_sublist",
                    "* item one\n* item two\n* item three\n*# sub item 1\n** sub item 2",
                    "The top level list is consistent. However the sublists contains a ordered and unordered items.",
                    "* item one\n* item two\n* item three\n*# sub def term\n*# definition with longer explanation.",
                    "Keep the sublist consistent by using only one sublist type. Here only ordered list items are used.",
                    LintKind::ListMixedType,
                ),
            ],
        }
    }

    /// The rule's name and description.
    pub fn meta(&self) -> (r: RuleMeta)
        ensures
            r.name@ == "CheckLists"@,
            r.description@ == "Checks for malformed lists"@,
    {
        RuleMeta { name: text("CheckLists"), description: text("Checks for malformed lists") }
    }

    /// The examples of what this rule reports.
    pub fn examples(&self) -> (r: &Vec<Example>)
        ensures
            r == &self.examples,
    {
        &self.examples
    }
}

impl Rule for CheckLists {
    open spec fn lint_list(&self) -> Seq<Lint> {
        self.lints@
    }

    open spec fn node_findings(settings: Settings, path: Seq<Element>, root: Element) -> Seq<Finding> {
        list_findings(root)
    }

    open spec fn descends(settings: Settings, path: Seq<Element>, root: Element) -> bool {
        true
    }

    fn work(&mut self, root: &Element, settings: &Settings, path: &Vec<&Element>) -> (cont: bool) {
        let ghost l0 = findings(self.lints@);
        let ghost start = self.lints@;
        if let Element::List { position, content } = root {
            if content.len() == 1 {
                self.lints.push(list_one_element(*position));
            }
            proof { lemma_extends_refl(start); }
            assert(self.lints@.subrange(0, start.len() as int) =~= start);
            let ghost l1 = findings(self.lints@);
            assert(l1 == l0 + (if content@.len() == 1 {
                seq![list_one_element_finding(*position)]
            } else {
                seq![]
            }));
            let mut i: usize = 0;
            while i < content.len()
                invariant
                    i <= content@.len(),
                    findings(self.lints@) == l1 + entries_findings(*position, content@, i as int),
                    extends(self.lints@, start),
                decreases content@.len() - i,
            {
                let ghost mid = self.lints@;
                self.check_entry(*position, content, i);
                proof { lemma_extends_trans(self.lints@, mid, start); }
                i = i + 1;
            }
            assert(findings(self.lints@) =~= l0 + list_findings(*root));
        } else {
            assert(findings(self.lints@) =~= l0 + list_findings(*root));
            proof { lemma_extends_refl(start); }
        }
        true
    }

    fn lints(&self) -> (r: &Vec<Lint>) {
        &self.lints
    }
}

} // verus!
