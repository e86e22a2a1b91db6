//! Declarative specification of the templates that a document may use.
//!
//! Each template has a canonical name, aliases, a format and a list of
//! attributes; each attribute has a priority and a predicate that its value
//! must satisfy. Names are compared in lower case with surrounding white
//! space removed.
use vstd::prelude::*;
use crate::ast::{Element, MarkupType};
use crate::text::{normal_name, normalize_name, text};

verus! {

/// Whether a template is a logical unit (`Block`) or simpler markup (`Inline`).
#[derive(Debug, Clone, Copy, PartialEq, Eq, Structural)]
pub enum Format {
    Block,
    Inline,
}

/// Whether an attribute must be given.
#[derive(Debug, Clone, Copy, PartialEq, Eq, Structural)]
pub enum Priority {
    Required,
    Optional,
}

/// A test on the value of an attribute.
#[derive(Debug, Clone, Copy, PartialEq, Eq, Structural)]
pub enum Predicate {
    /// The value is a single math element.
    IsMathTag,
    /// The value holds no block elements, at any depth.
    IsTextOnlyParagraph,
    /// Any value.
    Anything,
}

/// An attribute (argument) of a template.
#[derive(Debug, Clone, PartialEq)]
pub struct Attribute {
    pub name: String,
    pub alternative_names: Vec<String>,
    pub priority: Priority,
    pub predicate: Predicate,
    /// A human readable description of the predicate.
    pub predicate_source: String,
}

/// A (semantic) template.
#[derive(Debug, Clone, PartialEq)]
pub struct TemplateSpec {
    pub name: String,
    pub alternative_names: Vec<String>,
    pub format: Format,
    pub attributes: Vec<Attribute>,
}

/// Whether `n` is, in normal form, `name` or one of `alternatives`.
pub open spec fn names_match(n: Seq<char>, name: String, alternatives: Seq<String>) -> bool {
    normal_name(name@) == n || exists|j: int|
        0 <= j < alternatives.len() && normal_name(#[trigger] alternatives[j]@) == n
}

/// Whether `n` is, in normal form, one of `alternatives`.
pub open spec fn alias_of(n: Seq<char>, alternatives: Seq<String>) -> bool {
    exists|j: int| 0 <= j < alternatives.len() && normal_name(#[trigger] alternatives[j]@) == n
}

/// Whether the normalized name `n` is the name of attribute `a` or one of its aliases.
pub open spec fn attribute_named(a: Attribute, n: Seq<char>) -> bool {
    names_match(n, a.name, a.alternative_names@)
}

/// The text of a name given as nodes: a single text node, possibly inside a
/// single paragraph.
pub open spec fn name_text(name: Seq<Element>) -> Option<Seq<char>> {
    if name.len() != 1 {
        None
    } else {
        match name[0] {
            Element::Text { text, .. } => Some(text@),
            Element::Paragraph { content, .. } => if content@.len() == 1 {
                match content@[0] {
                    Element::Text { text, .. } => Some(text@),
                    _ => None,
                }
            } else {
                None
            },
            _ => None,
        }
    }
}

/// The text of a name given as nodes, if it is plain text.
pub fn check_name(name: &[Element]) -> (r: Option<&str>)
    ensures
        match r {
            Some(t) => name_text(name@) == Some(t@),
            None => name_text(name@) is None,
        },
{
    if name.len() != 1 {
        return None;
    }
    match &name[0] {
        Element::Text { text, .. } => Some(text.as_str()),
        Element::Paragraph { content, .. } => {
            if content.len() != 1 {
                return None;
            }
            match &content[0] {
                Element::Text { text, .. } => Some(text.as_str()),
                _ => None,
            }
        },
        _ => None,
    }
}

/// The index of the first template of `specs` at or after `i` that is named
/// exactly `n`, by its name or an alias.
pub open spec fn format_index(specs: Seq<TemplateSpec>, n: Seq<char>, i: int) -> int
    decreases specs.len() - i,
{
    if i < 0 || i >= specs.len() {
        -1
    } else if specs[i].name@ == n || exists|j: int|
        0 <= j < specs[i].alternative_names@.len() && #[trigger] specs[i].alternative_names@[j]@
            == n {
        i
    } else {
        format_index(specs, n, i + 1)
    }
}

/// The format of `e` if it is a template that `specs` names exactly.
pub open spec fn format_spec(specs: Seq<TemplateSpec>, e: Element) -> Option<Format> {
    match e {
        Element::Template { name, .. } => match name_text(name@) {
            Some(n) => {
                let i = format_index(specs, n, 0);
                if i >= 0 {
                    Some(specs[i].format)
                } else {
                    None
                }
            },
            None => None,
        },
        _ => None,
    }
}

/// Whether `n` is exactly one of `list`.
fn among(list: &Vec<String>, n: &str) -> (r: bool)
    ensures
        r == exists|j: int| 0 <= j < list@.len() && #[trigger] list@[j]@ == n@,
{
    let key = text(n);
    let mut j: usize = 0;
    while j < list.len()
        invariant
            j <= list@.len(),
            key@ == n@,
            forall|k: int| 0 <= k < j ==> list@[k]@ != n@,
        decreases list@.len() - j,
    {
        if list[j] == key {
            return true;
        }
        j = j + 1;
    }
    false
}

/// The format of `e` if it is a template that `specs` names exactly.
pub fn format(specs: &Vec<TemplateSpec>, e: &Element) -> (r: Option<Format>)
    ensures
        r == format_spec(specs@, *e),
{
    if let Element::Template { name, .. } = e {
        if let Some(n) = check_name(name.as_slice()) {
            let key = text(n);
            let mut i: usize = 0;
            while i < specs.len()
                invariant
                    i <= specs@.len(),
                    key@ == n@,
                    name_text(name@) == Some(n@),
                    *e is Template,
                    e->Template_name == *name,
                    format_index(specs@, n@, 0) == format_index(specs@, n@, i as int),
                decreases specs@.len() - i,
            {
                let named = specs[i].name == key;
                if named || among(&specs[i].alternative_names, n) {
                    assert(format_index(specs@, n@, i as int) == i as int);
                    assert(format_index(specs@, n@, 0) == i as int);
                    return Some(specs[i].format);
                }
                assert(format_index(specs@, n@, i as int) == format_index(specs@, n@, i + 1));
                i = i + 1;
            }
            return None;
        }
    }
    None
}

/// Whether no node of `elems` is a block element; a template counts as a
/// block unless `specs` gives it the inline format.
pub open spec fn shallow(specs: Seq<TemplateSpec>, elems: Seq<Element>) -> bool {
    forall|i: int| 0 <= i < elems.len() ==> !is_block(specs, #[trigger] elems[i])
}

/// Whether `e` is a block element.
pub open spec fn is_block(specs: Seq<TemplateSpec>, e: Element) -> bool {
    match e {
        Element::Template { .. } => format_spec(specs, e) != Some(Format::Inline),
        Element::Gallery { .. } => true,
        Element::Heading { .. } => true,
        Element::Table { .. } => true,
        Element::TableRow { .. } => true,
        Element::TableCell { .. } => true,
        Element::InternalReference { .. } => true,
        Element::ListItem { .. } => true,
        _ => false,
    }
}

/// Whether `elems` is a single math element.
pub open spec fn math_tag(elems: Seq<Element>) -> bool {
    elems.len() == 1 && (match elems[0] {
        Element::Formatted { markup, .. } => markup == MarkupType::Math,
        _ => false,
    })
}

/// Whether `pred` holds of the node list `elems` itself.
pub open spec fn holds_here(specs: Seq<TemplateSpec>, pred: Predicate, elems: Seq<Element>) -> bool {
    match pred {
        Predicate::IsMathTag => math_tag(elems),
        Predicate::IsTextOnlyParagraph => shallow(specs, elems),
        Predicate::Anything => true,
    }
}

/// Whether `pred` holds of an attribute value `elems`.
pub open spec fn satisfies(specs: Seq<TemplateSpec>, pred: Predicate, elems: Seq<Element>) -> bool {
    match pred {
        Predicate::IsTextOnlyParagraph => every_list(specs, pred, true, elems),
        _ => holds_here(specs, pred, elems),
    }
}

/// Whether `holds_here` of `pred` is `expect` on `elems` and on every list of
/// child nodes below it.
pub open spec fn every_list(specs: Seq<TemplateSpec>, pred: Predicate, expect: bool, elems: Seq<Element>) -> bool
    decreases elems, 1nat,
{
    holds_here(specs, pred, elems) == expect && every_item(specs, pred, expect, elems)
}

/// Whether every list of child nodes below each of `elems` passes `every_list`.
pub open spec fn every_item(specs: Seq<TemplateSpec>, pred: Predicate, expect: bool, elems: Seq<Element>) -> bool
    decreases elems, 0nat,
{
    if elems.len() == 0 {
        true
    } else {
        every_item(specs, pred, expect, elems.drop_last()) && every_child_list(
            specs,
            pred,
            expect,
            elems.last(),
        )
    }
}

/// Whether every list of child nodes of `e` passes `every_list`.
pub open spec fn every_child_list(specs: Seq<TemplateSpec>, pred: Predicate, expect: bool, e: Element) -> bool
    decreases e, 2nat,
{
    match e {
        Element::Document { content, .. } => every_list(specs, pred, expect, content@),
        Element::Formatted { content, .. } => every_list(specs, pred, expect, content@),
        Element::Paragraph { content, .. } => every_list(specs, pred, expect, content@),
        Element::ListItem { content, .. } => every_list(specs, pred, expect, content@),
        Element::List { content, .. } => every_list(specs, pred, expect, content@),
        Element::TableCell { content, .. } => every_list(specs, pred, expect, content@),
        Element::HtmlTag { content, .. } => every_list(specs, pred, expect, content@),
        Element::Gallery { content, .. } => every_list(specs, pred, expect, content@),
        Element::Heading { caption, content, .. } => every_list(specs, pred, expect, caption@)
            && every_list(specs, pred, expect, content@),
        Element::Template { name, content, .. } => every_list(specs, pred, expect, name@)
            && every_list(specs, pred, expect, content@),
        Element::TemplateArgument { value, .. } => every_list(specs, pred, expect, value@),
        Element::InternalReference { target, options, caption, .. } => every_list(
            specs,
            pred,
            expect,
            target@,
        ) && every_option(specs, pred, expect, options@) && every_list(
            specs,
            pred,
            expect,
            caption@,
        ),
        Element::ExternalReference { caption, .. } => every_list(specs, pred, expect, caption@),
        Element::Table { caption, rows, .. } => every_list(specs, pred, expect, caption@)
            && every_list(specs, pred, expect, rows@),
        Element::TableRow { cells, .. } => every_list(specs, pred, expect, cells@),
        Element::Text { .. } => true,
        Element::Comment { .. } => true,
        Element::Error { .. } => true,
    }
}

/// Whether every option list of an internal reference passes `every_list`.
pub open spec fn every_option(specs: Seq<TemplateSpec>, pred: Predicate, expect: bool, options: Seq<Vec<Element>>) -> bool
    decreases options, 0nat,
{
    if options.len() == 0 {
        true
    } else {
        every_option(specs, pred, expect, options.drop_last()) && every_list(
            specs,
            pred,
            expect,
            options.last()@,
        )
    }
}

/// Whether `e` is a block element.
fn block(specs: &Vec<TemplateSpec>, e: &Element) -> (r: bool)
    ensures
        r == is_block(specs@, *e),
{
    match e {
        Element::Template { .. } => format(specs, e) != Some(Format::Inline),
        Element::Gallery { .. } => true,
        Element::Heading { .. } => true,
        Element::Table { .. } => true,
        Element::TableRow { .. } => true,
        Element::TableCell { .. } => true,
        Element::InternalReference { .. } => true,
        Element::ListItem { .. } => true,
        _ => false,
    }
}

/// Whether `elems` is a single math element.
pub fn is_math_tag(elems: &[Element]) -> (r: bool)
    ensures
        r == math_tag(elems@),
{
    if elems.len() != 1 {
        return false;
    }
    match &elems[0] {
        Element::Formatted { markup, .. } => *markup == MarkupType::Math,
        _ => false,
    }
}

/// Whether no node of `elems` is a block element.
fn is_shallow(specs: &Vec<TemplateSpec>, elems: &[Element]) -> (r: bool)
    ensures
        r == shallow(specs@, elems@),
{
    let mut i: usize = 0;
    while i < elems.len()
        invariant
            i <= elems@.len(),
            forall|k: int| 0 <= k < i ==> !is_block(specs@, #[trigger] elems@[k]),
        decreases elems@.len() - i,
    {
        if block(specs, &elems[i]) {
            return false;
        }
        i = i + 1;
    }
    true
}

/// Whether `pred` holds of the node list `elems` itself.
fn test_here(specs: &Vec<TemplateSpec>, pred: Predicate, elems: &[Element]) -> (r: bool)
    ensures
        r == holds_here(specs@, pred, elems@),
{
    match pred {
        Predicate::IsMathTag => is_math_tag(elems),
        Predicate::IsTextOnlyParagraph => is_shallow(specs, elems),
        Predicate::Anything => true,
    }
}

/// Whether `elems` and every node list below it hold no block elements.
pub fn is_text_only_paragraph(specs: &Vec<TemplateSpec>, elems: &[Element]) -> (r: bool)
    ensures
        r == satisfies(specs@, Predicate::IsTextOnlyParagraph, elems@),
{
    TreeChecker::all(specs, elems, Predicate::IsTextOnlyParagraph)
}

/// Whether `pred` holds of the attribute value `elems`.
pub fn test_predicate(specs: &Vec<TemplateSpec>, pred: Predicate, elems: &[Element]) -> (r: bool)
    ensures
        r == satisfies(specs@, pred, elems@),
{
    match pred {
        Predicate::IsTextOnlyParagraph => is_text_only_paragraph(specs, elems),
        _ => test_here(specs, pred, elems),
    }
}

/// Whether `pred` holds of every node of a subtree; every predicate does.
pub fn true_for_subtree(root: &Element, pred: Predicate) -> (r: bool)
    ensures
        r,
{
    true
}

/// Checks a predicate on a node list and on every node list below it.
pub struct TreeChecker {
    /// Whether every list checked so far gave the expected answer.
    pub result: bool,
}

impl TreeChecker {
    /// Whether the predicate gives `expect` on `elems` and on every list below it.
    fn check_list(specs: &Vec<TemplateSpec>, pred: Predicate, expect: bool, elems: &[Element]) -> (r: bool)
        ensures
            r == every_list(specs@, pred, expect, elems@),
        decreases elems@, 1nat,
    {
        if test_here(specs, pred, elems) != expect {
            return false;
        }
        let mut i: usize = 0;
        while i < elems.len()
            invariant
                i <= elems@.len(),
                holds_here(specs@, pred, elems@) == expect,
                every_item(specs@, pred, expect, elems@.take(i as int)),
            decreases elems@.len() - i,
        {
            proof {
                let t = elems@.take(i as int + 1);
                assert(t.drop_last() =~= elems@.take(i as int));
                assert(t.last() == elems@[i as int]);
            }
            assert(decreases_to!(elems@ => elems@[i as int]));
            if !Self::check_children(specs, pred, expect, &elems[i]) {
                proof { lemma_every_item_prefix(specs@, pred, expect, elems@, i as int + 1); }
                return false;
            }
            i = i + 1;
        }
        assert(elems@.take(i as int) =~= elems@);
        true
    }

    /// Whether every list of child nodes of `e` passes `check_list`.
    #[verifier::spinoff_prover]
    #[verifier::rlimit(60)]
    fn check_children(specs: &Vec<TemplateSpec>, pred: Predicate, expect: bool, e: &Element) -> (r: bool)
        ensures
            r == every_child_list(specs@, pred, expect, *e),
        decreases e, 2nat,
    {
        match e {
            Element::Document { content, .. } => Self::check_list(specs, pred, expect, content.as_slice()),
            Element::Formatted { content, .. } => Self::check_list(specs, pred, expect, content.as_slice()),
            Element::Paragraph { content, .. } => Self::check_list(specs, pred, expect, content.as_slice()),
            Element::ListItem { content, .. } => Self::check_list(specs, pred, expect, content.as_slice()),
            Element::List { content, .. } => Self::check_list(specs, pred, expect, content.as_slice()),
            Element::TableCell { content, .. } => Self::check_list(specs, pred, expect, content.as_slice()),
            Element::HtmlTag { content, .. } => Self::check_list(specs, pred, expect, content.as_slice()),
            Element::Gallery { content, .. } => Self::check_list(specs, pred, expect, content.as_slice()),
            Element::Heading { caption, content, .. } => Self::check_list(specs, pred, expect, caption.as_slice())
                && Self::check_list(specs, pred, expect, content.as_slice()),
            Element::Template { name, content, .. } => Self::check_list(specs, pred, expect, name.as_slice())
                && Self::check_list(specs, pred, expect, content.as_slice()),
            Element::TemplateArgument { value, .. } => Self::check_list(specs, pred, expect, value.as_slice()),
            Element::InternalReference { target, options, caption, .. } => Self::check_list(
                specs,
                pred,
                expect,
                target.as_slice(),
            ) && Self::check_options(specs, pred, expect, options) && Self::check_list(
                specs,
                pred,
                expect,
                caption.as_slice(),
            ),
            Element::ExternalReference { caption, .. } => Self::check_list(specs, pred, expect, caption.as_slice()),
            Element::Table { caption, rows, .. } => Self::check_list(specs, pred, expect, caption.as_slice())
                && Self::check_list(specs, pred, expect, rows.as_slice()),
            Element::TableRow { cells, .. } => Self::check_list(specs, pred, expect, cells.as_slice()),
            Element::Text { .. } => true,
            Element::Comment { .. } => true,
            Element::Error { .. } => true,
        }
    }

    /// Whether every option list passes `check_list`.
    fn check_options(specs: &Vec<TemplateSpec>, pred: Predicate, expect: bool, options: &Vec<Vec<Element>>) -> (r: bool)
        ensures
            r == every_option(specs@, pred, expect, options@),
        decreases options@, 0nat,
    {
        let mut i: usize = 0;
        while i < options.len()
            invariant
                i <= options@.len(),
                every_option(specs@, pred, expect, options@.take(i as int)),
            decreases options@.len() - i,
        {
            proof {
                let t = options@.take(i as int + 1);
                assert(t.drop_last() =~= options@.take(i as int));
                assert(t.last() == options@[i as int]);
            }
            assert(decreases_to!(options@ => options@[i as int]));
            if !Self::check_list(specs, pred, expect, options[i].as_slice()) {
                proof { lemma_every_option_prefix(specs@, pred, expect, options@, i as int + 1); }
                return false;
            }
            i = i + 1;
        }
        assert(options@.take(i as int) =~= options@);
        true
    }

    /// Whether `pred` holds of `root` and of every node list below it.
    pub fn all(specs: &Vec<TemplateSpec>, root: &[Element], pred: Predicate) -> (r: bool)
        ensures
            r == every_list(specs@, pred, true, root@),
    {
        let mut checker = TreeChecker { result: true };
        checker.result = checker.result && Self::check_list(specs, pred, true, root);
        checker.result
    }

    /// Whether `pred` fails on `root` and on every node list below it.
    pub fn never(specs: &Vec<TemplateSpec>, root: &[Element], pred: Predicate) -> (r: bool)
        ensures
            r == every_list(specs@, pred, false, root@),
    {
        let mut checker = TreeChecker { result: true };
        checker.result = checker.result && Self::check_list(specs, pred, false, root);
        checker.result
    }

    /// Whether `pred` holds of `root` or of some node list below it.
    pub fn min_one(specs: &Vec<TemplateSpec>, root: &[Element], pred: Predicate) -> (r: bool)
        ensures
            r == !every_list(specs@, pred, false, root@),
    {
        !Self::never(specs, root, pred)
    }
}

/// A list of items fails `every_item` once a prefix of it does.
proof fn lemma_every_item_prefix(specs: Seq<TemplateSpec>, pred: Predicate, expect: bool, elems: Seq<Element>, n: int)
    requires
        0 <= n <= elems.len(),
        !every_item(specs, pred, expect, elems.take(n)),
    ensures
        !every_item(specs, pred, expect, elems),
    decreases elems.len() - n,
{
    if n < elems.len() {
        let t = elems.take(n + 1);
        assert(t.drop_last() =~= elems.take(n));
        lemma_every_item_prefix(specs, pred, expect, elems, n + 1);
    } else {
        assert(elems.take(n) =~= elems);
    }
}

/// A list of option lists fails `every_option` once a prefix of it does.
proof fn lemma_every_option_prefix(specs: Seq<TemplateSpec>, pred: Predicate, expect: bool, options: Seq<Vec<Element>>, n: int)
    requires
        0 <= n <= options.len(),
        !every_option(specs, pred, expect, options.take(n)),
    ensures
        !every_option(specs, pred, expect, options),
    decreases options.len() - n,
{
    if n < options.len() {
        let t = options.take(n + 1);
        assert(t.drop_last() =~= options.take(n));
        lemma_every_option_prefix(specs, pred, expect, options, n + 1);
    } else {
        assert(options.take(n) =~= options);
    }
}

/// The index of the first template of `specs` at or after `i` whose
/// canonical name is `n` in normal form.
pub open spec fn canonical_index(specs: Seq<TemplateSpec>, n: Seq<char>, i: int) -> int
    decreases specs.len() - i,
{
    if i < 0 || i >= specs.len() {
        -1
    } else if normal_name(specs[i].name@) == n {
        i
    } else {
        canonical_index(specs, n, i + 1)
    }
}

/// The index of the first template of `specs` at or after `i` that has `n`
/// in normal form among its aliases.
pub open spec fn alias_index(specs: Seq<TemplateSpec>, n: Seq<char>, i: int) -> int
    decreases specs.len() - i,
{
    if i < 0 || i >= specs.len() {
        -1
    } else if alias_of(n, specs[i].alternative_names@) {
        i
    } else {
        alias_index(specs, n, i + 1)
    }
}

/// The template that the normalized name `n` refers to, and whether `n` is
/// an alias: canonical names are searched first, then aliases, each in the
/// order of the table; the first match wins.
pub open spec fn lookup_spec(specs: Seq<TemplateSpec>, n: Seq<char>) -> Option<(int, bool)> {
    let c = canonical_index(specs, n, 0);
    if c >= 0 {
        Some((c, false))
    } else {
        let a = alias_index(specs, n, 0);
        if a >= 0 {
            Some((a, true))
        } else {
            None
        }
    }
}

/// Whether the normalized name `n` is one of `list` in normal form.
pub fn alias_match(list: &Vec<String>, n: &String) -> (r: bool)
    ensures
        r == alias_of(n@, list@),
{
    let mut j: usize = 0;
    while j < list.len()
        invariant
            j <= list@.len(),
            forall|k: int| 0 <= k < j ==> normal_name(#[trigger] list@[k]@) != n@,
        decreases list@.len() - j,
    {
        if normalize_name(list[j].as_str()) == *n {
            return true;
        }
        j = j + 1;
    }
    false
}

/// Whether the normalized name `n` names attribute `a`.
pub fn attribute_match(a: &Attribute, n: &String) -> (r: bool)
    ensures
        r == attribute_named(*a, n@),
{
    normalize_name(a.name.as_str()) == *n || alias_match(&a.alternative_names, n)
}

/// The template that the normalized name `n` refers to, and whether `n` is an alias.
pub fn spec_of(specs: &Vec<TemplateSpec>, n: &String) -> (r: Option<(usize, bool)>)
    ensures
        match r {
            Some((i, alias)) => lookup_spec(specs@, n@) == Some((i as int, alias)) && i < specs@.len(),
            None => lookup_spec(specs@, n@) is None,
        },
{
    let mut i: usize = 0;
    while i < specs.len()
        invariant
            i <= specs@.len(),
            canonical_index(specs@, n@, 0) == canonical_index(specs@, n@, i as int),
        decreases specs@.len() - i,
    {
        if normalize_name(specs[i].name.as_str()) == *n {
            return Some((i, false));
        }
        i = i + 1;
    }
    let mut i: usize = 0;
    while i < specs.len()
        invariant
            i <= specs@.len(),
            canonical_index(specs@, n@, 0) == -1,
            alias_index(specs@, n@, 0) == alias_index(specs@, n@, i as int),
        decreases specs@.len() - i,
    {
        if alias_match(&specs[i].alternative_names, n) {
            return Some((i, true));
        }
        i = i + 1;
    }
    None
}

/// An attribute with one alias or none.
fn attribute(name: &str, alias: Option<&str>, priority: Priority, predicate: Predicate, source: &str) -> (r: Attribute)
    ensures
        r.name@ == name@,
        r.priority == priority,
        r.predicate == predicate,
        r.predicate_source@ == source@,
        match alias {
            Some(a) => r.alternative_names@.len() == 1 && r.alternative_names@[0]@ == a@,
            None => r.alternative_names@.len() == 0,
        },
{
    let mut alternative_names = Vec::new();
    if let Some(a) = alias {
        alternative_names.push(text(a));
    }
    Attribute { name: text(name), alternative_names, priority, predicate, predicate_source: text(source) }
}

/// A template with one alias.
fn template(name: &str, alias: &str, format: Format, attributes: Vec<Attribute>) -> (r: TemplateSpec)
    ensures
        r.name@ == name@,
        r.alternative_names@.len() == 1,
        r.alternative_names@[0]@ == alias@,
        r.format == format,
        r.attributes == attributes,
{
    let mut alternative_names = Vec::new();
    alternative_names.push(text(alias));
    TemplateSpec { name: text(name), alternative_names, format, attributes }
}

/// Whether `a` is named `name`, with the aliases `aliases`, the priority
/// `priority` and the predicate `predicate` described as `source`.
pub open spec fn attribute_is(
    a: Attribute,
    name: Seq<char>,
    aliases: Seq<Seq<char>>,
    priority: Priority,
    predicate: Predicate,
    source: Seq<char>,
) -> bool {
    &&& a.name@ == name
    &&& views_of(a.alternative_names@) == aliases
    &&& a.priority == priority
    &&& a.predicate == predicate
    &&& a.predicate_source@ == source
}

/// The character views of a list of strings.
pub open spec fn views_of(v: Seq<String>) -> Seq<Seq<char>> {
    v.map_values(|s: String| s@)
}

/// Whether `t` is named `name`, with the aliases `aliases`, the format
/// `format` and `n` attributes.
pub open spec fn template_is(t: TemplateSpec, name: Seq<char>, aliases: Seq<Seq<char>>, format: Format, n: nat) -> bool {
    &&& t.name@ == name
    &&& views_of(t.alternative_names@) == aliases
    &&& t.format == format
    &&& t.attributes@.len() == n
}

/// Whether `r` is the default table of allowed templates.
pub open spec fn is_default_table(r: Seq<TemplateSpec>) -> bool {
    let text_only = Predicate::IsTextOnlyParagraph;
    let source = "is_text_only_paragraph"@;
    let required = Priority::Required;
    &&& r.len() == 6
    &&& template_is(r[0], "formula"@, seq!["formel"@, "Formel"@, "Formula"@], Format::Inline, 1)
    &&& attribute_is(r[0].attributes@[0], "1"@, seq!["formel"@], required, Predicate::IsMathTag, "is_math_tag"@)
    &&& template_is(r[1], "important"@, seq!["-"@], Format::Block, 1)
    &&& attribute_is(r[1].attributes@[0], "1"@, seq!["content"@], required, text_only, source)
    &&& template_is(r[2], "definition"@, seq![":Mathe für Nicht-Freaks: Vorlage:Definition"@], Format::Block, 2)
    &&& attribute_is(r[2].attributes@[0], "title"@, seq!["titel"@], required, text_only, source)
    &&& attribute_is(r[2].attributes@[1], "definition"@, seq![], required, text_only, source)
    &&& template_is(r[3], "theorem"@, seq![":Mathe für Nicht-Freaks: Vorlage:Satz"@], Format::Block, 2)
    &&& attribute_is(r[3].attributes@[0], "title"@, seq!["titel"@], required, text_only, source)
    &&& attribute_is(r[3].attributes@[1], "theorem"@, seq!["satz"@], required, text_only, source)
    &&& template_is(r[4], "example"@, seq![":Mathe für Nicht-Freaks: Vorlage:Beispiel"@], Format::Block, 2)
    &&& attribute_is(r[4].attributes@[0], "title"@, seq!["titel"@], required, text_only, source)
    &&& attribute_is(r[4].attributes@[1], "example"@, seq!["beispiel"@], required, text_only, source)
    &&& template_is(r[5], ":Mathe für Nicht-Freaks: Vorlage:Hinweis"@, seq!["Hinweis"@], Format::Block, 1)
    &&& attribute_is(r[5].attributes@[0], "1"@, seq![], required, text_only, source)
}

/// The default table of allowed templates.
pub fn default_spec() -> (r: Vec<TemplateSpec>)
    ensures
        is_default_table(r@),
{
    let text_only = Predicate::IsTextOnlyParagraph;
    let source = "is_text_only_paragraph";
    let mut formula = template("formula", "formel", Format::Inline, vec![
        attribute("1", Some("formel"), Priority::Required, Predicate::IsMathTag, "is_math_tag"),
    ]);
    formula.alternative_names.push(text("Formel"));
    formula.alternative_names.push(text("Formula"));
    let ghost fa = views_of(formula.alternative_names@);
    assert(fa =~= seq!["formel"@, "Formel"@, "Formula"@]);
    let important = template("important", "-", Format::Block, vec![
        attribute("1", Some("content"), Priority::Required, text_only, source),
    ]);
    let definition = template("definition", ":Mathe für Nicht-Freaks: Vorlage:Definition", Format::Block, vec![
        attribute("title", Some("titel"), Priority::Required, text_only, source),
        attribute("definition", None, Priority::Required, text_only, source),
    ]);
    let theorem = template("theorem", ":Mathe für Nicht-Freaks: Vorlage:Satz", Format::Block, vec![
        attribute("title", Some("titel"), Priority::Required, text_only, source),
        attribute("theorem", Some("satz"), Priority::Required, text_only, source),
    ]);
    let example = template("example", ":Mathe für Nicht-Freaks: Vorlage:Beispiel", Format::Block, vec![
        attribute("title", Some("titel"), Priority::Required, text_only, source),
        attribute("example", Some("beispiel"), Priority::Required, text_only, source),
    ]);
    let remark = template(":Mathe für Nicht-Freaks: Vorlage:Hinweis", "Hinweis", Format::Block, vec![
        attribute("1", None, Priority::Required, text_only, source),
    ]);
    let r = vec![formula, important, definition, theorem, example, remark];
    assert(views_of(r@[5].alternative_names@) =~= seq!["Hinweis"@]);
    assert(views_of(r@[5].attributes@[0].alternative_names@) =~= Seq::<Seq<char>>::empty());
    assert(views_of(r@[1].alternative_names@) =~= seq!["-"@]);
    assert(views_of(r@[1].attributes@[0].alternative_names@) =~= seq!["content"@]);
    assert(views_of(r@[0].attributes@[0].alternative_names@) =~= seq!["formel"@]);
    assert(views_of(r@[2].alternative_names@) =~= seq![":Mathe für Nicht-Freaks: Vorlage:Definition"@]);
    assert(views_of(r@[3].alternative_names@) =~= seq![":Mathe für Nicht-Freaks: Vorlage:Satz"@]);
    assert(views_of(r@[4].alternative_names@) =~= seq![":Mathe für Nicht-Freaks: Vorlage:Beispiel"@]);
    assert(views_of(r@[2].attributes@[1].alternative_names@) =~= Seq::<Seq<char>>::empty());
    assert(views_of(r@[2].attributes@[0].alternative_names@) =~= seq!["titel"@]);
    assert(views_of(r@[3].attributes@[0].alternative_names@) =~= seq!["titel"@]);
    assert(views_of(r@[4].attributes@[0].alternative_names@) =~= seq!["titel"@]);
    assert(views_of(r@[3].attributes@[1].alternative_names@) =~= seq!["satz"@]);
    assert(views_of(r@[4].attributes@[1].alternative_names@) =~= seq!["beispiel"@]);
    r
}

} // verus!
