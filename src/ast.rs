//! The document tree that the rules read.
//!
//! It mirrors the parser's tree node for node; every node carries the span
//! of source text that it was read from.
use vstd::prelude::*;

verus! {

/// A place in the source document.
#[derive(Debug, Clone, Copy, PartialEq, Eq, Structural)]
pub struct Position {
    pub offset: usize,
    pub line: usize,
    pub col: usize,
}

/// The source text that a node was read from.
#[derive(Debug, Clone, Copy, PartialEq, Eq, Structural)]
pub struct Span {
    pub start: Position,
    pub end: Position,
}

/// Kinds of markup that a stretch of text may carry.
#[derive(Debug, Clone, Copy, PartialEq, Eq, Structural)]
pub enum MarkupType {
    NoWiki,
    Bold,
    Italic,
    Math,
    StrikeThrough,
    Underline,
    Code,
    Blockquote,
    Preformatted,
}

/// Kinds of list items.
#[derive(Debug, Clone, Copy, PartialEq, Eq, Structural)]
pub enum ListItemKind {
    Unordered,
    Definition,
    DefinitionTerm,
    Ordered,
}

/// A key and value of an html attribute.
#[derive(Debug, Clone, PartialEq)]
pub struct TagAttribute {
    pub position: Span,
    pub key: String,
    pub value: String,
}

/// A node of the document tree.
#[derive(Debug, PartialEq)]
pub enum Element {
    Document { position: Span, content: Vec<Element> },
    Heading { position: Span, depth: usize, caption: Vec<Element>, content: Vec<Element> },
    Text { position: Span, text: String },
    Formatted { position: Span, markup: MarkupType, content: Vec<Element> },
    Paragraph { position: Span, content: Vec<Element> },
    Template { position: Span, name: Vec<Element>, content: Vec<Element> },
    TemplateArgument { position: Span, name: String, value: Vec<Element> },
    InternalReference {
        position: Span,
        target: Vec<Element>,
        options: Vec<Vec<Element>>,
        caption: Vec<Element>,
    },
    ExternalReference { position: Span, target: String, caption: Vec<Element> },
    ListItem { position: Span, depth: usize, kind: ListItemKind, content: Vec<Element> },
    List { position: Span, content: Vec<Element> },
    Table {
        position: Span,
        attributes: Vec<TagAttribute>,
        caption: Vec<Element>,
        caption_attributes: Vec<TagAttribute>,
        rows: Vec<Element>,
    },
    TableRow { position: Span, attributes: Vec<TagAttribute>, cells: Vec<Element> },
    TableCell {
        position: Span,
        header: bool,
        attributes: Vec<TagAttribute>,
        content: Vec<Element>,
    },
    Comment { position: Span, text: String },
    HtmlTag {
        position: Span,
        name: String,
        attributes: Vec<TagAttribute>,
        content: Vec<Element>,
    },
    Gallery { position: Span, attributes: Vec<TagAttribute>, content: Vec<Element> },
    Error { position: Span, message: String },
}

/// The span of a node.
pub open spec fn span_of(e: Element) -> Span {
    match e {
        Element::Document { position, .. } => position,
        Element::Heading { position, .. } => position,
        Element::Text { position, .. } => position,
        Element::Formatted { position, .. } => position,
        Element::Paragraph { position, .. } => position,
        Element::Template { position, .. } => position,
        Element::TemplateArgument { position, .. } => position,
        Element::InternalReference { position, .. } => position,
        Element::ExternalReference { position, .. } => position,
        Element::ListItem { position, .. } => position,
        Element::List { position, .. } => position,
        Element::Table { position, .. } => position,
        Element::TableRow { position, .. } => position,
        Element::TableCell { position, .. } => position,
        Element::Comment { position, .. } => position,
        Element::HtmlTag { position, .. } => position,
        Element::Gallery { position, .. } => position,
        Element::Error { position, .. } => position,
    }
}

impl Element {
    /// The span of source text that this node was read from.
    pub fn get_position(&self) -> (r: Span)
        ensures
            r == span_of(*self),
    {
        match self {
            Element::Document { position, .. } => *position,
            Element::Heading { position, .. } => *position,
            Element::Text { position, .. } => *position,
            Element::Formatted { position, .. } => *position,
            Element::Paragraph { position, .. } => *position,
            Element::Template { position, .. } => *position,
            Element::TemplateArgument { position, .. } => *position,
            Element::InternalReference { position, .. } => *position,
            Element::ExternalReference { position, .. } => *position,
            Element::ListItem { position, .. } => *position,
            Element::List { position, .. } => *position,
            Element::Table { position, .. } => *position,
            Element::TableRow { position, .. } => *position,
            Element::TableCell { position, .. } => *position,
            Element::Comment { position, .. } => *position,
            Element::HtmlTag { position, .. } => *position,
            Element::Gallery { position, .. } => *position,
            Element::Error { position, .. } => *position,
        }
    }
}

} // verus!
