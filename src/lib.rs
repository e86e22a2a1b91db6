//! A lint engine for MediaWiki document trees.
//!
//! Rules walk a parsed document in reading order and collect lints: headings
//! that are too deep, malformed lists, misused templates, bad formulas and
//! html tags outside a whitelist.
//!
//! Formulas are judged by an outside validator program, which this library
//! does not run. A caller asks `pending_formulas` which formula texts lack a
//! verdict, checks each with `CachedTexChecker::check`, which runs the
//! validator only for a text it holds no verdict for, and then runs the rules
//! with the cache in `Settings::tex_checker`.
pub mod ast;
pub mod lint;
pub mod settings;
pub mod traversal;
pub mod text;
pub mod tex;
pub mod template_spec;
pub mod rules;

pub use crate::ast::{Element, ListItemKind, MarkupType, Position, Span, TagAttribute};
pub use crate::lint::{Example, Lint, LintKind, Severity};
pub use crate::rules::check_formulas::{CheckFormulas, pending_formulas};
pub use crate::rules::check_headings::CheckHeadings;
pub use crate::rules::check_html::CheckHtml;
pub use crate::rules::check_lists::{CheckLists, term_to_def};
pub use crate::rules::check_templates::CheckTemplates;
pub use crate::rules::{AnyRule, get_examples, get_rules, run_all};
pub use crate::settings::{RuleMeta, Settings};
pub use crate::tex::{CachedTexChecker, TexResult, parse_response};
pub use crate::traversal::{Checkable, Rule};
