//! What the rules are configured with.
use vstd::prelude::*;
use crate::tex::CachedTexChecker;
use crate::template_spec::{TemplateSpec, default_spec, is_default_table};
use crate::text::text;

verus! {

/// A rule's name and description.
#[derive(Debug, Clone, PartialEq)]
pub struct RuleMeta {
    pub name: String,
    pub description: String,
}

/// Settings shared, read only, by all rules of a run.
pub struct Settings {
    /// Maximum allowed depth of a heading.
    pub max_heading_depth: usize,
    /// Allowed html tags, in lower case.
    pub html_whitelist: Vec<String>,
    /// Verdicts of the formula validator, if formulas are checked.
    pub tex_checker: Option<CachedTexChecker>,
    /// The allowed templates.
    pub template_spec: Vec<TemplateSpec>,
}

impl Default for Settings {
    /// Headings down to level 4, the tags `section`, `dfn` and `ref`, no
    /// formula checking, and the default template table.
    fn default() -> (r: Settings)
        ensures
            r.max_heading_depth == 4,
            r.html_whitelist@.len() == 3,
            r.html_whitelist@[0]@ == "section"@,
            r.html_whitelist@[1]@ == "dfn"@,
            r.html_whitelist@[2]@ == "ref"@,
            r.tex_checker is None,
            is_default_table(r.template_spec@),
    {
        Settings {
            max_heading_depth: 4,
            html_whitelist: vec![text("section"), text("dfn"), text("ref")],
            tex_checker: None,
            template_spec: default_spec(),
        }
    }
}

} // verus!
