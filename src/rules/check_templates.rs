//! Templates: allowed names, required and known arguments, argument content.
use vstd::prelude::*;
use crate::ast::{Element, Span};
use crate::lint::{Example, Finding, Lint, LintKind, Severity, extends, finding, findings, lemma_extends_refl, lemma_extends_trans};
use crate::settings::{RuleMeta, Settings};
use crate::template_spec::{
    Attribute, Priority, TemplateSpec, attribute_match, attribute_named, check_name, lookup_spec,
    name_text, satisfies, spec_of, test_predicate,
};
use crate::text::{normal_name, normalize_name, quoted, text, trim, trimmed, with_quoted};
use crate::traversal::Rule;

verus! {

/// Checks for the correct use of templates.
pub struct CheckTemplates {
    pub lints: Vec<Lint>,
    pub examples: Vec<Example>,
}

/// The prefix of a section inclusion.
pub open spec fn section_prefix() -> Seq<char> {
    seq!['#', 'l', 's', 't', ':']
}

/// Whether `c` is a quotation mark.
pub open spec fn is_quote(c: char) -> bool {
    c == '"' || c == '\'' || c == '\u{201c}' || c == '\u{201d}' || c == '\u{2018}' || c
        == '\u{2019}' || c == '\u{ab}' || c == '\u{bb}' || c == '\u{201e}'
}

/// Whether `s` is non-empty and holds no quotation mark.
pub open spec fn fair_name(s: Seq<char>) -> bool {
    s.len() > 0 && forall|i: int| 0 <= i < s.len() ==> !is_quote(#[trigger] s[i])
}

/// Whether a section inclusion with normalized name `n` and arguments
/// `content` names an article and a section, both in plain text.
pub open spec fn section_ok(n: Seq<char>, content: Seq<Element>) -> bool {
    let article = trimmed(n.subrange(5, n.len() as int));
    content.len() > 0 && match content[0] {
        Element::TemplateArgument { value, .. } => match name_text(value@) {
            Some(section) => fair_name(section) && fair_name(article),
            None => false,
        },
        _ => false,
    }
}

/// The index of the first argument at or after `i` of `content` that
/// attribute `a` names, or -1.
pub open spec fn arg_index(content: Seq<Element>, a: Attribute, i: int) -> int
    decreases content.len() - i,
{
    if i < 0 || i >= content.len() {
        -1
    } else {
        match content[i] {
            Element::TemplateArgument { name, .. } => if attribute_named(a, normal_name(name@)) {
                i
            } else {
                arg_index(content, a, i + 1)
            },
            _ => arg_index(content, a, i + 1),
        }
    }
}

/// The lint for attribute `a` when it is required and no argument of
/// `content` gives it; the template is at `position`.
pub open spec fn attribute_findings(position: Span, content: Seq<Element>, a: Attribute) -> Seq<Finding> {
    if a.priority == Priority::Required && arg_index(content, a, 0) < 0 {
        seq![missing_finding(position, a.name@)]
    } else {
        seq![]
    }
}

/// What the first `n` attributes of `attrs` report.
pub open spec fn attributes_findings(position: Span, content: Seq<Element>, attrs: Seq<Attribute>, n: int) -> Seq<Finding>
    decreases n,
{
    if n <= 0 {
        seq![]
    } else {
        attributes_findings(position, content, attrs, n - 1) + attribute_findings(position, content, attrs[n - 1])
    }
}

/// The index of the first attribute of `attrs` at or after `j` that is named
/// `n`, or -1.
pub open spec fn attr_index(attrs: Seq<Attribute>, n: Seq<char>, j: int) -> int
    decreases attrs.len() - j,
{
    if j < 0 || j >= attrs.len() {
        -1
    } else if attribute_named(attrs[j], n) {
        j
    } else {
        attr_index(attrs, n, j + 1)
    }
}

/// What argument `e` reports in a template named `template` whose attributes
/// are `attrs`: a notice if it uses an alias of its attribute and a lint if
/// its value fails the attribute's predicate, or a lint if no attribute has
/// its name.
pub open spec fn argument_findings(specs: Seq<TemplateSpec>, attrs: Seq<Attribute>, template: Seq<char>, e: Element) -> Seq<Finding> {
    match e {
        Element::TemplateArgument { position, name, value } => {
            let n = normal_name(name@);
            let j = attr_index(attrs, n, 0);
            if j >= 0 {
                let a = attrs[j];
                let renamed: Seq<Finding> = if n != normal_name(a.name@) {
                    seq![deprecated_finding(position, n, normal_name(a.name@), LintKind::DeprecatedArgumentName)]
                } else {
                    seq![]
                };
                let bad: Seq<Finding> = if !satisfies(specs, a.predicate, value@) {
                    seq![content_finding(position, name@, a.predicate_source@)]
                } else {
                    seq![]
                };
                renamed + bad
            } else {
                seq![argument_finding(position, n, template, allowed_names(attrs, attrs.len() as int))]
            }
        },
        _ => seq![],
    }
}

/// What the first `n` arguments of `content` report.
pub open spec fn arguments_findings(
    specs: Seq<TemplateSpec>,
    content: Seq<Element>,
    attrs: Seq<Attribute>,
    template: Seq<char>,
    n: int,
) -> Seq<Finding>
    decreases n,
{
    if n <= 0 {
        seq![]
    } else {
        arguments_findings(specs, content, attrs, template, n - 1) + argument_findings(
            specs,
            attrs,
            template,
            content[n - 1],
        )
    }
}

/// What the template rule reports of `root`, given the template table `specs`.
pub open spec fn template_findings(specs: Seq<TemplateSpec>, root: Element) -> Seq<Finding> {
    match root {
        Element::Template { position, name, content } => match name_text(name@) {
            None => seq![invalid_name_finding(position)],
            Some(raw) => {
                let n = normal_name(raw);
                if section_prefix().len() <= n.len() && n.subrange(0, 5) == section_prefix() {
                    if section_ok(n, content@) {
                        seq![]
                    } else {
                        seq![section_finding(position)]
                    }
                } else {
                    match lookup_spec(specs, n) {
                        None => seq![not_allowed_finding(position, n)],
                        Some((i, alias)) => {
                            let attrs = specs[i].attributes@;
                            let canonical = normal_name(specs[i].name@);
                            let renamed: Seq<Finding> = if alias {
                                seq![deprecated_finding(position, n, canonical, LintKind::DeprecatedTemplateName)]
                            } else {
                                seq![]
                            };
                            renamed + attributes_findings(position, content@, attrs, attrs.len() as int)
                                + arguments_findings(specs, content@, attrs, canonical, content@.len() as int)
                        },
                    }
                }
            },
        },
        _ => seq![],
    }
}

/// Relies on str::starts_with with a string pattern: true exactly when `s`
/// begins with `prefix`.
#[verifier::external_body]
fn starts_with(s: &str, prefix: &str) -> (r: bool)
    ensures
        r == (prefix@.len() <= s@.len() && s@.subrange(0, prefix@.len() as int) == prefix@),
{
    s.starts_with(prefix)
}

/// Whether `s` is non-empty and holds no quotation mark.
fn is_fair_name(s: &str) -> (r: bool)
    ensures
        r == fair_name(s@),
{
    let n = s.unicode_len();
    if n == 0 {
        return false;
    }
    let mut i: usize = 0;
    while i < n
        invariant
            n == s@.len(),
            i <= n,
            forall|k: int| 0 <= k < i ==> !is_quote(#[trigger] s@[k]),
        decreases n - i,
    {
        let c = s.get_char(i);
        if c == '"' || c == '\'' || c == '\u{201c}' || c == '\u{201d}' || c == '\u{2018}' || c
            == '\u{2019}' || c == '\u{ab}' || c == '\u{bb}' || c == '\u{201e}' {
            return false;
        }
        i = i + 1;
    }
    true
}

/// Whether a section inclusion names an article and a section in plain text.
fn check_section(n: &str, content: &Vec<Element>) -> (r: bool)
    requires
        5 <= n@.len(),
    ensures
        r == section_ok(n@, content@),
{
    let article = trim(n.substring_char(5, n.unicode_len()));
    if content.len() == 0 {
        return false;
    }
    match &content[0] {
        Element::TemplateArgument { value, .. } => match check_name(value.as_slice()) {
            Some(section) => is_fair_name(section) && is_fair_name(article),
            None => false,
        },
        _ => false,
    }
}

pub const NOT_ALLOWED_TEXT: (&'static str, &'static str) = ("The template ", " is not allowed / specified!");
pub const NOT_ALLOWED_LONG: &'static str = "Only a specific set of templates are allowed for this project. This rule is in place to make sure elements with the same meaning are recognized as such and formatted in the same way. We also do only support some templates in our PDF-Export.";
pub const NOT_ALLOWED_SOLUTION: (&'static str, &'static str) = ("Use another template. Maybe this is just a spelling mistake? You can also contact the main authors so that they add the template ", " to the project specification.");
pub const INVALID_NAME_TEXT: &'static str = "Formatted text is not allowed in template names!";
pub const INVALID_NAME_LONG: &'static str = "Using text markup or even block elements in template names may cause unexpected behaviour and incompatibilities with external tools we use. Good template names are expressive, easy to type and consist of only alphanumerical characters plus _,.,: .";
pub const INVALID_NAME_SOLUTION: &'static str = "Use better template names.";
pub const DEPRECATED_TEXT: (&'static str, &'static str) = ("The name ", " is deprecated!");
pub const DEPRECATED_LONG: &'static str = "For some names, the name they are referred to changes over time. To make the transition easier, old and new names are allowed. However we will drop the support for the old name in the future. Please use the new name.";
pub const DEPRECATED_SOLUTION: (&'static str, &'static str) = ("Use the name ", " instead.");
pub const MISSING_TEXT: (&'static str, &'static str) = ("The template argument ", " is missing but required!");
pub const MISSING_LONG: &'static str = "This template has arguments to tell it what to do. These can be given by named parameters like {{name|argument_name=value}}) and by unnamed parameters as in {{name|value}}. Unnamed arguments are equivalent to just enumerating named arguments: ({{name|1=value}} <=> {{name|value}})";
pub const MISSING_SOLUTION: (&'static str, &'static str) = ("Add a value for the argument ", ".");
pub const CONTENT_TEXT: (&'static str, &'static str) = ("This markup is not allowed in the content of ", ".");
pub const CONTENT_LONG: &'static str = "Some template arguments only allow certain kinds of text in their content. In this case, the allowed values must fulfill the following property: ";
pub const CONTENT_SOLUTION: &'static str = "Take a look at the template specification or contact the main authors to ask for help. Thanks!";
pub const ARGUMENT_TEXT: (&'static str, &'static str) = ("The argument ", " is not allowed for the template ");
pub const ARGUMENT_LONG: &'static str = "The template only allows the following arguments: ";
pub const ARGUMENT_SOLUTION: &'static str = "Only use the allowed template arguments.";
pub const SECTION_TEXT: &'static str = "Article and section name of a section inclusion must be non-empty plain text without quotation marks!";
pub const SECTION_LONG: &'static str = "A section inclusion must be of the format {{#lst:<article name>|<section_name>}} with <article_name> and <section_name> beeing plain text (without quotes!)";
pub const SECTION_SOLUTION: &'static str = "Write article and section name in plain text.";

/// The lint for the template `name` at `position` that the table lacks.
pub open spec fn not_allowed_finding(position: Span, name: Seq<char>) -> Finding {
    finding(
        position,
        quoted(NOT_ALLOWED_TEXT.0@, name, NOT_ALLOWED_TEXT.1@),
        NOT_ALLOWED_LONG@,
        quoted(NOT_ALLOWED_SOLUTION.0@, name, NOT_ALLOWED_SOLUTION.1@),
        Severity::Error,
        LintKind::TemplateNotAllowed,
    )
}

/// The lint for a template at `position` whose name is not plain text.
pub open spec fn invalid_name_finding(position: Span) -> Finding {
    finding(position, INVALID_NAME_TEXT@, INVALID_NAME_LONG@, INVALID_NAME_SOLUTION@, Severity::Error, LintKind::InvalidTemplateName)
}

/// The notice that `used` is a deprecated name for `better`.
pub open spec fn deprecated_finding(position: Span, used: Seq<char>, better: Seq<char>, kind: LintKind) -> Finding {
    finding(
        position,
        quoted(DEPRECATED_TEXT.0@, used, DEPRECATED_TEXT.1@),
        DEPRECATED_LONG@,
        quoted(DEPRECATED_SOLUTION.0@, better, DEPRECATED_SOLUTION.1@),
        Severity::Info,
        kind,
    )
}

/// The lint for the required argument `name` missing from a template at `position`.
pub open spec fn missing_finding(position: Span, name: Seq<char>) -> Finding {
    finding(
        position,
        quoted(MISSING_TEXT.0@, name, MISSING_TEXT.1@),
        MISSING_LONG@,
        quoted(MISSING_SOLUTION.0@, name, MISSING_SOLUTION.1@),
        Severity::Error,
        LintKind::MissingTemplateArgument,
    )
}

/// The lint for argument `name` at `position` whose value fails the
/// predicate described by `predicate`.
pub open spec fn content_finding(position: Span, name: Seq<char>, predicate: Seq<char>) -> Finding {
    finding(
        position,
        quoted(CONTENT_TEXT.0@, name, CONTENT_TEXT.1@),
        CONTENT_LONG@ + predicate,
        CONTENT_SOLUTION@,
        Severity::Error,
        LintKind::IllegalArgumentContent,
    )
}

/// The lint for argument `name` at `position` that template `template`
/// does not have; `allowed` lists the names it has.
pub open spec fn argument_finding(position: Span, name: Seq<char>, template: Seq<char>, allowed: Seq<char>) -> Finding {
    finding(
        position,
        quoted(ARGUMENT_TEXT.0@, name, ARGUMENT_TEXT.1@) + template,
        ARGUMENT_LONG@ + allowed,
        ARGUMENT_SOLUTION@,
        Severity::Warning,
        LintKind::IllegalArgument,
    )
}

/// The lint for a malformed section inclusion at `position`.
pub open spec fn section_finding(position: Span) -> Finding {
    finding(position, SECTION_TEXT@, SECTION_LONG@, SECTION_SOLUTION@, Severity::Error, LintKind::IllegalSectionName)
}

/// The names of the first `n` attributes of `attrs`, separated by commas.
pub open spec fn allowed_names(attrs: Seq<Attribute>, n: int) -> Seq<char>
    decreases n,
{
    if n <= 0 {
        Seq::empty()
    } else if n == 1 {
        attrs[0].name@
    } else {
        allowed_names(attrs, n - 1) + ", "@ + attrs[n - 1].name@
    }
}

fn template_not_allowed(position: Span, name: &str) -> (r: Lint)
    ensures
        r@ == not_allowed_finding(position, name@),
{
    Lint::new(
        position,
        with_quoted(NOT_ALLOWED_TEXT.0, name, NOT_ALLOWED_TEXT.1),
        text(NOT_ALLOWED_LONG),
        with_quoted(NOT_ALLOWED_SOLUTION.0, name, NOT_ALLOWED_SOLUTION.1),
        Severity::Error,
        LintKind::TemplateNotAllowed,
    )
}

fn invalid_template_name(position: Span) -> (r: Lint)
    ensures
        r@ == invalid_name_finding(position),
{
    Lint::new(
        position,
        text(INVALID_NAME_TEXT),
        text(INVALID_NAME_LONG),
        text(INVALID_NAME_SOLUTION),
        Severity::Error,
        LintKind::InvalidTemplateName,
    )
}

fn deprecated_name(position: Span, used: &str, better: &str, kind: LintKind) -> (r: Lint)
    ensures
        r@ == deprecated_finding(position, used@, better@, kind),
{
    Lint::new(
        position,
        with_quoted(DEPRECATED_TEXT.0, used, DEPRECATED_TEXT.1),
        text(DEPRECATED_LONG),
        with_quoted(DEPRECATED_SOLUTION.0, better, DEPRECATED_SOLUTION.1),
        Severity::Info,
        kind,
    )
}

fn missing_argument(position: Span, name: &str) -> (r: Lint)
    ensures
        r@ == missing_finding(position, name@),
{
    Lint::new(
        position,
        with_quoted(MISSING_TEXT.0, name, MISSING_TEXT.1),
        text(MISSING_LONG),
        with_quoted(MISSING_SOLUTION.0, name, MISSING_SOLUTION.1),
        Severity::Error,
        LintKind::MissingTemplateArgument,
    )
}

fn illegal_content(position: Span, argument_name: &str, predicate_text: &str) -> (r: Lint)
    ensures
        r@ == content_finding(position, argument_name@, predicate_text@),
{
    let mut long = text(CONTENT_LONG);
    long.append(predicate_text);
    Lint::new(
        position,
        with_quoted(CONTENT_TEXT.0, argument_name, CONTENT_TEXT.1),
        long,
        text(CONTENT_SOLUTION),
        Severity::Error,
        LintKind::IllegalArgumentContent,
    )
}

fn illegal_argument(position: Span, argument_name: &str, template_name: &str, allowed: &str) -> (r: Lint)
    ensures
        r@ == argument_finding(position, argument_name@, template_name@, allowed@),
{
    let mut explanation = with_quoted(ARGUMENT_TEXT.0, argument_name, ARGUMENT_TEXT.1);
    explanation.append(template_name);
    let mut long = text(ARGUMENT_LONG);
    long.append(allowed);
    Lint::new(position, explanation, long, text(ARGUMENT_SOLUTION), Severity::Warning, LintKind::IllegalArgument)
}

fn illegal_section(position: Span) -> (r: Lint)
    ensures
        r@ == section_finding(position),
{
    Lint::new(
        position,
        text(SECTION_TEXT),
        text(SECTION_LONG),
        text(SECTION_SOLUTION),
        Severity::Error,
        LintKind::IllegalSectionName,
    )
}

impl CheckTemplates {
    /// Pushes the lint for attribute `a` if it is required and missing.
    fn check_attribute(&mut self, position: Span, content: &Vec<Element>, a: &Attribute)
        ensures
            findings(final(self).lints@) == findings(old(self).lints@) + attribute_findings(position, content@, *a),
            extends(final(self).lints@, old(self).lints@),
    {
        let ghost start = self.lints@;
        let mut k: usize = 0;
        while k < content.len()
            invariant
                k <= content@.len(),
                arg_index(content@, *a, 0) == arg_index(content@, *a, k as int),
                self.lints@ == start,
                start == old(self).lints@,
            decreases content@.len() - k,
        {
            if let Element::TemplateArgument { name, .. } = &content[k] {
                let n = normalize_name(name.as_str());
                if attribute_match(a, &n) {
                    assert(arg_index(content@, *a, k as int) == k as int);
                    assert(findings(self.lints@) =~= findings(start) + attribute_findings(position, content@, *a));
                    proof { lemma_extends_refl(start); }
                    return;
                }
            }
            k = k + 1;
        }
        if a.priority == Priority::Required {
            self.lints.push(missing_argument(position, a.name.as_str()));
        }
        assert(findings(self.lints@) =~= findings(start) + attribute_findings(position, content@, *a));
        assert(self.lints@.subrange(0, start.len() as int) =~= start);
    }

    /// Pushes what argument `e` reports in template `name`, whose attributes
    /// are `attrs` and whose allowed names are `allowed`.
    fn check_argument(&mut self, specs: &Vec<TemplateSpec>, attrs: &Vec<Attribute>, name: &str, allowed: &str, e: &Element)
        requires
            allowed@ == allowed_names(attrs@, attrs@.len() as int),
        ensures
            findings(final(self).lints@) == findings(old(self).lints@) + argument_findings(specs@, attrs@, name@, *e),
            extends(final(self).lints@, old(self).lints@),
    {
        let ghost start = self.lints@;
        if let Element::TemplateArgument { position: at, name: arg, value } = e {
            let n = normalize_name(arg.as_str());
            let mut m: usize = 0;
            while m < attrs.len()
                invariant
                    m <= attrs@.len(),
                    n@ == normal_name(arg@),
                    attr_index(attrs@, n@, 0) == attr_index(attrs@, n@, m as int),
                    self.lints@ == start,
                    start == old(self).lints@,
                    *e is TemplateArgument,
                    e->TemplateArgument_name == *arg,
                    e->TemplateArgument_position == *at,
                    e->TemplateArgument_value == *value,
                    allowed@ == allowed_names(attrs@, attrs@.len() as int),
                decreases attrs@.len() - m,
            {
                if attribute_match(&attrs[m], &n) {
                    assert(attr_index(attrs@, n@, m as int) == m as int);
                    let a = &attrs[m];
                    let canonical = normalize_name(a.name.as_str());
                    if !(n == canonical) {
                        self.lints.push(
                            deprecated_name(*at, n.as_str(), canonical.as_str(), LintKind::DeprecatedArgumentName),
                        );
                    }
                    if !test_predicate(specs, a.predicate, value.as_slice()) {
                        self.lints.push(illegal_content(*at, arg.as_str(), a.predicate_source.as_str()));
                    }
                    assert(findings(self.lints@) =~= findings(start) + argument_findings(specs@, attrs@, name@, *e));
                    assert(self.lints@.subrange(0, start.len() as int) =~= start);
                    return;
                }
                m = m + 1;
            }
            self.lints.push(illegal_argument(*at, n.as_str(), name, allowed));
        }
        assert(findings(self.lints@) =~= findings(start) + argument_findings(specs@, attrs@, name@, *e));
        assert(self.lints@.subrange(0, start.len() as int) =~= start);
    }

    /// Pushes what a template at `position` with arguments `content` reports
    /// as template `specs[i]`, whose name in normal form is `name`.
    fn check_arguments(&mut self, specs: &Vec<TemplateSpec>, i: usize, position: Span, content: &Vec<Element>, name: &str)
        requires
            i < specs@.len(),
            name@ == normal_name(specs@[i as int].name@),
        ensures
            extends(final(self).lints@, old(self).lints@),
            findings(final(self).lints@) == findings(old(self).lints@) + attributes_findings(
                position,
                content@,
                specs@[i as int].attributes@,
                specs@[i as int].attributes@.len() as int,
            ) + arguments_findings(specs@, content@, specs@[i as int].attributes@, name@, content@.len() as int),
    {
        let ghost l0 = findings(self.lints@);
        let ghost start = self.lints@;
        proof { lemma_extends_refl(start); }
        let attrs = &specs[i].attributes;
        let mut j: usize = 0;
        while j < attrs.len()
            invariant
                j <= attrs@.len(),
                attrs == &specs@[i as int].attributes,
                findings(self.lints@) == l0 + attributes_findings(position, content@, attrs@, j as int),
                extends(self.lints@, start),
            decreases attrs@.len() - j,
        {
            let ghost mid = self.lints@;
            self.check_attribute(position, content, &attrs[j]);
            proof { lemma_extends_trans(self.lints@, mid, start); }
            j = j + 1;
        }
        let ghost l1 = findings(self.lints@);
        let mut allowed = String::new();
        let mut q: usize = 0;
        while q < attrs.len()
            invariant
                q <= attrs@.len(),
                allowed@ == allowed_names(attrs@, q as int),
            decreases attrs@.len() - q,
        {
            if q > 0 {
                allowed.append(", ");
            } else {
                assert(allowed@ =~= Seq::<char>::empty());
            }
            allowed.append(attrs[q].name.as_str());
            assert(allowed@ =~= allowed_names(attrs@, q + 1));
            q = q + 1;
        }
        let mut k: usize = 0;
        while k < content.len()
            invariant
                k <= content@.len(),
                attrs == &specs@[i as int].attributes,
                findings(self.lints@) == l1 + arguments_findings(specs@, content@, attrs@, name@, k as int),
                extends(self.lints@, start),
                allowed@ == allowed_names(attrs@, attrs@.len() as int),
            decreases content@.len() - k,
        {
            let ghost mid = self.lints@;
            self.check_argument(specs, attrs, name, allowed.as_str(), &content[k]);
            proof { lemma_extends_trans(self.lints@, mid, start); }
            assert(findings(self.lints@) =~= l1 + arguments_findings(specs@, content@, attrs@, name@, k + 1));
            k = k + 1;
        }
    }

    /// A rule with no lints yet.
    pub fn new() -> (r: CheckTemplates)
        ensures
            r.lints@.len() == 0,
    {
        CheckTemplates {
            lints: Vec::new(),
            examples: vec![
                Example::new(
                    "unknown_template",
                    "{{unknown_template|arg1}}",
                    "The template `unknown template` is not allowed or specified for this project.",
                    "{{Formel|<math>1+1=2</math>}}",
                    "The {{Formel|...}} template exists and is used properly.",
                    LintKind::TemplateNotAllowed,
                ),
                Example::new(
                    "formatted_template_name",
                    "{{template-{{foo}}|arg}}",
                    "This template's name contains a template, which can lead to problems with other tools.",
                    "{{Formel|<math>x^2</math>}}",
                    "To ensure compatibility, only use alphanumeric characters plus _,.,: and white spaces.",
                    LintKind::InvalidTemplateName,
                ),
                Example::new(
                    "deprecated_template_name",
                    "{{Hinweis|Important remark}}",
                    "This template used to be called `Hinweis`. However we use the template {{:Mathe für Nicht-Freaks: Vorlage:Hinweis|...}} in this project since we have a personalized formating for it.",
                    "{{:Mathe für Nicht-Freaks: Vorlage:Hinweis|Important remark}}",
                    "Our naming conventions are used.",
                    LintKind::DeprecatedTemplateName,
                ),
                Example::new(
                    "deprecated_arg_name",
                    "{{Formel|formel=<math>x^2</math>}}",
                    "Calling this template with a named argument is unecessarily verbose.",
                    "{{Formel|<math>x^2</math>}}",
                    "The template is called with unnamed parameters.",
                    LintKind::DeprecatedArgumentName,
                ),
                Example::new(
                    "missing_arg",
                    "{{Formel}}",
                    "The {{Formel|...}} template needs a parameter for the formula.",
                    "{{Formel|<math>x^2</math>}}",
                    "The required unnamed argument \"1\" with the formula is given.",
                    LintKind::MissingTemplateArgument,
                ),
                Example::new(
                    "illegal_argument_greeting",
                    "{{Formel|<math>x^2</math>|greeting=This is just normal text.}}",
                    "The formula template is called with wrong arguments, `greeting` is no valid parameter for the formula template.",
                    "{{Formel|<math>x^2</math>}}",
                    "The invalid parameter was deleted.",
                    LintKind::IllegalArgument,
                ),
                Example::new(
                    "illegal_formula_content",
                    "{{Formel|<math>x^2</math> and <math>b^2</math>}}",
                    "A formula template must be given only a math element.",
                    "{{Formel|<math>x^2 \\text{ and } b^2</math>}}",
                    "The formula template only contains a math element.",
                    LintKind::IllegalArgumentContent,
                ),
                Example::new(
                    "illegal_section_name",
                    "{{#lst:Mathe für Nicht-Freaks: Example|\"section name\"}}",
                    "The name of an included section is enclosed in \" or '.",
                    "{{#lst:Mathe für Nicht-Freaks: Example|section name}}",
                    "The section name is written in plain text.",
                    LintKind::IllegalSectionName,
                ),
            ],
        }
    }

    /// The rule's name and description.
    pub fn meta(&self) -> (r: RuleMeta)
        ensures
            r.name@ == "CheckTemplates"@,
            r.description@ == "Checks for the correct use of templates."@,
    {
        RuleMeta { name: text("CheckTemplates"), description: text("Checks for the correct use of templates.") }
    }

    /// The examples of what this rule reports.
    pub fn examples(&self) -> (r: &Vec<Example>)
        ensures
            r == &self.examples,
    {
        &self.examples
    }
}

impl Rule for CheckTemplates {
    open spec fn lint_list(&self) -> Seq<Lint> {
        self.lints@
    }

    open spec fn node_findings(settings: Settings, path: Seq<Element>, root: Element) -> Seq<Finding> {
        template_findings(settings.template_spec@, root)
    }

    open spec fn descends(settings: Settings, path: Seq<Element>, root: Element) -> bool {
        true
    }

    fn work(&mut self, root: &Element, settings: &Settings, path: &Vec<&Element>) -> (cont: bool) {
        let ghost l0 = findings(self.lints@);
        let ghost start = self.lints@;
        let specs = &settings.template_spec;
        if let Element::Template { position, name, content } = root {
            match check_name(name.as_slice()) {
                None => {
                    self.lints.push(invalid_template_name(*position));
                },
                Some(raw) => {
                    let n = normalize_name(raw);
                    proof { reveal_strlit("#lst:"); }
                    assert("#lst:"@ =~= section_prefix());
                    if starts_with(n.as_str(), "#lst:") {
                        if !check_section(n.as_str(), content) {
                            self.lints.push(illegal_section(*position));
                        }
                    } else {
                        match spec_of(specs, &n) {
                            None => {
                                self.lints.push(template_not_allowed(*position, n.as_str()));
                            },
                            Some((i, alias)) => {
                                let canonical = normalize_name(specs[i].name.as_str());
                                if alias {
                                    self.lints.push(
                                        deprecated_name(*position, n.as_str(), canonical.as_str(), LintKind::DeprecatedTemplateName),
                                    );
                                }
                                let ghost mid = self.lints@;
                                assert(self.lints@.subrange(0, start.len() as int) =~= start);
                                self.check_arguments(specs, i, *position, content, canonical.as_str());
                                proof { lemma_extends_trans(self.lints@, mid, start); }
                            },
                        }
                    }
                },
            }
        }
        assert(findings(self.lints@) =~= l0 + template_findings(specs@, *root));
        assert(self.lints@.subrange(0, start.len() as int) =~= start);
        true
    }

    fn lints(&self) -> (r: &Vec<Lint>) {
        &self.lints
    }
}

/// Whether the normalized name `n` begins a section inclusion.
pub open spec fn names_section(n: Seq<char>) -> bool {
    section_prefix().len() <= n.len() && n.subrange(0, 5) == section_prefix()
}

/// Calling a template by an alias instead of its canonical name, with the
/// same arguments, adds exactly one deprecation notice at the template and
/// changes nothing else.
pub proof fn lemma_alias_adds_notice(
    specs: Seq<TemplateSpec>,
    canonical: Element,
    aliased: Element,
    c: Seq<char>,
    a: Seq<char>,
    i: int,
)
    requires
        canonical is Template,
        aliased is Template,
        canonical->Template_position == aliased->Template_position,
        canonical->Template_content == aliased->Template_content,
        name_text(canonical->Template_name@) == Some(c),
        name_text(aliased->Template_name@) == Some(a),
        lookup_spec(specs, normal_name(c)) == Some((i, false)),
        lookup_spec(specs, normal_name(a)) == Some((i, true)),
        !names_section(normal_name(c)),
        !names_section(normal_name(a)),
    ensures
        template_findings(specs, aliased) == seq![
            deprecated_finding(
                canonical->Template_position,
                normal_name(a),
                normal_name(specs[i].name@),
                LintKind::DeprecatedTemplateName,
            ),
        ] + template_findings(specs, canonical),
{
    let pos = canonical->Template_position;
    let content = canonical->Template_content;
    let attrs = specs[i].attributes@;
    let rest = attributes_findings(pos, content@, attrs, attrs.len() as int) + arguments_findings(
        specs,
        content@,
        attrs,
        normal_name(specs[i].name@),
        content@.len() as int,
    );
    assert(template_findings(specs, canonical) =~= Seq::<Finding>::empty() + rest);
    assert(template_findings(specs, aliased) =~= seq![
        deprecated_finding(pos, normal_name(a), normal_name(specs[i].name@), LintKind::DeprecatedTemplateName),
    ] + rest);
}

/// Whether `content` gives exactly the required attributes of `attrs`, each
/// argument under its attribute's canonical name and with a value that
/// satisfies its predicate.
pub open spec fn exactly_required(specs: Seq<TemplateSpec>, content: Seq<Element>, attrs: Seq<Attribute>) -> bool {
    &&& forall|j: int|
        0 <= j < attrs.len() && #[trigger] attrs[j].priority == Priority::Required ==> arg_index(
            content,
            attrs[j],
            0,
        ) >= 0
    &&& forall|j: int|
        0 <= j < attrs.len() && #[trigger] attrs[j].priority == Priority::Optional ==> arg_index(
            content,
            attrs[j],
            0,
        ) < 0
    &&& forall|k: int|
        0 <= k < content.len() && #[trigger] content[k] is TemplateArgument ==> ({
            let n = normal_name(content[k]->TemplateArgument_name@);
            let j = attr_index(attrs, n, 0);
            j >= 0 && n == normal_name(attrs[j].name@) && satisfies(
                specs,
                attrs[j].predicate,
                content[k]->TemplateArgument_value@,
            )
        })
}

proof fn lemma_attributes_quiet(specs: Seq<TemplateSpec>, position: Span, content: Seq<Element>, attrs: Seq<Attribute>, n: int)
    requires
        n <= attrs.len(),
        exactly_required(specs, content, attrs),
    ensures
        attributes_findings(position, content, attrs, n) == Seq::<Finding>::empty(),
    decreases n,
{
    if n > 0 {
        lemma_attributes_quiet(specs, position, content, attrs, n - 1);
        if attrs[n - 1].priority == Priority::Required {
            assert(arg_index(content, attrs[n - 1], 0) >= 0);
        }
        assert(attributes_findings(position, content, attrs, n) =~= Seq::<Finding>::empty());
    }
}

proof fn lemma_arguments_quiet(specs: Seq<TemplateSpec>, content: Seq<Element>, attrs: Seq<Attribute>, template: Seq<char>, n: int)
    requires
        n <= content.len(),
        exactly_required(specs, content, attrs),
    ensures
        arguments_findings(specs, content, attrs, template, n) == Seq::<Finding>::empty(),
    decreases n,
{
    if n > 0 {
        lemma_arguments_quiet(specs, content, attrs, template, n - 1);
        if content[n - 1] is TemplateArgument {
            assert(content[n - 1] is TemplateArgument);
        }
        assert(argument_findings(specs, attrs, template, content[n - 1]) =~= Seq::<Finding>::empty());
        assert(arguments_findings(specs, content, attrs, template, n) =~= Seq::<Finding>::empty());
    }
}

/// A template called by its canonical name with exactly its required
/// attributes, each under its canonical name and satisfying its predicate,
/// gets no lints.
pub proof fn lemma_well_formed_call_quiet(specs: Seq<TemplateSpec>, t: Element, c: Seq<char>, i: int)
    requires
        t is Template,
        name_text(t->Template_name@) == Some(c),
        lookup_spec(specs, normal_name(c)) == Some((i, false)),
        !names_section(normal_name(c)),
        exactly_required(specs, t->Template_content@, specs[i].attributes@),
    ensures
        template_findings(specs, t) == Seq::<Finding>::empty(),
{
    let content = t->Template_content@;
    let attrs = specs[i].attributes@;
    lemma_attributes_quiet(specs, t->Template_position, content, attrs, attrs.len() as int);
    lemma_arguments_quiet(specs, content, attrs, normal_name(specs[i].name@), content.len() as int);
    assert(template_findings(specs, t) =~= Seq::<Finding>::empty());
}

} // verus!
