use mwlint::template_spec::{check_name, default_spec, is_math_tag, Predicate, TreeChecker};
use mwlint::{
    get_examples, get_rules, parse_response, pending_formulas, run_all, term_to_def, CachedTexChecker, CheckFormulas,
    CheckHeadings, CheckHtml, CheckLists, CheckTemplates, Checkable, Element, Lint, LintKind,
    ListItemKind, MarkupType, Position, Rule, Settings, Severity, Span, TexResult,
};

fn at(line: usize) -> Span {
    Span {
        start: Position { offset: line * 10, line, col: 1 },
        end: Position { offset: line * 10 + 5, line, col: 6 },
    }
}

fn text(s: &str, line: usize) -> Element {
    Element::Text { position: at(line), text: s.to_string() }
}

fn heading(depth: usize, line: usize, content: Vec<Element>) -> Element {
    Element::Heading { position: at(line), depth, caption: vec![text("caption", line)], content }
}

fn doc(content: Vec<Element>) -> Element {
    Element::Document { position: at(0), content }
}

fn item(kind: ListItemKind, line: usize) -> Element {
    Element::ListItem { position: at(line), depth: 1, kind, content: vec![text("item", line)] }
}

fn list(line: usize, content: Vec<Element>) -> Element {
    Element::List { position: at(line), content }
}

fn math(formula: &str, line: usize) -> Element {
    Element::Formatted { position: at(line), markup: MarkupType::Math, content: vec![text(formula, line)] }
}

fn arg(name: &str, line: usize, value: Vec<Element>) -> Element {
    Element::TemplateArgument { position: at(line), name: name.to_string(), value }
}

fn template(name: &str, line: usize, content: Vec<Element>) -> Element {
    Element::Template { position: at(line), name: vec![text(name, line)], content }
}

fn kinds(lints: &[Lint]) -> Vec<LintKind> {
    lints.iter().map(|l| l.kind).collect()
}

fn headings(root: &Element, settings: &Settings) -> Vec<Lint> {
    let mut rule = CheckHeadings::new();
    root.check(&mut rule, settings);
    rule.lints().clone()
}

fn lists(root: &Element) -> Vec<Lint> {
    let mut rule = CheckLists::new();
    root.check(&mut rule, &Settings::default());
    rule.lints().clone()
}

fn templates(root: &Element) -> Vec<Lint> {
    let mut rule = CheckTemplates::new();
    root.check(&mut rule, &Settings::default());
    rule.lints().clone()
}

fn formulas(root: &Element, settings: &Settings) -> (Vec<Lint>, Vec<String>) {
    let mut rule = CheckFormulas::new();
    root.check(&mut rule, settings);
    (rule.lints().clone(), pending_formulas(root, settings))
}

fn html(root: &Element) -> Vec<Lint> {
    let mut rule = CheckHtml::new();
    root.check(&mut rule, &Settings::default());
    rule.lints().clone()
}

#[test]
fn single_heading_too_deep() {
    let settings = Settings::default();
    let root = doc(vec![heading(2, 1, vec![heading(3, 2, vec![heading(4, 3, vec![heading(5, 4, vec![])])])])]);
    let lints = headings(&root, &settings);
    assert_eq!(kinds(&lints), vec![LintKind::MaxHeadingDepthViolation]);
    assert_eq!(lints[0].position, at(4));
    assert_eq!(lints[0].severity, Severity::Warning);
}

#[test]
fn ordered_headings_are_quiet() {
    let settings = Settings::default();
    let root = doc(vec![
        heading(1, 1, vec![heading(2, 2, vec![heading(3, 3, vec![])]), heading(2, 4, vec![])]),
        heading(3, 5, vec![heading(4, 6, vec![])]),
    ]);
    assert!(headings(&root, &settings).is_empty());
}

#[test]
fn heading_two_levels_below_parent() {
    let settings = Settings::default();
    let root = doc(vec![heading(2, 1, vec![heading(4, 2, vec![])])]);
    let lints = headings(&root, &settings);
    assert_eq!(kinds(&lints), vec![LintKind::InconsistentHeadingHierarchy]);
    assert_eq!(lints[0].position, at(2));
    assert_eq!(lints[0].solution, "Reduce depth of this heading by 1.");
}

#[test]
fn only_nearest_heading_counts() {
    let settings = Settings::default();
    let root = doc(vec![heading(1, 1, vec![heading(3, 2, vec![heading(4, 3, vec![])])])]);
    let lints = headings(&root, &settings);
    assert_eq!(kinds(&lints), vec![LintKind::InconsistentHeadingHierarchy]);
    assert_eq!(lints[0].position, at(2));
}

#[test]
fn max_depth_message_names_the_limit() {
    let mut settings = Settings::default();
    settings.max_heading_depth = 2;
    let lints = headings(&doc(vec![heading(3, 1, vec![])]), &settings);
    assert_eq!(lints[0].explanation, "A heading should not be deeper than level 2!");
}

#[test]
fn two_terms_without_definitions() {
    let root = doc(vec![list(1, vec![item(ListItemKind::DefinitionTerm, 1), item(ListItemKind::DefinitionTerm, 2)])]);
    let lints = lists(&root);
    assert_eq!(kinds(&lints), vec![LintKind::DefinitionTermWithoutDef, LintKind::DefinitionTermWithoutDef]);
    assert_eq!(lints[0].position, at(1));
    assert_eq!(lints[1].position, at(1));
}

#[test]
fn term_with_definition_is_quiet() {
    let root = doc(vec![list(1, vec![item(ListItemKind::DefinitionTerm, 1), item(ListItemKind::Definition, 2)])]);
    assert!(lists(&root).is_empty());
}

#[test]
fn mixed_list_third_item() {
    let root = doc(vec![list(
        1,
        vec![item(ListItemKind::Unordered, 1), item(ListItemKind::Unordered, 2), item(ListItemKind::Ordered, 3)],
    )]);
    let lints = lists(&root);
    assert_eq!(kinds(&lints), vec![LintKind::ListMixedType]);
    assert_eq!(lints[0].position, at(3));
    assert_eq!(lints[0].severity, Severity::Error);
}

#[test]
fn single_item_list() {
    let lints = lists(&doc(vec![list(7, vec![item(ListItemKind::Unordered, 7)])]));
    assert_eq!(kinds(&lints), vec![LintKind::ListOneElement]);
    assert_eq!(lints[0].severity, Severity::Info);
    assert_eq!(lints[0].position, at(7));
}

#[test]
fn definitions_without_term() {
    let root = doc(vec![list(
        1,
        vec![item(ListItemKind::DefinitionTerm, 1), item(ListItemKind::Definition, 2), item(ListItemKind::Definition, 3)],
    )]);
    let lints = lists(&root);
    assert_eq!(kinds(&lints), vec![LintKind::DefinitionWithoutTerm]);
    assert_eq!(lints[0].position, at(3));
}

#[test]
fn list_with_foreign_content() {
    let root = doc(vec![list(1, vec![item(ListItemKind::Unordered, 1), text("stray", 2)])]);
    let lints = lists(&root);
    assert_eq!(kinds(&lints), vec![LintKind::IllegalListContent]);
    assert_eq!(lints[0].position, at(2));
}

#[test]
fn factored_kinds() {
    assert_eq!(term_to_def(&ListItemKind::DefinitionTerm), ListItemKind::Definition);
    assert_eq!(term_to_def(&ListItemKind::Definition), ListItemKind::Definition);
    assert_eq!(term_to_def(&ListItemKind::Ordered), ListItemKind::Ordered);
    assert_eq!(term_to_def(&ListItemKind::Unordered), ListItemKind::Unordered);
}

#[test]
fn html_outside_whitelist() {
    let tag = |name: &str, line: usize| Element::HtmlTag {
        position: at(line),
        name: name.to_string(),
        attributes: vec![],
        content: vec![],
    };
    let lints = html(&doc(vec![tag("big", 1), tag("  Section ", 2), tag("REF", 3)]));
    assert_eq!(kinds(&lints), vec![LintKind::IllegalHtml]);
    assert_eq!(lints[0].position, at(1));
    assert_eq!(lints[0].explanation, "\"big\" is not allowed for this project.");
}

#[test]
fn deprecated_arrows() {
    let (lints, pending) = formulas(&doc(vec![math("A\\Rightarrow B", 1), math("A\\Leftrightarrow B", 2)]), &Settings::default());
    assert_eq!(kinds(&lints), vec![LintKind::DeprecatedRightarrow, LintKind::DeprecatedLeftrightarrow]);
    assert_eq!(lints[1].position, at(2));
    assert!(pending.is_empty());
}

#[test]
fn formula_verdicts_become_lints() {
    let mut checker = CachedTexChecker::new(10);
    checker.record("\\frac{1}{2", "S");
    checker.record("\\[ x \\]", "E\n");
    checker.record("\\badfrac{1}{2}", "Fbadfrac");
    checker.record("x^2", "+x^2");
    checker.record("crash", "");
    let mut settings = Settings::default();
    settings.tex_checker = Some(checker);
    let root = doc(vec![
        math("\\frac{1}{2", 1),
        math("\\[ x \\]", 2),
        math("\\badfrac{1}{2}", 3),
        math("x^2", 4),
        math("crash", 5),
        math("unseen", 6),
    ]);
    let (lints, pending) = formulas(&root, &settings);
    assert_eq!(
        kinds(&lints),
        vec![LintKind::MathSyntaxError, LintKind::MathLexingError, LintKind::MathUnknownFunction, LintKind::MathUnknownFunction]
    );
    assert_eq!(lints[2].position, at(3));
    assert!(lints[2].explanation.contains("\"badfrac\""));
    assert_eq!(lints[3].explanation, "An unknown error occured with this formula.");
    assert_eq!(pending, vec!["unseen".to_string()]);
}

#[test]
fn non_math_markup_is_ignored() {
    let bold = Element::Formatted { position: at(1), markup: MarkupType::Bold, content: vec![text("A\\Rightarrow B", 1)] };
    let (lints, _) = formulas(&doc(vec![bold]), &Settings::default());
    assert!(lints.is_empty());
}

#[test]
fn validator_output_is_classified() {
    assert_eq!(parse_response("+a+b"), TexResult::Accepted("a+b".to_string()));
    assert_eq!(parse_response("S"), TexResult::SyntaxError);
    assert_eq!(parse_response("E"), TexResult::LexingError);
    assert_eq!(parse_response("Fbadfrac\n"), TexResult::UnknownFunction("badfrac".to_string()));
    assert_eq!(parse_response("-"), TexResult::UnknownError);
    assert_eq!(parse_response(""), TexResult::UnknownError);
    assert_eq!(parse_response("?"), TexResult::UnknownError);
}

#[test]
fn cache_answers_second_check() {
    let mut checker = CachedTexChecker::new(4);
    assert_eq!(checker.lookup("x^2"), None);
    let first = checker.record("x^2", "+x^2");
    let second = checker.lookup("x^2");
    assert_eq!(second, Some(first.clone()));
    assert_eq!(checker.lookup("x^2"), Some(first));
}

#[test]
fn cache_evicts_least_recently_used() {
    let mut checker = CachedTexChecker::new(2);
    checker.record("a", "+a");
    checker.record("b", "S");
    assert_eq!(checker.lookup("a"), Some(TexResult::Accepted("a".to_string())));
    checker.record("c", "E");
    assert_eq!(checker.peek("b"), None);
    assert_eq!(checker.peek("a"), Some(TexResult::Accepted("a".to_string())));
    assert_eq!(checker.peek("c"), Some(TexResult::LexingError));
}

#[test]
fn cache_of_no_capacity_holds_nothing() {
    let mut checker = CachedTexChecker::new(0);
    assert_eq!(checker.record("a", "S"), TexResult::SyntaxError);
    assert_eq!(checker.lookup("a"), None);
}

#[test]
fn canonical_template_is_quiet() {
    let root = doc(vec![template("formula", 1, vec![arg("1", 1, vec![math("x^2", 1)])])]);
    assert!(templates(&root).is_empty());
}

#[test]
fn aliased_template_name() {
    let root = doc(vec![template("Formel", 1, vec![arg("1", 1, vec![math("x^2", 1)])])]);
    let lints = templates(&root);
    assert_eq!(kinds(&lints), vec![LintKind::DeprecatedTemplateName]);
    assert_eq!(lints[0].severity, Severity::Info);
    assert_eq!(lints[0].position, at(1));
}

#[test]
fn template_not_in_table() {
    let lints = templates(&doc(vec![template("unknown_template", 2, vec![arg("1", 2, vec![text("arg1", 2)])])]));
    assert_eq!(kinds(&lints), vec![LintKind::TemplateNotAllowed]);
    assert_eq!(lints[0].position, at(2));
}

#[test]
fn formatted_template_name() {
    let name = vec![text("template-", 1), template("foo", 1, vec![])];
    let root = doc(vec![Element::Template { position: at(1), name, content: vec![] }]);
    let lints = templates(&root);
    assert_eq!(lints[0].kind, LintKind::InvalidTemplateName);
    assert_eq!(lints[0].position, at(1));
}

#[test]
fn required_argument_missing() {
    let lints = templates(&doc(vec![template("formula", 1, vec![])]));
    assert_eq!(kinds(&lints), vec![LintKind::MissingTemplateArgument]);
}

#[test]
fn argument_by_alias() {
    let lints = templates(&doc(vec![template("formula", 1, vec![arg("formel", 2, vec![math("x^2", 2)])])]));
    assert_eq!(kinds(&lints), vec![LintKind::DeprecatedArgumentName]);
    assert_eq!(lints[0].position, at(2));
}

#[test]
fn unknown_argument() {
    let root = doc(vec![template(
        "formula",
        1,
        vec![arg("1", 1, vec![math("x^2", 1)]), arg("greeting", 2, vec![text("This is just normal text.", 2)])],
    )]);
    let lints = templates(&root);
    assert_eq!(kinds(&lints), vec![LintKind::IllegalArgument]);
    assert_eq!(lints[0].severity, Severity::Warning);
    assert_eq!(lints[0].position, at(2));
}

#[test]
fn formula_argument_with_more_than_math() {
    let value = vec![math("x^2", 1), text(" and ", 1), math("b^2", 1)];
    let lints = templates(&doc(vec![template("formula", 1, vec![arg("1", 3, value)])]));
    assert_eq!(kinds(&lints), vec![LintKind::IllegalArgumentContent]);
    assert_eq!(lints[0].position, at(3));
}

#[test]
fn text_only_argument_rejects_blocks() {
    let value = vec![Element::Paragraph { position: at(2), content: vec![heading(2, 2, vec![])] }];
    let lints = templates(&doc(vec![template("important", 1, vec![arg("1", 2, value)])]));
    assert_eq!(kinds(&lints), vec![LintKind::IllegalArgumentContent]);
    let inline = vec![text("see ", 2), template("formula", 2, vec![arg("1", 2, vec![math("x", 2)])])];
    let lints = templates(&doc(vec![template("-", 1, vec![arg("1", 2, inline)])]));
    assert_eq!(kinds(&lints), vec![LintKind::DeprecatedTemplateName]);
}

#[test]
fn quoted_section_name() {
    let bad = doc(vec![template("#lst:Mathe für Nicht-Freaks: Example", 1, vec![arg("1", 1, vec![text("\"section name\"", 1)])])]);
    assert_eq!(kinds(&templates(&bad)), vec![LintKind::IllegalSectionName]);
    let good = doc(vec![template("#lst:Mathe für Nicht-Freaks: Example", 1, vec![arg("1", 1, vec![text("section name", 1)])])]);
    assert!(templates(&good).is_empty());
    let empty = doc(vec![template("#lst:   ", 1, vec![arg("1", 1, vec![text("section", 1)])])]);
    assert_eq!(kinds(&templates(&empty)), vec![LintKind::IllegalSectionName]);
}

#[test]
fn default_template_table() {
    let table = default_spec();
    let names: Vec<&str> = table.iter().map(|t| t.name.as_str()).collect();
    assert_eq!(
        names,
        vec!["formula", "important", "definition", "theorem", "example", ":Mathe für Nicht-Freaks: Vorlage:Hinweis"]
    );
    assert_eq!(table[0].attributes[0].predicate, Predicate::IsMathTag);
}

#[test]
fn plain_text_names() {
    let para = vec![Element::Paragraph { position: at(1), content: vec![text("name", 1)] }];
    assert_eq!(check_name(&para), Some("name"));
    assert_eq!(check_name(&[text("a", 1), text("b", 1)]), None);
    assert_eq!(check_name(&[math("x", 1)]), None);
}

#[test]
fn subtree_predicates() {
    let table = default_spec();
    let value = vec![Element::Paragraph { position: at(1), content: vec![math("x", 1)] }];
    assert!(!is_math_tag(&value));
    assert!(TreeChecker::min_one(&table, &value, Predicate::IsMathTag));
    assert!(!TreeChecker::never(&table, &value, Predicate::IsMathTag));
    assert!(TreeChecker::all(&table, &value, Predicate::IsTextOnlyParagraph));
    assert!(TreeChecker::never(&table, &[text("plain", 1)], Predicate::IsMathTag));
}

#[test]
fn registry_lists_all_rules() {
    let rules = get_rules();
    let names: Vec<String> = rules.iter().map(|r| r.meta().name).collect();
    assert_eq!(names, vec!["CheckHeadings", "CheckLists", "CheckTemplates", "CheckFormulas", "CheckHtml"]);
    let examples = get_examples(&rules, LintKind::ListMixedType);
    let names: Vec<&str> = examples.iter().map(|e| e.name.as_str()).collect();
    assert_eq!(names, vec!["mixed_list", "mixed_sublist"]);
    assert_eq!(get_examples(&rules, LintKind::IllegalListContent).len(), 0);
}

#[test]
fn default_settings() {
    let settings = Settings::default();
    assert_eq!(settings.max_heading_depth, 4);
    assert_eq!(settings.html_whitelist, vec!["section".to_string(), "dfn".to_string(), "ref".to_string()]);
    assert!(settings.tex_checker.is_none());
    assert_eq!(settings.template_spec.len(), 6);
}

#[test]
fn every_rule_finishes_on_odd_trees() {
    let odd = doc(vec![
        list(1, vec![text("x", 1), heading(9, 1, vec![list(2, vec![])])]),
        Element::InternalReference {
            position: at(3),
            target: vec![template("", 3, vec![])],
            options: vec![vec![list(3, vec![item(ListItemKind::Definition, 3)])], vec![]],
            caption: vec![Element::HtmlTag { position: at(3), name: String::new(), attributes: vec![], content: vec![] }],
        },
        Element::Table {
            position: at(4),
            attributes: vec![],
            caption: vec![math("", 4)],
            caption_attributes: vec![],
            rows: vec![Element::TableRow {
                position: at(4),
                attributes: vec![],
                cells: vec![Element::TableCell { position: at(4), header: true, attributes: vec![], content: vec![heading(1, 4, vec![])] }],
            }],
        },
        Element::Comment { position: at(5), text: "c".to_string() },
        Element::Error { position: at(6), message: "e".to_string() },
        template("#lst:", 7, vec![]),
    ]);
    let mut settings = Settings::default();
    settings.tex_checker = Some(CachedTexChecker::new(1));
    let mut total = 0;
    for mut rule in get_rules() {
        rule.run(&odd, &settings);
        total += rule.lints().len();
    }
    assert!(total > 0);
}

#[test]
fn runner_merges_rules_in_order() {
    let root = doc(vec![
        Element::HtmlTag { position: at(1), name: "big".to_string(), attributes: vec![], content: vec![] },
        heading(6, 2, vec![]),
        list(3, vec![item(ListItemKind::Ordered, 3)]),
        template("nope", 4, vec![]),
    ]);
    let lints = run_all(&root, &Settings::default());
    assert_eq!(
        kinds(&lints),
        vec![LintKind::MaxHeadingDepthViolation, LintKind::ListOneElement, LintKind::TemplateNotAllowed, LintKind::IllegalHtml]
    );
}

#[test]
fn unknown_argument_lists_allowed_names() {
    let root = doc(vec![template("definition", 1, vec![
        arg("title", 1, vec![text("T", 1)]),
        arg("definition", 1, vec![text("D", 1)]),
        arg("extra", 2, vec![text("x", 2)]),
    ])]);
    let lints = templates(&root);
    assert_eq!(kinds(&lints), vec![LintKind::IllegalArgument]);
    assert!(lints[0].explanation_long.contains("title, definition"));
}

#[test]
fn cache_check_asks_once() {
    let mut checker = CachedTexChecker::new(3);
    let mut asked = 0;
    let (first, was_asked) = checker.check("x^", || {
        asked += 1;
        "S".to_string()
    });
    assert!(was_asked);
    let (second, again) = checker.check("x^", || {
        asked += 1;
        "+x".to_string()
    });
    assert!(!again);
    assert_eq!(asked, 1);
    assert_eq!(first, second);
    assert_eq!(first, TexResult::SyntaxError);
}

#[test]
fn unreachable_validator_gives_unknown_error() {
    let mut checker = CachedTexChecker::new(3);
    let (verdict, _) = checker.check("x", String::new);
    assert_eq!(verdict, TexResult::UnknownError);
    let mut settings = Settings::default();
    settings.tex_checker = Some(checker);
    let (lints, pending) = formulas(&doc(vec![math("x", 1)]), &settings);
    assert_eq!(kinds(&lints), vec![LintKind::MathUnknownFunction]);
    assert_eq!(lints[0].explanation, "An unknown error occured with this formula.");
    assert!(pending.is_empty());
}

#[test]
fn formulas_without_checker_are_not_pending() {
    let (_, pending) = formulas(&doc(vec![math("x", 1)]), &Settings::default());
    assert!(pending.is_empty());
}

#[test]
fn lint_texts_carry_details() {
    let settings = Settings::default();
    let lints = headings(&doc(vec![heading(2, 1, vec![heading(5, 2, vec![])])]), &settings);
    assert_eq!(lints[0].explanation, "A heading should not be deeper than level 4!");
    assert!(lints[0].explanation_long.ends_with("the maximum heading level is 4."));
    assert_eq!(lints[1].solution, "Reduce depth of this heading by 2.");
    let lints = templates(&doc(vec![template("Unknown", 1, vec![])]));
    assert_eq!(lints[0].explanation, "The template \"unknown\" is not allowed / specified!");
    let lints = templates(&doc(vec![template("formel", 1, vec![arg("1", 1, vec![math("x", 1)])])]));
    assert_eq!(lints[0].solution, "Use the name \"formula\" instead.");
    let lints = templates(&doc(vec![template("formula", 1, vec![])]));
    assert_eq!(lints[0].explanation, "The template argument \"1\" is missing but required!");
    let value = vec![text("plain", 1)];
    let lints = templates(&doc(vec![template("formula", 1, vec![arg("1", 1, value)])]));
    assert!(lints[0].explanation_long.ends_with("is_math_tag"));
}

#[test]
fn rule_meta_names() {
    let rules = get_rules();
    assert_eq!(rules[0].meta().description, "Checks for erroneous headings.");
    assert_eq!(rules[4].meta().name, "CheckHtml");
}

#[test]
fn old_remark_name_is_deprecated() {
    let bad = doc(vec![template("Hinweis", 1, vec![arg("1", 1, vec![text("Important remark", 1)])])]);
    let lints = templates(&bad);
    assert_eq!(kinds(&lints), vec![LintKind::DeprecatedTemplateName]);
    assert_eq!(lints[0].solution, "Use the name \":mathe für nicht-freaks: vorlage:hinweis\" instead.");
    let good = doc(vec![template(
        ":Mathe für Nicht-Freaks: Vorlage:Hinweis",
        1,
        vec![arg("1", 1, vec![text("Important remark", 1)])],
    )]);
    assert!(templates(&good).is_empty());
}

#[test]
fn every_argument_is_checked() {
    let root = doc(vec![template(
        "formula",
        1,
        vec![arg("1", 1, vec![math("x", 1)]), arg("formel", 2, vec![text("not math", 2)])],
    )]);
    let lints = templates(&root);
    assert_eq!(kinds(&lints), vec![LintKind::DeprecatedArgumentName, LintKind::IllegalArgumentContent]);
    assert_eq!(lints[0].position, at(2));
    assert_eq!(lints[1].position, at(2));
}
