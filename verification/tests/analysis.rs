use fish_lsp::extractor::extract_symbols;
use fish_lsp::validator::{check_syntax, Severity};

#[test]
fn quoted_variable_line_has_no_diagnostic() {
    let diags = check_syntax("set X \"value\"");
    assert!(diags.is_empty());
}

#[test]
fn unquoted_variable_line_is_reported() {
    let diags = check_syntax("set X value");
    assert_eq!(diags.len(), 1);
    let d = &diags[0];
    assert_eq!(d.code, "INVALID_VARIABLE_DECLARATION");
    assert_eq!(d.line, 0);
    assert_eq!(d.column_start, 0);
    assert_eq!(d.column_end, 11);
    assert_eq!(d.severity, Severity::Error);
    assert_eq!(d.source, "fish-language-server");
}

#[test]
fn several_quoted_values_are_accepted() {
    assert!(check_syntax("set greeting \"hello\" \"world\"  ").is_empty());
    assert!(check_syntax("set empty \"\"").is_empty());
}

#[test]
fn value_glued_to_quote_is_reported() {
    let diags = check_syntax("set X \"a\"b");
    assert_eq!(diags.len(), 1);
    assert_eq!(diags[0].code, "INVALID_VARIABLE_DECLARATION");
}

#[test]
fn set_without_value_is_accepted() {
    assert!(check_syntax("set x").is_empty());
}

#[test]
fn set_without_name_is_reported() {
    let diags = check_syntax("set ");
    assert_eq!(diags.len(), 1);
    assert_eq!(diags[0].code, "INVALID_VARIABLE_DECLARATION");
    assert_eq!(diags[0].column_end, 4);
}

#[test]
fn no_function_lines_no_function_diagnostics() {
    let diags = check_syntax("echo hi\nset a \"b\"\nend\n");
    for d in &diags {
        assert_ne!(d.code, "INVALID_FUNCTION_DECLARATION");
    }
    assert!(diags.is_empty());
}

#[test]
fn missing_end_reports_every_function_line() {
    let diags = check_syntax("function foo\nfunction bar");
    assert_eq!(diags.len(), 2);
    for d in &diags {
        assert_eq!(d.code, "INVALID_FUNCTION_DECLARATION");
        assert_eq!(d.severity, Severity::Error);
        assert_eq!(d.source, "fish-lsp");
        assert_eq!(d.column_start, 0);
        assert_eq!(d.column_end, 12);
    }
    assert_eq!(diags[0].line, 0);
    assert_eq!(diags[1].line, 1);
}

#[test]
fn one_block_suppresses_stray_function_lines() {
    let diags = check_syntax("function good\nend\nfunction stray");
    assert!(diags.is_empty());
}

#[test]
fn function_rule_diagnostics_come_first() {
    let diags = check_syntax("set X value\nfunction foo");
    assert_eq!(diags.len(), 2);
    assert_eq!(diags[0].code, "INVALID_FUNCTION_DECLARATION");
    assert_eq!(diags[0].line, 1);
    assert_eq!(diags[1].code, "INVALID_VARIABLE_DECLARATION");
    assert_eq!(diags[1].line, 0);
}

#[test]
fn validator_runs_identically_twice() {
    let text = "function foo\nset X value\nset ok \"v\"\nend maybe\nfunction bar";
    let first = check_syntax(text);
    let second = check_syntax(text);
    assert_eq!(first, second);
}

#[test]
fn carriage_returns_belong_to_the_terminator() {
    let diags = check_syntax("set X value\r\nset Y value");
    assert_eq!(diags.len(), 2);
    assert_eq!(diags[0].line, 0);
    assert_eq!(diags[0].column_end, 11);
    assert_eq!(diags[1].line, 1);
    assert_eq!(diags[1].column_end, 11);
}

#[test]
fn end_line_may_carry_trailing_whitespace() {
    assert!(check_syntax("function f\nend  ").is_empty());
}

#[test]
fn end_with_trailing_words_is_no_block_end() {
    let diags = check_syntax("function f\nend of story");
    assert_eq!(diags.len(), 1);
    assert_eq!(diags[0].code, "INVALID_FUNCTION_DECLARATION");
}

#[test]
fn empty_text_yields_nothing() {
    assert!(check_syntax("").is_empty());
    let (funcs, vars) = extract_symbols("");
    assert!(funcs.is_empty());
    assert!(vars.is_empty());
}

#[test]
fn extracts_function_and_variable_names() {
    let (funcs, vars) = extract_symbols("function greet\n\techo hi\nend\nset name \"Alice\"");
    assert_eq!(funcs, vec!["greet".to_string()]);
    assert_eq!(vars, vec!["name".to_string()]);
}

#[test]
fn redeclared_function_is_listed_twice() {
    let (funcs, _) = extract_symbols("function foo\nend\nfunction foo");
    assert_eq!(funcs, vec!["foo".to_string(), "foo".to_string()]);
}

#[test]
fn variable_needs_a_separator_before_its_value() {
    let (_, vars) = extract_symbols("set x");
    assert!(vars.is_empty());
    let (_, vars) = extract_symbols("set x ");
    assert_eq!(vars, vec!["x".to_string()]);
}

#[test]
fn names_are_maximal_word_runs() {
    let (funcs, vars) = extract_symbols("function ab-cd\nend\nset a_b2 \"v\"");
    assert_eq!(funcs, vec!["ab".to_string()]);
    assert_eq!(vars, vec!["a_b2".to_string()]);
}

#[test]
fn tab_after_keyword_declares_but_does_not_trigger() {
    let diags = check_syntax("function\tfoo");
    assert!(diags.is_empty());
    let (funcs, _) = extract_symbols("function\tfoo");
    assert_eq!(funcs, vec!["foo".to_string()]);
}

#[test]
fn no_break_space_separates_values() {
    assert!(check_syntax("set a\u{a0}\"v\"").is_empty());
    let (_, vars) = extract_symbols("set a\u{a0}\"v\"");
    assert_eq!(vars, vec!["a".to_string()]);
}

#[test]
fn unicode_name_is_captured_whole() {
    let (funcs, _) = extract_symbols("function caf\u{e9}\nend");
    assert_eq!(funcs, vec!["caf\u{e9}".to_string()]);
}

#[test]
fn no_break_space_ends_a_header() {
    assert!(check_syntax("function ab\u{a0}\nend\nfunction x").is_empty());
}

#[test]
fn final_carriage_return_stays_in_the_line() {
    let diags = check_syntax("set X value\r");
    assert_eq!(diags.len(), 1);
    assert_eq!(diags[0].column_end, 12);
    let diags = check_syntax("set X value\r\n");
    assert_eq!(diags.len(), 1);
    assert_eq!(diags[0].column_end, 11);
}

#[test]
fn declarations_must_anchor_at_line_start() {
    let (funcs, vars) = extract_symbols("  function indented\n\tset spaced \"v\"");
    assert!(funcs.is_empty());
    assert!(vars.is_empty());
}
