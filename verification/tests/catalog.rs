use fish_lsp::cli::Cli;
use fish_lsp::completions::{get_completions, CompletionKind, InsertFormat};
use fish_lsp::extractor::extract_symbols;
use fish_lsp::state::{SharedState, State};

fn empty_state() -> State {
    State { custom_funcs: Vec::new(), custom_vars: Vec::new() }
}

#[test]
fn builtin_catalog_has_the_fixed_order() {
    let items = get_completions(&empty_state());
    assert_eq!(items.len(), 77);
    assert_eq!(items[0].label, "echo");
    assert_eq!(items[0].kind, CompletionKind::Function);
    assert_eq!(items[0].insert_text, "echo \"${1}\"");
    assert_eq!(items[0].insert_text_format, InsertFormat::Snippet);
    assert_eq!(items[1].label, "function");
    assert_eq!(items[1].insert_text, "function $1\n\t$0\nend");
    assert_eq!(items[76].label, "argv");
    assert_eq!(items[76].kind, CompletionKind::Variable);
    assert_eq!(items[76].insert_text, "argv[$1]");
}

#[test]
fn plain_builtins_have_verbatim_insert_text() {
    let items = get_completions(&empty_state());
    let date = items.iter().find(|i| i.label == "date").unwrap();
    assert_eq!(date.insert_text, "date");
    assert_eq!(date.insert_text_format, InsertFormat::PlainText);
    assert_eq!(date.kind, CompletionKind::Keyword);
}

#[test]
fn custom_symbols_append_after_all_builtins() {
    let (funcs, vars) = extract_symbols("function greet\n\techo hi\nend\nset name \"Alice\"");
    let state = State { custom_funcs: funcs, custom_vars: vars };
    let items = get_completions(&state);
    assert_eq!(items.len(), 79);
    assert_eq!(items[77].label, "greet");
    assert_eq!(items[77].kind, CompletionKind::Keyword);
    assert_eq!(items[77].insert_text, "greet");
    assert_eq!(items[77].insert_text_format, InsertFormat::Snippet);
    assert_eq!(items[78].label, "name");
    assert_eq!(items[78].kind, CompletionKind::Variable);
    assert_eq!(items[78].insert_text, "\\$name");
}

#[test]
fn duplicate_names_give_duplicate_suggestions() {
    let (funcs, vars) = extract_symbols("function foo\nend\nfunction foo");
    let state = State { custom_funcs: funcs, custom_vars: vars };
    let items = get_completions(&state);
    assert_eq!(items.len(), 79);
    assert_eq!(items[77].label, "foo");
    assert_eq!(items[78].label, "foo");
}

#[test]
fn fresh_state_is_empty() {
    let shared = SharedState::new();
    let snap = shared.snapshot();
    assert!(snap.custom_funcs.is_empty());
    assert!(snap.custom_vars.is_empty());
}

#[test]
fn update_replaces_the_whole_state() {
    let shared = SharedState::new();
    shared.update_from_text("function greet\nend\nset name \"Alice\"");
    let snap = shared.snapshot();
    assert_eq!(snap.custom_funcs, vec!["greet".to_string()]);
    assert_eq!(snap.custom_vars, vec!["name".to_string()]);

    shared.update_from_text("set other \"value\"");
    let snap = shared.snapshot();
    assert!(snap.custom_funcs.is_empty());
    assert_eq!(snap.custom_vars, vec!["other".to_string()]);
}

#[test]
fn completion_reads_see_one_whole_pass() {
    let shared = SharedState::new();
    shared.update_from_text("function a\nend\nset x \"1\"");
    let snap = shared.snapshot();
    let items = get_completions(&snap);
    assert_eq!(items.len(), 79);
    assert_eq!(items[77].label, "a");
    assert_eq!(items[78].label, "x");
}

#[test]
fn unicode_variable_gets_a_whole_reference() {
    let (funcs, vars) = extract_symbols("set caf\u{e9} \"v\"");
    let state = State { custom_funcs: funcs, custom_vars: vars };
    let items = get_completions(&state);
    assert_eq!(items.len(), 78);
    assert_eq!(items[77].label, "caf\u{e9}");
    assert_eq!(items[77].insert_text, "\\$caf\u{e9}");
}

#[test]
fn cli_log_level_defaults_to_info() {
    let cli = Cli::default();
    assert_eq!(cli.log_level, "info");
}
