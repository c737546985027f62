//! The completion builder: merges the static builtin catalog of language
//! keywords and command snippets with the current document state's symbol
//! sets into the item list returned for a completion request. No filtering
//! or ranking is performed; the full catalog is returned for every request.

use crate::state::State;
use vstd::prelude::*;

verus! {

/// What a completion item stands for.
#[derive(Debug, Clone, Copy, PartialEq, Eq, Structural)]
pub enum CompletionKind {
    Function,
    Keyword,
    Variable,
}

/// How an editor is to interpret the insert text of an item.
#[derive(Debug, Clone, Copy, PartialEq, Eq, Structural)]
pub enum InsertFormat {
    PlainText,
    Snippet,
}

/// One entry of the completion catalog.
#[derive(Debug, Clone, PartialEq, Eq)]
pub struct CompletionItem {
    pub label: String,
    pub kind: CompletionKind,
    pub insert_text: String,
    pub insert_text_format: InsertFormat,
}

/// The mathematical model of a [`CompletionItem`].
pub ghost struct ItemModel {
    pub label: Seq<char>,
    pub kind: CompletionKind,
    pub insert_text: Seq<char>,
    pub insert_text_format: InsertFormat,
}

impl View for CompletionItem {
    type V = ItemModel;

    open spec fn view(&self) -> ItemModel {
        ItemModel {
            label: self.label@,
            kind: self.kind,
            insert_text: self.insert_text@,
            insert_text_format: self.insert_text_format,
        }
    }
}

impl DeepView for CompletionItem {
    type V = ItemModel;

    open spec fn deep_view(&self) -> ItemModel {
        self.view()
    }
}

/// An item whose insert text is a template with placeholder markers.
pub open spec fn snip(label: Seq<char>, kind: CompletionKind, text: Seq<char>) -> ItemModel {
    ItemModel { label: label, kind: kind, insert_text: text, insert_text_format: InsertFormat::Snippet }
}

/// An item whose insert text is taken verbatim.
pub open spec fn plain(label: Seq<char>, kind: CompletionKind, text: Seq<char>) -> ItemModel {
    ItemModel { label: label, kind: kind, insert_text: text, insert_text_format: InsertFormat::PlainText }
}

fn snip_item(label: &str, kind: CompletionKind, text: &str) -> (r: CompletionItem)
    ensures
        r@ == snip(label@, kind, text@),
{
    CompletionItem {
        label: label.to_owned(),
        kind: kind,
        insert_text: text.to_owned(),
        insert_text_format: InsertFormat::Snippet,
    }
}

fn plain_item(label: &str, kind: CompletionKind, text: &str) -> (r: CompletionItem)
    ensures
        r@ == plain(label@, kind, text@),
{
    CompletionItem {
        label: label.to_owned(),
        kind: kind,
        insert_text: text.to_owned(),
        insert_text_format: InsertFormat::PlainText,
    }
}

/// The static builtin catalog, in its fixed declared order.
pub open spec fn spec_builtins() -> Seq<ItemModel> {
    seq![
        snip("echo"@, CompletionKind::Function, "echo \"${1}\""@),
        snip("function"@, CompletionKind::Keyword, "function $1\n\t$0\nend"@),
        snip("set"@, CompletionKind::Keyword, "set $1 $2 $3"@),
        snip("for"@, CompletionKind::Keyword, "for $1 in $2\n\t$0\nend"@),
        snip("while"@, CompletionKind::Keyword, "while $1\n\t$0\nend"@),
        snip("if"@, CompletionKind::Keyword, "if $1\n\t$0\nend"@),
        snip("elif"@, CompletionKind::Keyword, "elif $1\n\t$0\nend"@),
        snip("else"@, CompletionKind::Keyword, "else\n\t$0\nend"@),
        snip("return"@, CompletionKind::Keyword, "return $1"@),
        snip("exit"@, CompletionKind::Keyword, "exit $1"@),
        snip("source"@, CompletionKind::Keyword, "source $1"@),
        snip("cd"@, CompletionKind::Keyword, "cd $1"@),
        snip("pwd"@, CompletionKind::Keyword, "pwd"@),
        snip("ls"@, CompletionKind::Keyword, "ls $1"@),
        snip("cat"@, CompletionKind::Keyword, "cat $1"@),
        snip("rm"@, CompletionKind::Keyword, "rm $1"@),
        snip("mv"@, CompletionKind::Keyword, "mv $1 $2"@),
        snip("cp"@, CompletionKind::Keyword, "cp $1 $2"@),
        snip("mkdir"@, CompletionKind::Keyword, "mkdir $1"@),
        snip("rmdir"@, CompletionKind::Keyword, "rmdir $1"@),
        snip("touch"@, CompletionKind::Keyword, "touch $1"@),
        snip("chmod"@, CompletionKind::Keyword, "chmod $1 $2"@),
        snip("chown"@, CompletionKind::Keyword, "chown $1 $2"@),
        snip("chgrp"@, CompletionKind::Keyword, "chgrp $1 $2"@),
        snip("ln"@, CompletionKind::Keyword, "ln $1 $2"@),
        snip("grep"@, CompletionKind::Keyword, "grep $1 $2"@),
        snip("sed"@, CompletionKind::Keyword, "sed $1 $2"@),
        snip("awk"@, CompletionKind::Keyword, "awk $1 $2"@),
        snip("cut"@, CompletionKind::Keyword, "cut $1 $2"@),
        snip("sort"@, CompletionKind::Keyword, "sort $1"@),
        snip("uniq"@, CompletionKind::Keyword, "uniq $1"@),
        snip("wc"@, CompletionKind::Keyword, "wc $1"@),
        snip("head"@, CompletionKind::Keyword, "head $1"@),
        snip("tail"@, CompletionKind::Keyword, "tail $1"@),
        plain("date"@, CompletionKind::Keyword, "date"@),
        snip("sleep"@, CompletionKind::Keyword, "sleep $1"@),
        snip("kill"@, CompletionKind::Keyword, "kill $1"@),
        plain("ps"@, CompletionKind::Keyword, "ps"@),
        plain("top"@, CompletionKind::Keyword, "top"@),
        plain("free"@, CompletionKind::Keyword, "free"@),
        plain("df"@, CompletionKind::Keyword, "df"@),
        plain("du"@, CompletionKind::Keyword, "du"@),
        plain("uname"@, CompletionKind::Keyword, "uname"@),
        plain("uptime"@, CompletionKind::Keyword, "uptime"@),
        plain("who"@, CompletionKind::Keyword, "who"@),
        plain("w"@, CompletionKind::Keyword, "w"@),
        plain("users"@, CompletionKind::Keyword, "users"@),
        plain("groups"@, CompletionKind::Keyword, "groups"@),
        plain("id"@, CompletionKind::Keyword, "id"@),
        plain("whoami"@, CompletionKind::Keyword, "whoami"@),
        plain("hostname"@, CompletionKind::Keyword, "hostname"@),
        snip("ping"@, CompletionKind::Keyword, "ping $1"@),
        plain("ss"@, CompletionKind::Keyword, "ss"@),
        snip("test"@, CompletionKind::Keyword, "test $1 $2 $3"@),
        plain("break"@, CompletionKind::Keyword, "break"@),
        plain("continue"@, CompletionKind::Keyword, "continue"@),
        snip("switch"@, CompletionKind::Keyword, "switch $1\n\tcase $2\n\t\t$0\n\tbreak\nend"@),
        snip("case"@, CompletionKind::Keyword, "case $1\n\t$0\nbreak"@),
        snip("builtin"@, CompletionKind::Keyword, "builtin $1 $2"@),
        snip("time"@, CompletionKind::Keyword, "time $1"@),
        snip("begin"@, CompletionKind::Keyword, "begin\n\t$0\nend"@),
        plain("end"@, CompletionKind::Keyword, "end"@),
        snip("set_color"@, CompletionKind::Keyword, "set_color $1 $2"@),
        snip("read"@, CompletionKind::Keyword, "read $1 $2"@),
        snip("string"@, CompletionKind::Keyword, "string $1 $2"@),
        snip("math"@, CompletionKind::Keyword, "math $1 $2"@),
        snip("argparse"@, CompletionKind::Keyword, "argparse $1 $2"@),
        snip("count"@, CompletionKind::Keyword, "count $1 $2"@),
        snip("type"@, CompletionKind::Keyword, "type $1"@),
        snip("contains"@, CompletionKind::Keyword, "contains $1 $2"@),
        snip("abbr"@, CompletionKind::Keyword, "abbr $1 $2"@),
        snip("bind"@, CompletionKind::Keyword, "bind $1 $2 $3"@),
        snip("complete"@, CompletionKind::Keyword, "complete $1 $2 $3"@),
        snip("commandline"@, CompletionKind::Keyword, "commandline $1 $2"@),
        snip("fish_config"@, CompletionKind::Keyword, "fish_config $1 $2"@),
        snip("random"@, CompletionKind::Keyword, "random $1 $2 $3"@),
        snip("argv"@, CompletionKind::Variable, "argv[$1]"@),
    ]
}

/// The completion item derived from a user-defined function name: the name
/// as label and verbatim insert text.
pub open spec fn function_item(name: Seq<char>) -> ItemModel {
    snip(name, CompletionKind::Keyword, name)
}

/// The completion item derived from a user-defined variable name: the name
/// as label, the insert text a variable reference, the dollar sigil
/// preceded by the snippet escape.
pub open spec fn variable_item(name: Seq<char>) -> ItemModel {
    snip(name, CompletionKind::Variable, "\\$"@ + name)
}

pub open spec fn function_items(names: Seq<Seq<char>>) -> Seq<ItemModel> {
    names.map_values(|n: Seq<char>| function_item(n))
}

pub open spec fn variable_items(names: Seq<Seq<char>>) -> Seq<ItemModel> {
    names.map_values(|n: Seq<char>| variable_item(n))
}

/// The full catalog for a document state: every builtin item first, in
/// declared order, then one item per user-defined function name, then one
/// per user-defined variable name, in extraction order.
pub open spec fn completion_catalog(funcs: Seq<Seq<char>>, vars: Seq<Seq<char>>) -> Seq<ItemModel> {
    spec_builtins() + function_items(funcs) + variable_items(vars)
}

/// Builds the static builtin catalog.
#[verifier::rlimit(60)]
pub fn builtin_catalog() -> (r: Vec<CompletionItem>)
    ensures
        r.deep_view() == spec_builtins(),
{
    let mut v: Vec<CompletionItem> = Vec::new();
    v.push(snip_item("echo", CompletionKind::Function, "echo \"${1}\""));
    v.push(snip_item("function", CompletionKind::Keyword, "function $1\n\t$0\nend"));
    v.push(snip_item("set", CompletionKind::Keyword, "set $1 $2 $3"));
    v.push(snip_item("for", CompletionKind::Keyword, "for $1 in $2\n\t$0\nend"));
    v.push(snip_item("while", CompletionKind::Keyword, "while $1\n\t$0\nend"));
    v.push(snip_item("if", CompletionKind::Keyword, "if $1\n\t$0\nend"));
    v.push(snip_item("elif", CompletionKind::Keyword, "elif $1\n\t$0\nend"));
    v.push(snip_item("else", CompletionKind::Keyword, "else\n\t$0\nend"));
    v.push(snip_item("return", CompletionKind::Keyword, "return $1"));
    v.push(snip_item("exit", CompletionKind::Keyword, "exit $1"));
    v.push(snip_item("source", CompletionKind::Keyword, "source $1"));
    v.push(snip_item("cd", CompletionKind::Keyword, "cd $1"));
    v.push(snip_item("pwd", CompletionKind::Keyword, "pwd"));
    v.push(snip_item("ls", CompletionKind::Keyword, "ls $1"));
    v.push(snip_item("cat", CompletionKind::Keyword, "cat $1"));
    v.push(snip_item("rm", CompletionKind::Keyword, "rm $1"));
    v.push(snip_item("mv", CompletionKind::Keyword, "mv $1 $2"));
    v.push(snip_item("cp", CompletionKind::Keyword, "cp $1 $2"));
    v.push(snip_item("mkdir", CompletionKind::Keyword, "mkdir $1"));
    v.push(snip_item("rmdir", CompletionKind::Keyword, "rmdir $1"));
    v.push(snip_item("touch", CompletionKind::Keyword, "touch $1"));
    v.push(snip_item("chmod", CompletionKind::Keyword, "chmod $1 $2"));
    v.push(snip_item("chown", CompletionKind::Keyword, "chown $1 $2"));
    v.push(snip_item("chgrp", CompletionKind::Keyword, "chgrp $1 $2"));
    v.push(snip_item("ln", CompletionKind::Keyword, "ln $1 $2"));
    v.push(snip_item("grep", CompletionKind::Keyword, "grep $1 $2"));
    v.push(snip_item("sed", CompletionKind::Keyword, "sed $1 $2"));
    v.push(snip_item("awk", CompletionKind::Keyword, "awk $1 $2"));
    v.push(snip_item("cut", CompletionKind::Keyword, "cut $1 $2"));
    v.push(snip_item("sort", CompletionKind::Keyword, "sort $1"));
    v.push(snip_item("uniq", CompletionKind::Keyword, "uniq $1"));
    v.push(snip_item("wc", CompletionKind::Keyword, "wc $1"));
    v.push(snip_item("head", CompletionKind::Keyword, "head $1"));
    v.push(snip_item("tail", CompletionKind::Keyword, "tail $1"));
    v.push(plain_item("date", CompletionKind::Keyword, "date"));
    v.push(snip_item("sleep", CompletionKind::Keyword, "sleep $1"));
    v.push(snip_item("kill", CompletionKind::Keyword, "kill $1"));
    v.push(plain_item("ps", CompletionKind::Keyword, "ps"));
    v.push(plain_item("top", CompletionKind::Keyword, "top"));
    v.push(plain_item("free", CompletionKind::Keyword, "free"));
    v.push(plain_item("df", CompletionKind::Keyword, "df"));
    v.push(plain_item("du", CompletionKind::Keyword, "du"));
    v.push(plain_item("uname", CompletionKind::Keyword, "uname"));
    v.push(plain_item("uptime", CompletionKind::Keyword, "uptime"));
    v.push(plain_item("who", CompletionKind::Keyword, "who"));
    v.push(plain_item("w", CompletionKind::Keyword, "w"));
    v.push(plain_item("users", CompletionKind::Keyword, "users"));
    v.push(plain_item("groups", CompletionKind::Keyword, "groups"));
    v.push(plain_item("id", CompletionKind::Keyword, "id"));
    v.push(plain_item("whoami", CompletionKind::Keyword, "whoami"));
    v.push(plain_item("hostname", CompletionKind::Keyword, "hostname"));
    v.push(snip_item("ping", CompletionKind::Keyword, "ping $1"));
    v.push(plain_item("ss", CompletionKind::Keyword, "ss"));
    v.push(snip_item("test", CompletionKind::Keyword, "test $1 $2 $3"));
    v.push(plain_item("break", CompletionKind::Keyword, "break"));
    v.push(plain_item("continue", CompletionKind::Keyword, "continue"));
    v.push(snip_item("switch", CompletionKind::Keyword, "switch $1\n\tcase $2\n\t\t$0\n\tbreak\nend"));
    v.push(snip_item("case", CompletionKind::Keyword, "case $1\n\t$0\nbreak"));
    v.push(snip_item("builtin", CompletionKind::Keyword, "builtin $1 $2"));
    v.push(snip_item("time", CompletionKind::Keyword, "time $1"));
    v.push(snip_item("begin", CompletionKind::Keyword, "begin\n\t$0\nend"));
    v.push(plain_item("end", CompletionKind::Keyword, "end"));
    v.push(snip_item("set_color", CompletionKind::Keyword, "set_color $1 $2"));
    v.push(snip_item("read", CompletionKind::Keyword, "read $1 $2"));
    v.push(snip_item("string", CompletionKind::Keyword, "string $1 $2"));
    v.push(snip_item("math", CompletionKind::Keyword, "math $1 $2"));
    v.push(snip_item("argparse", CompletionKind::Keyword, "argparse $1 $2"));
    v.push(snip_item("count", CompletionKind::Keyword, "count $1 $2"));
    v.push(snip_item("type", CompletionKind::Keyword, "type $1"));
    v.push(snip_item("contains", CompletionKind::Keyword, "contains $1 $2"));
    v.push(snip_item("abbr", CompletionKind::Keyword, "abbr $1 $2"));
    v.push(snip_item("bind", CompletionKind::Keyword, "bind $1 $2 $3"));
    v.push(snip_item("complete", CompletionKind::Keyword, "complete $1 $2 $3"));
    v.push(snip_item("commandline", CompletionKind::Keyword, "commandline $1 $2"));
    v.push(snip_item("fish_config", CompletionKind::Keyword, "fish_config $1 $2"));
    v.push(snip_item("random", CompletionKind::Keyword, "random $1 $2 $3"));
    v.push(snip_item("argv", CompletionKind::Variable, "argv[$1]"));
    proof {
        assert(v.deep_view() =~= spec_builtins());
    }
    v
}

/// Builds the completion response for one request from a snapshot of the
/// document state: the builtin catalog followed by the user-defined
/// symbols.
#[verifier::loop_isolation(false)]
pub fn get_completions(state: &State) -> (r: Vec<CompletionItem>)
    ensures
        r.deep_view() == completion_catalog(
            state.custom_funcs.deep_view(),
            state.custom_vars.deep_view(),
        ),
{
    let ghost funcs_dv = state.custom_funcs.deep_view();
    let ghost vars_dv = state.custom_vars.deep_view();
    let mut r = builtin_catalog();
    let mut i: usize = 0;
    while i < state.custom_funcs.len()
        invariant
            i <= state.custom_funcs.len(),
            r.deep_view() == spec_builtins() + function_items(funcs_dv.take(i as int)),
        decreases state.custom_funcs.len() - i,
    {
        let name = &state.custom_funcs[i];
        let ghost old_r = r.deep_view();
        r.push(
            CompletionItem {
                label: name.clone(),
                kind: CompletionKind::Keyword,
                insert_text: name.clone(),
                insert_text_format: InsertFormat::Snippet,
            },
        );
        proof {
            assert(r.deep_view() =~= old_r + seq![function_item(funcs_dv[i as int])]);
            assert(function_items(funcs_dv.take(i + 1)) =~= function_items(funcs_dv.take(i as int))
                + seq![function_item(funcs_dv[i as int])]);
        }
        i = i + 1;
    }
    proof {
        assert(funcs_dv.take(funcs_dv.len() as int) =~= funcs_dv);
    }
    let mut j: usize = 0;
    while j < state.custom_vars.len()
        invariant
            j <= state.custom_vars.len(),
            r.deep_view() == spec_builtins() + function_items(funcs_dv) + variable_items(
                vars_dv.take(j as int),
            ),
        decreases state.custom_vars.len() - j,
    {
        let name = &state.custom_vars[j];
        let ghost old_r = r.deep_view();
        let reference = "\\$".to_owned().concat(name.as_str());
        r.push(
            CompletionItem {
                label: name.clone(),
                kind: CompletionKind::Variable,
                insert_text: reference,
                insert_text_format: InsertFormat::Snippet,
            },
        );
        proof {
            assert(r.deep_view() =~= old_r + seq![variable_item(vars_dv[j as int])]);
            assert(variable_items(vars_dv.take(j + 1)) =~= variable_items(vars_dv.take(j as int))
                + seq![variable_item(vars_dv[j as int])]);
        }
        j = j + 1;
    }
    proof {
        assert(vars_dv.take(vars_dv.len() as int) =~= vars_dv);
        assert(r.deep_view() =~= completion_catalog(funcs_dv, vars_dv));
    }
    r
}

} // verus!
