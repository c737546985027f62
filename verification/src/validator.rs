//! The syntax validator: structural rules evaluated over full document
//! text, producing a list of diagnostics.
//!
//! Two rules are checked, independently and always both:
//! - the function-block rule: if the document as a whole contains no
//!   well-formed `function <name> ... end` block, every line opening with
//!   the function keyword is reported. The rule is deliberately
//!   document-global, not block-local: a single well-formed block anywhere
//!   suppresses the report on every function-opening line.
//! - the variable rule: every line opening with the variable-assignment
//!   keyword must on its own be a well-formed declaration.

use crate::lines::{spec_lines, split_lines};
use crate::patterns::{
    has_prefix, is_end_line, is_function_header, is_valid_set_line, line_is_end,
    line_is_function_header, line_is_valid_set, starts_with_str,
};
use vstd::prelude::*;

verus! {

/// How severe a reported problem is.
#[derive(Debug, Clone, Copy, PartialEq, Eq, Structural)]
pub enum Severity {
    Error,
    Warning,
    Info,
    Hint,
}

/// One detected problem: a location inside the document, a severity, a
/// stable code, the reporting source and a human-readable message.
///
/// Columns count characters of the line, the first character being column
/// zero. Both rules report full-line spans, so `column_end` is the
/// character count of the whole line.
#[derive(Debug, Clone, PartialEq, Eq)]
pub struct Diagnostic {
    pub line: usize,
    pub column_start: usize,
    pub column_end: usize,
    pub severity: Severity,
    pub code: String,
    pub source: String,
    pub message: String,
}

/// The mathematical model of a [`Diagnostic`].
pub ghost struct DiagModel {
    pub line: int,
    pub column_start: int,
    pub column_end: int,
    pub severity: Severity,
    pub code: Seq<char>,
    pub source: Seq<char>,
    pub message: Seq<char>,
}

impl View for Diagnostic {
    type V = DiagModel;

    open spec fn view(&self) -> DiagModel {
        DiagModel {
            line: self.line as int,
            column_start: self.column_start as int,
            column_end: self.column_end as int,
            severity: self.severity,
            code: self.code@,
            source: self.source@,
            message: self.message@,
        }
    }
}

impl DeepView for Diagnostic {
    type V = DiagModel;

    open spec fn deep_view(&self) -> DiagModel {
        self.view()
    }
}

/// A line that triggers the function-block rule: it opens with the
/// function keyword and a space.
pub open spec fn line_opens_function(l: Seq<char>) -> bool {
    has_prefix(l, "function "@)
}

/// A line that triggers the variable rule: it opens with the
/// variable-assignment keyword and a space.
pub open spec fn line_opens_set(l: Seq<char>) -> bool {
    has_prefix(l, "set "@)
}

/// Somewhere in the document, a function header line is followed, on a
/// strictly later line, by a block-end line.
pub open spec fn block_exists(lines: Seq<Seq<char>>) -> bool {
    exists|i: int, j: int|
        0 <= i < j < lines.len() && is_function_header(lines[i]) && is_end_line(lines[j])
}

/// The diagnostic reported on a function-opening line when the document
/// holds no well-formed function block.
pub open spec fn function_diag_model(i: int, l: Seq<char>) -> DiagModel {
    DiagModel {
        line: i,
        column_start: 0,
        column_end: l.len() as int,
        severity: Severity::Error,
        code: "INVALID_FUNCTION_DECLARATION"@,
        source: "fish-lsp"@,
        message: "Functions must be declared as `function <name>` followed by `end`"@,
    }
}

/// The diagnostic reported on an ill-formed variable declaration line.
pub open spec fn variable_diag_model(i: int, l: Seq<char>) -> DiagModel {
    DiagModel {
        line: i,
        column_start: 0,
        column_end: l.len() as int,
        severity: Severity::Error,
        code: "INVALID_VARIABLE_DECLARATION"@,
        source: "fish-language-server"@,
        message: "Variables must be declared as `set <name> \"<value>\"`"@,
    }
}

/// Function-rule diagnostics over the first `n` lines, assuming the
/// document holds no well-formed block.
pub open spec fn function_rule_diags_upto(lines: Seq<Seq<char>>, n: int) -> Seq<DiagModel>
    decreases n when 0 <= n <= lines.len()
{
    if n <= 0 {
        Seq::empty()
    } else {
        function_rule_diags_upto(lines, n - 1) + (if line_opens_function(lines[n - 1]) {
            seq![function_diag_model(n - 1, lines[n - 1])]
        } else {
            Seq::empty()
        })
    }
}

/// All function-rule diagnostics of the document.
pub open spec fn spec_function_rule_diags(lines: Seq<Seq<char>>) -> Seq<DiagModel> {
    if block_exists(lines) {
        Seq::empty()
    } else {
        function_rule_diags_upto(lines, lines.len() as int)
    }
}

/// Variable-rule diagnostics over the first `n` lines.
pub open spec fn variable_rule_diags_upto(lines: Seq<Seq<char>>, n: int) -> Seq<DiagModel>
    decreases n when 0 <= n <= lines.len()
{
    if n <= 0 {
        Seq::empty()
    } else {
        variable_rule_diags_upto(lines, n - 1) + (if line_opens_set(lines[n - 1])
            && !is_valid_set_line(lines[n - 1]) {
            seq![variable_diag_model(n - 1, lines[n - 1])]
        } else {
            Seq::empty()
        })
    }
}

/// All variable-rule diagnostics of the document.
pub open spec fn spec_variable_rule_diags(lines: Seq<Seq<char>>) -> Seq<DiagModel> {
    variable_rule_diags_upto(lines, lines.len() as int)
}

/// The full diagnostic list of one analysis pass: function-rule
/// diagnostics first, then variable-rule diagnostics, each group in line
/// order.
pub open spec fn spec_diagnostics(lines: Seq<Seq<char>>) -> Seq<DiagModel> {
    spec_function_rule_diags(lines) + spec_variable_rule_diags(lines)
}

/// Decides [`block_exists`].
#[verifier::loop_isolation(false)]
pub fn find_function_block(lines: &Vec<String>) -> (b: bool)
    ensures
        b == block_exists(lines.deep_view()),
{
    let ghost ls = lines.deep_view();
    let mut seen_header = false;
    let mut j: usize = 0;
    while j < lines.len()
        invariant
            j <= lines.len(),
            seen_header == exists|i: int| 0 <= i < j && is_function_header(ls[i]),
            !(exists|i2: int, j2: int|
                0 <= i2 < j2 < j && is_function_header(ls[i2]) && is_end_line(ls[j2])),
        decreases lines.len() - j,
    {
        if seen_header && line_is_end(lines[j].as_str()) {
            proof {
                let i = choose|i: int| 0 <= i < j && is_function_header(ls[i]);
                assert(0 <= i < j < ls.len() && is_function_header(ls[i]) && is_end_line(
                    ls[j as int],
                ));
            }
            return true;
        }
        let hdr = line_is_function_header(lines[j].as_str());
        proof {
            if seen_header {
                let iw = choose|i: int| 0 <= i < j && is_function_header(ls[i]);
                assert(0 <= iw < j + 1 && is_function_header(ls[iw]));
            } else if hdr {
                assert(0 <= (j as int) < j + 1 && is_function_header(ls[j as int]));
            } else {
                assert forall|i: int| 0 <= i < j + 1 implies !is_function_header(ls[i]) by {
                    if i < j {
                        assert(!(exists|i2: int| 0 <= i2 < j && is_function_header(ls[i2])));
                    }
                }
            }
        }
        if hdr {
            seen_header = true;
        }
        j = j + 1;
    }
    false
}

/// One syntax-validation pass: evaluates both structural rules over the
/// full document text and returns the diagnostics, function-rule group
/// first, variable-rule group second, each in line order.
#[verifier::loop_isolation(false)]
pub fn check_syntax(text: &str) -> (r: Vec<Diagnostic>)
    ensures
        r.deep_view() == spec_diagnostics(spec_lines(text@)),
{
    let lines = split_lines(text);
    let ghost ls = lines.deep_view();
    let block = find_function_block(&lines);
    let mut r: Vec<Diagnostic> = Vec::new();
    if !block {
        let mut i: usize = 0;
        while i < lines.len()
            invariant
                i <= lines.len(),
                r.deep_view() == function_rule_diags_upto(ls, i as int),
            decreases lines.len() - i,
        {
            let line = lines[i].as_str();
            if starts_with_str(line, "function ") {
                let ghost old_r = r.deep_view();
                r.push(
                    Diagnostic {
                        line: i,
                        column_start: 0,
                        column_end: line.unicode_len(),
                        severity: Severity::Error,
                        code: "INVALID_FUNCTION_DECLARATION".to_owned(),
                        source: "fish-lsp".to_owned(),
                        message: "Functions must be declared as `function <name>` followed by `end`".to_owned(),
                    },
                );
                proof {
                    assert(r.deep_view() =~= old_r + seq![function_diag_model(i as int, ls[i as int])]);
                }
            }
            i = i + 1;
        }
    }
    proof {
        assert(r.deep_view() == spec_function_rule_diags(ls));
    }
    let mut i: usize = 0;
    while i < lines.len()
        invariant
            i <= lines.len(),
            r.deep_view() == spec_function_rule_diags(ls) + variable_rule_diags_upto(ls, i as int),
        decreases lines.len() - i,
    {
        let line = lines[i].as_str();
        if starts_with_str(line, "set ") && !line_is_valid_set(line) {
            let ghost old_r = r.deep_view();
            r.push(
                Diagnostic {
                    line: i,
                    column_start: 0,
                    column_end: line.unicode_len(),
                    severity: Severity::Error,
                    code: "INVALID_VARIABLE_DECLARATION".to_owned(),
                    source: "fish-language-server".to_owned(),
                    message: "Variables must be declared as `set <name> \"<value>\"`".to_owned(),
                },
            );
            proof {
                assert(r.deep_view() =~= old_r + seq![variable_diag_model(i as int, ls[i as int])]);
            }
        }
        i = i + 1;
    }
    proof {
        assert(r.deep_view() =~= spec_diagnostics(spec_lines(text@)));
    }
    r
}

/// The two diagnostic codes are distinct.
proof fn lemma_codes_differ()
    ensures
        "INVALID_FUNCTION_DECLARATION"@ != "INVALID_VARIABLE_DECLARATION"@,
{
    reveal_strlit("INVALID_FUNCTION_DECLARATION");
    reveal_strlit("INVALID_VARIABLE_DECLARATION");
    assert("INVALID_FUNCTION_DECLARATION"@[8] == 'F');
    assert("INVALID_VARIABLE_DECLARATION"@[8] == 'V');
}

/// Every variable-rule diagnostic carries the variable-rule code.
proof fn lemma_variable_diags_code(lines: Seq<Seq<char>>, n: int)
    requires
        0 <= n <= lines.len(),
    ensures
        forall|k: int|
            0 <= k < variable_rule_diags_upto(lines, n).len() ==> #[trigger] variable_rule_diags_upto(
                lines,
                n,
            )[k].code == "INVALID_VARIABLE_DECLARATION"@,
    decreases n,
{
    if n > 0 {
        lemma_variable_diags_code(lines, n - 1);
    }
}

/// If no line triggers the function-block rule, that rule reports nothing.
proof fn lemma_function_rule_upto_empty(lines: Seq<Seq<char>>, n: int)
    requires
        0 <= n <= lines.len(),
        forall|i: int| 0 <= i < lines.len() ==> !line_opens_function(#[trigger] lines[i]),
    ensures
        function_rule_diags_upto(lines, n) == Seq::<DiagModel>::empty(),
    decreases n,
{
    if n > 0 {
        lemma_function_rule_upto_empty(lines, n - 1);
        assert(function_rule_diags_upto(lines, n) =~= Seq::<DiagModel>::empty());
    }
}

/// On a document where no line opens with the function keyword, the
/// analysis yields zero function-rule diagnostics: every reported
/// diagnostic carries the variable-rule code.
pub proof fn lemma_no_function_lines_no_function_diags(lines: Seq<Seq<char>>)
    requires
        forall|i: int| 0 <= i < lines.len() ==> !line_opens_function(#[trigger] lines[i]),
    ensures
        forall|k: int|
            0 <= k < spec_diagnostics(lines).len() ==> #[trigger] spec_diagnostics(lines)[k].code
                != "INVALID_FUNCTION_DECLARATION"@,
{
    lemma_function_rule_upto_empty(lines, lines.len() as int);
    lemma_variable_diags_code(lines, lines.len() as int);
    lemma_codes_differ();
    assert forall|k: int| 0 <= k < spec_diagnostics(lines).len() implies #[trigger] spec_diagnostics(
        lines,
    )[k].code != "INVALID_FUNCTION_DECLARATION"@ by {
        assert(spec_diagnostics(lines)[k] == spec_variable_rule_diags(lines)[k]);
    }
}

/// The approximation property of the function-block rule: one well-formed
/// `function <name> ... end` block anywhere in the document suppresses the
/// function-rule diagnostic on every function-opening line, related to the
/// block or not.
pub proof fn lemma_block_suppresses_function_diags(lines: Seq<Seq<char>>)
    requires
        block_exists(lines),
    ensures
        forall|k: int|
            0 <= k < spec_diagnostics(lines).len() ==> #[trigger] spec_diagnostics(lines)[k].code
                != "INVALID_FUNCTION_DECLARATION"@,
{
    lemma_variable_diags_code(lines, lines.len() as int);
    lemma_codes_differ();
    assert forall|k: int| 0 <= k < spec_diagnostics(lines).len() implies #[trigger] spec_diagnostics(
        lines,
    )[k].code != "INVALID_FUNCTION_DECLARATION"@ by {
        assert(spec_diagnostics(lines)[k] == spec_variable_rule_diags(lines)[k]);
    }
}

/// The validator is a pure function of the document text: two runs on
/// identical text yield identical diagnostics.
pub proof fn lemma_validator_idempotent(text: Seq<char>, r1: Seq<DiagModel>, r2: Seq<DiagModel>)
    requires
        r1 == spec_diagnostics(spec_lines(text)),
        r2 == spec_diagnostics(spec_lines(text)),
    ensures
        r1 == r2,
{
}

} // verus!
