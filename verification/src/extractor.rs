//! The symbol extractor: scans full document text and produces the ordered
//! sequences of user-defined function names and variable names. Every
//! declaration in the text contributes one entry, so re-declared names
//! appear once per declaration; no deduplication is performed.

use crate::lines::{spec_lines, split_lines};
use crate::patterns::{
    extract_function_name, extract_variable_name, function_name_of, variable_name_of,
};
use vstd::prelude::*;

verus! {

/// Function names declared on the first `n` lines, in line order,
/// duplicates preserved.
pub open spec fn function_names_upto(lines: Seq<Seq<char>>, n: int) -> Seq<Seq<char>>
    decreases n when 0 <= n <= lines.len()
{
    if n <= 0 {
        Seq::empty()
    } else {
        function_names_upto(lines, n - 1) + (match function_name_of(lines[n - 1]) {
            Some(name) => seq![name],
            None => Seq::empty(),
        })
    }
}

/// All function names the document declares.
pub open spec fn spec_function_names(lines: Seq<Seq<char>>) -> Seq<Seq<char>> {
    function_names_upto(lines, lines.len() as int)
}

/// Variable names declared on the first `n` lines, in line order,
/// duplicates preserved.
pub open spec fn variable_names_upto(lines: Seq<Seq<char>>, n: int) -> Seq<Seq<char>>
    decreases n when 0 <= n <= lines.len()
{
    if n <= 0 {
        Seq::empty()
    } else {
        variable_names_upto(lines, n - 1) + (match variable_name_of(lines[n - 1]) {
            Some(name) => seq![name],
            None => Seq::empty(),
        })
    }
}

/// All variable names the document declares.
pub open spec fn spec_variable_names(lines: Seq<Seq<char>>) -> Seq<Seq<char>> {
    variable_names_upto(lines, lines.len() as int)
}

/// One extraction pass: the function names and the variable names the
/// document text declares, each in line order with duplicates preserved.
#[verifier::loop_isolation(false)]
pub fn extract_symbols(text: &str) -> (r: (Vec<String>, Vec<String>))
    ensures
        r.0.deep_view() == spec_function_names(spec_lines(text@)),
        r.1.deep_view() == spec_variable_names(spec_lines(text@)),
{
    let lines = split_lines(text);
    let ghost ls = lines.deep_view();
    let mut funcs: Vec<String> = Vec::new();
    let mut vars: Vec<String> = Vec::new();
    let mut i: usize = 0;
    while i < lines.len()
        invariant
            i <= lines.len(),
            funcs.deep_view() == function_names_upto(ls, i as int),
        decreases lines.len() - i,
    {
        let ghost old_f = funcs.deep_view();
        if let Some(name) = extract_function_name(lines[i].as_str()) {
            let ghost name_v = name@;
            funcs.push(name);
            proof {
                assert(funcs.deep_view() =~= old_f + seq![name_v]);
            }
        }
        i = i + 1;
    }
    let mut i: usize = 0;
    while i < lines.len()
        invariant
            i <= lines.len(),
            vars.deep_view() == variable_names_upto(ls, i as int),
        decreases lines.len() - i,
    {
        let ghost old_v = vars.deep_view();
        if let Some(name) = extract_variable_name(lines[i].as_str()) {
            let ghost name_v = name@;
            vars.push(name);
            proof {
                assert(vars.deep_view() =~= old_v + seq![name_v]);
            }
        }
        i = i + 1;
    }
    (funcs, vars)
}

/// The lists only grow as more lines are scanned.
proof fn lemma_function_names_len_monotone(lines: Seq<Seq<char>>, m: int, n: int)
    requires
        0 <= m <= n <= lines.len(),
    ensures
        function_names_upto(lines, m).len() <= function_names_upto(lines, n).len(),
    decreases n,
{
    if m < n {
        lemma_function_names_len_monotone(lines, m, n - 1);
    }
}

/// A line that declares a function contributes an entry whose position is
/// fixed once the line is scanned: the entry stays in place as later lines
/// are scanned.
proof fn lemma_function_name_position(lines: Seq<Seq<char>>, i: int, n: int, name: Seq<char>)
    requires
        0 <= i < n <= lines.len(),
        function_name_of(lines[i]) == Some(name),
    ensures
        function_names_upto(lines, i + 1).len() >= 1,
        function_names_upto(lines, i + 1).len() <= function_names_upto(lines, n).len(),
        function_names_upto(lines, n)[function_names_upto(lines, i + 1).len() - 1] == name,
    decreases n,
{
    if n == i + 1 {
        assert(function_names_upto(lines, i + 1) == function_names_upto(lines, i) + seq![name]);
    } else {
        lemma_function_name_position(lines, i, n - 1, name);
    }
}

/// Duplicates are preserved: two lines that each declare a function
/// contribute two distinct entries, in line order. In particular,
/// re-declaring the same function name twice yields two entries.
pub proof fn lemma_duplicates_preserved(
    lines: Seq<Seq<char>>,
    i: int,
    j: int,
    ni: Seq<char>,
    nj: Seq<char>,
)
    requires
        0 <= i < j < lines.len(),
        function_name_of(lines[i]) == Some(ni),
        function_name_of(lines[j]) == Some(nj),
    ensures
        exists|p: int, q: int|
            0 <= p < q < spec_function_names(lines).len() && spec_function_names(lines)[p] == ni
                && spec_function_names(lines)[q] == nj,
{
    let all = spec_function_names(lines);
    let n = lines.len() as int;
    lemma_function_name_position(lines, i, n, ni);
    lemma_function_name_position(lines, j, n, nj);
    lemma_function_names_len_monotone(lines, i + 1, j);
    let p = function_names_upto(lines, i + 1).len() - 1;
    let q = function_names_upto(lines, j + 1).len() - 1;
    assert(function_names_upto(lines, j + 1) == function_names_upto(lines, j) + seq![nj]);
    assert(0 <= p < q < all.len() && all[p] == ni && all[q] == nj);
}

} // verus!
