//! The pattern catalog: the fixed structural recognizers for fish script
//! lines. Each recognizer exists twice, as a spec function that defines the
//! pattern over a sequence of characters and as an executable function
//! proved to decide exactly that spec.
//!
//! The recognizers work on single lines: lines are split on newlines before
//! they are scanned, and the keyword, the separating whitespace and the
//! name of a declaration all lie on one line.

use vstd::prelude::*;

verus! {

/// Whitespace characters: the characters with the Unicode White_Space
/// property, the whitespace class of the pattern language.
pub open spec fn is_space_char(c: char) -> bool {
    ('\u{9}' <= c && c <= '\u{d}') || c == ' ' || c == '\u{85}' || c == '\u{a0}' || c == '\u{1680}'
        || ('\u{2000}' <= c && c <= '\u{200a}') || c == '\u{2028}' || c == '\u{2029}'
        || c == '\u{202f}' || c == '\u{205f}' || c == '\u{3000}'
}

/// Word characters: the Unicode word class of the pattern language, the
/// class that function and variable names are maximal runs of. Its content
/// is the word-character table that [`regex_syntax::is_word_character`]
/// decides; the library states nothing about it beyond that.
pub uninterp spec fn is_word_char(c: char) -> bool;

/// Relies on regex_syntax::is_word_character: the Unicode word class of
/// UTS#18 Annex C (Alphabetic, Join_Control, Decimal_Number, Mark and
/// Connector_Punctuation), a function of the character alone. With the
/// crate's default `unicode-perl` feature, which this build keeps on, the
/// call never panics.
pub assume_specification[ regex_syntax::is_word_character ](c: char) -> (b: bool)
    ensures
        b == is_word_char(c),
;

/// The character classes the recognizers scan runs of.
#[derive(Clone, Copy)]
pub enum CharClass {
    Space,
    Word,
    NotQuote,
    NotNewline,
}

pub open spec fn in_class(cl: CharClass, c: char) -> bool {
    match cl {
        CharClass::Space => is_space_char(c),
        CharClass::Word => is_word_char(c),
        CharClass::NotQuote => c != '"',
        CharClass::NotNewline => c != '\n',
    }
}

/// Length of the maximal run of characters of class `cl` in `l` starting at
/// position `i`.
pub open spec fn run_len(cl: CharClass, l: Seq<char>, i: int) -> nat
    decreases l.len() - i when 0 <= i <= l.len()
{
    if i < l.len() && in_class(cl, l[i]) {
        1 + run_len(cl, l, i + 1)
    } else {
        0
    }
}

fn char_in_class(cl: CharClass, c: char) -> (b: bool)
    ensures
        b == in_class(cl, c),
{
    match cl {
        CharClass::Space => ('\u{9}' <= c && c <= '\u{d}') || c == ' ' || c == '\u{85}'
            || c == '\u{a0}' || c == '\u{1680}' || ('\u{2000}' <= c && c <= '\u{200a}')
            || c == '\u{2028}' || c == '\u{2029}' || c == '\u{202f}' || c == '\u{205f}'
            || c == '\u{3000}',
        CharClass::Word => regex_syntax::is_word_character(c),
        CharClass::NotQuote => c != '"',
        CharClass::NotNewline => c != '\n',
    }
}

/// Scans the maximal run of characters of class `cl` starting at `i`.
pub fn class_run(cl: CharClass, l: &str, i: usize) -> (r: usize)
    requires
        i <= l@.len(),
    ensures
        r == run_len(cl, l@, i as int),
        i + r <= l@.len(),
{
    let n = l.unicode_len();
    let mut j = i;
    while j < n && char_in_class(cl, l.get_char(j))
        invariant
            i <= j <= n,
            n == l@.len(),
            run_len(cl, l@, i as int) == (j - i) + run_len(cl, l@, j as int),
        decreases n - j,
    {
        j = j + 1;
    }
    j - i
}

/// `l` begins with the characters of `p`.
pub open spec fn has_prefix(l: Seq<char>, p: Seq<char>) -> bool {
    p.len() <= l.len() && l.take(p.len() as int) == p
}

/// Decides whether `l` begins with the characters of `p`.
pub fn starts_with_str(l: &str, p: &str) -> (b: bool)
    ensures
        b == has_prefix(l@, p@),
{
    let ln = l.unicode_len();
    let pn = p.unicode_len();
    if pn > ln {
        return false;
    }
    let mut k: usize = 0;
    while k < pn
        invariant
            0 <= k <= pn,
            pn <= ln,
            pn == p@.len(),
            ln == l@.len(),
            forall|m: int| 0 <= m < k ==> l@[m] == p@[m],
        decreases pn - k,
    {
        if l.get_char(k) != p.get_char(k) {
            proof {
                assert(l@.take(pn as int)[k as int] == l@[k as int]);
            }
            return false;
        }
        k = k + 1;
    }
    proof {
        assert(l@.take(pn as int) =~= p@);
    }
    true
}

/// A line that opens a well-formed function block: the function keyword,
/// whitespace, a name of word characters, and nothing but trailing
/// whitespace.
pub open spec fn is_function_header(l: Seq<char>) -> bool {
    let ws = run_len(CharClass::Space, l, 8);
    let a = 8 + ws;
    let wr = run_len(CharClass::Word, l, a as int);
    has_prefix(l, "function"@) && ws >= 1 && wr >= 1 && a + wr + run_len(
        CharClass::Space,
        l,
        (a + wr) as int,
    ) == l.len()
}

/// Decides [`is_function_header`].
pub fn line_is_function_header(l: &str) -> (b: bool)
    ensures
        b == is_function_header(l@),
{
    if !starts_with_str(l, "function") {
        return false;
    }
    proof {
        reveal_strlit("function");
    }
    let n = l.unicode_len();
    let ws = class_run(CharClass::Space, l, 8);
    if ws == 0 {
        return false;
    }
    let a = 8 + ws;
    let wr = class_run(CharClass::Word, l, a);
    if wr == 0 {
        return false;
    }
    let tr = class_run(CharClass::Space, l, a + wr);
    a + wr + tr == n
}

/// A line consisting solely of the block-end keyword, up to trailing
/// whitespace.
pub open spec fn is_end_line(l: Seq<char>) -> bool {
    has_prefix(l, "end"@) && 3 + run_len(CharClass::Space, l, 3) == l.len()
}

/// Decides [`is_end_line`].
pub fn line_is_end(l: &str) -> (b: bool)
    ensures
        b == is_end_line(l@),
{
    if !starts_with_str(l, "end") {
        return false;
    }
    proof {
        reveal_strlit("end");
    }
    let n = l.unicode_len();
    let tr = class_run(CharClass::Space, l, 3);
    3 + tr == n
}

/// The function name a line declares: on a line made of the function
/// keyword, whitespace and then at least one word character, the maximal
/// run of word characters after the whitespace; on any other line, nothing.
pub open spec fn function_name_of(l: Seq<char>) -> Option<Seq<char>> {
    let ws = run_len(CharClass::Space, l, 8);
    let a = 8 + ws;
    let wr = run_len(CharClass::Word, l, a as int);
    if has_prefix(l, "function"@) && ws >= 1 && wr >= 1 {
        Some(l.subrange(a as int, (a + wr) as int))
    } else {
        None
    }
}

/// Extracts the function name [`function_name_of`] recognizes, if any.
pub fn extract_function_name(l: &str) -> (r: Option<String>)
    ensures
        (match (r, function_name_of(l@)) {
            (Some(s), Some(n)) => s@ == n,
            (None, None) => true,
            _ => false,
        }),
{
    if !starts_with_str(l, "function") {
        return None;
    }
    proof {
        reveal_strlit("function");
    }
    let _line_len = l.unicode_len();
    let ws = class_run(CharClass::Space, l, 8);
    if ws == 0 {
        return None;
    }
    let a = 8 + ws;
    let wr = class_run(CharClass::Word, l, a);
    if wr == 0 {
        return None;
    }
    Some(l.substring_char(a, a + wr).to_owned())
}

/// The variable name a line declares: on a line made of the
/// variable-assignment keyword, whitespace, at least one word character and
/// then another blank (signaling a value follows), the maximal run of word
/// characters; on any other line, nothing.
pub open spec fn variable_name_of(l: Seq<char>) -> Option<Seq<char>> {
    let ws = run_len(CharClass::Space, l, 3);
    let a = 3 + ws;
    let wr = run_len(CharClass::Word, l, a as int);
    if has_prefix(l, "set"@) && ws >= 1 && wr >= 1 && a + wr < l.len() && is_space_char(
        l[(a + wr) as int],
    ) {
        Some(l.subrange(a as int, (a + wr) as int))
    } else {
        None
    }
}

/// Extracts the variable name [`variable_name_of`] recognizes, if any.
pub fn extract_variable_name(l: &str) -> (r: Option<String>)
    ensures
        (match (r, variable_name_of(l@)) {
            (Some(s), Some(n)) => s@ == n,
            (None, None) => true,
            _ => false,
        }),
{
    if !starts_with_str(l, "set") {
        return None;
    }
    proof {
        reveal_strlit("set");
    }
    let n = l.unicode_len();
    let ws = class_run(CharClass::Space, l, 3);
    if ws == 0 {
        return None;
    }
    let a = 3 + ws;
    let wr = class_run(CharClass::Word, l, a);
    if wr == 0 {
        return None;
    }
    if a + wr >= n {
        return None;
    }
    if !char_in_class(CharClass::Space, l.get_char(a + wr)) {
        return None;
    }
    Some(l.substring_char(a, a + wr).to_owned())
}

/// After the variable name, a well-formed declaration holds zero or more
/// whitespace-separated double-quoted string literals and then only
/// trailing whitespace.
pub open spec fn valid_set_tail(l: Seq<char>, p: int) -> bool
    decreases l.len() - p when 0 <= p <= l.len()
{
    let ws = run_len(CharClass::Space, l, p);
    let q = run_len(CharClass::NotQuote, l, p + ws + 1);
    if p + ws == l.len() {
        true
    } else if ws >= 1 && p + ws < l.len() && l[p + ws] == '"' {
        p + ws + 1 + q < l.len() && valid_set_tail(l, p + ws + 1 + q + 1)
    } else {
        false
    }
}

/// A well-formed variable declaration line: the variable-assignment
/// keyword, whitespace, a name of word characters, then zero or more
/// whitespace-separated double-quoted string literals and optional trailing
/// whitespace, and nothing else.
pub open spec fn is_valid_set_line(l: Seq<char>) -> bool {
    let ws = run_len(CharClass::Space, l, 3);
    let a = 3 + ws;
    let wr = run_len(CharClass::Word, l, a as int);
    has_prefix(l, "set"@) && ws >= 1 && wr >= 1 && valid_set_tail(l, (a + wr) as int)
}

/// Decides [`is_valid_set_line`].
#[verifier::loop_isolation(false)]
pub fn line_is_valid_set(l: &str) -> (b: bool)
    ensures
        b == is_valid_set_line(l@),
{
    if !starts_with_str(l, "set") {
        return false;
    }
    proof {
        reveal_strlit("set");
    }
    let n = l.unicode_len();
    let ws = class_run(CharClass::Space, l, 3);
    if ws == 0 {
        return false;
    }
    let a = 3 + ws;
    let wr = class_run(CharClass::Word, l, a);
    if wr == 0 {
        return false;
    }
    let mut p = a + wr;
    loop
        invariant
            p <= n,
            n == l@.len(),
            valid_set_tail(l@, (a + wr) as int) == valid_set_tail(l@, p as int),
        decreases n - p,
    {
        let sp = class_run(CharClass::Space, l, p);
        if p + sp == n {
            return true;
        }
        if sp == 0 || l.get_char(p + sp) != '"' {
            return false;
        }
        let q = class_run(CharClass::NotQuote, l, p + sp + 1);
        if p + sp + 1 + q == n {
            return false;
        }
        p = p + sp + 1 + q + 1;
    }
}

} // verus!
