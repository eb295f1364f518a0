//! Naming helpers for the emitter: snake_case, camelCase and type names.
use vstd::prelude::*;
use vstd::string::StrSliceExecFns;
use crate::text::{push_char, push_str};

verus! {

/// Whether `c` has the Unicode `Uppercase` property.
pub uninterp spec fn uppercase_prop(c: char) -> bool;

/// Whether `c` has the Unicode `Alphabetic` property.
pub uninterp spec fn alphabetic_prop(c: char) -> bool;

/// The characters of the Unicode uppercase mapping of `c`.
pub uninterp spec fn upper_mapping(c: char) -> Seq<char>;

/// Relies on `char::is_uppercase`: whether `c` has the Uppercase property.
#[verifier::external_body]
fn char_is_uppercase(c: char) -> (r: bool)
    ensures
        r == uppercase_prop(c),
{
    c.is_uppercase()
}

/// Relies on `char::is_alphabetic`: whether `c` has the Alphabetic property.
#[verifier::external_body]
fn char_is_alphabetic(c: char) -> (r: bool)
    ensures
        r == alphabetic_prop(c),
{
    c.is_alphabetic()
}

/// Relies on `char::to_uppercase`: the characters of the uppercase mapping
/// of `c`, collected into a string.
#[verifier::external_body]
fn char_to_uppercase(c: char) -> (r: String)
    ensures
        r@ == upper_mapping(c),
{
    c.to_uppercase().collect::<String>()
}

pub open spec fn ascii_upper(c: char) -> char {
    if 'a' <= c <= 'z' {
        (((c as u8) - 32) as u8) as char
    } else {
        c
    }
}

pub open spec fn ascii_lower(c: char) -> char {
    if 'A' <= c <= 'Z' {
        (((c as u8) + 32) as u8) as char
    } else {
        c
    }
}

/// `char::to_ascii_uppercase`: only `a..=z` change.
pub fn to_ascii_upper(c: char) -> (r: char)
    ensures
        r == ascii_upper(c),
{
    if 'a' <= c && c <= 'z' {
        ((c as u8) - 32) as char
    } else {
        c
    }
}

/// `char::to_ascii_lowercase`: only `A..=Z` change.
pub fn to_ascii_lower(c: char) -> (r: char)
    ensures
        r == ascii_lower(c),
{
    if 'A' <= c && c <= 'Z' {
        ((c as u8) + 32) as char
    } else {
        c
    }
}

pub open spec fn all_upper(w: Seq<char>) -> bool {
    forall|i: int| 0 <= i < w.len() ==> #[trigger] uppercase_prop(w[i])
}

fn is_all_upper(w: &str) -> (r: bool)
    ensures
        r == all_upper(w@),
{
    let n = w.unicode_len();
    let mut i: usize = 0;
    while i < n
        invariant
            n == w@.len(),
            i <= n,
            forall|k: int| 0 <= k < i ==> #[trigger] uppercase_prop(w@[k]),
        decreases n - i,
    {
        if !char_is_uppercase(w.get_char(i)) {
            return false;
        }
        i += 1;
    }
    true
}

/// What the character `c` at index `i` of a word becomes in snake_case.
pub open spec fn snake_char(c: char, i: int, cap: bool) -> Seq<char> {
    if uppercase_prop(c) && i != 0 {
        seq!['_', if cap { ascii_upper(c) } else { ascii_lower(c) }]
    } else {
        seq![ascii_lower(c)]
    }
}

pub open spec fn snake_chars(w: Seq<char>, n: int, cap: bool) -> Seq<char>
    decreases n,
{
    if n <= 0 {
        Seq::empty()
    } else {
        snake_chars(w, n - 1, cap) + snake_char(w[n - 1], n - 1, cap)
    }
}

/// One word in snake_case; a word in capitals stays as it is.
pub open spec fn snake_word(w: Seq<char>, cap: bool) -> Seq<char> {
    if all_upper(w) {
        w
    } else {
        snake_chars(w, w.len() as int, cap)
    }
}

/// The first `n` words in snake_case, joined by `_`.
pub open spec fn snake_join(ws: Seq<Seq<char>>, n: int, cap: bool) -> Seq<char>
    decreases n,
{
    if n <= 0 {
        Seq::empty()
    } else if n == 1 {
        snake_word(ws[0], cap)
    } else {
        snake_join(ws, n - 1, cap) + seq!['_'] + snake_word(ws[n - 1], cap)
    }
}

pub open spec fn words_view(words: Seq<&str>) -> Seq<Seq<char>> {
    words.map_values(|w: &str| w@)
}

fn snake_word_exec(w: &str, cap: bool) -> (r: String)
    ensures
        r@ == snake_word(w@, cap),
{
    if is_all_upper(w) {
        return w.to_owned();
    }
    let n = w.unicode_len();
    let mut out = String::new();
    let mut i: usize = 0;
    while i < n
        invariant
            n == w@.len(),
            i <= n,
            out@ == snake_chars(w@, i as int, cap),
        decreases n - i,
    {
        let c = w.get_char(i);
        if char_is_uppercase(c) && i != 0 {
            push_char(&mut out, '_');
            let d = if cap { to_ascii_upper(c) } else { to_ascii_lower(c) };
            push_char(&mut out, d);
        } else {
            push_char(&mut out, to_ascii_lower(c));
        }
        proof {
            assert(out@ =~= snake_chars(w@, i as int + 1, cap));
        }
        i += 1;
    }
    out
}

/// The words converted to snake_case and joined by `_`. A word in capitals
/// is kept; elsewhere each capital after the first character starts a new
/// part, `_` then the capital (kept when `cap`, lowered otherwise).
pub fn snake_case(words: &[&str], cap: bool) -> (r: String)
    ensures
        r@ == snake_join(words_view(words@), words@.len() as int, cap),
{
    let ghost ws = words_view(words@);
    let mut out = String::new();
    let mut i: usize = 0;
    while i < words.len()
        invariant
            ws == words_view(words@),
            i <= words@.len(),
            out@ == snake_join(ws, i as int, cap),
        decreases words@.len() - i,
    {
        let part = snake_word_exec(words[i], cap);
        if i > 0 {
            push_char(&mut out, '_');
        }
        push_str(&mut out, part.as_str());
        proof {
            if i == 0 {
                assert(out@ =~= snake_join(ws, 1, cap));
            } else {
                assert(out@ =~= snake_join(ws, i as int + 1, cap));
            }
        }
        i += 1;
    }
    out
}

/// One step of camelCase over the character `c` at index `i` of word `w`;
/// the state is the output so far and whether the next letter is raised.
pub open spec fn camel_step(st: (Seq<char>, bool), c: char, i: int, w: int, cap_first: bool) -> (Seq<char>, bool) {
    if c == '_' || c == '-' {
        (st.0, true)
    } else if alphabetic_prop(c) {
        if (w == 0 && i == 0 && cap_first) || (w != 0 && i == 0) {
            (st.0.push(ascii_upper(c)), st.1)
        } else if st.1 {
            (st.0.push(ascii_upper(c)), false)
        } else {
            (st.0.push(ascii_lower(c)), false)
        }
    } else {
        st
    }
}

pub open spec fn camel_chars(s: Seq<char>, n: int, w: int, cap_first: bool, st: (Seq<char>, bool)) -> (Seq<char>, bool)
    decreases n,
{
    if n <= 0 {
        st
    } else {
        camel_step(camel_chars(s, n - 1, w, cap_first, st), s[n - 1], n - 1, w, cap_first)
    }
}

/// The state after the first `n` words.
pub open spec fn camel_words(ws: Seq<Seq<char>>, n: int, cap_first: bool) -> (Seq<char>, bool)
    decreases n,
{
    if n <= 0 {
        (Seq::empty(), false)
    } else {
        let st = camel_words(ws, n - 1, cap_first);
        if all_upper(ws[n - 1]) {
            (st.0 + ws[n - 1], st.1)
        } else {
            let s = snake_word(ws[n - 1], false);
            camel_chars(s, s.len() as int, n - 1, cap_first, st)
        }
    }
}

/// The words joined in camelCase (CamelCase when `cap_first`). A word in
/// capitals is kept as it is; every other word is first put in snake_case,
/// then `_` and `-` raise the next letter and other non-letters are dropped.
#[allow(non_snake_case)]
pub fn camelCase(words: &[&str], cap_first: bool) -> (r: String)
    ensures
        r@ == camel_words(words_view(words@), words@.len() as int, cap_first).0,
{
    let ghost ws = words_view(words@);
    let mut result = String::new();
    let mut cap_next = false;
    let mut w: usize = 0;
    while w < words.len()
        invariant
            ws == words_view(words@),
            w <= words@.len(),
            (result@, cap_next) == camel_words(ws, w as int, cap_first),
        decreases words@.len() - w,
    {
        let word = words[w];
        if is_all_upper(word) {
            push_str(&mut result, word);
        } else {
            let s = snake_word_exec(word, false);
            let n = s.as_str().unicode_len();
            let ghost st0 = (result@, cap_next);
            let mut i: usize = 0;
            while i < n
                invariant
                    n == s@.len(),
                    i <= n,
                    (result@, cap_next) == camel_chars(s@, i as int, w as int, cap_first, st0),
                decreases n - i,
            {
                let c = s.as_str().get_char(i);
                if c == '_' || c == '-' {
                    cap_next = true;
                } else if char_is_alphabetic(c) {
                    if (w == 0 && i == 0 && cap_first) || (w != 0 && i == 0) {
                        push_char(&mut result, to_ascii_upper(c));
                    } else if cap_next {
                        push_char(&mut result, to_ascii_upper(c));
                        cap_next = false;
                    } else {
                        push_char(&mut result, to_ascii_lower(c));
                    }
                }
                i += 1;
            }
        }
        w += 1;
    }
    result
}

/// A word with its first character raised by the Unicode uppercase mapping.
pub open spec fn capitalized(w: Seq<char>) -> Seq<char> {
    if w.len() == 0 {
        Seq::empty()
    } else {
        upper_mapping(w[0]) + w.subrange(1, w.len() as int)
    }
}

pub open spec fn type_identifier(ws: Seq<Seq<char>>, n: int) -> Seq<char>
    decreases n,
{
    if n <= 0 {
        Seq::empty()
    } else {
        type_identifier(ws, n - 1) + capitalized(ws[n - 1])
    }
}

/// The words concatenated, each with its first character raised: a type name.
pub fn create_type_identifier(words: &[&str]) -> (r: String)
    ensures
        r@ == type_identifier(words_view(words@), words@.len() as int),
{
    let ghost ws = words_view(words@);
    let mut out = String::new();
    let mut i: usize = 0;
    while i < words.len()
        invariant
            ws == words_view(words@),
            i <= words@.len(),
            out@ == type_identifier(ws, i as int),
        decreases words@.len() - i,
    {
        let word = words[i];
        let n = word.unicode_len();
        if n > 0 {
            let first = char_to_uppercase(word.get_char(0));
            push_str(&mut out, first.as_str());
            let ghost base = out@;
            let mut k: usize = 1;
            while k < n
                invariant
                    n == word@.len(),
                    1 <= k <= n,
                    out@ == base + word@.subrange(1, k as int),
                decreases n - k,
            {
                push_char(&mut out, word.get_char(k));
                proof {
                    assert(out@ =~= base + word@.subrange(1, k as int + 1));
                }
                k += 1;
            }
        }
        proof {
            assert(out@ =~= type_identifier(ws, i as int + 1));
        }
        i += 1;
    }
    out
}

/// The name of the type that gathers one endpoint method's data types:
/// the group's name and the method's verb in CamelCase.
pub fn method_struct_name(group: &str, method: crate::ast::RestMethods) -> (r: String)
    ensures
        r@ == camel_words(seq![group@, method.spec_name()], 2, true).0,
{
    let words: [&str; 2] = [group, method.name()];
    let r = camelCase(&words, true);
    proof {
        assert(words_view(words@) =~= seq![group@, method.spec_name()]);
    }
    r
}

/// The name of the field that holds a data type of an endpoint method: the
/// type's name in snake_case.
pub fn method_param_name(data_type: &str) -> (r: String)
    ensures
        r@ == snake_word(data_type@, false),
{
    snake_word_exec(data_type, false)
}

} // verus!
