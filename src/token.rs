//! The token model: a flat sequence in which every bracketed group is an
//! `Open` token, its contents, and a `Close` token. A region of the sequence
//! is a pair of indices `pos..end`; lookahead and backtracking copy indices
//! only, never tokens.
use vstd::prelude::*;
use crate::text::str_eq;

verus! {

#[derive(Clone, Copy, Debug, PartialEq, Eq, Structural)]
pub enum Delim {
    Paren,
    Bracket,
    Brace,
}

#[derive(Debug)]
pub enum Token {
    Ident(String),
    /// A punctuation character; the flag is set when the next character is
    /// joined to it (the `=` of `=>`).
    Punct(char, bool),
    /// A string literal, by its value.
    Str(String),
    /// An integer literal, by its value.
    Int(u64),
    /// Any other literal, by its text.
    Other(String),
    Open(Delim),
    Close(Delim),
}

pub open spec fn is_punct(t: Seq<Token>, i: int, c: char) -> bool {
    0 <= i < t.len() && (t[i] matches Token::Punct(p, _) && p == c)
}

pub open spec fn is_joint_punct(t: Seq<Token>, i: int, c: char) -> bool {
    0 <= i < t.len() && (t[i] matches Token::Punct(p, j) && p == c && j)
}

pub open spec fn is_ident(t: Seq<Token>, i: int) -> bool {
    0 <= i < t.len() && t[i] is Ident
}

pub open spec fn ident_text(t: Seq<Token>, i: int) -> Seq<char> {
    if 0 <= i < t.len() {
        match t[i] {
            Token::Ident(s) => s@,
            _ => Seq::empty(),
        }
    } else {
        Seq::empty()
    }
}

pub open spec fn is_keyword(t: Seq<Token>, i: int, kw: Seq<char>) -> bool {
    is_ident(t, i) && ident_text(t, i) == kw
}

pub open spec fn is_str(t: Seq<Token>, i: int) -> bool {
    0 <= i < t.len() && t[i] is Str
}

pub open spec fn is_int(t: Seq<Token>, i: int) -> bool {
    0 <= i < t.len() && t[i] is Int
}

pub open spec fn int_value(t: Seq<Token>, i: int) -> int {
    if 0 <= i < t.len() {
        match t[i] {
            Token::Int(v) => v as int,
            _ => 0,
        }
    } else {
        0
    }
}

pub open spec fn is_open(t: Seq<Token>, i: int, d: Delim) -> bool {
    0 <= i < t.len() && (t[i] matches Token::Open(e) && e == d)
}

/// A region `pos..end` of the token sequence.
pub open spec fn region(t: Seq<Token>, pos: int, end: int) -> bool {
    0 <= pos <= end <= t.len()
}

/// Index of the token that closes the group whose tokens from `k` on are
/// scanned at nesting `depth`, within `..end`.
pub open spec fn close_scan(t: Seq<Token>, k: int, end: int, depth: nat) -> Option<int>
    decreases end - k,
{
    if k >= end || k < 0 {
        None
    } else {
        match t[k] {
            Token::Open(_) => close_scan(t, k + 1, end, depth + 1),
            Token::Close(_) => if depth <= 1 {
                Some(k)
            } else {
                close_scan(t, k + 1, end, (depth - 1) as nat)
            },
            _ => close_scan(t, k + 1, end, depth),
        }
    }
}

/// Index of the token that closes the group opened at `open`, within `..end`.
pub open spec fn close_of(t: Seq<Token>, open: int, end: int) -> Option<int> {
    close_scan(t, open, end, 0)
}

pub proof fn lemma_close_scan_bounds(t: Seq<Token>, k: int, end: int, depth: nat)
    requires
        end <= t.len(),
    ensures
        close_scan(t, k, end, depth) matches Some(c) ==> k <= c < end,
    decreases end - k,
{
    if k >= end || k < 0 {
    } else {
        match t[k] {
            Token::Open(_) => lemma_close_scan_bounds(t, k + 1, end, depth + 1),
            Token::Close(_) => if depth > 1 {
                lemma_close_scan_bounds(t, k + 1, end, (depth - 1) as nat)
            },
            _ => lemma_close_scan_bounds(t, k + 1, end, depth),
        }
    }
}

proof fn lemma_close_scan_is_close(t: Seq<Token>, k: int, end: int, depth: nat)
    requires
        end <= t.len(),
    ensures
        close_scan(t, k, end, depth) matches Some(c) ==> t[c] is Close,
    decreases end - k,
{
    if k >= end || k < 0 {
    } else {
        match t[k] {
            Token::Open(_) => lemma_close_scan_is_close(t, k + 1, end, depth + 1),
            Token::Close(_) => if depth > 1 {
                lemma_close_scan_is_close(t, k + 1, end, (depth - 1) as nat)
            },
            _ => lemma_close_scan_is_close(t, k + 1, end, depth),
        }
    }
}

/// The group closed by `close_of` ends with a `Close` token.
pub proof fn lemma_close_is_close(t: Seq<Token>, open: int, end: int)
    requires
        end <= t.len(),
    ensures
        close_of(t, open, end) matches Some(c) ==> open <= c < end && t[c] is Close,
{
    lemma_close_scan_is_close(t, open, end, 0);
    lemma_close_scan_bounds(t, open, end, 0);
}

/// The closing partner of the group opened at `open`: lookahead rebased onto
/// the group's contents `open + 1 .. c`.
pub fn group_close(toks: &Vec<Token>, open: usize, end: usize) -> (r: Option<usize>)
    requires
        open < end <= toks@.len(),
        toks@[open as int] is Open,
    ensures
        match close_of(toks@, open as int, end as int) {
            Some(c) => r == Some(c as usize) && open < c < end,
            None => r is None,
        },
{
    proof {
        lemma_close_scan_bounds(toks@, open as int + 1, end as int, 1);
    }
    let mut k: usize = open + 1;
    let mut depth: usize = 1;
    while k < end
        invariant
            open < k <= end <= toks@.len(),
            1 <= depth <= k - open,
            close_of(toks@, open as int, end as int) == close_scan(toks@, k as int, end as int, depth as nat),
            close_scan(toks@, k as int, end as int, depth as nat) matches Some(c) ==> k <= c < end,
        decreases end - k,
    {
        proof {
            lemma_close_scan_bounds(toks@, k as int + 1, end as int, depth as nat + 1);
            lemma_close_scan_bounds(toks@, k as int + 1, end as int, depth as nat);
            if depth > 1 {
                lemma_close_scan_bounds(toks@, k as int + 1, end as int, (depth - 1) as nat);
            }
        }
        match &toks[k] {
            Token::Open(_) => {
                depth = depth + 1;
            },
            Token::Close(_) => {
                if depth <= 1 {
                    return Some(k);
                }
                depth = depth - 1;
            },
            _ => {},
        }
        k = k + 1;
    }
    None
}

pub fn punct_at(toks: &Vec<Token>, i: usize, end: usize, c: char) -> (r: bool)
    requires
        end <= toks@.len(),
    ensures
        r == (i < end && is_punct(toks@, i as int, c)),
{
    if i >= end {
        return false;
    }
    match &toks[i] {
        Token::Punct(p, _) => *p == c,
        _ => false,
    }
}

pub fn joint_punct_at(toks: &Vec<Token>, i: usize, end: usize, c: char) -> (r: bool)
    requires
        end <= toks@.len(),
    ensures
        r == (i < end && is_joint_punct(toks@, i as int, c)),
{
    if i >= end {
        return false;
    }
    match &toks[i] {
        Token::Punct(p, j) => *p == c && *j,
        _ => false,
    }
}

pub fn ident_at(toks: &Vec<Token>, i: usize, end: usize) -> (r: bool)
    requires
        end <= toks@.len(),
    ensures
        r == (i < end && is_ident(toks@, i as int)),
{
    i < end && matches!(toks[i], Token::Ident(_))
}

pub fn keyword_at(toks: &Vec<Token>, i: usize, end: usize, kw: &str) -> (r: bool)
    requires
        end <= toks@.len(),
    ensures
        r == (i < end && is_keyword(toks@, i as int, kw@)),
{
    if i >= end {
        return false;
    }
    match &toks[i] {
        Token::Ident(s) => str_eq(s.as_str(), kw),
        _ => false,
    }
}

pub fn open_at(toks: &Vec<Token>, i: usize, end: usize, d: Delim) -> (r: bool)
    requires
        end <= toks@.len(),
    ensures
        r == (i < end && is_open(toks@, i as int, d)),
{
    if i >= end {
        return false;
    }
    match &toks[i] {
        Token::Open(e) => *e == d,
        _ => false,
    }
}

/// The text of the identifier at `i`, copied.
pub fn ident_string(toks: &Vec<Token>, i: usize) -> (r: String)
    requires
        is_ident(toks@, i as int),
    ensures
        r@ == ident_text(toks@, i as int),
{
    match &toks[i] {
        Token::Ident(s) => s.clone(),
        _ => String::new(),
    }
}

pub open spec fn str_text(t: Seq<Token>, i: int) -> Seq<char> {
    if 0 <= i < t.len() {
        match t[i] {
            Token::Str(s) => s@,
            _ => Seq::empty(),
        }
    } else {
        Seq::empty()
    }
}

} // verus!
