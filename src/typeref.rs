//! Where a type reference ends. A type is `&`, an optional lifetime and `mut`
//! before a type; a parenthesised or bracketed group; or a path of
//! identifiers joined by `::`, each with optional generic arguments `<...>`.
use vstd::prelude::*;
use crate::error::{fail, syn_err, ErrorKind, ErrorV, ParseError};
use crate::token::{
    close_of, group_close, ident_at, is_ident, is_joint_punct, is_keyword, is_open, is_punct,
    joint_punct_at, keyword_at, open_at, punct_at, region, Delim, Token,
};
use crate::validate::UNCLOSED;

verus! {

pub const EXPECTED_TYPE: &'static str = "expected a type";
pub const UNCLOSED_GENERICS: &'static str = "generic arguments are not closed by `>`";

pub open spec fn is_any_open(t: Seq<Token>, i: int) -> bool {
    0 <= i < t.len() && t[i] is Open
}

pub open spec fn is_any_close(t: Seq<Token>, i: int) -> bool {
    0 <= i < t.len() && t[i] is Close
}

/// A `>` that closes generic arguments (not the `>` of `->`).
pub open spec fn is_closing_angle(t: Seq<Token>, i: int) -> bool {
    is_punct(t, i, '>') && !is_joint_punct(t, i - 1, '-')
}

/// The index of the `>` that ends generic arguments scanned from `k` at
/// nesting `depth`; groups are skipped whole.
pub open spec fn spec_angle(t: Seq<Token>, k: int, end: int, depth: nat) -> Option<int>
    decreases end - k,
{
    if !(0 <= k < end) {
        None
    } else if is_any_open(t, k) {
        match close_of(t, k, end) {
            Some(c) => if k < c < end {
                spec_angle(t, c + 1, end, depth)
            } else {
                None
            },
            None => None,
        }
    } else if is_any_close(t, k) {
        None
    } else if is_punct(t, k, '<') {
        spec_angle(t, k + 1, end, depth + 1)
    } else if is_closing_angle(t, k) {
        if depth <= 1 {
            Some(k)
        } else {
            spec_angle(t, k + 1, end, (depth - 1) as nat)
        }
    } else {
        spec_angle(t, k + 1, end, depth)
    }
}

pub proof fn lemma_angle_bounds(t: Seq<Token>, k: int, end: int, depth: nat)
    ensures
        spec_angle(t, k, end, depth) matches Some(m) ==> k <= m < end,
    decreases end - k,
{
    if !(0 <= k < end) {
    } else if is_any_open(t, k) {
        match close_of(t, k, end) {
            Some(c) => if k < c < end {
                lemma_angle_bounds(t, c + 1, end, depth);
            },
            None => {},
        }
    } else if is_any_close(t, k) {
    } else if is_punct(t, k, '<') {
        lemma_angle_bounds(t, k + 1, end, depth + 1);
    } else if is_closing_angle(t, k) {
        if depth > 1 {
            lemma_angle_bounds(t, k + 1, end, (depth - 1) as nat);
        }
    } else {
        lemma_angle_bounds(t, k + 1, end, depth);
    }
}

fn angle_end(toks: &Vec<Token>, k0: usize, end: usize) -> (r: Option<usize>)
    requires
        region(toks@, k0 as int, end as int),
        k0 >= 1,
    ensures
        match spec_angle(toks@, k0 as int, end as int, 1) {
            Some(m) => r == Some(m as usize) && k0 <= m < end,
            None => r is None,
        },
{
    proof {
        lemma_angle_bounds(toks@, k0 as int, end as int, 1);
    }
    let mut k = k0;
    let mut depth: usize = 1;
    while k < end
        invariant
            k0 <= k <= end <= toks@.len(),
            k0 >= 1,
            1 <= depth <= k - k0 + 1,
            spec_angle(toks@, k0 as int, end as int, 1) == spec_angle(toks@, k as int, end as int, depth as nat),
        decreases end - k,
    {
        proof {
            lemma_angle_bounds(toks@, k as int, end as int, depth as nat);
        }
        if matches!(toks[k], Token::Open(_)) {
            match group_close(toks, k, end) {
                Some(c) => {
                    k = c + 1;
                },
                None => {
                    return None;
                },
            }
        } else if matches!(toks[k], Token::Close(_)) {
            return None;
        } else if punct_at(toks, k, end, '<') {
            depth = depth + 1;
            k = k + 1;
        } else if punct_at(toks, k, end, '>') && !joint_punct_at(toks, k - 1, end, '-') {
            if depth <= 1 {
                return Some(k);
            }
            depth = depth - 1;
            k = k + 1;
        } else {
            k = k + 1;
        }
    }
    None
}

/// The position after the path segments from `pos`.
pub open spec fn spec_segments(t: Seq<Token>, pos: int, end: int) -> Result<int, ErrorV>
    decreases end - pos,
{
    if !(0 <= pos < end && is_ident(t, pos)) {
        Err(syn_err(pos, EXPECTED_TYPE@))
    } else {
        let g: Result<int, ErrorV> = if pos + 1 < end && is_punct(t, pos + 1, '<') {
            match spec_angle(t, pos + 2, end, 1) {
                Some(m) => Ok(m + 1),
                None => Err(syn_err(pos + 1, UNCLOSED_GENERICS@)),
            }
        } else {
            Ok(pos + 1)
        };
        match g {
            Err(e) => Err(e),
            Ok(k) => if pos < k && k + 1 < end && is_joint_punct(t, k, ':') && is_punct(t, k + 1, ':') {
                spec_segments(t, k + 2, end)
            } else {
                Ok(k)
            },
        }
    }
}

fn parse_segments(toks: &Vec<Token>, pos: usize, end: usize) -> (r: Result<usize, ParseError>)
    requires
        region(toks@, pos as int, end as int),
    ensures
        match (r, spec_segments(toks@, pos as int, end as int)) {
            (Ok(n), Ok(m)) => n as int == m && pos < n <= end,
            (Err(e), Err(f)) => e@ == f,
            _ => false,
        },
    decreases end - pos,
{
    if !ident_at(toks, pos, end) {
        return Err(fail(ErrorKind::Syntax, pos, EXPECTED_TYPE));
    }
    let k = if punct_at(toks, pos + 1, end, '<') {
        match angle_end(toks, pos + 2, end) {
            Some(m) => m + 1,
            None => {
                return Err(fail(ErrorKind::Syntax, pos + 1, UNCLOSED_GENERICS));
            },
        }
    } else {
        pos + 1
    };
    if joint_punct_at(toks, k, end, ':') && punct_at(toks, k + 1, end, ':') {
        parse_segments(toks, k + 2, end)
    } else {
        Ok(k)
    }
}

/// The position after the type that starts at `pos`.
pub open spec fn spec_type(t: Seq<Token>, pos: int, end: int) -> Result<int, ErrorV>
    decreases end - pos,
{
    if !(0 <= pos < end) {
        Err(syn_err(pos, EXPECTED_TYPE@))
    } else if is_punct(t, pos, '&') {
        let k = if pos + 2 < end && is_punct(t, pos + 1, '\'') && is_ident(t, pos + 2) {
            pos + 3
        } else {
            pos + 1
        };
        let k2 = if k < end && is_keyword(t, k, "mut"@) {
            k + 1
        } else {
            k
        };
        spec_type(t, k2, end)
    } else if is_open(t, pos, Delim::Paren) || is_open(t, pos, Delim::Bracket) {
        match close_of(t, pos, end) {
            None => Err(syn_err(pos, UNCLOSED@)),
            Some(c) => Ok(c + 1),
        }
    } else if pos + 1 < end && is_joint_punct(t, pos, ':') && is_punct(t, pos + 1, ':') {
        spec_segments(t, pos + 2, end)
    } else {
        spec_segments(t, pos, end)
    }
}

pub fn parse_type(toks: &Vec<Token>, pos: usize, end: usize) -> (r: Result<usize, ParseError>)
    requires
        region(toks@, pos as int, end as int),
    ensures
        match (r, spec_type(toks@, pos as int, end as int)) {
            (Ok(n), Ok(m)) => n as int == m && pos < n <= end,
            (Err(e), Err(f)) => e@ == f,
            _ => false,
        },
    decreases end - pos,
{
    if pos >= end {
        return Err(fail(ErrorKind::Syntax, pos, EXPECTED_TYPE));
    }
    if punct_at(toks, pos, end, '&') {
        let k = if end - pos > 2 && punct_at(toks, pos + 1, end, '\'') && ident_at(toks, pos + 2, end) {
            pos + 3
        } else {
            pos + 1
        };
        let k2 = if keyword_at(toks, k, end, "mut") {
            k + 1
        } else {
            k
        };
        parse_type(toks, k2, end)
    } else if open_at(toks, pos, end, Delim::Paren) || open_at(toks, pos, end, Delim::Bracket) {
        match group_close(toks, pos, end) {
            None => Err(fail(ErrorKind::Syntax, pos, UNCLOSED)),
            Some(c) => Ok(c + 1),
        }
    } else if joint_punct_at(toks, pos, end, ':') && punct_at(toks, pos + 1, end, ':') {
        parse_segments(toks, pos + 2, end)
    } else {
        parse_segments(toks, pos, end)
    }
}

} // verus!
