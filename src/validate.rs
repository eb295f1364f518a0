//! The validation chain inside `validate(...)`: an ordered list of actions.
use vstd::prelude::*;
use crate::error::{
    advances, fail, fail_naming, naming, res_eq_plain, sem_err, syn_err, ErrorKind, ErrorV,
    ParseError,
};
use crate::token::{
    ident_at, ident_string, ident_text, int_value, is_ident, is_int, is_keyword, is_punct, is_str,
    keyword_at, punct_at, region, Token, Delim, close_of, group_close, is_open, open_at,
};

verus! {

pub const EXPECTED_ACTION: &'static str = "validate: expected an action (required, email, range, regex, custom)";
pub const UNKNOWN_ACTION: &'static str = "validate: unknown action ";
pub const EXPECTED_ACTION_COMMA: &'static str = "validate: actions must be separated by `,`";
pub const EXPECTED_EQ: &'static str = "expected `=`";
pub const EXPECTED_STR: &'static str = "expected a string literal";
pub const EXPECTED_PAREN: &'static str = "expected `(`";
pub const UNCLOSED: &'static str = "group is not closed";
pub const RANGE_START: &'static str = "range: expected `min` or `max`";
pub const RANGE_UNKNOWN: &'static str = "range: unknown bound ";
pub const RANGE_COLON: &'static str = "range: a bound name must be followed by `:`";
pub const RANGE_INT: &'static str = "range: a bound must be an integer";
pub const RANGE_COMMA: &'static str = "range: `min` and `max` must be separated by `,`";
pub const RANGE_EXPECTED_MAX: &'static str = "range: expected `max` after `min`";
pub const RANGE_DUP_MIN: &'static str = "range: duplicate `min`";
pub const RANGE_DUP_MAX: &'static str = "range: duplicate `max`";
pub const RANGE_ORDER: &'static str = "range: `min` must come before `max`";
pub const RANGE_END: &'static str = "range: expected `)` after `max`";

/// The names of the validation actions.
#[derive(Clone, Copy, Debug, PartialEq, Eq, Structural)]
pub enum ParameterValidate {
    Required,
    Regex,
    Email,
    Range,
    Custom,
}

impl ParameterValidate {
    pub open spec fn spec_name(self) -> Seq<char> {
        match self {
            ParameterValidate::Required => "required"@,
            ParameterValidate::Regex => "regex"@,
            ParameterValidate::Email => "email"@,
            ParameterValidate::Range => "range"@,
            ParameterValidate::Custom => "custom"@,
        }
    }

    /// The action's name as written in a declaration.
    pub fn name(&self) -> (r: &'static str)
        ensures
            r@ == self.spec_name(),
    {
        match self {
            ParameterValidate::Required => "required",
            ParameterValidate::Regex => "regex",
            ParameterValidate::Email => "email",
            ParameterValidate::Range => "range",
            ParameterValidate::Custom => "custom",
        }
    }
}

impl ValidateAction {
    /// The name of the action.
    pub fn kind(&self) -> (r: ParameterValidate)
        ensures
            r == (match self {
                ValidateAction::Required => ParameterValidate::Required,
                ValidateAction::Email => ParameterValidate::Email,
                ValidateAction::Range { .. } => ParameterValidate::Range,
                ValidateAction::Regex(_) => ParameterValidate::Regex,
                ValidateAction::Custom(_) => ParameterValidate::Custom,
            }),
    {
        match self {
            ValidateAction::Required => ParameterValidate::Required,
            ValidateAction::Email => ParameterValidate::Email,
            ValidateAction::Range { .. } => ParameterValidate::Range,
            ValidateAction::Regex(_) => ParameterValidate::Regex,
            ValidateAction::Custom(_) => ParameterValidate::Custom,
        }
    }
}

/// One validation action.
#[derive(Clone, Copy, Debug, PartialEq, Eq, Structural)]
pub enum ValidateAction {
    Required,
    Email,
    Range { min: Option<i128>, max: Option<i128> },
    /// The index of the string literal holding the pattern.
    Regex(usize),
    /// The index of the string literal naming the check.
    Custom(usize),
}

/// An ordered, non-empty list of validation actions.
#[derive(Debug)]
pub struct ValidateChain {
    pub actions: Vec<ValidateAction>,
}

impl View for ValidateChain {
    type V = Seq<ValidateAction>;

    open spec fn view(&self) -> Seq<ValidateAction> {
        self.actions@
    }
}

/// `= "literal"` at `pos`: the index of the literal.
pub open spec fn spec_str_arg(t: Seq<Token>, pos: int, end: int) -> Result<(usize, int), ErrorV> {
    if !(pos < end && is_punct(t, pos, '=')) {
        Err(syn_err(pos, EXPECTED_EQ@))
    } else if !(pos + 1 < end && is_str(t, pos + 1)) {
        Err(syn_err(pos + 1, EXPECTED_STR@))
    } else {
        Ok(((pos + 1) as usize, pos + 2))
    }
}

pub fn parse_str_arg(toks: &Vec<Token>, pos: usize, end: usize) -> (r: Result<(usize, usize), ParseError>)
    requires
        region(toks@, pos as int, end as int),
    ensures
        res_eq_plain(r, spec_str_arg(toks@, pos as int, end as int)),
        advances(r, pos as int, end as int),
{
    if !punct_at(toks, pos, end, '=') {
        return Err(fail(ErrorKind::Syntax, pos, EXPECTED_EQ));
    }
    if !(pos + 1 < end && matches!(toks[pos + 1], Token::Str(_))) {
        return Err(fail(ErrorKind::Syntax, pos + 1, EXPECTED_STR));
    }
    Ok((pos + 1, pos + 2))
}

/// `: N` or `: -N` at `pos`: the value of the bound.
pub open spec fn spec_bound(t: Seq<Token>, pos: int, end: int) -> Result<(i128, int), ErrorV> {
    if !(pos < end && is_punct(t, pos, ':')) {
        Err(syn_err(pos, RANGE_COLON@))
    } else if pos + 2 < end && is_punct(t, pos + 1, '-') && is_int(t, pos + 2) {
        Ok(((-int_value(t, pos + 2)) as i128, pos + 3))
    } else if pos + 1 < end && is_int(t, pos + 1) {
        Ok((int_value(t, pos + 1) as i128, pos + 2))
    } else {
        Err(syn_err(pos + 1, RANGE_INT@))
    }
}

fn parse_bound(toks: &Vec<Token>, pos: usize, end: usize) -> (r: Result<(i128, usize), ParseError>)
    requires
        region(toks@, pos as int, end as int),
    ensures
        res_eq_plain(r, spec_bound(toks@, pos as int, end as int)),
        advances(r, pos as int, end as int),
{
    if !punct_at(toks, pos, end, ':') {
        return Err(fail(ErrorKind::Syntax, pos, RANGE_COLON));
    }
    if punct_at(toks, pos + 1, end, '-') && pos + 2 < end {
        if let Token::Int(v) = &toks[pos + 2] {
            return Ok((-(*v as i128), pos + 3));
        }
    }
    if pos + 1 < end {
        if let Token::Int(v) = &toks[pos + 1] {
            return Ok((*v as i128, pos + 2));
        }
    }
    Err(fail(ErrorKind::Syntax, pos + 1, RANGE_INT))
}

/// The error for tokens left after the `max` bound, at `m`.
pub open spec fn after_max_error(t: Seq<Token>, m: int, end: int) -> ErrorV {
    if is_punct(t, m, ',') && m + 1 < end && is_keyword(t, m + 1, "min"@) {
        syn_err(m + 1, RANGE_ORDER@)
    } else if is_punct(t, m, ',') && m + 1 < end && is_keyword(t, m + 1, "max"@) {
        sem_err(m + 1, RANGE_DUP_MAX@)
    } else {
        syn_err(m, RANGE_END@)
    }
}

fn after_max(toks: &Vec<Token>, m: usize, end: usize) -> (e: ParseError)
    requires
        region(toks@, m as int, end as int),
        m < end,
    ensures
        e@ == after_max_error(toks@, m as int, end as int),
{
    if punct_at(toks, m, end, ',') && keyword_at(toks, m + 1, end, "min") {
        fail(ErrorKind::Syntax, m + 1, RANGE_ORDER)
    } else if punct_at(toks, m, end, ',') && keyword_at(toks, m + 1, end, "max") {
        fail(ErrorKind::Semantic, m + 1, RANGE_DUP_MAX)
    } else {
        fail(ErrorKind::Syntax, m, RANGE_END)
    }
}

/// The contents `pos..end` of `range(...)`: `min: A`, `max: B`, or
/// `min: A, max: B` in that order.
pub open spec fn spec_range(t: Seq<Token>, pos: int, end: int) -> Result<ValidateAction, ErrorV> {
    if !(pos < end && is_ident(t, pos)) {
        Err(syn_err(pos, RANGE_START@))
    } else if ident_text(t, pos) == "min"@ {
        match spec_bound(t, pos + 1, end) {
            Err(e) => Err(e),
            Ok((a, k)) => if k == end {
                Ok(ValidateAction::Range { min: Some(a), max: None })
            } else if !is_punct(t, k, ',') {
                Err(syn_err(k, RANGE_COMMA@))
            } else if !(k + 1 < end && is_ident(t, k + 1)) {
                Err(syn_err(k + 1, RANGE_EXPECTED_MAX@))
            } else if ident_text(t, k + 1) == "min"@ {
                Err(sem_err(k + 1, RANGE_DUP_MIN@))
            } else if ident_text(t, k + 1) != "max"@ {
                Err(syn_err(k + 1, naming(RANGE_UNKNOWN@, ident_text(t, k + 1))))
            } else {
                match spec_bound(t, k + 2, end) {
                    Err(e) => Err(e),
                    Ok((b, m)) => if m == end {
                        Ok(ValidateAction::Range { min: Some(a), max: Some(b) })
                    } else {
                        Err(after_max_error(t, m, end))
                    },
                }
            },
        }
    } else if ident_text(t, pos) == "max"@ {
        match spec_bound(t, pos + 1, end) {
            Err(e) => Err(e),
            Ok((b, m)) => if m == end {
                Ok(ValidateAction::Range { min: None, max: Some(b) })
            } else {
                Err(after_max_error(t, m, end))
            },
        }
    } else {
        Err(syn_err(pos, naming(RANGE_UNKNOWN@, ident_text(t, pos))))
    }
}

pub fn parse_range(toks: &Vec<Token>, pos: usize, end: usize) -> (r: Result<ValidateAction, ParseError>)
    requires
        region(toks@, pos as int, end as int),
    ensures
        match (r, spec_range(toks@, pos as int, end as int)) {
            (Ok(a), Ok(b)) => a == b,
            (Err(e), Err(f)) => e@ == f,
            _ => false,
        },
{
    if !ident_at(toks, pos, end) {
        return Err(fail(ErrorKind::Syntax, pos, RANGE_START));
    }
    if keyword_at(toks, pos, end, "min") {
        let (a, k) = parse_bound(toks, pos + 1, end)?;
        if k == end {
            return Ok(ValidateAction::Range { min: Some(a), max: None });
        }
        if !punct_at(toks, k, end, ',') {
            return Err(fail(ErrorKind::Syntax, k, RANGE_COMMA));
        }
        if !ident_at(toks, k + 1, end) {
            return Err(fail(ErrorKind::Syntax, k + 1, RANGE_EXPECTED_MAX));
        }
        if keyword_at(toks, k + 1, end, "min") {
            return Err(fail(ErrorKind::Semantic, k + 1, RANGE_DUP_MIN));
        }
        if !keyword_at(toks, k + 1, end, "max") {
            let name = ident_string(toks, k + 1);
            return Err(fail_naming(ErrorKind::Syntax, k + 1, RANGE_UNKNOWN, name.as_str()));
        }
        let (b, m) = parse_bound(toks, k + 2, end)?;
        if m == end {
            return Ok(ValidateAction::Range { min: Some(a), max: Some(b) });
        }
        Err(after_max(toks, m, end))
    } else if keyword_at(toks, pos, end, "max") {
        let (b, m) = parse_bound(toks, pos + 1, end)?;
        if m == end {
            return Ok(ValidateAction::Range { min: None, max: Some(b) });
        }
        Err(after_max(toks, m, end))
    } else {
        let name = ident_string(toks, pos);
        Err(fail_naming(ErrorKind::Syntax, pos, RANGE_UNKNOWN, name.as_str()))
    }
}

/// One action at `pos`, and the position after it.
pub open spec fn spec_action(t: Seq<Token>, pos: int, end: int) -> Result<(ValidateAction, int), ErrorV> {
    if !(pos < end && is_ident(t, pos)) {
        Err(syn_err(pos, EXPECTED_ACTION@))
    } else if ident_text(t, pos) == "required"@ {
        Ok((ValidateAction::Required, pos + 1))
    } else if ident_text(t, pos) == "email"@ {
        Ok((ValidateAction::Email, pos + 1))
    } else if ident_text(t, pos) == "regex"@ {
        match spec_str_arg(t, pos + 1, end) {
            Err(e) => Err(e),
            Ok((s, n)) => Ok((ValidateAction::Regex(s), n)),
        }
    } else if ident_text(t, pos) == "custom"@ {
        match spec_str_arg(t, pos + 1, end) {
            Err(e) => Err(e),
            Ok((s, n)) => Ok((ValidateAction::Custom(s), n)),
        }
    } else if ident_text(t, pos) == "range"@ {
        if !(pos + 1 < end && is_open(t, pos + 1, Delim::Paren)) {
            Err(syn_err(pos + 1, EXPECTED_PAREN@))
        } else {
            match close_of(t, pos + 1, end) {
                None => Err(syn_err(pos + 1, UNCLOSED@)),
                Some(c) => match spec_range(t, pos + 2, c) {
                    Err(e) => Err(e),
                    Ok(a) => Ok((a, c + 1)),
                },
            }
        }
    } else {
        Err(syn_err(pos, naming(UNKNOWN_ACTION@, ident_text(t, pos))))
    }
}

pub fn parse_action(toks: &Vec<Token>, pos: usize, end: usize) -> (r: Result<(ValidateAction, usize), ParseError>)
    requires
        region(toks@, pos as int, end as int),
    ensures
        res_eq_plain(r, spec_action(toks@, pos as int, end as int)),
        advances(r, pos as int, end as int),
{
    if !ident_at(toks, pos, end) {
        return Err(fail(ErrorKind::Syntax, pos, EXPECTED_ACTION));
    }
    if keyword_at(toks, pos, end, "required") {
        Ok((ValidateAction::Required, pos + 1))
    } else if keyword_at(toks, pos, end, "email") {
        Ok((ValidateAction::Email, pos + 1))
    } else if keyword_at(toks, pos, end, "regex") {
        let (s, n) = parse_str_arg(toks, pos + 1, end)?;
        Ok((ValidateAction::Regex(s), n))
    } else if keyword_at(toks, pos, end, "custom") {
        let (s, n) = parse_str_arg(toks, pos + 1, end)?;
        Ok((ValidateAction::Custom(s), n))
    } else if keyword_at(toks, pos, end, "range") {
        if !open_at(toks, pos + 1, end, Delim::Paren) {
            return Err(fail(ErrorKind::Syntax, pos + 1, EXPECTED_PAREN));
        }
        match group_close(toks, pos + 1, end) {
            None => Err(fail(ErrorKind::Syntax, pos + 1, UNCLOSED)),
            Some(c) => {
                let a = parse_range(toks, pos + 2, c)?;
                Ok((a, c + 1))
            },
        }
    } else {
        let name = ident_string(toks, pos);
        Err(fail_naming(ErrorKind::Syntax, pos, UNKNOWN_ACTION, name.as_str()))
    }
}

/// The actions from `pos` to `end`, after those in `acc`: one or more,
/// separated by commas, with no trailing comma.
/// Each item advances within the region; the bound test only makes
/// termination evident.
pub open spec fn spec_chain(t: Seq<Token>, pos: int, end: int, acc: Seq<ValidateAction>) -> Result<Seq<ValidateAction>, ErrorV>
    decreases end - pos,
{
    match spec_action(t, pos, end) {
        Err(e) => Err(e),
        Ok((a, n)) => if n == end {
            Ok(acc.push(a))
        } else if !is_punct(t, n, ',') {
            Err(syn_err(n, EXPECTED_ACTION_COMMA@))
        } else if pos < n < end {
            spec_chain(t, n + 1, end, acc.push(a))
        } else {
            Err(syn_err(n, EXPECTED_ACTION_COMMA@))
        },
    }
}

/// The whole contents `pos..end` of `validate(...)`.
pub fn parse_chain(toks: &Vec<Token>, pos: usize, end: usize) -> (r: Result<ValidateChain, ParseError>)
    requires
        region(toks@, pos as int, end as int),
    ensures
        match (r, spec_chain(toks@, pos as int, end as int, Seq::empty())) {
            (Ok(c), Ok(s)) => c@ == s,
            (Err(e), Err(f)) => e@ == f,
            _ => false,
        },
{
    let mut actions: Vec<ValidateAction> = Vec::new();
    let mut p = pos;
    loop
        invariant
            region(toks@, p as int, end as int),
            spec_chain(toks@, pos as int, end as int, Seq::empty())
                == spec_chain(toks@, p as int, end as int, actions@),
        decreases end - p,
    {
        let (a, n) = parse_action(toks, p, end)?;
        actions.push(a);
        if n == end {
            return Ok(ValidateChain { actions });
        }
        if !punct_at(toks, n, end, ',') {
            return Err(fail(ErrorKind::Syntax, n, EXPECTED_ACTION_COMMA));
        }
        p = n + 1;
    }
}

} // verus!
