//! Attributes `#[...]`: the closed vocabulary of record attributes and the
//! closed vocabulary of field attributes. Parsing does not look at where an
//! attribute stands; the attribute compiler does.
use vstd::prelude::*;
use crate::error::{
    fail, fail_naming, naming, syn_err, ErrorKind, ErrorV, ParseError,
};
use crate::log::{parse_log, spec_log, Log, LogV};
use crate::token::{
    close_of, group_close, ident_at, ident_string, ident_text, is_ident, is_open, is_punct,
    keyword_at, open_at, punct_at, region, Delim, Token,
};
use crate::validate::{
    parse_chain, parse_str_arg, spec_chain, spec_str_arg, ValidateAction, ValidateChain,
    EXPECTED_PAREN, UNCLOSED,
};

verus! {

pub const EXPECTED_ATTR: &'static str = "expected an attribute name";
pub const UNKNOWN_ATTR: &'static str = "unknown attribute ";
pub const EXPECTED_BRACKET: &'static str = "expected `[` after `#`";
pub const ATTR_END: &'static str = "unexpected token at the end of an attribute";
pub const EXPECTED_IDENT: &'static str = "expected an identifier";
pub const EXPECTED_IDENT_COMMA: &'static str = "identifiers must be separated by `,`";

/// An attribute of a record, an enumeration or an endpoint group.
/// A `usize` payload is the index of a string literal.
#[derive(Debug)]
pub enum TypeAttr {
    Async,
    Builder,
    /// The indices of the derived trait names.
    Derive(Vec<usize>),
    Log(Log),
    RenameAll(usize),
    Remote(usize),
    Validate(ValidateChain),
}

pub enum TypeAttrV {
    Async,
    Builder,
    Derive(Seq<usize>),
    Log(LogV),
    RenameAll(usize),
    Remote(usize),
    Validate(Seq<ValidateAction>),
}

impl View for TypeAttr {
    type V = TypeAttrV;

    open spec fn view(&self) -> TypeAttrV {
        match self {
            TypeAttr::Async => TypeAttrV::Async,
            TypeAttr::Builder => TypeAttrV::Builder,
            TypeAttr::Derive(d) => TypeAttrV::Derive(d@),
            TypeAttr::Log(l) => TypeAttrV::Log(l@),
            TypeAttr::RenameAll(s) => TypeAttrV::RenameAll(*s),
            TypeAttr::Remote(s) => TypeAttrV::Remote(*s),
            TypeAttr::Validate(c) => TypeAttrV::Validate(c@),
        }
    }
}

/// An attribute of a field or of a variant.
/// A `usize` payload is the index of a string literal.
#[derive(Debug)]
pub enum ParamAttr {
    Borrow(Option<usize>),
    Bound(Option<usize>),
    DeserializeWith(usize),
    Default(Option<usize>),
    Flatten,
    Getter(usize),
    Log(Log),
    Rename(usize),
    SerializeWith(usize),
    Skip,
    SkipIf(usize),
    SkipDeserialize,
    SkipSerialize,
    Validate(ValidateChain),
    With(usize),
}

pub enum ParamAttrV {
    Borrow(Option<usize>),
    Bound(Option<usize>),
    DeserializeWith(usize),
    Default(Option<usize>),
    Flatten,
    Getter(usize),
    Log(LogV),
    Rename(usize),
    SerializeWith(usize),
    Skip,
    SkipIf(usize),
    SkipDeserialize,
    SkipSerialize,
    Validate(Seq<ValidateAction>),
    With(usize),
}

impl View for ParamAttr {
    type V = ParamAttrV;

    open spec fn view(&self) -> ParamAttrV {
        match self {
            ParamAttr::Borrow(s) => ParamAttrV::Borrow(*s),
            ParamAttr::Bound(s) => ParamAttrV::Bound(*s),
            ParamAttr::DeserializeWith(s) => ParamAttrV::DeserializeWith(*s),
            ParamAttr::Default(s) => ParamAttrV::Default(*s),
            ParamAttr::Flatten => ParamAttrV::Flatten,
            ParamAttr::Getter(s) => ParamAttrV::Getter(*s),
            ParamAttr::Log(l) => ParamAttrV::Log(l@),
            ParamAttr::Rename(s) => ParamAttrV::Rename(*s),
            ParamAttr::SerializeWith(s) => ParamAttrV::SerializeWith(*s),
            ParamAttr::Skip => ParamAttrV::Skip,
            ParamAttr::SkipIf(s) => ParamAttrV::SkipIf(*s),
            ParamAttr::SkipDeserialize => ParamAttrV::SkipDeserialize,
            ParamAttr::SkipSerialize => ParamAttrV::SkipSerialize,
            ParamAttr::Validate(c) => ParamAttrV::Validate(c@),
            ParamAttr::With(s) => ParamAttrV::With(*s),
        }
    }
}

/// A field attribute with the index of its `#` token.
#[derive(Debug)]
pub struct FieldAttr {
    pub at: usize,
    pub attr: ParamAttr,
}

pub struct FieldAttrV {
    pub at: usize,
    pub attr: ParamAttrV,
}

impl View for FieldAttr {
    type V = FieldAttrV;

    open spec fn view(&self) -> FieldAttrV {
        FieldAttrV { at: self.at, attr: self.attr@ }
    }
}

pub open spec fn type_attrs_view(v: Seq<TypeAttr>) -> Seq<TypeAttrV> {
    v.map_values(|a: TypeAttr| a@)
}

pub open spec fn field_attrs_view(v: Seq<FieldAttr>) -> Seq<FieldAttrV> {
    v.map_values(|a: FieldAttr| a@)
}

/// The index of the `)` closing a parenthesised group opened at `at`.
pub open spec fn spec_paren(t: Seq<Token>, at: int, end: int) -> Result<int, ErrorV> {
    if !(at < end && is_open(t, at, Delim::Paren)) {
        Err(syn_err(at, EXPECTED_PAREN@))
    } else {
        match close_of(t, at, end) {
            None => Err(syn_err(at, UNCLOSED@)),
            Some(c) => Ok(c),
        }
    }
}

pub fn parse_paren(toks: &Vec<Token>, at: usize, end: usize) -> (r: Result<usize, ParseError>)
    requires
        region(toks@, at as int, end as int),
    ensures
        match (r, spec_paren(toks@, at as int, end as int)) {
            (Ok(c), Ok(d)) => c as int == d && at < c < end,
            (Err(e), Err(f)) => e@ == f,
            _ => false,
        },
{
    if !open_at(toks, at, end, Delim::Paren) {
        return Err(fail(ErrorKind::Syntax, at, EXPECTED_PAREN));
    }
    match group_close(toks, at, end) {
        None => Err(fail(ErrorKind::Syntax, at, UNCLOSED)),
        Some(c) => Ok(c),
    }
}

/// The identifiers from `pos` to `end`, after those in `acc`: one or more,
/// separated by commas.
pub open spec fn spec_ident_list(t: Seq<Token>, pos: int, end: int, acc: Seq<usize>) -> Result<Seq<usize>, ErrorV>
    decreases end - pos,
{
    if !(pos < end && is_ident(t, pos)) {
        Err(syn_err(pos, EXPECTED_IDENT@))
    } else if pos + 1 == end {
        Ok(acc.push(pos as usize))
    } else if !is_punct(t, pos + 1, ',') {
        Err(syn_err(pos + 1, EXPECTED_IDENT_COMMA@))
    } else {
        spec_ident_list(t, pos + 2, end, acc.push(pos as usize))
    }
}

fn parse_ident_list(toks: &Vec<Token>, pos: usize, end: usize) -> (r: Result<Vec<usize>, ParseError>)
    requires
        region(toks@, pos as int, end as int),
    ensures
        match (r, spec_ident_list(toks@, pos as int, end as int, Seq::empty())) {
            (Ok(v), Ok(s)) => v@ == s,
            (Err(e), Err(f)) => e@ == f,
            _ => false,
        },
{
    let mut names: Vec<usize> = Vec::new();
    let mut p = pos;
    loop
        invariant
            region(toks@, p as int, end as int),
            spec_ident_list(toks@, pos as int, end as int, Seq::empty())
                == spec_ident_list(toks@, p as int, end as int, names@),
        decreases end - p,
    {
        if !ident_at(toks, p, end) {
            return Err(fail(ErrorKind::Syntax, p, EXPECTED_IDENT));
        }
        names.push(p);
        if p + 1 == end {
            return Ok(names);
        }
        if !punct_at(toks, p + 1, end, ',') {
            return Err(fail(ErrorKind::Syntax, p + 1, EXPECTED_IDENT_COMMA));
        }
        p = p + 2;
    }
}

/// A string argument that may be left out: nothing, or `= "literal"`.
pub open spec fn spec_opt_str(t: Seq<Token>, pos: int, end: int) -> Result<(Option<usize>, int), ErrorV> {
    if pos == end {
        Ok((None, pos))
    } else {
        match spec_str_arg(t, pos, end) {
            Err(e) => Err(e),
            Ok((s, n)) => Ok((Some(s), n)),
        }
    }
}

/// The rest of the attribute must be empty.
pub open spec fn finish<V>(r: Result<(V, int), ErrorV>, end: int) -> Result<V, ErrorV> {
    match r {
        Err(e) => Err(e),
        Ok((v, n)) => if n == end {
            Ok(v)
        } else {
            Err(syn_err(n, ATTR_END@))
        },
    }
}

/// `( chain )` at `pos`.
pub open spec fn spec_validate_arg(t: Seq<Token>, pos: int, end: int) -> Result<(Seq<ValidateAction>, int), ErrorV> {
    match spec_paren(t, pos, end) {
        Err(e) => Err(e),
        Ok(c) => match spec_chain(t, pos + 1, c, Seq::empty()) {
            Err(e) => Err(e),
            Ok(s) => Ok((s, c + 1)),
        },
    }
}

/// `( log commands )` at `pos`.
pub open spec fn spec_log_arg(t: Seq<Token>, pos: int, end: int) -> Result<(LogV, int), ErrorV> {
    match spec_paren(t, pos, end) {
        Err(e) => Err(e),
        Ok(c) => match spec_log(t, pos + 1, c) {
            Err(e) => Err(e),
            Ok(l) => Ok((l, c + 1)),
        },
    }
}

fn parse_validate_arg(toks: &Vec<Token>, pos: usize, end: usize) -> (r: Result<(ValidateChain, usize), ParseError>)
    requires
        region(toks@, pos as int, end as int),
    ensures
        crate::error::res_eq(r, spec_validate_arg(toks@, pos as int, end as int)),
        crate::error::advances(r, pos as int, end as int),
{
    let c = parse_paren(toks, pos, end)?;
    let chain = parse_chain(toks, pos + 1, c)?;
    Ok((chain, c + 1))
}

fn parse_log_arg(toks: &Vec<Token>, pos: usize, end: usize) -> (r: Result<(Log, usize), ParseError>)
    requires
        region(toks@, pos as int, end as int),
    ensures
        crate::error::res_eq(r, spec_log_arg(toks@, pos as int, end as int)),
        crate::error::advances(r, pos as int, end as int),
{
    let c = parse_paren(toks, pos, end)?;
    let log = parse_log(toks, pos + 1, c)?;
    Ok((log, c + 1))
}

/// The contents `pos..end` of one record attribute.
pub open spec fn spec_type_attr(t: Seq<Token>, pos: int, end: int) -> Result<TypeAttrV, ErrorV> {
    if !(pos < end && is_ident(t, pos)) {
        Err(syn_err(pos, EXPECTED_ATTR@))
    } else if ident_text(t, pos) == "async"@ {
        finish(Ok((TypeAttrV::Async, pos + 1)), end)
    } else if ident_text(t, pos) == "builder"@ {
        finish(Ok((TypeAttrV::Builder, pos + 1)), end)
    } else if ident_text(t, pos) == "derive"@ {
        finish(match spec_paren(t, pos + 1, end) {
            Err(e) => Err(e),
            Ok(c) => match spec_ident_list(t, pos + 2, c, Seq::empty()) {
                Err(e) => Err(e),
                Ok(d) => Ok((TypeAttrV::Derive(d), c + 1)),
            },
        }, end)
    } else if ident_text(t, pos) == "rename_all"@ {
        finish(match spec_str_arg(t, pos + 1, end) {
            Err(e) => Err(e),
            Ok((s, n)) => Ok((TypeAttrV::RenameAll(s), n)),
        }, end)
    } else if ident_text(t, pos) == "remote"@ {
        finish(match spec_str_arg(t, pos + 1, end) {
            Err(e) => Err(e),
            Ok((s, n)) => Ok((TypeAttrV::Remote(s), n)),
        }, end)
    } else if ident_text(t, pos) == "validate"@ {
        finish(match spec_validate_arg(t, pos + 1, end) {
            Err(e) => Err(e),
            Ok((c, n)) => Ok((TypeAttrV::Validate(c), n)),
        }, end)
    } else if ident_text(t, pos) == "log"@ {
        finish(match spec_log_arg(t, pos + 1, end) {
            Err(e) => Err(e),
            Ok((l, n)) => Ok((TypeAttrV::Log(l), n)),
        }, end)
    } else {
        Err(syn_err(pos, naming(UNKNOWN_ATTR@, ident_text(t, pos))))
    }
}

pub fn parse_type_attr(toks: &Vec<Token>, pos: usize, end: usize) -> (r: Result<TypeAttr, ParseError>)
    requires
        region(toks@, pos as int, end as int),
    ensures
        match (r, spec_type_attr(toks@, pos as int, end as int)) {
            (Ok(a), Ok(b)) => a@ == b,
            (Err(e), Err(f)) => e@ == f,
            _ => false,
        },
{
    if !ident_at(toks, pos, end) {
        return Err(fail(ErrorKind::Syntax, pos, EXPECTED_ATTR));
    }
    let (a, n): (TypeAttr, usize) = if keyword_at(toks, pos, end, "async") {
        (TypeAttr::Async, pos + 1)
    } else if keyword_at(toks, pos, end, "builder") {
        (TypeAttr::Builder, pos + 1)
    } else if keyword_at(toks, pos, end, "derive") {
        let c = parse_paren(toks, pos + 1, end)?;
        let d = parse_ident_list(toks, pos + 2, c)?;
        (TypeAttr::Derive(d), c + 1)
    } else if keyword_at(toks, pos, end, "rename_all") {
        let (s, n) = parse_str_arg(toks, pos + 1, end)?;
        (TypeAttr::RenameAll(s), n)
    } else if keyword_at(toks, pos, end, "remote") {
        let (s, n) = parse_str_arg(toks, pos + 1, end)?;
        (TypeAttr::Remote(s), n)
    } else if keyword_at(toks, pos, end, "validate") {
        let (c, n) = parse_validate_arg(toks, pos + 1, end)?;
        (TypeAttr::Validate(c), n)
    } else if keyword_at(toks, pos, end, "log") {
        let (l, n) = parse_log_arg(toks, pos + 1, end)?;
        (TypeAttr::Log(l), n)
    } else {
        let name = ident_string(toks, pos);
        return Err(fail_naming(ErrorKind::Syntax, pos, UNKNOWN_ATTR, name.as_str()));
    };
    if n != end {
        return Err(fail(ErrorKind::Syntax, n, ATTR_END));
    }
    Ok(a)
}

/// A string argument that may be left out.
fn parse_opt_str(toks: &Vec<Token>, pos: usize, end: usize) -> (r: Result<(Option<usize>, usize), ParseError>)
    requires
        region(toks@, pos as int, end as int),
    ensures
        crate::error::res_eq_plain(r, spec_opt_str(toks@, pos as int, end as int)),
        r matches Ok((_, n)) ==> pos <= n <= end,
{
    if pos == end {
        return Ok((None, pos));
    }
    let (s, n) = parse_str_arg(toks, pos, end)?;
    Ok((Some(s), n))
}

/// The contents `pos..end` of one field attribute.
pub open spec fn spec_param_attr(t: Seq<Token>, pos: int, end: int) -> Result<ParamAttrV, ErrorV> {
    if !(pos < end && is_ident(t, pos)) {
        Err(syn_err(pos, EXPECTED_ATTR@))
    } else if ident_text(t, pos) == "borrow"@ {
        finish(match spec_opt_str(t, pos + 1, end) {
            Err(e) => Err(e),
            Ok((s, n)) => Ok((ParamAttrV::Borrow(s), n)),
        }, end)
    } else if ident_text(t, pos) == "bound"@ {
        finish(match spec_opt_str(t, pos + 1, end) {
            Err(e) => Err(e),
            Ok((s, n)) => Ok((ParamAttrV::Bound(s), n)),
        }, end)
    } else if ident_text(t, pos) == "default"@ {
        finish(match spec_opt_str(t, pos + 1, end) {
            Err(e) => Err(e),
            Ok((s, n)) => Ok((ParamAttrV::Default(s), n)),
        }, end)
    } else if ident_text(t, pos) == "deserialize_with"@ {
        finish(match spec_str_arg(t, pos + 1, end) {
            Err(e) => Err(e),
            Ok((s, n)) => Ok((ParamAttrV::DeserializeWith(s), n)),
        }, end)
    } else if ident_text(t, pos) == "flatten"@ {
        finish(Ok((ParamAttrV::Flatten, pos + 1)), end)
    } else if ident_text(t, pos) == "getter"@ {
        finish(match spec_str_arg(t, pos + 1, end) {
            Err(e) => Err(e),
            Ok((s, n)) => Ok((ParamAttrV::Getter(s), n)),
        }, end)
    } else if ident_text(t, pos) == "log"@ {
        finish(match spec_log_arg(t, pos + 1, end) {
            Err(e) => Err(e),
            Ok((l, n)) => Ok((ParamAttrV::Log(l), n)),
        }, end)
    } else if ident_text(t, pos) == "rename"@ {
        finish(match spec_str_arg(t, pos + 1, end) {
            Err(e) => Err(e),
            Ok((s, n)) => Ok((ParamAttrV::Rename(s), n)),
        }, end)
    } else if ident_text(t, pos) == "serialize_with"@ {
        finish(match spec_str_arg(t, pos + 1, end) {
            Err(e) => Err(e),
            Ok((s, n)) => Ok((ParamAttrV::SerializeWith(s), n)),
        }, end)
    } else if ident_text(t, pos) == "skip"@ {
        finish(Ok((ParamAttrV::Skip, pos + 1)), end)
    } else if ident_text(t, pos) == "skip_deserialize"@ {
        finish(Ok((ParamAttrV::SkipDeserialize, pos + 1)), end)
    } else if ident_text(t, pos) == "skip_if"@ {
        finish(match spec_str_arg(t, pos + 1, end) {
            Err(e) => Err(e),
            Ok((s, n)) => Ok((ParamAttrV::SkipIf(s), n)),
        }, end)
    } else if ident_text(t, pos) == "skip_serialize"@ {
        finish(Ok((ParamAttrV::SkipSerialize, pos + 1)), end)
    } else if ident_text(t, pos) == "validate"@ {
        finish(match spec_validate_arg(t, pos + 1, end) {
            Err(e) => Err(e),
            Ok((c, n)) => Ok((ParamAttrV::Validate(c), n)),
        }, end)
    } else if ident_text(t, pos) == "with"@ {
        finish(match spec_str_arg(t, pos + 1, end) {
            Err(e) => Err(e),
            Ok((s, n)) => Ok((ParamAttrV::With(s), n)),
        }, end)
    } else {
        Err(syn_err(pos, naming(UNKNOWN_ATTR@, ident_text(t, pos))))
    }
}

pub fn parse_param_attr(toks: &Vec<Token>, pos: usize, end: usize) -> (r: Result<ParamAttr, ParseError>)
    requires
        region(toks@, pos as int, end as int),
    ensures
        match (r, spec_param_attr(toks@, pos as int, end as int)) {
            (Ok(a), Ok(b)) => a@ == b,
            (Err(e), Err(f)) => e@ == f,
            _ => false,
        },
{
    if !ident_at(toks, pos, end) {
        return Err(fail(ErrorKind::Syntax, pos, EXPECTED_ATTR));
    }
    let (a, n): (ParamAttr, usize) = if keyword_at(toks, pos, end, "borrow") {
        let (s, n) = parse_opt_str(toks, pos + 1, end)?;
        (ParamAttr::Borrow(s), n)
    } else if keyword_at(toks, pos, end, "bound") {
        let (s, n) = parse_opt_str(toks, pos + 1, end)?;
        (ParamAttr::Bound(s), n)
    } else if keyword_at(toks, pos, end, "default") {
        let (s, n) = parse_opt_str(toks, pos + 1, end)?;
        (ParamAttr::Default(s), n)
    } else if keyword_at(toks, pos, end, "deserialize_with") {
        let (s, n) = parse_str_arg(toks, pos + 1, end)?;
        (ParamAttr::DeserializeWith(s), n)
    } else if keyword_at(toks, pos, end, "flatten") {
        (ParamAttr::Flatten, pos + 1)
    } else if keyword_at(toks, pos, end, "getter") {
        let (s, n) = parse_str_arg(toks, pos + 1, end)?;
        (ParamAttr::Getter(s), n)
    } else if keyword_at(toks, pos, end, "log") {
        let (l, n) = parse_log_arg(toks, pos + 1, end)?;
        (ParamAttr::Log(l), n)
    } else if keyword_at(toks, pos, end, "rename") {
        let (s, n) = parse_str_arg(toks, pos + 1, end)?;
        (ParamAttr::Rename(s), n)
    } else if keyword_at(toks, pos, end, "serialize_with") {
        let (s, n) = parse_str_arg(toks, pos + 1, end)?;
        (ParamAttr::SerializeWith(s), n)
    } else if keyword_at(toks, pos, end, "skip") {
        (ParamAttr::Skip, pos + 1)
    } else if keyword_at(toks, pos, end, "skip_deserialize") {
        (ParamAttr::SkipDeserialize, pos + 1)
    } else if keyword_at(toks, pos, end, "skip_if") {
        let (s, n) = parse_str_arg(toks, pos + 1, end)?;
        (ParamAttr::SkipIf(s), n)
    } else if keyword_at(toks, pos, end, "skip_serialize") {
        (ParamAttr::SkipSerialize, pos + 1)
    } else if keyword_at(toks, pos, end, "validate") {
        let (c, n) = parse_validate_arg(toks, pos + 1, end)?;
        (ParamAttr::Validate(c), n)
    } else if keyword_at(toks, pos, end, "with") {
        let (s, n) = parse_str_arg(toks, pos + 1, end)?;
        (ParamAttr::With(s), n)
    } else {
        let name = ident_string(toks, pos);
        return Err(fail_naming(ErrorKind::Syntax, pos, UNKNOWN_ATTR, name.as_str()));
    };
    if n != end {
        return Err(fail(ErrorKind::Syntax, n, ATTR_END));
    }
    Ok(a)
}

/// Zero or more type attributes from `pos`, after those in `acc`, and the
/// position after them.
pub open spec fn spec_type_attrs(t: Seq<Token>, pos: int, end: int, acc: Seq<TypeAttrV>) -> Result<(Seq<TypeAttrV>, int), ErrorV>
    decreases end - pos,
{
    if !(pos < end && is_punct(t, pos, '#')) {
        Ok((acc, pos))
    } else if !(pos + 1 < end && is_open(t, pos + 1, Delim::Bracket)) {
        Err(syn_err(pos + 1, EXPECTED_BRACKET@))
    } else {
        match close_of(t, pos + 1, end) {
            None => Err(syn_err(pos + 1, UNCLOSED@)),
            Some(c) => if pos + 1 < c < end {
                match spec_type_attr(t, pos + 2, c) {
                    Err(e) => Err(e),
                    Ok(a) => spec_type_attrs(t, c + 1, end, acc.push(a)),
                }
            } else {
                Err(syn_err(pos + 1, UNCLOSED@))
            },
        }
    }
}

pub fn parse_type_attrs(toks: &Vec<Token>, pos: usize, end: usize) -> (r: Result<(Vec<TypeAttr>, usize), ParseError>)
    requires
        region(toks@, pos as int, end as int),
    ensures
        match (r, spec_type_attrs(toks@, pos as int, end as int, Seq::empty())) {
            (Ok((v, n)), Ok((s, m))) => type_attrs_view(v@) == s && n as int == m,
            (Err(e), Err(f)) => e@ == f,
            _ => false,
        },
        r matches Ok((_, n)) ==> pos <= n <= end,
{
    let mut attrs: Vec<TypeAttr> = Vec::new();
    let mut p = pos;
    proof {
        assert(type_attrs_view(attrs@) =~= Seq::empty());
    }
    loop
        invariant
            region(toks@, p as int, end as int),
            pos <= p,
            spec_type_attrs(toks@, pos as int, end as int, Seq::empty())
                == spec_type_attrs(toks@, p as int, end as int, type_attrs_view(attrs@)),
        decreases end - p,
    {
        if !punct_at(toks, p, end, '#') {
            return Ok((attrs, p));
        }
        if !open_at(toks, p + 1, end, Delim::Bracket) {
            return Err(fail(ErrorKind::Syntax, p + 1, EXPECTED_BRACKET));
        }
        let c = match group_close(toks, p + 1, end) {
            None => {
                return Err(fail(ErrorKind::Syntax, p + 1, UNCLOSED));
            },
            Some(c) => c,
        };
        let a = parse_type_attr(toks, p + 2, c)?;
        let item = a;
        let ghost before = attrs@;
        let ghost item_v = item@;
        attrs.push(item);
        proof {
            assert(type_attrs_view(attrs@) =~= type_attrs_view(before).push(item_v));
        }
        p = c + 1;
    }
}

/// Zero or more field attributes from `pos`, after those in `acc`, and the
/// position after them.
pub open spec fn spec_field_attrs(t: Seq<Token>, pos: int, end: int, acc: Seq<FieldAttrV>) -> Result<(Seq<FieldAttrV>, int), ErrorV>
    decreases end - pos,
{
    if !(pos < end && is_punct(t, pos, '#')) {
        Ok((acc, pos))
    } else if !(pos + 1 < end && is_open(t, pos + 1, Delim::Bracket)) {
        Err(syn_err(pos + 1, EXPECTED_BRACKET@))
    } else {
        match close_of(t, pos + 1, end) {
            None => Err(syn_err(pos + 1, UNCLOSED@)),
            Some(c) => if pos + 1 < c < end {
                match spec_param_attr(t, pos + 2, c) {
                    Err(e) => Err(e),
                    Ok(a) => spec_field_attrs(t, c + 1, end, acc.push(FieldAttrV { at: pos as usize, attr: a })),
                }
            } else {
                Err(syn_err(pos + 1, UNCLOSED@))
            },
        }
    }
}

pub fn parse_field_attrs(toks: &Vec<Token>, pos: usize, end: usize) -> (r: Result<(Vec<FieldAttr>, usize), ParseError>)
    requires
        region(toks@, pos as int, end as int),
    ensures
        match (r, spec_field_attrs(toks@, pos as int, end as int, Seq::empty())) {
            (Ok((v, n)), Ok((s, m))) => field_attrs_view(v@) == s && n as int == m,
            (Err(e), Err(f)) => e@ == f,
            _ => false,
        },
        r matches Ok((_, n)) ==> pos <= n <= end,
{
    let mut attrs: Vec<FieldAttr> = Vec::new();
    let mut p = pos;
    proof {
        assert(field_attrs_view(attrs@) =~= Seq::empty());
    }
    loop
        invariant
            region(toks@, p as int, end as int),
            pos <= p,
            spec_field_attrs(toks@, pos as int, end as int, Seq::empty())
                == spec_field_attrs(toks@, p as int, end as int, field_attrs_view(attrs@)),
        decreases end - p,
    {
        if !punct_at(toks, p, end, '#') {
            return Ok((attrs, p));
        }
        if !open_at(toks, p + 1, end, Delim::Bracket) {
            return Err(fail(ErrorKind::Syntax, p + 1, EXPECTED_BRACKET));
        }
        let c = match group_close(toks, p + 1, end) {
            None => {
                return Err(fail(ErrorKind::Syntax, p + 1, UNCLOSED));
            },
            Some(c) => c,
        };
        let a = parse_param_attr(toks, p + 2, c)?;
        let item = FieldAttr { at: p, attr: a };
        let ghost before = attrs@;
        let ghost item_v = item@;
        attrs.push(item);
        proof {
            assert(field_attrs_view(attrs@) =~= field_attrs_view(before).push(item_v));
        }
        p = c + 1;
    }
}

} // verus!
