//! The declaration parser: recursive descent over the token sequence.
//! Each production has a specification over the tokens and an executable
//! parser proved equal to it.
use vstd::prelude::*;
use crate::ast::{
    data_types_view, endpoints_view, methods_view, EndpointDataType, EndpointDataTypeV,
    EndpointMethod, EndpointMethodV, Endpoint, EndpointV, Enum, EnumV, RestEndpoints, RestMethods,
    RestVariant, Struct, StructV, Visibility, fields_view, variants_view, EnumParameter, EnumParameterV, Enumeration, EnumerationV,
    StructParameter, StructParameterV, TypeRef,
};
use crate::attrs::{parse_field_attrs, parse_type_attrs, spec_field_attrs, spec_type_attrs, type_attrs_view, TypeAttrV};
use crate::error::{fail, fail_naming, naming, res_eq, sem_err, syn_err, ErrorKind, ErrorV, ParseError};
use crate::token::{
    close_of, group_close, ident_at, ident_string, ident_text, is_ident, is_open, is_punct,
    open_at, punct_at, region, Delim, Token, is_str, is_keyword, is_joint_punct, keyword_at,
    joint_punct_at,
};
use crate::typeref::{parse_type, spec_type};
use crate::validate::UNCLOSED;

verus! {

pub const EXPECTED_FIELD_NAME: &'static str = "expected a field name";
pub const EXPECTED_COLON: &'static str = "expected `:`";
pub const EXPECTED_VARIANT_NAME: &'static str = "expected a variant name";
pub const EXPECTED_PAYLOAD: &'static str = "expected `,`, `(` or `{` after a variant name";
pub const EXPECTED_CLOSE_PAREN: &'static str = "expected `)` after the payload type";
pub const EXPECTED_VARIANT_COMMA: &'static str = "expected `,` after a variant";
pub const EXPECTED_BRACE: &'static str = "expected `{`";
pub const EXPECTED_VARIANT: &'static str = "expected at least one variant";

/// One field at `pos`: `attributes name: ?Type,` with `?` and `,` optional.
#[verifier::opaque]
pub open spec fn spec_field(t: Seq<Token>, pos: int, end: int) -> Result<(StructParameterV, int), ErrorV> {
    match spec_field_attrs(t, pos, end, Seq::empty()) {
        Err(e) => Err(e),
        Ok((attributes, a)) => if !(a < end && is_ident(t, a)) {
            Err(syn_err(a, EXPECTED_FIELD_NAME@))
        } else if !(a + 1 < end && is_punct(t, a + 1, ':')) {
            Err(syn_err(a + 1, EXPECTED_COLON@))
        } else {
            let optional = a + 2 < end && is_punct(t, a + 2, '?');
            let ts = if optional { a + 3 } else { a + 2 };
            match spec_type(t, ts, end) {
                Err(e) => Err(e),
                Ok(te) => {
                    let n = if te < end && is_punct(t, te, ',') { te + 1 } else { te };
                    Ok((StructParameterV {
                        attributes,
                        name: ident_text(t, a),
                        ty: TypeRef { start: ts as usize, end: te as usize },
                        optional,
                    }, n))
                },
            }
        },
    }
}

pub fn parse_field(toks: &Vec<Token>, pos: usize, end: usize) -> (r: Result<(StructParameter, usize), ParseError>)
    requires
        region(toks@, pos as int, end as int),
    ensures
        res_eq(r, spec_field(toks@, pos as int, end as int)),
        crate::error::advances(r, pos as int, end as int),
{
    proof {
        reveal(spec_field);
    }
    let (attributes, a) = parse_field_attrs(toks, pos, end)?;
    if !ident_at(toks, a, end) {
        return Err(fail(ErrorKind::Syntax, a, EXPECTED_FIELD_NAME));
    }
    if !punct_at(toks, a + 1, end, ':') {
        return Err(fail(ErrorKind::Syntax, a + 1, EXPECTED_COLON));
    }
    let optional = punct_at(toks, a + 2, end, '?');
    let ts = if optional { a + 3 } else { a + 2 };
    let te = parse_type(toks, ts, end)?;
    let n = if punct_at(toks, te, end, ',') { te + 1 } else { te };
    let name = ident_string(toks, a);
    Ok((StructParameter { attributes, name, ty: TypeRef { start: ts, end: te }, optional }, n))
}

/// The fields from `pos` to `end`, after those in `acc`.
/// Each item advances within the region; the bound test only makes
/// termination evident.
pub open spec fn spec_fields(t: Seq<Token>, pos: int, end: int, acc: Seq<StructParameterV>) -> Result<Seq<StructParameterV>, ErrorV>
    decreases end - pos,
{
    if pos >= end {
        Ok(acc)
    } else {
        match spec_field(t, pos, end) {
            Err(e) => Err(e),
            Ok((f, n)) => if pos < n <= end {
                spec_fields(t, n, end, acc.push(f))
            } else {
                Err(syn_err(pos, EXPECTED_FIELD_NAME@))
            },
        }
    }
}

pub fn parse_fields(toks: &Vec<Token>, pos: usize, end: usize) -> (r: Result<Vec<StructParameter>, ParseError>)
    requires
        region(toks@, pos as int, end as int),
    ensures
        match (r, spec_fields(toks@, pos as int, end as int, Seq::empty())) {
            (Ok(v), Ok(s)) => fields_view(v@) == s,
            (Err(e), Err(f)) => e@ == f,
            _ => false,
        },
{
    let mut fields: Vec<StructParameter> = Vec::new();
    let mut p = pos;
    proof {
        assert(fields_view(fields@) =~= Seq::empty());
    }
    while p < end
        invariant
            region(toks@, p as int, end as int),
            spec_fields(toks@, pos as int, end as int, Seq::empty())
                == spec_fields(toks@, p as int, end as int, fields_view(fields@)),
        decreases end - p,
    {
        let (f, n) = parse_field(toks, p, end)?;
        let ghost before = fields@;
        let ghost fv = f@;
        fields.push(f);
        proof {
            assert(fields_view(fields@) =~= fields_view(before).push(fv));
        }
        p = n;
    }
    Ok(fields)
}

/// The payload after a variant name at `k`, and the position after the
/// variant's comma.
pub open spec fn spec_payload(t: Seq<Token>, k: int, end: int) -> Result<(EnumParameterV, int), ErrorV> {
    if k < end && is_punct(t, k, ',') {
        Ok((EnumParameterV::Variant, k + 1))
    } else if k < end && (is_open(t, k, Delim::Paren) || is_open(t, k, Delim::Brace)) {
        match close_of(t, k, end) {
            None => Err(syn_err(k, UNCLOSED@)),
            Some(c) => {
                let p: Result<EnumParameterV, ErrorV> = if is_open(t, k, Delim::Paren) {
                    let opt = k + 1 < c && is_punct(t, k + 1, '?');
                    let ts = if opt { k + 2 } else { k + 1 };
                    match spec_type(t, ts, c) {
                        Err(e) => Err(e),
                        Ok(te) => if te == c {
                            Ok(EnumParameterV::Tuple { ty: TypeRef { start: ts as usize, end: te as usize }, opt })
                        } else {
                            Err(syn_err(te, EXPECTED_CLOSE_PAREN@))
                        },
                    }
                } else {
                    match spec_fields(t, k + 1, c, Seq::empty()) {
                        Err(e) => Err(e),
                        Ok(fs) => Ok(EnumParameterV::Struct(fs)),
                    }
                };
                match p {
                    Err(e) => Err(e),
                    Ok(p) => if c + 1 < end && is_punct(t, c + 1, ',') {
                        Ok((p, c + 2))
                    } else {
                        Err(syn_err(c + 1, EXPECTED_VARIANT_COMMA@))
                    },
                }
            },
        }
    } else {
        Err(syn_err(k, EXPECTED_PAYLOAD@))
    }
}

fn parse_payload(toks: &Vec<Token>, k: usize, end: usize) -> (r: Result<(EnumParameter, usize), ParseError>)
    requires
        region(toks@, k as int, end as int),
    ensures
        res_eq(r, spec_payload(toks@, k as int, end as int)),
        crate::error::advances(r, k as int, end as int),
{
    if punct_at(toks, k, end, ',') {
        return Ok((EnumParameter::Variant, k + 1));
    }
    let paren = open_at(toks, k, end, Delim::Paren);
    if !(paren || open_at(toks, k, end, Delim::Brace)) {
        return Err(fail(ErrorKind::Syntax, k, EXPECTED_PAYLOAD));
    }
    let c = match group_close(toks, k, end) {
        None => {
            return Err(fail(ErrorKind::Syntax, k, UNCLOSED));
        },
        Some(c) => c,
    };
    let p = if paren {
        let opt = punct_at(toks, k + 1, c, '?');
        let ts = if opt { k + 2 } else { k + 1 };
        let te = parse_type(toks, ts, c)?;
        if te != c {
            return Err(fail(ErrorKind::Syntax, te, EXPECTED_CLOSE_PAREN));
        }
        EnumParameter::Tuple { ty: TypeRef { start: ts, end: te }, opt }
    } else {
        let fs = parse_fields(toks, k + 1, c)?;
        EnumParameter::Struct(fs)
    };
    if !punct_at(toks, c + 1, end, ',') {
        return Err(fail(ErrorKind::Syntax, c + 1, EXPECTED_VARIANT_COMMA));
    }
    Ok((p, c + 2))
}

/// One variant at `pos`.
pub open spec fn spec_variant(t: Seq<Token>, pos: int, end: int) -> Result<(EnumerationV, int), ErrorV> {
    match spec_field_attrs(t, pos, end, Seq::empty()) {
        Err(e) => Err(e),
        Ok((attributes, a)) => if !(a < end && is_ident(t, a)) {
            Err(syn_err(a, EXPECTED_VARIANT_NAME@))
        } else {
            match spec_payload(t, a + 1, end) {
                Err(e) => Err(e),
                Ok((param, n)) => Ok((EnumerationV { attributes, ident: ident_text(t, a), param }, n)),
            }
        },
    }
}

pub fn parse_variant(toks: &Vec<Token>, pos: usize, end: usize) -> (r: Result<(Enumeration, usize), ParseError>)
    requires
        region(toks@, pos as int, end as int),
    ensures
        res_eq(r, spec_variant(toks@, pos as int, end as int)),
        crate::error::advances(r, pos as int, end as int),
{
    let (attributes, a) = parse_field_attrs(toks, pos, end)?;
    if !ident_at(toks, a, end) {
        return Err(fail(ErrorKind::Syntax, a, EXPECTED_VARIANT_NAME));
    }
    let (param, n) = parse_payload(toks, a + 1, end)?;
    let ident = ident_string(toks, a);
    Ok((Enumeration { attributes, ident, param }, n))
}

/// The variants from `pos` to `end`, after those in `acc`: at least one in all.
/// Each item advances within the region; the bound test only makes
/// termination evident.
pub open spec fn spec_variants(t: Seq<Token>, pos: int, end: int, acc: Seq<EnumerationV>) -> Result<Seq<EnumerationV>, ErrorV>
    decreases end - pos,
{
    if pos >= end {
        if acc.len() == 0 {
            Err(syn_err(pos, EXPECTED_VARIANT@))
        } else {
            Ok(acc)
        }
    } else {
        match spec_variant(t, pos, end) {
            Err(e) => Err(e),
            Ok((v, n)) => if pos < n <= end {
                spec_variants(t, n, end, acc.push(v))
            } else {
                Err(syn_err(pos, EXPECTED_VARIANT_NAME@))
            },
        }
    }
}

pub fn parse_variants(toks: &Vec<Token>, pos: usize, end: usize) -> (r: Result<Vec<Enumeration>, ParseError>)
    requires
        region(toks@, pos as int, end as int),
    ensures
        match (r, spec_variants(toks@, pos as int, end as int, Seq::empty())) {
            (Ok(v), Ok(s)) => variants_view(v@) == s,
            (Err(e), Err(f)) => e@ == f,
            _ => false,
        },
{
    let mut vs: Vec<Enumeration> = Vec::new();
    let mut p = pos;
    proof {
        assert(variants_view(vs@) =~= Seq::empty());
    }
    while p < end
        invariant
            region(toks@, p as int, end as int),
            spec_variants(toks@, pos as int, end as int, Seq::empty())
                == spec_variants(toks@, p as int, end as int, variants_view(vs@)),
        decreases end - p,
    {
        let (v, n) = parse_variant(toks, p, end)?;
        let ghost before = vs@;
        let ghost vv = v@;
        vs.push(v);
        proof {
            assert(variants_view(vs@) =~= variants_view(before).push(vv));
        }
        p = n;
    }
    if vs.len() == 0 {
        return Err(fail(ErrorKind::Syntax, p, EXPECTED_VARIANT));
    }
    Ok(vs)
}

pub const EXPECTED_NAME: &'static str = "expected a name";
pub const EXPECTED_ROLE: &'static str = "expected a role after `<`";
pub const INVALID_ROLE: &'static str = "invalid role ";
pub const EXPECTED_GT: &'static str = "expected `>` after the role";
pub const EXPECTED_DATA_TYPE: &'static str = "expected `struct` or `enum`";
pub const EXPECTED_VERB: &'static str = "expected an HTTP method";
pub const INVALID_VERB: &'static str = "invalid HTTP method ";
pub const EXPECTED_URI: &'static str = "expected the URI as a string literal";
pub const EXPECTED_ARROW: &'static str = "expected `=>`";
pub const EXPECTED_METHOD: &'static str = "expected at least one endpoint method";
pub const EXPECTED_DATA: &'static str = "expected at least one data type";
pub const EXPECTED_GROUP: &'static str = "expected `[` opening an endpoint group";
pub const EXPECTED_GROUP_END: &'static str = "expected `]` after the endpoint group";
pub const EXPECTED_GROUP_COMMA: &'static str = "endpoint groups must be separated by `,`";

/// The outcome of an optional production: what was found, or what stood
/// in its place.
#[derive(Debug)]
pub enum Parsed<F, N> {
    Found(F),
    NotFound(N),
}

/// The role that a name denotes, if any.
pub open spec fn spec_role(name: Seq<char>) -> Option<RestVariant> {
    if name == "Header"@ {
        Some(RestVariant::Header)
    } else if name == "Request"@ {
        Some(RestVariant::Request)
    } else if name == "Response"@ {
        Some(RestVariant::Response)
    } else if name == "ReqRes"@ {
        Some(RestVariant::ReqRes)
    } else if name == "Query"@ {
        Some(RestVariant::Query)
    } else {
        None
    }
}

/// The role that the identifier at `i` denotes, if any.
pub fn role_at(toks: &Vec<Token>, i: usize, end: usize) -> (r: Option<RestVariant>)
    requires
        end <= toks@.len(),
        i < end,
        is_ident(toks@, i as int),
    ensures
        r == spec_role(ident_text(toks@, i as int)),
{
    if keyword_at(toks, i, end, "Header") {
        Some(RestVariant::Header)
    } else if keyword_at(toks, i, end, "Request") {
        Some(RestVariant::Request)
    } else if keyword_at(toks, i, end, "Response") {
        Some(RestVariant::Response)
    } else if keyword_at(toks, i, end, "ReqRes") {
        Some(RestVariant::ReqRes)
    } else if keyword_at(toks, i, end, "Query") {
        Some(RestVariant::Query)
    } else {
        None
    }
}

/// The role that a name denotes, if any.
pub fn role_named(name: &str) -> (r: Option<RestVariant>)
    ensures
        r == spec_role(name@),
{
    if crate::text::str_eq(name, "Header") {
        Some(RestVariant::Header)
    } else if crate::text::str_eq(name, "Request") {
        Some(RestVariant::Request)
    } else if crate::text::str_eq(name, "Response") {
        Some(RestVariant::Response)
    } else if crate::text::str_eq(name, "ReqRes") {
        Some(RestVariant::ReqRes)
    } else if crate::text::str_eq(name, "Query") {
        Some(RestVariant::Query)
    } else {
        None
    }
}

impl Struct {
    /// The record's role: its tag, or else the role that its name denotes.
    pub fn role(&self) -> (r: Option<RestVariant>)
        ensures
            r == (match self.rest_variant {
                Some(v) => Some(v),
                None => spec_role(self.name@),
            }),
    {
        match self.rest_variant {
            Some(v) => Some(v),
            None => role_named(self.name.as_str()),
        }
    }
}

/// The HTTP method that a name denotes, if any.
pub open spec fn spec_verb(name: Seq<char>) -> Option<RestMethods> {
    if name == "GET"@ {
        Some(RestMethods::GET)
    } else if name == "POST"@ {
        Some(RestMethods::POST)
    } else if name == "PUT"@ {
        Some(RestMethods::PUT)
    } else if name == "DELETE"@ {
        Some(RestMethods::DELETE)
    } else if name == "PATCH"@ {
        Some(RestMethods::PATCH)
    } else if name == "OPTIONS"@ {
        Some(RestMethods::OPTIONS)
    } else if name == "HEAD"@ {
        Some(RestMethods::HEAD)
    } else {
        None
    }
}

/// The HTTP method that the identifier at `i` denotes, if any.
pub fn verb_at(toks: &Vec<Token>, i: usize, end: usize) -> (r: Option<RestMethods>)
    requires
        end <= toks@.len(),
        i < end,
        is_ident(toks@, i as int),
    ensures
        r == spec_verb(ident_text(toks@, i as int)),
{
    if keyword_at(toks, i, end, "GET") {
        Some(RestMethods::GET)
    } else if keyword_at(toks, i, end, "POST") {
        Some(RestMethods::POST)
    } else if keyword_at(toks, i, end, "PUT") {
        Some(RestMethods::PUT)
    } else if keyword_at(toks, i, end, "DELETE") {
        Some(RestMethods::DELETE)
    } else if keyword_at(toks, i, end, "PATCH") {
        Some(RestMethods::PATCH)
    } else if keyword_at(toks, i, end, "OPTIONS") {
        Some(RestMethods::OPTIONS)
    } else if keyword_at(toks, i, end, "HEAD") {
        Some(RestMethods::HEAD)
    } else {
        None
    }
}

/// The index of the `}` closing a braced group opened at `at`.
pub open spec fn spec_brace(t: Seq<Token>, at: int, end: int) -> Result<int, ErrorV> {
    if !(at < end && is_open(t, at, Delim::Brace)) {
        Err(syn_err(at, EXPECTED_BRACE@))
    } else {
        match close_of(t, at, end) {
            None => Err(syn_err(at, UNCLOSED@)),
            Some(c) => Ok(c),
        }
    }
}

fn parse_brace(toks: &Vec<Token>, at: usize, end: usize) -> (r: Result<usize, ParseError>)
    requires
        region(toks@, at as int, end as int),
    ensures
        match (r, spec_brace(toks@, at as int, end as int)) {
            (Ok(c), Ok(d)) => c as int == d && at < c < end,
            (Err(e), Err(f)) => e@ == f,
            _ => false,
        },
{
    if !open_at(toks, at, end, Delim::Brace) {
        return Err(fail(ErrorKind::Syntax, at, EXPECTED_BRACE));
    }
    match group_close(toks, at, end) {
        None => Err(fail(ErrorKind::Syntax, at, UNCLOSED)),
        Some(c) => Ok(c),
    }
}

/// A record after `struct`: `Name <Role> { fields }`, where a record without
/// a role tag must be named after a role.
pub open spec fn spec_struct(t: Seq<Token>, pos: int, end: int, attributes: Seq<TypeAttrV>) -> Result<(StructV, int), ErrorV> {
    if !(pos < end && is_ident(t, pos)) {
        Err(syn_err(pos, EXPECTED_NAME@))
    } else {
        let head: Result<(Option<RestVariant>, int), ErrorV> = if pos + 1 < end && is_punct(t, pos + 1, '<') {
            if !(pos + 2 < end && is_ident(t, pos + 2)) {
                Err(syn_err(pos + 2, EXPECTED_ROLE@))
            } else if spec_role(ident_text(t, pos + 2)) is None {
                Err(sem_err(pos + 2, naming(INVALID_ROLE@, ident_text(t, pos + 2))))
            } else if !(pos + 3 < end && is_punct(t, pos + 3, '>')) {
                Err(syn_err(pos + 3, EXPECTED_GT@))
            } else {
                Ok((spec_role(ident_text(t, pos + 2)), pos + 4))
            }
        } else if spec_role(ident_text(t, pos)) is None {
            Err(sem_err(pos, naming(INVALID_ROLE@, ident_text(t, pos))))
        } else {
            Ok((None, pos + 1))
        };
        match head {
            Err(e) => Err(e),
            Ok((rest_variant, b)) => match spec_brace(t, b, end) {
                Err(e) => Err(e),
                Ok(c) => match spec_fields(t, b + 1, c, Seq::empty()) {
                    Err(e) => Err(e),
                    Ok(parameters) => Ok((StructV { attributes, name: ident_text(t, pos), rest_variant, parameters }, c + 1)),
                },
            },
        }
    }
}

fn parse_struct(toks: &Vec<Token>, pos: usize, end: usize, attributes: Vec<crate::attrs::TypeAttr>) -> (r: Result<(Struct, usize), ParseError>)
    requires
        region(toks@, pos as int, end as int),
    ensures
        res_eq(r, spec_struct(toks@, pos as int, end as int, type_attrs_view(attributes@))),
        crate::error::advances(r, pos as int, end as int),
{
    if !ident_at(toks, pos, end) {
        return Err(fail(ErrorKind::Syntax, pos, EXPECTED_NAME));
    }
    let (rest_variant, b) = if punct_at(toks, pos + 1, end, '<') {
        if !ident_at(toks, pos + 2, end) {
            return Err(fail(ErrorKind::Syntax, pos + 2, EXPECTED_ROLE));
        }
        let role = role_at(toks, pos + 2, end);
        if role.is_none() {
            let name = ident_string(toks, pos + 2);
            return Err(fail_naming(ErrorKind::Semantic, pos + 2, INVALID_ROLE, name.as_str()));
        }
        if !punct_at(toks, pos + 3, end, '>') {
            return Err(fail(ErrorKind::Syntax, pos + 3, EXPECTED_GT));
        }
        (role, pos + 4)
    } else {
        if role_at(toks, pos, end).is_none() {
            let name = ident_string(toks, pos);
            return Err(fail_naming(ErrorKind::Semantic, pos, INVALID_ROLE, name.as_str()));
        }
        (None, pos + 1)
    };
    let c = parse_brace(toks, b, end)?;
    let parameters = parse_fields(toks, b + 1, c)?;
    let name = ident_string(toks, pos);
    Ok((Struct { attributes, name, rest_variant, parameters }, c + 1))
}

/// An enumeration after `enum`: `Name: { variants }`.
pub open spec fn spec_enum(t: Seq<Token>, pos: int, end: int, attributes: Seq<TypeAttrV>) -> Result<(EnumV, int), ErrorV> {
    if !(pos < end && is_ident(t, pos)) {
        Err(syn_err(pos, EXPECTED_NAME@))
    } else if !(pos + 1 < end && is_punct(t, pos + 1, ':')) {
        Err(syn_err(pos + 1, EXPECTED_COLON@))
    } else {
        match spec_brace(t, pos + 2, end) {
            Err(e) => Err(e),
            Ok(c) => match spec_variants(t, pos + 3, c, Seq::empty()) {
                Err(e) => Err(e),
                Ok(enums) => Ok((EnumV { attributes, name: ident_text(t, pos), enums }, c + 1)),
            },
        }
    }
}

fn parse_enum(toks: &Vec<Token>, pos: usize, end: usize, attributes: Vec<crate::attrs::TypeAttr>) -> (r: Result<(Enum, usize), ParseError>)
    requires
        region(toks@, pos as int, end as int),
    ensures
        res_eq(r, spec_enum(toks@, pos as int, end as int, type_attrs_view(attributes@))),
        crate::error::advances(r, pos as int, end as int),
{
    if !ident_at(toks, pos, end) {
        return Err(fail(ErrorKind::Syntax, pos, EXPECTED_NAME));
    }
    if !punct_at(toks, pos + 1, end, ':') {
        return Err(fail(ErrorKind::Syntax, pos + 1, EXPECTED_COLON));
    }
    let c = parse_brace(toks, pos + 2, end)?;
    let enums = parse_variants(toks, pos + 3, c)?;
    let name = ident_string(toks, pos);
    Ok((Enum { attributes, name, enums }, c + 1))
}

/// One data type at `pos`: attributes, then `struct` or `enum`.
pub open spec fn spec_data_type(t: Seq<Token>, pos: int, end: int) -> Result<(EndpointDataTypeV, int), ErrorV> {
    match spec_type_attrs(t, pos, end, Seq::empty()) {
        Err(e) => Err(e),
        Ok((attributes, a)) => if a < end && is_keyword(t, a, "struct"@) {
            match spec_struct(t, a + 1, end, attributes) {
                Err(e) => Err(e),
                Ok((s, n)) => Ok((EndpointDataTypeV::Struct(s), n)),
            }
        } else if a < end && is_keyword(t, a, "enum"@) {
            match spec_enum(t, a + 1, end, attributes) {
                Err(e) => Err(e),
                Ok((e, n)) => Ok((EndpointDataTypeV::Enum(e), n)),
            }
        } else {
            Err(syn_err(a, EXPECTED_DATA_TYPE@))
        },
    }
}

pub fn parse_data_type(toks: &Vec<Token>, pos: usize, end: usize) -> (r: Result<(EndpointDataType, usize), ParseError>)
    requires
        region(toks@, pos as int, end as int),
    ensures
        res_eq(r, spec_data_type(toks@, pos as int, end as int)),
        crate::error::advances(r, pos as int, end as int),
{
    let (attributes, a) = parse_type_attrs(toks, pos, end)?;
    if keyword_at(toks, a, end, "struct") {
        let (s, n) = parse_struct(toks, a + 1, end, attributes)?;
        Ok((EndpointDataType::Struct(s), n))
    } else if keyword_at(toks, a, end, "enum") {
        let (e, n) = parse_enum(toks, a + 1, end, attributes)?;
        Ok((EndpointDataType::Enum(e), n))
    } else {
        Err(fail(ErrorKind::Syntax, a, EXPECTED_DATA_TYPE))
    }
}

/// The data types from `pos` to `end`, after those in `acc`: at least one in all.
/// Each item advances within the region; the bound test only makes
/// termination evident.
pub open spec fn spec_data_types(t: Seq<Token>, pos: int, end: int, acc: Seq<EndpointDataTypeV>) -> Result<Seq<EndpointDataTypeV>, ErrorV>
    decreases end - pos,
{
    if pos >= end {
        if acc.len() == 0 {
            Err(syn_err(pos, EXPECTED_DATA@))
        } else {
            Ok(acc)
        }
    } else {
        match spec_data_type(t, pos, end) {
            Err(e) => Err(e),
            Ok((d, n)) => if pos < n <= end {
                spec_data_types(t, n, end, acc.push(d))
            } else {
                Err(syn_err(pos, EXPECTED_DATA_TYPE@))
            },
        }
    }
}

pub fn parse_data_types(toks: &Vec<Token>, pos: usize, end: usize) -> (r: Result<Vec<EndpointDataType>, ParseError>)
    requires
        region(toks@, pos as int, end as int),
    ensures
        match (r, spec_data_types(toks@, pos as int, end as int, Seq::empty())) {
            (Ok(v), Ok(s)) => data_types_view(v@) == s,
            (Err(e), Err(f)) => e@ == f,
            _ => false,
        },
{
    let mut ds: Vec<EndpointDataType> = Vec::new();
    let mut p = pos;
    proof {
        assert(data_types_view(ds@) =~= Seq::empty());
    }
    while p < end
        invariant
            region(toks@, p as int, end as int),
            spec_data_types(toks@, pos as int, end as int, Seq::empty())
                == spec_data_types(toks@, p as int, end as int, data_types_view(ds@)),
        decreases end - p,
    {
        let (d, n) = parse_data_type(toks, p, end)?;
        let ghost before = ds@;
        let ghost dv = d@;
        ds.push(d);
        proof {
            assert(data_types_view(ds@) =~= data_types_view(before).push(dv));
        }
        p = n;
    }
    if ds.len() == 0 {
        return Err(fail(ErrorKind::Syntax, p, EXPECTED_DATA));
    }
    Ok(ds)
}

/// One endpoint method at `pos`: `VERB "uri" => { data types }`.
pub open spec fn spec_method(t: Seq<Token>, pos: int, end: int) -> Result<(EndpointMethodV, int), ErrorV> {
    if !(pos < end && is_ident(t, pos)) {
        Err(syn_err(pos, EXPECTED_VERB@))
    } else if spec_verb(ident_text(t, pos)) is None {
        Err(sem_err(pos, naming(INVALID_VERB@, ident_text(t, pos))))
    } else if !(pos + 1 < end && is_str(t, pos + 1)) {
        Err(syn_err(pos + 1, EXPECTED_URI@))
    } else if !(pos + 3 < end && is_joint_punct(t, pos + 2, '=') && is_punct(t, pos + 3, '>')) {
        Err(syn_err(pos + 2, EXPECTED_ARROW@))
    } else {
        match spec_brace(t, pos + 4, end) {
            Err(e) => Err(e),
            Ok(c) => match spec_data_types(t, pos + 5, c, Seq::empty()) {
                Err(e) => Err(e),
                Ok(data_types) => Ok((EndpointMethodV {
                    method: spec_verb(ident_text(t, pos))->Some_0,
                    uri: (pos + 1) as usize,
                    data_types,
                }, c + 1)),
            },
        }
    }
}

pub fn parse_method(toks: &Vec<Token>, pos: usize, end: usize) -> (r: Result<(EndpointMethod, usize), ParseError>)
    requires
        region(toks@, pos as int, end as int),
    ensures
        res_eq(r, spec_method(toks@, pos as int, end as int)),
        crate::error::advances(r, pos as int, end as int),
{
    if !ident_at(toks, pos, end) {
        return Err(fail(ErrorKind::Syntax, pos, EXPECTED_VERB));
    }
    let method = match verb_at(toks, pos, end) {
        Some(m) => m,
        None => {
            let name = ident_string(toks, pos);
            return Err(fail_naming(ErrorKind::Semantic, pos, INVALID_VERB, name.as_str()));
        },
    };
    if !(pos + 1 < end && matches!(toks[pos + 1], Token::Str(_))) {
        return Err(fail(ErrorKind::Syntax, pos + 1, EXPECTED_URI));
    }
    if !(joint_punct_at(toks, pos + 2, end, '=') && punct_at(toks, pos + 3, end, '>')) {
        return Err(fail(ErrorKind::Syntax, pos + 2, EXPECTED_ARROW));
    }
    let c = parse_brace(toks, pos + 4, end)?;
    let data_types = parse_data_types(toks, pos + 5, c)?;
    Ok((EndpointMethod { method, uri: pos + 1, data_types }, c + 1))
}

/// The methods from `pos` to `end`, after those in `acc`: at least one in all.
/// Each item advances within the region; the bound test only makes
/// termination evident.
pub open spec fn spec_methods(t: Seq<Token>, pos: int, end: int, acc: Seq<EndpointMethodV>) -> Result<Seq<EndpointMethodV>, ErrorV>
    decreases end - pos,
{
    if pos >= end {
        if acc.len() == 0 {
            Err(syn_err(pos, EXPECTED_METHOD@))
        } else {
            Ok(acc)
        }
    } else {
        match spec_method(t, pos, end) {
            Err(e) => Err(e),
            Ok((m, n)) => if pos < n <= end {
                spec_methods(t, n, end, acc.push(m))
            } else {
                Err(syn_err(pos, EXPECTED_VERB@))
            },
        }
    }
}

pub fn parse_methods(toks: &Vec<Token>, pos: usize, end: usize) -> (r: Result<Vec<EndpointMethod>, ParseError>)
    requires
        region(toks@, pos as int, end as int),
    ensures
        match (r, spec_methods(toks@, pos as int, end as int, Seq::empty())) {
            (Ok(v), Ok(s)) => methods_view(v@) == s,
            (Err(e), Err(f)) => e@ == f,
            _ => false,
        },
{
    let mut ms: Vec<EndpointMethod> = Vec::new();
    let mut p = pos;
    proof {
        assert(methods_view(ms@) =~= Seq::empty());
    }
    while p < end
        invariant
            region(toks@, p as int, end as int),
            spec_methods(toks@, pos as int, end as int, Seq::empty())
                == spec_methods(toks@, p as int, end as int, methods_view(ms@)),
        decreases end - p,
    {
        let (m, n) = parse_method(toks, p, end)?;
        let ghost before = ms@;
        let ghost mv = m@;
        ms.push(m);
        proof {
            assert(methods_view(ms@) =~= methods_view(before).push(mv));
        }
        p = n;
    }
    if ms.len() == 0 {
        return Err(fail(ErrorKind::Syntax, p, EXPECTED_METHOD));
    }
    Ok(ms)
}

/// The contents `pos..end` of one endpoint group's brackets:
/// `pub? Name: { methods }`, which must fill them.
#[verifier::opaque]
pub open spec fn spec_group(t: Seq<Token>, pos: int, end: int, attrs: Seq<TypeAttrV>) -> Result<EndpointV, ErrorV> {
    let vk: Result<(Visibility, int), ErrorV> = if pos < end && is_keyword(t, pos, "pub"@) {
        if pos + 1 < end && is_open(t, pos + 1, Delim::Paren) {
            match close_of(t, pos + 1, end) {
                None => Err(syn_err(pos + 1, UNCLOSED@)),
                Some(c) => Ok((Visibility::Restricted((pos + 1) as usize), c + 1)),
            }
        } else {
            Ok((Visibility::Public, pos + 1))
        }
    } else {
        Ok((Visibility::Inherited, pos))
    };
    match vk {
        Err(e) => Err(e),
        Ok((vis, k)) => if !(k < end && is_ident(t, k)) {
            Err(syn_err(k, EXPECTED_NAME@))
        } else if !(k + 1 < end && is_punct(t, k + 1, ':')) {
            Err(syn_err(k + 1, EXPECTED_COLON@))
        } else {
            match spec_brace(t, k + 2, end) {
                Err(e) => Err(e),
                Ok(c) => match spec_methods(t, k + 3, c, Seq::empty()) {
                    Err(e) => Err(e),
                    Ok(methods) => if c + 1 == end {
                        Ok(EndpointV { attrs, vis, name: ident_text(t, k), methods })
                    } else {
                        Err(syn_err(c + 1, EXPECTED_GROUP_END@))
                    },
                },
            }
        },
    }
}

fn parse_group(toks: &Vec<Token>, pos: usize, end: usize, attrs: Vec<crate::attrs::TypeAttr>) -> (r: Result<Endpoint, ParseError>)
    requires
        region(toks@, pos as int, end as int),
    ensures
        match (r, spec_group(toks@, pos as int, end as int, type_attrs_view(attrs@))) {
            (Ok(g), Ok(h)) => g@ == h,
            (Err(e), Err(f)) => e@ == f,
            _ => false,
        },
{
    proof {
        reveal(spec_group);
    }
    let (vis, k) = if keyword_at(toks, pos, end, "pub") {
        if open_at(toks, pos + 1, end, Delim::Paren) {
            match group_close(toks, pos + 1, end) {
                None => {
                    return Err(fail(ErrorKind::Syntax, pos + 1, UNCLOSED));
                },
                Some(c) => (Visibility::Restricted(pos + 1), c + 1),
            }
        } else {
            (Visibility::Public, pos + 1)
        }
    } else {
        (Visibility::Inherited, pos)
    };
    if !ident_at(toks, k, end) {
        return Err(fail(ErrorKind::Syntax, k, EXPECTED_NAME));
    }
    if !punct_at(toks, k + 1, end, ':') {
        return Err(fail(ErrorKind::Syntax, k + 1, EXPECTED_COLON));
    }
    let c = parse_brace(toks, k + 2, end)?;
    let methods = parse_methods(toks, k + 3, c)?;
    if c + 1 != end {
        return Err(fail(ErrorKind::Syntax, c + 1, EXPECTED_GROUP_END));
    }
    let name = ident_string(toks, k);
    Ok(Endpoint { attrs, vis, name, methods })
}

/// The endpoint groups from `pos` to `end`, after those in `acc`: each is
/// attributes, then a bracketed group; groups are separated by commas.
/// Each item advances within the region; the bound test only makes
/// termination evident.
pub open spec fn spec_endpoints(t: Seq<Token>, pos: int, end: int, acc: Seq<EndpointV>) -> Result<Seq<EndpointV>, ErrorV>
    decreases end - pos,
{
    match spec_type_attrs(t, pos, end, Seq::empty()) {
        Err(e) => Err(e),
        Ok((attrs, a)) => if !(a < end && is_open(t, a, Delim::Bracket)) {
            Err(syn_err(a, EXPECTED_GROUP@))
        } else {
            match close_of(t, a, end) {
                None => Err(syn_err(a, UNCLOSED@)),
                Some(c) => match spec_group(t, a + 1, c, attrs) {
                    Err(e) => Err(e),
                    Ok(g) => if c + 1 == end {
                        Ok(acc.push(g))
                    } else if !(c + 1 < end && is_punct(t, c + 1, ',')) {
                        Err(syn_err(c + 1, EXPECTED_GROUP_COMMA@))
                    } else if pos < c + 2 <= end {
                        spec_endpoints(t, c + 2, end, acc.push(g))
                    } else {
                        Err(syn_err(c + 1, EXPECTED_GROUP_COMMA@))
                    },
                },
            }
        },
    }
}

/// The declaration that the whole token sequence holds.
pub open spec fn spec_declaration(t: Seq<Token>) -> Result<Seq<EndpointV>, ErrorV> {
    spec_endpoints(t, 0, t.len() as int, Seq::empty())
}

/// Parses a whole declaration: one or more endpoint groups.
pub fn parse_declaration(toks: &Vec<Token>) -> (r: Result<RestEndpoints, ParseError>)
    ensures
        match (r, spec_declaration(toks@)) {
            (Ok(d), Ok(s)) => d@ == s,
            (Err(e), Err(f)) => e@ == f,
            _ => false,
        },
{
    let end = toks.len();
    let mut endpoints: Vec<Endpoint> = Vec::new();
    let mut p: usize = 0;
    proof {
        assert(endpoints_view(endpoints@) =~= Seq::empty());
    }
    loop
        invariant
            end == toks@.len(),
            region(toks@, p as int, end as int),
            spec_declaration(toks@) == spec_endpoints(toks@, p as int, end as int, endpoints_view(endpoints@)),
        decreases end - p,
    {
        let (attrs, a) = parse_type_attrs(toks, p, end)?;
        if !open_at(toks, a, end, Delim::Bracket) {
            return Err(fail(ErrorKind::Syntax, a, EXPECTED_GROUP));
        }
        let c = match group_close(toks, a, end) {
            None => {
                return Err(fail(ErrorKind::Syntax, a, UNCLOSED));
            },
            Some(c) => c,
        };
        let g = parse_group(toks, a + 1, c, attrs)?;
        let ghost before = endpoints@;
        let ghost gv = g@;
        endpoints.push(g);
        proof {
            assert(endpoints_view(endpoints@) =~= endpoints_view(before).push(gv));
        }
        if c + 1 == end {
            return Ok(RestEndpoints { endpoints });
        }
        if !punct_at(toks, c + 1, end, ',') {
            return Err(fail(ErrorKind::Syntax, c + 1, EXPECTED_GROUP_COMMA));
        }
        p = c + 2;
    }
}

} // verus!
