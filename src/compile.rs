//! The attribute compiler: splits a node's attributes into metadata, embedded
//! verbatim by the emitter, and commands, which change what it synthesizes;
//! and finds field-only attributes that stand where no field is.
use vstd::prelude::*;
use crate::ast::{
    EndpointDataType, EndpointDataTypeV, EndpointMethodV, EndpointV, EnumParameterV, Enumeration,
    EnumerationV, RestEndpoints,
};
use crate::attrs::{field_attrs_view, FieldAttr, FieldAttrV, ParamAttr, ParamAttrV, TypeAttr, TypeAttrV};
use crate::error::{fail, sem_err, ErrorKind, ParseError};

verus! {

pub const CONTEXT_VIOLATION: &'static str = "a field-only attribute is attached to a variant without fields";

/// Whether a field attribute only has a meaning on a field of a record.
pub open spec fn spec_struct_specific(a: ParamAttrV) -> bool {
    match a {
        ParamAttrV::Log(_) | ParamAttrV::Rename(_) | ParamAttrV::Validate(_) => false,
        _ => true,
    }
}

impl ParamAttr {
    /// Whether the attribute only has a meaning on a field of a record.
    pub fn struct_specific(&self) -> (r: bool)
        ensures
            r == spec_struct_specific(self@),
    {
        match self {
            ParamAttr::Borrow(_) => true,
            ParamAttr::Bound(_) => true,
            ParamAttr::DeserializeWith(_) => true,
            ParamAttr::Default(_) => true,
            ParamAttr::Flatten => true,
            ParamAttr::Getter(_) => true,
            ParamAttr::Log(_) => false,
            ParamAttr::Rename(_) => false,
            ParamAttr::SerializeWith(_) => true,
            ParamAttr::Skip => true,
            ParamAttr::SkipIf(_) => true,
            ParamAttr::SkipDeserialize => true,
            ParamAttr::SkipSerialize => true,
            ParamAttr::Validate(_) => false,
            ParamAttr::With(_) => true,
        }
    }
}

/// The position of the first field-only attribute in `v` from `i` on.
pub open spec fn first_struct_specific(v: Seq<FieldAttrV>, i: int) -> Option<usize>
    decreases v.len() - i,
{
    if i < 0 || i >= v.len() {
        None
    } else if spec_struct_specific(v[i].attr) {
        Some(v[i].at)
    } else {
        first_struct_specific(v, i + 1)
    }
}

/// The position of the first field-only attribute of a list, if any.
pub fn contains_struct_specific(attrs: &Vec<FieldAttr>) -> (r: Option<usize>)
    ensures
        r == first_struct_specific(field_attrs_view(attrs@), 0),
{
    let ghost v = field_attrs_view(attrs@);
    let mut i: usize = 0;
    while i < attrs.len()
        invariant
            v == field_attrs_view(attrs@),
            i <= attrs@.len(),
            first_struct_specific(v, 0) == first_struct_specific(v, i as int),
        decreases attrs@.len() - i,
    {
        if attrs[i].attr.struct_specific() {
            return Some(attrs[i].at);
        }
        i += 1;
    }
    None
}

/// Whether a record attribute is a command.
pub open spec fn spec_type_command(a: TypeAttrV) -> bool {
    match a {
        TypeAttrV::Async | TypeAttrV::Builder | TypeAttrV::Log(_) | TypeAttrV::Validate(_) => true,
        TypeAttrV::Derive(_) | TypeAttrV::RenameAll(_) | TypeAttrV::Remote(_) => false,
    }
}

/// Whether a field attribute is a command.
pub open spec fn spec_param_command(a: ParamAttrV) -> bool {
    match a {
        ParamAttrV::Log(_) | ParamAttrV::Validate(_) => true,
        _ => false,
    }
}

impl TypeAttr {
    pub fn is_command(&self) -> (r: bool)
        ensures
            r == spec_type_command(self@),
    {
        match self {
            TypeAttr::Async => true,
            TypeAttr::Builder => true,
            TypeAttr::Derive(_) => false,
            TypeAttr::Log(_) => true,
            TypeAttr::RenameAll(_) => false,
            TypeAttr::Remote(_) => false,
            TypeAttr::Validate(_) => true,
        }
    }
}

impl ParamAttr {
    pub fn is_command(&self) -> (r: bool)
        ensures
            r == spec_param_command(self@),
    {
        match self {
            ParamAttr::Log(_) => true,
            ParamAttr::Validate(_) => true,
            _ => false,
        }
    }
}

/// The indices `i < n` at which `flags[i] == want`, in order.
pub open spec fn indices_where(flags: Seq<bool>, n: int, want: bool) -> Seq<usize>
    decreases n,
{
    if n <= 0 {
        Seq::empty()
    } else if flags[n - 1] == want {
        indices_where(flags, n - 1, want).push((n - 1) as usize)
    } else {
        indices_where(flags, n - 1, want)
    }
}

/// One node's attributes split in two: the indices of the metadata and the
/// indices of the commands, each in the order of the list.
#[derive(Debug)]
pub struct CompiledAttrs {
    pub quotes: Vec<usize>,
    pub commands: Vec<usize>,
}

pub open spec fn type_command_flags(v: Seq<TypeAttrV>) -> Seq<bool> {
    v.map_values(|a: TypeAttrV| spec_type_command(a))
}

pub open spec fn param_command_flags(v: Seq<FieldAttrV>) -> Seq<bool> {
    v.map_values(|a: FieldAttrV| spec_param_command(a.attr))
}

/// Splits record attributes into metadata and commands.
pub fn compile_type_attrs(attrs: &Vec<TypeAttr>) -> (r: CompiledAttrs)
    ensures
        r.quotes@ == indices_where(type_command_flags(crate::attrs::type_attrs_view(attrs@)), attrs@.len() as int, false),
        r.commands@ == indices_where(type_command_flags(crate::attrs::type_attrs_view(attrs@)), attrs@.len() as int, true),
{
    let ghost flags = type_command_flags(crate::attrs::type_attrs_view(attrs@));
    let mut quotes: Vec<usize> = Vec::new();
    let mut commands: Vec<usize> = Vec::new();
    let mut i: usize = 0;
    while i < attrs.len()
        invariant
            flags == type_command_flags(crate::attrs::type_attrs_view(attrs@)),
            flags.len() == attrs@.len(),
            i <= attrs@.len(),
            quotes@ == indices_where(flags, i as int, false),
            commands@ == indices_where(flags, i as int, true),
        decreases attrs@.len() - i,
    {
        if attrs[i].is_command() {
            commands.push(i);
        } else {
            quotes.push(i);
        }
        i += 1;
    }
    CompiledAttrs { quotes, commands }
}

/// Splits field attributes into metadata and commands.
pub fn compile_field_attrs(attrs: &Vec<FieldAttr>) -> (r: CompiledAttrs)
    ensures
        r.quotes@ == indices_where(param_command_flags(field_attrs_view(attrs@)), attrs@.len() as int, false),
        r.commands@ == indices_where(param_command_flags(field_attrs_view(attrs@)), attrs@.len() as int, true),
{
    let ghost flags = param_command_flags(field_attrs_view(attrs@));
    let mut quotes: Vec<usize> = Vec::new();
    let mut commands: Vec<usize> = Vec::new();
    let mut i: usize = 0;
    while i < attrs.len()
        invariant
            flags == param_command_flags(field_attrs_view(attrs@)),
            flags.len() == attrs@.len(),
            i <= attrs@.len(),
            quotes@ == indices_where(flags, i as int, false),
            commands@ == indices_where(flags, i as int, true),
        decreases attrs@.len() - i,
    {
        if attrs[i].attr.is_command() {
            commands.push(i);
        } else {
            quotes.push(i);
        }
        i += 1;
    }
    CompiledAttrs { quotes, commands }
}

/// The position of a field-only attribute on a variant without fields.
pub open spec fn variant_violation(v: EnumerationV) -> Option<usize> {
    match v.param {
        EnumParameterV::Struct(_) => None,
        _ => first_struct_specific(v.attributes, 0),
    }
}

pub open spec fn data_type_violation(d: EndpointDataTypeV) -> Option<usize> {
    match d {
        EndpointDataTypeV::Struct(_) => None,
        EndpointDataTypeV::Enum(e) => first_in_variants(e.enums, 0),
    }
}

pub open spec fn method_violation(m: EndpointMethodV) -> Option<usize> {
    first_in_data_types(m.data_types, 0)
}

pub open spec fn group_violation(g: EndpointV) -> Option<usize> {
    first_in_methods(g.methods, 0)
}

/// The first violation in `v` from `i` on.
pub open spec fn first_in_variants(v: Seq<EnumerationV>, i: int) -> Option<usize>
    decreases v.len() - i,
{
    if i < 0 || i >= v.len() {
        None
    } else {
        match variant_violation(v[i]) {
            Some(p) => Some(p),
            None => first_in_variants(v, i + 1),
        }
    }
}

/// The first violation in `v` from `i` on.
pub open spec fn first_in_data_types(v: Seq<EndpointDataTypeV>, i: int) -> Option<usize>
    decreases v.len() - i,
{
    if i < 0 || i >= v.len() {
        None
    } else {
        match data_type_violation(v[i]) {
            Some(p) => Some(p),
            None => first_in_data_types(v, i + 1),
        }
    }
}

/// The first violation in `v` from `i` on.
pub open spec fn first_in_methods(v: Seq<EndpointMethodV>, i: int) -> Option<usize>
    decreases v.len() - i,
{
    if i < 0 || i >= v.len() {
        None
    } else {
        match method_violation(v[i]) {
            Some(p) => Some(p),
            None => first_in_methods(v, i + 1),
        }
    }
}

/// The first violation in `v` from `i` on.
pub open spec fn first_in_groups(v: Seq<EndpointV>, i: int) -> Option<usize>
    decreases v.len() - i,
{
    if i < 0 || i >= v.len() {
        None
    } else {
        match group_violation(v[i]) {
            Some(p) => Some(p),
            None => first_in_groups(v, i + 1),
        }
    }
}

fn check_variant(v: &Enumeration) -> (r: Option<usize>)
    ensures
        r == variant_violation(v@),
{
    match &v.param {
        crate::ast::EnumParameter::Struct(_) => None,
        _ => contains_struct_specific(&v.attributes),
    }
}

fn check_data_type(d: &EndpointDataType) -> (r: Option<usize>)
    ensures
        r == data_type_violation(d@),
{
    match d {
        EndpointDataType::Struct(_) => None,
        EndpointDataType::Enum(e) => first_violation_variants(&e.enums),
    }
}

fn check_method(m: &crate::ast::EndpointMethod) -> (r: Option<usize>)
    ensures
        r == method_violation(m@),
{
    first_violation_data_types(&m.data_types)
}

fn check_group(g: &crate::ast::Endpoint) -> (r: Option<usize>)
    ensures
        r == group_violation(g@),
{
    first_violation_methods(&g.methods)
}

fn first_violation_variants(v: &Vec<Enumeration>) -> (r: Option<usize>)
    ensures
        r == first_in_variants(crate::ast::variants_view(v@), 0),
{
    let ghost w = crate::ast::variants_view(v@);
    let mut i: usize = 0;
    while i < v.len()
        invariant
            w == crate::ast::variants_view(v@),
            i <= v@.len(),
            first_in_variants(w, 0) == first_in_variants(w, i as int),
        decreases v@.len() - i,
    {
        let r = check_variant(&v[i]);
        if r.is_some() {
            return r;
        }
        i += 1;
    }
    None
}

fn first_violation_data_types(v: &Vec<EndpointDataType>) -> (r: Option<usize>)
    ensures
        r == first_in_data_types(crate::ast::data_types_view(v@), 0),
{
    let ghost w = crate::ast::data_types_view(v@);
    let mut i: usize = 0;
    while i < v.len()
        invariant
            w == crate::ast::data_types_view(v@),
            i <= v@.len(),
            first_in_data_types(w, 0) == first_in_data_types(w, i as int),
        decreases v@.len() - i,
    {
        let r = check_data_type(&v[i]);
        if r.is_some() {
            return r;
        }
        i += 1;
    }
    None
}

fn first_violation_methods(v: &Vec<crate::ast::EndpointMethod>) -> (r: Option<usize>)
    ensures
        r == first_in_methods(crate::ast::methods_view(v@), 0),
{
    let ghost w = crate::ast::methods_view(v@);
    let mut i: usize = 0;
    while i < v.len()
        invariant
            w == crate::ast::methods_view(v@),
            i <= v@.len(),
            first_in_methods(w, 0) == first_in_methods(w, i as int),
        decreases v@.len() - i,
    {
        let r = check_method(&v[i]);
        if r.is_some() {
            return r;
        }
        i += 1;
    }
    None
}

fn first_violation_groups(v: &Vec<crate::ast::Endpoint>) -> (r: Option<usize>)
    ensures
        r == first_in_groups(crate::ast::endpoints_view(v@), 0),
{
    let ghost w = crate::ast::endpoints_view(v@);
    let mut i: usize = 0;
    while i < v.len()
        invariant
            w == crate::ast::endpoints_view(v@),
            i <= v@.len(),
            first_in_groups(w, 0) == first_in_groups(w, i as int),
        decreases v@.len() - i,
    {
        let r = check_group(&v[i]);
        if r.is_some() {
            return r;
        }
        i += 1;
    }
    None
}

/// The position of the first field-only attribute that stands on a variant
/// without fields, in source order.
pub fn contains_context_violation(d: &RestEndpoints) -> (r: Option<usize>)
    ensures
        r == first_in_groups(d@, 0),
{
    first_violation_groups(&d.endpoints)
}

/// Rejects a parsed declaration in which a field-only attribute stands on a
/// variant without fields.
pub fn check_context(d: &RestEndpoints) -> (r: Result<(), ParseError>)
    ensures
        match first_in_groups(d@, 0) {
            None => r is Ok,
            Some(p) => r matches Err(e) && e@ == sem_err(p as int, CONTEXT_VIOLATION@),
        },
{
    match contains_context_violation(d) {
        None => Ok(()),
        Some(p) => Err(fail(ErrorKind::Semantic, p, CONTEXT_VIOLATION)),
    }
}

/// The serde attributes that an optional field still needs: one that skips
/// `None` on output, and one that fills a missing value on input.
#[derive(Clone, Copy, Debug, PartialEq, Eq, Structural)]
pub struct SerdeFill {
    pub skip_serializing_if: bool,
    pub default: bool,
}

pub open spec fn has_skip_if(v: Seq<FieldAttrV>) -> bool {
    exists|i: int| 0 <= i < v.len() && #[trigger] v[i].attr is SkipIf
}

pub open spec fn has_default(v: Seq<FieldAttrV>) -> bool {
    exists|i: int| 0 <= i < v.len() && #[trigger] v[i].attr is Default
}

/// Which of the two policies of an optional field the emitter must add: the
/// skip on output where the record is serialized and the field does not
/// state its own, the default on input where it is deserialized and the
/// field does not state its own. The two are independent.
pub fn auto_fill_serde_attrs(attrs: &Vec<FieldAttr>, rest_type: crate::ast::RestType) -> (r: SerdeFill)
    ensures
        r.skip_serializing_if == (rest_type != crate::ast::RestType::Deserializable
            && !has_skip_if(field_attrs_view(attrs@))),
        r.default == (rest_type != crate::ast::RestType::Serializable
            && !has_default(field_attrs_view(attrs@))),
{
    let ghost v = field_attrs_view(attrs@);
    let mut skip_if = false;
    let mut default = false;
    let mut i: usize = 0;
    while i < attrs.len()
        invariant
            v == field_attrs_view(attrs@),
            i <= attrs@.len(),
            skip_if == exists|k: int| 0 <= k < i && #[trigger] v[k].attr is SkipIf,
            default == exists|k: int| 0 <= k < i && #[trigger] v[k].attr is Default,
        decreases attrs@.len() - i,
    {
        match &attrs[i].attr {
            ParamAttr::SkipIf(_) => {
                skip_if = true;
            },
            ParamAttr::Default(_) => {
                default = true;
            },
            _ => {},
        }
        proof {
            if v[i as int].attr is SkipIf {
                assert(v[i as int].attr is SkipIf);
            }
        }
        i += 1;
    }
    SerdeFill {
        skip_serializing_if: rest_type != crate::ast::RestType::Deserializable && !skip_if,
        default: rest_type != crate::ast::RestType::Serializable && !default,
    }
}

/// Parses a whole declaration and checks that every attribute stands where
/// it has a meaning.
pub fn compile_rest(toks: &Vec<crate::token::Token>) -> (r: Result<RestEndpoints, ParseError>)
    ensures
        match crate::parser::spec_declaration(toks@) {
            Err(f) => r matches Err(e) && e@ == f,
            Ok(s) => match first_in_groups(s, 0) {
                None => r matches Ok(d) && d@ == s,
                Some(p) => r matches Err(e) && e@ == sem_err(p as int, CONTEXT_VIOLATION@),
            },
        },
{
    let d = crate::parser::parse_declaration(toks)?;
    match check_context(&d) {
        Ok(()) => Ok(d),
        Err(e) => Err(e),
    }
}

} // verus!
