//! The tree that the declaration parser builds, and its mathematical view.
//! Names are copied out of the tokens; literals and type references are held
//! as indices into the token sequence, which outlives the tree.
use vstd::prelude::*;
use crate::attrs::{field_attrs_view, type_attrs_view, FieldAttr, FieldAttrV, TypeAttr, TypeAttrV};

verus! {

/// One of the seven HTTP methods that an endpoint may use.
#[derive(Clone, Copy, Debug, PartialEq, Eq, Structural)]
pub enum RestMethods {
    GET,
    POST,
    PUT,
    DELETE,
    PATCH,
    OPTIONS,
    HEAD,
}

impl RestMethods {
    pub open spec fn spec_name(self) -> Seq<char> {
        match self {
            RestMethods::GET => "GET"@,
            RestMethods::POST => "POST"@,
            RestMethods::PUT => "PUT"@,
            RestMethods::DELETE => "DELETE"@,
            RestMethods::PATCH => "PATCH"@,
            RestMethods::OPTIONS => "OPTIONS"@,
            RestMethods::HEAD => "HEAD"@,
        }
    }

    /// The method's name as written in a declaration.
    pub fn name(&self) -> (r: &'static str)
        ensures
            r@ == self.spec_name(),
    {
        match self {
            RestMethods::GET => "GET",
            RestMethods::POST => "POST",
            RestMethods::PUT => "PUT",
            RestMethods::DELETE => "DELETE",
            RestMethods::PATCH => "PATCH",
            RestMethods::OPTIONS => "OPTIONS",
            RestMethods::HEAD => "HEAD",
        }
    }
}

/// The role of a record, which selects how it is serialized.
#[derive(Clone, Copy, Debug, PartialEq, Eq, Structural)]
pub enum RestVariant {
    Header,
    Request,
    Response,
    ReqRes,
    Query,
}

/// The directions in which a record is serialized.
#[derive(Clone, Copy, Debug, PartialEq, Eq, Structural)]
pub enum RestType {
    Serializable,
    Deserializable,
    Both,
}

pub open spec fn spec_rest_type(v: RestVariant) -> RestType {
    match v {
        RestVariant::Header | RestVariant::Request | RestVariant::Query => RestType::Serializable,
        RestVariant::Response => RestType::Deserializable,
        RestVariant::ReqRes => RestType::Both,
    }
}

impl RestVariant {
    pub open spec fn spec_name(self) -> Seq<char> {
        match self {
            RestVariant::Header => "Header"@,
            RestVariant::Request => "Request"@,
            RestVariant::Response => "Response"@,
            RestVariant::ReqRes => "ReqRes"@,
            RestVariant::Query => "Query"@,
        }
    }

    /// The role's name as written in a declaration.
    pub fn name(&self) -> (r: &'static str)
        ensures
            r@ == self.spec_name(),
    {
        match self {
            RestVariant::Header => "Header",
            RestVariant::Request => "Request",
            RestVariant::Response => "Response",
            RestVariant::ReqRes => "ReqRes",
            RestVariant::Query => "Query",
        }
    }

    /// Headers, requests and queries are sent, responses are received, and
    /// a request-response record goes both ways.
    pub fn rest_type(&self) -> (r: RestType)
        ensures
            r == spec_rest_type(*self),
    {
        match self {
            RestVariant::Header => RestType::Serializable,
            RestVariant::Request => RestType::Serializable,
            RestVariant::Query => RestType::Serializable,
            RestVariant::Response => RestType::Deserializable,
            RestVariant::ReqRes => RestType::Both,
        }
    }
}

/// The tokens `start..end` that name a type; the parser does not interpret them.
#[derive(Clone, Copy, Debug, PartialEq, Eq, Structural)]
pub struct TypeRef {
    pub start: usize,
    pub end: usize,
}

/// The visibility of an endpoint group; `Restricted` holds the index of the
/// `(` that follows `pub`.
#[derive(Clone, Copy, Debug, PartialEq, Eq, Structural)]
pub enum Visibility {
    Inherited,
    Public,
    Restricted(usize),
}

/// A field: `name: Type` or `name: ?Type`, with its attributes.
#[derive(Debug)]
pub struct StructParameter {
    pub attributes: Vec<FieldAttr>,
    pub name: String,
    pub ty: TypeRef,
    pub optional: bool,
}

pub struct StructParameterV {
    pub attributes: Seq<FieldAttrV>,
    pub name: Seq<char>,
    pub ty: TypeRef,
    pub optional: bool,
}

impl View for StructParameter {
    type V = StructParameterV;

    open spec fn view(&self) -> StructParameterV {
        StructParameterV {
            attributes: field_attrs_view(self.attributes@),
            name: self.name@,
            ty: self.ty,
            optional: self.optional,
        }
    }
}

pub open spec fn fields_view(v: Seq<StructParameter>) -> Seq<StructParameterV> {
    v.map_values(|f: StructParameter| f@)
}

/// The payload of a variant.
#[derive(Debug)]
pub enum EnumParameter {
    Tuple { ty: TypeRef, opt: bool },
    Struct(Vec<StructParameter>),
    Variant,
}

pub enum EnumParameterV {
    Tuple { ty: TypeRef, opt: bool },
    Struct(Seq<StructParameterV>),
    Variant,
}

impl View for EnumParameter {
    type V = EnumParameterV;

    open spec fn view(&self) -> EnumParameterV {
        match self {
            EnumParameter::Tuple { ty, opt } => EnumParameterV::Tuple { ty: *ty, opt: *opt },
            EnumParameter::Struct(f) => EnumParameterV::Struct(fields_view(f@)),
            EnumParameter::Variant => EnumParameterV::Variant,
        }
    }
}

/// A variant of an enumeration.
#[derive(Debug)]
pub struct Enumeration {
    pub attributes: Vec<FieldAttr>,
    pub ident: String,
    pub param: EnumParameter,
}

pub struct EnumerationV {
    pub attributes: Seq<FieldAttrV>,
    pub ident: Seq<char>,
    pub param: EnumParameterV,
}

impl View for Enumeration {
    type V = EnumerationV;

    open spec fn view(&self) -> EnumerationV {
        EnumerationV {
            attributes: field_attrs_view(self.attributes@),
            ident: self.ident@,
            param: self.param@,
        }
    }
}

pub open spec fn variants_view(v: Seq<Enumeration>) -> Seq<EnumerationV> {
    v.map_values(|e: Enumeration| e@)
}

/// An enumeration: a closed set of variants.
#[derive(Debug)]
pub struct Enum {
    pub attributes: Vec<TypeAttr>,
    pub name: String,
    pub enums: Vec<Enumeration>,
}

pub struct EnumV {
    pub attributes: Seq<TypeAttrV>,
    pub name: Seq<char>,
    pub enums: Seq<EnumerationV>,
}

impl View for Enum {
    type V = EnumV;

    open spec fn view(&self) -> EnumV {
        EnumV {
            attributes: type_attrs_view(self.attributes@),
            name: self.name@,
            enums: variants_view(self.enums@),
        }
    }
}

/// A record: named fields, with a role.
#[derive(Debug)]
pub struct Struct {
    pub attributes: Vec<TypeAttr>,
    pub name: String,
    pub rest_variant: Option<RestVariant>,
    pub parameters: Vec<StructParameter>,
}

pub struct StructV {
    pub attributes: Seq<TypeAttrV>,
    pub name: Seq<char>,
    pub rest_variant: Option<RestVariant>,
    pub parameters: Seq<StructParameterV>,
}

impl View for Struct {
    type V = StructV;

    open spec fn view(&self) -> StructV {
        StructV {
            attributes: type_attrs_view(self.attributes@),
            name: self.name@,
            rest_variant: self.rest_variant,
            parameters: fields_view(self.parameters@),
        }
    }
}

/// A data type of an endpoint method.
#[derive(Debug)]
pub enum EndpointDataType {
    Struct(Struct),
    Enum(Enum),
}

pub enum EndpointDataTypeV {
    Struct(StructV),
    Enum(EnumV),
}

impl View for EndpointDataType {
    type V = EndpointDataTypeV;

    open spec fn view(&self) -> EndpointDataTypeV {
        match self {
            EndpointDataType::Struct(s) => EndpointDataTypeV::Struct(s@),
            EndpointDataType::Enum(e) => EndpointDataTypeV::Enum(e@),
        }
    }
}

pub open spec fn data_types_view(v: Seq<EndpointDataType>) -> Seq<EndpointDataTypeV> {
    v.map_values(|d: EndpointDataType| d@)
}

/// `VERB "uri" => { data types }`; `uri` is the index of the literal.
#[derive(Debug)]
pub struct EndpointMethod {
    pub method: RestMethods,
    pub uri: usize,
    pub data_types: Vec<EndpointDataType>,
}

pub struct EndpointMethodV {
    pub method: RestMethods,
    pub uri: usize,
    pub data_types: Seq<EndpointDataTypeV>,
}

impl View for EndpointMethod {
    type V = EndpointMethodV;

    open spec fn view(&self) -> EndpointMethodV {
        EndpointMethodV {
            method: self.method,
            uri: self.uri,
            data_types: data_types_view(self.data_types@),
        }
    }
}

pub open spec fn methods_view(v: Seq<EndpointMethod>) -> Seq<EndpointMethodV> {
    v.map_values(|m: EndpointMethod| m@)
}

/// An endpoint group: `[vis Name: { methods }]`, with its attributes.
#[derive(Debug)]
pub struct Endpoint {
    pub attrs: Vec<TypeAttr>,
    pub vis: Visibility,
    pub name: String,
    pub methods: Vec<EndpointMethod>,
}

pub struct EndpointV {
    pub attrs: Seq<TypeAttrV>,
    pub vis: Visibility,
    pub name: Seq<char>,
    pub methods: Seq<EndpointMethodV>,
}

impl View for Endpoint {
    type V = EndpointV;

    open spec fn view(&self) -> EndpointV {
        EndpointV {
            attrs: type_attrs_view(self.attrs@),
            vis: self.vis,
            name: self.name@,
            methods: methods_view(self.methods@),
        }
    }
}

pub open spec fn endpoints_view(v: Seq<Endpoint>) -> Seq<EndpointV> {
    v.map_values(|e: Endpoint| e@)
}

/// A whole declaration: its endpoint groups in source order.
#[derive(Debug)]
pub struct RestEndpoints {
    pub endpoints: Vec<Endpoint>,
}

impl View for RestEndpoints {
    type V = Seq<EndpointV>;

    open spec fn view(&self) -> Seq<EndpointV> {
        endpoints_view(self.endpoints@)
    }
}

} // verus!
