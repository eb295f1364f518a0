use proc_macro2::{Delimiter, Spacing, TokenStream, TokenTree};
use restify::ast::{EndpointDataType, EnumParameter, RestMethods, RestVariant, Visibility};
use restify::attrs::{ParamAttr, TypeAttr};
use restify::compile::compile_rest;
use restify::error::ErrorKind;
use restify::parser::parse_declaration;
use restify::token::{Delim, Token};
use restify::validate::ValidateAction;

fn flatten(ts: TokenStream, out: &mut Vec<Token>) {
    for tt in ts {
        match tt {
            TokenTree::Ident(i) => out.push(Token::Ident(i.to_string())),
            TokenTree::Punct(p) => out.push(Token::Punct(p.as_char(), p.spacing() == Spacing::Joint)),
            TokenTree::Literal(l) => {
                let text = l.to_string();
                out.push(match syn::Lit::new(l) {
                    syn::Lit::Str(s) => Token::Str(s.value()),
                    syn::Lit::Int(i) => Token::Int(i.base10_parse().unwrap()),
                    _ => Token::Other(text),
                });
            }
            TokenTree::Group(g) => {
                let d = match g.delimiter() {
                    Delimiter::Parenthesis => Some(Delim::Paren),
                    Delimiter::Bracket => Some(Delim::Bracket),
                    Delimiter::Brace => Some(Delim::Brace),
                    Delimiter::None => None,
                };
                match d {
                    Some(d) => {
                        out.push(Token::Open(d));
                        flatten(g.stream(), out);
                        out.push(Token::Close(d));
                    }
                    None => flatten(g.stream(), out),
                }
            }
        }
    }
}

fn lex(src: &str) -> Vec<Token> {
    let ts: TokenStream = src.parse().unwrap();
    let mut v = Vec::new();
    flatten(ts, &mut v);
    v
}

fn str_at(toks: &[Token], i: usize) -> String {
    match &toks[i] {
        Token::Str(s) => s.clone(),
        other => panic!("not a string literal: {:?}", other),
    }
}

fn text_of(toks: &[Token], start: usize, end: usize) -> String {
    let mut s = String::new();
    for t in &toks[start..end] {
        match t {
            Token::Ident(i) => s.push_str(i),
            Token::Punct(c, _) => s.push(*c),
            _ => s.push('?'),
        }
    }
    s
}

fn first_field_attr_range(src: &str) -> ValidateAction {
    let toks = lex(src);
    let d = parse_declaration(&toks).unwrap();
    let EndpointDataType::Struct(s) = &d.endpoints[0].methods[0].data_types[0] else {
        panic!("expected a record")
    };
    match &s.parameters[0].attributes[0].attr {
        ParamAttr::Validate(c) => c.actions[0],
        other => panic!("unexpected attribute {:?}", other),
    }
}

#[test]
fn get_query_record_parses() {
    let toks = lex(r#"[pub Users: { GET "/users/{id}" => { struct Query { id: i32, name: ?String } } }]"#);
    let d = parse_declaration(&toks).unwrap();
    assert_eq!(d.endpoints.len(), 1);
    let g = &d.endpoints[0];
    assert_eq!(g.name, "Users");
    assert_eq!(g.vis, Visibility::Public);
    assert_eq!(g.methods.len(), 1);
    let m = &g.methods[0];
    assert_eq!(m.method, RestMethods::GET);
    assert_eq!(str_at(&toks, m.uri), "/users/{id}");
    assert_eq!(m.data_types.len(), 1);
    let EndpointDataType::Struct(s) = &m.data_types[0] else { panic!("expected a record") };
    assert_eq!(s.name, "Query");
    assert_eq!(s.rest_variant, None);
    assert_eq!(s.role(), Some(RestVariant::Query));
    assert_eq!(s.parameters.len(), 2);
    assert_eq!(s.parameters[0].name, "id");
    assert!(!s.parameters[0].optional);
    assert_eq!(text_of(&toks, s.parameters[0].ty.start, s.parameters[0].ty.end), "i32");
    assert_eq!(s.parameters[1].name, "name");
    assert!(s.parameters[1].optional);
    assert_eq!(text_of(&toks, s.parameters[1].ty.start, s.parameters[1].ty.end), "String");
}

#[test]
fn range_min_only() {
    let a = first_field_attr_range(
        r#"[A: { GET "/" => { struct Query { #[validate(range(min: 19))] age: u8 } } }]"#,
    );
    assert_eq!(a, ValidateAction::Range { min: Some(19), max: None });
}

#[test]
fn range_min_and_max_in_order() {
    let a = first_field_attr_range(
        r#"[A: { GET "/" => { struct Query { #[validate(range(min: 1, max: 5))] n: u8 } } }]"#,
    );
    assert_eq!(a, ValidateAction::Range { min: Some(1), max: Some(5) });
    let b = first_field_attr_range(
        r#"[A: { GET "/" => { struct Query { #[validate(range(min: -3, max: 0))] n: i8 } } }]"#,
    );
    assert_eq!(b, ValidateAction::Range { min: Some(-3), max: Some(0) });
    let c = first_field_attr_range(
        r#"[A: { GET "/" => { struct Query { #[validate(range(max: 7))] n: u8 } } }]"#,
    );
    assert_eq!(c, ValidateAction::Range { min: None, max: Some(7) });
}

#[test]
fn range_max_before_min_fails() {
    let toks = lex(r#"[A: { GET "/" => { struct Query { #[validate(range(max: 5, min: 1))] n: u8 } } }]"#);
    let e = parse_declaration(&toks).unwrap_err();
    assert_eq!(e.kind, ErrorKind::Syntax);
    assert!(e.message.contains("min"), "{}", e.message);
}

#[test]
fn range_duplicate_bounds_are_semantic_errors() {
    let toks = lex(r#"[A: { GET "/" => { struct Query { #[validate(range(max: 5, max: 1))] n: u8 } } }]"#);
    let e = parse_declaration(&toks).unwrap_err();
    assert_eq!(e.kind, ErrorKind::Semantic);
    assert!(e.message.contains("duplicate `max`"));
    let toks = lex(r#"[A: { GET "/" => { struct Query { #[validate(range(min: 5, min: 1))] n: u8 } } }]"#);
    let e = parse_declaration(&toks).unwrap_err();
    assert_eq!(e.kind, ErrorKind::Semantic);
    assert!(e.message.contains("duplicate `min`"));
}

#[test]
fn validate_chain_in_order() {
    let toks = lex(r#"[A: { POST "/" => { struct Request { #[validate(required, email, regex = "a+", custom = "check")] mail: String } } }]"#);
    let d = parse_declaration(&toks).unwrap();
    let EndpointDataType::Struct(s) = &d.endpoints[0].methods[0].data_types[0] else { panic!() };
    let ParamAttr::Validate(c) = &s.parameters[0].attributes[0].attr else { panic!() };
    assert_eq!(c.actions.len(), 4);
    assert_eq!(c.actions[0], ValidateAction::Required);
    assert_eq!(c.actions[1], ValidateAction::Email);
    let ValidateAction::Regex(r) = c.actions[2] else { panic!() };
    assert_eq!(str_at(&toks, r), "a+");
    let ValidateAction::Custom(k) = c.actions[3] else { panic!() };
    assert_eq!(str_at(&toks, k), "check");
}

#[test]
fn validate_chain_rejects_trailing_comma_and_empty() {
    let toks = lex(r#"[A: { POST "/" => { struct Request { #[validate(required,)] x: u8 } } }]"#);
    assert_eq!(parse_declaration(&toks).unwrap_err().kind, ErrorKind::Syntax);
    let toks = lex(r#"[A: { POST "/" => { struct Request { #[validate()] x: u8 } } }]"#);
    assert_eq!(parse_declaration(&toks).unwrap_err().kind, ErrorKind::Syntax);
}

#[test]
fn unknown_attribute_is_named_verbatim() {
    let toks = lex(r#"[A: { GET "/" => { struct Query { #[frobnicate] x: u8 } } }]"#);
    let e = parse_declaration(&toks).unwrap_err();
    assert_eq!(e.kind, ErrorKind::Syntax);
    assert!(e.message.contains("\"frobnicate\""), "{}", e.message);
    assert!(matches!(&toks[e.at], Token::Ident(s) if s == "frobnicate"));
    let toks = lex(r#"#[teleport] [A: { GET "/" => { struct Query { x: u8 } } }]"#);
    let e = parse_declaration(&toks).unwrap_err();
    assert_eq!(e.kind, ErrorKind::Syntax);
    assert!(e.message.contains("\"teleport\""), "{}", e.message);
}

#[test]
fn groups_come_back_in_source_order() {
    let toks = lex(r#"#[builder] [First: { GET "/a" => { struct Query { } } }], [pub(crate) Second: { PUT "/b" => { struct Body<Request> { x: u8, } } }], [Third: { DELETE "/c" => { struct Header { } } }]"#);
    let d = parse_declaration(&toks).unwrap();
    assert_eq!(d.endpoints.len(), 3);
    assert_eq!(d.endpoints[0].name, "First");
    assert_eq!(d.endpoints[1].name, "Second");
    assert_eq!(d.endpoints[2].name, "Third");
    assert!(matches!(d.endpoints[0].attrs[0], TypeAttr::Builder));
    assert!(d.endpoints[1].attrs.is_empty());
    assert!(matches!(d.endpoints[1].vis, Visibility::Restricted(_)));
    assert_eq!(d.endpoints[2].vis, Visibility::Inherited);
    assert_eq!(d.endpoints[1].methods[0].method, RestMethods::PUT);
    let EndpointDataType::Struct(s) = &d.endpoints[1].methods[0].data_types[0] else { panic!() };
    assert_eq!(s.rest_variant, Some(RestVariant::Request));
    assert_eq!(s.role(), Some(RestVariant::Request));
}

#[test]
fn groups_must_be_comma_separated() {
    let toks = lex(r#"[A: { GET "/a" => { struct Query { } } }] [B: { GET "/b" => { struct Query { } } }]"#);
    let e = parse_declaration(&toks).unwrap_err();
    assert_eq!(e.kind, ErrorKind::Syntax);
    assert!(parse_declaration(&lex("")).is_err());
}

#[test]
fn optional_flag_follows_question_mark() {
    let toks = lex(r#"[A: { GET "/" => { struct Query { a: ?Vec<Option<u8>>, b: HashMap<String, Vec<u8>> c: &'a mut str, d: ::std::string::String } } }]"#);
    let d = parse_declaration(&toks).unwrap();
    let EndpointDataType::Struct(s) = &d.endpoints[0].methods[0].data_types[0] else { panic!() };
    assert_eq!(s.parameters.len(), 4);
    assert!(s.parameters[0].optional);
    assert!(!s.parameters[1].optional);
    assert!(!s.parameters[2].optional);
    assert!(!s.parameters[3].optional);
    assert_eq!(text_of(&toks, s.parameters[0].ty.start, s.parameters[0].ty.end), "Vec<Option<u8>>");
    assert_eq!(text_of(&toks, s.parameters[1].ty.start, s.parameters[1].ty.end), "HashMap<String,Vec<u8>>");
    assert_eq!(text_of(&toks, s.parameters[2].ty.start, s.parameters[2].ty.end), "&'amutstr");
    assert_eq!(text_of(&toks, s.parameters[3].ty.start, s.parameters[3].ty.end), "::std::string::String");
}

#[test]
fn variant_fields_match_record_fields() {
    let toks = lex(r#"[A: { GET "/" => {
        struct Query { #[rename = "x"] a: ?u8, #[skip] b: String }
        enum Kind: { V { #[rename = "x"] a: ?u8, #[skip] b: String }, }
    } }]"#);
    let d = parse_declaration(&toks).unwrap();
    let m = &d.endpoints[0].methods[0];
    let EndpointDataType::Struct(s) = &m.data_types[0] else { panic!() };
    let EndpointDataType::Enum(e) = &m.data_types[1] else { panic!() };
    let EnumParameter::Struct(fs) = &e.enums[0].param else { panic!() };
    assert_eq!(fs.len(), s.parameters.len());
    for (f, g) in fs.iter().zip(s.parameters.iter()) {
        assert_eq!(f.name, g.name);
        assert_eq!(f.optional, g.optional);
        assert_eq!(text_of(&toks, f.ty.start, f.ty.end), text_of(&toks, g.ty.start, g.ty.end));
        assert_eq!(f.attributes.len(), g.attributes.len());
        for (x, y) in f.attributes.iter().zip(g.attributes.iter()) {
            match (&x.attr, &y.attr) {
                (ParamAttr::Rename(i), ParamAttr::Rename(j)) => assert_eq!(str_at(&toks, *i), str_at(&toks, *j)),
                (ParamAttr::Skip, ParamAttr::Skip) => {}
                other => panic!("attributes differ: {:?}", other),
            }
        }
    }
}

#[test]
fn enum_variants_of_three_shapes() {
    let toks = lex(r#"[A: { GET "/" => { #[derive(Debug, Clone)] enum Kind: { Unit, Tup(?String), Rec { id: u32 }, } } }]"#);
    let d = parse_declaration(&toks).unwrap();
    let EndpointDataType::Enum(e) = &d.endpoints[0].methods[0].data_types[0] else { panic!() };
    assert_eq!(e.name, "Kind");
    let TypeAttr::Derive(names) = &e.attributes[0] else { panic!() };
    assert_eq!(names.len(), 2);
    assert_eq!(e.enums.len(), 3);
    assert!(matches!(e.enums[0].param, EnumParameter::Variant));
    assert!(matches!(e.enums[1].param, EnumParameter::Tuple { opt: true, .. }));
    let EnumParameter::Struct(fs) = &e.enums[2].param else { panic!() };
    assert_eq!(fs[0].name, "id");
}

#[test]
fn invalid_verb_and_role_are_semantic_errors() {
    let toks = lex(r#"[A: { FETCH "/" => { struct Query { } } }]"#);
    let e = parse_declaration(&toks).unwrap_err();
    assert_eq!(e.kind, ErrorKind::Semantic);
    assert!(e.message.contains("\"FETCH\""));
    let toks = lex(r#"[A: { GET "/" => { struct Thing { } } }]"#);
    let e = parse_declaration(&toks).unwrap_err();
    assert_eq!(e.kind, ErrorKind::Semantic);
    assert!(e.message.contains("\"Thing\""));
    let toks = lex(r#"[A: { GET "/" => { struct Thing<Body> { } } }]"#);
    let e = parse_declaration(&toks).unwrap_err();
    assert_eq!(e.kind, ErrorKind::Semantic);
    assert!(e.message.contains("\"Body\""));
}

#[test]
fn missing_colon_is_reported_at_its_place() {
    let toks = lex(r#"[A: { GET "/" => { struct Query { id i32 } } }]"#);
    let e = parse_declaration(&toks).unwrap_err();
    assert_eq!(e.kind, ErrorKind::Syntax);
    assert!(matches!(&toks[e.at], Token::Ident(s) if s == "i32"));
    assert_eq!(e.message, "expected `:`");
}

#[test]
fn field_only_attribute_on_bare_variant_is_rejected() {
    let toks = lex(r#"[A: { GET "/" => { enum Kind: { #[skip_if = "f"] Bare, #[rename = "r"] Other, } } }]"#);
    let parsed = parse_declaration(&toks);
    assert!(parsed.is_ok());
    let e = compile_rest(&toks).unwrap_err();
    assert_eq!(e.kind, ErrorKind::Semantic);
    let hash = toks.iter().position(|t| matches!(t, Token::Punct('#', _))).unwrap();
    assert_eq!(e.at, hash);
    let ok = lex(r#"[A: { GET "/" => { enum Kind: { #[rename = "r"] Bare, V { #[skip] x: u8 }, } } }]"#);
    assert!(compile_rest(&ok).is_ok());
}

#[test]
fn log_attribute_detects_placeholders() {
    let toks = lex(r#"[A: { GET "/" => { #[log(info = "user {id}", warn = "plain")] struct Query { } } }]"#);
    let d = parse_declaration(&toks).unwrap();
    let EndpointDataType::Struct(s) = &d.endpoints[0].methods[0].data_types[0] else { panic!() };
    let TypeAttr::Log(l) = &s.attributes[0] else { panic!() };
    assert_eq!(l.commands.len(), 2);
    assert!(l.require_look_back);
    let toks = lex(r#"[A: { GET "/" => { #[log(error = "no {} here")] struct Query { } } }]"#);
    let d = parse_declaration(&toks).unwrap();
    let EndpointDataType::Struct(s) = &d.endpoints[0].methods[0].data_types[0] else { panic!() };
    let TypeAttr::Log(l) = &s.attributes[0] else { panic!() };
    assert!(!l.require_look_back);
    let toks = lex(r#"[A: { GET "/" => { #[log(trace = "x")] struct Query { } } }]"#);
    assert!(parse_declaration(&toks).unwrap_err().message.contains("\"trace\""));
}

#[test]
fn two_groups_with_records_and_enumerations() {
    let toks = lex(r#"
        #[builder]
        [pub DoesVecWork: {
            PUT "/api/vec/{ids}" => {
                #[remote="other_crate::SignUp"]
                struct Remote<Request> {
                    #[rename="username"]
                    name: String,
                    #[rename="password"]
                    #[getter="other_crate::Signup::create_password"]
                    pass: String,
                }
                #[rename_all="RenameAll"]
                #[builder]
                #[log(
                    info="MyIDs Request has been sent",
                    error="Failed to make MyIDs request: {error"
                )]
                struct MyIDs<Request> {
                    #[rename="Rename"]
                    ids: Vec<u64>,
                    names: Vec<String>,
                    #[validate(required, range(min: 19, max: 115))]
                    age: u32
                }
                #[derive(Eq, PartialEq, Clone, Ord, PartialOrd)]
                #[rename_all="CamelCase"]
                enum MyEnum: {
                    #[rename="VARIANT"]
                    Variant,
                    #[rename="TUPLE"]
                    Tuple(String),
                    Struct {
                        #[rename="ONE"]
                        #[skip_if="SkipIfTest"]
                        #[default="DefaultTest"]
                        both: ?String,
                        #[rename="THREE"]
                        neither: ?String,
                    },
                }
            }
        }],
        #[builder]
        [pub SecondEndpoint: {
            GET "v2/endpoint/{id}" => {
                struct EndpointReq<Request> {
                    ids: Vec<String>,
                }
            }
        }]
    "#);
    let d = compile_rest(&toks).unwrap();
    assert_eq!(d.endpoints.len(), 2);
    let m = &d.endpoints[0].methods[0];
    assert_eq!(m.method, RestMethods::PUT);
    assert_eq!(m.data_types.len(), 3);
    let EndpointDataType::Struct(ids) = &m.data_types[1] else { panic!() };
    assert_eq!(ids.attributes.len(), 3);
    let TypeAttr::Log(l) = &ids.attributes[2] else { panic!() };
    assert_eq!(l.commands.len(), 2);
    assert!(!l.require_look_back);
    let ParamAttr::Validate(c) = &ids.parameters[2].attributes[0].attr else { panic!() };
    assert_eq!(c.actions[1], ValidateAction::Range { min: Some(19), max: Some(115) });
    let EndpointDataType::Enum(e) = &m.data_types[2] else { panic!() };
    assert_eq!(e.enums.len(), 3);
    let EnumParameter::Struct(fs) = &e.enums[2].param else { panic!() };
    assert_eq!(fs[0].attributes.len(), 3);
    assert!(fs[0].optional && fs[1].optional);
    assert_eq!(d.endpoints[1].name, "SecondEndpoint");
}

#[test]
fn field_written_back_parses_to_the_same_flag() {
    let toks = lex(r#"[A: { GET "/" => { struct Query { #[rename = "n"] name: ?Vec<String> id: u8 } } }]"#);
    let d = parse_declaration(&toks).unwrap();
    let EndpointDataType::Struct(s) = &d.endpoints[0].methods[0].data_types[0] else { panic!() };
    for f in &s.parameters {
        let again = f.to_tokens(&toks);
        let fs = restify::parser::parse_fields(&again, 0, again.len()).unwrap();
        assert_eq!(fs.len(), 1);
        assert_eq!(fs[0].name, f.name);
        assert_eq!(fs[0].optional, f.optional);
        assert!(fs[0].attributes.is_empty());
        assert_eq!(text_of(&again, fs[0].ty.start, fs[0].ty.end), text_of(&toks, f.ty.start, f.ty.end));
    }
    assert!(s.parameters[0].optional);
    assert!(!s.parameters[1].optional);
}
