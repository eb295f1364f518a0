use restify::ast::{RestType, RestVariant};
use restify::attrs::{FieldAttr, ParamAttr, TypeAttr};
use restify::command::{AttrCommands, DirectiveKind, DispatchError};
use restify::compile::{auto_fill_serde_attrs, compile_field_attrs, compile_type_attrs, contains_struct_specific};
use restify::log::{Log, LogCmd, LogLevel};
use restify::validate::{ParameterValidate, ValidateAction, ValidateChain};

fn chain() -> ValidateChain {
    ValidateChain { actions: vec![ValidateAction::Required, ValidateAction::Range { min: Some(1), max: None }] }
}

#[test]
fn type_attributes_split_into_metadata_and_commands() {
    let attrs = vec![
        TypeAttr::Derive(vec![3]),
        TypeAttr::Builder,
        TypeAttr::RenameAll(7),
        TypeAttr::Validate(chain()),
        TypeAttr::Async,
        TypeAttr::Remote(9),
    ];
    let c = compile_type_attrs(&attrs);
    assert_eq!(c.quotes, vec![0, 2, 5]);
    assert_eq!(c.commands, vec![1, 3, 4]);
}

#[test]
fn field_attributes_split_into_metadata_and_commands() {
    let attrs = vec![
        FieldAttr { at: 0, attr: ParamAttr::Rename(2) },
        FieldAttr { at: 5, attr: ParamAttr::Validate(chain()) },
        FieldAttr { at: 9, attr: ParamAttr::SkipIf(11) },
        FieldAttr { at: 13, attr: ParamAttr::Log(Log { commands: vec![], require_look_back: false }) },
    ];
    let c = compile_field_attrs(&attrs);
    assert_eq!(c.quotes, vec![0, 2]);
    assert_eq!(c.commands, vec![1, 3]);
}

#[test]
fn first_field_only_attribute_is_found() {
    let attrs = vec![
        FieldAttr { at: 4, attr: ParamAttr::Rename(6) },
        FieldAttr { at: 8, attr: ParamAttr::Flatten },
        FieldAttr { at: 12, attr: ParamAttr::Skip },
    ];
    assert_eq!(contains_struct_specific(&attrs), Some(8));
    let harmless = vec![FieldAttr { at: 1, attr: ParamAttr::Validate(chain()) }];
    assert_eq!(contains_struct_specific(&harmless), None);
}

#[test]
fn commands_resolve_to_directives() {
    let b = AttrCommands::Builder.run_cmd().unwrap();
    assert_eq!(b.kind, DirectiveKind::Builder);
    let v = TypeAttr::Validate(chain()).command().unwrap().run_cmd().unwrap();
    assert_eq!(v.kind, DirectiveKind::Validate);
    assert_eq!(v.actions, chain().actions);
    let cmds = vec![LogCmd { level: LogLevel::Warn, msg: 4 }];
    let l = ParamAttr::Log(Log { commands: cmds.clone(), require_look_back: false }).command().unwrap().run_cmd().unwrap();
    assert_eq!(l.kind, DirectiveKind::Log);
    assert_eq!(l.logs, cmds);
    assert!(ParamAttr::Rename(1).command().is_none());
}

#[test]
fn async_command_fails_loudly() {
    let a = TypeAttr::Async.command().unwrap();
    assert_eq!(a.run_cmd().unwrap_err(), DispatchError::Unsupported);
}

#[test]
fn serde_policies_are_independent() {
    let none: Vec<FieldAttr> = vec![];
    let f = auto_fill_serde_attrs(&none, RestType::Both);
    assert!(f.skip_serializing_if && f.default);
    let f = auto_fill_serde_attrs(&none, RestType::Serializable);
    assert!(f.skip_serializing_if && !f.default);
    let f = auto_fill_serde_attrs(&none, RestType::Deserializable);
    assert!(!f.skip_serializing_if && f.default);
    let own = vec![FieldAttr { at: 0, attr: ParamAttr::SkipIf(2) }];
    let f = auto_fill_serde_attrs(&own, RestType::Both);
    assert!(!f.skip_serializing_if && f.default);
    let own = vec![FieldAttr { at: 0, attr: ParamAttr::Default(None) }];
    let f = auto_fill_serde_attrs(&own, RestType::Both);
    assert!(f.skip_serializing_if && !f.default);
}

#[test]
fn roles_choose_directions() {
    assert_eq!(RestVariant::Header.rest_type(), RestType::Serializable);
    assert_eq!(RestVariant::Query.rest_type(), RestType::Serializable);
    assert_eq!(RestVariant::Response.rest_type(), RestType::Deserializable);
    assert_eq!(RestVariant::ReqRes.rest_type(), RestType::Both);
}

#[test]
fn names_of_levels_and_actions() {
    assert_eq!(LogLevel::Debug.name(), "debug");
    assert_eq!(ValidateAction::Email.kind(), ParameterValidate::Email);
    assert_eq!(ParameterValidate::Range.name(), "range");
}

#[test]
fn placeholder_pattern_is_matched() {
    assert!(restify::log::format_has_placeholder("hello {name}"));
    assert!(!restify::log::format_has_placeholder("hello {}"));
    assert!(!restify::log::format_has_placeholder("hello"));
}
