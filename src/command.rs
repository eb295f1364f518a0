//! The command dispatcher: each generation command resolves to one uniform
//! directive for the emitter, or fails where no synthesis exists for it.
use vstd::prelude::*;
use crate::attrs::{ParamAttr, TypeAttr};
use crate::log::LogCmd;
use crate::validate::ValidateAction;

verus! {

/// Something that can be run once its inputs are in place.
pub trait Command {
    fn run(&mut self);
}

/// A command taken out of an attribute.
#[derive(Debug)]
pub enum AttrCommands {
    Async,
    Builder,
    Log(Vec<LogCmd>),
    TypeValidate(Vec<ValidateAction>),
    ParamValidate(Vec<ValidateAction>),
}

#[derive(Clone, Copy, Debug, PartialEq, Eq, Structural)]
pub enum DirectiveKind {
    /// One method per field that sets it and returns the value.
    Builder,
    /// A check that runs `actions` in order and stops at the first failure.
    Validate,
    /// One logging call per command in `logs`, with its format string.
    Log,
}

/// What the emitter needs to synthesize the code for one command.
#[derive(Debug)]
pub struct GenerationDirective {
    pub kind: DirectiveKind,
    pub actions: Vec<ValidateAction>,
    pub logs: Vec<LogCmd>,
}

/// A command that has no synthesis and must not be silently skipped.
#[derive(Clone, Copy, Debug, PartialEq, Eq, Structural)]
pub enum DispatchError {
    Unsupported,
}

fn copy_vec<T: Copy>(v: &Vec<T>) -> (r: Vec<T>)
    ensures
        r@ == v@,
{
    let mut r: Vec<T> = Vec::new();
    let mut i: usize = 0;
    while i < v.len()
        invariant
            i <= v@.len(),
            r@ == v@.subrange(0, i as int),
        decreases v@.len() - i,
    {
        r.push(v[i]);
        i += 1;
        proof {
            assert(r@ =~= v@.subrange(0, i as int));
        }
    }
    proof {
        assert(r@ =~= v@);
    }
    r
}

impl TypeAttr {
    /// The command that a record attribute carries, if it is one.
    pub fn command(&self) -> (r: Option<AttrCommands>)
        ensures
            r is Some == crate::compile::spec_type_command(self@),
            match (self, r) {
                (TypeAttr::Async, Some(AttrCommands::Async)) => true,
                (TypeAttr::Builder, Some(AttrCommands::Builder)) => true,
                (TypeAttr::Log(l), Some(AttrCommands::Log(c))) => c@ == l.commands@,
                (TypeAttr::Validate(v), Some(AttrCommands::TypeValidate(c))) => c@ == v.actions@,
                (_, None) => true,
                _ => false,
            },
    {
        match self {
            TypeAttr::Async => Some(AttrCommands::Async),
            TypeAttr::Builder => Some(AttrCommands::Builder),
            TypeAttr::Log(l) => Some(AttrCommands::Log(copy_vec(&l.commands))),
            TypeAttr::Validate(v) => Some(AttrCommands::TypeValidate(copy_vec(&v.actions))),
            _ => None,
        }
    }
}

impl ParamAttr {
    /// The command that a field attribute carries, if it is one.
    pub fn command(&self) -> (r: Option<AttrCommands>)
        ensures
            r is Some == crate::compile::spec_param_command(self@),
            match (self, r) {
                (ParamAttr::Log(l), Some(AttrCommands::Log(c))) => c@ == l.commands@,
                (ParamAttr::Validate(v), Some(AttrCommands::ParamValidate(c))) => c@ == v.actions@,
                (_, None) => true,
                _ => false,
            },
    {
        match self {
            ParamAttr::Log(l) => Some(AttrCommands::Log(copy_vec(&l.commands))),
            ParamAttr::Validate(v) => Some(AttrCommands::ParamValidate(copy_vec(&v.actions))),
            _ => None,
        }
    }
}

impl AttrCommands {
    /// Resolves the command to a directive; `Async` has no synthesis and fails.
    pub fn run_cmd(&self) -> (r: Result<GenerationDirective, DispatchError>)
        ensures
            match self {
                AttrCommands::Async => r == Err::<GenerationDirective, DispatchError>(DispatchError::Unsupported),
                AttrCommands::Builder => r matches Ok(d) && d.kind == DirectiveKind::Builder
                    && d.actions@.len() == 0 && d.logs@.len() == 0,
                AttrCommands::Log(l) => r matches Ok(d) && d.kind == DirectiveKind::Log
                    && d.actions@.len() == 0 && d.logs@ == l@,
                AttrCommands::TypeValidate(v) => r matches Ok(d) && d.kind == DirectiveKind::Validate
                    && d.actions@ == v@ && d.logs@.len() == 0,
                AttrCommands::ParamValidate(v) => r matches Ok(d) && d.kind == DirectiveKind::Validate
                    && d.actions@ == v@ && d.logs@.len() == 0,
            },
    {
        match self {
            AttrCommands::Async => Err(DispatchError::Unsupported),
            AttrCommands::Builder => Ok(GenerationDirective {
                kind: DirectiveKind::Builder,
                actions: Vec::new(),
                logs: Vec::new(),
            }),
            AttrCommands::Log(l) => Ok(GenerationDirective {
                kind: DirectiveKind::Log,
                actions: Vec::new(),
                logs: copy_vec(l),
            }),
            AttrCommands::TypeValidate(v) => Ok(GenerationDirective {
                kind: DirectiveKind::Validate,
                actions: copy_vec(v),
                logs: Vec::new(),
            }),
            AttrCommands::ParamValidate(v) => Ok(GenerationDirective {
                kind: DirectiveKind::Validate,
                actions: copy_vec(v),
                logs: Vec::new(),
            }),
        }
    }
}

} // verus!
