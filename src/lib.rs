//! A declaration language for REST endpoint groups: a flat token model, a
//! recursive-descent parser proved equal to its specification, an attribute
//! compiler, a command dispatcher, and the naming helpers of the emitter.
pub mod text;
pub mod token;
pub mod error;
pub mod validate;
pub mod log;
pub mod attrs;
pub mod ast;
pub mod typeref;
pub mod parser;
pub mod compile;
pub mod command;
pub mod casing;
pub mod laws;
pub mod frame;
pub mod moved;
