//! The one error type of the parser and the checks that follow it.
use vstd::prelude::*;

verus! {

/// A grammar violation, or a well-formed input that is illegal in its context.
#[derive(Clone, Copy, Debug, PartialEq, Eq, Structural)]
pub enum ErrorKind {
    Syntax,
    Semantic,
}

/// An error with the index of the offending token and a message.
#[derive(Debug)]
pub struct ParseError {
    pub kind: ErrorKind,
    pub at: usize,
    pub message: String,
}

/// The mathematical value of a [`ParseError`].
pub struct ErrorV {
    pub kind: ErrorKind,
    pub at: int,
    pub message: Seq<char>,
}

impl View for ParseError {
    type V = ErrorV;

    open spec fn view(&self) -> ErrorV {
        ErrorV { kind: self.kind, at: self.at as int, message: self.message@ }
    }
}

pub open spec fn err_v(kind: ErrorKind, at: int, message: Seq<char>) -> ErrorV {
    ErrorV { kind, at, message }
}

/// A parse result of an exec value, against its mathematical value.
pub open spec fn res_eq<A: View>(r: Result<(A, usize), ParseError>, s: Result<(A::V, int), ErrorV>) -> bool {
    match (r, s) {
        (Ok((a, n)), Ok((b, m))) => a@ == b && n as int == m,
        (Err(e), Err(f)) => e@ == f,
        _ => false,
    }
}

/// A parse result of a plain value, against its mathematical value.
pub open spec fn res_eq_plain<A>(r: Result<(A, usize), ParseError>, s: Result<(A, int), ErrorV>) -> bool {
    match (r, s) {
        (Ok((a, n)), Ok((b, m))) => a == b && n as int == m,
        (Err(e), Err(f)) => e@ == f,
        _ => false,
    }
}

/// The next position of a successful parse lies in `pos + 1 ..= end`.
pub open spec fn advances<A>(r: Result<(A, usize), ParseError>, pos: int, end: int) -> bool {
    r matches Ok((_, n)) ==> pos < n <= end
}

pub open spec fn syn_err(at: int, message: Seq<char>) -> ErrorV {
    err_v(ErrorKind::Syntax, at, message)
}

pub open spec fn sem_err(at: int, message: Seq<char>) -> ErrorV {
    err_v(ErrorKind::Semantic, at, message)
}

/// `prefix`, then `name` between quotes.
pub open spec fn naming(prefix: Seq<char>, name: Seq<char>) -> Seq<char> {
    prefix + seq!['"'] + name + seq!['"']
}

/// An error whose message is the given text.
pub fn fail(kind: ErrorKind, at: usize, message: &str) -> (e: ParseError)
    ensures
        e@ == err_v(kind, at as int, message@),
{
    ParseError { kind, at, message: message.to_owned() }
}

/// An error whose message is `prefix`, then `name` between quotes.
pub fn fail_naming(kind: ErrorKind, at: usize, prefix: &str, name: &str) -> (e: ParseError)
    ensures
        e@ == err_v(kind, at as int, naming(prefix@, name@)),
{
    let mut m = prefix.to_owned();
    crate::text::push_char(&mut m, '"');
    crate::text::push_str(&mut m, name);
    crate::text::push_char(&mut m, '"');
    assert(m@ =~= prefix@ + seq!['"'] + name@ + seq!['"']);
    ParseError { kind, at, message: m }
}

} // verus!
