//! The `log(...)` command: one format string per level.
use vstd::prelude::*;
use crate::error::{
    advances, fail, fail_naming, naming, res_eq_plain, syn_err, ErrorKind, ErrorV, ParseError,
};
use crate::token::{
    ident_at, ident_string, ident_text, is_ident, is_punct, is_str, keyword_at, punct_at, region,
    str_text, Token,
};
use crate::validate::{EXPECTED_EQ, EXPECTED_STR};

verus! {

pub const LOG_LEVEL: &'static str = "log: expected a level (info, warn, debug, error)";
pub const LOG_UNKNOWN: &'static str = "log: unknown level ";
pub const LOG_COMMA: &'static str = "log: commands must be separated by `,`";

/// The pattern of a named placeholder such as `{id}` in a format string.
pub const PLACEHOLDER: &'static str = r"\{\w+}";

/// Whether `regex::Regex::new` accepts `pattern` (with its default limits).
pub uninterp spec fn regex_valid(pattern: Seq<char>) -> bool;

/// Whether the regular expression `pattern` matches somewhere in `text`.
pub uninterp spec fn regex_match(pattern: Seq<char>, text: Seq<char>) -> bool;

/// Relies on `regex::Regex::new`, which fails exactly on a pattern that it
/// does not accept (invalid, or over the default size limit), and on
/// `regex::Regex::is_match`, which tells whether the compiled pattern matches
/// somewhere in `text`.
#[verifier::external_body]
fn regex_is_match(pattern: &str, text: &str) -> (r: Option<bool>)
    ensures
        r is Some <==> regex_valid(pattern@),
        r matches Some(b) ==> b == regex_match(pattern@, text@),
{
    match regex::Regex::new(pattern) {
        Ok(re) => Some(re.is_match(text)),
        Err(_) => None,
    }
}

/// Whether a format string names a placeholder.
pub open spec fn has_placeholder(text: Seq<char>) -> bool {
    regex_valid(PLACEHOLDER@) && regex_match(PLACEHOLDER@, text)
}

pub fn format_has_placeholder(text: &str) -> (r: bool)
    ensures
        r == has_placeholder(text@),
{
    match regex_is_match(PLACEHOLDER, text) {
        Some(b) => b,
        None => false,
    }
}

#[derive(Clone, Copy, Debug, PartialEq, Eq, Structural)]
pub enum LogLevel {
    Info,
    Warn,
    Debug,
    Error,
}

impl LogLevel {
    pub open spec fn spec_name(self) -> Seq<char> {
        match self {
            LogLevel::Info => "info"@,
            LogLevel::Warn => "warn"@,
            LogLevel::Debug => "debug"@,
            LogLevel::Error => "error"@,
        }
    }

    /// The level's name as written in a declaration.
    pub fn name(&self) -> (r: &'static str)
        ensures
            r@ == self.spec_name(),
    {
        match self {
            LogLevel::Info => "info",
            LogLevel::Warn => "warn",
            LogLevel::Debug => "debug",
            LogLevel::Error => "error",
        }
    }
}

/// One `level = "format"` command; `msg` is the index of the format string.
#[derive(Clone, Copy, Debug, PartialEq, Eq, Structural)]
pub struct LogCmd {
    pub level: LogLevel,
    pub msg: usize,
}

/// The commands of one `log(...)` attribute, and whether any format string
/// names a placeholder that must be looked up once the owner is parsed.
#[derive(Debug)]
pub struct Log {
    pub commands: Vec<LogCmd>,
    pub require_look_back: bool,
}

pub struct LogV {
    pub commands: Seq<LogCmd>,
    pub require_look_back: bool,
}

impl View for Log {
    type V = LogV;

    open spec fn view(&self) -> LogV {
        LogV { commands: self.commands@, require_look_back: self.require_look_back }
    }
}

/// Whether one of the commands' format strings names a placeholder.
pub open spec fn any_placeholder(t: Seq<Token>, cmds: Seq<LogCmd>) -> bool {
    exists|i: int| 0 <= i < cmds.len() && #[trigger] has_placeholder(str_text(t, cmds[i].msg as int))
}

pub open spec fn spec_level(name: Seq<char>) -> Option<LogLevel> {
    if name == "info"@ {
        Some(LogLevel::Info)
    } else if name == "warn"@ {
        Some(LogLevel::Warn)
    } else if name == "debug"@ {
        Some(LogLevel::Debug)
    } else if name == "error"@ {
        Some(LogLevel::Error)
    } else {
        None
    }
}

/// One command at `pos`.
pub open spec fn spec_log_cmd(t: Seq<Token>, pos: int, end: int) -> Result<(LogCmd, int), ErrorV> {
    if !(pos < end && is_ident(t, pos)) {
        Err(syn_err(pos, LOG_LEVEL@))
    } else {
        match spec_level(ident_text(t, pos)) {
            None => Err(syn_err(pos, naming(LOG_UNKNOWN@, ident_text(t, pos)))),
            Some(level) => if !(pos + 1 < end && is_punct(t, pos + 1, '=')) {
                Err(syn_err(pos + 1, EXPECTED_EQ@))
            } else if !(pos + 2 < end && is_str(t, pos + 2)) {
                Err(syn_err(pos + 2, EXPECTED_STR@))
            } else {
                Ok((LogCmd { level, msg: (pos + 2) as usize }, pos + 3))
            },
        }
    }
}

fn parse_log_cmd(toks: &Vec<Token>, pos: usize, end: usize) -> (r: Result<(LogCmd, usize), ParseError>)
    requires
        region(toks@, pos as int, end as int),
    ensures
        res_eq_plain(r, spec_log_cmd(toks@, pos as int, end as int)),
        advances(r, pos as int, end as int),
{
    if !ident_at(toks, pos, end) {
        return Err(fail(ErrorKind::Syntax, pos, LOG_LEVEL));
    }
    let level = if keyword_at(toks, pos, end, "info") {
        LogLevel::Info
    } else if keyword_at(toks, pos, end, "warn") {
        LogLevel::Warn
    } else if keyword_at(toks, pos, end, "debug") {
        LogLevel::Debug
    } else if keyword_at(toks, pos, end, "error") {
        LogLevel::Error
    } else {
        let name = ident_string(toks, pos);
        return Err(fail_naming(ErrorKind::Syntax, pos, LOG_UNKNOWN, name.as_str()));
    };
    if !punct_at(toks, pos + 1, end, '=') {
        return Err(fail(ErrorKind::Syntax, pos + 1, EXPECTED_EQ));
    }
    if !(pos + 2 < end && matches!(toks[pos + 2], Token::Str(_))) {
        return Err(fail(ErrorKind::Syntax, pos + 2, EXPECTED_STR));
    }
    Ok((LogCmd { level, msg: pos + 2 }, pos + 3))
}

/// The commands from `pos` to `end`, after those in `acc`: one or more,
/// separated by commas.
/// Each item advances within the region; the bound test only makes
/// termination evident.
pub open spec fn spec_log_cmds(t: Seq<Token>, pos: int, end: int, acc: Seq<LogCmd>) -> Result<Seq<LogCmd>, ErrorV>
    decreases end - pos,
{
    match spec_log_cmd(t, pos, end) {
        Err(e) => Err(e),
        Ok((c, n)) => if n == end {
            Ok(acc.push(c))
        } else if !is_punct(t, n, ',') {
            Err(syn_err(n, LOG_COMMA@))
        } else if pos < n < end {
            spec_log_cmds(t, n + 1, end, acc.push(c))
        } else {
            Err(syn_err(n, LOG_COMMA@))
        },
    }
}

/// The contents `pos..end` of `log(...)`.
pub open spec fn spec_log(t: Seq<Token>, pos: int, end: int) -> Result<LogV, ErrorV> {
    match spec_log_cmds(t, pos, end, Seq::empty()) {
        Err(e) => Err(e),
        Ok(cmds) => Ok(LogV { commands: cmds, require_look_back: any_placeholder(t, cmds) }),
    }
}

/// Whether one of the commands' format strings names a placeholder.
pub fn look_back(toks: &Vec<Token>, cmds: &Vec<LogCmd>) -> (r: bool)
    requires
        forall|i: int| 0 <= i < cmds@.len() ==> is_str(toks@, #[trigger] cmds@[i].msg as int),
    ensures
        r == any_placeholder(toks@, cmds@),
{
    let mut i: usize = 0;
    while i < cmds.len()
        invariant
            i <= cmds@.len(),
            forall|k: int| 0 <= k < cmds@.len() ==> is_str(toks@, #[trigger] cmds@[k].msg as int),
            forall|k: int| 0 <= k < i ==> !#[trigger] has_placeholder(str_text(toks@, cmds@[k].msg as int)),
        decreases cmds@.len() - i,
    {
        let m = cmds[i].msg;
        let found = match &toks[m] {
            Token::Str(s) => format_has_placeholder(s.as_str()),
            _ => false,
        };
        if found {
            assert(has_placeholder(str_text(toks@, cmds@[i as int].msg as int)));
            return true;
        }
        i += 1;
    }
    false
}

pub fn parse_log(toks: &Vec<Token>, pos: usize, end: usize) -> (r: Result<Log, ParseError>)
    requires
        region(toks@, pos as int, end as int),
    ensures
        match (r, spec_log(toks@, pos as int, end as int)) {
            (Ok(l), Ok(s)) => l@ == s,
            (Err(e), Err(f)) => e@ == f,
            _ => false,
        },
{
    let mut commands: Vec<LogCmd> = Vec::new();
    let mut p = pos;
    loop
        invariant
            region(toks@, p as int, end as int),
            spec_log_cmds(toks@, pos as int, end as int, Seq::empty())
                == spec_log_cmds(toks@, p as int, end as int, commands@),
            forall|i: int| 0 <= i < commands@.len() ==> is_str(toks@, #[trigger] commands@[i].msg as int),
        decreases end - p,
    {
        let (c, n) = parse_log_cmd(toks, p, end)?;
        commands.push(c);
        if n == end {
            let require_look_back = look_back(toks, &commands);
            return Ok(Log { commands, require_look_back });
        }
        if !punct_at(toks, n, end, ',') {
            return Err(fail(ErrorKind::Syntax, n, LOG_COMMA));
        }
        p = n + 1;
    }
}

} // verus!
