//! Classification of the lines `mspdebug` prints: each line begins with
//! a sigil that names its message class, and the rest is the body. The
//! classifier is pure; the blocking read it is composed with lives with
//! the caller.

use vstd::prelude::*;
use vstd::string::StrSliceExecFns;

use crate::error::Error;
use crate::text::starts_with;
use crate::text::str_eq;
use crate::text::str_starts_with;

verus! {

/// A control message: the tool's report of its own state.
#[derive(Clone, Copy, Debug, PartialEq, Eq, Structural)]
pub enum ShellType {
    Ready,
    Busy,
    PowerSampleUs,
    PowerSamples,
}

/// How severe a diagnostic line is.
#[derive(Debug, Clone, PartialEq, Eq)]
pub enum ErrorSeverity {
    /// The body began with `warning`; never fatal.
    Warning(String),
    /// Any other diagnostic; fatal unless in the benign set.
    Error(String),
}

/// A classified protocol line, with the sigil stripped.
#[derive(Debug, Clone, PartialEq, Eq)]
pub enum OutputType {
    /// `:` — ordinary output.
    Normal(String),
    /// `-` — debug output.
    Debug(String),
    /// `!` — a diagnostic.
    Error(ErrorSeverity),
    /// `\` — a control message.
    Shell(ShellType),
}

/// The ghost image of a classified line, over character sequences.
pub enum Classified {
    Normal(Seq<char>),
    Debug(Seq<char>),
    Warning(Seq<char>),
    Fatal(Seq<char>),
    Shell(ShellType),
    BadShell(Seq<char>),
    BadSigil(char),
}

/// What classification returns for a line: the first character picks
/// the class, the body follows with the sigil stripped; a control body
/// must match one of the four known words up to the line ending.
pub open spec fn classify(line: Seq<char>) -> Classified
    recommends
        line.len() > 0,
{
    let body = line.skip(1);
    if line[0] == ':' {
        Classified::Normal(body)
    } else if line[0] == '-' {
        Classified::Debug(body)
    } else if line[0] == '!' {
        if starts_with(body, "warning"@) {
            Classified::Warning(body)
        } else {
            Classified::Fatal(body)
        }
    } else if line[0] == '\\' {
        if body == "ready\n"@ || body == "ready\r\n"@ {
            Classified::Shell(ShellType::Ready)
        } else if body == "busy\n"@ || body == "busy\r\n"@ {
            Classified::Shell(ShellType::Busy)
        } else if body == "power-sample-us\n"@ || body == "power-sample-us\r\n"@ {
            Classified::Shell(ShellType::PowerSampleUs)
        } else if body == "power-samples\n"@ || body == "power-samples\r\n"@ {
            Classified::Shell(ShellType::PowerSamples)
        } else {
            Classified::BadShell(body)
        }
    } else {
        Classified::BadSigil(line[0])
    }
}

/// Classify one line of the tool's output. Pure: no reading happens
/// here. The returned message carries the body with the sigil removed;
/// an unknown sigil or an unrecognized control body is an error.
pub fn classify_line(line: &str) -> (r: Result<OutputType, Error>)
    requires
        line@.len() > 0,
    ensures
        match classify(line@) {
            Classified::Normal(b) => r matches Ok(OutputType::Normal(s)) && s@ == b,
            Classified::Debug(b) => r matches Ok(OutputType::Debug(s)) && s@ == b,
            Classified::Warning(b) => r matches Ok(
                OutputType::Error(ErrorSeverity::Warning(s)),
            ) && s@ == b,
            Classified::Fatal(b) => r matches Ok(OutputType::Error(ErrorSeverity::Error(s)))
                && s@ == b,
            Classified::Shell(t) => r == Ok::<OutputType, Error>(OutputType::Shell(t)),
            Classified::BadShell(b) => r matches Err(Error::UnexpectedShellMessage(s)) && s@ == b,
            Classified::BadSigil(c) => r == Err::<OutputType, Error>(Error::UnexpectedSigil(c)),
        },
{
    let len = line.unicode_len();
    let c0 = line.get_char(0);
    let body = line.substring_char(1, len);
    proof {
        assert(body@ =~= line@.skip(1));
    }
    if c0 == ':' {
        Ok(OutputType::Normal(body.to_owned()))
    } else if c0 == '-' {
        Ok(OutputType::Debug(body.to_owned()))
    } else if c0 == '!' {
        if str_starts_with(body, "warning") {
            Ok(OutputType::Error(ErrorSeverity::Warning(body.to_owned())))
        } else {
            Ok(OutputType::Error(ErrorSeverity::Error(body.to_owned())))
        }
    } else if c0 == '\\' {
        if str_eq(body, "ready\n") || str_eq(body, "ready\r\n") {
            Ok(OutputType::Shell(ShellType::Ready))
        } else if str_eq(body, "busy\n") || str_eq(body, "busy\r\n") {
            Ok(OutputType::Shell(ShellType::Busy))
        } else if str_eq(body, "power-sample-us\n") || str_eq(body, "power-sample-us\r\n") {
            Ok(OutputType::Shell(ShellType::PowerSampleUs))
        } else if str_eq(body, "power-samples\n") || str_eq(body, "power-samples\r\n") {
            Ok(OutputType::Shell(ShellType::PowerSamples))
        } else {
            Err(Error::UnexpectedShellMessage(body.to_owned()))
        }
    } else {
        Err(Error::UnexpectedSigil(c0))
    }
}

} // verus!
