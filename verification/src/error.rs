//! The error taxonomy of the library. Every failure a session can see
//! is one of these variants; operations abort on the first error and
//! roll nothing back. Variants that arise from the operating system
//! carry the reported failure as text, handed in by the caller that
//! performed the call.

use vstd::prelude::*;
use vstd::string::StringExecFns;

verus! {

/// Why an input file could not be used.
#[derive(Debug, Clone, PartialEq, Eq)]
pub enum BadInputReason {
    /// The file could not be opened or read.
    IoError(String),
    /// The file was not a valid ELF file.
    ElfParseError(String),
}

/// Everything that can go wrong while driving `mspdebug`.
#[derive(Debug, Clone, PartialEq, Eq)]
pub enum Error {
    /// The child process could not be started.
    SpawnError(String),
    /// The session had to be in a separate process group and was not.
    ExpectedProcessGroup,
    /// The session had to share the parent's process group and did not.
    ExpectedNoProcessGroup,
    /// The file to program was missing or corrupt.
    BadInput(BadInputReason),
    /// A pipe of the child could not be taken; carries the stream name.
    StreamError(String),
    /// Reading the child's output failed.
    ReadError(String),
    /// Writing to the child's input failed.
    WriteError(String),
    /// A protocol line began with an unknown sigil.
    UnexpectedSigil(char),
    /// A control line carried an unrecognized body.
    UnexpectedShellMessage(String),
    /// The tool reported a device-level error outside the benign set.
    CommsError(String),
    /// The interrupt-signal override could not be installed.
    CtrlCError(String),
    /// The debugger child failed or could not be awaited.
    GdbError(String),
    /// No device identity was reported, so memory layout is unknown.
    NoDevice,
    /// The reported device identity is not in the layout table.
    UnknownDevice(String),
}

impl BadInputReason {
    /// A short description of the failure.
    pub fn message(&self) -> (r: String)
        ensures
            self is IoError ==> r@ == "error opening or reading input file"@,
            self is ElfParseError ==> r@ == "input file was not a valid ELF file"@,
    {
        match self {
            BadInputReason::IoError(_) => "error opening or reading input file".to_owned(),
            BadInputReason::ElfParseError(_) => "input file was not a valid ELF file".to_owned(),
        }
    }
}

impl Error {
    /// A short description of the failure; variants that carry text
    /// from the protocol or the system append it.
    pub fn message(&self) -> (r: String)
        ensures
            match self {
                Error::SpawnError(_) => r@ == "error spawning mspdebug"@,
                Error::ExpectedProcessGroup => r@
                    == "expected child mspdebug to be in a separate process group, but it wasn't"@,
                Error::ExpectedNoProcessGroup => r@
                    == "expected child mspdebug to be in same process group as parent, found separate"@,
                Error::BadInput(_) => r@
                    == "the file to program onto msp430 was not found or corrupt"@,
                Error::StreamError(stream) => r@ == "could not open mspdebug stream "@ + stream@,
                Error::ReadError(_) => r@ == "error reading mspdebug stdout"@,
                Error::WriteError(_) => r@ == "error writing mspdebug stdin"@,
                Error::UnexpectedSigil(_) => r@
                    == "unexpected sigil, expected :, -, !, or \\"@,
                Error::UnexpectedShellMessage(msg) => r@
                    == "unexpected shell message, expected 'ready', 'busy', 'power-sample-us', or 'power-samples', got "@
                    + msg@,
                Error::CommsError(msg) => r@
                    == "mspdebug could not communicate with the device "@ + msg@,
                Error::CtrlCError(msg) => r@
                    == "mspdebug could not override the ctrl+C handler for gdb "@ + msg@,
                Error::GdbError(msg) => r@ == "child debugger exited unexpectedly "@ + msg@,
                Error::NoDevice => r@ == "device not known either by mspdebug or this crate"@,
                Error::UnknownDevice(d) => r@
                    == "device known by mspdebug but not this crate, got "@ + d@,
            },
    {
        match self {
            Error::SpawnError(_) => "error spawning mspdebug".to_owned(),
            Error::ExpectedProcessGroup => {
                "expected child mspdebug to be in a separate process group, but it wasn't".to_owned()
            },
            Error::ExpectedNoProcessGroup => {
                "expected child mspdebug to be in same process group as parent, found separate"
                    .to_owned()
            },
            Error::BadInput(_) => "the file to program onto msp430 was not found or corrupt".to_owned(),
            Error::StreamError(stream) => {
                let mut m = "could not open mspdebug stream ".to_owned();
                m.append(stream.as_str());
                m
            },
            Error::ReadError(_) => "error reading mspdebug stdout".to_owned(),
            Error::WriteError(_) => "error writing mspdebug stdin".to_owned(),
            Error::UnexpectedSigil(_) => "unexpected sigil, expected :, -, !, or \\".to_owned(),
            Error::UnexpectedShellMessage(msg) => {
                let mut m =
                    "unexpected shell message, expected 'ready', 'busy', 'power-sample-us', or 'power-samples', got "
                    .to_owned();
                m.append(msg.as_str());
                m
            },
            Error::CommsError(msg) => {
                let mut m = "mspdebug could not communicate with the device ".to_owned();
                m.append(msg.as_str());
                m
            },
            Error::CtrlCError(msg) => {
                let mut m = "mspdebug could not override the ctrl+C handler for gdb ".to_owned();
                m.append(msg.as_str());
                m
            },
            Error::GdbError(msg) => {
                let mut m = "child debugger exited unexpectedly ".to_owned();
                m.append(msg.as_str());
                m
            },
            Error::NoDevice => "device not known either by mspdebug or this crate".to_owned(),
            Error::UnknownDevice(d) => {
                let mut m = "device known by mspdebug but not this crate, got ".to_owned();
                m.append(d.as_str());
                m
            },
        }
    }
}

} // verus!
