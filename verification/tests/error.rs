//! Error descriptions.

use mspdebug_embedded::BadInputReason;
use mspdebug_embedded::Error;

#[test]
fn fixed_error_messages() {
    assert_eq!(Error::SpawnError("x".to_string()).message(), "error spawning mspdebug");
    assert_eq!(
        Error::ExpectedProcessGroup.message(),
        "expected child mspdebug to be in a separate process group, but it wasn't"
    );
    assert_eq!(
        Error::ExpectedNoProcessGroup.message(),
        "expected child mspdebug to be in same process group as parent, found separate"
    );
    assert_eq!(Error::ReadError("x".to_string()).message(), "error reading mspdebug stdout");
    assert_eq!(Error::WriteError("x".to_string()).message(), "error writing mspdebug stdin");
    assert_eq!(
        Error::NoDevice.message(),
        "device not known either by mspdebug or this crate"
    );
    assert_eq!(Error::UnexpectedSigil('?').message(), "unexpected sigil, expected :, -, !, or \\");
}

#[test]
fn appended_error_messages() {
    assert_eq!(
        Error::StreamError("stdin".to_string()).message(),
        "could not open mspdebug stream stdin"
    );
    assert_eq!(
        Error::CommsError("fet: unknown failure\n".to_string()).message(),
        "mspdebug could not communicate with the device fet: unknown failure\n"
    );
    assert_eq!(
        Error::UnknownDevice("X9999".to_string()).message(),
        "device known by mspdebug but not this crate, got X9999"
    );
    assert_eq!(
        Error::UnexpectedShellMessage("resume\n".to_string()).message(),
        "unexpected shell message, expected 'ready', 'busy', 'power-sample-us', or 'power-samples', got resume\n"
    );
    assert_eq!(
        Error::CtrlCError("sig".to_string()).message(),
        "mspdebug could not override the ctrl+C handler for gdb sig"
    );
    assert_eq!(
        Error::GdbError("status".to_string()).message(),
        "child debugger exited unexpectedly status"
    );
}

#[test]
fn bad_input_messages() {
    assert_eq!(
        Error::BadInput(BadInputReason::IoError("gone".to_string())).message(),
        "the file to program onto msp430 was not found or corrupt"
    );
    assert_eq!(
        BadInputReason::IoError("gone".to_string()).message(),
        "error opening or reading input file"
    );
    assert_eq!(
        BadInputReason::ElfParseError("bad magic".to_string()).message(),
        "input file was not a valid ELF file"
    );
}
