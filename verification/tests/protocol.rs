//! Classification of protocol lines: each sigil maps to its message
//! kind with the sigil stripped; anything else is a protocol violation.

use mspdebug_embedded::Error;
use mspdebug_embedded::ErrorSeverity;
use mspdebug_embedded::OutputType;
use mspdebug_embedded::ShellType;
use mspdebug_embedded::classify_line;

#[test]
fn classify_normal_strips_sigil() {
    let r = classify_line(":hello world\n").unwrap();
    assert_eq!(r, OutputType::Normal("hello world\n".to_string()));
}

#[test]
fn classify_debug_strips_sigil() {
    let r = classify_line("-loop counter 3\n").unwrap();
    assert_eq!(r, OutputType::Debug("loop counter 3\n".to_string()));
}

#[test]
fn classify_warning_diagnostic() {
    let r = classify_line("!warning: voltage low\n").unwrap();
    assert_eq!(
        r,
        OutputType::Error(ErrorSeverity::Warning("warning: voltage low\n".to_string()))
    );
}

#[test]
fn classify_error_diagnostic() {
    let r = classify_line("!fet: something odd\n").unwrap();
    assert_eq!(
        r,
        OutputType::Error(ErrorSeverity::Error("fet: something odd\n".to_string()))
    );
}

#[test]
fn classify_control_ready() {
    assert_eq!(
        classify_line("\\ready\n").unwrap(),
        OutputType::Shell(ShellType::Ready)
    );
    assert_eq!(
        classify_line("\\ready\r\n").unwrap(),
        OutputType::Shell(ShellType::Ready)
    );
}

#[test]
fn classify_control_busy() {
    assert_eq!(
        classify_line("\\busy\n").unwrap(),
        OutputType::Shell(ShellType::Busy)
    );
    assert_eq!(
        classify_line("\\busy\r\n").unwrap(),
        OutputType::Shell(ShellType::Busy)
    );
}

#[test]
fn classify_control_power_sample_us() {
    assert_eq!(
        classify_line("\\power-sample-us\n").unwrap(),
        OutputType::Shell(ShellType::PowerSampleUs)
    );
}

#[test]
fn classify_control_power_samples() {
    assert_eq!(
        classify_line("\\power-samples\n").unwrap(),
        OutputType::Shell(ShellType::PowerSamples)
    );
}

#[test]
fn classify_unknown_control_body_fails() {
    let e = classify_line("\\resume\n").unwrap_err();
    assert_eq!(e, Error::UnexpectedShellMessage("resume\n".to_string()));
}

#[test]
fn classify_unknown_sigil_fails() {
    let e = classify_line("?what\n").unwrap_err();
    assert_eq!(e, Error::UnexpectedSigil('?'));
}

#[test]
fn classify_control_word_needs_line_ending() {
    // Without a trailing newline the body is not one of the four words.
    let e = classify_line("\\ready").unwrap_err();
    assert_eq!(e, Error::UnexpectedShellMessage("ready".to_string()));
}
