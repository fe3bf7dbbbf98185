//! The wait state machine: caching of the last control message,
//! filtering of diagnostics, and capture of the device identity.

use mspdebug_embedded::Cfg;
use mspdebug_embedded::Error;
use mspdebug_embedded::Session;
use mspdebug_embedded::WaitMode;

fn lines(v: &[&str]) -> Vec<String> {
    v.iter().map(|s| s.to_string()).collect()
}

#[test]
fn wait_ready_twice_uses_cache() {
    let mut s = Session::new(Cfg::new());
    let input = lines(&["\\ready\n"]);
    assert_eq!(s.wait_for_lines(WaitMode::Ready, &input, 0).unwrap(), Some(1));
    // No new input: the repeated wait is satisfied from the cache and
    // consumes nothing.
    assert_eq!(s.wait_for_lines(WaitMode::Ready, &input, 1).unwrap(), Some(1));
}

#[test]
fn wait_busy_then_ready_in_order() {
    let mut s = Session::new(Cfg::new());
    let input = lines(&["\\busy\n", "\\ready\n"]);
    assert_eq!(s.wait_for_lines(WaitMode::Busy, &input, 0).unwrap(), Some(1));
    assert_eq!(s.wait_for_lines(WaitMode::Ready, &input, 1).unwrap(), Some(2));
}

#[test]
fn wait_ready_after_busy_blocks_without_input() {
    let mut s = Session::new(Cfg::new());
    let input = lines(&["\\busy\n"]);
    assert_eq!(s.wait_for_lines(WaitMode::Busy, &input, 0).unwrap(), Some(1));
    // A busy in the cache never satisfies a wait for ready: with nothing
    // left to read the wait reports that it would block.
    assert_eq!(s.wait_for_lines(WaitMode::Ready, &input, 1).unwrap(), None);
}

#[test]
fn other_control_messages_are_skipped() {
    let mut s = Session::new(Cfg::new());
    let input = lines(&["\\power-sample-us\n", "\\power-samples\n", "\\ready\n"]);
    assert_eq!(s.wait_for_lines(WaitMode::Ready, &input, 0).unwrap(), Some(3));
}

#[test]
fn benign_diagnostics_are_swallowed() {
    let mut s = Session::new(Cfg::new());
    let input = lines(&[
        "!fet: FET returned NAK\n",
        "!fet: FET returned error code 4\n",
        "!fet: command C_IDENT1 failed\n",
        "!warning: brownout detected\n",
        "\\ready\n",
    ]);
    assert_eq!(s.wait_for_lines(WaitMode::Ready, &input, 0).unwrap(), Some(5));
}

#[test]
fn fatal_diagnostic_fails_the_wait() {
    let mut s = Session::new(Cfg::new());
    let input = lines(&["!fet: unknown failure\n"]);
    let e = s.wait_for_lines(WaitMode::Ready, &input, 0).unwrap_err();
    assert_eq!(e, Error::CommsError("fet: unknown failure\n".to_string()));
}

#[test]
fn unknown_control_fails_the_wait() {
    let mut s = Session::new(Cfg::new());
    let input = lines(&["\\resume\n"]);
    let e = s.wait_for_lines(WaitMode::Ready, &input, 0).unwrap_err();
    assert_eq!(e, Error::UnexpectedShellMessage("resume\n".to_string()));
}

#[test]
fn unknown_sigil_fails_the_wait() {
    let mut s = Session::new(Cfg::new());
    let input = lines(&["#nope\n"]);
    let e = s.wait_for_lines(WaitMode::Ready, &input, 0).unwrap_err();
    assert_eq!(e, Error::UnexpectedSigil('#'));
}

#[test]
fn device_identity_is_captured_and_immutable() {
    let mut s = Session::new(Cfg::new());
    assert_eq!(s.device().as_deref(), None);
    let input = lines(&[":Device: G2553\n", "\\ready\n", ":Device: OTHER\n", "\\busy\n"]);
    assert_eq!(s.wait_for_lines(WaitMode::Ready, &input, 0).unwrap(), Some(2));
    assert_eq!(s.device().as_deref(), Some("G2553"));
    assert_eq!(s.wait_for_lines(WaitMode::Busy, &input, 2).unwrap(), Some(4));
    // A later identity line does not overwrite the first.
    assert_eq!(s.device().as_deref(), Some("G2553"));
}

#[test]
fn normal_and_debug_lines_are_skipped() {
    let mut s = Session::new(Cfg::new());
    let input = lines(&[":some output\n", "-some debug\n", "\\busy\n"]);
    assert_eq!(s.wait_for_lines(WaitMode::Busy, &input, 0).unwrap(), Some(3));
}
