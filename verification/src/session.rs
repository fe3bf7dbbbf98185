//! The session state machine: it tracks the tool's last reported
//! ready/busy state, filters diagnostics while waiting for a control
//! message, and captures the device identity as a side effect. The
//! machine consumes lines one at a time; the blocking read that
//! produces them lives with the caller, which loops until a step
//! reports that the awaited control message arrived.

use vstd::prelude::*;
use vstd::string::StrSliceExecFns;

use crate::cfg::Cfg;
use crate::cfg::CfgView;
use crate::cfg::TargetDriver;
use crate::error::Error;
use crate::protocol::Classified;
use crate::protocol::ErrorSeverity;
use crate::protocol::OutputType;
use crate::protocol::ShellType;
use crate::protocol::classify;
use crate::protocol::classify_line;
use crate::text::starts_with;
use crate::text::str_starts_with;
use crate::text::tail_trimmed;
use crate::text::trim_end_ws;

verus! {

/// Which control message a wait is for.
#[derive(Clone, Copy, Debug, PartialEq, Eq, Structural)]
pub enum WaitMode {
    Ready,
    Busy,
}

/// The control message a wait mode is satisfied by.
pub open spec fn shell_of(mode: WaitMode) -> ShellType {
    match mode {
        WaitMode::Ready => ShellType::Ready,
        WaitMode::Busy => ShellType::Busy,
    }
}

/// The ghost image of a [`Session`].
pub struct SessionView {
    pub cfg: CfgView,
    /// The most recently observed control message, if a wait ended on
    /// it and nothing was read since.
    pub cache: Option<ShellType>,
    /// The device identity, once a `Device: ` line has been seen.
    pub device: Option<Seq<char>>,
}

/// The cached state already satisfies the wait: a repeated wait of the
/// same kind returns at once, without reading.
pub open spec fn cache_matches(v: SessionView, mode: WaitMode) -> bool {
    v.cache == Some(shell_of(mode))
}

/// A diagnostic error the wait loop swallows: a benign device
/// communication hiccup the tool retries on its own.
pub open spec fn benign_error(e: Seq<char>) -> bool {
    ||| starts_with(e, "fet: FET returned error code"@)
    ||| starts_with(e, "fet: command C_IDENT1 failed"@)
    ||| starts_with(e, "fet: FET returned NAK"@)
}

/// What one consumed line does to a wait.
#[derive(Clone, Copy, Debug, PartialEq, Eq, Structural)]
pub enum StepKind {
    /// The awaited control message arrived; the wait is over.
    Found,
    /// The line is ignored; the wait goes on.
    Skip,
    /// A diagnostic error outside the benign set: the wait fails.
    FailComms,
    /// An unrecognized control body: the wait fails.
    FailShell,
    /// An unknown sigil: the wait fails.
    FailSigil,
}

/// How a wait in `mode` treats one line: the awaited control message
/// ends it; other control messages, debug output, normal output,
/// warnings and benign errors are skipped; everything else fails.
pub open spec fn step_outcome(mode: WaitMode, line: Seq<char>) -> StepKind
    recommends
        line.len() > 0,
{
    match classify(line) {
        Classified::Shell(t) => if t == shell_of(mode) {
            StepKind::Found
        } else {
            StepKind::Skip
        },
        Classified::Normal(_) => StepKind::Skip,
        Classified::Debug(_) => StepKind::Skip,
        Classified::Warning(_) => StepKind::Skip,
        Classified::Fatal(e) => if benign_error(e) {
            StepKind::Skip
        } else {
            StepKind::FailComms
        },
        Classified::BadShell(_) => StepKind::FailShell,
        Classified::BadSigil(_) => StepKind::FailSigil,
    }
}

/// The cached state after one consumed line: set exactly when the
/// awaited control message arrived, cleared otherwise.
pub open spec fn step_cache(mode: WaitMode, line: Seq<char>) -> Option<ShellType> {
    if step_outcome(mode, line) is Found {
        Some(shell_of(mode))
    } else {
        None
    }
}

/// The device identity after one consumed line: a normal line
/// beginning with the identity marker sets it when still unset, with
/// the marker stripped and trailing whitespace trimmed; once set it
/// never changes.
pub open spec fn step_device(dev: Option<Seq<char>>, line: Seq<char>) -> Option<Seq<char>> {
    match classify(line) {
        Classified::Normal(n) => if dev is None && starts_with(n, "Device: "@) {
            Some(trim_end_ws(n.skip(8)))
        } else {
            dev
        },
        _ => dev,
    }
}

/// The state after one consumed line.
pub open spec fn step_view(v: SessionView, mode: WaitMode, line: Seq<char>) -> SessionView {
    SessionView { cfg: v.cfg, cache: step_cache(mode, line), device: step_device(v.device, line) }
}

/// The protocol state of one `mspdebug` session.
pub struct Session {
    cfg: Cfg,
    last_shelltype: Option<ShellType>,
    device: Option<String>,
}

impl View for Session {
    type V = SessionView;

    closed spec fn view(&self) -> SessionView {
        SessionView {
            cfg: self.cfg@,
            cache: self.last_shelltype,
            device: self.device.deep_view(),
        }
    }
}

impl Session {
    /// A fresh session: no control message observed, no device known.
    pub fn new(cfg: Cfg) -> (r: Session)
        ensures
            r@ == (SessionView { cfg: cfg@, cache: None, device: None }),
    {
        Session { cfg, last_shelltype: None, device: None }
    }

    /// The device identity reported so far, if any.
    pub fn device(&self) -> (r: &Option<String>)
        ensures
            r.deep_view() == self@.device,
    {
        &self.device
    }

    /// Whether the session's child runs in its own process group.
    pub fn is_grouped(&self) -> (r: bool)
        ensures
            r == self@.cfg.group,
    {
        self.cfg.is_grouped()
    }

    /// Whether the session drives the simulator.
    pub fn is_sim(&self) -> (r: bool)
        ensures
            r == (self@.cfg.driver == TargetDriver::Sim),
    {
        self.cfg.is_sim()
    }

    /// Whether the cached state already satisfies a wait in `mode`, in
    /// which case no line needs to be read.
    pub fn wait_cached(&self, mode: WaitMode) -> (r: bool)
        ensures
            r == cache_matches(self@, mode),
    {
        match (self.last_shelltype, mode) {
            (Some(ShellType::Ready), WaitMode::Ready) => true,
            (Some(ShellType::Busy), WaitMode::Busy) => true,
            _ => false,
        }
    }

    /// Consume one line while waiting in `mode`. Returns `Ok(true)`
    /// when the awaited control message arrived, `Ok(false)` when the
    /// line was skipped and the caller must read on, and an error when
    /// the line ends the wait with a failure.
    pub fn wait_step(&mut self, mode: WaitMode, line: &str) -> (r: Result<bool, Error>)
        requires
            line@.len() > 0,
        ensures
            final(self)@.cfg == old(self)@.cfg,
            final(self)@.cache == step_cache(mode, line@),
            final(self)@.device == step_device(old(self)@.device, line@),
            match step_outcome(mode, line@) {
                StepKind::Found => r == Ok::<bool, Error>(true),
                StepKind::Skip => r == Ok::<bool, Error>(false),
                StepKind::FailComms => r matches Err(Error::CommsError(m)) && m@ == line@.skip(1),
                StepKind::FailShell => r matches Err(Error::UnexpectedShellMessage(m)) && m@
                    == line@.skip(1),
                StepKind::FailSigil => r == Err::<bool, Error>(
                    Error::UnexpectedSigil(line@[0]),
                ),
            },
    {
        self.last_shelltype = None;
        match classify_line(line) {
            Ok(OutputType::Shell(s)) => {
                let found = match (s, mode) {
                    (ShellType::Ready, WaitMode::Ready) => true,
                    (ShellType::Busy, WaitMode::Busy) => true,
                    _ => false,
                };
                if found {
                    self.last_shelltype = Some(s);
                    Ok(true)
                } else {
                    Ok(false)
                }
            },
            Ok(OutputType::Error(ErrorSeverity::Warning(_))) => Ok(false),
            Ok(OutputType::Error(ErrorSeverity::Error(e))) => {
                if str_starts_with(e.as_str(), "fet: FET returned error code")
                    || str_starts_with(e.as_str(), "fet: command C_IDENT1 failed")
                    || str_starts_with(e.as_str(), "fet: FET returned NAK") {
                    Ok(false)
                } else {
                    Err(Error::CommsError(e))
                }
            },
            Ok(OutputType::Normal(n)) => {
                if self.device.is_none() && str_starts_with(n.as_str(), "Device: ") {
                    proof {
                        reveal_strlit("Device: ");
                    }
                    self.device = Some(tail_trimmed(n.as_str(), 8));
                }
                Ok(false)
            },
            Ok(OutputType::Debug(_)) => Ok(false),
            Err(e) => Err(e),
        }
    }

    /// Run a wait in `mode` over a finite script of lines, starting at
    /// `start`. Returns the index after the line that ended the wait,
    /// `None` when the script ran out and a blocking read would follow,
    /// or the failure the wait ends with.
    #[verifier::loop_isolation(false)]
    pub fn wait_for_lines(&mut self, mode: WaitMode, lines: &Vec<String>, start: usize) -> (r:
        Result<Option<usize>, Error>)
        requires
            start <= lines@.len(),
            forall|j: int| start <= j < lines@.len() ==> (#[trigger] lines@[j])@.len() > 0,
        ensures
            ({
                let (d, v) = wait_spec(old(self)@, mode, lines.deep_view(), start as int);
                &&& final(self)@ == v
                &&& match d {
                    WaitDone::Done(n) => r == Ok::<Option<usize>, Error>(Some(n as usize)),
                    WaitDone::Blocked => r == Ok::<Option<usize>, Error>(None),
                    WaitDone::Failed(j) => {
                        let l = lines.deep_view()[j];
                        match step_outcome(mode, l) {
                            StepKind::FailComms => r matches Err(Error::CommsError(m)) && m@
                                == l.skip(1),
                            StepKind::FailShell => r matches Err(
                                Error::UnexpectedShellMessage(m),
                            ) && m@ == l.skip(1),
                            StepKind::FailSigil => r == Err::<Option<usize>, Error>(
                                Error::UnexpectedSigil(l[0]),
                            ),
                            _ => false,
                        }
                    },
                }
            }),
    {
        let ghost orig = self@;
        let ghost dv = lines.deep_view();
        let ghost target = wait_spec(orig, mode, dv, start as int);
        if self.wait_cached(mode) {
            return Ok(Some(start));
        }
        let mut i: usize = start;
        while i < lines.len()
            invariant
                start <= i <= lines@.len(),
                forall|j: int| start <= j < lines@.len() ==> (#[trigger] lines@[j])@.len() > 0,
                dv == lines.deep_view(),
                !cache_matches(self@, mode),
                wait_spec(self@, mode, dv, i as int) == target,
            decreases lines@.len() - i,
        {
            let line: &String = &lines[i];
            proof {
                assert(dv[i as int] == lines@[i as int]@);
            }
            let ghost prev = self@;
            let res = self.wait_step(mode, line.as_str());
            proof {
                assert(dv.len() == lines@.len());
                assert(self@ == step_view(prev, mode, dv[i as int]));
            }
            match res {
                Ok(true) => {
                    proof {
                        assert(step_outcome(mode, dv[i as int]) is Found);
                        assert(target == (WaitDone::Done(i as int + 1), self@));
                    }
                    return Ok(Some(i + 1));
                },
                Ok(false) => {},
                Err(e) => {
                    proof {
                        let k = step_outcome(mode, dv[i as int]);
                        assert(k is FailComms || k is FailShell || k is FailSigil);
                        assert(target == (WaitDone::Failed(i as int), self@));
                    }
                    return Err(e);
                },
            }
            i += 1;
        }
        self.last_shelltype = None;
        Ok(None)
    }
}

/// How a wait over a finite script of lines ends: with the index after
/// the line that satisfied it, blocked because the script ran out, or
/// failed at the named line.
pub enum WaitDone {
    Done(int),
    Blocked,
    Failed(int),
}

/// A wait in `mode` over the script `lines` from index `i`, as the
/// session runs it: an immediate return when the cached state already
/// matches, otherwise lines are consumed one by one until the awaited
/// control message arrives, the script runs out, or a line fails the
/// wait. Returns how it ends together with the state it ends in.
pub open spec fn wait_spec(v: SessionView, mode: WaitMode, lines: Seq<Seq<char>>, i: int) -> (
    WaitDone,
    SessionView,
)
    recommends
        0 <= i <= lines.len(),
    decreases lines.len() - i,
{
    if cache_matches(v, mode) {
        (WaitDone::Done(i), v)
    } else if i < 0 || i >= lines.len() {
        (WaitDone::Blocked, SessionView { cache: None, ..v })
    } else {
        let v1 = step_view(v, mode, lines[i]);
        match step_outcome(mode, lines[i]) {
            StepKind::Found => (WaitDone::Done(i + 1), v1),
            StepKind::Skip => wait_spec(v1, mode, lines, i + 1),
            _ => (WaitDone::Failed(i), v1),
        }
    }
}

/// A wait that ends successfully leaves the cache holding exactly the
/// control message it waited for.
pub proof fn lemma_wait_sets_cache(
    v: SessionView,
    mode: WaitMode,
    lines: Seq<Seq<char>>,
    i: int,
)
    requires
        0 <= i <= lines.len(),
    ensures
        (wait_spec(v, mode, lines, i).0 matches WaitDone::Done(_)) ==> wait_spec(
            v,
            mode,
            lines,
            i,
        ).1.cache == Some(shell_of(mode)),
    decreases lines.len() - i,
{
    if !cache_matches(v, mode) && i < lines.len() {
        if step_outcome(mode, lines[i]) is Skip {
            lemma_wait_sets_cache(step_view(v, mode, lines[i]), mode, lines, i + 1);
        }
    }
}

/// A wait that has just succeeded satisfies an immediately repeated
/// wait for the same target from the cache: the second wait consumes
/// no line and changes nothing.
pub proof fn lemma_repeated_wait_is_immediate(
    v: SessionView,
    mode: WaitMode,
    lines: Seq<Seq<char>>,
    i: int,
)
    requires
        0 <= i <= lines.len(),
    ensures
        ({
            let (d, v1) = wait_spec(v, mode, lines, i);
            d matches WaitDone::Done(n) ==> wait_spec(v1, mode, lines, n) == (
                WaitDone::Done(n),
                v1,
            )
        }),
{
    lemma_wait_sets_cache(v, mode, lines, i);
}

/// A wait that has just succeeded for one target never satisfies a wait
/// for the other target from the cache: the opposite wait must read.
/// In particular, with nothing left to read it blocks.
pub proof fn lemma_opposite_wait_must_read(
    v: SessionView,
    mode: WaitMode,
    other: WaitMode,
    lines: Seq<Seq<char>>,
    i: int,
)
    requires
        0 <= i <= lines.len(),
        mode != other,
    ensures
        ({
            let (d, v1) = wait_spec(v, mode, lines, i);
            &&& (d matches WaitDone::Done(_) ==> !cache_matches(v1, other))
            &&& (d matches WaitDone::Done(n) ==> n == lines.len() ==> wait_spec(
                v1,
                other,
                lines,
                n,
            ).0 is Blocked)
        }),
{
    lemma_wait_sets_cache(v, mode, lines, i);
    lemma_wait_stays_in_range(v, mode, lines, i);
}

/// A successful wait ends at an index inside the script.
pub proof fn lemma_wait_stays_in_range(
    v: SessionView,
    mode: WaitMode,
    lines: Seq<Seq<char>>,
    i: int,
)
    requires
        0 <= i <= lines.len(),
    ensures
        (wait_spec(v, mode, lines, i).0 matches WaitDone::Done(n) ==> i <= n <= lines.len()),
    decreases lines.len() - i,
{
    if !cache_matches(v, mode) && i < lines.len() {
        if step_outcome(mode, lines[i]) is Skip {
            lemma_wait_stays_in_range(step_view(v, mode, lines[i]), mode, lines, i + 1);
        }
    }
}

/// The device identity, once set, is immutable: no wait changes it.
pub proof fn lemma_device_immutable(
    v: SessionView,
    mode: WaitMode,
    lines: Seq<Seq<char>>,
    i: int,
)
    requires
        0 <= i <= lines.len(),
        v.device is Some,
    ensures
        wait_spec(v, mode, lines, i).1.device == v.device,
    decreases lines.len() - i,
{
    if !cache_matches(v, mode) && i < lines.len() {
        if step_outcome(mode, lines[i]) is Skip {
            lemma_device_immutable(step_view(v, mode, lines[i]), mode, lines, i + 1);
        }
    }
}

} // verus!

