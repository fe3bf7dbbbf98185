//! The two operations a session performs: a flash write and an
//! interactive debug session. Each is planned here as an exact sequence
//! of steps — waits, command lines, process-lifecycle actions — that
//! the caller executes in order against the child processes. Planning
//! is pure and verified; only the execution touches the outside world.

use vstd::prelude::*;
use vstd::string::StringExecFns;

use crate::cmd::erase_cmd;
use crate::cmd::erase_cmd_spec;
use crate::cmd::gdb_cmd;
use crate::cmd::gdb_cmd_spec;
use crate::cmd::monitor_erase_segrange;
use crate::cmd::monitor_erase_segrange_spec;
use crate::cmd::prog_cmd;
use crate::cmd::prog_cmd_spec;
use crate::cmd::target_remote_arg;
use crate::cmd::target_remote_spec;
use crate::error::Error;
use crate::infomem::InfoMem;

verus! {

/// What a debug session does besides connecting: reset is always sent;
/// the erase flags and `load` ask the debugger to erase and program the
/// file before handing control to the user.
#[derive(Clone, Copy, Debug, PartialEq, Eq, Structural)]
pub struct GdbFlags {
    pub quiet: bool,
    pub reset: bool,
    pub erase: bool,
    pub erase_infomem: bool,
    pub load: bool,
}

/// The ghost image of a [`GdbCfg`].
pub struct GdbCfgView {
    pub flags: GdbFlags,
    pub port: u16,
    pub extra_args: Seq<Seq<char>>,
}

/// Configuration of a debug session: what to do on connect, the debug
/// server's TCP port, and extra commands run in order before control
/// passes to the user.
pub struct GdbCfg {
    flags: GdbFlags,
    port: u16,
    extra_args: Vec<String>,
}

impl View for GdbCfg {
    type V = GdbCfgView;

    closed spec fn view(&self) -> GdbCfgView {
        GdbCfgView { flags: self.flags, port: self.port, extra_args: self.extra_args.deep_view() }
    }
}

/// The default debug-session flags: quiet, reset on connect, nothing
/// erased or loaded.
pub open spec fn default_gdb_flags() -> GdbFlags {
    GdbFlags { quiet: true, reset: true, erase: false, erase_infomem: false, load: false }
}

impl Default for GdbCfg {
    /// Quiet, reset on connect, port 2000, no extra commands.
    fn default() -> (r: Self)
        ensures
            r@ == (GdbCfgView {
                flags: default_gdb_flags(),
                port: 2000,
                extra_args: Seq::<Seq<char>>::empty(),
            }),
    {
        let r = GdbCfg { flags: default_gdb_flags_exec(), port: 2000, extra_args: Vec::new() };
        proof {
            assert(r@.extra_args =~= Seq::<Seq<char>>::empty());
        }
        r
    }
}

/// Build the default flags.
fn default_gdb_flags_exec() -> (r: GdbFlags)
    ensures
        r == default_gdb_flags(),
{
    GdbFlags { quiet: true, reset: true, erase: false, erase_infomem: false, load: false }
}

impl GdbCfg {
    /// Also erase main memory, erase the planned configuration-memory
    /// range, and program the file before handing control to the user.
    pub fn erase_and_load(self) -> (r: Self)
        ensures
            r@ == (GdbCfgView {
                flags: GdbFlags {
                    erase: true,
                    erase_infomem: true,
                    load: true,
                    ..self@.flags
                },
                ..self@
            }),
    {
        let flags = GdbFlags { erase: true, erase_infomem: true, load: true, ..self.flags };
        GdbCfg { flags, ..self }
    }

    /// Choose the debug server's TCP port.
    pub fn set_port(self, port: u16) -> (r: Self)
        ensures
            r@ == (GdbCfgView { port, ..self@ }),
    {
        GdbCfg { port, ..self }
    }

    /// The extra debugger commands, run in the given order.
    pub fn extra_cmds(self, cmds: Vec<String>) -> (r: Self)
        ensures
            r@ == (GdbCfgView { extra_args: cmds.deep_view(), ..self@ }),
    {
        GdbCfg { extra_args: cmds, ..self }
    }
}

/// One step of a flash-write operation.
#[derive(Debug, Clone, PartialEq, Eq)]
pub enum Action {
    /// Wait until the tool reports ready.
    WaitReady,
    /// Wait until the tool reports busy.
    WaitBusy,
    /// Write this line to the tool.
    Send(String),
}

/// The ghost image of an [`Action`].
pub enum ActionV {
    WaitReady,
    WaitBusy,
    Send(Seq<char>),
}

impl View for Action {
    type V = ActionV;

    open spec fn view(&self) -> ActionV {
        match self {
            Action::WaitReady => ActionV::WaitReady,
            Action::WaitBusy => ActionV::WaitBusy,
            Action::Send(s) => ActionV::Send(s@),
        }
    }
}

impl DeepView for Action {
    type V = ActionV;

    open spec fn deep_view(&self) -> ActionV {
        self.view()
    }
}

/// The steps of a flash write, in order: wait for ready; if an erase
/// was planned, erase the range and ride out the busy/ready cycle; then
/// program the file and ride out its busy/ready cycle.
pub open spec fn program_plan_spec(im: Option<InfoMem>, path: Seq<char>) -> Seq<ActionV> {
    seq![ActionV::WaitReady] + (match im {
        Some(e) => seq![
            ActionV::Send(erase_cmd_spec(e.origin, e.length, e.sector_size)),
            ActionV::WaitBusy,
            ActionV::WaitReady,
        ],
        None => Seq::<ActionV>::empty(),
    }) + seq![
        ActionV::WaitReady,
        ActionV::Send(prog_cmd_spec(path)),
        ActionV::WaitBusy,
        ActionV::WaitReady,
    ]
}

/// Plan a flash write. The session must not be grouped: a flash write
/// shares the caller's process group, and a grouped session is refused
/// before anything is sent to the child. On success the returned steps
/// are executed in order; any failure while executing aborts the rest.
pub fn program_plan(group: bool, im: Option<InfoMem>, path: &str) -> (r: Result<Vec<Action>, Error>)
    ensures
        group ==> r == Err::<Vec<Action>, Error>(Error::ExpectedNoProcessGroup),
        !group ==> (r matches Ok(p) && p.deep_view() == program_plan_spec(im, path@)),
{
    if group {
        return Err(Error::ExpectedNoProcessGroup);
    }
    let mut plan: Vec<Action> = Vec::new();
    plan.push(Action::WaitReady);
    match im {
        Some(e) => {
            plan.push(Action::Send(erase_cmd(e.origin, e.length, e.sector_size)));
            plan.push(Action::WaitBusy);
            plan.push(Action::WaitReady);
        },
        None => {},
    }
    plan.push(Action::WaitReady);
    plan.push(Action::Send(prog_cmd(path)));
    plan.push(Action::WaitBusy);
    plan.push(Action::WaitReady);
    proof {
        assert(plan.deep_view() =~= program_plan_spec(im, path@));
    }
    Ok(plan)
}

/// One step of a debug session.
#[derive(Debug, Clone, PartialEq, Eq)]
pub enum GdbStep {
    /// Make the interrupt signal a no-op for the calling process, so
    /// an interrupt meant for the debugger does not kill the caller.
    /// Process-wide, installed once, valid for the rest of the process.
    OverrideInterrupt,
    /// Wait until the tool reports ready.
    WaitReady,
    /// Wait until the tool reports busy.
    WaitBusy,
    /// Write this line to the tool.
    Send(String),
    /// From here until the guard is disarmed, the child must be
    /// force-terminated if control leaves the session abnormally.
    ArmKillGuard,
    /// Spawn the debugger with these arguments, not grouped with the
    /// first child.
    SpawnDebugger(Vec<String>),
    /// Lifecycle responsibility has passed to the debugger.
    DisarmKillGuard,
    /// Block until the debugger exits and return its status.
    AwaitDebuggerExit,
}

/// The ghost image of a [`GdbStep`].
pub enum GdbStepV {
    OverrideInterrupt,
    WaitReady,
    WaitBusy,
    Send(Seq<char>),
    ArmKillGuard,
    SpawnDebugger(Seq<Seq<char>>),
    DisarmKillGuard,
    AwaitDebuggerExit,
}

impl View for GdbStep {
    type V = GdbStepV;

    open spec fn view(&self) -> GdbStepV {
        match self {
            GdbStep::OverrideInterrupt => GdbStepV::OverrideInterrupt,
            GdbStep::WaitReady => GdbStepV::WaitReady,
            GdbStep::WaitBusy => GdbStepV::WaitBusy,
            GdbStep::Send(s) => GdbStepV::Send(s@),
            GdbStep::ArmKillGuard => GdbStepV::ArmKillGuard,
            GdbStep::SpawnDebugger(args) => GdbStepV::SpawnDebugger(args.deep_view()),
            GdbStep::DisarmKillGuard => GdbStepV::DisarmKillGuard,
            GdbStep::AwaitDebuggerExit => GdbStepV::AwaitDebuggerExit,
        }
    }
}

impl DeepView for GdbStep {
    type V = GdbStepV;

    open spec fn deep_view(&self) -> GdbStepV {
        self.view()
    }
}

/// The `-ex` pairs for the extra commands, in their given order.
pub open spec fn extra_args_spec(es: Seq<Seq<char>>) -> Seq<Seq<char>>
    decreases es.len(),
{
    if es.len() == 0 {
        Seq::<Seq<char>>::empty()
    } else {
        extra_args_spec(es.drop_last()) + seq!["-ex"@, es.last()]
    }
}

/// The debugger's argument list, in its fixed order: the quiet flag,
/// the connection to the local debug server, the erase commands, the
/// load command, the unconditional reset, the extra commands in their
/// given order, and the file to debug. The configuration-memory erase
/// appears only when both requested and planned.
pub open spec fn gdb_args_spec(
    flags: GdbFlags,
    port: u16,
    extra: Seq<Seq<char>>,
    im: Option<InfoMem>,
    path: Seq<char>,
) -> Seq<Seq<char>> {
    (if flags.quiet {
        seq!["-q"@]
    } else {
        Seq::<Seq<char>>::empty()
    }) + seq!["-ex"@, target_remote_spec(port)] + (if flags.erase {
        seq!["-ex"@, "monitor erase"@]
    } else {
        Seq::<Seq<char>>::empty()
    }) + (if flags.erase_infomem {
        match im {
            Some(e) => seq![
                "-ex"@,
                monitor_erase_segrange_spec(e.origin, e.length, e.sector_size),
            ],
            None => Seq::<Seq<char>>::empty(),
        }
    } else {
        Seq::<Seq<char>>::empty()
    }) + (if flags.load {
        seq!["-ex"@, "load"@]
    } else {
        Seq::<Seq<char>>::empty()
    }) + seq!["-ex"@, "monitor reset"@] + extra_args_spec(extra) + seq![path]
}

/// Assemble the debugger's argument list.
#[verifier::loop_isolation(false)]
#[verifier::rlimit(60)]
pub fn gdb_args(cfg: &GdbCfg, im: Option<InfoMem>, path: &str) -> (r: Vec<String>)
    ensures
        r.deep_view() == gdb_args_spec(cfg@.flags, cfg@.port, cfg@.extra_args, im, path@),
{
    let mut args: Vec<String> = Vec::new();
    if cfg.flags.quiet {
        args.push("-q".to_owned());
    }
    args.push("-ex".to_owned());
    args.push(target_remote_arg(cfg.port));
    if cfg.flags.erase {
        args.push("-ex".to_owned());
        args.push("monitor erase".to_owned());
    }
    if cfg.flags.erase_infomem {
        match im {
            Some(e) => {
                args.push("-ex".to_owned());
                args.push(monitor_erase_segrange(e.origin, e.length, e.sector_size));
            },
            None => {},
        }
    }
    if cfg.flags.load {
        args.push("-ex".to_owned());
        args.push("load".to_owned());
    }
    args.push("-ex".to_owned());
    args.push("monitor reset".to_owned());
    let ghost prefix = args.deep_view();
    let mut k: usize = 0;
    while k < cfg.extra_args.len()
        invariant
            k <= cfg.extra_args@.len(),
            args.deep_view() == prefix + extra_args_spec(cfg@.extra_args.take(k as int)),
        decreases cfg.extra_args@.len() - k,
    {
        let ghost pre_args = args;
        args.push("-ex".to_owned());
        let ghost mid_args = args;
        let extra: &String = &cfg.extra_args[k];
        args.push(extra.clone());
        proof {
            let es = cfg@.extra_args;
            assert(mid_args.deep_view() =~= pre_args.deep_view().push("-ex"@));
            assert(args.deep_view() =~= mid_args.deep_view().push(es[k as int]));
            assert(es.take(k as int + 1).drop_last() =~= es.take(k as int));
            assert(es.take(k as int + 1).last() == es[k as int]);
            assert(args.deep_view() =~= prefix + extra_args_spec(es.take(k as int + 1)));
        }
        k += 1;
    }
    proof {
        assert(cfg@.extra_args.take(cfg.extra_args@.len() as int) =~= cfg@.extra_args);
    }
    let ghost full_args = args;
    args.push(path.to_owned());
    proof {
        assert(args.deep_view() =~= full_args.deep_view().push(path@));
        assert(args.deep_view() =~= gdb_args_spec(cfg@.flags, cfg@.port, cfg@.extra_args, im, path@));
    }
    args
}

/// The steps of a debug session, in order: neuter the interrupt signal
/// for the caller, wait for ready, start the debug server and wait for
/// busy, arm the kill guard over the child, spawn the debugger, disarm
/// the guard, and wait for the debugger to exit.
pub open spec fn gdb_plan_spec(cfgv: GdbCfgView, im: Option<InfoMem>, path: Seq<char>) -> Seq<
    GdbStepV,
> {
    seq![
        GdbStepV::OverrideInterrupt,
        GdbStepV::WaitReady,
        GdbStepV::Send(gdb_cmd_spec(cfgv.port)),
        GdbStepV::WaitBusy,
        GdbStepV::ArmKillGuard,
        GdbStepV::SpawnDebugger(gdb_args_spec(cfgv.flags, cfgv.port, cfgv.extra_args, im, path)),
        GdbStepV::DisarmKillGuard,
        GdbStepV::AwaitDebuggerExit,
    ]
}

/// Plan a debug session. The session must be grouped — the first child
/// has to live in its own process group so that an interrupt meant for
/// the debugger does not reach it — and an ungrouped session is refused
/// before the signal override is installed. On success the returned
/// steps are executed in order; any failure while executing aborts the
/// rest.
pub fn gdb_plan(group: bool, cfg: &GdbCfg, im: Option<InfoMem>, path: &str) -> (r: Result<
    Vec<GdbStep>,
    Error,
>)
    ensures
        !group ==> r == Err::<Vec<GdbStep>, Error>(Error::ExpectedProcessGroup),
        group ==> (r matches Ok(p) && p.deep_view() == gdb_plan_spec(cfg@, im, path@)),
{
    if !group {
        return Err(Error::ExpectedProcessGroup);
    }
    let mut plan: Vec<GdbStep> = Vec::new();
    plan.push(GdbStep::OverrideInterrupt);
    plan.push(GdbStep::WaitReady);
    plan.push(GdbStep::Send(gdb_cmd(cfg.port)));
    plan.push(GdbStep::WaitBusy);
    plan.push(GdbStep::ArmKillGuard);
    plan.push(GdbStep::SpawnDebugger(gdb_args(cfg, im, path)));
    plan.push(GdbStep::DisarmKillGuard);
    plan.push(GdbStep::AwaitDebuggerExit);
    proof {
        assert(plan.deep_view() =~= gdb_plan_spec(cfg@, im, path@));
    }
    Ok(plan)
}

} // verus!
