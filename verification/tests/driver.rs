//! The planned operations: the flash-write sequence, the debug-session
//! sequence, and the exact debugger argument list.

use mspdebug_embedded::Action;
use mspdebug_embedded::Error;
use mspdebug_embedded::GdbCfg;
use mspdebug_embedded::GdbStep;
use mspdebug_embedded::InfoMem;
use mspdebug_embedded::gdb_args;
use mspdebug_embedded::gdb_plan;
use mspdebug_embedded::program_plan;

fn strings(v: &[&str]) -> Vec<String> {
    v.iter().map(|s| s.to_string()).collect()
}

#[test]
fn program_on_grouped_session_is_refused() {
    let e = program_plan(true, None, "fw.elf").unwrap_err();
    assert_eq!(e, Error::ExpectedNoProcessGroup);
}

#[test]
fn gdb_on_ungrouped_session_is_refused() {
    let e = gdb_plan(false, &GdbCfg::default(), None, "fw.elf").unwrap_err();
    assert_eq!(e, Error::ExpectedProcessGroup);
}

#[test]
fn program_plan_without_erase() {
    let plan = program_plan(false, None, "fw.elf").unwrap();
    assert_eq!(
        plan,
        vec![
            Action::WaitReady,
            Action::WaitReady,
            Action::Send(":prog fw.elf\n".to_string()),
            Action::WaitBusy,
            Action::WaitReady,
        ]
    );
}

#[test]
fn program_plan_with_erase() {
    let im = Some(InfoMem { origin: 0x1000, length: 192, sector_size: 64 });
    let plan = program_plan(false, im, "fw.elf").unwrap();
    assert_eq!(
        plan,
        vec![
            Action::WaitReady,
            Action::Send(":erase segrange 4096 192 64\n".to_string()),
            Action::WaitBusy,
            Action::WaitReady,
            Action::WaitReady,
            Action::Send(":prog fw.elf\n".to_string()),
            Action::WaitBusy,
            Action::WaitReady,
        ]
    );
}

#[test]
fn gdb_arguments_exact_order_without_infomem() {
    let cfg = GdbCfg::default()
        .erase_and_load()
        .set_port(2000)
        .extra_cmds(strings(&["printf test"]));
    let args = gdb_args(&cfg, None, "fw.elf");
    assert_eq!(
        args,
        strings(&[
            "-q",
            "-ex",
            "target remote localhost:2000",
            "-ex",
            "monitor erase",
            "-ex",
            "load",
            "-ex",
            "monitor reset",
            "-ex",
            "printf test",
            "fw.elf",
        ])
    );
}

#[test]
fn gdb_arguments_with_infomem_range() {
    let cfg = GdbCfg::default().erase_and_load().set_port(3333);
    let im = Some(InfoMem { origin: 0x1000, length: 192, sector_size: 64 });
    let args = gdb_args(&cfg, im, "fw.elf");
    assert_eq!(
        args,
        strings(&[
            "-q",
            "-ex",
            "target remote localhost:3333",
            "-ex",
            "monitor erase",
            "-ex",
            "monitor erase segrange 4096 192 64",
            "-ex",
            "load",
            "-ex",
            "monitor reset",
            "fw.elf",
        ])
    );
}

#[test]
fn gdb_arguments_default_flags() {
    let args = gdb_args(&GdbCfg::default(), None, "fw.elf");
    assert_eq!(
        args,
        strings(&["-q", "-ex", "target remote localhost:2000", "-ex", "monitor reset", "fw.elf"])
    );
}

#[test]
fn gdb_plan_step_order() {
    let plan = gdb_plan(true, &GdbCfg::default(), None, "fw.elf").unwrap();
    assert_eq!(
        plan,
        vec![
            GdbStep::OverrideInterrupt,
            GdbStep::WaitReady,
            GdbStep::Send(":gdb 2000\n".to_string()),
            GdbStep::WaitBusy,
            GdbStep::ArmKillGuard,
            GdbStep::SpawnDebugger(strings(&[
                "-q",
                "-ex",
                "target remote localhost:2000",
                "-ex",
                "monitor reset",
                "fw.elf",
            ])),
            GdbStep::DisarmKillGuard,
            GdbStep::AwaitDebuggerExit,
        ]
    );
}

#[test]
fn extra_commands_keep_their_order() {
    let cfg = GdbCfg::default().extra_cmds(strings(&["first", "second", "third"]));
    let args = gdb_args(&cfg, None, "fw.elf");
    assert_eq!(
        args,
        strings(&[
            "-q",
            "-ex",
            "target remote localhost:2000",
            "-ex",
            "monitor reset",
            "-ex",
            "first",
            "-ex",
            "second",
            "-ex",
            "third",
            "fw.elf",
        ])
    );
}
