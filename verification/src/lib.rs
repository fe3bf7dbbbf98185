//! Driver library for the `mspdebug` command-line MSP430 programmer.
//!
//! The library holds the logic of the driver: classifying the tool's
//! line-oriented output, tracking its ready/busy state, planning safe
//! erase ranges for configuration memory, and laying out the exact
//! sequences of commands that a flash-write or a debug session sends.
//! Process spawning and pipe I/O live outside the library and feed it
//! plain values.

use vstd::prelude::*;

mod cfg;
mod cmd;
mod driver;
mod error;
mod infomem;
mod protocol;
mod session;
mod text;

pub use cfg::Cfg;
pub use cfg::TargetDriver;
pub use driver::Action;
pub use driver::GdbCfg;
pub use driver::GdbFlags;
pub use driver::GdbStep;
pub use driver::gdb_args;
pub use driver::gdb_plan;
pub use driver::program_plan;
pub use error::BadInputReason;
pub use error::Error;
pub use infomem::InfoMem;
pub use infomem::compute_infomem;
pub use infomem::infomem_lookup;
pub use protocol::ErrorSeverity;
pub use protocol::OutputType;
pub use protocol::ShellType;
pub use protocol::classify_line;
pub use cmd::erase_cmd;
pub use cmd::gdb_cmd;
pub use cmd::monitor_erase_segrange;
pub use cmd::prog_cmd;
pub use cmd::target_remote_arg;
pub use cmd::u16_dec;
pub use session::Session;
pub use session::WaitMode;

verus! {

} // verus!
