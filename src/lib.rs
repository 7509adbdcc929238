//! Decisions behind running a child process: how its command line is shown,
//! where its standard streams go, how each line of its output is logged, and
//! how the way it ended becomes a result. Executability of files is decided
//! here from permission bits.
pub mod drain;
pub mod outcome;
pub mod permissions;
pub mod render;

pub use drain::{drain_step, DrainStep, LineEvent, LogEntry, LogLevel, OutputStream};
pub use outcome::{
    exit_result, spawn_failure, stdio_plan, wait_failure, ExecError, ExecMode, ExitReport,
    StdioPlan, StdioSource,
};
pub use permissions::{is_executable, make_executable, FileMeta};
pub use render::shlex_join;
