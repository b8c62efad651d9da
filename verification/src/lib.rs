//! A small library behind a command-line tool that opens a URL in the
//! user's default web browser by delegating to the operating system's
//! native "open" facility.
//!
//! The library holds everything that can be decided without touching the
//! process's surroundings: parsing the argument list into a [`Cmd`],
//! turning a command into the [`Action`] the host must perform, judging
//! the outcome of a launch, and rendering diagnostics. Spawning the child
//! process and writing to the console are left to the binary around it.

mod command;
mod platform;

pub use command::Action;
pub use command::Cmd;
pub use command::CmdError;
pub use command::ExitStatus;
pub use command::Invocation;
pub use command::failure_report;
pub use command::lemma_failure_report_prefix;
pub use command::open_outcome;
pub use command::spec_failure_report;
pub use command::parse_args;
pub use command::HELP;
pub use platform::views_of;
pub use platform::Platform;
pub use platform::PlatformTarget;
