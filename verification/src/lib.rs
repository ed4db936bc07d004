//! A sequential orchestrator for external quality-gate commands.
//!
//! The library decides; the caller performs.  Every step of a run is a
//! [`Process`] description.  The caller launches it, hands back what the
//! operating system reported, and the library classifies the outcome, records
//! the captured output, says what has to be written to which console stream,
//! and tells whether the run goes on or ends with an [`ExitCode`].

pub mod application;
pub mod cli_options;
pub mod console;
pub mod exit_code;
pub mod functions;
pub mod process;
pub mod text;
pub mod verbosity;

pub use application::{Application, Progress, Step};
pub use cli_options::CliOptions;
pub use console::{Console, Message, Stream};
pub use exit_code::ExitCode;
pub use functions::license;
pub use process::{Process, Report};
pub use verbosity::{ParseError, Verbosity};
