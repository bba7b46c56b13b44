//! Orchestration core for running fuzzing engines against fuzz targets.
//!
//! Each engine (`FuzzerHfuzz`, `FuzzerAfl`, `FuzzerLibfuzzer`) turns a target
//! into a plan of steps: filesystem operations that prepare its workspace,
//! the harness rendered from a template, and the commands to launch. The
//! caller carries the steps out and hands launch outcomes back to
//! `exec_outcome`. Every plan, command and decision is stated exactly and
//! proved, as are the laws of the workspace model and of template rendering.

pub mod afl;
pub mod command;
pub mod fspath;
pub mod hfuzz;
pub mod libfuzzer;
pub mod plan;
pub mod target;
pub mod template;
pub mod workspace;

pub use afl::FuzzerAfl;
pub use command::{exec_outcome, int_to_text, probe_outcome, CommandSpec, EnvVar, FuzzError, LaunchOutcome};
pub use fspath::FsPath;
pub use hfuzz::FuzzerHfuzz;
pub use libfuzzer::FuzzerLibfuzzer;
pub use plan::{resolve_corpus, CorpusInput, RunContext, Step};
pub use target::FuzzTarget;
pub use template::{render_template, replace_token, TARGET_PLACEHOLDER};
pub use workspace::FsOp;
