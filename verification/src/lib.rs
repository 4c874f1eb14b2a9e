//! Startup sequencing for a desktop shell.
//!
//! Before the host framework's run loop takes over, the shell decides whether to open the
//! developer tools on its main window and whether to attach a logging facility. The decisions
//! live in [`Sequencer`], a small machine that names one request at a time and is told what
//! came of it; the code that owns the window, the environment and the process performs the
//! requests. [`script::script`] states, for every configuration and every host, the exact list
//! of requests of one start, and the laws in [`laws`] are proved of that list.

pub mod config;
pub mod host;
pub mod laws;
pub mod protocol;
pub mod script;
pub mod sequencer;

pub use config::{
    flag_enables, BuildMode, DevtoolsPolicy, StartupConfig, DEVTOOLS_VARIABLE, ENABLING_VALUE,
    MAIN_WINDOW,
};
pub use host::Host;
pub use protocol::{Action, Diagnostic, Event, Failure, Severity};
pub use script::rehearse;
pub use sequencer::Sequencer;
