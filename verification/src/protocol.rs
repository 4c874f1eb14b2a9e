//! The vocabulary between the sequencer and the code that performs its requests.

use vstd::prelude::*;
use vstd::string::StringExecFns;

use crate::config::ENABLING_VALUE;

verus! {

/// Severity of a log message, from the most to the least severe.
#[derive(Clone, Copy, Debug, PartialEq, Eq, Structural)]
pub enum Severity {
    Error,
    Warn,
    Info,
    Debug,
    Trace,
}

impl Severity {
    /// Position on the scale: the more severe, the higher.
    pub open spec fn rank(self) -> nat {
        match self {
            Severity::Error => 4,
            Severity::Warn => 3,
            Severity::Info => 2,
            Severity::Debug => 1,
            Severity::Trace => 0,
        }
    }

    fn position(self) -> (r: u8)
        ensures
            r == self.rank(),
    {
        match self {
            Severity::Error => 4,
            Severity::Warn => 3,
            Severity::Info => 2,
            Severity::Debug => 1,
            Severity::Trace => 0,
        }
    }

    /// Whether a logging facility whose minimum severity is `self` emits a message of severity
    /// `message`: it does when the message is at least as severe as the minimum, and discards
    /// it otherwise.
    pub fn admits(self, message: Severity) -> (emitted: bool)
        ensures
            emitted == (message.rank() >= self.rank()),
    {
        message.position() >= self.position()
    }
}

/// Why startup ended in a fatal error.
#[derive(Clone, Copy, Debug, PartialEq, Eq, Structural)]
pub enum Failure {
    /// The host refused to register the logging plugin.
    PluginRegistration,
    /// The host's run loop reported an error.
    RunLoop,
}

/// A line for standard output about the developer tools. Each carries the name of the
/// environment variable that gates them, and its text shows that name with the value that
/// enables them.
#[derive(Debug, PartialEq, Eq)]
pub enum Diagnostic {
    /// The developer tools were opened because the variable was set.
    DevtoolsOpened(String),
    /// The developer tools stay closed; the line says which variable to set.
    DevtoolsDisabled(String),
}

/// Mathematical counterpart of [`Diagnostic`].
pub enum DiagnosticView {
    DevtoolsOpened(Seq<char>),
    DevtoolsDisabled(Seq<char>),
}

impl DiagnosticView {
    /// The characters of the line, without the line break.
    pub open spec fn text(self) -> Seq<char> {
        match self {
            DiagnosticView::DevtoolsOpened(variable) => "[tauri] DevTools opened ("@ + variable
                + "="@ + ENABLING_VALUE@ + ")"@,
            DiagnosticView::DevtoolsDisabled(variable) => "[tauri] DevTools disabled (set "@
                + variable + "="@ + ENABLING_VALUE@ + " to enable)"@,
        }
    }
}

impl View for Diagnostic {
    type V = DiagnosticView;

    open spec fn view(&self) -> DiagnosticView {
        match self {
            Diagnostic::DevtoolsOpened(variable) => DiagnosticView::DevtoolsOpened(variable@),
            Diagnostic::DevtoolsDisabled(variable) => DiagnosticView::DevtoolsDisabled(variable@),
        }
    }
}

impl Clone for Diagnostic {
    fn clone(&self) -> (copy: Self)
        ensures
            copy@ == self@,
    {
        match self {
            Diagnostic::DevtoolsOpened(variable) => Diagnostic::DevtoolsOpened(variable.clone()),
            Diagnostic::DevtoolsDisabled(variable) => Diagnostic::DevtoolsDisabled(
                variable.clone(),
            ),
        }
    }
}

impl Diagnostic {
    /// The line to write, without the line break.
    pub fn text(&self) -> (line: String)
        ensures
            line@ == self@.text(),
    {
        match self {
            Diagnostic::DevtoolsOpened(variable) => {
                let mut line = String::from_str("[tauri] DevTools opened (");
                line.append(variable.as_str());
                line.append("=");
                line.append(ENABLING_VALUE);
                line.append(")");
                line
            },
            Diagnostic::DevtoolsDisabled(variable) => {
                let mut line = String::from_str("[tauri] DevTools disabled (set ");
                line.append(variable.as_str());
                line.append("=");
                line.append(ENABLING_VALUE);
                line.append(" to enable)");
                line
            },
        }
    }
}

/// One request of the sequencer to the code around it.
#[derive(Debug, PartialEq, Eq)]
pub enum Action {
    /// Read the named environment variable.
    ReadVariable(String),
    /// Look up the window with the given label.
    FindWindow(String),
    /// Open the developer tools on the window that was found.
    OpenDevtools,
    /// Write the line to standard output.
    Print(Diagnostic),
    /// Register the logging plugin with the given minimum severity.
    RegisterLogging(Severity),
    /// Report success to the host framework, which enters its run loop.
    EnterRunLoop,
    /// Nothing is left to do: the run loop has returned without error.
    Exit,
    /// Terminate with a fatal error.
    Abort(Failure),
}

/// Mathematical counterpart of [`Action`].
pub enum ActionView {
    ReadVariable(Seq<char>),
    FindWindow(Seq<char>),
    OpenDevtools,
    Print(DiagnosticView),
    RegisterLogging(Severity),
    EnterRunLoop,
    Exit,
    Abort(Failure),
}

impl ActionView {
    /// `Exit` and `Abort` end the sequence: nothing is requested after them.
    pub open spec fn is_final(self) -> bool {
        self is Exit || self is Abort
    }
}

impl View for Action {
    type V = ActionView;

    open spec fn view(&self) -> ActionView {
        match self {
            Action::ReadVariable(variable) => ActionView::ReadVariable(variable@),
            Action::FindWindow(label) => ActionView::FindWindow(label@),
            Action::OpenDevtools => ActionView::OpenDevtools,
            Action::Print(diagnostic) => ActionView::Print(diagnostic@),
            Action::RegisterLogging(minimum) => ActionView::RegisterLogging(*minimum),
            Action::EnterRunLoop => ActionView::EnterRunLoop,
            Action::Exit => ActionView::Exit,
            Action::Abort(failure) => ActionView::Abort(*failure),
        }
    }
}

impl DeepView for Action {
    type V = ActionView;

    open spec fn deep_view(&self) -> ActionView {
        self@
    }
}

impl Clone for Action {
    fn clone(&self) -> (copy: Self)
        ensures
            copy@ == self@,
    {
        match self {
            Action::ReadVariable(variable) => Action::ReadVariable(variable.clone()),
            Action::FindWindow(label) => Action::FindWindow(label.clone()),
            Action::OpenDevtools => Action::OpenDevtools,
            Action::Print(diagnostic) => Action::Print(diagnostic.clone()),
            Action::RegisterLogging(minimum) => Action::RegisterLogging(*minimum),
            Action::EnterRunLoop => Action::EnterRunLoop,
            Action::Exit => Action::Exit,
            Action::Abort(failure) => Action::Abort(*failure),
        }
    }
}

impl Action {
    /// Whether this request ends the sequence.
    pub fn is_final(&self) -> (b: bool)
        ensures
            b == self@.is_final(),
    {
        match self {
            Action::Exit => true,
            Action::Abort(_) => true,
            _ => false,
        }
    }
}

/// What came of a request.
#[derive(Debug, PartialEq, Eq)]
pub enum Event {
    /// The variable was read: its value, or `None` where it is not set to a string.
    VariableRead(Option<String>),
    /// The window exists.
    WindowFound,
    /// No window has the label.
    WindowMissing,
    /// The developer tools are open.
    DevtoolsOpened,
    /// The line was written.
    LinePrinted,
    /// The logging plugin is registered.
    LoggingRegistered,
    /// The host refused the logging plugin.
    LoggingRejected,
    /// The run loop returned without error.
    RunLoopReturned,
    /// The run loop reported an error.
    RunLoopFailed,
}

/// Mathematical counterpart of [`Event`].
pub enum EventView {
    VariableRead(Option<Seq<char>>),
    WindowFound,
    WindowMissing,
    DevtoolsOpened,
    LinePrinted,
    LoggingRegistered,
    LoggingRejected,
    RunLoopReturned,
    RunLoopFailed,
}

impl View for Event {
    type V = EventView;

    open spec fn view(&self) -> EventView {
        match self {
            Event::VariableRead(value) => EventView::VariableRead(value.deep_view()),
            Event::WindowFound => EventView::WindowFound,
            Event::WindowMissing => EventView::WindowMissing,
            Event::DevtoolsOpened => EventView::DevtoolsOpened,
            Event::LinePrinted => EventView::LinePrinted,
            Event::LoggingRegistered => EventView::LoggingRegistered,
            Event::LoggingRejected => EventView::LoggingRejected,
            Event::RunLoopReturned => EventView::RunLoopReturned,
            Event::RunLoopFailed => EventView::RunLoopFailed,
        }
    }
}

impl DeepView for Event {
    type V = EventView;

    open spec fn deep_view(&self) -> EventView {
        self@
    }
}

} // verus!
