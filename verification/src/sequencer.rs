//! The startup sequencer: one request at a time, each decided by what came of the last.

use vstd::prelude::*;
use vstd::string::StringExecFns;

use crate::config::{
    enables, flag_enables, BuildMode, DevtoolsPolicy, DevtoolsPolicyView, StartupConfig,
    StartupConfigView, MAIN_WINDOW,
};
use crate::protocol::{
    Action, ActionView, Diagnostic, DiagnosticView, Event, EventView, Failure, Severity,
};

verus! {

/// The sequencer's whole state: the request that is outstanding, and the line that is owed
/// once the developer tools are open.
///
/// A sequencer is made once per process start and moves only forward. Once its request is
/// `Exit` or `Abort` it stays there.
#[derive(Debug)]
pub struct Sequencer {
    pending: Action,
    announcement: Option<Diagnostic>,
}

/// Mathematical counterpart of [`Sequencer`].
pub struct SequencerView {
    pub pending: ActionView,
    pub announcement: Option<DiagnosticView>,
}

impl View for Sequencer {
    type V = SequencerView;

    closed spec fn view(&self) -> SequencerView {
        SequencerView {
            pending: self.pending@,
            announcement: match self.announcement {
                Some(diagnostic) => Some(diagnostic@),
                None => None,
            },
        }
    }
}

/// The state in which a sequencer starts.
///
/// A release build goes straight to the run loop. A debug build first settles the developer
/// tools: under the opt-in policy by reading the gating variable, otherwise by looking up the
/// main window at once.
pub open spec fn initial(config: StartupConfigView) -> SequencerView {
    SequencerView {
        pending: match config.build_mode {
            BuildMode::Release => ActionView::EnterRunLoop,
            BuildMode::Debug => match config.devtools_policy {
                DevtoolsPolicyView::Always => ActionView::FindWindow(MAIN_WINDOW@),
                DevtoolsPolicyView::EnvGated(variable) => ActionView::ReadVariable(variable),
            },
        },
        announcement: None,
    }
}

/// The state with nothing owed and `pending` outstanding.
pub open spec fn awaiting(pending: ActionView) -> SequencerView {
    SequencerView { pending, announcement: None }
}

/// The state that follows `state` when `event` is reported.
///
/// An event that does not answer the outstanding request changes nothing, so the request
/// stays outstanding. In particular nothing follows `Exit` or `Abort`.
pub open spec fn next(state: SequencerView, event: EventView) -> SequencerView {
    match (state.pending, event) {
        (ActionView::ReadVariable(variable), EventView::VariableRead(value)) => {
            if enables(value) {
                SequencerView {
                    pending: ActionView::FindWindow(MAIN_WINDOW@),
                    announcement: Some(DiagnosticView::DevtoolsOpened(variable)),
                }
            } else {
                awaiting(ActionView::Print(DiagnosticView::DevtoolsDisabled(variable)))
            }
        },
        (ActionView::FindWindow(_), EventView::WindowFound) => SequencerView {
            pending: ActionView::OpenDevtools,
            announcement: state.announcement,
        },
        (ActionView::FindWindow(_), EventView::WindowMissing) => awaiting(
            ActionView::RegisterLogging(Severity::Info),
        ),
        (ActionView::OpenDevtools, EventView::DevtoolsOpened) => match state.announcement {
            Some(diagnostic) => awaiting(ActionView::Print(diagnostic)),
            None => awaiting(ActionView::RegisterLogging(Severity::Info)),
        },
        (ActionView::Print(_), EventView::LinePrinted) => awaiting(
            ActionView::RegisterLogging(Severity::Info),
        ),
        (ActionView::RegisterLogging(_), EventView::LoggingRegistered) => awaiting(
            ActionView::EnterRunLoop,
        ),
        (ActionView::RegisterLogging(_), EventView::LoggingRejected) => awaiting(
            ActionView::Abort(Failure::PluginRegistration),
        ),
        (ActionView::EnterRunLoop, EventView::RunLoopReturned) => awaiting(ActionView::Exit),
        (ActionView::EnterRunLoop, EventView::RunLoopFailed) => awaiting(
            ActionView::Abort(Failure::RunLoop),
        ),
        _ => state,
    }
}

fn ready_for(pending: Action) -> (state: Sequencer)
    ensures
        state@ == awaiting(pending@),
{
    Sequencer { pending, announcement: None }
}

impl Sequencer {
    /// A sequencer at the start of the process.
    pub fn new(config: &StartupConfig) -> (sequencer: Self)
        ensures
            sequencer@ == initial(config@),
    {
        match config.build_mode {
            BuildMode::Release => ready_for(Action::EnterRunLoop),
            BuildMode::Debug => match &config.devtools_policy {
                DevtoolsPolicy::Always => ready_for(
                    Action::FindWindow(String::from_str(MAIN_WINDOW)),
                ),
                DevtoolsPolicy::EnvGated(variable) => ready_for(
                    Action::ReadVariable(variable.clone()),
                ),
            },
        }
    }

    /// The request that is outstanding.
    pub fn pending(&self) -> (action: &Action)
        ensures
            action@ == self@.pending,
    {
        &self.pending
    }

    /// Whether the sequence has ended, in `Exit` or in `Abort`.
    pub fn finished(&self) -> (done: bool)
        ensures
            done == self@.pending.is_final(),
    {
        self.pending.is_final()
    }

    /// Takes in what came of the outstanding request and moves to the next one.
    pub fn step(&mut self, event: Event)
        ensures
            final(self)@ == next(old(self)@, event@),
    {
        let moved: Option<Sequencer> = match (&self.pending, event) {
            (Action::ReadVariable(variable), Event::VariableRead(value)) => {
                if flag_enables(&value) {
                    Some(
                        Sequencer {
                            pending: Action::FindWindow(String::from_str(MAIN_WINDOW)),
                            announcement: Some(Diagnostic::DevtoolsOpened(variable.clone())),
                        },
                    )
                } else {
                    Some(ready_for(Action::Print(Diagnostic::DevtoolsDisabled(variable.clone()))))
                }
            },
            (Action::FindWindow(_), Event::WindowFound) => Some(
                Sequencer {
                    pending: Action::OpenDevtools,
                    announcement: match &self.announcement {
                        Some(diagnostic) => Some(diagnostic.clone()),
                        None => None,
                    },
                },
            ),
            (Action::FindWindow(_), Event::WindowMissing) => Some(
                ready_for(Action::RegisterLogging(Severity::Info)),
            ),
            (Action::OpenDevtools, Event::DevtoolsOpened) => match &self.announcement {
                Some(diagnostic) => Some(ready_for(Action::Print(diagnostic.clone()))),
                None => Some(ready_for(Action::RegisterLogging(Severity::Info))),
            },
            (Action::Print(_), Event::LinePrinted) => Some(
                ready_for(Action::RegisterLogging(Severity::Info)),
            ),
            (Action::RegisterLogging(_), Event::LoggingRegistered) => Some(
                ready_for(Action::EnterRunLoop),
            ),
            (Action::RegisterLogging(_), Event::LoggingRejected) => Some(
                ready_for(Action::Abort(Failure::PluginRegistration)),
            ),
            (Action::EnterRunLoop, Event::RunLoopReturned) => Some(ready_for(Action::Exit)),
            (Action::EnterRunLoop, Event::RunLoopFailed) => Some(
                ready_for(Action::Abort(Failure::RunLoop)),
            ),
            _ => None,
        };
        match moved {
            Some(state) => {
                *self = state;
            },
            None => {},
        }
    }
}

} // verus!
