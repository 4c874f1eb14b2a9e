//! A host described by plain values: what a start can meet outside the sequencer.

use vstd::prelude::*;

use crate::protocol::{Action, ActionView, Event, EventView};

verus! {

/// What a start can meet: everything outside the sequencer that its decisions depend on.
#[derive(Debug, PartialEq, Eq)]
pub struct Host {
    /// What reading the gating variable yields: `None` where it is not set.
    pub variable: Option<String>,
    /// Whether the window that is looked up exists.
    pub main_window: bool,
    /// Whether the host accepts the logging plugin.
    pub logging_accepted: bool,
    /// Whether the run loop returns without error.
    pub run_loop_ok: bool,
}

/// Mathematical counterpart of [`Host`].
pub struct HostView {
    pub variable: Option<Seq<char>>,
    pub main_window: bool,
    pub logging_accepted: bool,
    pub run_loop_ok: bool,
}

impl View for Host {
    type V = HostView;

    open spec fn view(&self) -> HostView {
        HostView {
            variable: self.variable.deep_view(),
            main_window: self.main_window,
            logging_accepted: self.logging_accepted,
            run_loop_ok: self.run_loop_ok,
        }
    }
}

/// What the host reports when it has performed `action`; nothing after a final request.
pub open spec fn answer(host: HostView, action: ActionView) -> Option<EventView> {
    match action {
        ActionView::ReadVariable(_) => Some(EventView::VariableRead(host.variable)),
        ActionView::FindWindow(_) => Some(
            if host.main_window {
                EventView::WindowFound
            } else {
                EventView::WindowMissing
            },
        ),
        ActionView::OpenDevtools => Some(EventView::DevtoolsOpened),
        ActionView::Print(_) => Some(EventView::LinePrinted),
        ActionView::RegisterLogging(_) => Some(
            if host.logging_accepted {
                EventView::LoggingRegistered
            } else {
                EventView::LoggingRejected
            },
        ),
        ActionView::EnterRunLoop => Some(
            if host.run_loop_ok {
                EventView::RunLoopReturned
            } else {
                EventView::RunLoopFailed
            },
        ),
        ActionView::Exit => None,
        ActionView::Abort(_) => None,
    }
}

impl Host {
    /// What this host reports when it has performed `action`; nothing after a final request.
    pub fn answer(&self, action: &Action) -> (event: Option<Event>)
        ensures
            event.deep_view() == answer(self@, action@),
    {
        match action {
            Action::ReadVariable(_) => Some(Event::VariableRead(self.variable.clone())),
            Action::FindWindow(_) => Some(
                if self.main_window {
                    Event::WindowFound
                } else {
                    Event::WindowMissing
                },
            ),
            Action::OpenDevtools => Some(Event::DevtoolsOpened),
            Action::Print(_) => Some(Event::LinePrinted),
            Action::RegisterLogging(_) => Some(
                if self.logging_accepted {
                    Event::LoggingRegistered
                } else {
                    Event::LoggingRejected
                },
            ),
            Action::EnterRunLoop => Some(
                if self.run_loop_ok {
                    Event::RunLoopReturned
                } else {
                    Event::RunLoopFailed
                },
            ),
            Action::Exit => None,
            Action::Abort(_) => None,
        }
    }
}

} // verus!
