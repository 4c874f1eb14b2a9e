//! The exact list of requests that one start makes, for every configuration and every host.

use vstd::prelude::*;

use crate::config::{
    enables, BuildMode, DevtoolsPolicyView, StartupConfig, StartupConfigView, MAIN_WINDOW,
};
use crate::host::{answer, Host, HostView};
use crate::protocol::{Action, ActionView, DiagnosticView, Failure, Severity};
use crate::sequencer::{initial, next, Sequencer, SequencerView};

verus! {

/// An upper bound on the number of requests that can still follow `action`.
pub open spec fn requests_left(action: ActionView) -> nat {
    match action {
        ActionView::ReadVariable(_) => 6,
        ActionView::FindWindow(_) => 5,
        ActionView::OpenDevtools => 4,
        ActionView::Print(_) => 3,
        ActionView::RegisterLogging(_) => 2,
        ActionView::EnterRunLoop => 1,
        ActionView::Exit => 0,
        ActionView::Abort(_) => 0,
    }
}

/// The requests that a sequencer makes from `state` on, its outstanding one first, when `host`
/// answers each of them.
pub open spec fn drive(state: SequencerView, host: HostView) -> Seq<ActionView>
    decreases requests_left(state.pending),
{
    match answer(host, state.pending) {
        Some(event) => seq![state.pending] + drive(next(state, event), host),
        None => seq![state.pending],
    }
}

/// Looking up the main window and, if it exists, opening the developer tools on it and then
/// making the requests in `owed`. A missing window ends the matter silently.
pub open spec fn window_requests(host: HostView, owed: Seq<ActionView>) -> Seq<ActionView> {
    if host.main_window {
        seq![ActionView::FindWindow(MAIN_WINDOW@), ActionView::OpenDevtools] + owed
    } else {
        seq![ActionView::FindWindow(MAIN_WINDOW@)]
    }
}

/// What a debug build asks of the host to settle the developer tools; a release build asks
/// nothing.
///
/// Under the opt-in policy the gating variable is read first. Unless it enables the tools,
/// one line says that they are disabled, and that is all. Where the tools are wanted the main
/// window is looked up; if it exists the tools are opened on it, and under the opt-in policy
/// one line says so.
pub open spec fn devtools_requests(config: StartupConfigView, host: HostView) -> Seq<ActionView> {
    match config.build_mode {
        BuildMode::Release => seq![],
        BuildMode::Debug => match config.devtools_policy {
            DevtoolsPolicyView::Always => window_requests(host, seq![]),
            DevtoolsPolicyView::EnvGated(variable) => seq![ActionView::ReadVariable(variable)] + (
            if enables(host.variable) {
                window_requests(
                    host,
                    seq![ActionView::Print(DiagnosticView::DevtoolsOpened(variable))],
                )
            } else {
                seq![ActionView::Print(DiagnosticView::DevtoolsDisabled(variable))]
            }),
        },
    }
}

/// A debug build registers the logging plugin, once, with minimum severity `Info`; a release
/// build does not.
pub open spec fn logging_requests(config: StartupConfigView) -> Seq<ActionView> {
    match config.build_mode {
        BuildMode::Release => seq![],
        BuildMode::Debug => seq![ActionView::RegisterLogging(Severity::Info)],
    }
}

/// Whether setup gets through: the only thing that can stop it is a refused logging plugin,
/// which only a debug build registers.
pub open spec fn setup_succeeds(config: StartupConfigView, host: HostView) -> bool {
    config.build_mode == BuildMode::Release || host.logging_accepted
}

/// How the start ends. After a failed setup it aborts and the run loop is not entered. After
/// a setup that got through the run loop is entered, and its outcome is the process's.
pub open spec fn closing_requests(config: StartupConfigView, host: HostView) -> Seq<ActionView> {
    if !setup_succeeds(config, host) {
        seq![ActionView::Abort(Failure::PluginRegistration)]
    } else if host.run_loop_ok {
        seq![ActionView::EnterRunLoop, ActionView::Exit]
    } else {
        seq![ActionView::EnterRunLoop, ActionView::Abort(Failure::RunLoop)]
    }
}

/// Every request of one start under `config` against `host`, in order.
pub open spec fn script(config: StartupConfigView, host: HostView) -> Seq<ActionView> {
    devtools_requests(config, host) + logging_requests(config) + closing_requests(config, host)
}

/// A sequencer that starts under `config` and is answered by `host` makes exactly the
/// requests of `script(config, host)`.
pub proof fn lemma_drive_follows_script(config: StartupConfigView, host: HostView)
    ensures
        drive(initial(config), host) == script(config, host),
{
    reveal_with_fuel(drive, 8);
}

/// Runs one start under `config` against `host` and returns every request that was made, in
/// order. Nothing outside is touched: `host` answers in place of the real one.
pub fn rehearse(config: &StartupConfig, host: &Host) -> (requests: Vec<Action>)
    ensures
        requests.deep_view() == script(config@, host@),
{
    let mut sequencer = Sequencer::new(config);
    let mut requests: Vec<Action> = Vec::new();
    proof {
        lemma_drive_follows_script(config@, host@);
    }
    loop
        invariant
            requests.deep_view() + drive(sequencer@, host@) == script(config@, host@),
        decreases requests_left(sequencer@.pending),
    {
        let action = sequencer.pending().clone();
        let event = host.answer(&action);
        requests.push(action);
        match event {
            Some(event) => {
                sequencer.step(event);
            },
            None => {
                return requests;
            },
        }
    }
}

} // verus!
