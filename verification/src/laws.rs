//! What holds of every start.
//!
//! The laws are stated of [`script`](crate::script::script): the requests that a sequencer
//! makes when the host answers each of them, by
//! [`lemma_drive_follows_script`](crate::script::lemma_drive_follows_script), and what
//! [`rehearse`](crate::script::rehearse) returns.

use vstd::prelude::*;

use crate::config::{enables, BuildMode, DevtoolsPolicyView, StartupConfigView};
use crate::host::HostView;
use crate::protocol::{ActionView, DiagnosticView, EventView, Failure, Severity};
use crate::script::{closing_requests, script, setup_succeeds};
use crate::sequencer::{next, SequencerView};

verus! {

/// How many times `action` occurs in `requests`.
pub open spec fn times(requests: Seq<ActionView>, action: ActionView) -> nat
    decreases requests.len(),
{
    if requests.len() == 0 {
        0
    } else {
        times(requests.drop_last(), action) + if requests.last() == action {
            1nat
        } else {
            0nat
        }
    }
}

/// A release build never opens the developer tools and never registers the logging plugin,
/// whatever the environment holds. It reads no variable and prints nothing either: it goes
/// straight to the run loop.
pub proof fn law_release_has_no_diagnostics(config: StartupConfigView, host: HostView)
    requires
        config.build_mode == BuildMode::Release,
    ensures
        times(script(config, host), ActionView::OpenDevtools) == 0,
        forall|minimum: Severity| #[trigger]
            times(script(config, host), ActionView::RegisterLogging(minimum)) == 0,
        script(config, host) == closing_requests(config, host),
        script(config, host)[0] == ActionView::EnterRunLoop,
{
    reveal_with_fuel(times, 8);
}

/// Under the opt-in policy a debug build whose gating variable holds anything but the exact
/// enabling value (nothing at all, the empty string, `0`, `true`) leaves the developer tools
/// closed and prints one line, the one that says they are disabled.
pub proof fn law_other_values_keep_devtools_closed(
    config: StartupConfigView,
    host: HostView,
    variable: Seq<char>,
)
    requires
        config.build_mode == BuildMode::Debug,
        config.devtools_policy == DevtoolsPolicyView::EnvGated(variable),
        !enables(host.variable),
    ensures
        times(script(config, host), ActionView::OpenDevtools) == 0,
        forall|line: DiagnosticView| #[trigger]
            times(script(config, host), ActionView::Print(line)) == if line
                == DiagnosticView::DevtoolsDisabled(variable) {
                1nat
            } else {
                0nat
            },
{
    reveal_with_fuel(times, 8);
}

/// Under the opt-in policy a debug build whose gating variable holds the exact enabling value
/// and whose main window exists opens the developer tools once and prints one line, the one
/// that says they were opened.
pub proof fn law_enabling_value_opens_devtools(
    config: StartupConfigView,
    host: HostView,
    variable: Seq<char>,
)
    requires
        config.build_mode == BuildMode::Debug,
        config.devtools_policy == DevtoolsPolicyView::EnvGated(variable),
        enables(host.variable),
        host.main_window,
    ensures
        times(script(config, host), ActionView::OpenDevtools) == 1,
        forall|line: DiagnosticView| #[trigger]
            times(script(config, host), ActionView::Print(line)) == if line
                == DiagnosticView::DevtoolsOpened(variable) {
                1nat
            } else {
                0nat
            },
{
    reveal_with_fuel(times, 8);
}

/// A debug build registers the logging plugin exactly once, with minimum severity `Info`,
/// whatever was decided about the developer tools.
pub proof fn law_debug_registers_logging_once(config: StartupConfigView, host: HostView)
    requires
        config.build_mode == BuildMode::Debug,
    ensures
        forall|minimum: Severity| #[trigger]
            times(script(config, host), ActionView::RegisterLogging(minimum)) == if minimum
                == Severity::Info {
                1nat
            } else {
                0nat
            },
{
    reveal_with_fuel(times, 8);
}

/// A main window that cannot be found is no error. Where nothing else stops setup, the start
/// gets through to the run loop without it: the developer tools are not opened, no line claims
/// that they were, and the only fatal error left is one of the run loop itself.
pub proof fn law_missing_window_is_not_fatal(config: StartupConfigView, host: HostView)
    requires
        !host.main_window,
        setup_succeeds(config, host),
    ensures
        times(script(config, host), ActionView::EnterRunLoop) == 1,
        times(script(config, host), ActionView::Abort(Failure::PluginRegistration)) == 0,
        times(script(config, host), ActionView::OpenDevtools) == 0,
        forall|variable: Seq<char>| #[trigger]
            times(
                script(config, host),
                ActionView::Print(DiagnosticView::DevtoolsOpened(variable)),
            ) == 0,
        host.run_loop_ok ==> script(config, host).last() == ActionView::Exit,
{
    reveal_with_fuel(times, 8);
}

/// When the host refuses the logging plugin, startup ends in a fatal error and the run loop
/// is never entered.
pub proof fn law_rejected_logging_aborts(config: StartupConfigView, host: HostView)
    requires
        config.build_mode == BuildMode::Debug,
        !host.logging_accepted,
    ensures
        script(config, host).last() == ActionView::Abort(Failure::PluginRegistration),
        times(script(config, host), ActionView::EnterRunLoop) == 0,
        times(script(config, host), ActionView::Exit) == 0,
{
    reveal_with_fuel(times, 8);
}

/// Nothing is asked twice in one start: each decision is made, and each request performed,
/// at most once.
pub proof fn law_nothing_is_asked_twice(
    config: StartupConfigView,
    host: HostView,
    action: ActionView,
)
    ensures
        times(script(config, host), action) <= 1,
{
    reveal_with_fuel(times, 8);
}

/// Only two things are fatal: a logging plugin that the host refuses, which only a debug build
/// can meet, and a run loop that reports an error, which only a start whose setup got through
/// can meet. Every other start ends in `Exit`.
pub proof fn law_only_two_things_are_fatal(config: StartupConfigView, host: HostView)
    ensures
        times(script(config, host), ActionView::Abort(Failure::PluginRegistration)) == if
            config.build_mode == BuildMode::Debug && !host.logging_accepted {
            1nat
        } else {
            0nat
        },
        times(script(config, host), ActionView::Abort(Failure::RunLoop)) == if setup_succeeds(
            config,
            host,
        ) && !host.run_loop_ok {
            1nat
        } else {
            0nat
        },
        times(script(config, host), ActionView::Exit) == if setup_succeeds(config, host)
            && host.run_loop_ok {
            1nat
        } else {
            0nat
        },
{
    reveal_with_fuel(times, 8);
}

/// Every decision is made before the run loop starts: once the run loop is entered, the only
/// request left is the final one.
pub proof fn law_run_loop_comes_last(config: StartupConfigView, host: HostView, i: int)
    requires
        0 <= i < script(config, host).len(),
        script(config, host)[i] == ActionView::EnterRunLoop,
    ensures
        i == script(config, host).len() - 2,
        setup_succeeds(config, host),
{
}

/// Every start ends, and ends once: the last request is final and no request before it is.
pub proof fn law_script_ends_once(config: StartupConfigView, host: HostView)
    ensures
        script(config, host).len() >= 1,
        script(config, host).last().is_final(),
        forall|i: int|
            0 <= i < script(config, host).len() - 1 ==> !(#[trigger] script(
                config,
                host,
            )[i]).is_final(),
{
}

/// The decisions are made once: a sequencer that has ended stays as it is, whatever it is
/// told afterwards.
pub proof fn law_finished_stays_finished(state: SequencerView, event: EventView)
    requires
        state.pending.is_final(),
    ensures
        next(state, event) == state,
{
}

} // verus!
