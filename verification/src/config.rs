//! What is fixed before startup begins: the build mode and the developer-tools policy.

use vstd::prelude::*;
use vstd::string::StringExecFns;

verus! {

/// Label under which the host framework knows the main window.
pub const MAIN_WINDOW: &'static str = "main";

/// Environment variable that gates the developer tools under the opt-in policy.
pub const DEVTOOLS_VARIABLE: &'static str = "BETTINGTRACKER_DEVTOOLS";

/// The one value of the gating variable that enables the developer tools.
pub const ENABLING_VALUE: &'static str = "1";

/// Whether a value read from the gating variable enables the developer tools: only the exact
/// string [`ENABLING_VALUE`] does. A variable that is not set enables nothing.
pub open spec fn enables(value: Option<Seq<char>>) -> bool {
    value == Some(ENABLING_VALUE@)
}

/// Whether `value`, as read from the gating variable, enables the developer tools.
pub fn flag_enables(value: &Option<String>) -> (enabled: bool)
    ensures
        enabled == enables(value.deep_view()),
{
    match value {
        Some(text) => {
            let wanted = String::from_str(ENABLING_VALUE);
            *text == wanted
        },
        None => false,
    }
}

/// How the binary was compiled.
#[derive(Clone, Copy, Debug, PartialEq, Eq, Structural)]
pub enum BuildMode {
    /// Diagnostics are available: developer tools may open and logging is attached.
    Debug,
    /// No diagnostics: neither developer tools nor logging.
    Release,
}

/// When a debug build opens the developer tools on the main window.
#[derive(Debug, PartialEq, Eq)]
pub enum DevtoolsPolicy {
    /// Every debug start attempts to open them.
    Always,
    /// Only when the named environment variable holds exactly [`ENABLING_VALUE`].
    EnvGated(String),
}

/// Mathematical counterpart of [`DevtoolsPolicy`].
pub enum DevtoolsPolicyView {
    Always,
    EnvGated(Seq<char>),
}

impl View for DevtoolsPolicy {
    type V = DevtoolsPolicyView;

    open spec fn view(&self) -> DevtoolsPolicyView {
        match self {
            DevtoolsPolicy::Always => DevtoolsPolicyView::Always,
            DevtoolsPolicy::EnvGated(variable) => DevtoolsPolicyView::EnvGated(variable@),
        }
    }
}

impl Clone for DevtoolsPolicy {
    fn clone(&self) -> (copy: Self)
        ensures
            copy@ == self@,
    {
        match self {
            DevtoolsPolicy::Always => DevtoolsPolicy::Always,
            DevtoolsPolicy::EnvGated(variable) => DevtoolsPolicy::EnvGated(variable.clone()),
        }
    }
}

/// Everything the startup sequence depends on besides the host's answers.
#[derive(Debug, PartialEq, Eq)]
pub struct StartupConfig {
    pub build_mode: BuildMode,
    pub devtools_policy: DevtoolsPolicy,
}

/// Mathematical counterpart of [`StartupConfig`].
pub struct StartupConfigView {
    pub build_mode: BuildMode,
    pub devtools_policy: DevtoolsPolicyView,
}

impl View for StartupConfig {
    type V = StartupConfigView;

    open spec fn view(&self) -> StartupConfigView {
        StartupConfigView { build_mode: self.build_mode, devtools_policy: self.devtools_policy@ }
    }
}

impl Clone for StartupConfig {
    fn clone(&self) -> (copy: Self)
        ensures
            copy@ == self@,
    {
        StartupConfig {
            build_mode: self.build_mode,
            devtools_policy: self.devtools_policy.clone(),
        }
    }
}

impl StartupConfig {
    /// The opt-in policy under the standard variable, [`DEVTOOLS_VARIABLE`].
    pub fn opt_in(build_mode: BuildMode) -> (config: Self)
        ensures
            config@ == (StartupConfigView {
                build_mode,
                devtools_policy: DevtoolsPolicyView::EnvGated(DEVTOOLS_VARIABLE@),
            }),
    {
        StartupConfig {
            build_mode,
            devtools_policy: DevtoolsPolicy::EnvGated(String::from_str(DEVTOOLS_VARIABLE)),
        }
    }

    /// The policy that opens the developer tools on every debug start.
    pub fn unconditional(build_mode: BuildMode) -> (config: Self)
        ensures
            config@ == (StartupConfigView {
                build_mode,
                devtools_policy: DevtoolsPolicyView::Always,
            }),
    {
        StartupConfig { build_mode, devtools_policy: DevtoolsPolicy::Always }
    }
}

} // verus!
