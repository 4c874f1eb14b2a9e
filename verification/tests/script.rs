use shell_startup::{
    rehearse, Action, BuildMode, DevtoolsPolicy, Diagnostic, Event, Failure, Host, Sequencer,
    Severity, StartupConfig,
};

const VARIABLE: &str = "BETTINGTRACKER_DEVTOOLS";

fn text(s: &str) -> String {
    String::from(s)
}

fn host(variable: Option<&str>, main_window: bool, logging_accepted: bool, run_loop_ok: bool) -> Host {
    Host { variable: variable.map(String::from), main_window, logging_accepted, run_loop_ok }
}

fn willing(variable: Option<&str>, main_window: bool) -> Host {
    host(variable, main_window, true, true)
}

fn times(requests: &[Action], action: &Action) -> usize {
    requests.iter().filter(|request| *request == action).count()
}

fn registrations(requests: &[Action]) -> usize {
    requests.iter().filter(|request| matches!(request, Action::RegisterLogging(_))).count()
}

fn lines(requests: &[Action]) -> usize {
    requests.iter().filter(|request| matches!(request, Action::Print(_))).count()
}

fn opened_line() -> Action {
    Action::Print(Diagnostic::DevtoolsOpened(text(VARIABLE)))
}

fn disabled_line() -> Action {
    Action::Print(Diagnostic::DevtoolsDisabled(text(VARIABLE)))
}

fn values() -> Vec<Option<&'static str>> {
    vec![None, Some(""), Some("0"), Some("1"), Some("true"), Some("11"), Some(" 1"), Some("1 ")]
}

fn configs() -> Vec<StartupConfig> {
    vec![
        StartupConfig::opt_in(BuildMode::Debug),
        StartupConfig::opt_in(BuildMode::Release),
        StartupConfig::unconditional(BuildMode::Debug),
        StartupConfig::unconditional(BuildMode::Release),
        StartupConfig {
            build_mode: BuildMode::Debug,
            devtools_policy: DevtoolsPolicy::EnvGated(text("ANOTHER_FLAG")),
        },
    ]
}

fn hosts() -> Vec<Host> {
    let mut all = Vec::new();
    for variable in values() {
        for main_window in [false, true] {
            for logging_accepted in [false, true] {
                for run_loop_ok in [false, true] {
                    all.push(host(variable, main_window, logging_accepted, run_loop_ok));
                }
            }
        }
    }
    all
}

#[test]
fn opt_in_debug_start_with_flag_and_window() {
    let requests = rehearse(&StartupConfig::opt_in(BuildMode::Debug), &willing(Some("1"), true));
    assert_eq!(
        requests,
        vec![
            Action::ReadVariable(text(VARIABLE)),
            Action::FindWindow(text("main")),
            Action::OpenDevtools,
            opened_line(),
            Action::RegisterLogging(Severity::Info),
            Action::EnterRunLoop,
            Action::Exit,
        ]
    );
}

#[test]
fn opt_in_debug_start_without_flag() {
    let requests = rehearse(&StartupConfig::opt_in(BuildMode::Debug), &willing(None, true));
    assert_eq!(
        requests,
        vec![
            Action::ReadVariable(text(VARIABLE)),
            disabled_line(),
            Action::RegisterLogging(Severity::Info),
            Action::EnterRunLoop,
            Action::Exit,
        ]
    );
}

#[test]
fn opt_in_debug_start_with_flag_but_no_window() {
    let requests = rehearse(&StartupConfig::opt_in(BuildMode::Debug), &willing(Some("1"), false));
    assert_eq!(
        requests,
        vec![
            Action::ReadVariable(text(VARIABLE)),
            Action::FindWindow(text("main")),
            Action::RegisterLogging(Severity::Info),
            Action::EnterRunLoop,
            Action::Exit,
        ]
    );
}

#[test]
fn unconditional_debug_start_with_window() {
    let requests =
        rehearse(&StartupConfig::unconditional(BuildMode::Debug), &willing(None, true));
    assert_eq!(
        requests,
        vec![
            Action::FindWindow(text("main")),
            Action::OpenDevtools,
            Action::RegisterLogging(Severity::Info),
            Action::EnterRunLoop,
            Action::Exit,
        ]
    );
}

#[test]
fn unconditional_debug_start_without_window() {
    let requests =
        rehearse(&StartupConfig::unconditional(BuildMode::Debug), &willing(Some("1"), false));
    assert_eq!(
        requests,
        vec![
            Action::FindWindow(text("main")),
            Action::RegisterLogging(Severity::Info),
            Action::EnterRunLoop,
            Action::Exit,
        ]
    );
}

#[test]
fn unconditional_start_never_reads_the_variable_nor_prints() {
    for host in hosts() {
        let requests = rehearse(&StartupConfig::unconditional(BuildMode::Debug), &host);
        assert_eq!(lines(&requests), 0);
        assert!(!requests.iter().any(|request| matches!(request, Action::ReadVariable(_))));
        assert_eq!(times(&requests, &Action::OpenDevtools), usize::from(host.main_window));
    }
}

#[test]
fn release_start_goes_straight_to_the_run_loop() {
    for config in [
        StartupConfig::opt_in(BuildMode::Release),
        StartupConfig::unconditional(BuildMode::Release),
    ] {
        for host in hosts() {
            let requests = rehearse(&config, &host);
            let ending =
                if host.run_loop_ok { Action::Exit } else { Action::Abort(Failure::RunLoop) };
            assert_eq!(requests, vec![Action::EnterRunLoop, ending]);
        }
    }
}

#[test]
fn release_start_has_no_diagnostics() {
    let requests = rehearse(&StartupConfig::opt_in(BuildMode::Release), &willing(Some("1"), true));
    assert_eq!(times(&requests, &Action::OpenDevtools), 0);
    assert_eq!(registrations(&requests), 0);
    assert_eq!(lines(&requests), 0);
    assert_eq!(requests, vec![Action::EnterRunLoop, Action::Exit]);
}

#[test]
fn other_values_keep_devtools_closed_and_say_so_once() {
    let config = StartupConfig::opt_in(BuildMode::Debug);
    for value in [None, Some(""), Some("true"), Some("0"), Some("11"), Some(" 1"), Some("1 ")] {
        for main_window in [false, true] {
            for logging_accepted in [false, true] {
                let requests =
                    rehearse(&config, &host(value, main_window, logging_accepted, true));
                assert_eq!(times(&requests, &Action::OpenDevtools), 0);
                assert_eq!(times(&requests, &disabled_line()), 1);
                assert_eq!(lines(&requests), 1);
                assert!(!requests.iter().any(|request| matches!(request, Action::FindWindow(_))));
            }
        }
    }
}

#[test]
fn enabling_value_opens_devtools_and_says_so_once() {
    let config = StartupConfig::opt_in(BuildMode::Debug);
    for logging_accepted in [false, true] {
        for run_loop_ok in [false, true] {
            let requests =
                rehearse(&config, &host(Some("1"), true, logging_accepted, run_loop_ok));
            assert_eq!(times(&requests, &Action::OpenDevtools), 1);
            assert_eq!(times(&requests, &opened_line()), 1);
            assert_eq!(lines(&requests), 1);
        }
    }
}

#[test]
fn lines_name_the_configured_variable() {
    let config = StartupConfig {
        build_mode: BuildMode::Debug,
        devtools_policy: DevtoolsPolicy::EnvGated(text("ANOTHER_FLAG")),
    };
    let requests = rehearse(&config, &willing(Some("1"), true));
    assert_eq!(requests[0], Action::ReadVariable(text("ANOTHER_FLAG")));
    assert_eq!(requests[3], Action::Print(Diagnostic::DevtoolsOpened(text("ANOTHER_FLAG"))));
    let requests = rehearse(&config, &willing(Some("2"), true));
    assert_eq!(requests[1], Action::Print(Diagnostic::DevtoolsDisabled(text("ANOTHER_FLAG"))));
}

#[test]
fn debug_start_registers_logging_once_at_info() {
    for config in configs() {
        if config.build_mode != BuildMode::Debug {
            continue;
        }
        for host in hosts() {
            let requests = rehearse(&config, &host);
            assert_eq!(times(&requests, &Action::RegisterLogging(Severity::Info)), 1);
            assert_eq!(registrations(&requests), 1);
        }
    }
}

#[test]
fn missing_window_is_not_fatal() {
    for config in configs() {
        for variable in values() {
            let requests = rehearse(&config, &host(variable, false, true, true));
            assert_eq!(times(&requests, &Action::EnterRunLoop), 1);
            assert_eq!(requests.last(), Some(&Action::Exit));
            assert_eq!(times(&requests, &Action::OpenDevtools), 0);
            assert!(!requests
                .iter()
                .any(|request| matches!(request, Action::Print(Diagnostic::DevtoolsOpened(_)))));
            assert!(!requests.iter().any(|request| matches!(request, Action::Abort(_))));
        }
    }
}

#[test]
fn rejected_logging_aborts_before_the_run_loop() {
    for config in configs() {
        if config.build_mode != BuildMode::Debug {
            continue;
        }
        for variable in values() {
            for main_window in [false, true] {
                for run_loop_ok in [false, true] {
                    let requests =
                        rehearse(&config, &host(variable, main_window, false, run_loop_ok));
                    assert_eq!(requests.last(), Some(&Action::Abort(Failure::PluginRegistration)));
                    assert_eq!(times(&requests, &Action::EnterRunLoop), 0);
                    assert_eq!(times(&requests, &Action::Exit), 0);
                }
            }
        }
    }
}

#[test]
fn failed_run_loop_aborts_after_setup() {
    let requests =
        rehearse(&StartupConfig::opt_in(BuildMode::Debug), &host(None, true, true, false));
    assert_eq!(
        requests,
        vec![
            Action::ReadVariable(text(VARIABLE)),
            disabled_line(),
            Action::RegisterLogging(Severity::Info),
            Action::EnterRunLoop,
            Action::Abort(Failure::RunLoop),
        ]
    );
}

#[test]
fn nothing_is_asked_twice() {
    for config in configs() {
        for host in hosts() {
            let requests = rehearse(&config, &host);
            for request in &requests {
                assert_eq!(times(&requests, request), 1);
            }
        }
    }
}

#[test]
fn every_start_ends_once() {
    for config in configs() {
        for host in hosts() {
            let requests = rehearse(&config, &host);
            assert!(!requests.is_empty());
            assert!(requests.len() <= 7);
            let (last, earlier) = requests.split_last().unwrap();
            assert!(last.is_final());
            assert!(earlier.iter().all(|request| !request.is_final()));
        }
    }
}

#[test]
fn rehearsal_is_the_sequencer_answered_by_the_host() {
    for config in configs() {
        for host in hosts() {
            let mut sequencer = Sequencer::new(&config);
            let mut requests = Vec::new();
            loop {
                requests.push(sequencer.pending().clone());
                match host.answer(sequencer.pending()) {
                    Some(event) => sequencer.step(event),
                    None => break,
                }
            }
            assert!(sequencer.finished());
            assert_eq!(requests, rehearse(&config, &host));
        }
    }
}

#[test]
fn host_answers_each_request() {
    let present = host(Some("1"), true, true, true);
    let absent = host(None, false, false, false);
    assert_eq!(
        present.answer(&Action::ReadVariable(text("V"))),
        Some(Event::VariableRead(Some(text("1"))))
    );
    assert_eq!(absent.answer(&Action::ReadVariable(text("V"))), Some(Event::VariableRead(None)));
    assert_eq!(present.answer(&Action::FindWindow(text("main"))), Some(Event::WindowFound));
    assert_eq!(absent.answer(&Action::FindWindow(text("main"))), Some(Event::WindowMissing));
    assert_eq!(present.answer(&Action::OpenDevtools), Some(Event::DevtoolsOpened));
    assert_eq!(absent.answer(&opened_line()), Some(Event::LinePrinted));
    assert_eq!(
        present.answer(&Action::RegisterLogging(Severity::Info)),
        Some(Event::LoggingRegistered)
    );
    assert_eq!(
        absent.answer(&Action::RegisterLogging(Severity::Info)),
        Some(Event::LoggingRejected)
    );
    assert_eq!(present.answer(&Action::EnterRunLoop), Some(Event::RunLoopReturned));
    assert_eq!(absent.answer(&Action::EnterRunLoop), Some(Event::RunLoopFailed));
    assert_eq!(present.answer(&Action::Exit), None);
    assert_eq!(absent.answer(&Action::Abort(Failure::RunLoop)), None);
    assert_eq!(absent.answer(&Action::Abort(Failure::PluginRegistration)), None);
}

#[test]
fn run_loop_is_entered_only_before_the_final_request() {
    for config in configs() {
        for host in hosts() {
            let requests = rehearse(&config, &host);
            for (i, request) in requests.iter().enumerate() {
                if *request == Action::EnterRunLoop {
                    assert_eq!(i + 2, requests.len());
                    assert!(config.build_mode == BuildMode::Release || host.logging_accepted);
                }
            }
        }
    }
}

#[test]
fn only_two_things_are_fatal() {
    for config in configs() {
        for host in hosts() {
            let requests = rehearse(&config, &host);
            let debug = config.build_mode == BuildMode::Debug;
            let setup_fails = debug && !host.logging_accepted;
            assert_eq!(
                times(&requests, &Action::Abort(Failure::PluginRegistration)),
                usize::from(setup_fails)
            );
            assert_eq!(
                times(&requests, &Action::Abort(Failure::RunLoop)),
                usize::from(!setup_fails && !host.run_loop_ok)
            );
            assert_eq!(
                times(&requests, &Action::Exit),
                usize::from(!setup_fails && host.run_loop_ok)
            );
        }
    }
}
