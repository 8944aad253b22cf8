use trace_wrapper::config::{sink_variable, SetupError, SANDBOX_SINK_KEY, SINK_KEY, USER_KEY};
use trace_wrapper::launcher::Launcher;
use trace_wrapper::protocol::{Action, Event, Stage};
use trace_wrapper::session::{ChildExit, Level, Outcome, Report, SpanStatus};
use trace_wrapper::trace::TraceId;

const INBOUND: &str = "4bf92f3577b34da6a3ce929d0e0e4736";

fn words(items: &[&str]) -> Vec<String> {
    items.iter().map(|s| s.to_string()).collect()
}

fn exited(code: i32) -> ChildExit {
    ChildExit { code: Some(code), rendering: format!("exit status: {code}") }
}

fn run_bare(program: &str, args: &[&str]) -> Action {
    Action::RunChild { program: program.to_string(), args: words(args), environment: None }
}

fn run_traced(program: &str, args: &[&str], id: &str) -> Action {
    Action::RunChild {
        program: program.to_string(),
        args: words(args),
        environment: Some(("ODX_TRACE_ID".to_string(), id.to_string())),
    }
}

/// A launcher that has started its transaction and waits for the child.
fn traced(program: &str, args: &[&str], inbound: Option<&str>) -> (Launcher, Vec<Action>) {
    let (mut launcher, _) = Launcher::new(program.to_string(), words(args), false);
    launcher.step(Event::SinkAddress(Some("https://key@sink.example/1".to_string()))).unwrap();
    launcher.step(Event::TelemetryOpened { handler_installed: true }).unwrap();
    let actions = launcher
        .step(Event::Context {
            inbound_trace: inbound.map(|s| s.to_string()),
            user: Some("ada".to_string()),
        })
        .unwrap();
    (launcher, actions)
}

#[test]
fn the_sink_variable_follows_the_build() {
    assert_eq!(sink_variable(true), "ODX_SANDBOX_DSN");
    assert_eq!(sink_variable(false), "ODX_DSN");
    assert_eq!(SANDBOX_SINK_KEY, "ODX_SANDBOX_DSN");
    assert_eq!(SINK_KEY, "ODX_DSN");
    assert_eq!(USER_KEY, "USER");
}

#[test]
fn a_launcher_first_reads_the_sink_address() {
    let (launcher, actions) = Launcher::new("echo".to_string(), words(&["hi"]), true);
    assert_eq!(launcher.stage(), Stage::AwaitSinkAddress);
    assert!(launcher.session().is_none());
    assert_eq!(actions, vec![Action::ReadSinkAddress { variable: "ODX_SANDBOX_DSN".to_string() }]);
    let (_, release) = Launcher::new("echo".to_string(), words(&["hi"]), false);
    assert_eq!(release, vec![Action::ReadSinkAddress { variable: "ODX_DSN".to_string() }]);
}

#[test]
fn echo_without_a_sink_address_runs_and_exits_zero() {
    let (mut launcher, _) = Launcher::new("echo".to_string(), words(&["hello", "world"]), false);
    let actions = launcher.step(Event::SinkAddress(None)).unwrap();
    assert_eq!(
        actions,
        vec![
            Action::Complain(SetupError::SinkAddressNotSet),
            run_bare("echo", &["hello", "world"]),
        ]
    );
    assert_eq!(launcher.stage(), Stage::AwaitChild);
    assert!(launcher.session().is_none());
    let end = launcher.step(Event::ChildExited(exited(0))).unwrap();
    assert_eq!(end, vec![Action::Exit { code: 0 }]);
    assert_eq!(launcher.stage(), Stage::Done);
}

#[test]
fn without_a_session_the_exit_code_is_still_the_childs() {
    for code in [0, 1, 2, 42, 255, -1] {
        let (mut launcher, _) = Launcher::new("tool".to_string(), words(&[]), false);
        launcher.step(Event::SinkAddress(None)).unwrap();
        let end = launcher.step(Event::ChildExited(exited(code))).unwrap();
        assert_eq!(end, vec![Action::Exit { code }]);
    }
}

#[test]
fn a_handler_that_cannot_be_installed_leaves_the_child_to_run_bare() {
    let (mut launcher, _) = Launcher::new("/bin/ls".to_string(), words(&["-l"]), false);
    let open = launcher.step(Event::SinkAddress(Some("https://key@sink.example/1".to_string())));
    assert_eq!(
        open,
        Some(vec![Action::OpenTelemetry { sink: "https://key@sink.example/1".to_string() }])
    );
    assert_eq!(launcher.stage(), Stage::AwaitTelemetry);
    let actions = launcher.step(Event::TelemetryOpened { handler_installed: false }).unwrap();
    assert_eq!(
        actions,
        vec![
            Action::FlushTelemetry,
            Action::Complain(SetupError::InterruptHandler),
            run_bare("/bin/ls", &["-l"]),
        ]
    );
    assert!(launcher.session().is_none());
    let end = launcher.step(Event::ChildExited(exited(3))).unwrap();
    assert_eq!(end, vec![Action::Exit { code: 3 }]);
}

#[test]
fn an_installed_handler_leads_to_reading_the_context() {
    let (mut launcher, _) = Launcher::new("ls".to_string(), words(&[]), false);
    launcher.step(Event::SinkAddress(Some("sink".to_string()))).unwrap();
    let actions = launcher.step(Event::TelemetryOpened { handler_installed: true }).unwrap();
    assert_eq!(
        actions,
        vec![Action::ReadContext {
            trace_variable: "ODX_TRACE_ID".to_string(),
            user_variable: "USER".to_string(),
        }]
    );
    assert_eq!(launcher.stage(), Stage::AwaitContext);
}

#[test]
fn a_valid_inbound_identifier_is_the_sessions_and_the_childs() {
    let (launcher, actions) = traced("/usr/bin/make", &["all"], Some(INBOUND));
    assert_eq!(
        actions,
        vec![
            Action::StartTransaction {
                name: "make all".to_string(),
                category: "ui.action".to_string(),
                trace_id: TraceId::parse(INBOUND).unwrap(),
                user: Some("ada".to_string()),
            },
            run_traced("/usr/bin/make", &["all"], INBOUND),
        ]
    );
    let session = launcher.session().unwrap();
    assert_eq!(session.trace_id().as_str(), INBOUND);
    assert_eq!(session.command_label(), "make all");
    assert!(session.is_active());
    assert_eq!(launcher.stage(), Stage::AwaitChild);
}

#[test]
fn an_inbound_identifier_in_upper_case_is_passed_on_in_lower_case() {
    let (launcher, actions) = traced("make", &[], Some("4BF92F3577B34DA6A3CE929D0E0E4736"));
    assert_eq!(actions[1], run_traced("make", &[], INBOUND));
    assert_eq!(launcher.session().unwrap().trace_id().as_str(), INBOUND);
}

fn new_trace_reaches_child(inbound: Option<&str>) {
    let (launcher, actions) = traced("make", &["all"], inbound);
    let id = launcher.session().unwrap().trace_id().clone();
    assert_eq!(id.as_str().len(), 32);
    assert_eq!(TraceId::parse(id.as_str()), Some(id.clone()));
    assert_eq!(actions.len(), 2);
    assert_eq!(
        actions[0],
        Action::StartTransaction {
            name: "make all".to_string(),
            category: "ui.action".to_string(),
            trace_id: id.clone(),
            user: Some("ada".to_string()),
        }
    );
    assert_eq!(actions[1], run_traced("make", &["all"], id.as_str()));
}

#[test]
fn without_an_inbound_identifier_a_new_one_reaches_the_child() {
    new_trace_reaches_child(None);
}

#[test]
fn with_a_malformed_inbound_identifier_a_new_one_reaches_the_child() {
    new_trace_reaches_child(Some("4bf92f3577b34da6a3ce929d0e0e473"));
    new_trace_reaches_child(Some("zzzz2f3577b34da6a3ce929d0e0e4736"));
    new_trace_reaches_child(Some(""));
}

#[test]
fn a_nested_launcher_joins_the_trace_of_the_outer_one() {
    let (outer, actions) = traced("outer", &[], None);
    let passed = match &actions[1] {
        Action::RunChild { environment: Some((key, value)), .. } => {
            assert_eq!(key, "ODX_TRACE_ID");
            value.clone()
        }
        other => panic!("the child is not run under a trace: {other:?}"),
    };
    let (inner, _) = traced("inner", &[], Some(&passed));
    assert_eq!(inner.session().unwrap().trace_id(), outer.session().unwrap().trace_id());
}

#[test]
fn the_user_is_passed_on_only_where_it_is_set() {
    let (mut launcher, _) = Launcher::new("ls".to_string(), words(&[]), false);
    launcher.step(Event::SinkAddress(Some("sink".to_string()))).unwrap();
    launcher.step(Event::TelemetryOpened { handler_installed: true }).unwrap();
    let actions = launcher
        .step(Event::Context { inbound_trace: Some(INBOUND.to_string()), user: None })
        .unwrap();
    assert_eq!(
        actions[0],
        Action::StartTransaction {
            name: "ls ".to_string(),
            category: "ui.action".to_string(),
            trace_id: TraceId::parse(INBOUND).unwrap(),
            user: None,
        }
    );
}

#[test]
fn false_with_a_session_warns_and_exits_one() {
    let (mut launcher, _) = traced("false", &[], Some(INBOUND));
    let end = launcher.step(Event::ChildExited(exited(1))).unwrap();
    assert_eq!(
        end,
        vec![
            Action::Report(Report {
                status: SpanStatus::UnknownError,
                level: Level::Warning,
                message: "false  failed (exit status: 1)".to_string(),
            }),
            Action::FlushTelemetry,
            Action::Exit { code: 1 },
        ]
    );
    match &end[0] {
        Action::Report(report) => {
            assert!(report.message.contains("false"));
            assert!(report.message.contains("exit status: 1"));
        }
        other => panic!("no report: {other:?}"),
    }
    assert_eq!(launcher.stage(), Stage::Done);
    assert_eq!(launcher.session().unwrap().outcome(), Some(Outcome::Failure));
}

#[test]
fn a_success_with_a_session_informs_and_exits_zero() {
    let (mut launcher, _) = traced("/bin/echo", &["hello", "world"], None);
    let end = launcher.step(Event::ChildExited(exited(0))).unwrap();
    assert_eq!(
        end,
        vec![
            Action::Report(Report {
                status: SpanStatus::Okay,
                level: Level::Info,
                message: "echo hello world succeeded (exit status: 0)".to_string(),
            }),
            Action::FlushTelemetry,
            Action::Exit { code: 0 },
        ]
    );
    assert_eq!(launcher.session().unwrap().outcome(), Some(Outcome::Success));
}

#[test]
fn a_child_that_ends_without_a_code_is_a_failure_and_the_launcher_exits_zero() {
    let (mut launcher, _) = traced("sleep", &["60"], None);
    let exit = ChildExit { code: None, rendering: "signal: 15 (SIGTERM)".to_string() };
    let end = launcher.step(Event::ChildExited(exit)).unwrap();
    assert_eq!(
        end,
        vec![
            Action::Report(Report {
                status: SpanStatus::UnknownError,
                level: Level::Warning,
                message: "sleep 60 failed (signal: 15 (SIGTERM))".to_string(),
            }),
            Action::FlushTelemetry,
            Action::Exit { code: 0 },
        ]
    );
}

#[test]
fn releasing_a_launcher_whose_child_never_exited_reports_the_session_abandoned() {
    let (mut launcher, _) = traced("/usr/bin/make", &["all"], None);
    let actions = launcher.step(Event::Released).unwrap();
    assert_eq!(
        actions,
        vec![
            Action::Report(Report {
                status: SpanStatus::UnknownError,
                level: Level::Error,
                message: "make all did not exit".to_string(),
            }),
            Action::FlushTelemetry,
        ]
    );
    assert_eq!(launcher.stage(), Stage::Done);
    assert_eq!(launcher.session().unwrap().outcome(), Some(Outcome::Abandoned));
    assert_eq!(launcher.step(Event::Released), Some(vec![]));
    assert_eq!(launcher.step(Event::ChildExited(exited(0))), None);
}

#[test]
fn releasing_a_finished_launcher_asks_for_nothing() {
    let (mut launcher, _) = traced("make", &[], None);
    launcher.step(Event::ChildExited(exited(0))).unwrap();
    assert_eq!(launcher.step(Event::Released), Some(vec![]));
    assert_eq!(launcher.session().unwrap().outcome(), Some(Outcome::Success));
}

#[test]
fn releasing_before_there_is_a_session_flushes_only_an_open_client() {
    let (mut fresh, _) = Launcher::new("ls".to_string(), words(&[]), false);
    assert_eq!(fresh.step(Event::Released), Some(vec![]));
    assert_eq!(fresh.stage(), Stage::Done);

    let (mut opening, _) = Launcher::new("ls".to_string(), words(&[]), false);
    opening.step(Event::SinkAddress(Some("sink".to_string()))).unwrap();
    assert_eq!(opening.step(Event::Released), Some(vec![Action::FlushTelemetry]));

    let (mut open, _) = Launcher::new("ls".to_string(), words(&[]), false);
    open.step(Event::SinkAddress(Some("sink".to_string()))).unwrap();
    open.step(Event::TelemetryOpened { handler_installed: true }).unwrap();
    assert_eq!(open.step(Event::Released), Some(vec![Action::FlushTelemetry]));

    let (mut bare, _) = Launcher::new("ls".to_string(), words(&[]), false);
    bare.step(Event::SinkAddress(None)).unwrap();
    assert_eq!(bare.step(Event::Released), Some(vec![]));
    assert!(bare.session().is_none());
}

#[test]
fn an_event_out_of_turn_is_refused_and_changes_nothing() {
    let (mut launcher, _) = Launcher::new("ls".to_string(), words(&[]), false);
    assert_eq!(launcher.step(Event::ChildExited(exited(0))), None);
    assert_eq!(launcher.step(Event::TelemetryOpened { handler_installed: true }), None);
    assert_eq!(launcher.step(Event::Context { inbound_trace: None, user: None }), None);
    assert_eq!(launcher.stage(), Stage::AwaitSinkAddress);
    assert!(launcher.session().is_none());

    launcher.step(Event::SinkAddress(Some("sink".to_string()))).unwrap();
    assert_eq!(launcher.step(Event::SinkAddress(None)), None);
    assert_eq!(launcher.stage(), Stage::AwaitTelemetry);

    let (mut waiting, _) = traced("ls", &[], Some(INBOUND));
    assert_eq!(waiting.step(Event::Context { inbound_trace: None, user: None }), None);
    assert_eq!(waiting.step(Event::SinkAddress(None)), None);
    assert_eq!(waiting.stage(), Stage::AwaitChild);
    assert_eq!(waiting.session().unwrap().trace_id().as_str(), INBOUND);
    assert!(waiting.session().unwrap().is_active());
}

#[test]
fn over_a_whole_run_one_transaction_is_started_and_closed_once() {
    let (mut launcher, first) = Launcher::new("/bin/echo".to_string(), words(&["hi"]), false);
    let events = vec![
        Event::SinkAddress(Some("sink".to_string())),
        Event::SinkAddress(None),
        Event::TelemetryOpened { handler_installed: true },
        Event::Context { inbound_trace: None, user: None },
        Event::Context { inbound_trace: Some(INBOUND.to_string()), user: None },
        Event::ChildExited(exited(0)),
        Event::ChildExited(exited(1)),
        Event::Released,
        Event::Released,
    ];
    let mut all = first;
    for event in events {
        if let Some(actions) = launcher.step(event) {
            all.extend(actions);
        }
    }
    let started = all.iter().filter(|a| matches!(a, Action::StartTransaction { .. })).count();
    let closed = all.iter().filter(|a| matches!(a, Action::Report(_))).count();
    let ran = all.iter().filter(|a| matches!(a, Action::RunChild { .. })).count();
    assert_eq!(started, 1);
    assert_eq!(closed, 1);
    assert_eq!(ran, 1);
    assert_eq!(all.last(), Some(&Action::Exit { code: 0 }));
}
