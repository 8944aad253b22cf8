//! The launcher's protocol. The launcher decides; its caller acts. Each
//! [`Event`] tells the launcher what the caller found or did, and the
//! [`Action`]s that come back are what the caller does next, in order.
//!
//! A run goes: read the sink address, open telemetry and install the
//! interrupt handler, read the inbound trace identifier and the user, start
//! the transaction, run the child, report how it ended, flush, exit. Where
//! the sink address is not set or the handler cannot be installed the child
//! runs all the same, without telemetry.

use crate::config::{sink_variable_of, SetupError, USER_KEY};
use crate::session::{
    ChildExit, ChildExitView, Report, ReportView, SessionView, TRANSACTION_CATEGORY,
};
use crate::trace::{resolved, TraceId, TRACE_ID_KEY};
use vstd::prelude::*;

verus! {

/// What the launcher waits for.
#[derive(Clone, Copy, Debug, PartialEq, Eq, Structural)]
pub enum Stage {
    /// The value of the sink-address variable.
    AwaitSinkAddress,
    /// Word that telemetry is open, and whether the handler is installed.
    AwaitTelemetry,
    /// The inbound trace identifier and the user.
    AwaitContext,
    /// The child's exit.
    AwaitChild,
    /// Nothing: the run is over.
    Done,
}

/// What the caller found or did.
#[derive(Debug, PartialEq, Eq)]
pub enum Event {
    /// The value of the sink-address variable; `None` where it is not set.
    SinkAddress(Option<String>),
    /// Telemetry is open; the interrupt handler is installed or not.
    TelemetryOpened { handler_installed: bool },
    /// The values of the trace-identifier variable and of the user
    /// variable; `None` for one that is not set.
    Context { inbound_trace: Option<String>, user: Option<String> },
    /// The child has ended.
    ChildExited(ChildExit),
    /// The caller lets go of the launcher, at whatever stage.
    Released,
}

/// The model of an [`Event`].
pub enum EventView {
    SinkAddress(Option<Seq<char>>),
    TelemetryOpened { handler_installed: bool },
    Context { inbound_trace: Option<Seq<char>>, user: Option<Seq<char>> },
    ChildExited(ChildExitView),
    Released,
}

impl View for Event {
    type V = EventView;

    open spec fn view(&self) -> EventView {
        match self {
            Event::SinkAddress(sink) => EventView::SinkAddress(sink.deep_view()),
            Event::TelemetryOpened { handler_installed } => EventView::TelemetryOpened {
                handler_installed: *handler_installed,
            },
            Event::Context { inbound_trace, user } => EventView::Context {
                inbound_trace: inbound_trace.deep_view(),
                user: user.deep_view(),
            },
            Event::ChildExited(exit) => EventView::ChildExited(exit@),
            Event::Released => EventView::Released,
        }
    }
}

/// What the caller is to do.
#[derive(Debug, PartialEq, Eq)]
pub enum Action {
    /// Read the variable and answer with [`Event::SinkAddress`].
    ReadSinkAddress { variable: String },
    /// Open the telemetry client on `sink`, install a handler that ignores
    /// the interrupt signal, and answer with [`Event::TelemetryOpened`].
    OpenTelemetry { sink: String },
    /// Read the two variables and answer with [`Event::Context`].
    ReadContext { trace_variable: String, user_variable: String },
    /// Start the transaction and make it, and the user if there is one, the
    /// current scope.
    StartTransaction { name: String, category: String, trace_id: TraceId, user: Option<String> },
    /// Write the error that kept the session from being created to standard
    /// error.
    Complain(SetupError),
    /// Run the program with the arguments, on the launcher's own standard
    /// streams and in its environment, with the one variable added if there
    /// is one; wait for it to end, and answer with [`Event::ChildExited`].
    RunChild { program: String, args: Vec<String>, environment: Option<(String, String)> },
    /// Set the transaction's status, capture the message, and finish the
    /// transaction.
    Report(Report),
    /// Close the telemetry client, so that what it holds is sent.
    FlushTelemetry,
    /// End the process with the code: the child's, or 0 where the child
    /// ended without one.
    Exit { code: i32 },
}

/// The model of an [`Action`].
pub enum ActionView {
    ReadSinkAddress { variable: Seq<char> },
    OpenTelemetry { sink: Seq<char> },
    ReadContext { trace_variable: Seq<char>, user_variable: Seq<char> },
    StartTransaction {
        name: Seq<char>,
        category: Seq<char>,
        trace_id: Seq<char>,
        user: Option<Seq<char>>,
    },
    Complain(SetupError),
    RunChild {
        program: Seq<char>,
        args: Seq<Seq<char>>,
        environment: Option<(Seq<char>, Seq<char>)>,
    },
    Report(ReportView),
    FlushTelemetry,
    Exit { code: i32 },
}

impl View for Action {
    type V = ActionView;

    open spec fn view(&self) -> ActionView {
        match self {
            Action::ReadSinkAddress { variable } => ActionView::ReadSinkAddress {
                variable: variable@,
            },
            Action::OpenTelemetry { sink } => ActionView::OpenTelemetry { sink: sink@ },
            Action::ReadContext { trace_variable, user_variable } => ActionView::ReadContext {
                trace_variable: trace_variable@,
                user_variable: user_variable@,
            },
            Action::StartTransaction { name, category, trace_id, user } => {
                ActionView::StartTransaction {
                    name: name@,
                    category: category@,
                    trace_id: trace_id@,
                    user: user.deep_view(),
                }
            },
            Action::Complain(error) => ActionView::Complain(*error),
            Action::RunChild { program, args, environment } => ActionView::RunChild {
                program: program@,
                args: args.deep_view(),
                environment: environment.deep_view(),
            },
            Action::Report(report) => ActionView::Report(report@),
            Action::FlushTelemetry => ActionView::FlushTelemetry,
            Action::Exit { code } => ActionView::Exit { code: *code },
        }
    }
}

impl DeepView for Action {
    type V = ActionView;

    open spec fn deep_view(&self) -> ActionView {
        self@
    }
}

/// The code the launcher exits with: the child's, and 0 where the child
/// ended without one.
pub open spec fn exit_code_of(exit: ChildExitView) -> i32 {
    match exit.code {
        Some(code) => code,
        None => 0i32,
    }
}

/// The model of a [`Launcher`].
pub struct LauncherView {
    pub program: Seq<char>,
    pub args: Seq<Seq<char>>,
    pub stage: Stage,
    pub session: Option<SessionView>,
}

impl LauncherView {
    /// A launcher for `program` with `args`, before its first event.
    pub open spec fn start(program: Seq<char>, args: Seq<Seq<char>>) -> LauncherView {
        LauncherView { program, args, stage: Stage::AwaitSinkAddress, session: None }
    }

    /// What the caller does first.
    pub open spec fn first_actions(debug: bool) -> Seq<ActionView> {
        seq![ActionView::ReadSinkAddress { variable: sink_variable_of(debug) }]
    }

    /// The telemetry client is open, or about to be.
    pub open spec fn telemetry_open(self) -> bool {
        ||| self.stage == Stage::AwaitTelemetry
        ||| self.stage == Stage::AwaitContext
        ||| self.stage == Stage::AwaitChild && self.session is Some
    }

    /// The action that runs the child, under `trace_id` if there is one.
    pub open spec fn run_child(self, trace_id: Option<Seq<char>>) -> ActionView {
        ActionView::RunChild {
            program: self.program,
            args: self.args,
            environment: match trace_id {
                Some(id) => Some((TRACE_ID_KEY@, id)),
                None => None,
            },
        }
    }

    /// `event` is one that the launcher takes at its stage. `Released` is
    /// taken at every stage.
    pub open spec fn accepts(self, event: EventView) -> bool {
        match event {
            EventView::SinkAddress(_) => self.stage == Stage::AwaitSinkAddress,
            EventView::TelemetryOpened { .. } => self.stage == Stage::AwaitTelemetry,
            EventView::Context { .. } => self.stage == Stage::AwaitContext,
            EventView::ChildExited(_) => self.stage == Stage::AwaitChild,
            EventView::Released => true,
        }
    }

    /// The launcher after an event that it accepts, and what the caller does
    /// next. `fresh` is the identifier that a new trace would get.
    pub open spec fn next(self, event: EventView, fresh: Seq<char>) -> (
        LauncherView,
        Seq<ActionView>,
    ) {
        match event {
            EventView::SinkAddress(Some(sink)) => (
                LauncherView { stage: Stage::AwaitTelemetry, ..self },
                seq![ActionView::OpenTelemetry { sink }],
            ),
            EventView::SinkAddress(None) => (
                LauncherView { stage: Stage::AwaitChild, ..self },
                seq![ActionView::Complain(SetupError::SinkAddressNotSet), self.run_child(None)],
            ),
            EventView::TelemetryOpened { handler_installed } => if handler_installed {
                (
                    LauncherView { stage: Stage::AwaitContext, ..self },
                    seq![
                        ActionView::ReadContext {
                            trace_variable: TRACE_ID_KEY@,
                            user_variable: USER_KEY@,
                        },
                    ],
                )
            } else {
                (
                    LauncherView { stage: Stage::AwaitChild, ..self },
                    seq![
                        ActionView::FlushTelemetry,
                        ActionView::Complain(SetupError::InterruptHandler),
                        self.run_child(None),
                    ],
                )
            },
            EventView::Context { inbound_trace, user } => {
                let trace_id = resolved(inbound_trace, fresh);
                let session = SessionView::create(self.program, self.args, trace_id);
                (
                    LauncherView { stage: Stage::AwaitChild, session: Some(session), ..self },
                    seq![
                        ActionView::StartTransaction {
                            name: session.label,
                            category: TRANSACTION_CATEGORY@,
                            trace_id,
                            user,
                        },
                        self.run_child(Some(trace_id)),
                    ],
                )
            },
            EventView::ChildExited(exit) => {
                let leave = seq![ActionView::Exit { code: exit_code_of(exit) }];
                match self.session {
                    Some(session) => (
                        LauncherView {
                            stage: Stage::Done,
                            session: Some(session.finish(exit).0),
                            ..self
                        },
                        closing(session.finish(exit).1, true) + leave,
                    ),
                    None => (LauncherView { stage: Stage::Done, ..self }, leave),
                }
            },
            EventView::Released => match self.session {
                Some(session) => (
                    LauncherView {
                        stage: Stage::Done,
                        session: Some(session.release().0),
                        ..self
                    },
                    closing(session.release().1, self.telemetry_open()),
                ),
                None => (
                    LauncherView { stage: Stage::Done, ..self },
                    closing(None, self.telemetry_open()),
                ),
            },
        }
    }
}

/// The actions that end telemetry: the report, if there is one, and the
/// flush, if the client is open.
pub open spec fn closing(report: Option<ReportView>, flush: bool) -> Seq<ActionView> {
    let reporting = match report {
        Some(r) => seq![ActionView::Report(r)],
        None => Seq::<ActionView>::empty(),
    };
    if flush {
        reporting + seq![ActionView::FlushTelemetry]
    } else {
        reporting
    }
}

} // verus!
