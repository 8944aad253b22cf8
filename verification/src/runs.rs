//! What holds of every run of the protocol: the child runs whether or not a
//! session could be created, the launcher exits with the child's code, the
//! trace identifier reaches the child as the session holds it, and a
//! transaction that was started is closed exactly once.

use crate::config::{SetupError, USER_KEY};
use crate::label::label_of;
use crate::protocol::{closing, exit_code_of, ActionView, EventView, LauncherView, Stage};
use crate::session::{exit_report, ChildExitView, SessionView, TRANSACTION_CATEGORY};
use crate::trace::{
    is_canonical, lemma_canonical_form, lemma_written_reads_back, parsed, resolved, TRACE_ID_KEY,
};
use vstd::prelude::*;

verus! {

/// An event, with the identifier that a new trace would get when it comes.
pub struct Input {
    pub event: EventView,
    pub fresh: Seq<char>,
}

/// How many of `actions` start a transaction.
pub open spec fn starts(actions: Seq<ActionView>) -> nat
    decreases actions.len(),
{
    if actions.len() == 0 {
        0
    } else {
        let before = starts(actions.drop_last());
        if actions.last() is StartTransaction {
            before + 1
        } else {
            before
        }
    }
}

/// How many of `actions` close a transaction.
pub open spec fn reports(actions: Seq<ActionView>) -> nat
    decreases actions.len(),
{
    if actions.len() == 0 {
        0
    } else {
        let before = reports(actions.drop_last());
        if actions.last() is Report {
            before + 1
        } else {
            before
        }
    }
}

/// How many of `actions` run the child.
pub open spec fn child_runs(actions: Seq<ActionView>) -> nat
    decreases actions.len(),
{
    if actions.len() == 0 {
        0
    } else {
        let before = child_runs(actions.drop_last());
        if actions.last() is RunChild {
            before + 1
        } else {
            before
        }
    }
}

/// There is a session, and it has ended.
pub open spec fn has_ended(session: Option<SessionView>) -> bool {
    match session {
        Some(s) => !s.is_active(),
        None => false,
    }
}

impl LauncherView {
    /// The stage and the session fit together: a session that is active
    /// waits for the child, and one that has ended belongs to a run that is
    /// over. The session, if there is one, is that of the launcher's command
    /// and holds a trace identifier.
    pub open spec fn inv(self) -> bool {
        match self.session {
            Some(session) => {
                &&& session.wf()
                &&& session.label == label_of(self.program, self.args)
                &&& if session.is_active() {
                    self.stage == Stage::AwaitChild
                } else {
                    self.stage == Stage::Done
                }
            },
            None => true,
        }
    }

    /// The launcher after `input`, and what the caller does next. An event
    /// that the launcher does not accept changes nothing.
    pub open spec fn take(self, input: Input) -> (LauncherView, Seq<ActionView>) {
        if self.accepts(input.event) {
            self.next(input.event, input.fresh)
        } else {
            (self, Seq::empty())
        }
    }

    /// The launcher after `inputs`, in order, and all that the caller was
    /// told to do, in order.
    pub open spec fn run(self, inputs: Seq<Input>) -> (LauncherView, Seq<ActionView>)
        decreases inputs.len(),
    {
        if inputs.len() == 0 {
            (self, Seq::empty())
        } else {
            let (launcher, done) = self.run(inputs.drop_last());
            let (end, actions) = launcher.take(inputs.last());
            (end, done + actions)
        }
    }
}

/// A launcher starts in a state that fits together.
pub proof fn lemma_start_inv(program: Seq<char>, args: Seq<Seq<char>>)
    ensures
        LauncherView::start(program, args).inv(),
{
}

/// Every step keeps the stage and the session fitting together, and leaves
/// the program and its arguments alone.
pub proof fn lemma_take_keeps_inv(launcher: LauncherView, input: Input)
    requires
        launcher.inv(),
        is_canonical(input.fresh),
    ensures
        launcher.take(input).0.inv(),
        launcher.take(input).0.program == launcher.program,
        launcher.take(input).0.args == launcher.args,
{
    if launcher.accepts(input.event) {
        match input.event {
            EventView::Context { inbound_trace, user } => {
                if let Some(s) = inbound_trace {
                    if parsed(s) is Some {
                        lemma_canonical_form(s);
                    }
                }
            },
            _ => {},
        }
    }
}

/// Where no session can be created, because the sink address is not set or
/// the interrupt handler cannot be installed, the launcher complains and
/// still has the child run, with its program and arguments and no variable
/// added. It starts no transaction, and comes to wait for the child.
pub proof fn lemma_failed_setup_runs_child(
    launcher: LauncherView,
    event: EventView,
    fresh: Seq<char>,
)
    requires
        launcher.inv(),
        launcher.accepts(event),
        event == EventView::SinkAddress(None) || event == (EventView::TelemetryOpened {
            handler_installed: false,
        }),
    ensures
        launcher.next(event, fresh).0.stage == Stage::AwaitChild,
        launcher.next(event, fresh).0.session is None,
        event == EventView::SinkAddress(None) ==> launcher.next(event, fresh).1 == seq![
            ActionView::Complain(SetupError::SinkAddressNotSet),
            ActionView::RunChild {
                program: launcher.program,
                args: launcher.args,
                environment: None,
            },
        ],
        event != EventView::SinkAddress(None) ==> launcher.next(event, fresh).1 == seq![
            ActionView::FlushTelemetry,
            ActionView::Complain(SetupError::InterruptHandler),
            ActionView::RunChild {
                program: launcher.program,
                args: launcher.args,
                environment: None,
            },
        ],
        starts(launcher.next(event, fresh).1) == 0,
        child_runs(launcher.next(event, fresh).1) == 1,
{
    reveal_with_fuel(starts, 4);
    reveal_with_fuel(child_runs, 4);
}

/// When the child has ended, the last thing the launcher asks for is to exit
/// with the child's code: with or without a session, and however the session
/// ended.
pub proof fn lemma_exit_code_is_the_childs(
    launcher: LauncherView,
    exit: ChildExitView,
    fresh: Seq<char>,
)
    requires
        launcher.accepts(EventView::ChildExited(exit)),
    ensures
        launcher.next(EventView::ChildExited(exit), fresh).1.last() == (ActionView::Exit {
            code: exit_code_of(exit),
        }),
        exit.code matches Some(code) ==> exit_code_of(exit) == code,
        launcher.next(EventView::ChildExited(exit), fresh).0.stage == Stage::Done,
{
}

/// A run that goes on by one input.
pub proof fn lemma_run_push(launcher: LauncherView, inputs: Seq<Input>, input: Input)
    ensures
        launcher.run(inputs.push(input)) == (
            launcher.run(inputs).0.take(input).0,
            launcher.run(inputs).1 + launcher.run(inputs).0.take(input).1,
        ),
{
    assert(inputs.push(input).drop_last() == inputs);
}

/// The whole of a run in which the sink address is not set: a complaint, the
/// child, and an exit with the child's code.
pub proof fn lemma_run_without_sink_address(
    program: Seq<char>,
    args: Seq<Seq<char>>,
    exit: ChildExitView,
    fresh: Seq<char>,
)
    ensures
        LauncherView::start(program, args).run(
            seq![
                Input { event: EventView::SinkAddress(None), fresh },
                Input { event: EventView::ChildExited(exit), fresh },
            ],
        ).1 == seq![
            ActionView::Complain(SetupError::SinkAddressNotSet),
            ActionView::RunChild { program, args, environment: None },
            ActionView::Exit { code: exit_code_of(exit) },
        ],
{
    let start = LauncherView::start(program, args);
    let first = Input { event: EventView::SinkAddress(None), fresh };
    let second = Input { event: EventView::ChildExited(exit), fresh };
    let none = Seq::<Input>::empty();
    lemma_run_push(start, none, first);
    lemma_run_push(start, none.push(first), second);
    assert(none.push(first).push(second) == seq![first, second]);
    assert(start.run(seq![first, second]).1 =~= seq![
        ActionView::Complain(SetupError::SinkAddressNotSet),
        ActionView::RunChild { program, args, environment: None },
        ActionView::Exit { code: exit_code_of(exit) },
    ]);
}

/// The whole of a run with a session: telemetry is opened, the context is
/// read, the transaction is started under the resolved identifier, the child
/// runs with that identifier in its environment, the transaction is closed
/// with the report on the child's exit, telemetry is flushed, and the
/// launcher exits with the child's code.
pub proof fn lemma_run_with_session(
    program: Seq<char>,
    args: Seq<Seq<char>>,
    sink: Seq<char>,
    inbound_trace: Option<Seq<char>>,
    user: Option<Seq<char>>,
    exit: ChildExitView,
    fresh: Seq<char>,
)
    ensures
        LauncherView::start(program, args).run(
            seq![
                Input { event: EventView::SinkAddress(Some(sink)), fresh },
                Input { event: EventView::TelemetryOpened { handler_installed: true }, fresh },
                Input { event: EventView::Context { inbound_trace, user }, fresh },
                Input { event: EventView::ChildExited(exit), fresh },
            ],
        ).1 == seq![
            ActionView::OpenTelemetry { sink },
            ActionView::ReadContext { trace_variable: TRACE_ID_KEY@, user_variable: USER_KEY@ },
            ActionView::StartTransaction {
                name: label_of(program, args),
                category: TRANSACTION_CATEGORY@,
                trace_id: resolved(inbound_trace, fresh),
                user,
            },
            ActionView::RunChild {
                program,
                args,
                environment: Some((TRACE_ID_KEY@, resolved(inbound_trace, fresh))),
            },
            ActionView::Report(exit_report(label_of(program, args), exit)),
            ActionView::FlushTelemetry,
            ActionView::Exit { code: exit_code_of(exit) },
        ],
{
    let start = LauncherView::start(program, args);
    let first = Input { event: EventView::SinkAddress(Some(sink)), fresh };
    let second = Input { event: EventView::TelemetryOpened { handler_installed: true }, fresh };
    let third = Input { event: EventView::Context { inbound_trace, user }, fresh };
    let fourth = Input { event: EventView::ChildExited(exit), fresh };
    let none = Seq::<Input>::empty();
    lemma_run_push(start, none, first);
    lemma_run_push(start, none.push(first), second);
    lemma_run_push(start, none.push(first).push(second), third);
    lemma_run_push(start, none.push(first).push(second).push(third), fourth);
    assert(none.push(first).push(second).push(third).push(fourth) == seq![
        first,
        second,
        third,
        fourth,
    ]);
    assert(start.run(seq![first, second, third, fourth]).1 =~= seq![
        ActionView::OpenTelemetry { sink },
        ActionView::ReadContext { trace_variable: TRACE_ID_KEY@, user_variable: USER_KEY@ },
        ActionView::StartTransaction {
            name: label_of(program, args),
            category: TRANSACTION_CATEGORY@,
            trace_id: resolved(inbound_trace, fresh),
            user,
        },
        ActionView::RunChild {
            program,
            args,
            environment: Some((TRACE_ID_KEY@, resolved(inbound_trace, fresh))),
        },
        ActionView::Report(exit_report(label_of(program, args), exit)),
        ActionView::FlushTelemetry,
        ActionView::Exit { code: exit_code_of(exit) },
    ]);
}

/// The session that is created holds the identifier that the inbound
/// variable denotes, and a new one where the variable is not set or denotes
/// none. The child is run with that identifier, as the session holds it,
/// under the variable's name.
pub proof fn lemma_trace_reaches_child(
    launcher: LauncherView,
    inbound_trace: Option<Seq<char>>,
    user: Option<Seq<char>>,
    fresh: Seq<char>,
)
    requires
        launcher.stage == Stage::AwaitContext,
    ensures
        ({
            let event = EventView::Context { inbound_trace, user };
            let (after, actions) = launcher.next(event, fresh);
            let trace_id = resolved(inbound_trace, fresh);
            &&& after.session == Some(
                SessionView::create(launcher.program, launcher.args, trace_id),
            )
            &&& actions.last() == (ActionView::RunChild {
                program: launcher.program,
                args: launcher.args,
                environment: Some((TRACE_ID_KEY@, trace_id)),
            })
            &&& trace_id == match inbound_trace {
                Some(s) => match parsed(s) {
                    Some(id) => id,
                    None => fresh,
                },
                None => fresh,
            }
        }),
{
}

/// A launcher that finds in its environment what another launcher's session
/// wrote there joins that session's trace.
pub proof fn lemma_nested_launcher_joins_trace(outer: SessionView, fresh: Seq<char>)
    requires
        outer.wf(),
    ensures
        resolved(Some(outer.trace_id), fresh) == outer.trace_id,
{
    lemma_written_reads_back(outer.trace_id);
}

/// The counts of a run that goes on are those of its parts.
proof fn lemma_counts_add(a: Seq<ActionView>, b: Seq<ActionView>)
    ensures
        starts(a + b) == starts(a) + starts(b),
        reports(a + b) == reports(a) + reports(b),
        child_runs(a + b) == child_runs(a) + child_runs(b),
    decreases b.len(),
{
    if b.len() == 0 {
        assert(a + b =~= a);
    } else {
        assert((a + b).drop_last() =~= a + b.drop_last());
        lemma_counts_add(a, b.drop_last());
    }
}

/// What one step adds to the counts: a transaction is started exactly where
/// a session is created, and closed exactly where a session ends; the child
/// is run exactly where the launcher comes to wait for it.
proof fn lemma_take_counts(launcher: LauncherView, input: Input)
    requires
        launcher.inv(),
    ensures
        ({
            let (after, actions) = launcher.take(input);
            &&& starts(actions) == if launcher.session is None && after.session is Some {
                1nat
            } else {
                0nat
            }
            &&& reports(actions) == if has_ended(after.session) && !has_ended(launcher.session) {
                1nat
            } else {
                0nat
            }
            &&& child_runs(actions) == if after.stage == Stage::AwaitChild && launcher.stage
                != Stage::AwaitChild {
                1nat
            } else {
                0nat
            }
            &&& launcher.session is Some ==> after.session is Some
            &&& has_ended(launcher.session) ==> after.session == launcher.session
            &&& launcher.stage == Stage::Done ==> after.stage == Stage::Done
        }),
{
    reveal_with_fuel(starts, 4);
    reveal_with_fuel(reports, 4);
    reveal_with_fuel(child_runs, 4);
    if launcher.accepts(input.event) {
        match input.event {
            EventView::ChildExited(exit) => {
                if let Some(session) = launcher.session {
                    let tail = seq![ActionView::Exit { code: exit_code_of(exit) }];
                    lemma_counts_add(closing(session.finish(exit).1, true), tail);
                }
            },
            _ => {},
        }
    }
}

/// In every run, at most one transaction is started, none is closed that
/// was not started, and none is closed twice; the child is run at most once,
/// and has been run once the launcher waits for it. Once the run is over,
/// the transaction that was started has been closed.
pub proof fn lemma_run_closes_what_it_starts(
    program: Seq<char>,
    args: Seq<Seq<char>>,
    inputs: Seq<Input>,
)
    requires
        forall|i: int| 0 <= i < inputs.len() ==> is_canonical(#[trigger] inputs[i].fresh),
    ensures
        ({
            let (end, actions) = LauncherView::start(program, args).run(inputs);
            &&& end.inv()
            &&& end.program == program
            &&& end.args == args
            &&& starts(actions) <= 1
            &&& reports(actions) <= starts(actions)
            &&& starts(actions) == 1 <==> end.session is Some
            &&& reports(actions) == 1 <==> has_ended(end.session)
            &&& end.stage == Stage::Done ==> reports(actions) == starts(actions)
            &&& child_runs(actions) <= 1
            &&& end.stage == Stage::AwaitChild ==> child_runs(actions) == 1
            &&& starts(actions) <= child_runs(actions)
        }),
    decreases inputs.len(),
{
    let start = LauncherView::start(program, args);
    if inputs.len() > 0 {
        let front = inputs.drop_last();
        lemma_run_closes_what_it_starts(program, args, front);
        let (launcher, done) = start.run(front);
        let (end, actions) = launcher.take(inputs.last());
        lemma_take_keeps_inv(launcher, inputs.last());
        lemma_take_counts(launcher, inputs.last());
        lemma_counts_add(done, actions);
        lemma_stage_tells_child_runs(program, args, front);
    }
}

/// Before the launcher waits for the child, the child has not been run.
proof fn lemma_stage_tells_child_runs(program: Seq<char>, args: Seq<Seq<char>>, inputs: Seq<Input>)
    requires
        forall|i: int| 0 <= i < inputs.len() ==> is_canonical(#[trigger] inputs[i].fresh),
    ensures
        ({
            let (end, actions) = LauncherView::start(program, args).run(inputs);
            end.stage != Stage::AwaitChild && end.stage != Stage::Done ==> child_runs(actions) == 0
        }),
    decreases inputs.len(),
{
    let start = LauncherView::start(program, args);
    if inputs.len() > 0 {
        let front = inputs.drop_last();
        lemma_stage_tells_child_runs(program, args, front);
        lemma_run_closes_what_it_starts(program, args, front);
        let (launcher, done) = start.run(front);
        let (end, actions) = launcher.take(inputs.last());
        lemma_take_counts(launcher, inputs.last());
        lemma_counts_add(done, actions);
    }
}

/// A run that ends with the launcher's release is over, whatever came
/// before, and the transaction that it started, if it started one, has been
/// closed exactly once.
pub proof fn lemma_released_run_has_closed(
    program: Seq<char>,
    args: Seq<Seq<char>>,
    inputs: Seq<Input>,
    fresh: Seq<char>,
)
    requires
        forall|i: int| 0 <= i < inputs.len() ==> is_canonical(#[trigger] inputs[i].fresh),
        is_canonical(fresh),
    ensures
        ({
            let last = Input { event: EventView::Released, fresh };
            let (end, actions) = LauncherView::start(program, args).run(inputs.push(last));
            &&& end.stage == Stage::Done
            &&& reports(actions) == starts(actions)
            &&& reports(actions) <= 1
        }),
{
    let last = Input { event: EventView::Released, fresh };
    let all = inputs.push(last);
    assert(all.drop_last() == inputs);
    lemma_run_closes_what_it_starts(program, args, all);
}

/// A session, once created, keeps its label and its trace identifier through
/// every step of the launcher.
pub proof fn lemma_take_keeps_session_identity(launcher: LauncherView, input: Input)
    requires
        launcher.inv(),
        launcher.session is Some,
    ensures
        launcher.take(input).0.session is Some,
        launcher.take(input).0.session->0.label == launcher.session->0.label,
        launcher.take(input).0.session->0.trace_id == launcher.session->0.trace_id,
{
}

} // verus!
