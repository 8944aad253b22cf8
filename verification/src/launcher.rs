//! The launcher: the protocol's state, held for one run of one command.

use crate::config::{sink_variable, SetupError, USER_KEY};
use crate::protocol::{Action, Event, LauncherView, Stage};
use crate::runs::{lemma_take_keeps_inv, Input};
use crate::session::{Session, TRANSACTION_CATEGORY};
use crate::trace::{is_canonical, resolved, TraceId, TRACE_ID_KEY};
use vstd::prelude::*;
use vstd::string::StringExecFns;

verus! {

/// A launcher.
pub struct Launcher {
    program: String,
    args: Vec<String>,
    stage: Stage,
    session: Option<Session>,
}

impl View for Launcher {
    type V = LauncherView;

    closed spec fn view(&self) -> LauncherView {
        LauncherView {
            program: self.program@,
            args: self.args.deep_view(),
            stage: self.stage,
            session: self.session.deep_view(),
        }
    }
}

/// A copy of `args`.
fn copy_of(args: &Vec<String>) -> (copy: Vec<String>)
    ensures
        copy.deep_view() == args.deep_view(),
{
    let mut copy: Vec<String> = Vec::new();
    let mut i: usize = 0;
    while i < args.len()
        invariant
            i <= args.len(),
            copy.len() == i,
            forall|k: int| 0 <= k < i ==> copy[k]@ == args[k]@,
        decreases args.len() - i,
    {
        copy.push(args[i].clone());
        i = i + 1;
    }
    assert(copy.deep_view() =~= args.deep_view());
    copy
}

impl Launcher {
    /// A launcher for `program` with `args`, and what its caller does first:
    /// read the sink address from the variable of the build, the sandbox's
    /// where `debug` holds.
    pub fn new(program: String, args: Vec<String>, debug: bool) -> (start: (Launcher, Vec<Action>))
        ensures
            start.0@ == LauncherView::start(program@, args.deep_view()),
            start.0@.inv(),
            start.1.deep_view() == LauncherView::first_actions(debug),
    {
        let launcher = Launcher { program, args, stage: Stage::AwaitSinkAddress, session: None };
        let mut actions: Vec<Action> = Vec::new();
        actions.push(Action::ReadSinkAddress { variable: String::from_str(sink_variable(debug)) });
        assert(actions.deep_view() =~= LauncherView::first_actions(debug));
        (launcher, actions)
    }

    /// What the launcher waits for.
    pub fn stage(&self) -> (stage: Stage)
        ensures
            stage == self@.stage,
    {
        self.stage
    }

    /// The session, once it has been created.
    pub fn session(&self) -> (session: Option<&Session>)
        ensures
            session.deep_view() == self@.session,
    {
        self.session.as_ref()
    }

    /// The action that runs the child, under `trace_id` if there is one.
    fn run_child(&self, trace_id: Option<&TraceId>) -> (action: Action)
        ensures
            action@ == self@.run_child(trace_id.deep_view()),
    {
        let environment = match trace_id {
            Some(id) => Some((String::from_str(TRACE_ID_KEY), String::from_str(id.as_str()))),
            None => None,
        };
        Action::RunChild { program: self.program.clone(), args: copy_of(&self.args), environment }
    }

    /// Takes `event` and says what the caller does next. An event that the
    /// launcher does not take at its stage is refused: the answer is `None`
    /// and the launcher stays as it is.
    pub fn step(&mut self, event: Event) -> (actions: Option<Vec<Action>>)
        ensures
            actions is Some <==> old(self)@.accepts(event@),
            actions is None ==> final(self)@ == old(self)@,
            old(self)@.inv() ==> final(self)@.inv(),
            actions matches Some(list) ==> exists|fresh: Seq<char>|
                is_canonical(fresh) && (final(self)@, list.deep_view()) == #[trigger] old(
                    self,
                )@.next(event@, fresh),
    {
        let ghost before = self@;
        let ghost seen = event@;
        let ghost spare = spare_text();
        proof {
            lemma_spare_text();
        }
        proof {
            if before.inv() {
                lemma_take_keeps_inv(before, Input { event: seen, fresh: spare });
            }
        }
        let mut list: Vec<Action> = Vec::new();
        match event {
            Event::SinkAddress(found) => {
                if self.stage != Stage::AwaitSinkAddress {
                    return None;
                }
                match found {
                    Some(sink) => {
                        self.stage = Stage::AwaitTelemetry;
                        list.push(Action::OpenTelemetry { sink });
                    },
                    None => {
                        self.stage = Stage::AwaitChild;
                        list.push(Action::Complain(SetupError::SinkAddressNotSet));
                        list.push(self.run_child(None));
                    },
                }
                assert(list.deep_view() =~= before.next(seen, spare).1);
                assert((self@, list.deep_view()) == before.next(seen, spare));
            },
            Event::TelemetryOpened { handler_installed } => {
                if self.stage != Stage::AwaitTelemetry {
                    return None;
                }
                if handler_installed {
                    self.stage = Stage::AwaitContext;
                    list.push(
                        Action::ReadContext {
                            trace_variable: String::from_str(TRACE_ID_KEY),
                            user_variable: String::from_str(USER_KEY),
                        },
                    );
                } else {
                    self.stage = Stage::AwaitChild;
                    list.push(Action::FlushTelemetry);
                    list.push(Action::Complain(SetupError::InterruptHandler));
                    list.push(self.run_child(None));
                }
                assert(list.deep_view() =~= before.next(seen, spare).1);
                assert((self@, list.deep_view()) == before.next(seen, spare));
            },
            Event::Context { inbound_trace, user } => {
                if self.stage != Stage::AwaitContext {
                    return None;
                }
                let trace_id = TraceId::resolve(&inbound_trace);
                let ghost fresh = choose|fresh: Seq<char>|
                    is_canonical(fresh) && trace_id@ == #[trigger] resolved(
                        inbound_trace.deep_view(),
                        fresh,
                    );
                let run = self.run_child(Some(&trace_id));
                let session = Session::new(self.program.as_str(), &self.args, trace_id.clone());
                list.push(
                    Action::StartTransaction {
                        name: String::from_str(session.command_label()),
                        category: String::from_str(TRANSACTION_CATEGORY),
                        trace_id,
                        user,
                    },
                );
                list.push(run);
                self.stage = Stage::AwaitChild;
                self.session = Some(session);
                assert(list.deep_view() =~= before.next(seen, fresh).1);
                assert((self@, list.deep_view()) == before.next(seen, fresh));
                proof {
                    if before.inv() {
                        lemma_take_keeps_inv(before, Input { event: seen, fresh });
                    }
                }
            },
            Event::ChildExited(exit) => {
                if self.stage != Stage::AwaitChild {
                    return None;
                }
                match &mut self.session {
                    Some(session) => {
                        match session.finish(&exit) {
                            Some(report) => {
                                list.push(Action::Report(report));
                            },
                            None => {},
                        }
                        list.push(Action::FlushTelemetry);
                    },
                    None => {},
                }
                let code = match exit.code {
                    Some(code) => code,
                    None => 0,
                };
                list.push(Action::Exit { code });
                self.stage = Stage::Done;
                assert(list.deep_view() =~= before.next(seen, spare).1);
                assert((self@, list.deep_view()) == before.next(seen, spare));
            },
            Event::Released => {
                let flush = match self.stage {
                    Stage::AwaitTelemetry | Stage::AwaitContext => true,
                    Stage::AwaitChild => self.session.is_some(),
                    _ => false,
                };
                match &mut self.session {
                    Some(session) => {
                        match session.release() {
                            Some(report) => {
                                list.push(Action::Report(report));
                            },
                            None => {},
                        }
                    },
                    None => {},
                }
                if flush {
                    list.push(Action::FlushTelemetry);
                }
                self.stage = Stage::Done;
                assert(list.deep_view() =~= before.next(seen, spare).1);
                assert((self@, list.deep_view()) == before.next(seen, spare));
            },
        }
        Some(list)
    }
}

/// An identifier's text, to stand where none is drawn.
spec fn spare_text() -> Seq<char> {
    Seq::new(32, |i: int| '0')
}

proof fn lemma_spare_text()
    ensures
        is_canonical(spare_text()),
{
}

} // verus!
