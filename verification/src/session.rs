//! The invocation session: one telemetry transaction around one run of a
//! command. A session is active from its creation until it is finished with
//! the child's exit status or released unfinished; either ends it exactly
//! once and yields the report that closes the transaction.

use crate::label::{command_label, label_of};
use crate::trace::{is_canonical, TraceId};
use vstd::prelude::*;
use vstd::string::StringExecFns;

verus! {

/// The category under which every transaction is registered.
pub const TRANSACTION_CATEGORY: &'static str = "ui.action";

/// How a session ended.
#[derive(Clone, Copy, Debug, PartialEq, Eq, Structural)]
pub enum Outcome {
    /// The command ran and exited with success.
    Success,
    /// The command ran and failed: a non-zero code, or ended by a signal.
    Failure,
    /// The session was released before the command's exit was reported.
    Abandoned,
}

/// The status a transaction is closed with.
#[derive(Clone, Copy, Debug, PartialEq, Eq, Structural)]
pub enum SpanStatus {
    Okay,
    UnknownError,
}

/// The severity of a captured message.
#[derive(Clone, Copy, Debug, PartialEq, Eq, Structural)]
pub enum Level {
    Info,
    Warning,
    Error,
}

/// How the child ended: its exit code, if it has one, and the status as the
/// platform writes it.
#[derive(Debug, PartialEq, Eq)]
pub struct ChildExit {
    pub code: Option<i32>,
    pub rendering: String,
}

/// The model of a [`ChildExit`].
pub struct ChildExitView {
    pub code: Option<i32>,
    pub rendering: Seq<char>,
}

impl ChildExitView {
    /// The child exited with code 0.
    pub open spec fn success(self) -> bool {
        self.code == Some(0i32)
    }
}

impl View for ChildExit {
    type V = ChildExitView;

    open spec fn view(&self) -> ChildExitView {
        ChildExitView { code: self.code, rendering: self.rendering@ }
    }
}

impl DeepView for ChildExit {
    type V = ChildExitView;

    open spec fn deep_view(&self) -> ChildExitView {
        self@
    }
}

/// What closes a transaction: its status, and the message to capture with
/// its severity.
#[derive(Debug, PartialEq, Eq)]
pub struct Report {
    pub status: SpanStatus,
    pub level: Level,
    pub message: String,
}

/// The model of a [`Report`].
pub struct ReportView {
    pub status: SpanStatus,
    pub level: Level,
    pub message: Seq<char>,
}

impl View for Report {
    type V = ReportView;

    open spec fn view(&self) -> ReportView {
        ReportView { status: self.status, level: self.level, message: self.message@ }
    }
}

impl DeepView for Report {
    type V = ReportView;

    open spec fn deep_view(&self) -> ReportView {
        self@
    }
}

/// The report on a command that exited with success.
pub open spec fn success_report(label: Seq<char>, rendering: Seq<char>) -> ReportView {
    ReportView {
        status: SpanStatus::Okay,
        level: Level::Info,
        message: label + " succeeded ("@ + rendering + ")"@,
    }
}

/// The report on a command that failed.
pub open spec fn failure_report(label: Seq<char>, rendering: Seq<char>) -> ReportView {
    ReportView {
        status: SpanStatus::UnknownError,
        level: Level::Warning,
        message: label + " failed ("@ + rendering + ")"@,
    }
}

/// The report on a session released unfinished.
pub open spec fn abandoned_report(label: Seq<char>) -> ReportView {
    ReportView {
        status: SpanStatus::UnknownError,
        level: Level::Error,
        message: label + " did not exit"@,
    }
}

/// The outcome that an exit status stands for.
pub open spec fn outcome_of(exit: ChildExitView) -> Outcome {
    if exit.success() {
        Outcome::Success
    } else {
        Outcome::Failure
    }
}

/// The report on a command that ended with `exit`.
pub open spec fn exit_report(label: Seq<char>, exit: ChildExitView) -> ReportView {
    if exit.success() {
        success_report(label, exit.rendering)
    } else {
        failure_report(label, exit.rendering)
    }
}

/// The model of a [`Session`].
pub struct SessionView {
    /// The label of the command, which names the transaction.
    pub label: Seq<char>,
    /// The trace identifier, as it is written.
    pub trace_id: Seq<char>,
    /// How the session ended; `None` while it is active.
    pub outcome: Option<Outcome>,
}

impl SessionView {
    /// The trace identifier is one.
    pub open spec fn wf(self) -> bool {
        is_canonical(self.trace_id)
    }

    /// A session as it is created.
    pub open spec fn create(
        program: Seq<char>,
        args: Seq<Seq<char>>,
        trace_id: Seq<char>,
    ) -> SessionView {
        SessionView { label: label_of(program, args), trace_id, outcome: None }
    }

    /// The session has not ended.
    pub open spec fn is_active(self) -> bool {
        self.outcome is None
    }

    /// The session after the child's exit is reported to it, and the report
    /// that closes the transaction. An ended session stays as it is and
    /// reports nothing.
    pub open spec fn finish(self, exit: ChildExitView) -> (SessionView, Option<ReportView>) {
        if self.is_active() {
            (
                SessionView { outcome: Some(outcome_of(exit)), ..self },
                Some(exit_report(self.label, exit)),
            )
        } else {
            (self, None)
        }
    }

    /// The session after it is released, and the report that closes the
    /// transaction where the session was still active.
    pub open spec fn release(self) -> (SessionView, Option<ReportView>) {
        if self.is_active() {
            (
                SessionView { outcome: Some(Outcome::Abandoned), ..self },
                Some(abandoned_report(self.label)),
            )
        } else {
            (self, None)
        }
    }
}

/// An invocation session.
pub struct Session {
    label: String,
    trace_id: TraceId,
    outcome: Option<Outcome>,
}

impl View for Session {
    type V = SessionView;

    closed spec fn view(&self) -> SessionView {
        SessionView { label: self.label@, trace_id: self.trace_id@, outcome: self.outcome }
    }
}

impl DeepView for Session {
    type V = SessionView;

    open spec fn deep_view(&self) -> SessionView {
        self@
    }
}

impl Session {
    /// An active session for `program` run with `args` under `trace_id`.
    pub fn new(program: &str, args: &Vec<String>, trace_id: TraceId) -> (session: Session)
        ensures
            session@ == SessionView::create(program@, args.deep_view(), trace_id@),
            session@.wf(),
    {
        proof {
            use_type_invariant(&trace_id);
        }
        Session { label: command_label(program, args), trace_id, outcome: None }
    }

    /// The label of the command.
    pub fn command_label(&self) -> (label: &str)
        ensures
            label@ == self@.label,
    {
        self.label.as_str()
    }

    /// The trace identifier.
    pub fn trace_id(&self) -> (id: &TraceId)
        ensures
            id@ == self@.trace_id,
            id.wf(),
    {
        proof {
            use_type_invariant(&self.trace_id);
        }
        &self.trace_id
    }

    /// How the session ended; `None` while it is active.
    pub fn outcome(&self) -> (outcome: Option<Outcome>)
        ensures
            outcome == self@.outcome,
    {
        self.outcome
    }

    /// Whether the session has not ended.
    pub fn is_active(&self) -> (active: bool)
        ensures
            active == self@.is_active(),
    {
        self.outcome.is_none()
    }

    /// Ends an active session with the child's exit status and hands back
    /// the report that closes its transaction: status `Okay` and an
    /// informational message where the child exited with success, status
    /// `UnknownError` and a warning otherwise. A session that has ended is
    /// left as it is, and there is no report.
    pub fn finish(&mut self, exit: &ChildExit) -> (report: Option<Report>)
        ensures
            (final(self)@, report.deep_view()) == old(self)@.finish(exit@),
    {
        if self.outcome.is_some() {
            return None;
        }
        let mut message = self.label.clone();
        let report = if exit.code == Some(0) {
            self.outcome = Some(Outcome::Success);
            message.append(" succeeded (");
            message.append(exit.rendering.as_str());
            message.append(")");
            Report { status: SpanStatus::Okay, level: Level::Info, message }
        } else {
            self.outcome = Some(Outcome::Failure);
            message.append(" failed (");
            message.append(exit.rendering.as_str());
            message.append(")");
            Report { status: SpanStatus::UnknownError, level: Level::Warning, message }
        };
        Some(report)
    }

    /// Releases the session. Where it is still active it ends as abandoned,
    /// and the report closes its transaction with status `UnknownError` and
    /// an error message. A session that has ended is left as it is, and
    /// there is no report.
    pub fn release(&mut self) -> (report: Option<Report>)
        ensures
            (final(self)@, report.deep_view()) == old(self)@.release(),
    {
        if self.outcome.is_some() {
            return None;
        }
        self.outcome = Some(Outcome::Abandoned);
        let mut message = self.label.clone();
        message.append(" did not exit");
        Some(Report { status: SpanStatus::UnknownError, level: Level::Error, message })
    }
}

} // verus!
