//! What holds of a session over its whole life: whatever is done to it, and
//! in whatever order, its transaction is closed at most once, and exactly
//! once if it is released at the end.

use crate::session::{
    abandoned_report, exit_report, failure_report, success_report, ChildExitView, Outcome,
    ReportView, SessionView,
};
use vstd::prelude::*;

verus! {

/// Something done to a session.
pub enum Operation {
    /// The child's exit is reported to it.
    Finish(ChildExitView),
    /// It is released.
    Release,
}

/// The reports of a step: the one report, or none.
pub open spec fn reported(report: Option<ReportView>) -> Seq<ReportView> {
    match report {
        Some(r) => seq![r],
        None => Seq::empty(),
    }
}

impl SessionView {
    /// The session after `op`, and the report that `op` yields.
    pub open spec fn apply(self, op: Operation) -> (SessionView, Option<ReportView>) {
        match op {
            Operation::Finish(exit) => self.finish(exit),
            Operation::Release => self.release(),
        }
    }

    /// The session after `ops`, done in order, and the reports that they
    /// yield, in order.
    pub open spec fn run(self, ops: Seq<Operation>) -> (SessionView, Seq<ReportView>)
        decreases ops.len(),
    {
        if ops.len() == 0 {
            (self, Seq::empty())
        } else {
            let (session, reports) = self.run(ops.drop_last());
            let (end, report) = session.apply(ops.last());
            (end, reports + reported(report))
        }
    }
}

/// No operation is a `Finish`.
pub open spec fn never_finished(ops: Seq<Operation>) -> bool {
    forall|i: int| 0 <= i < ops.len() ==> ops[i] is Release
}

/// The message on a success and the message on a failure differ, whatever
/// the label and the status.
pub proof fn lemma_messages_differ(label: Seq<char>, rendering: Seq<char>)
    ensures
        success_report(label, rendering).message != failure_report(label, rendering).message,
{
    reveal_strlit(" succeeded (");
    reveal_strlit(" failed (");
    let succeeded = success_report(label, rendering).message;
    let failed = failure_report(label, rendering).message;
    let at = label.len() as int + 1;
    assert(succeeded[at] == 's');
    assert(failed[at] == 'f');
}

/// Finishing an active session yields exactly one of the two reports: the
/// one on a success where the child exited with code 0, the one on a failure
/// otherwise, and never both.
pub proof fn lemma_finish_reports_one_kind(session: SessionView, exit: ChildExitView)
    requires
        session.is_active(),
    ensures
        session.finish(exit).1 == Some(exit_report(session.label, exit)),
        exit.success() <==> session.finish(exit).1 == Some(
            success_report(session.label, exit.rendering),
        ),
        !exit.success() <==> session.finish(exit).1 == Some(
            failure_report(session.label, exit.rendering),
        ),
{
    lemma_messages_differ(session.label, exit.rendering);
}

/// No operation changes a session's label or its trace identifier.
pub proof fn lemma_run_keeps_identity(session: SessionView, ops: Seq<Operation>)
    ensures
        session.run(ops).0.label == session.label,
        session.run(ops).0.trace_id == session.trace_id,
    decreases ops.len(),
{
    if ops.len() > 0 {
        lemma_run_keeps_identity(session, ops.drop_last());
    }
}

/// An active session yields one report as it ends and none before or after;
/// a session that has ended yields none.
pub proof fn lemma_run_reports_at_most_once(session: SessionView, ops: Seq<Operation>)
    ensures
        !session.is_active() ==> session.run(ops) == (session, Seq::<ReportView>::empty()),
        session.is_active() && session.run(ops).0.is_active() ==> session.run(ops).1.len() == 0,
        session.is_active() && !session.run(ops).0.is_active() ==> session.run(ops).1.len() == 1,
    decreases ops.len(),
{
    if ops.len() > 0 {
        lemma_run_reports_at_most_once(session, ops.drop_last());
        let (mid, reports) = session.run(ops.drop_last());
        let (end, report) = mid.apply(ops.last());
        if !session.is_active() {
            assert(reports + reported(report) =~= Seq::<ReportView>::empty());
        }
    }
}

/// A session that is released at the end of its life has yielded exactly one
/// report, whatever was done to it before.
pub proof fn lemma_released_session_reported_once(session: SessionView, ops: Seq<Operation>)
    requires
        session.is_active(),
    ensures
        session.run(ops.push(Operation::Release)).1.len() == 1,
        !session.run(ops.push(Operation::Release)).0.is_active(),
{
    let all = ops.push(Operation::Release);
    assert(all.drop_last() == ops);
    lemma_run_reports_at_most_once(session, all);
}

/// A session that is released without ever having been finished ends as
/// abandoned, and its one report is the one on an abandoned session.
pub proof fn lemma_unfinished_session_is_abandoned(session: SessionView, ops: Seq<Operation>)
    requires
        session.is_active(),
        ops.len() > 0,
        never_finished(ops),
    ensures
        session.run(ops).0.outcome == Some(Outcome::Abandoned),
        session.run(ops).1 == seq![abandoned_report(session.label)],
    decreases ops.len(),
{
    let front = ops.drop_last();
    assert(ops.last() is Release);
    if front.len() == 0 {
        assert(session.run(front) == (session, Seq::<ReportView>::empty()));
        assert(session.run(ops).1 =~= seq![abandoned_report(session.label)]);
    } else {
        lemma_unfinished_session_is_abandoned(session, front);
        assert(session.run(ops).1 =~= seq![abandoned_report(session.label)]);
    }
}

} // verus!
