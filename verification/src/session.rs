//! Whole operations: where one stands after a run of answers, what it asked
//! of the store on the way, and what follows from that for each of the five.

use vstd::prelude::*;
use crate::db::{
    creation_start,
    DatabaseErrorView,
    EventView,
    OperationView,
    OutcomeView,
    ProgressView,
    StepView,
};
use crate::models::{flag_of, rows_tasks, title_accepted, title_complaint};

verus! {

/// Where an operation that stood at `start` stands after the store's
/// `answers`, taken in turn. Answers that come after the end, or after one
/// that does not fit the step it answers, are not looked at.
pub open spec fn run(start: ProgressView, answers: Seq<EventView>) -> ProgressView
    decreases answers.len(),
{
    match start {
        ProgressView::Pending(step) if answers.len() > 0 && step.expects(answers[0]) => run(
            step.after(answers[0]),
            answers.drop_first(),
        ),
        _ => start,
    }
}

/// The steps that an operation which stood at `start` asks of the store,
/// in turn, while the store gives it `answers`.
pub open spec fn asked(start: ProgressView, answers: Seq<EventView>) -> Seq<StepView>
    decreases answers.len(),
{
    match start {
        ProgressView::Pending(step) => if answers.len() > 0 && step.expects(answers[0]) {
            seq![step] + asked(step.after(answers[0]), answers.drop_first())
        } else {
            seq![step]
        },
        ProgressView::Finished(_) => seq![],
    }
}

/// How each operation starts once its arguments are accepted.
pub open spec fn start_of(operation: OperationView) -> ProgressView {
    ProgressView::Pending(StepView::Open(operation))
}

/// A failure ends the operation at whatever step it strikes: the result is
/// the failure in the store's or the system's own words, and nothing more
/// is asked of the store, so that nothing begun is committed.
pub proof fn failure_ends_operation(step: StepView, event: EventView, later: Seq<EventView>)
    requires
        step.expects(event),
        event.is_failure(),
    ensures
        event matches EventView::StoreFailed(words) ==> run(
            ProgressView::Pending(step),
            seq![event] + later,
        ) == ProgressView::Finished(Err(DatabaseErrorView::Rusqlite(words))),
        event matches EventView::IoFailed(words) ==> run(
            ProgressView::Pending(step),
            seq![event] + later,
        ) == ProgressView::Finished(Err(DatabaseErrorView::Io(words))),
        asked(ProgressView::Pending(step), seq![event] + later) == seq![step],
{
    let answers = seq![event] + later;
    assert(answers[0] == event);
    reveal_with_fuel(run, 2);
    reveal_with_fuel(asked, 2);
    assert(asked(ProgressView::Pending(step), answers) =~= seq![step]);
}

/// A title that breaks a rule ends the creation before it starts: whatever
/// the store would answer, the result is the complaint and the store is
/// asked nothing.
pub proof fn rejected_title_asks_nothing(title: Seq<char>, answers: Seq<EventView>)
    requires
        !title_accepted(title),
    ensures
        title_complaint(title) is Some,
        run(creation_start(title), answers) == ProgressView::Finished(
            Err(DatabaseErrorView::Validation(title_complaint(title)->0)),
        ),
        asked(creation_start(title), answers).len() == 0,
{
}

/// A creation that succeeds has opened the store, begun a transaction,
/// stored the title, read back the row under the id that the store gave
/// it, and committed, in this order and nothing else; and what it returns is
/// the row that was read back, not the request.
pub proof fn creation_returns_the_row_read_back(
    title: Seq<char>,
    answers: Seq<EventView>,
    outcome: OutcomeView,
)
    requires
        run(creation_start(title), answers) == ProgressView::Finished(Ok(outcome)),
    ensures
        title_accepted(title),
        answers.len() >= 5,
        answers[2] is Inserted,
        answers[3] is Row,
        outcome == OutcomeView::Task(answers[3]->Row_0.task()),
        asked(creation_start(title), answers) == seq![
            StepView::Open(OperationView::Create { title }),
            StepView::BeginCreate { title },
            StepView::Insert { title },
            StepView::SelectOne { id: answers[2]->Inserted_0 },
            StepView::Commit { task: answers[3]->Row_0.task() },
        ],
{
    reveal_with_fuel(run, 7);
    reveal_with_fuel(asked, 7);
    let a1 = answers.drop_first();
    let a2 = a1.drop_first();
    let a3 = a2.drop_first();
    let a4 = a3.drop_first();
    assert(answers.len() >= 5);
    assert(a1[0] == answers[1] && a2[0] == answers[2] && a3[0] == answers[3] && a4[0] == answers[4]);
    assert(asked(creation_start(title), answers) =~= seq![
        StepView::Open(OperationView::Create { title }),
        StepView::BeginCreate { title },
        StepView::Insert { title },
        StepView::SelectOne { id: answers[2]->Inserted_0 },
        StepView::Commit { task: answers[3]->Row_0.task() },
    ]);
}

/// A change of flag that succeeds has opened the store, begun a
/// transaction, set the flag of the task with that id to 1 for done and 0
/// for open, seen a row change, read the row back and committed, in this
/// order and nothing else; and what it returns is the row that was read
/// back.
pub proof fn update_returns_the_row_read_back(
    id: i64,
    done: bool,
    answers: Seq<EventView>,
    outcome: OutcomeView,
)
    requires
        run(start_of(OperationView::SetStatus { id, done }), answers) == ProgressView::Finished(
            Ok(outcome),
        ),
    ensures
        answers.len() >= 5,
        answers[2] is Changed,
        answers[2]->Changed_0 > 0,
        answers[3] is Row,
        outcome == OutcomeView::Task(answers[3]->Row_0.task()),
        asked(start_of(OperationView::SetStatus { id, done }), answers) == seq![
            StepView::Open(OperationView::SetStatus { id, done }),
            StepView::BeginUpdate { id, done },
            StepView::SetDone { done: flag_of(done), id },
            StepView::SelectOne { id },
            StepView::Commit { task: answers[3]->Row_0.task() },
        ],
{
    reveal_with_fuel(run, 7);
    reveal_with_fuel(asked, 7);
    let a1 = answers.drop_first();
    let a2 = a1.drop_first();
    let a3 = a2.drop_first();
    let a4 = a3.drop_first();
    assert(answers.len() >= 5);
    assert(a1[0] == answers[1] && a2[0] == answers[2] && a3[0] == answers[3] && a4[0] == answers[4]);
    assert(asked(start_of(OperationView::SetStatus { id, done }), answers) =~= seq![
        StepView::Open(OperationView::SetStatus { id, done }),
        StepView::BeginUpdate { id, done },
        StepView::SetDone { done: flag_of(done), id },
        StepView::SelectOne { id },
        StepView::Commit { task: answers[3]->Row_0.task() },
    ]);
}

/// A change of flag fails as not found exactly when the statement changed
/// no row. The error then carries the id that was asked for, and the
/// operation has asked for no commit, so the store is left as it was.
pub proof fn update_of_a_missing_task(id: i64, done: bool, answers: Seq<EventView>)
    ensures
        (exists|missing: i64|
            run(start_of(OperationView::SetStatus { id, done }), answers)
                == ProgressView::Finished(Err(DatabaseErrorView::TaskNotFound(missing)))) <==> (
        answers.len() >= 3 && answers[0] is Completed && answers[1] is Completed && answers[2]
            == EventView::Changed(0)),
        answers.len() >= 3 && answers[0] is Completed && answers[1] is Completed && answers[2]
            == EventView::Changed(0) ==> {
            &&& run(start_of(OperationView::SetStatus { id, done }), answers)
                == ProgressView::Finished(Err(DatabaseErrorView::TaskNotFound(id)))
            &&& asked(start_of(OperationView::SetStatus { id, done }), answers) == seq![
                StepView::Open(OperationView::SetStatus { id, done }),
                StepView::BeginUpdate { id, done },
                StepView::SetDone { done: flag_of(done), id },
            ]
        },
{
    reveal_with_fuel(run, 7);
    reveal_with_fuel(asked, 7);
    let a1 = answers.drop_first();
    let a2 = a1.drop_first();
    let a3 = a2.drop_first();
    let a4 = a3.drop_first();
    if answers.len() >= 3 {
        assert(a1[0] == answers[1] && a2[0] == answers[2]);
    }
    if answers.len() >= 3 && answers[0] is Completed && answers[1] is Completed && answers[2]
        == EventView::Changed(0) {
        assert(asked(start_of(OperationView::SetStatus { id, done }), answers) =~= seq![
            StepView::Open(OperationView::SetStatus { id, done }),
            StepView::BeginUpdate { id, done },
            StepView::SetDone { done: flag_of(done), id },
        ]);
    }
}

/// A removal that succeeds has opened the store and removed the task with
/// that id, seeing a row change, and nothing else.
pub proof fn deletion_succeeds_when_a_row_changed(
    id: i64,
    answers: Seq<EventView>,
    outcome: OutcomeView,
)
    requires
        run(start_of(OperationView::Delete { id }), answers) == ProgressView::Finished(Ok(outcome)),
    ensures
        outcome == OutcomeView::Nothing,
        answers.len() >= 2,
        answers[1] is Changed,
        answers[1]->Changed_0 > 0,
        asked(start_of(OperationView::Delete { id }), answers) == seq![
            StepView::Open(OperationView::Delete { id }),
            StepView::DeleteOne { id },
        ],
{
    reveal_with_fuel(run, 4);
    reveal_with_fuel(asked, 4);
    let a1 = answers.drop_first();
    assert(answers.len() >= 2);
    assert(a1[0] == answers[1]);
    assert(asked(start_of(OperationView::Delete { id }), answers) =~= seq![
        StepView::Open(OperationView::Delete { id }),
        StepView::DeleteOne { id },
    ]);
}

/// A removal fails as not found exactly when the statement changed no row,
/// and the error then carries the id that was asked for.
pub proof fn deletion_of_a_missing_task(id: i64, answers: Seq<EventView>)
    ensures
        (exists|missing: i64|
            run(start_of(OperationView::Delete { id }), answers) == ProgressView::Finished(
                Err(DatabaseErrorView::TaskNotFound(missing)),
            )) <==> (answers.len() >= 2 && answers[0] is Completed && answers[1] == EventView::Changed(
            0,
        )),
        answers.len() >= 2 && answers[0] is Completed && answers[1] == EventView::Changed(0) ==> run(
            start_of(OperationView::Delete { id }),
            answers,
        ) == ProgressView::Finished(Err(DatabaseErrorView::TaskNotFound(id))),
{
    reveal_with_fuel(run, 4);
    let a1 = answers.drop_first();
    if answers.len() >= 2 {
        assert(a1[0] == answers[1]);
    }
}

/// A listing that succeeds has opened the store and read every task, and
/// nothing else; what it returns are the rows it was given, decoded one
/// for one, in the order the store gave them.
pub proof fn listing_returns_the_rows_in_their_order(
    answers: Seq<EventView>,
    outcome: OutcomeView,
)
    requires
        run(start_of(OperationView::List), answers) == ProgressView::Finished(Ok(outcome)),
    ensures
        answers.len() >= 2,
        answers[1] is Rows,
        outcome == OutcomeView::Tasks(rows_tasks(answers[1]->Rows_0)),
        asked(start_of(OperationView::List), answers) == seq![
            StepView::Open(OperationView::List),
            StepView::SelectAll,
        ],
{
    reveal_with_fuel(run, 4);
    reveal_with_fuel(asked, 4);
    let a1 = answers.drop_first();
    assert(answers.len() >= 2);
    assert(a1[0] == answers[1]);
    assert(asked(start_of(OperationView::List), answers) =~= seq![
        StepView::Open(OperationView::List),
        StepView::SelectAll,
    ]);
}

/// Laying out the store succeeds when the store was opened, the batch was
/// run and the count could be read, and it asks nothing else. Nothing in
/// it depends on what went before, so every start asks the same.
pub proof fn initialization_applies_and_checks(answers: Seq<EventView>, outcome: OutcomeView)
    requires
        run(start_of(OperationView::Initialize), answers) == ProgressView::Finished(Ok(outcome)),
    ensures
        outcome == OutcomeView::Nothing,
        answers.len() >= 3,
        answers[2] is Count,
        asked(start_of(OperationView::Initialize), answers) == seq![
            StepView::Open(OperationView::Initialize),
            StepView::ApplySchema,
            StepView::CheckSchema,
        ],
{
    reveal_with_fuel(run, 5);
    reveal_with_fuel(asked, 5);
    let a1 = answers.drop_first();
    let a2 = a1.drop_first();
    assert(answers.len() >= 3);
    assert(a1[0] == answers[1] && a2[0] == answers[2]);
    assert(asked(start_of(OperationView::Initialize), answers) =~= seq![
        StepView::Open(OperationView::Initialize),
        StepView::ApplySchema,
        StepView::CheckSchema,
    ]);
}

/// What an operation can end with. Each operation succeeds with its own
/// kind of outcome; none fails with a complaint about a title once it has
/// started; a not-found error names the id that the operation was given;
/// and an error of the system comes from the opening alone.
pub proof fn results_match_the_operation(
    operation: OperationView,
    answers: Seq<EventView>,
    result: Result<OutcomeView, DatabaseErrorView>,
)
    requires
        run(start_of(operation), answers) == ProgressView::Finished(result),
    ensures
        match result {
            Ok(OutcomeView::Nothing) => operation is Initialize || operation is Delete,
            Ok(OutcomeView::Task(_)) => operation is Create || operation is SetStatus,
            Ok(OutcomeView::Tasks(_)) => operation is List,
            Err(DatabaseErrorView::Validation(_)) => false,
            Err(DatabaseErrorView::TaskNotFound(missing)) => {
                ||| operation is SetStatus && operation->SetStatus_id == missing
                ||| operation is Delete && operation->Delete_id == missing
            },
            Err(DatabaseErrorView::Io(words)) => answers.len() >= 1 && answers[0]
                == EventView::IoFailed(words),
            Err(DatabaseErrorView::Rusqlite(words)) => exists|i: int|
                0 <= i < 5 && i < answers.len() && answers[i] == EventView::StoreFailed(words),
        },
{
    reveal_with_fuel(run, 7);
    let a1 = answers.drop_first();
    let a2 = a1.drop_first();
    let a3 = a2.drop_first();
    let a4 = a3.drop_first();
    if answers.len() >= 2 {
        assert(a1[0] == answers[1]);
    }
    if answers.len() >= 3 {
        assert(a2[0] == answers[2]);
    }
    if answers.len() >= 4 {
        assert(a3[0] == answers[3]);
    }
    if answers.len() >= 5 {
        assert(a4[0] == answers[4]);
    }
}

/// An operation that has not ended is waiting: the step it stands at is
/// the last one it asked, and the answers hold nothing that fits it.
pub proof fn pending_step_is_unanswered(start: ProgressView, answers: Seq<EventView>)
    requires
        run(start, answers) is Pending,
    ensures
        asked(start, answers).len() >= 1,
        asked(start, answers).last() == run(start, answers)->Pending_0,
        answers.len() < asked(start, answers).len() || !run(start, answers)->Pending_0.expects(
            answers[asked(start, answers).len() - 1],
        ),
    decreases answers.len(),
{
    let step = start->Pending_0;
    if answers.len() > 0 && step.expects(answers[0]) {
        let next = step.after(answers[0]);
        let rest = answers.drop_first();
        pending_step_is_unanswered(next, rest);
        let tail = asked(next, rest);
        assert(asked(start, answers) == seq![step] + tail);
        assert(rest.len() >= tail.len() ==> rest[tail.len() - 1] == answers[tail.len() as int]);
    }
}

/// No operation asks more than five things of the store, so one whose
/// every step was answered is over after five answers at the latest.
pub proof fn operations_end(operation: OperationView, answers: Seq<EventView>)
    ensures
        asked(start_of(operation), answers).len() <= 5,
{
    reveal_with_fuel(asked, 7);
}

} // verus!
