//! The operations on the store, each as a conversation: the library says
//! what to ask of the store next, the caller asks it and hands back the
//! answer, and the library decides how to go on.
//!
//! An operation starts with one of [`initialize_db`], [`get_all_tasks`],
//! [`create_task`], [`update_task_status`] and [`delete_task`]. While its
//! [`Progress`] is pending the caller performs the [`Step`] and answers it
//! through [`Step::resume`]; once it is finished it holds the result. The
//! caller opens a fresh connection for each operation and drops it at the
//! end, so that a transaction which was begun and never committed leaves the
//! store as it was.

use vstd::pervasive::unreached;
use vstd::prelude::*;
use crate::models::{
    flag_of,
    tasks_from_rows,
    rows_tasks,
    title_complaint,
    NewTask,
    Task,
    TaskRow,
    TaskRowView,
    TaskView,
};
use crate::schema::{
    COUNT_SQL,
    DELETE_SQL,
    INIT_SQL,
    INSERT_SQL,
    SELECT_ALL_SQL,
    SELECT_ONE_SQL,
    UPDATE_SQL,
};

verus! {

/// Why an operation failed.
#[derive(Debug, Clone, PartialEq, Eq)]
pub enum DatabaseError {
    /// The store reported a failure; its own words.
    Rusqlite(String),
    /// The title broke a rule; the complaint.
    Validation(String),
    /// No task has this id.
    TaskNotFound(i64),
    /// The place of the store could not be found or made; the system's words.
    Io(String),
}

/// What a [`DatabaseError`] is to the contracts.
pub enum DatabaseErrorView {
    Rusqlite(Seq<char>),
    Validation(Seq<char>),
    TaskNotFound(i64),
    Io(Seq<char>),
}

impl View for DatabaseError {
    type V = DatabaseErrorView;

    open spec fn view(&self) -> DatabaseErrorView {
        match self {
            DatabaseError::Rusqlite(words) => DatabaseErrorView::Rusqlite(words@),
            DatabaseError::Validation(words) => DatabaseErrorView::Validation(words@),
            DatabaseError::TaskNotFound(id) => DatabaseErrorView::TaskNotFound(*id),
            DatabaseError::Io(words) => DatabaseErrorView::Io(words@),
        }
    }
}

/// What an operation ends with.
pub type DbResult<T> = Result<T, DatabaseError>;

/// What the system is taken to say when it knows no data directory for the
/// application.
pub const NO_DATA_DIRECTORY: &'static str = "Could not find app data directory";

/// The character for a digit from 0 to 9.
pub open spec fn digit_char(digit: int) -> char {
    if digit == 0 {
        '0'
    } else if digit == 1 {
        '1'
    } else if digit == 2 {
        '2'
    } else if digit == 3 {
        '3'
    } else if digit == 4 {
        '4'
    } else if digit == 5 {
        '5'
    } else if digit == 6 {
        '6'
    } else if digit == 7 {
        '7'
    } else if digit == 8 {
        '8'
    } else {
        '9'
    }
}

/// A natural number in decimal digits, without leading zeros.
pub open spec fn decimal_digits(n: nat) -> Seq<char>
    decreases n,
{
    if n < 10 {
        seq![digit_char(n as int)]
    } else {
        decimal_digits(n / 10).push(digit_char((n % 10) as int))
    }
}

/// An integer in decimal digits, a negative one behind a minus sign.
pub open spec fn decimal(n: int) -> Seq<char> {
    if n < 0 {
        seq!['-'] + decimal_digits((-n) as nat)
    } else {
        decimal_digits(n as nat)
    }
}

impl DatabaseErrorView {
    /// The error in words, for whoever shows it to the user.
    pub open spec fn message(self) -> Seq<char> {
        match self {
            DatabaseErrorView::Rusqlite(words) => "Database error: "@ + words,
            DatabaseErrorView::Validation(words) => "Validation error: "@ + words,
            DatabaseErrorView::TaskNotFound(id) => "Task not found with id: "@ + decimal(id as int),
            DatabaseErrorView::Io(words) => "IO error: "@ + words,
        }
    }
}

/// The text of one digit.
fn digit_text(digit: u64) -> (text: &'static str)
    requires
        digit < 10,
    ensures
        text@ == seq![digit_char(digit as int)],
{
    proof {
        reveal_strlit("0");
        reveal_strlit("1");
        reveal_strlit("2");
        reveal_strlit("3");
        reveal_strlit("4");
        reveal_strlit("5");
        reveal_strlit("6");
        reveal_strlit("7");
        reveal_strlit("8");
        reveal_strlit("9");
    }
    let text = if digit == 0 {
        "0"
    } else if digit == 1 {
        "1"
    } else if digit == 2 {
        "2"
    } else if digit == 3 {
        "3"
    } else if digit == 4 {
        "4"
    } else if digit == 5 {
        "5"
    } else if digit == 6 {
        "6"
    } else if digit == 7 {
        "7"
    } else if digit == 8 {
        "8"
    } else {
        "9"
    };
    assert(text@ =~= seq![digit_char(digit as int)]);
    text
}

/// Writes `n` in decimal digits behind what `text` holds.
fn append_digits(text: &mut String, n: u64)
    ensures
        final(text)@ == old(text)@ + decimal_digits(n as nat),
    decreases n,
{
    if n >= 10 {
        append_digits(text, n / 10);
    }
    text.append(digit_text(n % 10));
    assert(final(text)@ =~= old(text)@ + decimal_digits(n as nat));
}

/// Writes `n` in decimal behind what `text` holds.
fn append_decimal(text: &mut String, n: i64)
    ensures
        final(text)@ == old(text)@ + decimal(n as int),
{
    if n < 0 {
        proof {
            reveal_strlit("-");
        }
        text.append("-");
        let size: u64 = (-(n + 1)) as u64 + 1;
        append_digits(text, size);
        assert(final(text)@ =~= old(text)@ + decimal(n as int));
    } else {
        append_digits(text, n as u64);
    }
}

impl DatabaseError {
    /// The error in words, for whoever shows it to the user.
    pub fn message(&self) -> (text: String)
        ensures
            text@ == self@.message(),
    {
        match self {
            DatabaseError::Rusqlite(words) => String::from_str("Database error: ").concat(
                words.as_str(),
            ),
            DatabaseError::Validation(words) => String::from_str("Validation error: ").concat(
                words.as_str(),
            ),
            DatabaseError::TaskNotFound(id) => {
                let mut text = String::from_str("Task not found with id: ");
                append_decimal(&mut text, *id);
                text
            },
            DatabaseError::Io(words) => String::from_str("IO error: ").concat(words.as_str()),
        }
    }
}

/// One of the five operations, with its arguments.
#[derive(Debug, Clone, PartialEq, Eq)]
pub enum Operation {
    Initialize,
    List,
    Create { title: String },
    SetStatus { id: i64, done: bool },
    Delete { id: i64 },
}

/// What an [`Operation`] is to the contracts.
pub enum OperationView {
    Initialize,
    List,
    Create { title: Seq<char> },
    SetStatus { id: i64, done: bool },
    Delete { id: i64 },
}

impl View for Operation {
    type V = OperationView;

    open spec fn view(&self) -> OperationView {
        match self {
            Operation::Initialize => OperationView::Initialize,
            Operation::List => OperationView::List,
            Operation::Create { title } => OperationView::Create { title: title@ },
            Operation::SetStatus { id, done } => OperationView::SetStatus { id: *id, done: *done },
            Operation::Delete { id } => OperationView::Delete { id: *id },
        }
    }
}

/// What the caller is to do next, together with what the operation has to
/// remember to go on from there.
#[derive(Debug, Clone, PartialEq, Eq)]
pub enum Step {
    /// Find the application's data directory, make it if it is missing, and
    /// open a fresh connection to the store's file in it. Answered by
    /// [`Event::Completed`], or by [`Event::IoFailed`] where the directory
    /// cannot be found or made.
    Open(Operation),
    /// Begin a transaction, for the creation of a task. Answered by
    /// [`Event::Completed`].
    BeginCreate { title: String },
    /// Begin a transaction, for the change of a task's flag. Answered by
    /// [`Event::Completed`].
    BeginUpdate { id: i64, done: bool },
    /// Run the batch that lays out the store. Answered by
    /// [`Event::Completed`].
    ApplySchema,
    /// Count the tasks, to see that the layout can be read. Answered by
    /// [`Event::Count`].
    CheckSchema,
    /// Read every task in the listing's order. Answered by
    /// [`Event::Rows`].
    SelectAll,
    /// Store a new task with `title` bound to `?1`. Answered by
    /// [`Event::Inserted`] with the id that the store gave the row.
    Insert { title: String },
    /// Set the flag of a task, with `done` bound to `?1` and `id` to `?2`.
    /// Answered by [`Event::Changed`].
    SetDone { done: i64, id: i64 },
    /// Remove a task, with `id` bound to `?1`. Answered by
    /// [`Event::Changed`].
    DeleteOne { id: i64 },
    /// Read a task, with `id` bound to `?1`. Answered by [`Event::Row`] with
    /// the first row that comes, or by a failure of the store where none
    /// does.
    SelectOne { id: i64 },
    /// Commit the transaction; `task` is what was read in it. Answered by
    /// [`Event::Completed`].
    Commit { task: Task },
}

/// What a [`Step`] is to the contracts.
pub enum StepView {
    Open(OperationView),
    BeginCreate { title: Seq<char> },
    BeginUpdate { id: i64, done: bool },
    ApplySchema,
    CheckSchema,
    SelectAll,
    Insert { title: Seq<char> },
    SetDone { done: i64, id: i64 },
    DeleteOne { id: i64 },
    SelectOne { id: i64 },
    Commit { task: TaskView },
}

impl View for Step {
    type V = StepView;

    open spec fn view(&self) -> StepView {
        match self {
            Step::Open(operation) => StepView::Open(operation@),
            Step::BeginCreate { title } => StepView::BeginCreate { title: title@ },
            Step::BeginUpdate { id, done } => StepView::BeginUpdate { id: *id, done: *done },
            Step::ApplySchema => StepView::ApplySchema,
            Step::CheckSchema => StepView::CheckSchema,
            Step::SelectAll => StepView::SelectAll,
            Step::Insert { title } => StepView::Insert { title: title@ },
            Step::SetDone { done, id } => StepView::SetDone { done: *done, id: *id },
            Step::DeleteOne { id } => StepView::DeleteOne { id: *id },
            Step::SelectOne { id } => StepView::SelectOne { id: *id },
            Step::Commit { task } => StepView::Commit { task: task@ },
        }
    }
}

/// The store's answer to a step.
#[derive(Debug, Clone, PartialEq, Eq)]
pub enum Event {
    /// The step was carried out and has nothing to report.
    Completed,
    /// The number of tasks counted.
    Count(i64),
    /// The rows read, in the order the store gave them.
    Rows(Vec<TaskRow>),
    /// The one row read.
    Row(TaskRow),
    /// The id given to the row just stored.
    Inserted(i64),
    /// The number of rows that the statement changed.
    Changed(usize),
    /// The store failed; its own words.
    StoreFailed(String),
    /// The store's file could not be found or made; the system's words.
    IoFailed(String),
}

/// What an [`Event`] is to the contracts.
pub enum EventView {
    Completed,
    Count(i64),
    Rows(Seq<TaskRowView>),
    Row(TaskRowView),
    Inserted(i64),
    Changed(usize),
    StoreFailed(Seq<char>),
    IoFailed(Seq<char>),
}

impl View for Event {
    type V = EventView;

    open spec fn view(&self) -> EventView {
        match self {
            Event::Completed => EventView::Completed,
            Event::Count(n) => EventView::Count(*n),
            Event::Rows(rows) => EventView::Rows(rows.deep_view()),
            Event::Row(row) => EventView::Row(row@),
            Event::Inserted(id) => EventView::Inserted(*id),
            Event::Changed(n) => EventView::Changed(*n),
            Event::StoreFailed(words) => EventView::StoreFailed(words@),
            Event::IoFailed(words) => EventView::IoFailed(words@),
        }
    }
}

/// What an operation hands back when it succeeds.
#[derive(Debug, Clone, PartialEq, Eq)]
pub enum Outcome {
    /// Nothing: the store is laid out, or the task is gone.
    Nothing,
    /// The task as the store now holds it.
    Task(Task),
    /// Every task, in the listing's order.
    Tasks(Vec<Task>),
}

/// What an [`Outcome`] is to the contracts.
pub enum OutcomeView {
    Nothing,
    Task(TaskView),
    Tasks(Seq<TaskView>),
}

impl View for Outcome {
    type V = OutcomeView;

    open spec fn view(&self) -> OutcomeView {
        match self {
            Outcome::Nothing => OutcomeView::Nothing,
            Outcome::Task(task) => OutcomeView::Task(task@),
            Outcome::Tasks(tasks) => OutcomeView::Tasks(tasks.deep_view()),
        }
    }
}

/// Where an operation stands.
#[derive(Debug, PartialEq, Eq)]
pub enum Progress {
    /// The caller is to perform the step and answer it.
    Pending(Step),
    /// The operation is over, with this result.
    Finished(DbResult<Outcome>),
}

/// What a [`Progress`] is to the contracts.
pub enum ProgressView {
    Pending(StepView),
    Finished(Result<OutcomeView, DatabaseErrorView>),
}

impl View for Progress {
    type V = ProgressView;

    open spec fn view(&self) -> ProgressView {
        match self {
            Progress::Pending(step) => ProgressView::Pending(step@),
            Progress::Finished(Ok(outcome)) => ProgressView::Finished(Ok(outcome@)),
            Progress::Finished(Err(error)) => ProgressView::Finished(Err(error@)),
        }
    }
}

impl OperationView {
    /// The step that follows the opening of the connection: an operation
    /// that changes a task and reads it back begins a transaction, the
    /// others run their one statement at once.
    pub open spec fn first_step(self) -> StepView {
        match self {
            OperationView::Initialize => StepView::ApplySchema,
            OperationView::List => StepView::SelectAll,
            OperationView::Create { title } => StepView::BeginCreate { title },
            OperationView::SetStatus { id, done } => StepView::BeginUpdate { id, done },
            OperationView::Delete { id } => StepView::DeleteOne { id },
        }
    }
}

impl EventView {
    /// Whether the event reports a failure.
    pub open spec fn is_failure(self) -> bool {
        self is StoreFailed || self is IoFailed
    }
}

impl StepView {
    /// Whether `event` is an answer to this step. The store may fail at
    /// every step; only the opening can fail for want of the file's place;
    /// and a step that went well reports what that step yields.
    pub open spec fn expects(self, event: EventView) -> bool {
        match event {
            EventView::StoreFailed(_) => true,
            EventView::IoFailed(_) => self is Open,
            EventView::Completed => self is Open || self is BeginCreate || self is BeginUpdate
                || self is ApplySchema || self is Commit,
            EventView::Count(_) => self is CheckSchema,
            EventView::Rows(_) => self is SelectAll,
            EventView::Row(_) => self is SelectOne,
            EventView::Inserted(_) => self is Insert,
            EventView::Changed(_) => self is SetDone || self is DeleteOne,
        }
    }

    /// Where the operation stands once this step was answered by `event`.
    ///
    /// A failure ends the operation with the failure's words and nothing
    /// more is asked of the store. A statement that should have changed a
    /// task and changed no row ends it with the id that was not found. What
    /// an operation returns of a task is what the store read back inside the
    /// transaction, and it is returned only after the commit.
    pub open spec fn after(self, event: EventView) -> ProgressView
        recommends
            self.expects(event),
    {
        match event {
            EventView::StoreFailed(words) => ProgressView::Finished(
                Err(DatabaseErrorView::Rusqlite(words)),
            ),
            EventView::IoFailed(words) => ProgressView::Finished(Err(DatabaseErrorView::Io(words))),
            _ => match self {
                StepView::Open(operation) => ProgressView::Pending(operation.first_step()),
                StepView::BeginCreate { title } => ProgressView::Pending(StepView::Insert { title }),
                StepView::BeginUpdate { id, done } => ProgressView::Pending(
                    StepView::SetDone { done: flag_of(done), id },
                ),
                StepView::ApplySchema => ProgressView::Pending(StepView::CheckSchema),
                StepView::CheckSchema => ProgressView::Finished(Ok(OutcomeView::Nothing)),
                StepView::SelectAll => ProgressView::Finished(
                    Ok(OutcomeView::Tasks(rows_tasks(event->Rows_0))),
                ),
                StepView::Insert { title } => ProgressView::Pending(
                    StepView::SelectOne { id: event->Inserted_0 },
                ),
                StepView::SetDone { done, id } => if event->Changed_0 == 0 {
                    ProgressView::Finished(Err(DatabaseErrorView::TaskNotFound(id)))
                } else {
                    ProgressView::Pending(StepView::SelectOne { id })
                },
                StepView::DeleteOne { id } => if event->Changed_0 == 0 {
                    ProgressView::Finished(Err(DatabaseErrorView::TaskNotFound(id)))
                } else {
                    ProgressView::Finished(Ok(OutcomeView::Nothing))
                },
                StepView::SelectOne { id } => ProgressView::Pending(
                    StepView::Commit { task: event->Row_0.task() },
                ),
                StepView::Commit { task } => ProgressView::Finished(Ok(OutcomeView::Task(task))),
            },
        }
    }

    /// The statement that the step runs, for the steps that run one.
    pub open spec fn sql(self) -> Option<Seq<char>> {
        match self {
            StepView::Open(_) => None,
            StepView::BeginCreate { .. } => None,
            StepView::BeginUpdate { .. } => None,
            StepView::ApplySchema => Some(INIT_SQL@),
            StepView::CheckSchema => Some(COUNT_SQL@),
            StepView::SelectAll => Some(SELECT_ALL_SQL@),
            StepView::Insert { .. } => Some(INSERT_SQL@),
            StepView::SetDone { .. } => Some(UPDATE_SQL@),
            StepView::DeleteOne { .. } => Some(DELETE_SQL@),
            StepView::SelectOne { .. } => Some(SELECT_ONE_SQL@),
            StepView::Commit { .. } => None,
        }
    }
}

/// How the creation of a task with this title starts: a title that breaks
/// a rule ends it on the spot, before anything is asked of the store.
pub open spec fn creation_start(title: Seq<char>) -> ProgressView {
    match title_complaint(title) {
        Some(words) => ProgressView::Finished(Err(DatabaseErrorView::Validation(words))),
        None => ProgressView::Pending(StepView::Open(OperationView::Create { title })),
    }
}

/// Starts laying out the store. The operation opens the store, runs the
/// batch that creates what is absent, and counts the tasks to see that the
/// layout can be read; it is safe on every start.
pub fn initialize_db() -> (start: Progress)
    ensures
        start@ == ProgressView::Pending(StepView::Open(OperationView::Initialize)),
{
    Progress::Pending(Step::Open(Operation::Initialize))
}

/// Starts reading every task. The operation opens the store, reads the
/// rows in the listing's order and decodes them one for one; an empty store
/// gives an empty list.
pub fn get_all_tasks() -> (start: Progress)
    ensures
        start@ == ProgressView::Pending(StepView::Open(OperationView::List)),
{
    Progress::Pending(Step::Open(Operation::List))
}

/// Starts creating a task, after checking its title: a title that breaks a
/// rule ends the operation here, with the complaint, and the store is never
/// touched. Otherwise the operation opens the store and, in one
/// transaction, stores the title as an open task dated by the store's
/// clock, reads back the row under the id that the store gave it, and
/// commits; it returns the row read back.
pub fn create_task(new_task: NewTask) -> (start: Progress)
    ensures
        start@ == creation_start(new_task.title@),
{
    match new_task.validate() {
        Err(words) => Progress::Finished(Err(DatabaseError::Validation(words))),
        Ok(_) => Progress::Pending(Step::Open(Operation::Create { title: new_task.title })),
    }
}

/// Starts setting the flag of the task with this id. The operation opens
/// the store and, in one transaction, sets the flag; where no row changed it
/// ends as not found, with the id, and commits nothing; otherwise it reads
/// the row back, commits, and returns the row read back.
pub fn update_task_status(id: i64, done: bool) -> (start: Progress)
    ensures
        start@ == ProgressView::Pending(StepView::Open(OperationView::SetStatus { id, done })),
{
    Progress::Pending(Step::Open(Operation::SetStatus { id, done }))
}

/// Starts removing the task with this id. The operation opens the store
/// and removes the row; where no row changed it ends as not found, with the
/// id.
pub fn delete_task(id: i64) -> (start: Progress)
    ensures
        start@ == ProgressView::Pending(StepView::Open(OperationView::Delete { id })),
{
    Progress::Pending(Step::Open(Operation::Delete { id }))
}

impl Operation {
    /// The step that follows the opening of the connection.
    pub fn first_step(self) -> (step: Step)
        ensures
            step@ == self@.first_step(),
    {
        match self {
            Operation::Initialize => Step::ApplySchema,
            Operation::List => Step::SelectAll,
            Operation::Create { title } => Step::BeginCreate { title },
            Operation::SetStatus { id, done } => Step::BeginUpdate { id, done },
            Operation::Delete { id } => Step::DeleteOne { id },
        }
    }
}

impl Step {
    /// Whether `event` is an answer to this step.
    pub fn expects(&self, event: &Event) -> (fits: bool)
        ensures
            fits == self@.expects(event@),
    {
        match event {
            Event::StoreFailed(_) => true,
            Event::IoFailed(_) => matches!(self, Step::Open(_)),
            Event::Completed => matches!(
                self,
                Step::Open(_) | Step::BeginCreate { .. } | Step::BeginUpdate { .. }
                    | Step::ApplySchema | Step::Commit { .. }
            ),
            Event::Count(_) => matches!(self, Step::CheckSchema),
            Event::Rows(_) => matches!(self, Step::SelectAll),
            Event::Row(_) => matches!(self, Step::SelectOne { .. }),
            Event::Inserted(_) => matches!(self, Step::Insert { .. }),
            Event::Changed(_) => matches!(self, Step::SetDone { .. } | Step::DeleteOne { .. }),
        }
    }

    /// Goes on from this step with the store's answer to it.
    pub fn resume(self, event: Event) -> (next: Progress)
        requires
            self@.expects(event@),
        ensures
            next@ == self@.after(event@),
    {
        match event {
            Event::StoreFailed(words) => Progress::Finished(Err(DatabaseError::Rusqlite(words))),
            Event::IoFailed(words) => Progress::Finished(Err(DatabaseError::Io(words))),
            Event::Completed => match self {
                Step::Open(operation) => Progress::Pending(operation.first_step()),
                Step::BeginCreate { title } => Progress::Pending(Step::Insert { title }),
                Step::BeginUpdate { id, done } => {
                    let flag: i64 = if done {
                        1
                    } else {
                        0
                    };
                    Progress::Pending(Step::SetDone { done: flag, id })
                },
                Step::ApplySchema => Progress::Pending(Step::CheckSchema),
                Step::Commit { task } => Progress::Finished(Ok(Outcome::Task(task))),
                _ => unreached(),
            },
            Event::Count(_) => Progress::Finished(Ok(Outcome::Nothing)),
            Event::Rows(rows) => Progress::Finished(Ok(Outcome::Tasks(tasks_from_rows(rows)))),
            Event::Row(row) => Progress::Pending(Step::Commit { task: row.into_task() }),
            Event::Inserted(id) => Progress::Pending(Step::SelectOne { id }),
            Event::Changed(rows) => match self {
                Step::SetDone { done: _, id } => if rows == 0 {
                    Progress::Finished(Err(DatabaseError::TaskNotFound(id)))
                } else {
                    Progress::Pending(Step::SelectOne { id })
                },
                Step::DeleteOne { id } => if rows == 0 {
                    Progress::Finished(Err(DatabaseError::TaskNotFound(id)))
                } else {
                    Progress::Finished(Ok(Outcome::Nothing))
                },
                _ => unreached(),
            },
        }
    }

    /// The statement that the step runs, for the steps that run one.
    pub fn sql(&self) -> (text: Option<&'static str>)
        ensures
            match text {
                Some(words) => self@.sql() == Some(words@),
                None => self@.sql() is None,
            },
    {
        match self {
            Step::Open(_) => None,
            Step::BeginCreate { .. } => None,
            Step::BeginUpdate { .. } => None,
            Step::ApplySchema => Some(INIT_SQL),
            Step::CheckSchema => Some(COUNT_SQL),
            Step::SelectAll => Some(SELECT_ALL_SQL),
            Step::Insert { .. } => Some(INSERT_SQL),
            Step::SetDone { .. } => Some(UPDATE_SQL),
            Step::DeleteOne { .. } => Some(DELETE_SQL),
            Step::SelectOne { .. } => Some(SELECT_ONE_SQL),
            Step::Commit { .. } => None,
        }
    }
}

} // verus!
