//! The task records, the decoding of a stored row, and the rules a new
//! task's title has to meet.

use vstd::prelude::*;
use vstd::std_specs::iter::IteratorSpec;

verus! {

/// The largest number of characters a title may have.
pub const MAX_TITLE_CHARS: usize = 256;

/// A task as the store keeps it.
#[derive(Debug, Clone, PartialEq, Eq)]
pub struct Task {
    pub id: i64,
    pub title: String,
    pub done: bool,
    pub created_at: String,
}

/// What a [`Task`] is to the contracts: its fields, the texts as sequences
/// of characters.
pub struct TaskView {
    pub id: i64,
    pub title: Seq<char>,
    pub done: bool,
    pub created_at: Seq<char>,
}

impl View for Task {
    type V = TaskView;

    open spec fn view(&self) -> TaskView {
        TaskView {
            id: self.id,
            title: self.title@,
            done: self.done,
            created_at: self.created_at@,
        }
    }
}

impl DeepView for Task {
    type V = TaskView;

    open spec fn deep_view(&self) -> TaskView {
        self@
    }
}

/// A row of the table of tasks as the store hands it out: the four columns,
/// the completion flag still an integer.
#[derive(Debug, Clone, PartialEq, Eq)]
pub struct TaskRow {
    pub id: i64,
    pub title: String,
    pub done: i64,
    pub created_at: String,
}

/// What a [`TaskRow`] is to the contracts.
pub struct TaskRowView {
    pub id: i64,
    pub title: Seq<char>,
    pub done: i64,
    pub created_at: Seq<char>,
}

impl View for TaskRow {
    type V = TaskRowView;

    open spec fn view(&self) -> TaskRowView {
        TaskRowView {
            id: self.id,
            title: self.title@,
            done: self.done,
            created_at: self.created_at@,
        }
    }
}

impl DeepView for TaskRow {
    type V = TaskRowView;

    open spec fn deep_view(&self) -> TaskRowView {
        self@
    }
}

impl TaskRowView {
    /// The task that the row stands for.
    pub open spec fn task(self) -> TaskView {
        row_task(self.id, self.title, self.done, self.created_at)
    }
}

/// The tasks that a run of rows stands for, one for one and in the rows'
/// order.
pub open spec fn rows_tasks(rows: Seq<TaskRowView>) -> Seq<TaskView> {
    Seq::new(rows.len(), |i: int| rows[i].task())
}

/// The request to create a task: nothing but the title.
#[derive(Debug, Clone, PartialEq, Eq)]
pub struct NewTask {
    pub title: String,
}

impl View for NewTask {
    type V = Seq<char>;

    open spec fn view(&self) -> Seq<char> {
        self.title@
    }
}

/// The store's integer for a completion flag: 1 for done, 0 for open.
pub open spec fn flag_of(done: bool) -> i64 {
    if done {
        1
    } else {
        0
    }
}

/// The task that a stored row stands for. The store keeps the completion
/// flag as an integer: zero is open, anything else is done.
pub open spec fn row_task(id: i64, title: Seq<char>, done: i64, created_at: Seq<char>) -> TaskView {
    TaskView { id, title, done: done != 0, created_at }
}

/// Whether `c` is white space: one of the twenty-five characters that carry
/// the Unicode property `White_Space`.
pub open spec fn is_whitespace(c: char) -> bool {
    let u = c as u32;
    ||| 0x09 <= u <= 0x0D
    ||| u == 0x20
    ||| u == 0x85
    ||| u == 0xA0
    ||| u == 0x1680
    ||| 0x2000 <= u <= 0x200A
    ||| u == 0x2028
    ||| u == 0x2029
    ||| u == 0x202F
    ||| u == 0x205F
    ||| u == 0x3000
}

/// Whether a text is blank: empty, or white space from end to end. These are
/// the texts of which nothing is left once the white space at both ends is
/// trimmed away.
pub open spec fn is_blank(text: Seq<char>) -> bool {
    forall|i: int| 0 <= i < text.len() ==> is_whitespace(#[trigger] text[i])
}

/// Whether a title may be stored: it is not blank and has at most
/// [`MAX_TITLE_CHARS`] characters, counted before any trimming.
pub open spec fn title_accepted(title: Seq<char>) -> bool {
    !is_blank(title) && title.len() <= MAX_TITLE_CHARS
}

/// What is wrong with a title, in words, or `None` for a title that may be
/// stored. A blank title is reported as empty whatever its length.
pub open spec fn title_complaint(title: Seq<char>) -> Option<Seq<char>> {
    if is_blank(title) {
        Some("Task title cannot be empty"@)
    } else if title.len() > MAX_TITLE_CHARS {
        Some("Task title cannot exceed 256 characters"@)
    } else {
        None
    }
}

/// The bounds of a title. An empty title and a blank one are rejected as
/// empty; a title of 257 characters or more is rejected; and a title that is
/// not blank is accepted exactly when it has from 1 to 256 characters.
pub proof fn title_bounds(title: Seq<char>)
    ensures
        title.len() == 0 ==> is_blank(title),
        is_blank(title) ==> !title_accepted(title) && title_complaint(title) == Some(
            "Task title cannot be empty"@,
        ),
        title.len() >= 257 ==> !title_accepted(title),
        !is_blank(title) && title.len() >= 257 ==> title_complaint(title) == Some(
            "Task title cannot exceed 256 characters"@,
        ),
        !is_blank(title) ==> (title_accepted(title) <==> 1 <= title.len() <= 256),
        title_accepted(title) <==> title_complaint(title) is None,
{
}

/// Decides [`is_whitespace`].
pub fn char_is_whitespace(c: char) -> (white: bool)
    ensures
        white == is_whitespace(c),
{
    let u: u32 = c as u32;
    (0x09 <= u && u <= 0x0D) || u == 0x20 || u == 0x85 || u == 0xA0 || u == 0x1680 || (0x2000 <= u
        && u <= 0x200A) || u == 0x2028 || u == 0x2029 || u == 0x202F || u == 0x205F || u == 0x3000
}

/// Decides [`is_blank`], reading the text once and stopping at the first
/// character that is not white space.
pub fn text_is_blank(text: &str) -> (blank: bool)
    ensures
        blank == is_blank(text@),
{
    let mut rest = text.chars();
    let ghost mut seen: int = 0;
    loop
        invariant
            rest.obeys_prophetic_iter_laws(),
            0 <= seen <= text@.len(),
            rest.remaining() == text@.subrange(seen, text@.len() as int),
            forall|i: int| 0 <= i < seen ==> is_whitespace(#[trigger] text@[i]),
        decreases text@.len() - seen,
    {
        match rest.next() {
            None => {
                return true;
            },
            Some(c) => {
                if !char_is_whitespace(c) {
                    assert(text@[seen] == c);
                    return false;
                }
                proof {
                    assert(text@[seen] == c);
                    seen = seen + 1;
                }
            },
        }
    }
}

impl Task {
    /// Decodes a stored row: the four columns as the store hands them out.
    pub fn from_row(id: i64, title: String, done: i64, created_at: String) -> (task: Task)
        ensures
            task@ == row_task(id, title@, done, created_at@),
    {
        Task { id, title, done: done != 0, created_at }
    }

    /// The completion flag as the store's integer: 1 for done, 0 for open.
    pub fn done_as_int(&self) -> (flag: i64)
        ensures
            flag == flag_of(self.done),
    {
        if self.done {
            1
        } else {
            0
        }
    }
}

impl TaskRow {
    /// Decodes the row.
    pub fn into_task(self) -> (task: Task)
        ensures
            task@ == self@.task(),
    {
        Task::from_row(self.id, self.title, self.done, self.created_at)
    }
}

/// Decodes every row, keeping the order in which the store handed them out.
pub fn tasks_from_rows(rows: Vec<TaskRow>) -> (tasks: Vec<Task>)
    ensures
        tasks.deep_view() == rows_tasks(rows.deep_view()),
{
    let mut tasks: Vec<Task> = Vec::new();
    let mut i: usize = 0;
    while i < rows.len()
        invariant
            i <= rows.len(),
            tasks.len() == i,
            forall|k: int| 0 <= k < i ==> (#[trigger] tasks[k])@ == rows[k]@.task(),
        decreases rows.len() - i,
    {
        let row = &rows[i];
        tasks.push(Task::from_row(row.id, row.title.clone(), row.done, row.created_at.clone()));
        i += 1;
    }
    assert(tasks.deep_view() =~= rows_tasks(rows.deep_view()));
    tasks
}

impl NewTask {
    /// Checks the title against the rules, before anything is stored: `Ok`
    /// exactly for an accepted title, and otherwise the complaint in words.
    pub fn validate(&self) -> (checked: Result<(), String>)
        ensures
            checked is Ok <==> title_accepted(self.title@),
            match checked {
                Ok(_) => title_complaint(self.title@) is None,
                Err(words) => title_complaint(self.title@) == Some(words@),
            },
    {
        if text_is_blank(self.title.as_str()) {
            return Err("Task title cannot be empty".to_string());
        }
        if self.title.as_str().unicode_len() > MAX_TITLE_CHARS {
            return Err("Task title cannot exceed 256 characters".to_string());
        }
        Ok(())
    }
}

} // verus!
