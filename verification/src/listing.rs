//! The order of the listing: open tasks before done ones, and within each
//! group the newest first.

use vstd::prelude::*;
use crate::db::{EventView, OperationView, OutcomeView, ProgressView};
use crate::models::{rows_tasks, TaskRowView, TaskView};
use crate::session::{listing_returns_the_rows_in_their_order, run, start_of};

verus! {

/// Whether text `a` stands before `b`, or equals it, in the store's order of
/// texts: character by character, the smaller character first, and a text
/// before every longer text that begins with it. The store's dates are
/// written so that this is the order in time.
pub open spec fn text_le(a: Seq<char>, b: Seq<char>) -> bool
    decreases a.len(),
{
    if a.len() == 0 {
        true
    } else if b.len() == 0 {
        false
    } else if a[0] != b[0] {
        (a[0] as u32) < (b[0] as u32)
    } else {
        text_le(a.drop_first(), b.drop_first())
    }
}

/// Of two texts one stands before the other, or they are equal: no two
/// dates are left unordered.
pub proof fn text_le_is_total(a: Seq<char>, b: Seq<char>)
    ensures
        text_le(a, b) || text_le(b, a),
        text_le(a, b) && text_le(b, a) ==> a == b,
    decreases a.len(),
{
    if a.len() > 0 && b.len() > 0 && a[0] == b[0] {
        text_le_is_total(a.drop_first(), b.drop_first());
        if text_le(a, b) && text_le(b, a) {
            assert(a =~= seq![a[0]] + a.drop_first());
            assert(b =~= seq![b[0]] + b.drop_first());
        }
    } else if a.len() == 0 && b.len() == 0 {
        assert(a =~= b);
    } else if a.len() > 0 && b.len() > 0 {
        vstd::utf8::char_u32_cast(a[0], a[0] as u32);
        vstd::utf8::char_u32_cast(b[0], b[0] as u32);
    }
}

/// What stands before a text that stands before a third stands before the
/// third.
pub proof fn text_le_is_transitive(a: Seq<char>, b: Seq<char>, c: Seq<char>)
    requires
        text_le(a, b),
        text_le(b, c),
    ensures
        text_le(a, c),
    decreases a.len(),
{
    if a.len() > 0 && a[0] == b[0] && b[0] == c[0] {
        text_le_is_transitive(a.drop_first(), b.drop_first(), c.drop_first());
    }
}

/// The order in which the store hands out the rows of a listing: by the
/// flag, smallest first, and among rows of one flag by the date, latest
/// first.
pub open spec fn in_store_order(rows: Seq<TaskRowView>) -> bool {
    forall|i: int, j: int|
        0 <= i < j < rows.len() ==> {
            ||| (#[trigger] rows[i]).done < (#[trigger] rows[j]).done
            ||| rows[i].done == rows[j].done && text_le(rows[j].created_at, rows[i].created_at)
        }
}

/// The order of the listing: no done task stands before an open one, and of
/// two tasks that are both open or both done the one created later stands
/// first.
pub open spec fn in_listing_order(tasks: Seq<TaskView>) -> bool {
    forall|i: int, j: int|
        0 <= i < j < tasks.len() ==> {
            &&& (#[trigger] tasks[i]).done ==> (#[trigger] tasks[j]).done
            &&& tasks[i].done == tasks[j].done ==> text_le(tasks[j].created_at, tasks[i].created_at)
        }
}

/// Whether every row's flag is one of the two that the operations write.
pub open spec fn flags_are_plain(rows: Seq<TaskRowView>) -> bool {
    forall|i: int| 0 <= i < rows.len() ==> (#[trigger] rows[i]).done == 0 || rows[i].done == 1
}

/// Rows that come in the store's order, with no flag but 0 and 1, decode
/// to tasks in the listing's order: all open tasks first, newest first, then
/// all done tasks, newest first.
pub proof fn store_order_gives_listing_order(rows: Seq<TaskRowView>)
    requires
        in_store_order(rows),
        flags_are_plain(rows),
    ensures
        in_listing_order(rows_tasks(rows)),
{
    let tasks = rows_tasks(rows);
    assert forall|i: int, j: int| 0 <= i < j < tasks.len() implies {
        &&& (#[trigger] tasks[i]).done ==> (#[trigger] tasks[j]).done
        &&& tasks[i].done == tasks[j].done ==> text_le(tasks[j].created_at, tasks[i].created_at)
    } by {
        assert(tasks[i] == rows[i].task());
        assert(tasks[j] == rows[j].task());
    }
}

/// A listing that succeeds on rows which the store gave in its order, with
/// no flag but 0 and 1, returns the tasks in the listing's order.
pub proof fn listing_is_in_order(answers: Seq<EventView>, outcome: OutcomeView)
    requires
        run(start_of(OperationView::List), answers) == ProgressView::Finished(Ok(outcome)),
        in_store_order(answers[1]->Rows_0),
        flags_are_plain(answers[1]->Rows_0),
    ensures
        outcome is Tasks,
        in_listing_order(outcome->Tasks_0),
{
    listing_returns_the_rows_in_their_order(answers, outcome);
    store_order_gives_listing_order(answers[1]->Rows_0);
}

} // verus!
