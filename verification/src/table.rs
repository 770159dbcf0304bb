//! The article table as a mathematical value, and what each statement of
//! the store does to it.

use crate::article::{Row, STATUS_DELETED};
use vstd::prelude::*;

verus! {

/// No identifier occurs in two rows.
pub open spec fn distinct_ids(t: Seq<Row>) -> bool {
    forall|i: int, j: int| 0 <= i < j < t.len() ==> t[i].id != t[j].id
}

/// The rows stand newest first.
pub open spec fn newest_first(t: Seq<Row>) -> bool {
    forall|i: int, j: int| 0 <= i <= j < t.len() ==> t[i].created_time >= t[j].created_time
}

/// What holds of every table: identifiers are unique, rows stand by
/// creation time, newest first, and their number fits a signed count.
pub open spec fn table_ok(t: Seq<Row>) -> bool {
    &&& distinct_ids(t)
    &&& newest_first(t)
    &&& t.len() <= i64::MAX
}

/// Whether some row, visible or not, has the identifier.
pub open spec fn has_id(t: Seq<Row>, id: u128) -> bool {
    exists|i: int| 0 <= i < t.len() && (#[trigger] t[i]).id == id
}

/// Whether a visible row has the identifier.
pub open spec fn has_visible(t: Seq<Row>, id: u128) -> bool {
    exists|i: int| 0 <= i < t.len() && (#[trigger] t[i]).id == id && t[i].visible()
}

/// The visible row with the identifier, if there is one.
pub open spec fn find(t: Seq<Row>, id: u128) -> Option<Row> {
    if has_visible(t, id) {
        Some(t[choose|i: int| 0 <= i < t.len() && (#[trigger] t[i]).id == id && t[i].visible()])
    } else {
        None
    }
}

/// The rows that a listing of `section` shows.
pub open spec fn in_section(section: u128) -> spec_fn(Row) -> bool {
    |r: Row| r.visible() && r.section_id == section
}

/// The visible rows of `section`, in the table's order: newest first.
pub open spec fn listing(t: Seq<Row>, section: u128) -> Seq<Row> {
    t.filter(in_section(section))
}

/// Whether `p` is where a row created at `time` goes: behind every row
/// that is as new or newer, before every older one.
pub open spec fn is_slot(t: Seq<Row>, time: i64, p: int) -> bool {
    &&& 0 <= p <= t.len()
    &&& forall|i: int| 0 <= i < p ==> (#[trigger] t[i]).created_time >= time
    &&& forall|i: int| p <= i < t.len() ==> (#[trigger] t[i]).created_time < time
}

/// The place of a new row created at `time`.
pub open spec fn slot(t: Seq<Row>, time: i64) -> int {
    choose|p: int| is_slot(t, time, p)
}

/// The table after `row` was inserted.
pub open spec fn after_insert(t: Seq<Row>, row: Row) -> Seq<Row> {
    t.insert(slot(t, row.created_time), row)
}

/// A row after an edit: title, both texts and tags are new, the rest stays.
pub open spec fn edited(
    r: Row,
    title: Seq<char>,
    raw_content: Seq<char>,
    content: Seq<char>,
    tags: Seq<char>,
) -> Row {
    Row { title, raw_content, content, tags, ..r }
}

/// The table after the row with `id` was edited; a table without such a
/// row stays as it is.
pub open spec fn after_edit(
    t: Seq<Row>,
    id: u128,
    title: Seq<char>,
    raw_content: Seq<char>,
    content: Seq<char>,
    tags: Seq<char>,
) -> Seq<Row> {
    t.map_values(
        |r: Row|
            if r.id == id {
                edited(r, title, raw_content, content, tags)
            } else {
                r
            },
    )
}

/// The table after the row with `id` was soft-deleted: the row stays, with
/// the status of a deleted row, whatever its status was.
pub open spec fn after_delete(t: Seq<Row>, id: u128) -> Seq<Row> {
    t.map_values(
        |r: Row|
            if r.id == id {
                Row { status: STATUS_DELETED, ..r }
            } else {
                r
            },
    )
}

/// The row with the identifier, visible or not, if there is one.
pub open spec fn row_with(t: Seq<Row>, id: u128) -> Option<Row> {
    if has_id(t, id) {
        Some(t[choose|i: int| 0 <= i < t.len() && (#[trigger] t[i]).id == id])
    } else {
        None
    }
}

/// The number of rows that a statement on `id` touches.
pub open spec fn affected(t: Seq<Row>, id: u128) -> int {
    if has_id(t, id) {
        1
    } else {
        0
    }
}

/// A place that fits is the place.
pub proof fn slot_is_unique(t: Seq<Row>, time: i64, p: int)
    requires
        is_slot(t, time, p),
    ensures
        slot(t, time) == p,
{
    let q = slot(t, time);
    assert(is_slot(t, time, q));
    if q < p {
        assert(t[q].created_time >= time);
    } else if p < q {
        assert(t[p].created_time >= time);
    }
}

/// In a table whose identifiers are unique, every other row has another
/// identifier than the row at a place, so that row is the one with its
/// identifier.
pub proof fn others_differ(t: Seq<Row>, i: int)
    requires
        distinct_ids(t),
        0 <= i < t.len(),
    ensures
        forall|k: int| 0 <= k < t.len() && k != i ==> (#[trigger] t[k]).id != t[i].id,
        row_with(t, t[i].id) == Some(t[i]),
{
    assert forall|k: int| 0 <= k < t.len() && k != i implies (#[trigger] t[k]).id != t[i].id by {
        if k < i {
            assert(t[k].id != t[i].id);
        } else {
            assert(t[i].id != t[k].id);
        }
    }
    assert(has_id(t, t[i].id));
}

/// In a table whose identifiers are unique, the visible row at a place is the
/// one that a lookup by its identifier finds.
pub proof fn find_is_row_at(t: Seq<Row>, i: int)
    requires
        distinct_ids(t),
        0 <= i < t.len(),
        t[i].visible(),
    ensures
        find(t, t[i].id) == Some(t[i]),
{
    others_differ(t, i);
    assert(has_visible(t, t[i].id));
}

} // verus!
