//! A model of the table of users, and what a write does to it.
//!
//! The table itself is remote. Here it is the map from each primary key in
//! use to the record stored under it, and a write that went through is
//! [`after_put`]. The laws below say how little such a write touches.

use crate::model::RecordView;
use crate::writer::put_of;
use vstd::prelude::*;

verus! {

/// The table once the write [`put_of`]`(record)` went through: `record` is
/// stored under its primary key, created there or put in the place of what
/// the key held before.
pub open spec fn after_put(table: Map<Seq<char>, RecordView>, record: RecordView) -> Map<
    Seq<char>,
    RecordView,
> {
    table.insert(record.user_id, record)
}

/// A write carries its record whole: records that are stored by equal writes
/// are equal.
pub proof fn lemma_put_determines_record(first: RecordView, second: RecordView)
    requires
        put_of(first) == put_of(second),
    ensures
        first == second,
{
    assert(put_of(first).item[0].value == first.user_id);
    assert(put_of(first).item[1].value == first.user_name);
    assert(put_of(second).item[0].value == second.user_id);
    assert(put_of(second).item[1].value == second.user_name);
}

/// A write reaches one key only. Afterwards that key holds the record, and
/// every other key holds what it held before and is in use exactly if it was.
pub proof fn lemma_put_touches_one_key(table: Map<Seq<char>, RecordView>, record: RecordView)
    ensures
        after_put(table, record).dom() == table.dom().insert(record.user_id),
        after_put(table, record)[record.user_id] == record,
        forall|key: Seq<char>|
            key != record.user_id ==> {
                &&& after_put(table, record).dom().contains(key) == table.dom().contains(key)
                &&& after_put(table, record)[key] == table[key]
            },
{
}

/// A write only ever creates: unless its key already holds another record,
/// every record of the table is still there afterwards, unchanged. Under a
/// key that was not in use the table has grown by exactly the new record.
pub proof fn lemma_put_only_creates(table: Map<Seq<char>, RecordView>, record: RecordView)
    requires
        table.dom().contains(record.user_id) ==> table[record.user_id] == record,
    ensures
        forall|key: Seq<char>|
            table.dom().contains(key) ==> {
                &&& after_put(table, record).dom().contains(key)
                &&& after_put(table, record)[key] == table[key]
            },
        after_put(table, record).dom().contains(record.user_id),
        after_put(table, record)[record.user_id] == record,
        table.dom().finite() && !table.dom().contains(record.user_id) ==> after_put(
            table,
            record,
        ).dom().len() == table.dom().len() + 1,
{
}

/// Two writes under different keys leave two records: both are in the table
/// afterwards, each as it was written, whether or not they name the same
/// user. Where neither key was in use the table has grown by exactly two.
pub proof fn lemma_two_puts_leave_two_records(
    table: Map<Seq<char>, RecordView>,
    first: RecordView,
    second: RecordView,
)
    requires
        first.user_id != second.user_id,
    ensures
        after_put(after_put(table, first), second).dom().contains(first.user_id),
        after_put(after_put(table, first), second).dom().contains(second.user_id),
        after_put(after_put(table, first), second)[first.user_id] == first,
        after_put(after_put(table, first), second)[second.user_id] == second,
        table.dom().finite() && !table.dom().contains(first.user_id) && !table.dom().contains(
            second.user_id,
        ) ==> after_put(after_put(table, first), second).dom().len() == table.dom().len() + 2,
{
}

} // verus!
