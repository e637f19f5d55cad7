//! The persisted entity and the row that an insert hands to storage.

use vstd::prelude::*;
use crate::db_errors::DbError;
use crate::db_errors::DriverError;
use crate::db_functions::insert_result;
use crate::db_functions::last_id_result;

verus! {

/// `chrono::NaiveDateTime`, a date and time without a time zone. Its contents
/// are not modelled: values are carried through and compared for equality only.
#[verifier::external_type_specification]
#[verifier::external_body]
pub struct ExNaiveDateTime(chrono::NaiveDateTime);

/// One row of the `items` table as it is read back.
#[derive(Debug)]
pub struct Item {
    /// Primary key, chosen by the caller and unique in the table.
    pub id: i64,
    /// Free-text label.
    pub event: String,
    /// When the row was created.
    pub c_time: chrono::NaiveDateTime,
    /// When the row was last modified.
    pub m_time: chrono::NaiveDateTime,
}

/// One row on its way into the `items` table, borrowed from the caller.
#[derive(Debug)]
pub struct NewItem<'a> {
    pub id: &'a i64,
    pub event: &'a str,
    pub c_time: &'a chrono::NaiveDateTime,
    pub m_time: &'a chrono::NaiveDateTime,
}

impl<'a> NewItem<'a> {
    /// This row carries `id` and `event`, and one and the same instant in both
    /// time columns.
    pub open spec fn is_stamped(self, id: i64, event: &str) -> bool {
        &&& *self.id == id
        &&& self.event@ == event@
        &&& *self.c_time == *self.m_time
    }

    /// The row for `id` and `event` that was created, and last modified, at
    /// `now`.
    pub fn stamped(id: &'a i64, event: &'a str, now: &'a chrono::NaiveDateTime) -> (row: NewItem<'a>)
        ensures
            *row.id == *id,
            row.event@ == event@,
            *row.c_time == *now,
            *row.m_time == *now,
            row.is_stamped(*id, event),
    {
        NewItem { id, event, c_time: now, m_time: now }
    }

    /// The item that the table holds once this row is in it.
    pub fn to_item(&self) -> (item: Item)
        ensures
            item.holds(*self),
    {
        Item { id: *self.id, event: self.event.to_owned(), c_time: *self.c_time, m_time: *self.m_time }
    }
}

impl Item {
    /// This item is `row` as the table keeps it: column for column the same.
    pub open spec fn holds(self, row: NewItem<'_>) -> bool {
        &&& self.id == *row.id
        &&& self.event@ == row.event@
        &&& self.c_time == *row.c_time
        &&& self.m_time == *row.m_time
    }

    /// Inserts one item, stamped with the current local time. This is
    /// [`crate::db_functions::persist_item`], reached through the entity.
    pub fn persist_item<F>(insert: F, id: &i64, event: &str) -> (r: Result<(), DbError>)
        where F: FnOnce(NewItem<'_>) -> Result<usize, DriverError>
        requires
            forall|row: NewItem<'_>| row.is_stamped(*id, event) ==> #[trigger] call_requires(insert, (row,)),
        ensures
            exists|row: NewItem<'_>, outcome: Result<usize, DriverError>|
                row.is_stamped(*id, event) && #[trigger] call_ensures(insert, (row,), outcome)
                    && r == insert_result(outcome),
            r matches Err(failure) ==> failure is PersistenceError,
    {
        crate::db_functions::persist_item(insert, id, event)
    }

    /// Looks up the largest id in the table. This is
    /// [`crate::db_functions::get_last_id`], reached through the entity.
    pub fn get_last_id<F>(select_last: F) -> (r: Result<i64, DbError>)
        where F: FnOnce() -> Result<i64, DriverError>
        requires
            call_requires(select_last, ()),
        ensures
            exists|outcome: Result<i64, DriverError>|
                call_ensures(select_last, (), outcome) && r == last_id_result(outcome),
            r matches Err(failure) ==> failure is NotFoundError || failure is PersistenceError,
    {
        crate::db_functions::get_last_id(select_last)
    }
}

/// Round trip: where the table keeps a row as it was handed over, the item
/// read back for a row that was stamped for `id` and `event` carries that id
/// and that event, and its modification time is its creation time.
pub proof fn lemma_read_back_matches_written(item: Item, row: NewItem<'_>, id: i64, event: &str)
    requires
        row.is_stamped(id, event),
        item.holds(row),
    ensures
        item.id == id,
        item.event@ == event@,
        item.c_time == item.m_time,
{
}

} // verus!
