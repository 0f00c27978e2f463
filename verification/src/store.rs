//! The persistent store adapter: the state of the record table and the
//! operations the handlers issue against it, together with the SQL text the
//! process edge runs against the relational backend under the same contract.

use vstd::prelude::*;
use crate::record::{recs_view, Record, RecordV};

verus! {

/// One persisted row of the record table: both columns are plain text.
#[derive(Debug)]
pub struct Row {
    pub name: String,
    pub date: String,
}

/// The store as the adapter sees it: whether the record table has been
/// created, and the rows it holds, in storage order. Records have no
/// identifier, so a row is addressable only as part of this collection.
pub struct Store {
    pub table_exists: bool,
    pub rows: Vec<Row>,
}

/// A store operation failed. The model fails exactly when an operation runs
/// against a table that was never created; the relational backend reports
/// its I/O failures through the same variant at the process edge.
#[derive(Clone, Copy, Debug, PartialEq, Eq)]
pub enum StoreError {
    MissingTable,
}

/// The store state after `initialize`: the table exists and no row is lost.
pub open spec fn spec_initialized(s: Store) -> Store {
    Store { table_exists: true, rows: s.rows }
}

/// The listing of a row sequence: one record value per row, in storage
/// order, each with an empty tag sequence (tags are never persisted).
pub open spec fn spec_listing(rows: Seq<Row>) -> Seq<RecordV> {
    rows.map_values(
        |row: Row| RecordV { name: row.name@, date: row.date@, tags: Seq::empty() },
    )
}

impl Store {
    /// A store whose backing file holds nothing yet: no table, no rows.
    pub fn new() -> (s: Store)
        ensures
            !s.table_exists,
            s.rows@ == Seq::<Row>::empty(),
    {
        Store { table_exists: false, rows: Vec::new() }
    }

    /// Creates the record table if it is absent. Idempotent: a second call
    /// changes nothing and loses no row.
    pub fn initialize(&mut self)
        ensures
            *final(self) == spec_initialized(*old(self)),
    {
        self.table_exists = true;
    }

    /// Appends one row holding the given name and date; both are accepted as
    /// arbitrary text. Fails exactly when the table was never created, and a
    /// failure leaves the store unchanged.
    pub fn insert(&mut self, name: String, date: String) -> (r: Result<(), StoreError>)
        ensures
            old(self).table_exists ==> r == Ok::<(), StoreError>(()) && final(self).table_exists
                && final(self).rows@ == old(self).rows@.push(Row { name, date }),
            !old(self).table_exists ==> r == Err::<(), StoreError>(StoreError::MissingTable)
                && *final(self) == *old(self),
    {
        if self.table_exists {
            self.rows.push(Row { name, date });
            Ok(())
        } else {
            Err(StoreError::MissingTable)
        }
    }

    /// Returns every stored row as a record, in storage order; tags are not
    /// stored, so every returned record carries an empty tag sequence. Fails
    /// exactly when the table was never created.
    pub fn list_all(&self) -> (r: Result<Vec<Record>, StoreError>)
        ensures
            self.table_exists ==> (r matches Ok(recs) && recs_view(recs@) == spec_listing(
                self.rows@,
            )),
            !self.table_exists ==> r == Err::<Vec<Record>, StoreError>(StoreError::MissingTable),
    {
        if !self.table_exists {
            return Err(StoreError::MissingTable);
        }
        let n = self.rows.len();
        let mut recs: Vec<Record> = Vec::new();
        let mut i: usize = 0;
        while i < n
            invariant
                n == self.rows@.len(),
                i <= n,
                recs@.len() == i,
                forall|j: int| 0 <= j < i ==> #[trigger] recs@[j]@ == spec_listing(self.rows@)[j],
            decreases n - i,
        {
            let rec = Record {
                name: self.rows[i].name.clone(),
                date: self.rows[i].date.clone(),
                tags: Vec::new(),
            };
            proof {
                assert(rec@ =~~= spec_listing(self.rows@)[i as int]);
            }
            recs.push(rec);
            i += 1;
        }
        proof {
            assert(recs_view(recs@) =~= spec_listing(self.rows@));
        }
        Ok(recs)
    }
}

/// The SQL run once at startup: creates the record table if it is absent.
pub fn create_table_sql() -> (r: &'static str)
    ensures
        r@ == "CREATE TABLE IF NOT EXISTS test_data (name TEXT, date TEXT)"@,
{
    "CREATE TABLE IF NOT EXISTS test_data (name TEXT, date TEXT)"
}

/// The SQL run for one insertion; the two parameters are the name and the
/// date, bound as text.
pub fn insert_sql() -> (r: &'static str)
    ensures
        r@ == "INSERT INTO test_data (name, date) VALUES (?1, ?2)"@,
{
    "INSERT INTO test_data (name, date) VALUES (?1, ?2)"
}

/// The SQL run for a listing: a full-table scan of both columns.
pub fn select_sql() -> (r: &'static str)
    ensures
        r@ == "SELECT name, date FROM test_data"@,
{
    "SELECT name, date FROM test_data"
}

/// Idempotent schema creation: initializing a store twice leaves the same
/// state as initializing it once — the table exists and no row is lost.
pub proof fn lemma_initialize_idempotent(s: Store)
    ensures
        spec_initialized(spec_initialized(s)) == spec_initialized(s),
{
}

/// Insert/list round trip: after one row is appended, the listing holds one
/// more record; the new record carries exactly the appended name and date
/// and an empty tag sequence, and every earlier record is unchanged.
pub proof fn lemma_insert_list_round_trip(rows: Seq<Row>, row: Row)
    ensures
        spec_listing(rows.push(row)).len() == rows.len() + 1,
        spec_listing(rows.push(row)).last() == (RecordV {
            name: row.name@,
            date: row.date@,
            tags: Seq::empty(),
        }),
        spec_listing(rows.push(row)).drop_last() == spec_listing(rows),
{
    assert(spec_listing(rows.push(row)).drop_last() =~= spec_listing(rows));
}

/// An empty table lists nothing.
pub proof fn lemma_empty_listing()
    ensures
        spec_listing(Seq::empty()) == Seq::<RecordV>::empty(),
{
    assert(spec_listing(Seq::empty()) =~= Seq::<RecordV>::empty());
}

/// Concurrent writers: two insertions reach the store one at a time, in
/// whichever order; either order leaves the same collection of rows, with
/// exactly two rows more, both of them present.
pub proof fn lemma_two_inserts(rows: Seq<Row>, a: Row, b: Row)
    ensures
        rows.push(a).push(b).to_multiset() == rows.push(b).push(a).to_multiset(),
        rows.push(a).push(b).len() == rows.len() + 2,
        rows.push(a).push(b).to_multiset().count(a) >= 1,
        rows.push(a).push(b).to_multiset().count(b) >= 1,
{
    broadcast use vstd::seq_lib::group_to_multiset_ensures;

    assert(rows.push(a).push(b).to_multiset() =~= rows.to_multiset().insert(a).insert(b));
    assert(rows.push(b).push(a).to_multiset() =~= rows.to_multiset().insert(b).insert(a));
    assert(rows.to_multiset().insert(a).insert(b) =~= rows.to_multiset().insert(b).insert(a));
}

} // verus!
