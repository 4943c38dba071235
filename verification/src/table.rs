//! The service's model of the stored table. The rows live in an external
//! relational store; this type states what the service assumes of it — in
//! particular the storage-layer uniqueness of `id` — and is what the
//! storage-dependent guarantees are proved against.
use crate::row::{row_views, DataRow, RowModel};
use vstd::prelude::*;

verus! {

/// The one failure the table itself produces: the uniqueness rule on `id`
/// rejects a second row with an id already present. There is no overwrite
/// and no upsert.
#[derive(Debug, PartialEq, Eq, Structural)]
pub enum InsertError {
    DuplicateId,
}

/// Does `rows` hold a row with this id?
pub open spec fn spec_contains_id(rows: Seq<RowModel>, id: int) -> bool {
    exists|i: int| 0 <= i < rows.len() && rows[i].id == id
}

/// Every id occurs at most once.
pub open spec fn ids_unique(rows: Seq<RowModel>) -> bool {
    forall|i: int, j: int| 0 <= i < j < rows.len() ==> rows[i].id != rows[j].id
}

/// A table of rows, each with a distinct id. Rows are only ever listed and
/// inserted, never updated or deleted.
pub struct Table {
    rows: Vec<DataRow>,
}

impl View for Table {
    type V = Seq<RowModel>;

    closed spec fn view(&self) -> Seq<RowModel> {
        row_views(self.rows@)
    }
}

impl Table {
    /// An empty table.
    pub fn new() -> (t: Table)
        ensures
            t@ == Seq::<RowModel>::empty(),
            ids_unique(t@),
    {
        let t = Table { rows: Vec::new() };
        proof {
            assert(t@ =~= Seq::<RowModel>::empty());
        }
        t
    }

    /// How many rows the table holds.
    pub fn row_count(&self) -> (n: usize)
        ensures
            n == self@.len(),
    {
        self.rows.len()
    }

    /// Every row, in insertion order. The order a real store returns is
    /// not a stable contract; this model keeps the one order it has.
    pub fn rows(&self) -> (r: &Vec<DataRow>)
        ensures
            row_views(r@) == self@,
    {
        &self.rows
    }

    /// Whether a row with this id is already present.
    pub fn contains_id(&self, id: i32) -> (b: bool)
        ensures
            b == spec_contains_id(self@, id as int),
    {
        let mut i: usize = 0;
        while i < self.rows.len()
            invariant
                i <= self.rows.len(),
                self@.len() == self.rows@.len(),
                forall|k: int| 0 <= k < i ==> self@[k].id != id as int,
            decreases self.rows.len() - i,
        {
            if self.rows[i].id == id {
                proof {
                    assert(self@[i as int].id == id as int);
                }
                return true;
            }
            i += 1;
        }
        false
    }

    /// Inserts one row. A fresh id is appended; an id already present is
    /// refused and the table is left exactly as it was.
    pub fn insert(&mut self, row: DataRow) -> (r: Result<(), InsertError>)
        ensures
            spec_contains_id(old(self)@, row@.id) ==> r == Err::<(), InsertError>(
                InsertError::DuplicateId,
            ) && final(self)@ == old(self)@,
            !spec_contains_id(old(self)@, row@.id) ==> r == Ok::<(), InsertError>(())
                && final(self)@ == old(self)@.push(row@),
            ids_unique(old(self)@) ==> ids_unique(final(self)@),
    {
        if self.contains_id(row.id) {
            Err(InsertError::DuplicateId)
        } else {
            let ghost pre = self@;
            let ghost rv = row@;
            self.rows.push(row);
            proof {
                assert(self@ =~= pre.push(rv));
                if ids_unique(pre) {
                    assert forall|i: int, j: int|
                        0 <= i < j < self@.len() implies self@[i].id != self@[j].id by {
                        if j < pre.len() {
                            assert(self@[i] == pre[i]);
                            assert(self@[j] == pre[j]);
                        } else {
                            assert(self@[i] == pre[i]);
                            assert(self@[j] == rv);
                            assert(!spec_contains_id(pre, rv.id));
                        }
                    }
                }
            }
            Ok(())
        }
    }
}

} // verus!
