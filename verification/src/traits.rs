//! What a columnar row builder has to offer to be driven by the batching
//! writer.

use vstd::prelude::*;

verus! {

/// Why a row builder refuses to go on.
#[derive(Debug, Clone, Copy, PartialEq, Eq)]
pub enum TableError {
    /// A column holds fewer or more entries than the row under construction
    /// allows: some caller has set a field out of turn.
    OutOfLockstep,
    /// The pending rows cannot be made into a batch.
    CannotFinalize,
}

/// Every column holds exactly `n` entries.
pub open spec fn lockstep_at(lens: Seq<nat>, n: nat) -> bool {
    forall|i: int| 0 <= i < lens.len() ==> lens[i] == n
}

/// Every column holds the `n` finished rows and at most one entry for the
/// row under construction.
pub open spec fn completable_at(lens: Seq<nat>, n: nat) -> bool {
    forall|i: int| 0 <= i < lens.len() ==> n <= #[trigger] lens[i] <= n + 1
}

/// `low` is the least and `high` the greatest number of entries that a
/// column holds. Of a table without columns, the two are merely equal.
pub open spec fn spans(lens: Seq<nat>, low: nat, high: nat) -> bool {
    &&& forall|i: int| 0 <= i < lens.len() ==> low <= #[trigger] lens[i] <= high
    &&& lens.len() > 0 ==> exists|i: int| 0 <= i < lens.len() && #[trigger] lens[i] == low
    &&& lens.len() > 0 ==> exists|i: int| 0 <= i < lens.len() && #[trigger] lens[i] == high
    &&& lens.len() == 0 ==> low == high
}

/// The two ends of the range of a row count meet exactly where the columns
/// agree, and they meet at the number of entries that every column holds.
pub proof fn lemma_range_meets_in_lockstep(lens: Seq<nat>, low: nat, high: nat)
    requires
        spans(lens, low, high),
        lens.len() > 0,
    ensures
        low == high <==> lockstep_at(lens, low),
        forall|n: nat| lockstep_at(lens, n) ==> low == n && high == n,
{
    let i = choose|i: int| 0 <= i < lens.len() && #[trigger] lens[i] == low;
    let j = choose|j: int| 0 <= j < lens.len() && #[trigger] lens[j] == high;
    assert(lens[i] == low && lens[j] == high);
}

/// A builder of one table: it collects the fields of a row column by
/// column, closes the row, and turns the closed rows into a batch.
///
/// The fields are set through methods of the implementing type, one schema
/// each. They never fail and leave the closed rows as they are.
pub trait TableBuilder: Sized {
    /// The immutable columnar snapshot that `flush` produces.
    type Batch;

    /// One row of the table, as a mathematical value.
    type Row;

    /// The rows closed since the last batch, oldest first.
    spec fn pending(&self) -> Seq<Self::Row>;

    /// The row under construction as it would be closed now: the fields that
    /// were set, and the schema's default for every other one.
    spec fn current_row(&self) -> Self::Row;

    /// The number of entries in each column.
    spec fn column_lens(&self) -> Seq<nat>;

    /// The rows that a batch holds, oldest first.
    spec fn batch_rows(batch: &Self::Batch) -> Seq<Self::Row>;

    /// Whether `autocomplete` succeeds. An implementation says here when it
    /// can close a row; it must be able to wherever no column is out of
    /// lockstep.
    spec fn closable(&self) -> bool;

    /// Whether `flush` succeeds. An implementation says here when it can
    /// make its pending rows into a batch.
    spec fn finalizable(&self) -> bool;

    /// The least and the greatest number of entries over all columns. The two
    /// are equal exactly when the columns agree.
    fn row_count(&self) -> (range: (usize, usize))
        ensures
            spans(self.column_lens(), range.0 as nat, range.1 as nat),
    ;

    /// Closes the row under construction: every column that has no entry for
    /// it gets the schema's default, and the row joins the pending ones.
    ///
    /// It fails only where some column is out of lockstep with the others,
    /// and then no row is closed and no column grows.
    fn autocomplete(&mut self) -> (done: Result<(), TableError>)
        ensures
            done is Ok <==> old(self).closable(),
            done is Ok ==> {
                &&& final(self).pending() == old(self).pending().push(old(self).current_row())
                &&& final(self).pending().len() <= usize::MAX
                &&& lockstep_at(final(self).column_lens(), final(self).pending().len())
            },
            done is Err ==> {
                &&& done->Err_0 == TableError::OutOfLockstep
                &&& final(self).pending() == old(self).pending()
                &&& final(self).column_lens() == old(self).column_lens()
                &&& !completable_at(old(self).column_lens(), old(self).pending().len())
            },
    ;

    /// Turns the pending rows into one batch and starts over with none.
    ///
    /// Where it fails, the pending rows and the columns' lengths stay, and
    /// the builder is no more able to make a batch than it was.
    fn flush(&mut self) -> (batch: Result<Self::Batch, TableError>)
        ensures
            batch is Ok <==> old(self).finalizable(),
            match batch {
                Ok(batch) => {
                    &&& Self::batch_rows(&batch) == old(self).pending()
                    &&& final(self).pending().len() == 0
                    &&& lockstep_at(final(self).column_lens(), 0)
                },
                Err(error) => {
                    &&& error == TableError::CannotFinalize
                    &&& !final(self).finalizable()
                    &&& final(self).pending() == old(self).pending()
                    &&& final(self).column_lens() == old(self).column_lens()
                },
            },
    ;
}

} // verus!
