//! The batching writer: it counts the rows that a table builder has closed
//! and hands a batch to the spool whenever enough of them have come together.

use crate::spool::writer::{spooled_file, staged_file, Publication, SpoolError};
use crate::traits::{completable_at, lockstep_at, TableBuilder, TableError};
use vstd::prelude::*;

verus! {

/// Why a row was not recorded or a batch did not reach the spool.
#[derive(Debug, Clone, Copy, PartialEq, Eq)]
pub enum WriteError {
    /// The table builder could not close the row: the row is not recorded.
    Row(TableError),
    /// The table builder could not make a batch: the rows stay buffered.
    Finalize(TableError),
    /// The spool took no batch: the rows of that batch are lost.
    Spool(SpoolError),
}

/// What the host is told of an error, in words.
pub open spec fn description(error: WriteError) -> Seq<char> {
    match error {
        WriteError::Row(_) => "a column is out of lockstep: the row is not recorded"@,
        WriteError::Finalize(_) => "the buffered rows cannot be made into a batch"@,
        WriteError::Spool(_) => "the spool takes no more batches: the rows are lost"@,
    }
}

impl WriteError {
    /// Says in words what went wrong.
    pub fn describe(&self) -> (text: &'static str)
        ensures
            text@ == description(*self),
    {
        match self {
            WriteError::Row(_) => "a column is out of lockstep: the row is not recorded",
            WriteError::Finalize(_) => "the buffered rows cannot be made into a batch",
            WriteError::Spool(_) => "the spool takes no more batches: the rows are lost",
        }
    }
}

/// What closing one row does to a buffer of `buffered` rows: the rows that
/// stay buffered, and the batch that leaves, if the buffer has become full.
pub open spec fn step<R>(batch_size: nat, buffered: Seq<R>, row: R) -> (Seq<R>, Option<Seq<R>>) {
    let rows = buffered.push(row);
    if rows.len() >= batch_size {
        (Seq::empty(), Some(rows))
    } else {
        (rows, None)
    }
}

/// What closing `rows` one after the other does to an empty buffer: the rows
/// that are buffered in the end, and the batches that have left, in order.
pub open spec fn run<R>(batch_size: nat, rows: Seq<R>) -> (Seq<R>, Seq<Seq<R>>)
    decreases rows.len(),
{
    if rows.len() == 0 {
        (Seq::empty(), Seq::empty())
    } else {
        let (buffered, batches) = run(batch_size, rows.drop_last());
        let (left, batch) = step(batch_size, buffered, rows.last());
        match batch {
            Some(batch) => (left, batches.push(batch)),
            None => (left, batches),
        }
    }
}

/// Fewer rows than a batch holds all stay buffered, and no batch leaves.
pub proof fn lemma_short_run_stays_buffered<R>(batch_size: nat, rows: Seq<R>)
    requires
        rows.len() < batch_size,
    ensures
        run(batch_size, rows) == (rows, Seq::<Seq<R>>::empty()),
    decreases rows.len(),
{
    if rows.len() > 0 {
        lemma_short_run_stays_buffered(batch_size, rows.drop_last());
    }
}

/// As many rows as a batch holds leave as one batch, in the order in which
/// they were closed, and none stays buffered.
pub proof fn lemma_full_run_leaves_as_one_batch<R>(batch_size: nat, rows: Seq<R>)
    requires
        batch_size > 0,
        rows.len() == batch_size,
    ensures
        run(batch_size, rows) == (Seq::<R>::empty(), seq![rows]),
{
    lemma_short_run_stays_buffered(batch_size, rows.drop_last());
    assert(rows.drop_last().push(rows.last()) =~= rows);
}

/// The rows of some batches, one batch after the other.
pub open spec fn gathered<R>(batches: Seq<Seq<R>>) -> Seq<R>
    decreases batches.len(),
{
    if batches.len() == 0 {
        Seq::empty()
    } else {
        gathered(batches.drop_last()) + batches.last()
    }
}

/// Every row that was closed is in exactly one place: in one of the batches
/// that have left or in the buffer, and in the order in which it was closed.
pub proof fn lemma_every_row_is_accounted_for<R>(batch_size: nat, rows: Seq<R>)
    ensures
        gathered(run(batch_size, rows).1) + run(batch_size, rows).0 == rows,
    decreases rows.len(),
{
    if rows.len() > 0 {
        let (buffered, batches) = run(batch_size, rows.drop_last());
        lemma_every_row_is_accounted_for(batch_size, rows.drop_last());
        let full = buffered.push(rows.last());
        assert(batches.push(full).drop_last() =~= batches);
        assert(rows.drop_last().push(rows.last()) =~= rows);
    }
}

/// Every batch that leaves without a manual flush holds exactly
/// `batch_size` rows, and fewer than that stay buffered.
pub proof fn lemma_run_sends_full_batches<R>(batch_size: nat, rows: Seq<R>)
    requires
        batch_size > 0,
    ensures
        run(batch_size, rows).0.len() < batch_size,
        rows.len() == run(batch_size, rows).1.len() * batch_size + run(batch_size, rows).0.len(),
        forall|i: int|
            0 <= i < run(batch_size, rows).1.len() ==> (#[trigger] run(batch_size, rows).1[i]).len()
                == batch_size,
    decreases rows.len(),
{
    if rows.len() > 0 {
        lemma_run_sends_full_batches(batch_size, rows.drop_last());
        let sent = run(batch_size, rows.drop_last()).1.len() as int;
        let size = batch_size as int;
        assert((sent + 1) * size == sent * size + size) by (nonlinear_arith);
    }
}

/// Wraps a spool writer for one kind of table: rows are buffered in the
/// table builder and go to the spool a batch at a time.
pub struct Writer<T: TableBuilder> {
    table_builder: T,
    inner: crate::spool::writer::Writer,
    batch_size: usize,
    buffered_rows: usize,
}

impl<T: TableBuilder> Writer<T> {
    /// The table builder that holds the buffered rows.
    pub closed spec fn builder(&self) -> T {
        self.table_builder
    }

    /// The spool writer that names the batches' files.
    pub closed spec fn spool(&self) -> crate::spool::writer::Writer {
        self.inner
    }

    /// The number of buffered rows at which a batch leaves.
    pub closed spec fn batch_size(&self) -> nat {
        self.batch_size as nat
    }

    /// The number of rows closed since the last batch.
    pub closed spec fn buffered_rows(&self) -> nat {
        self.buffered_rows as nat
    }

    /// The writer counts exactly the rows that its table builder holds.
    pub open spec fn inv(&self) -> bool {
        &&& self.batch_size() > 0
        &&& self.buffered_rows() == self.builder().pending().len()
    }

    /// A writer that sends the rows of `table_builder` to `writer`, `batch_size`
    /// rows at a time.
    pub fn new(batch_size: usize, writer: crate::spool::writer::Writer, table_builder: T) -> (made:
        Self)
        requires
            batch_size > 0,
        ensures
            made.batch_size() == batch_size,
            made.buffered_rows() == 0,
            made.spool() == writer,
            made.builder() == table_builder,
            table_builder.pending().len() == 0 ==> made.inv(),
    {
        Self { table_builder: table_builder, inner: writer, batch_size: batch_size, buffered_rows: 0 }
    }

    /// The table builder, to set the fields of the row under construction.
    pub fn table_builder(&mut self) -> (table_builder: &mut T)
        ensures
            *table_builder == old(self).builder(),
            final(self).builder() == *final(table_builder),
            final(self).spool() == old(self).spool(),
            final(self).batch_size() == old(self).batch_size(),
            final(self).buffered_rows() == old(self).buffered_rows(),
    {
        &mut self.table_builder
    }

    /// The number of rows closed since the last batch.
    pub fn buffered(&self) -> (rows: usize)
        ensures
            rows == self.buffered_rows(),
    {
        self.buffered_rows
    }

    /// Sends the buffered rows to the spool as one batch.
    ///
    /// With no row buffered nothing happens. Otherwise the table builder
    /// makes the batch and the spool writer says where it goes: the result
    /// holds the batch and its two files. Where the table builder fails the
    /// rows stay buffered; where the spool writer fails they are lost.
    pub fn flush(&mut self) -> (sent: Result<Option<Publication<T::Batch>>, WriteError>)
        requires
            old(self).inv(),
        ensures
            final(self).inv(),
            final(self).batch_size() == old(self).batch_size(),
            final(self).spool().base() == old(self).spool().base(),
            final(self).spool().unique_name() == old(self).spool().unique_name(),
            match sent {
                Ok(None) => old(self).buffered_rows() == 0 && *final(self) == *old(self),
                Ok(Some(publication)) => {
                    &&& old(self).buffered_rows() > 0
                    &&& old(self).builder().finalizable()
                    &&& old(self).spool().sequence() < u64::MAX
                    &&& T::batch_rows(&publication.batch) == old(self).builder().pending()
                    &&& publication.tmp_file@ == staged_file(
                        old(self).spool().base(),
                        old(self).spool().sequence(),
                        old(self).spool().unique_name(),
                    )
                    &&& publication.spool_file@ == spooled_file(
                        old(self).spool().base(),
                        old(self).spool().sequence(),
                        old(self).spool().unique_name(),
                    )
                    &&& final(self).spool().sequence() == old(self).spool().sequence() + 1
                    &&& final(self).buffered_rows() == 0
                    &&& lockstep_at(final(self).builder().column_lens(), 0)
                },
                Err(WriteError::Finalize(error)) => {
                    &&& error == TableError::CannotFinalize
                    &&& old(self).buffered_rows() > 0
                    &&& !old(self).builder().finalizable()
                    &&& !final(self).builder().finalizable()
                    &&& final(self).builder().pending() == old(self).builder().pending()
                    &&& final(self).builder().column_lens() == old(self).builder().column_lens()
                    &&& final(self).spool() == old(self).spool()
                },
                Err(WriteError::Spool(error)) => {
                    &&& old(self).buffered_rows() > 0
                    &&& old(self).builder().finalizable()
                    &&& error == SpoolError::Exhausted
                    &&& old(self).spool().sequence() == u64::MAX
                    &&& final(self).spool().sequence() == old(self).spool().sequence()
                    &&& final(self).buffered_rows() == 0
                    &&& lockstep_at(final(self).builder().column_lens(), 0)
                },
                Err(WriteError::Row(_)) => false,
            },
    {
        if self.buffered_rows == 0 {
            return Ok(None);
        }
        let batch: T::Batch = match self.table_builder.flush() {
            Ok(batch) => batch,
            Err(error) => {
                return Err(WriteError::Finalize(error));
            },
        };
        self.buffered_rows = 0;
        match self.inner.write_record_batch(batch) {
            Ok(publication) => Ok(Some(publication)),
            Err(error) => Err(WriteError::Spool(error)),
        }
    }

    /// Closes the row under construction and, once `batch_size` rows are
    /// buffered, sends them to the spool as `flush` does.
    ///
    /// Where the table builder cannot close the row, the row is not
    /// recorded and the count of buffered rows stays.
    pub fn autocomplete(&mut self) -> (sent: Result<Option<Publication<T::Batch>>, WriteError>)
        requires
            old(self).inv(),
        ensures
            final(self).inv(),
            final(self).batch_size() == old(self).batch_size(),
            final(self).spool().base() == old(self).spool().base(),
            final(self).spool().unique_name() == old(self).spool().unique_name(),
            match sent {
                Ok(None) => {
                    &&& old(self).builder().closable()
                    &&& step(
                        old(self).batch_size(),
                        old(self).builder().pending(),
                        old(self).builder().current_row(),
                    ) == (final(self).builder().pending(), None::<Seq<T::Row>>)
                    &&& final(self).spool() == old(self).spool()
                    &&& lockstep_at(final(self).builder().column_lens(), final(self).buffered_rows())
                },
                Ok(Some(publication)) => {
                    &&& old(self).builder().closable()
                    &&& old(self).spool().sequence() < u64::MAX
                    &&& step(
                        old(self).batch_size(),
                        old(self).builder().pending(),
                        old(self).builder().current_row(),
                    ) == (final(self).builder().pending(), Some(T::batch_rows(&publication.batch)))
                    &&& publication.tmp_file@ == staged_file(
                        old(self).spool().base(),
                        old(self).spool().sequence(),
                        old(self).spool().unique_name(),
                    )
                    &&& publication.spool_file@ == spooled_file(
                        old(self).spool().base(),
                        old(self).spool().sequence(),
                        old(self).spool().unique_name(),
                    )
                    &&& final(self).spool().sequence() == old(self).spool().sequence() + 1
                    &&& lockstep_at(final(self).builder().column_lens(), 0)
                },
                Err(WriteError::Row(error)) => {
                    &&& error == TableError::OutOfLockstep
                    &&& !old(self).builder().closable()
                    &&& !completable_at(
                        old(self).builder().column_lens(),
                        old(self).builder().pending().len(),
                    )
                    &&& final(self).builder().pending() == old(self).builder().pending()
                    &&& final(self).builder().column_lens() == old(self).builder().column_lens()
                    &&& final(self).spool() == old(self).spool()
                },
                Err(WriteError::Finalize(error)) => {
                    &&& error == TableError::CannotFinalize
                    &&& old(self).builder().closable()
                    &&& old(self).buffered_rows() + 1 >= old(self).batch_size()
                    &&& final(self).builder().pending() == old(self).builder().pending().push(
                        old(self).builder().current_row(),
                    )
                    &&& lockstep_at(final(self).builder().column_lens(), final(self).buffered_rows())
                    &&& !final(self).builder().finalizable()
                    &&& final(self).spool() == old(self).spool()
                },
                Err(WriteError::Spool(error)) => {
                    &&& old(self).builder().closable()
                    &&& old(self).buffered_rows() + 1 >= old(self).batch_size()
                    &&& error == SpoolError::Exhausted
                    &&& old(self).spool().sequence() == u64::MAX
                    &&& final(self).spool().sequence() == old(self).spool().sequence()
                    &&& final(self).buffered_rows() == 0
                    &&& lockstep_at(final(self).builder().column_lens(), 0)
                },
            },
    {
        match self.table_builder.autocomplete() {
            Ok(()) => {},
            Err(error) => {
                return Err(WriteError::Row(error));
            },
        }
        self.buffered_rows = self.buffered_rows + 1;
        if self.buffered_rows >= self.batch_size {
            let sent = self.flush();
            return sent;
        }
        Ok(None)
    }

    /// The directory that the spool was opened on.
    pub fn path(&self) -> (path: &str)
        ensures
            path@ == self.spool().base(),
    {
        self.inner.path()
    }
}

} // verus!
