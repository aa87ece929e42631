//! The surface that a host process drives: one handle per kind of event.
//!
//! A handle owns a batching writer. The host sets the fields of a row, closes
//! the row and now and then asks for a flush; whatever goes wrong inside
//! comes back as a value.

use crate::exec::{ExecBatch, ExecBuilder};
use crate::spool::writer::{spooled_file, staged_file, Publication, SpoolError};
use crate::telemetry::writer::{WriteError, Writer};
use crate::traits::{TableBuilder, TableError};
use cxx::CxxString;
use vstd::prelude::*;
use vstd::string::*;

verus! {

/// `cxx::CxxString`: a string owned by the host. Nothing of it is visible
/// here. Its text is what `to_string` gives for it, which is its bytes read
/// as UTF-8, with the replacement character in place of what is not.
#[verifier::external_type_specification]
#[verifier::external_body]
pub struct ExCxxString(CxxString);

/// The number of rows that a handle made for the host collects in a batch.
pub const HOST_BATCH_SIZE: usize = 1000;

/// `after` is `before` with one entry more in each column of the
/// executable's path: the text `path` and the mark `truncated`, side by side.
pub open spec fn records_executable_path(
    before: ExecEventBuilder,
    after: ExecEventBuilder,
    path: Seq<char>,
    truncated: bool,
) -> bool {
    &&& after.builder().path_columns().paths() == before.builder().path_columns().paths().push(
        Some(path),
    )
    &&& after.builder().path_columns().flags() == before.builder().path_columns().flags().push(
        truncated,
    )
    &&& after.builder().closed_rows() == before.builder().closed_rows()
    &&& after.builder().pending() == before.builder().pending()
    &&& after.writer().spool() == before.writer().spool()
    &&& after.writer().batch_size() == before.writer().batch_size()
    &&& after.writer().buffered_rows() == before.writer().buffered_rows()
}

/// `made` is a fresh handle on the spool under `base`, with batches of
/// `batch_size` rows.
pub open spec fn opens_spool(made: ExecEventBuilder, base: Seq<char>, batch_size: nat) -> bool {
    &&& made.writer().batch_size() == batch_size
    &&& made.writer().buffered_rows() == 0
    &&& made.writer().spool().base() == base
    &&& made.writer().spool().unique_name() == "exec"@
    &&& made.writer().spool().sequence() == 0
    &&& made.builder().closed_rows() == 0
    &&& made.builder().path_columns().paths() == Seq::<Option<Seq<char>>>::empty()
    &&& made.builder().path_columns().flags() == Seq::<bool>::empty()
}

/// The handle for process executions.
pub struct ExecEventBuilder {
    writer: Writer<ExecBuilder>,
}

impl ExecEventBuilder {
    /// The batching writer that the handle owns.
    pub closed spec fn writer(&self) -> Writer<ExecBuilder> {
        self.writer
    }

    /// The table builder that holds the handle's rows.
    pub open spec fn builder(&self) -> ExecBuilder {
        self.writer().builder()
    }

    /// The writer counts the rows of the builder, fewer rows are buffered
    /// than a batch holds, and no column of the builder lacks an entry of a
    /// closed row. Every handle made and changed by the functions of this
    /// file is so.
    pub open spec fn inv(&self) -> bool {
        &&& self.writer().inv()
        &&& self.writer().buffered_rows() < self.writer().batch_size()
        &&& self.builder().well_formed()
    }

    /// A handle that spools under `spool_path`, `batch_size` rows at a time.
    /// No directory is created before the first batch is written.
    pub fn new(spool_path: &str, batch_size: usize) -> (made: Self)
        requires
            batch_size > 0,
        ensures
            made.inv(),
            opens_spool(made, spool_path@, batch_size as nat),
    {
        Self {
            writer: Writer::new(
                batch_size,
                crate::spool::writer::Writer::new("exec", spool_path),
                ExecBuilder::new(),
            ),
        }
    }

    /// The number of rows closed since the last batch.
    pub fn buffered(&self) -> (rows: usize)
        ensures
            rows == self.writer().buffered_rows(),
    {
        self.writer.buffered()
    }

    /// Sends the buffered rows to the spool as one batch: see
    /// [`Writer::flush`].
    ///
    /// With no row buffered nothing happens. With rows buffered the call
    /// succeeds exactly where no row is under construction and the spool
    /// writer has a number left.
    pub fn flush(&mut self) -> (sent: Result<Option<Publication<ExecBatch>>, WriteError>)
        requires
            old(self).inv(),
        ensures
            final(self).inv(),
            final(self).writer().batch_size() == old(self).writer().batch_size(),
            final(self).writer().spool().base() == old(self).writer().spool().base(),
            final(self).writer().spool().unique_name() == old(self).writer().spool().unique_name(),
            match sent {
                Ok(None) => old(self).writer().buffered_rows() == 0 && *final(self) == *old(self),
                Ok(Some(publication)) => {
                    &&& old(self).writer().buffered_rows() > 0
                    &&& old(self).builder().in_lockstep()
                    &&& old(self).writer().spool().sequence() < u64::MAX
                    &&& publication.batch.rows() == old(self).builder().pending()
                    &&& publication.tmp_file@ == staged_file(
                        old(self).writer().spool().base(),
                        old(self).writer().spool().sequence(),
                        old(self).writer().spool().unique_name(),
                    )
                    &&& publication.spool_file@ == spooled_file(
                        old(self).writer().spool().base(),
                        old(self).writer().spool().sequence(),
                        old(self).writer().spool().unique_name(),
                    )
                    &&& final(self).writer().spool().sequence() == old(
                        self,
                    ).writer().spool().sequence() + 1
                    &&& final(self).writer().buffered_rows() == 0
                    &&& final(self).builder().in_lockstep()
                },
                Err(WriteError::Finalize(error)) => {
                    &&& error == TableError::CannotFinalize
                    &&& old(self).writer().buffered_rows() > 0
                    &&& !old(self).builder().in_lockstep()
                    &&& final(self).builder().pending() == old(self).builder().pending()
                    &&& final(self).builder().column_lens() == old(self).builder().column_lens()
                    &&& final(self).writer().buffered_rows() == old(self).writer().buffered_rows()
                    &&& final(self).writer().spool() == old(self).writer().spool()
                },
                Err(WriteError::Spool(error)) => {
                    &&& old(self).writer().buffered_rows() > 0
                    &&& old(self).builder().in_lockstep()
                    &&& error == SpoolError::Exhausted
                    &&& old(self).writer().spool().sequence() == u64::MAX
                    &&& final(self).writer().spool().sequence() == u64::MAX
                    &&& final(self).writer().buffered_rows() == 0
                    &&& final(self).builder().in_lockstep()
                },
                Err(WriteError::Row(_)) => false,
            },
    {
        self.writer.flush()
    }

    /// Closes the row under construction and sends a batch to the spool once
    /// enough rows are buffered: see [`Writer::autocomplete`].
    ///
    /// The row is closed exactly where every column holds at most one entry
    /// for it. A full batch then reaches the spool unless the spool writer
    /// has no number left.
    pub fn autocomplete(&mut self) -> (sent: Result<Option<Publication<ExecBatch>>, WriteError>)
        requires
            old(self).inv(),
        ensures
            final(self).inv(),
            final(self).writer().batch_size() == old(self).writer().batch_size(),
            final(self).writer().spool().base() == old(self).writer().spool().base(),
            final(self).writer().spool().unique_name() == old(self).writer().spool().unique_name(),
            match sent {
                Ok(None) => {
                    &&& old(self).builder().completable()
                    &&& old(self).writer().buffered_rows() + 1 < old(self).writer().batch_size()
                    &&& final(self).builder().pending() == old(self).builder().pending().push(
                        old(self).builder().current_row(),
                    )
                    &&& final(self).writer().buffered_rows() == old(self).writer().buffered_rows()
                        + 1
                    &&& final(self).builder().in_lockstep()
                    &&& final(self).writer().spool() == old(self).writer().spool()
                },
                Ok(Some(publication)) => {
                    &&& old(self).builder().completable()
                    &&& old(self).writer().buffered_rows() + 1 >= old(self).writer().batch_size()
                    &&& old(self).writer().spool().sequence() < u64::MAX
                    &&& publication.batch.rows() == old(self).builder().pending().push(
                        old(self).builder().current_row(),
                    )
                    &&& publication.tmp_file@ == staged_file(
                        old(self).writer().spool().base(),
                        old(self).writer().spool().sequence(),
                        old(self).writer().spool().unique_name(),
                    )
                    &&& publication.spool_file@ == spooled_file(
                        old(self).writer().spool().base(),
                        old(self).writer().spool().sequence(),
                        old(self).writer().spool().unique_name(),
                    )
                    &&& final(self).writer().spool().sequence() == old(
                        self,
                    ).writer().spool().sequence() + 1
                    &&& final(self).writer().buffered_rows() == 0
                    &&& final(self).builder().in_lockstep()
                },
                Err(WriteError::Row(error)) => {
                    &&& error == TableError::OutOfLockstep
                    &&& !old(self).builder().completable()
                    &&& final(self).builder().pending() == old(self).builder().pending()
                    &&& final(self).builder().column_lens() == old(self).builder().column_lens()
                    &&& final(self).writer().buffered_rows() == old(self).writer().buffered_rows()
                    &&& final(self).writer().spool() == old(self).writer().spool()
                },
                Err(WriteError::Spool(error)) => {
                    &&& old(self).builder().completable()
                    &&& old(self).writer().buffered_rows() + 1 >= old(self).writer().batch_size()
                    &&& error == SpoolError::Exhausted
                    &&& old(self).writer().spool().sequence() == u64::MAX
                    &&& final(self).writer().spool().sequence() == u64::MAX
                    &&& final(self).writer().buffered_rows() == 0
                    &&& final(self).builder().in_lockstep()
                },
                Err(WriteError::Finalize(_)) => false,
            },
    {
        self.writer.autocomplete()
    }

    /// Sets the path of the executable for the row under construction, with
    /// the mark that says whether the path was cut short. Both are recorded
    /// as given: a path is never refused for its length.
    pub fn set_executable_path_text(&mut self, path: &str, truncated: bool)
        requires
            old(self).inv(),
        ensures
            final(self).inv(),
            records_executable_path(*old(self), *final(self), path@, truncated),
    {
        let ghost before = self.writer.builder();
        let columns = self.writer.table_builder().executable_path();
        columns.append_path(String::from_str(path));
        columns.append_truncated(truncated);
        proof {
            crate::exec::lemma_appending_keeps_closed_rows(before, self.writer.builder());
        }
    }

    /// Sets the path of the executable from a string of the host: its text
    /// is recorded as `set_executable_path_text` records it.
    pub fn set_executable_path(&mut self, path: &CxxString, truncated: bool)
        requires
            old(self).inv(),
        ensures
            final(self).inv(),
            exists|text: String|
                to_string_from_display_ensures::<CxxString>(path, text)
                    && #[trigger] records_executable_path(
                    *old(self),
                    *final(self),
                    text@,
                    truncated,
                ),
    {
        let text: String = path.to_string();
        self.set_executable_path_text(text.as_str(), truncated);
    }
}

/// Makes the handle that the host drives, on the spool under the path that
/// the host names, with batches of `HOST_BATCH_SIZE` rows.
pub fn new_exec_builder(spool_path: &CxxString) -> (made: Box<ExecEventBuilder>)
    ensures
        made.inv(),
        exists|text: String|
            to_string_from_display_ensures::<CxxString>(spool_path, text) && #[trigger] opens_spool(
                *made,
                text@,
                HOST_BATCH_SIZE as nat,
            ),
{
    let text: String = spool_path.to_string();
    Box::new(ExecEventBuilder::new(text.as_str(), HOST_BATCH_SIZE))
}

} // verus!
