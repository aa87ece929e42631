//! The table of process executions: its row, its builder and its batch.

use crate::traits::{completable_at, lockstep_at, TableBuilder, TableError};
use vstd::prelude::*;

verus! {

/// One process execution, as the table records it.
pub struct ExecRow {
    /// The path of the executable, where one was given.
    pub executable_path: Option<Seq<char>>,
    /// Whether that path was cut short before it got here.
    pub truncated: bool,
}

/// What a text column holds at one place, as a mathematical value.
pub open spec fn text_of(entry: Option<String>) -> Option<Seq<char>> {
    match entry {
        Some(text) => Some(text@),
        None => None,
    }
}

/// What a text column holds, entry by entry.
pub open spec fn texts_of(column: Seq<Option<String>>) -> Seq<Option<Seq<char>>> {
    Seq::new(column.len(), |i: int| text_of(column[i]))
}

/// The row made of entry `i` of each column. A column that has no entry `i`
/// gives the default of its field: no path, not truncated.
pub open spec fn row_at(paths: Seq<Option<Seq<char>>>, flags: Seq<bool>, i: int) -> ExecRow {
    ExecRow {
        executable_path: if 0 <= i < paths.len() {
            paths[i]
        } else {
            None
        },
        truncated: if 0 <= i < flags.len() {
            flags[i]
        } else {
            false
        },
    }
}

/// The first `n` rows of two columns.
pub open spec fn rows_of(paths: Seq<Option<Seq<char>>>, flags: Seq<bool>, n: nat) -> Seq<ExecRow> {
    Seq::new(n, |i: int| row_at(paths, flags, i))
}

/// The two columns that record a path: the text and the mark of truncation.
#[derive(Debug)]
pub struct PathBuilder {
    path: Vec<Option<String>>,
    truncated: Vec<bool>,
}

impl PathBuilder {
    /// The entries of the text column.
    pub closed spec fn paths(&self) -> Seq<Option<Seq<char>>> {
        texts_of(self.path@)
    }

    /// The entries of the truncation column.
    pub closed spec fn flags(&self) -> Seq<bool> {
        self.truncated@
    }

    /// Two empty columns.
    pub fn new() -> (columns: Self)
        ensures
            columns.paths() == Seq::<Option<Seq<char>>>::empty(),
            columns.flags() == Seq::<bool>::empty(),
    {
        PathBuilder { path: Vec::new(), truncated: Vec::new() }
    }

    /// Adds a path to the text column.
    pub fn append_path(&mut self, path: String)
        ensures
            final(self).paths() == old(self).paths().push(Some(path@)),
            final(self).flags() == old(self).flags(),
    {
        self.path.push(Some(path));
    }

    /// Adds a mark to the truncation column.
    pub fn append_truncated(&mut self, truncated: bool)
        ensures
            final(self).paths() == old(self).paths(),
            final(self).flags() == old(self).flags().push(truncated),
    {
        self.truncated.push(truncated);
    }
}

/// A finished batch of process executions, column by column. Every column
/// holds one entry per row.
#[derive(Debug)]
pub struct ExecBatch {
    executable_path: Vec<Option<String>>,
    truncated: Vec<bool>,
}

impl ExecBatch {
    #[verifier::type_invariant]
    spec fn columns_agree(&self) -> bool {
        self.executable_path@.len() == self.truncated@.len()
    }

    /// The path of each row, or nothing where none was given.
    pub closed spec fn paths(&self) -> Seq<Option<Seq<char>>> {
        texts_of(self.executable_path@)
    }

    /// The mark of truncation of each row.
    pub closed spec fn flags(&self) -> Seq<bool> {
        self.truncated@
    }

    /// The rows of the batch, oldest first.
    pub open spec fn rows(&self) -> Seq<ExecRow> {
        rows_of(self.paths(), self.flags(), self.paths().len())
    }

    /// The number of rows in the batch.
    pub fn num_rows(&self) -> (n: usize)
        ensures
            n == self.rows().len(),
            n == self.paths().len(),
            n == self.flags().len(),
    {
        proof {
            use_type_invariant(self);
        }
        self.executable_path.len()
    }

    /// The column of paths.
    pub fn executable_paths(&self) -> (column: &Vec<Option<String>>)
        ensures
            texts_of(column@) == self.paths(),
    {
        &self.executable_path
    }

    /// The column of truncation marks.
    pub fn truncated_flags(&self) -> (column: &Vec<bool>)
        ensures
            column@ == self.flags(),
    {
        &self.truncated
    }
}

/// The builder of the table of process executions.
#[derive(Debug)]
pub struct ExecBuilder {
    rows: usize,
    executable_path: PathBuilder,
}

impl ExecBuilder {
    /// The number of rows closed since the last batch.
    pub closed spec fn closed_rows(&self) -> nat {
        self.rows as nat
    }

    /// The columns that record the path of the executable.
    pub closed spec fn path_columns(&self) -> PathBuilder {
        self.executable_path
    }

    /// No column is shorter than the closed rows are many. Every builder made
    /// and changed by the functions of this file is so.
    pub open spec fn well_formed(&self) -> bool {
        &&& self.closed_rows() <= self.path_columns().paths().len()
        &&& self.closed_rows() <= self.path_columns().flags().len()
    }

    /// Every column holds the closed rows and nothing else.
    pub open spec fn in_lockstep(&self) -> bool {
        lockstep_at(self.column_lens(), self.closed_rows())
    }

    /// Every column holds the closed rows and at most one entry more.
    pub open spec fn completable(&self) -> bool {
        completable_at(self.column_lens(), self.closed_rows())
    }

    /// A builder with no rows and empty columns.
    pub fn new() -> (builder: Self)
        ensures
            builder.closed_rows() == 0,
            builder.path_columns().paths() == Seq::<Option<Seq<char>>>::empty(),
            builder.path_columns().flags() == Seq::<bool>::empty(),
    {
        ExecBuilder { rows: 0, executable_path: PathBuilder::new() }
    }

    /// The columns of the executable's path, to set that field of the row
    /// under construction.
    pub fn executable_path(&mut self) -> (columns: &mut PathBuilder)
        ensures
            *columns == old(self).path_columns(),
            final(self).path_columns() == *final(columns),
            final(self).closed_rows() == old(self).closed_rows(),
    {
        &mut self.executable_path
    }
}

/// Entries added to the columns of a well-formed builder leave its closed
/// rows as they are.
pub proof fn lemma_appending_keeps_closed_rows(before: ExecBuilder, after: ExecBuilder)
    requires
        before.well_formed(),
        after.closed_rows() == before.closed_rows(),
        before.path_columns().paths().is_prefix_of(after.path_columns().paths()),
        before.path_columns().flags().is_prefix_of(after.path_columns().flags()),
    ensures
        after.well_formed(),
        after.pending() == before.pending(),
{
}

impl TableBuilder for ExecBuilder {
    type Batch = ExecBatch;

    type Row = ExecRow;

    open spec fn pending(&self) -> Seq<ExecRow> {
        rows_of(self.path_columns().paths(), self.path_columns().flags(), self.closed_rows())
    }

    open spec fn current_row(&self) -> ExecRow {
        row_at(self.path_columns().paths(), self.path_columns().flags(), self.closed_rows() as int)
    }

    open spec fn column_lens(&self) -> Seq<nat> {
        seq![self.path_columns().paths().len(), self.path_columns().flags().len()]
    }

    open spec fn batch_rows(batch: &ExecBatch) -> Seq<ExecRow> {
        batch.rows()
    }

    open spec fn closable(&self) -> bool {
        self.completable()
    }

    open spec fn finalizable(&self) -> bool {
        self.in_lockstep()
    }

    fn row_count(&self) -> (range: (usize, usize)) {
        let paths: usize = self.executable_path.path.len();
        let flags: usize = self.executable_path.truncated.len();
        if paths <= flags {
            (paths, flags)
        } else {
            (flags, paths)
        }
    }

    /// Succeeds exactly where the builder is completable. A path that was
    /// not set is recorded as absent, a mark that was not set as `false`.
    fn autocomplete(&mut self) -> (done: Result<(), TableError>)
        ensures
            done is Err ==> *final(self) == *old(self),
    {
        let rows: usize = self.rows;
        let paths: usize = self.executable_path.path.len();
        let flags: usize = self.executable_path.truncated.len();
        if paths < rows || paths - rows > 1 || flags < rows || flags - rows > 1 {
            return Err(TableError::OutOfLockstep);
        }
        if paths == rows {
            self.executable_path.path.push(None);
        }
        if flags == rows {
            self.executable_path.truncated.push(false);
        }
        self.rows = self.executable_path.path.len();
        Ok(())
    }

    /// Succeeds exactly where the builder is in lockstep.
    fn flush(&mut self) -> (batch: Result<ExecBatch, TableError>)
        ensures
            batch is Ok ==> {
                &&& batch->Ok_0.paths() == old(self).path_columns().paths()
                &&& batch->Ok_0.flags() == old(self).path_columns().flags()
                &&& final(self).path_columns().paths() == Seq::<Option<Seq<char>>>::empty()
                &&& final(self).path_columns().flags() == Seq::<bool>::empty()
            },
            batch is Err ==> *final(self) == *old(self),
    {
        let rows: usize = self.rows;
        let paths: usize = self.executable_path.path.len();
        let flags: usize = self.executable_path.truncated.len();
        if paths != rows || flags != rows {
            return Err(TableError::CannotFinalize);
        }
        let mut executable_path: Vec<Option<String>> = Vec::new();
        let mut truncated: Vec<bool> = Vec::new();
        core::mem::swap(&mut self.executable_path.path, &mut executable_path);
        core::mem::swap(&mut self.executable_path.truncated, &mut truncated);
        self.rows = 0;
        Ok(ExecBatch { executable_path, truncated })
    }
}

} // verus!
