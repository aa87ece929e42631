use telemetry_spool::exec::{ExecBatch, ExecBuilder, PathBuilder};
use telemetry_spool::traits::{TableBuilder, TableError};

fn set_path(builder: &mut ExecBuilder, path: &str, truncated: bool) {
    builder.executable_path().append_path(path.to_string());
    builder.executable_path().append_truncated(truncated);
}

fn paths(batch: &ExecBatch) -> Vec<Option<&str>> {
    batch.executable_paths().iter().map(|entry| entry.as_deref()).collect()
}

#[test]
fn a_new_builder_holds_nothing() {
    let builder = ExecBuilder::new();
    assert_eq!(builder.row_count(), (0, 0));
}

#[test]
fn new_path_columns_are_empty() {
    let mut builder = ExecBuilder::new();
    *builder.executable_path() = PathBuilder::new();
    assert_eq!(builder.row_count(), (0, 0));
}

#[test]
fn row_count_tells_the_shortest_and_the_longest_column() {
    let mut builder = ExecBuilder::new();
    builder.executable_path().append_path("/bin/ls".to_string());
    assert_eq!(builder.row_count(), (0, 1));
    builder.executable_path().append_truncated(false);
    assert_eq!(builder.row_count(), (1, 1));
    builder.executable_path().append_truncated(true);
    builder.executable_path().append_truncated(true);
    assert_eq!(builder.row_count(), (1, 3));
}

#[test]
fn closing_a_row_brings_the_columns_into_lockstep() {
    let mut builder = ExecBuilder::new();
    for n in 1..=5usize {
        if n % 2 == 0 {
            builder.executable_path().append_path(format!("/bin/{n}"));
        }
        if n % 3 == 0 {
            builder.executable_path().append_truncated(true);
        }
        assert_eq!(builder.autocomplete(), Ok(()));
        assert_eq!(builder.row_count(), (n, n));
    }
}

#[test]
fn fields_that_were_not_set_get_their_defaults() {
    let mut builder = ExecBuilder::new();
    assert_eq!(builder.autocomplete(), Ok(()));
    builder.executable_path().append_path("/bin/only-path".to_string());
    assert_eq!(builder.autocomplete(), Ok(()));
    builder.executable_path().append_truncated(true);
    assert_eq!(builder.autocomplete(), Ok(()));
    set_path(&mut builder, "/bin/both", true);
    assert_eq!(builder.autocomplete(), Ok(()));
    let batch = builder.flush().unwrap();
    assert_eq!(batch.num_rows(), 4);
    assert_eq!(paths(&batch), vec![None, Some("/bin/only-path"), None, Some("/bin/both")]);
    assert_eq!(batch.truncated_flags(), &vec![false, false, true, true]);
}

#[test]
fn a_field_set_twice_breaks_the_lockstep() {
    let mut builder = ExecBuilder::new();
    set_path(&mut builder, "/bin/a", false);
    assert_eq!(builder.autocomplete(), Ok(()));
    builder.executable_path().append_path("/bin/b".to_string());
    builder.executable_path().append_path("/bin/c".to_string());
    assert_eq!(builder.row_count(), (1, 3));
    assert_eq!(builder.autocomplete(), Err(TableError::OutOfLockstep));
    assert_eq!(builder.row_count(), (1, 3));
    assert_eq!(builder.autocomplete(), Err(TableError::OutOfLockstep));
}

#[test]
fn a_column_that_lost_its_rows_breaks_the_lockstep() {
    let mut builder = ExecBuilder::new();
    set_path(&mut builder, "/bin/a", false);
    assert_eq!(builder.autocomplete(), Ok(()));
    set_path(&mut builder, "/bin/b", false);
    assert_eq!(builder.autocomplete(), Ok(()));
    *builder.executable_path() = PathBuilder::new();
    assert_eq!(builder.row_count(), (0, 0));
    assert_eq!(builder.autocomplete(), Err(TableError::OutOfLockstep));
    assert_eq!(builder.flush().err(), Some(TableError::CannotFinalize));
}

#[test]
fn a_flush_hands_out_the_closed_rows_and_starts_over() {
    let mut builder = ExecBuilder::new();
    set_path(&mut builder, "/usr/bin/true", false);
    assert_eq!(builder.autocomplete(), Ok(()));
    set_path(&mut builder, "/usr/bin/a-very-long-na", true);
    assert_eq!(builder.autocomplete(), Ok(()));
    let batch = builder.flush().unwrap();
    assert_eq!(batch.num_rows(), 2);
    assert_eq!(paths(&batch), vec![Some("/usr/bin/true"), Some("/usr/bin/a-very-long-na")]);
    assert_eq!(batch.truncated_flags(), &vec![false, true]);
    assert_eq!(builder.row_count(), (0, 0));
    let empty = builder.flush().unwrap();
    assert_eq!(empty.num_rows(), 0);
    set_path(&mut builder, "/bin/next", false);
    assert_eq!(builder.autocomplete(), Ok(()));
    assert_eq!(builder.row_count(), (1, 1));
}

#[test]
fn a_row_under_construction_cannot_be_finalized() {
    let mut builder = ExecBuilder::new();
    set_path(&mut builder, "/bin/a", false);
    assert_eq!(builder.autocomplete(), Ok(()));
    builder.executable_path().append_path("/bin/b".to_string());
    assert_eq!(builder.flush().err(), Some(TableError::CannotFinalize));
    assert_eq!(builder.row_count(), (1, 2));
    assert_eq!(builder.autocomplete(), Ok(()));
    let batch = builder.flush().unwrap();
    assert_eq!(paths(&batch), vec![Some("/bin/a"), Some("/bin/b")]);
    assert_eq!(batch.truncated_flags(), &vec![false, false]);
}
