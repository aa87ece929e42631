use std::path::Path;
use telemetry_spool::spool::{
    approx_dir_occupation, approx_file_occupation, join, spool_path, tmp_path, Entry,
    OccupationError, BLOCK_SIZE,
};

fn file(size: usize) -> Entry {
    Entry::File { size }
}

fn dir(entries: Vec<Entry>) -> Entry {
    Entry::Dir { entries }
}

#[test]
fn spool_and_tmp_lie_under_the_base() {
    assert_eq!(spool_path("/var/telemetry"), "/var/telemetry/spool");
    assert_eq!(tmp_path("/var/telemetry"), "/var/telemetry/tmp");
}

#[test]
fn a_trailing_separator_is_not_doubled() {
    assert_eq!(spool_path("/var/telemetry/"), "/var/telemetry/spool");
    assert_eq!(tmp_path("/"), "/tmp");
}

#[test]
fn an_empty_base_gives_relative_directories() {
    assert_eq!(spool_path(""), "spool");
    assert_eq!(tmp_path(""), "tmp");
}

#[test]
fn join_agrees_with_the_platform_on_relative_names() {
    for base in ["", "/", "/tmp/spool_test", "/tmp/spool_test/", "relative/dir", "dir with space"] {
        for leaf in ["spool", "tmp", "00000000000000000001-exec.batch"] {
            let expected = Path::new(base).join(leaf);
            assert_eq!(Path::new(&join(base, leaf)), expected.as_path());
        }
    }
}

#[test]
fn path_resolution_is_repeatable() {
    let base = String::from("/tmp/spool_test");
    assert_eq!(spool_path(&base), spool_path(&base));
    assert_eq!(tmp_path(&base), tmp_path(&base));
    assert_ne!(spool_path(&base), tmp_path(&base));
}

#[test]
fn an_empty_file_takes_no_block() {
    assert_eq!(approx_file_occupation(0), 0);
}

#[test]
fn file_sizes_round_up_to_whole_blocks() {
    assert_eq!(BLOCK_SIZE, 4096);
    assert_eq!(approx_file_occupation(1), 4096);
    assert_eq!(approx_file_occupation(4095), 4096);
    assert_eq!(approx_file_occupation(4096), 4096);
    assert_eq!(approx_file_occupation(4097), 8192);
    assert_eq!(approx_file_occupation(10 * 4096 + 17), 11 * 4096);
}

#[test]
fn file_occupation_is_the_block_size_times_the_ceiling() {
    for size in [0usize, 1, 2, 4095, 4096, 4097, 8191, 8192, 8193, 1 << 20, (1 << 20) + 1] {
        let blocks = size / 4096 + usize::from(size % 4096 != 0);
        assert_eq!(approx_file_occupation(size), 4096 * blocks);
    }
}

#[test]
fn a_directory_sums_the_estimates_of_its_files() {
    let tree = dir(vec![file(0), file(1), file(4096), file(4097)]);
    assert_eq!(approx_dir_occupation(&tree), Ok(16384));
}

#[test]
fn an_empty_directory_occupies_nothing() {
    assert_eq!(approx_dir_occupation(&dir(vec![])), Ok(0));
}

#[test]
fn subdirectories_are_followed() {
    let tree = dir(vec![file(1), dir(vec![file(4097), dir(vec![file(1), file(1)])]), file(0)]);
    assert_eq!(approx_dir_occupation(&tree), Ok(4096 + 8192 + 4096 + 4096));
}

#[test]
fn other_kinds_of_entries_count_nothing() {
    let tree = dir(vec![Entry::Other, file(10), Entry::Other, dir(vec![Entry::Other])]);
    assert_eq!(approx_dir_occupation(&tree), Ok(4096));
}

#[test]
fn a_vanished_entry_counts_nothing_and_fails_nothing() {
    let tree = dir(vec![file(5000), Entry::Vanished, dir(vec![Entry::Vanished, file(1)])]);
    assert_eq!(approx_dir_occupation(&tree), Ok(8192 + 4096));
}

#[test]
fn a_root_that_is_no_directory_is_refused() {
    assert_eq!(approx_dir_occupation(&file(10)), Err(OccupationError::NotADirectory));
    assert_eq!(approx_dir_occupation(&Entry::Other), Err(OccupationError::NotADirectory));
    assert_eq!(approx_dir_occupation(&Entry::Vanished), Err(OccupationError::NotADirectory));
}

#[test]
fn an_estimate_beyond_the_machine_word_is_refused() {
    let largest = usize::MAX / 4096 * 4096;
    assert_eq!(approx_dir_occupation(&dir(vec![file(largest)])), Ok(largest));
    assert_eq!(approx_dir_occupation(&dir(vec![file(largest + 1)])), Err(OccupationError::TooLarge));
    assert_eq!(
        approx_dir_occupation(&dir(vec![file(largest), dir(vec![file(1)])])),
        Err(OccupationError::TooLarge)
    );
}
