use telemetry_spool::spool::writer::{sequence_text, Publication, SpoolError, Writer};

#[test]
fn a_batch_number_is_written_with_twenty_digits() {
    assert_eq!(sequence_text(0), "00000000000000000000");
    assert_eq!(sequence_text(7), "00000000000000000007");
    assert_eq!(sequence_text(1234567890), "00000000001234567890");
    assert_eq!(sequence_text(u64::MAX), "18446744073709551615");
}

#[test]
fn batch_numbers_sort_as_their_texts_do() {
    let numbers = [0u64, 1, 9, 10, 99, 100, 4096, u64::MAX - 1, u64::MAX];
    for pair in numbers.windows(2) {
        assert!(sequence_text(pair[0]) < sequence_text(pair[1]));
    }
}

#[test]
fn the_writer_remembers_where_the_spool_lies() {
    let writer = Writer::new("exec", "/tmp/spool_test");
    assert_eq!(writer.path(), "/tmp/spool_test");
}

#[test]
fn the_first_batch_is_staged_and_spooled_under_number_zero() {
    let mut writer = Writer::new("exec", "/tmp/spool_test");
    let publication: Publication<u8> = writer.write_record_batch(42u8).unwrap();
    assert_eq!(publication.batch, 42);
    assert_eq!(publication.tmp_file, "/tmp/spool_test/tmp/00000000000000000000-exec.batch");
    assert_eq!(publication.spool_file, "/tmp/spool_test/spool/00000000000000000000-exec.batch");
}

#[test]
fn successive_batches_go_to_different_files() {
    let mut writer = Writer::new("exec", "base");
    let first = writer.write_record_batch(()).unwrap();
    let second = writer.write_record_batch(()).unwrap();
    let third = writer.write_record_batch(()).unwrap();
    assert_eq!(second.spool_file, "base/spool/00000000000000000001-exec.batch");
    assert_eq!(third.tmp_file, "base/tmp/00000000000000000002-exec.batch");
    assert_ne!(first.spool_file, second.spool_file);
    assert_ne!(second.spool_file, third.spool_file);
    assert_ne!(first.tmp_file, second.tmp_file);
    assert_ne!(first.tmp_file, first.spool_file);
}

#[test]
fn a_resumed_writer_goes_on_at_its_number() {
    let mut writer = Writer::resume("exec", "/s/", 41);
    let publication = writer.write_record_batch("rows").unwrap();
    assert_eq!(publication.spool_file, "/s/spool/00000000000000000041-exec.batch");
    let publication = writer.write_record_batch("rows").unwrap();
    assert_eq!(publication.spool_file, "/s/spool/00000000000000000042-exec.batch");
}

#[test]
fn a_writer_without_numbers_takes_no_batch() {
    let mut writer = Writer::resume("exec", "/s", u64::MAX - 1);
    let last = writer.write_record_batch(1).unwrap();
    assert_eq!(last.spool_file, "/s/spool/18446744073709551614-exec.batch");
    assert_eq!(writer.write_record_batch(2).err(), Some(SpoolError::Exhausted));
    assert_eq!(writer.write_record_batch(3).err(), Some(SpoolError::Exhausted));
    assert_eq!(writer.path(), "/s");
}
