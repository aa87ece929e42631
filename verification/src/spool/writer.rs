//! The writer's side of the spool: it names the file of each finished batch
//! and says where the file is staged and where it becomes visible.

use crate::spool::{
    join, joined, lemma_join_keeps_names_apart, spool_dir, spool_path, tmp_dir, tmp_path,
};
use vstd::prelude::*;
use vstd::string::*;

verus! {

/// The number of digits that a batch's number takes in its file name.
pub const SEQUENCE_DIGITS: usize = 20;

/// The decimal digit of a number below ten.
pub open spec fn digit(d: nat) -> char {
    if d == 0 {
        '0'
    } else if d == 1 {
        '1'
    } else if d == 2 {
        '2'
    } else if d == 3 {
        '3'
    } else if d == 4 {
        '4'
    } else if d == 5 {
        '5'
    } else if d == 6 {
        '6'
    } else if d == 7 {
        '7'
    } else if d == 8 {
        '8'
    } else {
        '9'
    }
}

/// The last `width` decimal digits of `n`, the most significant first, with
/// leading zeros.
pub open spec fn decimal(n: nat, width: nat) -> Seq<char>
    decreases width,
{
    if width == 0 {
        Seq::empty()
    } else {
        decimal(n / 10, (width - 1) as nat).push(digit(n % 10))
    }
}

/// Ten to the power of `width`.
pub open spec fn pow10(width: nat) -> nat
    decreases width,
{
    if width == 0 {
        1
    } else {
        10 * pow10((width - 1) as nat)
    }
}

/// The name of the file that holds batch number `sequence` of the writer
/// called `unique_name`.
pub open spec fn file_name(sequence: nat, unique_name: Seq<char>) -> Seq<char> {
    decimal(sequence, SEQUENCE_DIGITS as nat) + seq!['-'] + unique_name + ".batch"@
}

/// Where batch number `sequence` is written, out of the consumer's sight.
pub open spec fn staged_file(base: Seq<char>, sequence: nat, unique_name: Seq<char>) -> Seq<char> {
    joined(tmp_dir(base), file_name(sequence, unique_name))
}

/// Where batch number `sequence` is moved once it is complete.
pub open spec fn spooled_file(base: Seq<char>, sequence: nat, unique_name: Seq<char>) -> Seq<
    char,
> {
    joined(spool_dir(base), file_name(sequence, unique_name))
}

/// A number is written with as many digits as asked for.
pub proof fn lemma_decimal_len(n: nat, width: nat)
    ensures
        decimal(n, width).len() == width,
    decreases width,
{
    if width > 0 {
        lemma_decimal_len(n / 10, (width - 1) as nat);
    }
}

/// Two numbers that fit the width and are written alike are the same number.
pub proof fn lemma_decimal_injective(a: nat, b: nat, width: nat)
    requires
        a < pow10(width),
        b < pow10(width),
        decimal(a, width) == decimal(b, width),
    ensures
        a == b,
    decreases width,
{
    if width > 0 {
        let shorter = (width - 1) as nat;
        assert(decimal(a, width).last() == digit(a % 10));
        assert(decimal(b, width).last() == digit(b % 10));
        assert(decimal(a, width).drop_last() =~= decimal(a / 10, shorter));
        assert(decimal(b, width).drop_last() =~= decimal(b / 10, shorter));
        lemma_decimal_injective(a / 10, b / 10, shorter);
    }
}

/// Every batch number fits the digits of a file name.
pub proof fn lemma_sequence_fits(sequence: u64)
    ensures
        sequence < pow10(SEQUENCE_DIGITS as nat),
{
    reveal_with_fuel(pow10, 21);
}

/// One writer never gives two batches the same file name.
pub proof fn lemma_file_names_differ(first: u64, second: u64, unique_name: Seq<char>)
    requires
        first != second,
    ensures
        file_name(first as nat, unique_name) != file_name(second as nat, unique_name),
{
    let width = SEQUENCE_DIGITS as nat;
    let a = file_name(first as nat, unique_name);
    let b = file_name(second as nat, unique_name);
    lemma_decimal_len(first as nat, width);
    lemma_decimal_len(second as nat, width);
    if a == b {
        assert(a.subrange(0, width as int) =~= decimal(first as nat, width));
        assert(b.subrange(0, width as int) =~= decimal(second as nat, width));
        lemma_sequence_fits(first);
        lemma_sequence_fits(second);
        lemma_decimal_injective(first as nat, second as nat, width);
    }
}

/// One writer never sends two batches to the same file, neither while it
/// stages them nor where the consumer finds them.
pub proof fn lemma_publications_differ(
    base: Seq<char>,
    unique_name: Seq<char>,
    first: u64,
    second: u64,
)
    requires
        first != second,
    ensures
        staged_file(base, first as nat, unique_name) != staged_file(
            base,
            second as nat,
            unique_name,
        ),
        spooled_file(base, first as nat, unique_name) != spooled_file(
            base,
            second as nat,
            unique_name,
        ),
{
    lemma_file_names_differ(first, second, unique_name);
    lemma_join_keeps_names_apart(
        tmp_dir(base),
        file_name(first as nat, unique_name),
        file_name(second as nat, unique_name),
    );
    lemma_join_keeps_names_apart(
        spool_dir(base),
        file_name(first as nat, unique_name),
        file_name(second as nat, unique_name),
    );
}

/// The text of one decimal digit.
fn digit_text(d: u64) -> (text: &'static str)
    requires
        d < 10,
    ensures
        text@ == seq![digit(d as nat)],
{
    proof {
        reveal_strlit("0");
        reveal_strlit("1");
        reveal_strlit("2");
        reveal_strlit("3");
        reveal_strlit("4");
        reveal_strlit("5");
        reveal_strlit("6");
        reveal_strlit("7");
        reveal_strlit("8");
        reveal_strlit("9");
    }
    let text: &'static str = if d == 0 {
        "0"
    } else if d == 1 {
        "1"
    } else if d == 2 {
        "2"
    } else if d == 3 {
        "3"
    } else if d == 4 {
        "4"
    } else if d == 5 {
        "5"
    } else if d == 6 {
        "6"
    } else if d == 7 {
        "7"
    } else if d == 8 {
        "8"
    } else {
        "9"
    };
    text
}

/// Writes a batch number with all its digits.
pub fn sequence_text(sequence: u64) -> (text: String)
    ensures
        text@ == decimal(sequence as nat, SEQUENCE_DIGITS as nat),
{
    let mut text: String = String::new();
    let mut rest: u64 = sequence;
    let mut written: usize = 0;
    while written < SEQUENCE_DIGITS
        invariant
            written <= SEQUENCE_DIGITS,
            decimal(sequence as nat, SEQUENCE_DIGITS as nat) == decimal(
                rest as nat,
                (SEQUENCE_DIGITS - written) as nat,
            ) + text@,
        decreases SEQUENCE_DIGITS - written,
    {
        let ghost before = text@;
        let ghost left = (SEQUENCE_DIGITS - written) as nat;
        let low: &'static str = digit_text(rest % 10);
        text = String::from_str(low).concat(text.as_str());
        proof {
            let shorter = (left - 1) as nat;
            assert(decimal(rest as nat, left) == decimal(rest as nat / 10, shorter).push(
                digit(rest as nat % 10),
            ));
            assert(decimal(rest as nat, left) + before =~= decimal(rest as nat / 10, shorter)
                + text@);
        }
        rest = rest / 10;
        written = written + 1;
    }
    text
}

/// Why the spool takes no batch.
#[derive(Debug, Clone, Copy, PartialEq, Eq)]
pub enum SpoolError {
    /// The writer has used up its batch numbers.
    Exhausted,
}

/// A finished batch on its way into the spool. Whoever holds it writes
/// `batch` to `tmp_file` and, once that file is complete, renames it to
/// `spool_file`: the consumer never sees a batch in part.
#[derive(Debug)]
pub struct Publication<B> {
    /// The file in the staging directory that the batch is written to.
    pub tmp_file: String,
    /// The file in the spool directory that the consumer will find.
    pub spool_file: String,
    /// The batch itself.
    pub batch: B,
}

/// Names the files of one producer's batches in a spool.
#[derive(Debug)]
pub struct Writer {
    unique_name: String,
    base_dir: String,
    sequence: u64,
}

impl Writer {
    /// The name that tells this producer's files from those of others.
    pub closed spec fn unique_name(&self) -> Seq<char> {
        self.unique_name@
    }

    /// The directory that the spool was opened on.
    pub closed spec fn base(&self) -> Seq<char> {
        self.base_dir@
    }

    /// The number that the next batch gets.
    pub closed spec fn sequence(&self) -> nat {
        self.sequence as nat
    }

    /// A writer for the producer `unique_name` on the spool under `base_dir`.
    /// Nothing is created on disk.
    pub fn new(unique_name: &str, base_dir: &str) -> (writer: Self)
        ensures
            writer.unique_name() == unique_name@,
            writer.base() == base_dir@,
            writer.sequence() == 0,
    {
        Writer {
            unique_name: String::from_str(unique_name),
            base_dir: String::from_str(base_dir),
            sequence: 0,
        }
    }

    /// A writer that goes on numbering at `sequence`: for a producer that
    /// finds batches of an earlier run still in the spool.
    pub fn resume(unique_name: &str, base_dir: &str, sequence: u64) -> (writer: Self)
        ensures
            writer.unique_name() == unique_name@,
            writer.base() == base_dir@,
            writer.sequence() == sequence,
    {
        Writer {
            unique_name: String::from_str(unique_name),
            base_dir: String::from_str(base_dir),
            sequence,
        }
    }

    /// The directory that the spool was opened on.
    pub fn path(&self) -> (path: &str)
        ensures
            path@ == self.base(),
    {
        self.base_dir.as_str()
    }

    /// Takes a finished batch and says where it goes: the next file name of
    /// this writer, under the staging and under the spool directory.
    ///
    /// A writer that has used up its numbers takes no batch and stays as it
    /// is.
    pub fn write_record_batch<B>(&mut self, batch: B) -> (publication: Result<
        Publication<B>,
        SpoolError,
    >)
        ensures
            final(self).unique_name() == old(self).unique_name(),
            final(self).base() == old(self).base(),
            match publication {
                Ok(publication) => {
                    &&& old(self).sequence() < u64::MAX
                    &&& final(self).sequence() == old(self).sequence() + 1
                    &&& publication.batch == batch
                    &&& publication.tmp_file@ == staged_file(
                        old(self).base(),
                        old(self).sequence(),
                        old(self).unique_name(),
                    )
                    &&& publication.spool_file@ == spooled_file(
                        old(self).base(),
                        old(self).sequence(),
                        old(self).unique_name(),
                    )
                },
                Err(error) => {
                    &&& old(self).sequence() == u64::MAX
                    &&& final(self).sequence() == old(self).sequence()
                    &&& error == SpoolError::Exhausted
                },
            },
    {
        if self.sequence == u64::MAX {
            return Err(SpoolError::Exhausted);
        }
        let mut name: String = sequence_text(self.sequence);
        name.append("-");
        name.append(self.unique_name.as_str());
        name.append(".batch");
        proof {
            reveal_strlit("-");
        }
        let tmp_file: String = join(tmp_path(self.base_dir.as_str()).as_str(), name.as_str());
        let spool_file: String = join(spool_path(self.base_dir.as_str()).as_str(), name.as_str());
        self.sequence = self.sequence + 1;
        Ok(Publication { tmp_file, spool_file, batch })
    }
}

} // verus!
