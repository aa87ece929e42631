//! Layout of the spool directory and the estimate of the disk space it takes.

use vstd::prelude::*;
use vstd::string::*;

pub mod writer;

verus! {

/// The path of `leaf` inside the directory `base`: the two joined by one `/`,
/// which is left out where `base` is empty or already ends in one.
pub open spec fn joined(base: Seq<char>, leaf: Seq<char>) -> Seq<char> {
    if base.len() == 0 {
        leaf
    } else if base.last() == '/' {
        base + leaf
    } else {
        base + seq!['/'] + leaf
    }
}

/// Where finished batches wait for the consumer, for a spool rooted at `base`.
pub open spec fn spool_dir(base: Seq<char>) -> Seq<char> {
    joined(base, "spool"@)
}

/// Where batches are staged while they are written, for a spool rooted at `base`.
pub open spec fn tmp_dir(base: Seq<char>) -> Seq<char> {
    joined(base, "tmp"@)
}

/// Joins a directory and the name of an entry in it.
pub fn join(base: &str, leaf: &str) -> (path: String)
    ensures
        path@ == joined(base@, leaf@),
{
    let n: usize = base.unicode_len();
    let mut path: String = String::from_str(base);
    if n > 0 && base.get_char(n - 1) != '/' {
        proof {
            reveal_strlit("/");
        }
        path.append("/");
    }
    path.append(leaf);
    path
}

/// The directory of finished batches under `base_dir`.
pub fn spool_path(base_dir: &str) -> (path: String)
    ensures
        path@ == spool_dir(base_dir@),
{
    join(base_dir, "spool")
}

/// The staging directory under `base_dir`.
pub fn tmp_path(base_dir: &str) -> (path: String)
    ensures
        path@ == tmp_dir(base_dir@),
{
    join(base_dir, "tmp")
}

/// Resolving the same base twice gives the same pair of directories.
pub proof fn lemma_resolution_is_stable(first: Seq<char>, second: Seq<char>)
    requires
        first == second,
    ensures
        spool_dir(first) == spool_dir(second),
        tmp_dir(first) == tmp_dir(second),
{
}

/// Two names stay apart when they are put into the same directory.
pub proof fn lemma_join_keeps_names_apart(base: Seq<char>, first: Seq<char>, second: Seq<char>)
    requires
        first != second,
    ensures
        joined(base, first) != joined(base, second),
{
    let a = joined(base, first);
    let b = joined(base, second);
    if a == b {
        let skip = a.len() - first.len();
        assert(a.subrange(skip, a.len() as int) =~= first);
        assert(b.subrange(skip, b.len() as int) =~= second);
    }
}

/// The staging directory is never the directory that the consumer reads.
pub proof fn lemma_staging_is_apart(base: Seq<char>)
    ensures
        tmp_dir(base) != spool_dir(base),
{
    reveal_strlit("spool");
    reveal_strlit("tmp");
    assert(tmp_dir(base).len() != spool_dir(base).len());
}

/// The part that the two directories of a spool have in common: the base
/// with its separator.
pub open spec fn stem(base: Seq<char>) -> Seq<char> {
    if base.len() == 0 || base.last() == '/' {
        base
    } else {
        base + seq!['/']
    }
}

/// Nothing that lies in the staging directory is visible in the spool
/// directory, whatever the two files are called: a batch that was staged
/// and never moved is not there for the consumer.
pub proof fn lemma_staged_is_not_spooled(base: Seq<char>, staged: Seq<char>, spooled: Seq<char>)
    ensures
        joined(tmp_dir(base), staged) != joined(spool_dir(base), spooled),
{
    reveal_strlit("spool");
    reveal_strlit("tmp");
    let at = stem(base).len() as int;
    assert(joined(tmp_dir(base), staged)[at] == 't');
    assert(joined(spool_dir(base), spooled)[at] == 's');
}

/// The estimate of a file is the least number of whole blocks that holds
/// it: a multiple of the block size, not below the size and less than one
/// block above it. An empty file is estimated at nothing.
pub proof fn lemma_file_occupation_rounds_up(size: nat)
    ensures
        file_occupation(size) % (BLOCK_SIZE as nat) == 0,
        size <= file_occupation(size) < size + BLOCK_SIZE,
        file_occupation(0) == 0,
{
}

/// Size of one allocation block on disk, in bytes.
pub const BLOCK_SIZE: usize = 4096;

/// Number of blocks that `size` bytes take: `size / BLOCK_SIZE`, rounded up.
pub open spec fn blocks(size: nat) -> nat {
    (size + BLOCK_SIZE - 1) as nat / (BLOCK_SIZE as nat)
}

/// Bytes that a file of `size` bytes occupies on disk: whole blocks only.
pub open spec fn file_occupation(size: nat) -> nat {
    BLOCK_SIZE as nat * blocks(size)
}

/// Rounds a file size up to the next full block. An empty file takes no block.
pub fn approx_file_occupation(file_size: usize) -> (occupied: usize)
    requires
        file_occupation(file_size as nat) <= usize::MAX,
    ensures
        occupied == file_occupation(file_size as nat),
{
    let whole: usize = file_size / BLOCK_SIZE;
    let partial: usize = if file_size % BLOCK_SIZE != 0 { 1 } else { 0 };
    BLOCK_SIZE * (whole + partial)
}

/// What a walk over a directory tree found at one path.
#[derive(Debug)]
pub enum Entry {
    /// A regular file and its length in bytes.
    File { size: usize },
    /// A directory and what it holds.
    Dir { entries: Vec<Entry> },
    /// Anything else: a symbolic link, a socket, a device.
    Other,
    /// An entry that was listed but was gone when it was looked at.
    Vanished,
}

/// Why a tree has no estimate.
#[derive(Debug, Clone, Copy, PartialEq, Eq)]
pub enum OccupationError {
    /// The root of the walk is not a directory.
    NotADirectory,
    /// The estimate does not fit the machine word.
    TooLarge,
}

/// Bytes occupied below one entry: the regular files in it, block by block.
pub open spec fn entry_occupation(entry: Entry) -> nat
    decreases entry,
{
    match entry {
        Entry::File { size } => file_occupation(size as nat),
        Entry::Dir { entries } => entries_occupation(entries@, entries@.len()),
        Entry::Other => 0,
        Entry::Vanished => 0,
    }
}

/// Bytes occupied by the first `n` of `entries`.
pub open spec fn entries_occupation(entries: Seq<Entry>, n: nat) -> nat
    decreases entries, n,
{
    if n == 0 || n > entries.len() {
        0
    } else {
        entries_occupation(entries, (n - 1) as nat) + entry_occupation(entries[n - 1])
    }
}

/// A longer prefix of a listing occupies at least as much as a shorter one.
proof fn lemma_entries_occupation_grows(entries: Seq<Entry>, m: nat, n: nat)
    requires
        m <= n <= entries.len(),
    ensures
        entries_occupation(entries, m) <= entries_occupation(entries, n),
    decreases n,
{
    if m < n {
        lemma_entries_occupation_grows(entries, m, (n - 1) as nat);
    }
}

/// The estimate for one entry, if it fits the machine word.
fn entry_total(entry: &Entry) -> (total: Option<usize>)
    ensures
        total is Some <==> entry_occupation(*entry) <= usize::MAX,
        total is Some ==> total->0 == entry_occupation(*entry),
    decreases entry,
{
    match entry {
        Entry::File { size } => {
            let limit: usize = (usize::MAX / BLOCK_SIZE) * BLOCK_SIZE;
            if *size > limit {
                None
            } else {
                Some(approx_file_occupation(*size))
            }
        },
        Entry::Dir { entries } => {
            let mut sum: usize = 0;
            let mut i: usize = 0;
            while i < entries.len()
                invariant
                    *entry == (Entry::Dir { entries: *entries }),
                    i <= entries.len(),
                    sum == entries_occupation(entries@, i as nat),
                decreases entries.len() - i,
            {
                assert(decreases_to!(*entry => entries[i as int])) by {
                    assert(decreases_to!(*entry => entry->entries));
                }
                let below: Option<usize> = entry_total(&entries[i]);
                proof {
                    lemma_entries_occupation_grows(entries@, (i + 1) as nat, entries@.len());
                }
                match below {
                    None => {
                        return None;
                    },
                    Some(bytes) => {
                        if bytes > usize::MAX - sum {
                            return None;
                        }
                        sum = sum + bytes;
                    },
                }
                i = i + 1;
            }
            Some(sum)
        },
        Entry::Other => Some(0),
        Entry::Vanished => Some(0),
    }
}

/// Estimates the disk space taken by the regular files of a directory tree.
///
/// Every regular file counts with its size rounded up to whole blocks,
/// directories are followed, other kinds of entries and entries that vanished
/// during the walk count nothing.
pub fn approx_dir_occupation(dir: &Entry) -> (total: Result<usize, OccupationError>)
    ensures
        match total {
            Ok(bytes) => dir is Dir && bytes == entry_occupation(*dir),
            Err(OccupationError::NotADirectory) => !(dir is Dir),
            Err(OccupationError::TooLarge) => dir is Dir && entry_occupation(*dir) > usize::MAX,
        },
{
    match dir {
        Entry::Dir { .. } => match entry_total(dir) {
            Some(bytes) => Ok(bytes),
            None => Err(OccupationError::TooLarge),
        },
        _ => Err(OccupationError::NotADirectory),
    }
}

} // verus!
