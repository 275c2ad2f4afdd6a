//! The size of a directory, from what a walk below it met.

use vstd::prelude::*;

verus! {

/// One node that a walk below a directory met.
#[derive(Clone, Copy, Debug, PartialEq, Eq, Structural)]
pub enum MeasuredEntry {
    /// A regular file, with its length in bytes.
    RegularFile(u64),
    /// A directory or a special file.
    Other,
    /// A node that could not be reached, or whose metadata could not be read.
    Unreadable,
}

/// What one node adds to the size of the directory it lies in.
pub open spec fn contribution(entry: MeasuredEntry) -> nat {
    match entry {
        MeasuredEntry::RegularFile(length) => length as nat,
        MeasuredEntry::Other => 0,
        MeasuredEntry::Unreadable => 0,
    }
}

/// The bytes held by the regular files among `entries`.
pub open spec fn exact_size(entries: Seq<MeasuredEntry>) -> nat
    decreases entries.len(),
{
    if entries.len() == 0 {
        0
    } else {
        exact_size(entries.drop_last()) + contribution(entries.last())
    }
}

/// The sum of a sequence of lengths.
pub open spec fn sum_of(lengths: Seq<u64>) -> nat
    decreases lengths.len(),
{
    if lengths.len() == 0 {
        0
    } else {
        sum_of(lengths.drop_last()) + lengths.last() as nat
    }
}

/// A byte count as it is kept in 64 bits: itself, or the largest value where
/// it does not fit.
pub open spec fn capped(bytes: nat) -> u64 {
    if bytes <= u64::MAX {
        bytes as u64
    } else {
        u64::MAX
    }
}

/// The size of a directory whose walk met `entries`: the lengths of its
/// regular files added up. Directories, special files and nodes that could
/// not be read add nothing. A sum beyond 64 bits is reported as `u64::MAX`.
pub fn size_of(entries: &Vec<MeasuredEntry>) -> (total: u64)
    ensures
        total == capped(exact_size(entries@)),
{
    let mut total: u64 = 0;
    let mut i: usize = 0;
    while i < entries.len()
        invariant
            i <= entries.len(),
            total == capped(exact_size(entries@.take(i as int))),
        decreases entries.len() - i,
    {
        proof {
            assert(entries@.take(i + 1).drop_last() =~= entries@.take(i as int));
        }
        match entries[i] {
            MeasuredEntry::RegularFile(length) => {
                total = total.saturating_add(length);
            },
            MeasuredEntry::Other => {},
            MeasuredEntry::Unreadable => {},
        }
        i += 1;
    }
    assert(entries@.take(i as int) =~= entries@);
    total
}

/// An empty directory has size zero.
pub proof fn lemma_empty_directory_is_empty()
    ensures
        exact_size(Seq::<MeasuredEntry>::empty()) == 0,
{
}

/// The size of a walk in two parts is the sum of the sizes of the parts.
pub proof fn lemma_size_of_parts(front: Seq<MeasuredEntry>, back: Seq<MeasuredEntry>)
    ensures
        exact_size(front + back) == exact_size(front) + exact_size(back),
    decreases back.len(),
{
    if back.len() == 0 {
        assert(front + back =~= front);
    } else {
        assert((front + back).drop_last() =~= front + back.drop_last());
        assert((front + back).last() == back.last());
        lemma_size_of_parts(front, back.drop_last());
    }
}

/// A directory that holds regular files only has the sum of their lengths as
/// its size.
pub proof fn lemma_regular_files_add_up(lengths: Seq<u64>)
    ensures
        exact_size(lengths.map_values(|n: u64| MeasuredEntry::RegularFile(n))) == sum_of(lengths),
    decreases lengths.len(),
{
    let entries = lengths.map_values(|n: u64| MeasuredEntry::RegularFile(n));
    if lengths.len() > 0 {
        assert(entries.drop_last() =~= lengths.drop_last().map_values(
            |n: u64| MeasuredEntry::RegularFile(n),
        ));
        lemma_regular_files_add_up(lengths.drop_last());
    }
}

/// A node that could not be read changes nothing: the size is that of the
/// walk without it.
pub proof fn lemma_unreadable_adds_nothing(entries: Seq<MeasuredEntry>, at: int)
    requires
        0 <= at < entries.len(),
        entries[at] == MeasuredEntry::Unreadable,
    ensures
        exact_size(entries) == exact_size(entries.remove(at)),
{
    let front = entries.take(at);
    let one = seq![entries[at]];
    let back = entries.skip(at + 1);
    assert(entries =~= front + one + back);
    assert(entries.remove(at) =~= front + back);
    lemma_size_of_parts(front + one, back);
    lemma_size_of_parts(front, one);
    lemma_size_of_parts(front, back);
    assert(one.drop_last() =~= Seq::<MeasuredEntry>::empty());
    assert(exact_size(one) == exact_size(one.drop_last()) + contribution(one.last()));
}

} // verus!
