//! How what was unpacked is placed in the destination.

use vstd::prelude::*;

verus! {

/// What of the temporary directory is moved into the destination.
#[derive(Clone, Copy, Debug, PartialEq, Eq, Structural)]
pub enum Promotion {
    /// The only entry of the temporary directory goes into the destination
    /// directory under its own name.
    SoleEntry,
    /// The temporary directory itself becomes the directory at the
    /// proposed path, with all that it holds.
    WholeDirectory,
}

/// The placement for a temporary directory with `entries` entries at its
/// top level: an only entry is moved by itself, anything else stays
/// together.
pub open spec fn promotion_for(entries: int) -> Promotion {
    if entries == 1 {
        Promotion::SoleEntry
    } else {
        Promotion::WholeDirectory
    }
}

/// Decides the placement from the number of entries at the top level of
/// the temporary directory.
pub fn smart_unpack(entries: usize) -> (promotion: Promotion)
    ensures
        promotion == promotion_for(entries as int),
{
    if entries == 1 {
        Promotion::SoleEntry
    } else {
        Promotion::WholeDirectory
    }
}

/// The number of regular files among entries of which `regular` says, one
/// by one, whether the entry is a regular file. Directories, links and
/// whatever else an archive holds are not counted.
pub open spec fn regular_files(regular: Seq<bool>) -> nat
    decreases regular.len(),
{
    if regular.len() == 0 {
        0
    } else {
        regular_files(regular.drop_last()) + if regular.last() {
            1nat
        } else {
            0nat
        }
    }
}

/// The count that an extraction reports: the number of regular files among
/// the entries that it wrote, given for each entry whether it is one.
pub fn count_entries(regular: &[bool]) -> (count: usize)
    ensures
        count == regular_files(regular@),
{
    let mut count: usize = 0;
    let mut index: usize = 0;
    while index < regular.len()
        invariant
            index <= regular@.len(),
            count == regular_files(regular@.take(index as int)),
            count <= index,
        decreases regular@.len() - index,
    {
        assert(regular@.take(index as int + 1).drop_last() == regular@.take(index as int));
        if regular[index] {
            count = count + 1;
        }
        index = index + 1;
    }
    assert(regular@.take(index as int) == regular@);
    count
}

} // verus!
