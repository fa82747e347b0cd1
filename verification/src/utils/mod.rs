//! Comparing slices of bytes.

use vstd::prelude::*;

verus! {

/// Whether the two slices differ at some index that both have.
pub open spec fn differ_in_common_range(slice1: Seq<u8>, slice2: Seq<u8>) -> bool {
    exists|i: int| 0 <= i < slice1.len() && i < slice2.len() && slice1[i] != slice2[i]
}

/// Whether `slice2` starts with `slice1`. The slices are compared byte by byte and from the
/// front, over the length of `slice1`; a `slice2` that ends before a difference was found
/// cannot be compared.
pub fn slice_compare(slice1: &[u8], slice2: &[u8]) -> (equal: bool)
    requires
        slice1@.len() <= slice2@.len() || differ_in_common_range(slice1@, slice2@),
    ensures
        equal == slice1@.is_prefix_of(slice2@),
{
    let mut i: usize = 0;
    let length = slice1.len();

    while i < length
        invariant
            length == slice1@.len(),
            i <= length,
            slice1@.len() <= slice2@.len() || differ_in_common_range(slice1@, slice2@),
            forall|k: int| 0 <= k < i ==> k < slice2@.len() && slice1@[k] == slice2@[k],
        decreases length - i,
    {
        if slice1[i] != slice2[i] {
            assert(slice1@.len() <= slice2@.len() ==> slice2@.subrange(
                0,
                slice1@.len() as int,
            )[i as int] == slice2@[i as int]);
            return false;
        }
        i += 1;
    }
    assert(slice1@ =~= slice2@.subrange(0, slice1@.len() as int));

    true
}

} // verus!
