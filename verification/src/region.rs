//! Region lifecycle: building and releasing the paired source and
//! destination buffers, and the byte-wise comparison the harness relies on.

use vstd::prelude::*;

verus! {

/// Builds a region pair of `len` bytes each: the source holds exactly the
/// entropy bytes the caller drew for it, and the destination starts out
/// zero-filled, as freshly mapped anonymous pages do. The two regions are
/// independently owned and never alias.
pub fn create_regions(len: usize, entropy: Vec<u8>) -> (regions: (Vec<u8>, Vec<u8>))
    requires
        entropy@.len() == len,
    ensures
        regions.0@ == entropy@,
        regions.1@ == Seq::new(len as nat, |i: int| 0u8),
{
    let src = entropy;
    let mut dst: Vec<u8> = Vec::new();
    let mut i: usize = 0;
    while i < len
        invariant
            i <= len,
            dst@.len() == i,
            forall|j: int| 0 <= j < i ==> dst@[j] == 0u8,
        decreases len - i,
    {
        dst.push(0u8);
        i = i + 1;
    }
    assert(dst@ =~= Seq::new(len as nat, |i: int| 0u8));
    (src, dst)
}

/// Releases a region pair. Must be called exactly once per `create_regions`,
/// with the same length that was used there; both buffers are consumed and
/// their memory returned.
pub fn free_regions(src: Vec<u8>, dst: Vec<u8>, len: usize)
    requires
        src@.len() == len,
        dst@.len() == len,
{
}

/// Full byte-wise comparison of the first `len` bytes of two regions: the
/// oracle of the correctness harness. Returns `true` exactly when the two
/// prefixes are identical.
pub fn regions_equal(a: &Vec<u8>, b: &Vec<u8>, len: usize) -> (r: bool)
    requires
        len <= a@.len(),
        len <= b@.len(),
    ensures
        r == (a@.subrange(0, len as int) == b@.subrange(0, len as int)),
{
    let mut i: usize = 0;
    while i < len
        invariant
            i <= len,
            len <= a@.len(),
            len <= b@.len(),
            forall|j: int| 0 <= j < i ==> a@[j] == b@[j],
        decreases len - i,
    {
        if a[i] != b[i] {
            assert(a@.subrange(0, len as int)[i as int] != b@.subrange(0, len as int)[i as int]);
            return false;
        }
        i = i + 1;
    }
    assert(a@.subrange(0, len as int) =~= b@.subrange(0, len as int));
    true
}

} // verus!
