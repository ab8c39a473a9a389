//! The correctness harness: the oracle every strategy must satisfy.

use crate::region::create_regions;
use crate::region::free_regions;
use crate::region::regions_equal;
use crate::registry::Strategy;
use vstd::prelude::*;

verus! {

/// Checks one strategy: builds a region pair of `len` bytes with the given
/// source entropy, runs the strategy exactly once over the full length,
/// compares source and destination byte for byte, and releases the pair.
/// `len` must be a whole number of the strategy's chunks, so the known
/// tail-truncation of the wide strategies is not exercised here; under that
/// condition the check is proved to pass for every strategy and every
/// source content.
pub fn check_strategy(s: Strategy, len: usize, entropy: Vec<u8>) -> (ok: bool)
    requires
        entropy@.len() == len,
        len as int % s.spec_width() == 0,
    ensures
        ok,
{
    let (src, mut dst) = create_regions(len, entropy);
    s.run(&src, &mut dst, len);
    assert(dst@.subrange(0, len as int) =~= src@.subrange(0, len as int));
    let ok = regions_equal(&src, &dst, len);
    free_regions(src, dst, len);
    ok
}

} // verus!
