//! The strategy registry: one tag per copy strategy, its availability
//! predicate over the detected instruction-set features, and dispatch to the
//! matching copy function.

use crate::strategy::copy_effect;
use crate::strategy::memcpy_avx;
use crate::strategy::memcpy_avx512;
use crate::strategy::memcpy_loop;
use crate::strategy::memcpy_neon;
use crate::strategy::memcpy_std;
use crate::strategy::WIDTH_AVX;
use crate::strategy::WIDTH_AVX512;
use crate::strategy::WIDTH_NEON;
use vstd::prelude::*;

verus! {

/// The instruction-set facts the registry consults, detected once by the
/// caller on the running CPU and passed in as plain values.
#[derive(Clone, Copy, PartialEq, Eq, Structural, Debug)]
pub struct CpuFeatures {
    /// The legacy 128-bit extension of the x86 family.
    pub sse: bool,
    /// The 256-bit wide extension of the x86 family.
    pub avx: bool,
    /// The foundation subset of the 512-bit wide extension of the x86 family.
    pub avx512f: bool,
    /// The 128-bit wide extension of the 64-bit ARM family.
    pub neon: bool,
}

/// A copy strategy tag. Each tag names one copy function, the width of the
/// chunks it moves per iteration, and the features it needs to be available.
#[derive(Clone, Copy, PartialEq, Eq, Structural, Debug)]
pub enum Strategy {
    /// The platform bulk-copy baseline.
    Reference,
    /// The one-byte-at-a-time loop.
    NaiveLoop,
    /// The 16-byte chunked loop (128-bit ARM registers).
    Wide128,
    /// The 32-byte chunked loop (256-bit x86 registers).
    Wide256,
    /// The 64-byte chunked loop (512-bit x86 registers).
    Wide512,
}

impl Strategy {
    /// Bytes moved per whole iteration of the strategy's loop; the byte-wise
    /// strategies move one.
    pub open spec fn spec_width(self) -> int {
        match self {
            Strategy::Reference => 1,
            Strategy::NaiveLoop => 1,
            Strategy::Wide128 => WIDTH_NEON as int,
            Strategy::Wide256 => WIDTH_AVX as int,
            Strategy::Wide512 => WIDTH_AVX512 as int,
        }
    }

    /// How many of `count` requested bytes the strategy actually copies: the
    /// wide strategies drop the tail that does not fill a whole chunk.
    pub open spec fn spec_copied_len(self, count: int) -> int {
        count - count % self.spec_width()
    }

    /// The strategy's chunk width in bytes.
    pub fn width(&self) -> (w: usize)
        ensures
            w as int == self.spec_width(),
    {
        match self {
            Strategy::Reference => 1,
            Strategy::NaiveLoop => 1,
            Strategy::Wide128 => WIDTH_NEON,
            Strategy::Wide256 => WIDTH_AVX,
            Strategy::Wide512 => WIDTH_AVX512,
        }
    }

    /// The strategy's stable name, the tag a benchmark driver reports under.
    pub fn name(&self) -> (s: &'static str)
        ensures
            s@ == self.spec_name(),
    {
        match self {
            Strategy::Reference => "reference",
            Strategy::NaiveLoop => "naive-loop",
            Strategy::Wide128 => "wide-128",
            Strategy::Wide256 => "wide-256",
            Strategy::Wide512 => "wide-512",
        }
    }

    /// The name each tag reports under.
    pub open spec fn spec_name(self) -> Seq<char> {
        match self {
            Strategy::Reference => "reference"@,
            Strategy::NaiveLoop => "naive-loop"@,
            Strategy::Wide128 => "wide-128"@,
            Strategy::Wide256 => "wide-256"@,
            Strategy::Wide512 => "wide-512"@,
        }
    }

    /// Whether the strategy may be invoked on a CPU with the given features.
    /// The byte-wise strategies are always available; each wide strategy
    /// needs its instruction-set extension, and the x86 ones also the legacy
    /// 128-bit extension.
    pub open spec fn spec_available(self, f: CpuFeatures) -> bool {
        match self {
            Strategy::Reference => true,
            Strategy::NaiveLoop => true,
            Strategy::Wide128 => f.neon,
            Strategy::Wide256 => f.sse && f.avx,
            Strategy::Wide512 => f.sse && f.avx512f,
        }
    }

    /// Evaluates the availability predicate.
    pub fn available(&self, f: &CpuFeatures) -> (r: bool)
        ensures
            r == self.spec_available(*f),
    {
        match self {
            Strategy::Reference => true,
            Strategy::NaiveLoop => true,
            Strategy::Wide128 => f.neon,
            Strategy::Wide256 => f.sse && f.avx,
            Strategy::Wide512 => f.sse && f.avx512f,
        }
    }

    /// Runs the strategy once over the region pair: the copied prefix of the
    /// destination becomes identical to the source, the dropped tail and
    /// everything past `count` keep their old bytes.
    pub fn run(&self, src: &Vec<u8>, dst: &mut Vec<u8>, count: usize)
        requires
            count <= src@.len(),
            count <= old(dst)@.len(),
        ensures
            final(dst)@ == copy_effect(src@, old(dst)@, self.spec_copied_len(count as int)),
    {
        match self {
            Strategy::Reference => memcpy_std(src, dst, count),
            Strategy::NaiveLoop => memcpy_loop(src, dst, count),
            Strategy::Wide128 => memcpy_neon(src, dst, count),
            Strategy::Wide256 => memcpy_avx(src, dst, count),
            Strategy::Wide512 => memcpy_avx512(src, dst, count),
        }
    }
}

/// The registry order in which strategies are enumerated when every feature
/// is present.
pub open spec fn spec_all_strategies() -> Seq<Strategy> {
    seq![
        Strategy::Reference,
        Strategy::NaiveLoop,
        Strategy::Wide128,
        Strategy::Wide256,
        Strategy::Wide512,
    ]
}

/// The strategies available on a CPU with features `f`, in registry order.
pub open spec fn spec_available_strategies(f: CpuFeatures) -> Seq<Strategy> {
    spec_all_strategies().filter(|s: Strategy| s.spec_available(f))
}

/// Enumerates the strategies whose availability predicate holds for the
/// given features, in registry order; callers iterate only these, so an
/// unavailable variant is never invoked silently.
pub fn available_strategies(f: &CpuFeatures) -> (v: Vec<Strategy>)
    ensures
        v@ == spec_available_strategies(*f),
{
    let mut v: Vec<Strategy> = Vec::new();
    v.push(Strategy::Reference);
    v.push(Strategy::NaiveLoop);
    if f.neon {
        v.push(Strategy::Wide128);
    }
    if f.sse && f.avx {
        v.push(Strategy::Wide256);
    }
    if f.sse && f.avx512f {
        v.push(Strategy::Wide512);
    }
    proof {
        reveal_with_fuel(Seq::filter, 6);
        assert(v@ =~= spec_available_strategies(*f));
    }
    v
}

} // verus!
