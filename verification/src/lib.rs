//! Verified copy strategies over byte regions.
//!
//! The library exposes a family of copy strategies (a reference bulk copy, a
//! naive byte loop, and wide chunked copies at 16, 32 and 64 bytes per
//! iteration), region-lifecycle helpers for the paired source and destination
//! buffers, and a correctness harness that is proved to accept every strategy.

mod harness;
mod region;
mod registry;
mod strategy;

pub use harness::check_strategy;
pub use region::create_regions;
pub use region::free_regions;
pub use region::regions_equal;
pub use registry::available_strategies;
pub use registry::spec_all_strategies;
pub use registry::spec_available_strategies;
pub use registry::CpuFeatures;
pub use registry::Strategy;
pub use strategy::copy_effect;
pub use strategy::lemma_copy_fidelity;
pub use strategy::lemma_copy_idempotent;
pub use strategy::lemma_copy_non_interference;
pub use strategy::memcpy_avx;
pub use strategy::memcpy_avx512;
pub use strategy::memcpy_loop;
pub use strategy::memcpy_neon;
pub use strategy::memcpy_std;
pub use strategy::WIDTH_AVX;
pub use strategy::WIDTH_AVX512;
pub use strategy::WIDTH_NEON;
