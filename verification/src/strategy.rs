//! The copy strategies and the model of their effect on the destination.
//!
//! Every strategy takes the source region as a shared borrow and the
//! destination as an exclusive borrow, so the two spans can never overlap;
//! the bound carried by each buffer makes an undersized region a checked
//! precondition instead of undefined behavior.

use vstd::arithmetic::div_mod::lemma_fundamental_div_mod;
use vstd::prelude::*;

verus! {

/// Vector width, in bytes, of the 128-bit wide strategy.
pub const WIDTH_NEON: usize = 16;

/// Vector width, in bytes, of the 256-bit wide strategy.
pub const WIDTH_AVX: usize = 32;

/// Vector width, in bytes, of the 512-bit wide strategy.
pub const WIDTH_AVX512: usize = 64;

/// The contents of a destination region of contents `dst` after `n` bytes of
/// a source region of contents `src` were copied into its front: the first
/// `n` bytes mirror `src`, every byte past them keeps its old value, and the
/// length does not move.
pub open spec fn copy_effect(src: Seq<u8>, dst: Seq<u8>, n: int) -> Seq<u8>
    recommends
        0 <= n <= src.len(),
        n <= dst.len(),
{
    dst.map(|i: int, b: u8| if i < n { src[i] } else { b })
}

/// Reference strategy: delegates the whole prefix to the platform's
/// non-overlapping bulk-copy primitive.
pub fn memcpy_std(src: &Vec<u8>, dst: &mut Vec<u8>, count: usize)
    requires
        count <= src@.len(),
        count <= old(dst)@.len(),
    ensures
        final(dst)@ == copy_effect(src@, old(dst)@, count as int),
{
    bulk_copy(src, dst, count);
}

/// Relies on `<[u8]>::copy_from_slice`: after the call, the first `count`
/// bytes of `dst` hold the same bytes as the first `count` bytes of `src`,
/// and the length of `dst` and every byte of it past `count` are unchanged.
#[verifier::external_body]
fn bulk_copy(src: &Vec<u8>, dst: &mut Vec<u8>, count: usize)
    requires
        count <= src@.len(),
        count <= old(dst)@.len(),
    ensures
        final(dst)@ == copy_effect(src@, old(dst)@, count as int),
{
    dst[..count].copy_from_slice(&src[..count]);
}

/// Naive strategy: copies one byte at a time in ascending address order.
pub fn memcpy_loop(src: &Vec<u8>, dst: &mut Vec<u8>, count: usize)
    requires
        count <= src@.len(),
        count <= old(dst)@.len(),
    ensures
        final(dst)@ == copy_effect(src@, old(dst)@, count as int),
{
    let mut i: usize = 0;
    while i < count
        invariant
            i <= count,
            count <= src@.len(),
            count <= dst@.len(),
            dst@.len() == old(dst)@.len(),
            forall|j: int| 0 <= j < i ==> dst@[j] == src@[j],
            forall|j: int| i <= j < dst@.len() ==> dst@[j] == old(dst)@[j],
        decreases count - i,
    {
        let b: u8 = src[i];
        dst.set(i, b);
        i = i + 1;
    }
    assert(dst@ =~= copy_effect(src@, old(dst)@, count as int));
}

/// The wide copy loop shared by the vectorized strategies: walks the region
/// pair one whole `width`-byte chunk at a time, `count / width` times, and
/// deliberately leaves the `count % width` tail bytes of the destination
/// untouched, as the hardware-tuned wide loops do.
fn copy_chunked(src: &Vec<u8>, dst: &mut Vec<u8>, count: usize, width: usize)
    requires
        1 <= width,
        count <= src@.len(),
        count <= old(dst)@.len(),
    ensures
        final(dst)@ == copy_effect(src@, old(dst)@, count as int - count as int % width as int),
{
    let chunks: usize = count / width;
    proof {
        lemma_fundamental_div_mod(count as int, width as int);
        assert(width as int * (count as int / width as int) == chunks as int * width as int)
            by (nonlinear_arith)
            requires
                chunks as int == count as int / width as int,
        ;
    }
    let mut k: usize = 0;
    while k < chunks
        invariant
            k <= chunks,
            1 <= width,
            chunks as int * width as int == count as int - count as int % width as int,
            count <= src@.len(),
            count <= dst@.len(),
            dst@.len() == old(dst)@.len(),
            forall|j: int| 0 <= j < k as int * width as int ==> dst@[j] == src@[j],
            forall|j: int| k as int * width as int <= j < dst@.len() ==> dst@[j] == old(dst)@[j],
        decreases chunks - k,
    {
        proof {
            assert((k as int + 1) * width as int <= chunks as int * width as int
                && (k as int + 1) * width as int == k as int * width as int + width as int)
                by (nonlinear_arith)
                requires
                    k as int + 1 <= chunks as int,
                    1 <= width as int,
            ;
        }
        let base: usize = k * width;
        let mut j: usize = 0;
        while j < width
            invariant
                j <= width,
                base as int == k as int * width as int,
                base + width <= count,
                count <= src@.len(),
                count <= dst@.len(),
                dst@.len() == old(dst)@.len(),
                forall|t: int| 0 <= t < base as int + j as int ==> dst@[t] == src@[t],
                forall|t: int| base as int + j as int <= t < dst@.len() ==> dst@[t] == old(dst)@[t],
            decreases width - j,
        {
            let b: u8 = src[base + j];
            dst.set(base + j, b);
            j = j + 1;
        }
        k = k + 1;
    }
    assert(dst@ =~= copy_effect(src@, old(dst)@, count as int - count as int % width as int));
}

/// 256-bit wide strategy: copies `count / 32` whole 32-byte chunks in
/// ascending order and drops the `count % 32` tail bytes. A `count` that is
/// not a multiple of 32 therefore yields a short copy; callers who need the
/// tail must use the reference or naive strategy.
pub fn memcpy_avx(src: &Vec<u8>, dst: &mut Vec<u8>, count: usize)
    requires
        count <= src@.len(),
        count <= old(dst)@.len(),
    ensures
        final(dst)@ == copy_effect(
            src@,
            old(dst)@,
            count as int - count as int % (WIDTH_AVX as int),
        ),
{
    copy_chunked(src, dst, count, WIDTH_AVX);
}

/// 512-bit wide strategy: copies `count / 64` whole 64-byte chunks in
/// ascending order and drops the `count % 64` tail bytes. A `count` that is
/// not a multiple of 64 therefore yields a short copy; callers who need the
/// tail must use the reference or naive strategy.
pub fn memcpy_avx512(src: &Vec<u8>, dst: &mut Vec<u8>, count: usize)
    requires
        count <= src@.len(),
        count <= old(dst)@.len(),
    ensures
        final(dst)@ == copy_effect(
            src@,
            old(dst)@,
            count as int - count as int % (WIDTH_AVX512 as int),
        ),
{
    copy_chunked(src, dst, count, WIDTH_AVX512);
}

/// 128-bit wide strategy: copies `count / 16` whole 16-byte chunks in
/// ascending order and drops the `count % 16` tail bytes. A `count` that is
/// not a multiple of 16 therefore yields a short copy; callers who need the
/// tail must use the reference or naive strategy.
pub fn memcpy_neon(src: &Vec<u8>, dst: &mut Vec<u8>, count: usize)
    requires
        count <= src@.len(),
        count <= old(dst)@.len(),
    ensures
        final(dst)@ == copy_effect(
            src@,
            old(dst)@,
            count as int - count as int % (WIDTH_NEON as int),
        ),
{
    copy_chunked(src, dst, count, WIDTH_NEON);
}

/// Fidelity law: after `n` bytes were copied, the first `n` bytes of the
/// destination are byte-for-byte identical to the first `n` bytes of the
/// source as they stood at call time.
pub proof fn lemma_copy_fidelity(src: Seq<u8>, dst: Seq<u8>, n: int)
    requires
        0 <= n <= src.len(),
        n <= dst.len(),
    ensures
        copy_effect(src, dst, n).subrange(0, n) == src.subrange(0, n),
{
    assert(copy_effect(src, dst, n).subrange(0, n) =~= src.subrange(0, n));
}

/// Non-interference law: a copy of `n` bytes writes nothing past them; the
/// destination keeps its length and every byte at or beyond `n` keeps its
/// pre-call value.
pub proof fn lemma_copy_non_interference(src: Seq<u8>, dst: Seq<u8>, n: int)
    requires
        0 <= n <= src.len(),
        n <= dst.len(),
    ensures
        copy_effect(src, dst, n).len() == dst.len(),
        copy_effect(src, dst, n).subrange(n, dst.len() as int) == dst.subrange(
            n,
            dst.len() as int,
        ),
{
    assert(copy_effect(src, dst, n).subrange(n, dst.len() as int) =~= dst.subrange(
        n,
        dst.len() as int,
    ));
}

/// Idempotence law: copying the same `n` source bytes a second time, without
/// the source having changed, leaves the destination exactly as the first
/// copy left it.
pub proof fn lemma_copy_idempotent(src: Seq<u8>, dst: Seq<u8>, n: int)
    requires
        0 <= n <= src.len(),
        n <= dst.len(),
    ensures
        copy_effect(src, copy_effect(src, dst, n), n) == copy_effect(src, dst, n),
{
    assert(copy_effect(src, copy_effect(src, dst, n), n) =~= copy_effect(src, dst, n));
}

} // verus!
