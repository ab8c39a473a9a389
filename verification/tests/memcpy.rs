use memcpy::create_regions;
use memcpy::free_regions;
use memcpy::memcpy_avx;
use memcpy::memcpy_avx512;
use memcpy::memcpy_loop;
use memcpy::memcpy_neon;
use memcpy::memcpy_std;
use memcpy::regions_equal;

const LEN: usize = 1 << 17; // 128 KiB

/// Deterministic stand-in for the entropy device: xorshift-mixed bytes.
fn random_bytes(len: usize, mut state: u64) -> Vec<u8> {
    let mut v = Vec::with_capacity(len);
    for _ in 0..len {
        state ^= state << 13;
        state ^= state >> 7;
        state ^= state << 17;
        v.push((state >> 24) as u8);
    }
    v
}

#[test]
fn test_memcpy_std() {
    let (src, mut dst) = create_regions(LEN, random_bytes(LEN, 1));
    memcpy_std(&src, &mut dst, LEN);
    assert!(regions_equal(&src, &dst, LEN));
    free_regions(src, dst, LEN);
}

#[test]
fn test_memcpy_loop() {
    let (src, mut dst) = create_regions(LEN, random_bytes(LEN, 2));
    memcpy_loop(&src, &mut dst, LEN);
    assert!(regions_equal(&src, &dst, LEN));
    free_regions(src, dst, LEN);
}

#[test]
fn test_memcpy_avx() {
    let (src, mut dst) = create_regions(LEN, random_bytes(LEN, 3));
    memcpy_avx(&src, &mut dst, LEN);
    assert!(regions_equal(&src, &dst, LEN));
    free_regions(src, dst, LEN);
}

#[test]
fn test_memcpy_avx512() {
    let (src, mut dst) = create_regions(LEN, random_bytes(LEN, 4));
    memcpy_avx512(&src, &mut dst, LEN);
    assert!(regions_equal(&src, &dst, LEN));
    free_regions(src, dst, LEN);
}

#[test]
fn test_memcpy_neon() {
    let (src, mut dst) = create_regions(LEN, random_bytes(LEN, 5));
    memcpy_neon(&src, &mut dst, LEN);
    assert!(regions_equal(&src, &dst, LEN));
    free_regions(src, dst, LEN);
}
