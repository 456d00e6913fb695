//! Scene identification hash from raw pixel bytes: about 64 bytes sampled at
//! a regular stride, fed one by one into the standard library's default
//! hasher.

use vstd::prelude::*;
use std::collections::hash_map::DefaultHasher;
use std::hash::Hasher;
use vstd::std_specs::hash::DefaultHasherAdditionalSpecFns;

verus! {

/// Sampling stride: the number of bytes of a `width x height` RGB frame
/// divided by 64, at least 1.
pub open spec fn sample_stride(width: usize, height: usize) -> int {
    let s = (width * height * 3) / 64;
    if s >= 1 { s } else { 1 }
}

/// The sampled bytes, each as a one-byte write: indices `0, stride,
/// 2*stride, ...` below the length of `pixels`.
pub open spec fn sampled_writes(pixels: Seq<u8>, stride: int) -> Seq<Seq<u8>>
    recommends
        stride >= 1,
{
    Seq::new(
        (if pixels.len() == 0 { 0 } else { (pixels.len() - 1) / stride + 1 }) as nat,
        |k: int| seq![pixels[k * stride]],
    )
}

/// The hash of a frame: zero for an empty buffer or a zero dimension,
/// otherwise the default hasher's digest of the sampled bytes.
pub open spec fn scene_hash_spec(pixels: Seq<u8>, width: usize, height: usize) -> u64 {
    if pixels.len() == 0 || width == 0 || height == 0 {
        0
    } else {
        DefaultHasher::spec_finish(sampled_writes(pixels, sample_stride(width, height)))
    }
}

/// Quick scene hash of a raw RGB frame (see [`scene_hash_spec`]).
pub fn compute_scene_hash_from_bytes(pixels: &[u8], width: usize, height: usize) -> (r: u64)
    requires
        width * height * 3 <= usize::MAX,
    ensures
        r == scene_hash_spec(pixels@, width, height),
{
    if pixels.len() == 0 || width == 0 || height == 0 {
        return 0;
    }
    let raw = (width * height * 3) / 64;
    let stride = if raw >= 1 { raw } else { 1 };
    let mut hasher = DefaultHasher::new();
    let n = pixels.len();
    let ghost count: int = (n as int - 1) / (stride as int) + 1;
    let mut i: usize = 0;
    let ghost mut k: int = 0;
    loop
        invariant_except_break
            hasher@ =~= sampled_writes(pixels@, stride as int).take(k),
        invariant
            stride >= 1,
            stride == sample_stride(width, height),
            n == pixels@.len(),
            n > 0,
            count == (n as int - 1) / (stride as int) + 1,
            sampled_writes(pixels@, stride as int).len() == count,
            0 <= k,
            i == k * stride,
            i < n,
        ensures
            hasher@ =~= sampled_writes(pixels@, stride as int),
        decreases n - i,
    {
        let b = pixels[i];
        let one: [u8; 1] = [b];
        proof {
            assert(k * stride <= n - 1);
            assert(k <= (n as int - 1) / (stride as int)) by (nonlinear_arith)
                requires
                    k * stride <= n - 1,
                    stride >= 1,
                    k >= 0,
            ;
            assert(sampled_writes(pixels@, stride as int)[k] == seq![pixels@[k * stride]]);
            assert(one@ =~= seq![pixels@[k * stride]]);
            assert(sampled_writes(pixels@, stride as int).take(k + 1) =~= sampled_writes(pixels@, stride as int).take(k).push(seq![pixels@[k * stride]]));
        }
        hasher.write(&one);
        proof {
            assert((k + 1) * stride == k * stride + stride) by (nonlinear_arith);
        }
        if n - i <= stride {
            proof {
                assert(k + 1 == count) by (nonlinear_arith)
                    requires
                        k * stride <= n - 1,
                        n - 1 < (k + 1) * stride,
                        stride >= 1,
                        k >= 0,
                        count == (n as int - 1) / (stride as int) + 1,
                ;
                assert(sampled_writes(pixels@, stride as int).take(k + 1) =~= sampled_writes(pixels@, stride as int));
            }
            break;
        }
        i = i + stride;
        proof {
            k = k + 1;
        }
    }
    hasher.finish()
}

/// Number of set bits among the lowest `n` bits of `x`.
pub open spec fn low_bit_count(x: u64, n: nat) -> nat
    decreases n,
{
    if n == 0 {
        0
    } else {
        low_bit_count(x, (n - 1) as nat) + (if (x >> ((n - 1) as u64)) & 1 == 1 { 1nat } else { 0nat })
    }
}

/// Number of bit positions in which two scene hashes differ (the popcount of
/// their exclusive or), from 0 for equal hashes to 64.
pub fn hash_bit_difference(prev_hash: u64, curr_hash: u64) -> (r: u32)
    ensures
        r == low_bit_count(prev_hash ^ curr_hash, 64),
        r <= 64,
{
    let x = prev_hash ^ curr_hash;
    let mut count: u32 = 0;
    let mut i: u64 = 0;
    while i < 64
        invariant
            i <= 64,
            count == low_bit_count(x, i as nat),
            count <= i,
        decreases 64 - i,
    {
        let bit = (x >> i) & 1;
        assert(bit <= 1) by (bit_vector)
            requires
                bit == (x >> i) & 1;
        if bit == 1 {
            count = count + 1;
        }
        i = i + 1;
    }
    count
}

} // verus!
