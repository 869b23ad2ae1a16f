//! The engine's identity hash: FNV-1a over UTF-8 bytes.
//!
//! String identities (layer names, element ids) are folded to 64-bit values
//! with this hash, and the colour-map helpers derive debug colours from the
//! same function.  The whole computation is specified exactly, so equal
//! strings provably hash alike.

use vstd::prelude::*;
use vstd::string::StrSliceExecFns;

verus! {

/// The FNV-1a 64-bit offset basis.
pub const FNV_OFFSET: u64 = 0xcbf2_9ce4_8422_2325;

/// The FNV-1a 64-bit prime.
pub const FNV_PRIME: u64 = 0x100_0000_01b3;

/// The FNV-1a 64-bit hash of a byte sequence.
pub open spec fn spec_fnv1a(bytes: Seq<u8>) -> u64
    decreases bytes.len(),
{
    if bytes.len() == 0 {
        FNV_OFFSET
    } else {
        vstd::wrapping::u64_specs::wrapping_mul(
            spec_fnv1a(bytes.drop_last()) ^ (bytes.last() as u64),
            FNV_PRIME,
        )
    }
}

/// The hash of a string: [`spec_fnv1a`] over its UTF-8 bytes.
pub open spec fn spec_str_hash(s: Seq<char>) -> u64 {
    spec_fnv1a(vstd::utf8::encode_utf8(s))
}

/// The FNV-1a 64-bit hash of `bytes`.
pub fn fnv1a(bytes: &Vec<u8>) -> (r: u64)
    ensures
        r == spec_fnv1a(bytes@),
{
    let mut h: u64 = FNV_OFFSET;
    let mut i: usize = 0;
    while i < bytes.len()
        invariant
            i <= bytes@.len(),
            h == spec_fnv1a(bytes@.take(i as int)),
        decreases bytes@.len() - i,
    {
        h = (h ^ (bytes[i] as u64)).wrapping_mul(FNV_PRIME);
        proof {
            assert(bytes@.take(i + 1).drop_last() =~= bytes@.take(i as int));
            assert(bytes@.take(i + 1).last() == bytes@[i as int]);
        }
        i = i + 1;
    }
    proof {
        assert(bytes@.take(bytes@.len() as int) =~= bytes@);
    }
    h
}

/// The FNV-1a 64-bit hash of the UTF-8 bytes of `s`.
pub fn str_hash(s: &str) -> (r: u64)
    ensures
        r == spec_str_hash(s@),
{
    let bytes = s.as_bytes_vec();
    fnv1a(&bytes)
}

/// The debug colour derived from a string: the hash's three low bytes.
pub open spec fn spec_hash_into_rgb(s: Seq<char>) -> (u8, u8, u8) {
    (
        (spec_str_hash(s) & 0xFF) as u8,
        ((spec_str_hash(s) >> 8) & 0xFF) as u8,
        ((spec_str_hash(s) >> 16) & 0xFF) as u8,
    )
}

/// Derives an opaque debug colour from a string; the empty string maps to
/// fully transparent black.
pub open spec fn spec_hash_into_rgba(s: Seq<char>) -> (u8, u8, u8, u8) {
    if s.len() == 0 {
        (0, 0, 0, 0)
    } else {
        (spec_hash_into_rgb(s).0, spec_hash_into_rgb(s).1, spec_hash_into_rgb(s).2, 255)
    }
}

/// Folds a string into an RGB triple, for colour-coded debug overlays.
pub fn hash_into_rgb(input: &str) -> (rgb: (u8, u8, u8))
    ensures
        rgb == spec_hash_into_rgb(input@),
{
    let hash = str_hash(input);
    let r = (hash & 0xFF) as u8;
    let g = ((hash >> 8) & 0xFF) as u8;
    let b = ((hash >> 16) & 0xFF) as u8;
    (r, g, b)
}

/// Folds a string into an RGBA quadruple: opaque for any non-empty string,
/// fully transparent for the empty one.
pub fn hash_into_rgba(input: &str) -> (rgba: (u8, u8, u8, u8))
    ensures
        rgba == spec_hash_into_rgba(input@),
{
    if input.unicode_len() == 0 {
        return (0, 0, 0, 0);
    }
    let (r, g, b) = hash_into_rgb(input);
    (r, g, b, 255)
}

} // verus!
