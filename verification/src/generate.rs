//! Hash-based tag generation.
//!
//! Two strategies derive a tag body deterministically: from arbitrary
//! byte content (strong), and from a file's size and modification time
//! (weak). Both hash their input with a fast 64-bit hash under a fixed
//! per-strategy seed, then encode the eight little-endian hash bytes as
//! unpadded standard base64 — an encoding whose alphabet is a subset of
//! `etagc`, so a generated body is always grammar-legal.

use vstd::prelude::*;

use crate::grammar::{is_etagc, tag_chars_ok};

verus! {

/// The seed of the content-derived (strong) generator.
pub const CONTENT_SEED: u64 = 3;

/// The seed of the file-metadata-derived (weak) generator; distinct from
/// [`CONTENT_SEED`] so the two strategies never collide on identical
/// byte patterns.
pub const FILE_META_SEED: u64 = 4;

/// A file's modification time, as its distance in nanoseconds from a
/// fixed epoch. Retrieval is the caller's concern: this crate only
/// consumes the already-retrieved value.
#[derive(Debug, Clone, Copy, PartialEq, Eq, Structural)]
pub enum ModifiedTime {
    /// The file was modified at or after the epoch, this many
    /// nanoseconds into it.
    SinceEpoch(u128),
    /// The file was modified strictly before the epoch, this many
    /// nanoseconds short of it.
    BeforeEpoch(u128),
}

/// The 64-bit hash of the given bytes under the given seed. A function
/// of its arguments alone; the same bytes and seed always give the same
/// value.
pub uninterp spec fn hash64_of(data: Seq<u8>, seed: u64) -> u64;

/// The unpadded standard-alphabet base64 encoding of the given bytes.
pub uninterp spec fn base64_nopad_of(bytes: Seq<u8>) -> Seq<char>;

/// A character of the standard base64 alphabet: `A`-`Z`, `a`-`z`,
/// `0`-`9`, `+` and `/`.
pub open spec fn is_base64_char(c: char) -> bool {
    (0x41 <= c as u32 && c as u32 <= 0x5a) || (0x61 <= c as u32 && c as u32 <= 0x7a) || (0x30
        <= c as u32 && c as u32 <= 0x39) || c as u32 == 0x2b || c as u32 == 0x2f
}

/// Every character of the standard base64 alphabet is legal under
/// `etagc`, so an encoded hash is always a valid tag body.
pub proof fn lemma_base64_chars_are_etagc(s: Seq<char>)
    requires
        forall|i: int| 0 <= i < s.len() ==> is_base64_char(#[trigger] s[i]),
    ensures
        tag_chars_ok(s),
{
    assert forall|i: int| 0 <= i < s.len() implies is_etagc(#[trigger] s[i]) by {
        assert(is_base64_char(s[i]));
    }
}

/// Relies on `wyhash::wyhash`: a 64-bit hash that is a function of the
/// input bytes and the seed alone (the crate's `Hasher` with a single
/// `write` reduces to the same `wyhash_core`/`wyhash_finish` pipeline).
#[verifier::external_body]
pub(crate) fn hash64(data: &Vec<u8>, seed: u64) -> (r: u64)
    ensures
        r == hash64_of(data@, seed),
{
    wyhash::wyhash(data.as_slice(), seed)
}

/// Relies on `base64::encode_config` with `base64::STANDARD_NO_PAD`:
/// unpadded encoding over the standard alphabet, with the documented
/// output length of four characters per three input bytes, rounded up
/// without padding.
#[verifier::external_body]
pub(crate) fn base64_nopad(bytes: &Vec<u8>) -> (r: String)
    ensures
        r@ == base64_nopad_of(bytes@),
        r@.len() == (4 * bytes@.len() + 2) / 3,
        forall|i: int| 0 <= i < r@.len() ==> is_base64_char(#[trigger] r@[i]),
{
    base64::encode_config(bytes.as_slice(), base64::STANDARD_NO_PAD)
}

/// The eight bytes of a 64-bit value, least significant first.
pub open spec fn u64_le_bytes(v: u64) -> Seq<u8> {
    Seq::new(8, |i: int| ((v >> ((8 * i) as u64)) & 0xff) as u8)
}

/// The sixteen bytes of a 128-bit value, least significant first.
pub open spec fn u128_le_bytes(v: u128) -> Seq<u8> {
    Seq::new(16, |i: int| ((v >> ((8 * i) as u128)) & 0xff) as u8)
}

/// The bytes hashed by the file-metadata generator: the size's eight
/// little-endian bytes, then — when the modification time is available —
/// its nanosecond distance from the epoch as sixteen little-endian
/// bytes, preceded by a `-` marker byte when the time lies before the
/// epoch.
pub open spec fn meta_bytes(size: u64, modified: Option<ModifiedTime>) -> Seq<u8> {
    u64_le_bytes(size) + match modified {
        Option::None => Seq::<u8>::empty(),
        Option::Some(ModifiedTime::SinceEpoch(n)) => u128_le_bytes(n),
        Option::Some(ModifiedTime::BeforeEpoch(n)) => seq![0x2du8] + u128_le_bytes(n),
    }
}

/// The tag body both generators produce for the given input bytes and
/// seed: the base64 encoding of the hash's little-endian bytes.
pub open spec fn generated_tag(data: Seq<u8>, seed: u64) -> Seq<char> {
    base64_nopad_of(u64_le_bytes(hash64_of(data, seed)))
}

/// Append the eight little-endian bytes of a 64-bit value.
pub(crate) fn push_u64_le(out: &mut Vec<u8>, v: u64)
    ensures
        final(out)@ == old(out)@ + u64_le_bytes(v),
{
    let mut k: usize = 0;
    while k < 8
        invariant
            k <= 8,
            out@ == old(out)@ + u64_le_bytes(v).subrange(0, k as int),
        decreases 8 - k,
    {
        let b: u8 = ((v >> ((8 * k) as u64)) & 0xff) as u8;
        out.push(b);
        proof {
            assert(b == u64_le_bytes(v)[k as int]);
            assert(out@ =~= old(out)@ + u64_le_bytes(v).subrange(0, k as int + 1));
        }
        k += 1;
    }
    proof {
        assert(u64_le_bytes(v).subrange(0, 8) =~= u64_le_bytes(v));
    }
}

/// Append the sixteen little-endian bytes of a 128-bit value.
pub(crate) fn push_u128_le(out: &mut Vec<u8>, v: u128)
    ensures
        final(out)@ == old(out)@ + u128_le_bytes(v),
{
    let mut k: usize = 0;
    while k < 16
        invariant
            k <= 16,
            out@ == old(out)@ + u128_le_bytes(v).subrange(0, k as int),
        decreases 16 - k,
    {
        let b: u8 = ((v >> ((8 * k) as u128)) & 0xff) as u8;
        out.push(b);
        proof {
            assert(b == u128_le_bytes(v)[k as int]);
            assert(out@ =~= old(out)@ + u128_le_bytes(v).subrange(0, k as int + 1));
        }
        k += 1;
    }
    proof {
        assert(u128_le_bytes(v).subrange(0, 16) =~= u128_le_bytes(v));
    }
}

} // verus!
