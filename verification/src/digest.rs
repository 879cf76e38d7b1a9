//! Content digests: byte streams fed to std's default hasher, shown as
//! lower-case hexadecimal text.
use vstd::prelude::*;
use crate::text::{hex_text, push_hex};
use std::collections::hash_map::DefaultHasher;
use std::hash::Hasher;
use vstd::std_specs::hash::DefaultHasherAdditionalSpecFns;

verus! {

/// The value of std's `DefaultHasher` after one `write` of these bytes, as
/// `finish` returns it (vstd's model of the hasher: the sequence of writes,
/// and `finish` as a function of it).
pub open spec fn default_hash(bytes: Seq<u8>) -> u64 {
    <DefaultHasher as DefaultHasherAdditionalSpecFns>::spec_finish(seq![bytes])
}

/// Hashes bytes with a fresh `DefaultHasher`: one `write`, then `finish`.
pub fn hash_bytes(bytes: &[u8]) -> (h: u64)
    ensures
        h == default_hash(bytes@),
{
    let mut hasher = DefaultHasher::new();
    hasher.write(bytes);
    assert(hasher@ =~= seq![bytes@]);
    hasher.finish()
}

/// The bytes that hashing a string feeds to the hasher: its UTF-8 encoding
/// followed by the byte 0xff, which never occurs in UTF-8.
pub open spec fn str_hash_bytes(s: Seq<char>) -> Seq<u8> {
    vstd::utf8::encode_utf8(s) + seq![0xffu8]
}

/// The bytes that hashing an `i32` feeds to the hasher: its four bytes, least
/// significant first.
pub open spec fn i32_hash_bytes(v: i32) -> Seq<u8> {
    let u = v as u32;
    seq![
        (u % 256) as u8,
        ((u / 256) % 256) as u8,
        ((u / 65536) % 256) as u8,
        ((u / 16777216) % 256) as u8,
    ]
}

/// Appends the hash bytes of a string.
pub fn push_str_hash_bytes(out: &mut Vec<u8>, s: &str)
    ensures
        final(out)@ == old(out)@ + str_hash_bytes(s@),
{
    let bytes = s.as_bytes();
    let mut i: usize = 0;
    while i < bytes.len()
        invariant
            i <= bytes.len(),
            bytes@ == vstd::utf8::encode_utf8(s@),
            out@ == old(out)@ + bytes@.subrange(0, i as int),
        decreases bytes.len() - i,
    {
        out.push(bytes[i]);
        i = i + 1;
        assert(old(out)@ + bytes@.subrange(0, i as int) =~= (old(out)@ + bytes@.subrange(
            0,
            i - 1,
        )).push(bytes@[i - 1]));
    }
    assert(bytes@.subrange(0, bytes.len() as int) =~= bytes@);
    out.push(0xffu8);
    assert(out@ =~= old(out)@ + str_hash_bytes(s@));
}

/// Appends the hash bytes of an `i32`.
pub fn push_i32_hash_bytes(out: &mut Vec<u8>, v: i32)
    ensures
        final(out)@ == old(out)@ + i32_hash_bytes(v),
{
    let u = v as u32;
    out.push((u % 256) as u8);
    out.push(((u / 256) % 256) as u8);
    out.push(((u / 65536) % 256) as u8);
    out.push(((u / 16777216) % 256) as u8);
    assert(out@ =~= old(out)@ + i32_hash_bytes(v));
}

/// Lower-case hexadecimal text of the default hash of a byte stream.
pub fn hex_digest(bytes: &[u8]) -> (r: String)
    ensures
        r@ == hex_text(default_hash(bytes@) as nat),
{
    let h = hash_bytes(bytes);
    let mut v: Vec<char> = Vec::new();
    push_hex(&mut v, h);
    assert(v@ =~= hex_text(h as nat));
    crate::text::string_from_chars(v.as_slice())
}

} // verus!
