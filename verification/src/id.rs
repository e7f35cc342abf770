//! Identifiers: the tokens of 24 hexadecimal digits by which the objects of
//! a document refer to each other.
//!
//! An identifier is derived from a seed, the kind of the object and its
//! name, and from nothing else, so that every place that names the same
//! object of the same project derives the same identifier.

use crate::text::from_chars;
use crc::{Crc, CRC_64_ECMA_182};
use vstd::bytes::{spec_u64_to_le_bytes, u64_to_le_bytes};
use vstd::prelude::*;
use vstd::slice::slice_subrange;
use vstd::string::StrSliceExecFns;
use vstd::utf8::encode_utf8;

verus! {

/// The CRC-64/ECMA-182 checksum of `bytes`, as the crate `crc` computes it.
pub uninterp spec fn crc64_ecma_182(bytes: Seq<u8>) -> u64;

/// `crc::Crc::<u64>::checksum` with the algorithm `CRC_64_ECMA_182`: the
/// checksum of `bytes`, which depends on the bytes alone. Nothing is
/// claimed of its value.
#[verifier::external_body]
fn checksum(bytes: &[u8]) -> (r: u64)
    ensures
        r == crc64_ecma_182(bytes@),
{
    Crc::<u64>::new(&CRC_64_ECMA_182).checksum(bytes)
}

/// The sixteen hexadecimal digits, in upper case.
pub open spec fn digits() -> Seq<char> {
    "0123456789ABCDEF"@
}

/// `v` in hexadecimal, the most significant digit first, filled with zeros
/// at the front up to `width` digits; a number that needs more digits has
/// them all.
pub open spec fn hex(v: nat, width: nat) -> Seq<char>
    decreases v, width,
{
    if v < 16 && width <= 1 {
        seq![digits()[v as int]]
    } else {
        hex(
            v / 16,
            if width > 0 {
                (width - 1) as nat
            } else {
                0
            },
        ).push(digits()[(v % 16) as int])
    }
}

/// The identifier made of two checksums: `CA60`, the low 32 bits of the
/// first in 8 digits, and the second in 12 digits or more; of all this the
/// first 24 characters.
pub open spec fn id_text(first: u64, second: u64) -> Seq<char> {
    ("CA60"@ + hex((first % 0x1_0000_0000) as nat, 8) + hex(second as nat, 12)).take(24)
}

/// The bytes that the first checksum is taken of: the eight bytes of the
/// seed, the least significant first, and the bytes of the kind in UTF-8.
pub open spec fn kind_bytes(id_base: u64, kind: Seq<char>) -> Seq<u8> {
    spec_u64_to_le_bytes(id_base) + encode_utf8(kind)
}

/// The identifier of the object of kind `kind` that is named `name`, under
/// the seed `id_base`.
pub open spec fn id_of(id_base: u64, kind: Seq<char>, name: Seq<char>) -> Seq<char> {
    id_text(crc64_ecma_182(kind_bytes(id_base, kind)), crc64_ecma_182(encode_utf8(name)))
}

/// `hex` writes digits only, and at least as many as asked for.
pub proof fn lemma_hex(v: nat, width: nat)
    ensures
        hex(v, width).len() >= width,
        hex(v, width).len() >= 1,
        forall|i: int| 0 <= i < hex(v, width).len() ==> digits().contains(#[trigger] hex(v, width)[i]),
    decreases v, width,
{
    reveal_strlit("0123456789ABCDEF");
    if v < 16 && width <= 1 {
        assert(digits()[v as int] == digits()[v as int]);
    } else {
        let w: nat = if width > 0 {
            (width - 1) as nat
        } else {
            0
        };
        lemma_hex(v / 16, w);
        assert(digits()[(v % 16) as int] == digits()[(v % 16) as int]);
    }
}

/// Appends `v` in hexadecimal, in `width` digits or more.
fn push_hex(out: &mut Vec<char>, v: u64, width: usize)
    ensures
        final(out)@ == old(out)@ + hex(v as nat, width as nat),
    decreases v, width,
{
    proof {
        reveal_strlit("0123456789ABCDEF");
    }
    if v < 16 && width <= 1 {
        out.push("0123456789ABCDEF".get_char(v as usize));
        assert(out@ =~= old(out)@ + hex(v as nat, width as nat));
    } else {
        let w: usize = if width > 0 {
            width - 1
        } else {
            0
        };
        push_hex(out, v / 16, w);
        out.push("0123456789ABCDEF".get_char((v % 16) as usize));
        assert(out@ =~= old(out)@ + hex(v as nat, width as nat));
    }
}

/// The identifier made of the two checksums `first` and `second`.
pub fn format_id(first: u64, second: u64) -> (r: String)
    ensures
        r@ == id_text(first, second),
        r@.len() == 24,
        forall|i: int| 0 <= i < 24 ==> digits().contains(#[trigger] r@[i]),
{
    let mut out: Vec<char> = Vec::new();
    out.push('C');
    out.push('A');
    out.push('6');
    out.push('0');
    proof {
        reveal_strlit("CA60");
        reveal_strlit("0123456789ABCDEF");
        assert(out@ =~= "CA60"@);
        lemma_hex((first % 0x1_0000_0000) as nat, 8);
        lemma_hex(second as nat, 12);
        assert(digits()[12] == 'C' && digits()[10] == 'A' && digits()[6] == '6' && digits()[0]
            == '0');
    }
    push_hex(&mut out, first % 0x1_0000_0000, 8);
    push_hex(&mut out, second, 12);
    from_chars(slice_subrange(out.as_slice(), 0, 24))
}

/// The bytes of the seed followed by those of the kind.
fn bytes_of_kind(id_base: u64, kind: &str) -> (r: Vec<u8>)
    ensures
        r@ == kind_bytes(id_base, kind@),
{
    let mut bytes = u64_to_le_bytes(id_base);
    let tail = kind.as_bytes();
    let ghost head = bytes@;
    let mut i: usize = 0;
    while i < tail.len()
        invariant
            i <= tail.len(),
            tail@ == encode_utf8(kind@),
            bytes@ == head + tail@.take(i as int),
        decreases tail.len() - i,
    {
        bytes.push(tail[i]);
        i += 1;
        assert(bytes@ =~= head + tail@.take(i as int));
    }
    assert(tail@.take(i as int) =~= tail@);
    bytes
}

/// Derives the identifier of the object of kind `kind` that is named `name`,
/// under the seed `id_base`: 24 hexadecimal digits in upper case, the same
/// for the same three arguments.
pub fn derive_id(id_base: u64, kind: &str, name: &str) -> (r: String)
    ensures
        r@ == id_of(id_base, kind@, name@),
        r@.len() == 24,
        forall|i: int| 0 <= i < 24 ==> digits().contains(#[trigger] r@[i]),
{
    let bytes = bytes_of_kind(id_base, kind);
    let first = checksum(bytes.as_slice());
    let second = checksum(name.as_bytes());
    format_id(first, second)
}

/// The seed of the project whose library is named `target_name`: the
/// checksum of that name.
pub open spec fn seed_of(target_name: Seq<char>) -> u64 {
    crc64_ecma_182(encode_utf8(target_name))
}

/// Derives the seed of the project whose library is named `target_name`.
pub fn derive_seed(target_name: &str) -> (r: u64)
    ensures
        r == seed_of(target_name@),
{
    checksum(target_name.as_bytes())
}

} // verus!
