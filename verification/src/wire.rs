//! Big-endian layout of 32-bit words, the building block of every multi-byte
//! field of the packet.

use vstd::prelude::*;

verus! {

/// The four bytes of `x`, most significant first.
pub open spec fn be_bytes(x: u32) -> Seq<u8> {
    seq![
        (x / 0x100_0000) as u8,
        (x / 0x1_0000 % 0x100) as u8,
        (x / 0x100 % 0x100) as u8,
        (x % 0x100) as u8,
    ]
}

/// The number that the four bytes of `bytes` from index `at` on spell, most
/// significant first.
pub open spec fn be_value(bytes: Seq<u8>, at: int) -> int {
    bytes[at] * 0x100_0000 + bytes[at + 1] * 0x1_0000 + bytes[at + 2] * 0x100 + bytes[at + 3]
}

/// Reading back the bytes of a word gives the word, wherever they lie.
pub proof fn lemma_be_value_of_bytes(x: u32, before: Seq<u8>, after: Seq<u8>)
    ensures
        be_value(before + be_bytes(x) + after, before.len() as int) == x,
{
    let all = before + be_bytes(x) + after;
    let at = before.len() as int;
    assert(all[at] == be_bytes(x)[0]);
    assert(all[at + 1] == be_bytes(x)[1]);
    assert(all[at + 2] == be_bytes(x)[2]);
    assert(all[at + 3] == be_bytes(x)[3]);
}

/// The digits of a number written to the base 256 are its bytes.
proof fn lemma_digits(a: u8, b: u8, c: u8, d: u8)
    by (bit_vector)
    ensures
        ({
            let v = (a as u32) * 0x100_0000 + (b as u32) * 0x1_0000 + (c as u32) * 0x100 + (d as u32);
            &&& v <= 0xffff_ffff
            &&& v / 0x100_0000 == a as u32
            &&& v / 0x1_0000 % 0x100 == b as u32
            &&& v / 0x100 % 0x100 == c as u32
            &&& v % 0x100 == d as u32
        }),
{
}

/// Writing out the number that four bytes spell gives the four bytes.
pub proof fn lemma_be_bytes_of_value(bytes: Seq<u8>, at: int)
    requires
        0 <= at,
        at + 4 <= bytes.len(),
    ensures
        0 <= be_value(bytes, at) <= u32::MAX,
        be_bytes(be_value(bytes, at) as u32) == bytes.subrange(at, at + 4),
{
    lemma_digits(bytes[at], bytes[at + 1], bytes[at + 2], bytes[at + 3]);
    let out = be_bytes(be_value(bytes, at) as u32);
    assert(out[0] == bytes[at]);
    assert(out[1] == bytes[at + 1]);
    assert(out[2] == bytes[at + 2]);
    assert(out[3] == bytes[at + 3]);
    assert(out =~= bytes.subrange(at, at + 4));
}

/// The byte that carries the signed `x` in two's complement.
pub open spec fn byte_of_signed(x: i8) -> u8 {
    if x >= 0 {
        x as u8
    } else {
        (x + 0x100) as u8
    }
}

/// The signed number that the byte `b` carries in two's complement.
pub open spec fn signed_of_byte(b: u8) -> i8 {
    if b < 0x80 {
        b as i8
    } else {
        (b - 0x100) as i8
    }
}

/// The byte that carries the signed `x`.
pub fn signed_to_byte(x: i8) -> (res: u8)
    ensures
        res == byte_of_signed(x),
        signed_of_byte(res) == x,
{
    assert(x as u8 as int == (if x >= 0 {
        x as int
    } else {
        x + 0x100
    })) by (bit_vector);
    x as u8
}

/// The signed number that the byte `b` carries.
pub fn byte_to_signed(b: u8) -> (res: i8)
    ensures
        res == signed_of_byte(b),
        byte_of_signed(res) == b,
{
    assert(b as i8 as int == (if b < 0x80 {
        b as int
    } else {
        b - 0x100
    })) by (bit_vector);
    b as i8
}

/// Appends the four bytes of `x` to `out`, most significant first.
pub fn put_be(out: &mut Vec<u8>, x: u32)
    ensures
        final(out)@ == old(out)@ + be_bytes(x),
{
    out.push((x / 0x100_0000) as u8);
    out.push((x / 0x1_0000 % 0x100) as u8);
    out.push((x / 0x100 % 0x100) as u8);
    out.push((x % 0x100) as u8);
    assert(out@ =~= old(out)@ + be_bytes(x));
}

/// Reads the word that the four bytes from index `at` on spell.
pub fn get_be(bytes: &[u8], at: usize) -> (res: u32)
    requires
        at + 4 <= bytes.len(),
    ensures
        res == be_value(bytes@, at as int),
{
    (bytes[at] as u32) * 0x100_0000 + (bytes[at + 1] as u32) * 0x1_0000 + (bytes[at + 2] as u32)
        * 0x100 + (bytes[at + 3] as u32)
}

} // verus!
