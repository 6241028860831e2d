//! Little-endian encoding of unsigned integers as byte sequences.
use vstd::prelude::*;

verus! {

/// The `n` low-order base-256 digits of `x`, least significant first.
pub open spec fn le_bytes(x: nat, n: nat) -> Seq<u8>
    decreases n,
{
    if n == 0 {
        Seq::empty()
    } else {
        seq![(x % 256) as u8] + le_bytes(x / 256, (n - 1) as nat)
    }
}

/// The number whose base-256 digits, least significant first, are `bytes`.
pub open spec fn le_value(bytes: Seq<u8>) -> nat
    decreases bytes.len(),
{
    if bytes.len() == 0 {
        0
    } else {
        bytes[0] as nat + 256 * le_value(bytes.skip(1))
    }
}

/// 256 raised to the power `n`.
pub open spec fn pow256(n: nat) -> nat
    decreases n,
{
    if n == 0 {
        1
    } else {
        256 * pow256((n - 1) as nat)
    }
}

/// The powers of 256 that bound the 32-bit and the 64-bit integers.
pub proof fn lemma_pow256_values()
    ensures
        pow256(4) == 0x1_0000_0000,
        pow256(8) == 0x1_0000_0000_0000_0000,
{
    reveal_with_fuel(pow256, 9);
}

/// An encoding to `n` bytes has `n` bytes.
pub proof fn lemma_le_bytes_len(x: nat, n: nat)
    ensures
        le_bytes(x, n).len() == n,
    decreases n,
{
    if n > 0 {
        lemma_le_bytes_len(x / 256, (n - 1) as nat);
    }
}

/// A sequence of `n` bytes denotes a number below `256^n`.
pub proof fn lemma_le_value_bound(bytes: Seq<u8>)
    ensures
        le_value(bytes) < pow256(bytes.len()),
    decreases bytes.len(),
{
    if bytes.len() > 0 {
        lemma_le_value_bound(bytes.skip(1));
    }
}

/// Decoding undoes encoding for every number that fits in `n` bytes.
pub proof fn lemma_le_value_of_bytes(x: nat, n: nat)
    requires
        x < pow256(n),
    ensures
        le_value(le_bytes(x, n)) == x,
    decreases n,
{
    if n > 0 {
        let rest = le_bytes(x / 256, (n - 1) as nat);
        assert(le_bytes(x, n).skip(1) =~= rest);
        lemma_le_value_of_bytes(x / 256, (n - 1) as nat);
    }
}

/// Encoding undoes decoding for every byte sequence.
pub proof fn lemma_le_bytes_of_value(bytes: Seq<u8>)
    ensures
        le_bytes(le_value(bytes), bytes.len()) == bytes,
    decreases bytes.len(),
{
    if bytes.len() > 0 {
        lemma_le_bytes_of_value(bytes.skip(1));
    }
}

/// The four-byte encoding written out digit by digit.
proof fn lemma_le_bytes_4(x: nat)
    ensures
        le_bytes(x, 4) == seq![
            (x % 256) as u8,
            (x / 256 % 256) as u8,
            (x / 0x1_0000 % 256) as u8,
            (x / 0x100_0000 % 256) as u8,
        ],
{
    reveal_with_fuel(le_bytes, 5);
    assert(x / 256 / 256 == x / 0x1_0000);
    assert(le_bytes(x, 4) =~= seq![
        (x % 256) as u8,
        (x / 256 % 256) as u8,
        (x / 0x1_0000 % 256) as u8,
        (x / 0x100_0000 % 256) as u8,
    ]);
}

/// The value of four bytes written out as a sum.
proof fn lemma_le_value_4(bytes: Seq<u8>)
    requires
        bytes.len() == 4,
    ensures
        le_value(bytes) == bytes[0] + 256 * bytes[1] + 0x1_0000 * bytes[2] + 0x100_0000 * bytes[3],
{
    let s1 = bytes.skip(1);
    let s2 = s1.skip(1);
    let s3 = s2.skip(1);
    let s4 = s3.skip(1);
    assert(le_value(s3) == s3[0] + 256 * le_value(s4));
    assert(le_value(s1) == s1[0] + 256 * le_value(s2));
}

/// Encodes `x` as four bytes, least significant first.
pub fn u32_to_le(x: u32) -> (bytes: [u8; 4])
    ensures
        bytes@ == le_bytes(x as nat, 4),
{
    let bytes: [u8; 4] = [
        (x % 256) as u8,
        (x / 256 % 256) as u8,
        (x / 0x1_0000 % 256) as u8,
        (x / 0x100_0000 % 256) as u8,
    ];
    proof {
        lemma_le_bytes_4(x as nat);
    }
    bytes
}

/// Decodes four bytes, least significant first.
pub fn u32_from_le(bytes: [u8; 4]) -> (x: u32)
    ensures
        x == le_value(bytes@),
{
    proof {
        lemma_le_value_4(bytes@);
    }
    let b0: u32 = bytes[0] as u32;
    let b1: u32 = bytes[1] as u32;
    let b2: u32 = bytes[2] as u32;
    let b3: u32 = bytes[3] as u32;
    b0 + 256 * b1 + 0x1_0000 * b2 + 0x100_0000 * b3
}

/// The eight-byte encoding written out as two four-byte halves.
proof fn lemma_le_bytes_8(x: nat)
    ensures
        le_bytes(x, 8) == le_bytes(x % 0x1_0000_0000, 4) + le_bytes(x / 0x1_0000_0000, 4),
{
    let low = x % 0x1_0000_0000;
    let high = x / 0x1_0000_0000;
    reveal_with_fuel(le_bytes, 9);
    assert(x / 0x1_0000 / 256 == x / 0x100_0000);
    assert(x / 0x100_0000 / 256 == high);
}

/// The value of eight bytes written out as two four-byte halves.
proof fn lemma_le_value_8(bytes: Seq<u8>)
    requires
        bytes.len() == 8,
    ensures
        le_value(bytes) == le_value(bytes.subrange(0, 4)) + 0x1_0000_0000 * le_value(
            bytes.subrange(4, 8),
        ),
{
    let s1 = bytes.skip(1);
    let s2 = s1.skip(1);
    let s3 = s2.skip(1);
    let s4 = s3.skip(1);
    assert(le_value(s2) == s2[0] + 256 * le_value(s3));
    assert(le_value(s1) == s1[0] + 256 * le_value(s2));
    assert(s4 =~= bytes.subrange(4, 8));
    lemma_le_value_4(bytes.subrange(0, 4));
}

/// Encodes `x` as eight bytes, least significant first.
pub fn u64_to_le(x: u64) -> (bytes: [u8; 8])
    ensures
        bytes@ == le_bytes(x as nat, 8),
{
    let low: u64 = x % 0x1_0000_0000;
    let high: u64 = x / 0x1_0000_0000;
    let bytes: [u8; 8] = [
        (low % 256) as u8,
        (low / 256 % 256) as u8,
        (low / 0x1_0000 % 256) as u8,
        (low / 0x100_0000 % 256) as u8,
        (high % 256) as u8,
        (high / 256 % 256) as u8,
        (high / 0x1_0000 % 256) as u8,
        (high / 0x100_0000 % 256) as u8,
    ];
    proof {
        lemma_le_bytes_8(x as nat);
        lemma_le_bytes_4(low as nat);
        lemma_le_bytes_4(high as nat);
    }
    bytes
}

/// Decodes eight bytes, least significant first.
pub fn u64_from_le(bytes: [u8; 8]) -> (x: u64)
    ensures
        x == le_value(bytes@),
{
    proof {
        lemma_le_value_8(bytes@);
        lemma_le_value_4(bytes@.subrange(0, 4));
        lemma_le_value_4(bytes@.subrange(4, 8));
    }
    let b0: u64 = bytes[0] as u64;
    let b1: u64 = bytes[1] as u64;
    let b2: u64 = bytes[2] as u64;
    let b3: u64 = bytes[3] as u64;
    let b4: u64 = bytes[4] as u64;
    let b5: u64 = bytes[5] as u64;
    let b6: u64 = bytes[6] as u64;
    let b7: u64 = bytes[7] as u64;
    let low: u64 = b0 + 256 * b1 + 0x1_0000 * b2 + 0x100_0000 * b3;
    let high: u64 = b4 + 256 * b5 + 0x1_0000 * b6 + 0x100_0000 * b7;
    low + 0x1_0000_0000 * high
}

} // verus!
