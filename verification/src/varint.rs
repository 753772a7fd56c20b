//! The mathematical model of the variable-length integer encoding.
//!
//! A signed integer is first mapped to its zigzag code, a natural number that is
//! small whenever the integer's magnitude is small. The code is then cut into
//! groups of seven bits, least significant group first. Each group becomes one
//! byte; every byte but the last has its high bit set.

use vstd::prelude::*;

verus! {

/// The zigzag code of `n`: 0, -1, 1, -2, 2, ... become 0, 1, 2, 3, 4, ...
pub open spec fn zigzag(n: int) -> nat {
    if n >= 0 {
        (2 * n) as nat
    } else {
        (-2 * n - 1) as nat
    }
}

/// The integer whose zigzag code is `code`.
pub open spec fn unzigzag(code: nat) -> int {
    if code % 2 == 0 {
        code as int / 2
    } else {
        -(code as int / 2) - 1
    }
}

/// The bytes of `code` in base 128, least significant group first, with the
/// high bit set on every byte that is followed by another.
pub open spec fn varint_bytes(code: nat) -> Seq<u8>
    decreases code,
{
    if code < 128 {
        seq![code as u8]
    } else {
        seq![(code % 128 + 128) as u8] + varint_bytes(code / 128)
    }
}

/// The number of base-128 groups of `code`.
pub open spec fn varint_len(code: nat) -> nat
    decreases code,
{
    if code < 128 {
        1
    } else {
        1 + varint_len(code / 128)
    }
}

/// The wire encoding of the signed integer `n`.
pub open spec fn encoding(n: int) -> Seq<u8> {
    varint_bytes(zigzag(n))
}

/// The number of bytes that the wire encoding of `n` occupies.
pub open spec fn encoded_len(n: int) -> nat {
    varint_len(zigzag(n))
}

/// The length of the varint that `bytes` starts with: the bytes up to and
/// including the first one whose high bit is clear.
pub open spec fn leading_varint_len(bytes: Seq<u8>) -> nat
    decreases bytes.len(),
{
    if bytes.len() == 0 {
        0
    } else if bytes[0] < 128 {
        1
    } else {
        1 + leading_varint_len(bytes.skip(1))
    }
}

/// The code held by the varint that `bytes` starts with.
pub open spec fn leading_varint_code(bytes: Seq<u8>) -> nat
    decreases bytes.len(),
{
    if bytes.len() == 0 {
        0
    } else if bytes[0] < 128 {
        bytes[0] as nat
    } else {
        (bytes[0] - 128) as nat + 128 * leading_varint_code(bytes.skip(1))
    }
}

/// The signed integer held by the varint that `bytes` starts with.
pub open spec fn leading_varint(bytes: Seq<u8>) -> int {
    unzigzag(leading_varint_code(bytes))
}

/// Every encoding is exactly as long as its computed size: the bytes that
/// encode `n` number `encoded_len(n)`.
pub proof fn encoding_len_is_encoded_len(n: int)
    ensures
        encoding(n).len() == encoded_len(n),
{
    lemma_varint_bytes_len(zigzag(n));
}

/// No encoding is empty: every integer, 0 and -1 included, takes at least one
/// byte.
pub proof fn encoded_len_is_positive(n: int)
    ensures
        encoded_len(n) >= 1,
{
}

/// A 32-bit integer takes at most five bytes, a 64-bit integer at most ten.
pub proof fn encoded_len_is_bounded(n: int)
    ensures
        i32::MIN <= n <= i32::MAX ==> encoded_len(n) <= 5,
        i64::MIN <= n <= i64::MAX ==> encoded_len(n) <= 10,
{
    lemma_varint_len_bound(zigzag(n));
}

/// Zigzag coding loses nothing: decoding the code of `n` gives `n` back.
pub proof fn unzigzag_inverts_zigzag(n: int)
    ensures
        unzigzag(zigzag(n)) == n,
{
}

/// An encoding can be read back from the front of any byte sequence that
/// starts with it: the leading varint of `encoding(n) + rest` spans exactly the
/// bytes of the encoding and holds `n`.
pub proof fn leading_varint_reads_encoding(n: int, rest: Seq<u8>)
    ensures
        leading_varint_len(encoding(n) + rest) == encoded_len(n),
        leading_varint(encoding(n) + rest) == n,
{
    lemma_leading_varint(zigzag(n), rest);
}

/// The bytes of a code are as many as its base-128 groups.
pub proof fn lemma_varint_bytes_len(code: nat)
    ensures
        varint_bytes(code).len() == varint_len(code),
    decreases code,
{
    if code >= 128 {
        lemma_varint_bytes_len(code / 128);
    }
}

/// A code has at least one group; one of 32 bits has at most five, and one of
/// up to 65 bits, as the double of a `usize` may be, at most ten.
pub proof fn lemma_varint_len_bound(code: nat)
    ensures
        1 <= varint_len(code),
        code < 0x1_0000_0000 ==> varint_len(code) <= 5,
        code < 0x2_0000_0000_0000_0000 ==> varint_len(code) <= 10,
{
    reveal_with_fuel(varint_len, 11);
}

/// The bytes of a code, followed by anything, start with a varint that spans
/// exactly those bytes and holds the code.
pub proof fn lemma_leading_varint(code: nat, rest: Seq<u8>)
    ensures
        leading_varint_len(varint_bytes(code) + rest) == varint_len(code),
        leading_varint_code(varint_bytes(code) + rest) == code,
    decreases code,
{
    let all = varint_bytes(code) + rest;
    if code < 128 {
        assert(all[0] == code as u8);
    } else {
        let tail = varint_bytes(code / 128) + rest;
        assert(all[0] == (code % 128 + 128) as u8);
        assert(all.skip(1) =~= tail);
        lemma_leading_varint(code / 128, rest);
    }
}

} // verus!
