//! Sizing and writing of variable-length integers.
//!
//! `VarintSize` computes how many bytes an integer takes on the wire;
//! `VarintPut` writes those bytes to a sink. Both walk the zigzag code of the
//! integer seven bits at a time, so that for every integer the size computed
//! is the number of bytes written.

use crate::buf::put_byte;
use crate::buf::remaining;
use crate::varint::encoded_len;
use crate::varint::encoding;
use crate::varint::lemma_varint_len_bound;
use crate::varint::varint_bytes;
use crate::varint::varint_len;
use crate::varint::zigzag;
use bytes::BytesMut;
use vstd::prelude::*;

verus! {

/// Why a write was not made.
#[derive(Debug, Clone, Copy, PartialEq, Eq)]
pub enum PutError {
    /// A length is beyond the signed 64-bit integers that the wire carries.
    TooLong,
    /// The sink has less room than the bytes to write need.
    SinkFull,
}

/// Integers that know how many bytes their wire encoding occupies.
pub trait VarintSize {
    /// The integer that the value stands for on the wire.
    spec fn wire_value(&self) -> int;

    /// The number of bytes that writing the value as a varint produces.
    fn varint_size(&self) -> (size: usize)
        ensures
            size == encoded_len(self.wire_value()),
            size >= 1,
    ;
}

/// Byte sinks that take variable-length integers.
///
/// A sink holds the bytes written to it and has room for a number of further
/// bytes. The `put_` methods need that room and leave it to the caller to know
/// of it; the `try_put_` methods look for themselves, and write all of an
/// encoding or nothing.
pub trait VarintPut {
    /// The bytes that the sink holds, first to last.
    spec fn written(&self) -> Seq<u8>;

    /// The number of bytes that the sink still takes.
    spec fn room(&self) -> nat;

    /// Appends the encoding of `n`.
    fn put_i32_varint(&mut self, n: i32)
        requires
            old(self).room() >= encoded_len(n as int),
        ensures
            final(self).written() == old(self).written() + encoding(n as int),
            final(self).room() == old(self).room() - encoded_len(n as int),
    ;

    /// Appends the encoding of `n`.
    fn put_i64_varint(&mut self, n: i64)
        requires
            old(self).room() >= encoded_len(n as int),
        ensures
            final(self).written() == old(self).written() + encoding(n as int),
            final(self).room() == old(self).room() - encoded_len(n as int),
    ;

    /// Appends the encoding of `n`, taken as the signed 64-bit integer of the
    /// same value.
    fn put_usize_varint(&mut self, n: usize)
        requires
            n <= i64::MAX,
            old(self).room() >= encoded_len(n as int),
        ensures
            final(self).written() == old(self).written() + encoding(n as int),
            final(self).room() == old(self).room() - encoded_len(n as int),
    ;

    /// Appends the encoding of `n` if the sink has room for all of it, and
    /// leaves the sink as it is otherwise.
    fn try_put_i32_varint(&mut self, n: i32) -> (done: Result<(), PutError>)
        ensures
            done is Ok <==> old(self).room() >= encoded_len(n as int),
            done is Ok ==> final(self).written() == old(self).written() + encoding(n as int)
                && final(self).room() == old(self).room() - encoded_len(n as int),
            done is Err ==> done == Err::<(), PutError>(PutError::SinkFull)
                && final(self).written() == old(self).written()
                && final(self).room() == old(self).room(),
    ;

    /// Appends the encoding of `n` if the sink has room for all of it, and
    /// leaves the sink as it is otherwise.
    fn try_put_i64_varint(&mut self, n: i64) -> (done: Result<(), PutError>)
        ensures
            done is Ok <==> old(self).room() >= encoded_len(n as int),
            done is Ok ==> final(self).written() == old(self).written() + encoding(n as int)
                && final(self).room() == old(self).room() - encoded_len(n as int),
            done is Err ==> done == Err::<(), PutError>(PutError::SinkFull)
                && final(self).written() == old(self).written()
                && final(self).room() == old(self).room(),
    ;

    /// Appends the encoding of `n` if `n` is a signed 64-bit integer and the
    /// sink has room for all of the encoding, and leaves the sink as it is
    /// otherwise.
    fn try_put_usize_varint(&mut self, n: usize) -> (done: Result<(), PutError>)
        ensures
            done is Ok <==> n <= i64::MAX && old(self).room() >= encoded_len(n as int),
            done is Ok ==> final(self).written() == old(self).written() + encoding(n as int)
                && final(self).room() == old(self).room() - encoded_len(n as int),
            done == Err::<(), PutError>(PutError::TooLong) <==> n > i64::MAX,
            done is Err ==> final(self).written() == old(self).written()
                && final(self).room() == old(self).room(),
    ;
}

proof fn zigzag_bits_i32(n: i32)
    by (bit_vector)
    ensures
        n >= 0 ==> ((n << 1) ^ (n >> 31)) as u32 == 2 * n,
        n < 0 ==> ((n << 1) ^ (n >> 31)) as u32 == -2 * n - 1,
{
}

proof fn zigzag_bits_i64(n: i64)
    by (bit_vector)
    ensures
        n >= 0 ==> ((n << 1) ^ (n >> 63)) as u64 == 2 * n,
        n < 0 ==> ((n << 1) ^ (n >> 63)) as u64 == -2 * n - 1,
{
}

proof fn group_bits_u32(v: u32)
    by (bit_vector)
    ensures
        ((v & 0xffff_ff80) != 0) == (v >= 128),
        v >> 7 == v / 128,
        (v & 0x7f) | 0x80 == v % 128 + 128,
{
}

proof fn group_bits_u64(v: u64)
    by (bit_vector)
    ensures
        ((v & 0xffff_ffff_ffff_ff80) != 0) == (v >= 128),
        v >> 7 == v / 128,
        (v & 0x7f) | 0x80 == v % 128 + 128,
{
}

proof fn group_bits_u128(v: u128)
    by (bit_vector)
    ensures
        ((v & 0xffff_ffff_ffff_ffff_ffff_ffff_ffff_ff80) != 0) == (v >= 128),
        v >> 7 == v / 128,
{
}

impl VarintSize for i32 {
    open spec fn wire_value(&self) -> int {
        *self as int
    }

    fn varint_size(&self) -> (size: usize) {
        let n: i32 = *self;
        let mut v: u32 = #[verifier::truncate] (((n << 1) ^ (n >> 31)) as u32);
        let mut bytes: usize = 1;
        proof {
            zigzag_bits_i32(n);
            lemma_varint_len_bound(zigzag(n as int));
        }
        while (v & 0xffff_ff80) != 0
            invariant
                bytes + varint_len(v as nat) == 1 + encoded_len(n as int),
                encoded_len(n as int) <= 5,
            decreases v,
        {
            proof {
                group_bits_u32(v);
                lemma_varint_len_bound(v as nat / 128);
            }
            bytes += 1;
            v >>= 7;
        }
        proof {
            group_bits_u32(v);
        }
        bytes
    }
}

impl VarintSize for i64 {
    open spec fn wire_value(&self) -> int {
        *self as int
    }

    fn varint_size(&self) -> (size: usize) {
        let n: i64 = *self;
        let mut v: u64 = #[verifier::truncate] (((n << 1) ^ (n >> 63)) as u64);
        let mut bytes: usize = 1;
        proof {
            zigzag_bits_i64(n);
            lemma_varint_len_bound(zigzag(n as int));
        }
        while (v & 0xffff_ffff_ffff_ff80) != 0
            invariant
                bytes + varint_len(v as nat) == 1 + encoded_len(n as int),
                encoded_len(n as int) <= 10,
            decreases v,
        {
            proof {
                group_bits_u64(v);
                lemma_varint_len_bound(v as nat / 128);
            }
            bytes += 1;
            v >>= 7;
        }
        proof {
            group_bits_u64(v);
        }
        bytes
    }
}

impl VarintSize for usize {
    open spec fn wire_value(&self) -> int {
        *self as int
    }

    fn varint_size(&self) -> (size: usize) {
        let n: usize = *self;
        let mut v: u128 = (n as u128) * 2;
        let mut bytes: usize = 1;
        proof {
            lemma_varint_len_bound(zigzag(n as int));
        }
        while (v & 0xffff_ffff_ffff_ffff_ffff_ffff_ffff_ff80) != 0
            invariant
                bytes + varint_len(v as nat) == 1 + encoded_len(n as int),
                encoded_len(n as int) <= 10,
            decreases v,
        {
            proof {
                group_bits_u128(v);
                lemma_varint_len_bound(v as nat / 128);
            }
            bytes += 1;
            v >>= 7;
        }
        proof {
            group_bits_u128(v);
        }
        bytes
    }
}

impl VarintPut for BytesMut {
    open spec fn written(&self) -> Seq<u8> {
        crate::buf::written(*self)
    }

    open spec fn room(&self) -> nat {
        crate::buf::room(*self)
    }

    fn put_i32_varint(&mut self, n: i32) {
        let mut v: u32 = #[verifier::truncate] (((n << 1) ^ (n >> 31)) as u32);
        proof {
            zigzag_bits_i32(n);
        }
        while (v & 0xffff_ff80) != 0
            invariant
                self.written() + varint_bytes(v as nat) == old(self).written() + encoding(n as int),
                self.room() >= varint_len(v as nat),
                self.room() - varint_len(v as nat) == old(self).room() - encoded_len(n as int),
            decreases v,
        {
            proof {
                group_bits_u32(v);
            }
            let ghost before = self.written();
            let group: u8 = #[verifier::truncate] (((v & 0x7f) | 0x80) as u8);
            put_byte(self, group);
            v >>= 7;
            assert(before.push(group) + varint_bytes(v as nat) =~= before + (seq![group]
                + varint_bytes(v as nat)));
        }
        proof {
            group_bits_u32(v);
        }
        let ghost before = self.written();
        put_byte(self, #[verifier::truncate] (v as u8));
        assert(before.push(v as u8) =~= before + varint_bytes(v as nat));
    }

    fn put_i64_varint(&mut self, n: i64) {
        let mut v: u64 = #[verifier::truncate] (((n << 1) ^ (n >> 63)) as u64);
        proof {
            zigzag_bits_i64(n);
        }
        while (v & 0xffff_ffff_ffff_ff80) != 0
            invariant
                self.written() + varint_bytes(v as nat) == old(self).written() + encoding(n as int),
                self.room() >= varint_len(v as nat),
                self.room() - varint_len(v as nat) == old(self).room() - encoded_len(n as int),
            decreases v,
        {
            proof {
                group_bits_u64(v);
            }
            let ghost before = self.written();
            let group: u8 = #[verifier::truncate] (((v & 0x7f) | 0x80) as u8);
            put_byte(self, group);
            v >>= 7;
            assert(before.push(group) + varint_bytes(v as nat) =~= before + (seq![group]
                + varint_bytes(v as nat)));
        }
        proof {
            group_bits_u64(v);
        }
        let ghost before = self.written();
        put_byte(self, #[verifier::truncate] (v as u8));
        assert(before.push(v as u8) =~= before + varint_bytes(v as nat));
    }

    fn put_usize_varint(&mut self, n: usize) {
        self.put_i64_varint(n as i64)
    }

    fn try_put_i32_varint(&mut self, n: i32) -> (done: Result<(), PutError>) {
        if remaining(self) < n.varint_size() {
            return Err(PutError::SinkFull);
        }
        self.put_i32_varint(n);
        Ok(())
    }

    fn try_put_i64_varint(&mut self, n: i64) -> (done: Result<(), PutError>) {
        if remaining(self) < n.varint_size() {
            return Err(PutError::SinkFull);
        }
        self.put_i64_varint(n);
        Ok(())
    }

    fn try_put_usize_varint(&mut self, n: usize) -> (done: Result<(), PutError>) {
        if n as u64 > i64::MAX as u64 {
            return Err(PutError::TooLong);
        }
        self.try_put_i64_varint(n as i64)
    }
}

} // verus!
