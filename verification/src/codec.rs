//! The laws that connect encoding and decoding.
//!
//! For every type of the format, reading the bytes of a value gives the
//! value back, whatever follows them; and reading a run of bytes that stops
//! short of the value's end fails for want of input.

use crate::de::{eof, parse_n, parse_seq, Decode, Parsed};
use crate::endian::{
    signed_of_unsigned16, signed_of_unsigned32, signed_of_unsigned8, u16_bytes_round_trip,
    u32_bytes_round_trip, unsigned16, unsigned32,
};
use crate::ser::{encodable_all, length_byte, wire_all, wire_seq, Encode};
use vstd::prelude::*;

verus! {

/// What reading the bytes of `v` gives when those bytes are `len` long: `v`
/// and `len`.
pub open spec fn read_back<V>(v: V, len: nat) -> Parsed<V> {
    Ok((v, len))
}

/// A type whose decoder undoes its encoder.
pub trait Codec: Encode + Decode {
    /// Reading the bytes of `v` gives `v` back and takes exactly those
    /// bytes, whatever follows them.
    proof fn round_trip(v: <Self as View>::V, rest: Seq<u8>)
        requires
            Self::encodable(v),
        ensures
            Self::parse(Self::wire(v) + rest) == read_back(v, Self::wire(v).len()),
    ;

    /// Reading the bytes of `v` with the end cut off fails for want of
    /// input.
    proof fn truncated(v: <Self as View>::V, n: int)
        requires
            Self::encodable(v),
            0 <= n < Self::wire(v).len(),
        ensures
            Self::parse(Self::wire(v).take(n)) == eof::<<Self as View>::V>(),
    ;
}

impl Codec for u8 {
    proof fn round_trip(v: u8, rest: Seq<u8>) {
    }

    proof fn truncated(v: u8, n: int) {
    }
}

impl Codec for i8 {
    proof fn round_trip(v: i8, rest: Seq<u8>) {
        signed_of_unsigned8(v);
    }

    proof fn truncated(v: i8, n: int) {
    }
}

impl Codec for u16 {
    proof fn round_trip(v: u16, rest: Seq<u8>) {
        u16_bytes_round_trip(v);
    }

    proof fn truncated(v: u16, n: int) {
    }
}

impl Codec for i16 {
    proof fn round_trip(v: i16, rest: Seq<u8>) {
        signed_of_unsigned16(v);
        u16_bytes_round_trip(unsigned16(v));
    }

    proof fn truncated(v: i16, n: int) {
    }
}

impl Codec for u32 {
    proof fn round_trip(v: u32, rest: Seq<u8>) {
        u32_bytes_round_trip(v);
    }

    proof fn truncated(v: u32, n: int) {
    }
}

impl Codec for i32 {
    proof fn round_trip(v: i32, rest: Seq<u8>) {
        signed_of_unsigned32(v);
        u32_bytes_round_trip(unsigned32(v));
    }

    proof fn truncated(v: i32, n: int) {
    }
}

impl Codec for bool {
    proof fn round_trip(v: bool, rest: Seq<u8>) {
    }

    proof fn truncated(v: bool, n: int) {
    }
}

/// Reading as many values as were written gives them back, whatever follows
/// their bytes.
pub proof fn round_trip_all<T: Codec>(vs: Seq<T::V>, rest: Seq<u8>)
    requires
        encodable_all::<T>(vs),
    ensures
        parse_n::<T>(wire_all::<T>(vs) + rest, vs.len()) == read_back(
            vs,
            wire_all::<T>(vs).len(),
        ),
    decreases vs.len(),
{
    if vs.len() == 0 {
        assert(vs =~= Seq::<T::V>::empty());
    } else {
        let head = T::wire(vs[0]);
        let tail = wire_all::<T>(vs.skip(1));
        T::round_trip(vs[0], tail + rest);
        assert(head + (tail + rest) =~= wire_all::<T>(vs) + rest);
        assert((wire_all::<T>(vs) + rest).skip(head.len() as int) =~= tail + rest);
        assert forall|i: int| 0 <= i < vs.skip(1).len() implies T::encodable(
            #[trigger] vs.skip(1)[i],
        ) by {
            assert(vs.skip(1)[i] == vs[i + 1]);
        }
        round_trip_all::<T>(vs.skip(1), rest);
        assert(seq![vs[0]] + vs.skip(1) =~= vs);
    }
}

/// Reading as many values as were written, from bytes with the end cut off,
/// fails for want of input.
pub proof fn truncated_all<T: Codec>(vs: Seq<T::V>, n: int)
    requires
        encodable_all::<T>(vs),
        0 <= n < wire_all::<T>(vs).len(),
    ensures
        parse_n::<T>(wire_all::<T>(vs).take(n), vs.len()) == eof::<Seq<T::V>>(),
    decreases vs.len(),
{
    if vs.len() == 0 {
    } else {
        let head = T::wire(vs[0]);
        let tail = wire_all::<T>(vs.skip(1));
        let cut = wire_all::<T>(vs).take(n);
        if n < head.len() {
            T::truncated(vs[0], n);
            assert(cut =~= head.take(n));
        } else {
            let short = tail.take(n - head.len());
            T::round_trip(vs[0], short);
            assert(cut =~= head + short);
            assert(cut.skip(head.len() as int) =~= short);
            assert forall|i: int| 0 <= i < vs.skip(1).len() implies T::encodable(
                #[trigger] vs.skip(1)[i],
            ) by {
                assert(vs.skip(1)[i] == vs[i + 1]);
            }
            truncated_all::<T>(vs.skip(1), n - head.len());
        }
    }
}

/// Reading a sequence that was written with its length byte gives it back,
/// whatever follows its bytes.
pub proof fn round_trip_seq<T: Codec>(vs: Seq<T::V>, rest: Seq<u8>)
    requires
        vs.len() <= 255,
        encodable_all::<T>(vs),
    ensures
        parse_seq::<T>(wire_seq::<T>(vs) + rest) == read_back(vs, wire_seq::<T>(vs).len()),
{
    let s = wire_seq::<T>(vs) + rest;
    round_trip_all::<T>(vs, rest);
    assert(s.skip(1) =~= wire_all::<T>(vs) + rest);
    assert(s[0] == length_byte(vs.len()));
    assert(Seq::<T::V>::empty() + vs =~= vs);
}

/// Reading a sequence from bytes with the end cut off fails for want of
/// input.
pub proof fn truncated_seq<T: Codec>(vs: Seq<T::V>, n: int)
    requires
        vs.len() <= 255,
        encodable_all::<T>(vs),
        0 <= n < wire_seq::<T>(vs).len(),
    ensures
        parse_seq::<T>(wire_seq::<T>(vs).take(n)) == eof::<Seq<T::V>>(),
{
    let s = wire_seq::<T>(vs).take(n);
    if n == 0 {
    } else {
        truncated_all::<T>(vs, n - 1);
        assert(s.skip(1) =~= wire_all::<T>(vs).take(n - 1));
        assert(s[0] == length_byte(vs.len()));
    }
}

} // verus!
