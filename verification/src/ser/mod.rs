//! Encoding: from values to bytes.
//!
//! A [`Serializer`] owns a byte sink and offers one operation per primitive
//! of the format. A type that implements [`Encode`] says which bytes stand
//! for a value ([`Encode::wire`]) and pushes them into a serializer, field
//! by field.

pub mod write;

use crate::endian::{be_u16, be_u32, unsigned16, unsigned32, unsigned8};
use crate::error::{failed_with, Error, ErrorKind, Primitive, Result};
use crate::io;
use crate::de::views;
use crate::io::{Sink, Write};
use crate::ser::write::WriteBytesExt;
use vstd::prelude::*;

verus! {

/// A growable sink: it takes every byte it is given.
#[derive(Debug)]
pub struct Writer(pub Vec<u8>);

impl Write for Writer {
    open spec fn sink(&self) -> Sink {
        Sink { written: self.0@, room: None }
    }

    fn write_all(&mut self, buf: &[u8]) -> (r: core::result::Result<(), io::Error>) {
        self.0.extend_from_slice(buf);
        assert(self.sink().written =~= old(self).sink().offer(buf@).written);
        Ok(())
    }
}

/// What emitting `bytes` does: the sink moves from `pre` to `post`, and `r`
/// is `Ok` when all of `bytes` fitted, the sink's failure when not.
pub open spec fn emitted(pre: Sink, post: Sink, bytes: Seq<u8>, r: Result<()>) -> bool {
    &&& post == pre.offer(bytes)
    &&& pre.fits(bytes.len()) ==> r is Ok
    &&& !pre.fits(bytes.len()) ==> failed_with(r, ErrorKind::Io(io::Error::WriteZero))
}

/// Emitting `a` with success and then `b` is emitting `a + b`.
pub proof fn emitted_then(pre: Sink, mid: Sink, post: Sink, a: Seq<u8>, b: Seq<u8>, r: Result<()>)
    requires
        emitted(pre, mid, a, Ok(())),
        emitted(mid, post, b, r),
    ensures
        emitted(pre, post, a + b, r),
{
    pre.offer_twice(a, b);
}

/// Once emitting `a` has failed, nothing that would follow matters: the
/// outcome is that of emitting `a + b`.
pub proof fn emitted_stop(pre: Sink, post: Sink, a: Seq<u8>, b: Seq<u8>, r: Result<()>)
    requires
        emitted(pre, post, a, r),
        r is Err,
    ensures
        emitted(pre, post, a + b, r),
{
    pre.offer_twice(a, b);
}

/// The length byte that precedes `len` items: the low eight bits of `len`.
pub open spec fn length_byte(len: nat) -> u8 {
    (len % 256) as u8
}

/// A byte blob on the wire: its length byte, then its bytes.
pub open spec fn wire_bytes(v: Seq<u8>) -> Seq<u8> {
    seq![length_byte(v.len())] + v
}

/// The bytes of the values of `vs`, one value after the other.
pub open spec fn wire_all<T: Encode>(vs: Seq<T::V>) -> Seq<u8>
    decreases vs.len(),
{
    if vs.len() == 0 {
        Seq::empty()
    } else {
        T::wire(vs[0]) + wire_all::<T>(vs.skip(1))
    }
}

/// A sequence on the wire: its length byte, then its values.
pub open spec fn wire_seq<T: Encode>(vs: Seq<T::V>) -> Seq<u8> {
    seq![length_byte(vs.len())] + wire_all::<T>(vs)
}

/// Whether every value of `vs` can be held without loss.
pub open spec fn encodable_all<T: Encode>(vs: Seq<T::V>) -> bool {
    forall|i: int| 0 <= i < vs.len() ==> T::encodable(#[trigger] vs[i])
}

/// The bytes of a run of values are those of its first `n` values, then
/// those of the others.
pub proof fn wire_all_split<T: Encode>(vs: Seq<T::V>, n: int)
    requires
        0 <= n <= vs.len(),
    ensures
        wire_all::<T>(vs) == wire_all::<T>(vs.take(n)) + wire_all::<T>(vs.skip(n)),
    decreases n,
{
    if n == 0 {
        assert(vs.skip(0) =~= vs);
        assert(vs.take(0) =~= Seq::<T::V>::empty());
        assert(wire_all::<T>(vs) =~= Seq::<u8>::empty() + wire_all::<T>(vs));
    } else {
        wire_all_split::<T>(vs.skip(1), n - 1);
        assert(vs.skip(1).take(n - 1) =~= vs.take(n).skip(1));
        assert(vs.skip(1).skip(n - 1) =~= vs.skip(n));
        assert(vs.take(n)[0] == vs[0]);
        assert(wire_all::<T>(vs) =~= wire_all::<T>(vs.take(n)) + wire_all::<T>(vs.skip(n)));
    }
}

/// The bytes of a run of values that ends in `v` end in the bytes of `v`.
pub proof fn wire_all_push<T: Encode>(vs: Seq<T::V>, v: T::V)
    ensures
        wire_all::<T>(vs.push(v)) == wire_all::<T>(vs) + T::wire(v),
{
    let all = vs.push(v);
    wire_all_split::<T>(all, vs.len() as int);
    assert(all.take(vs.len() as int) =~= vs);
    assert(all.skip(vs.len() as int) =~= seq![v]);
    assert(seq![v].skip(1) =~= Seq::<T::V>::empty());
    assert(wire_all::<T>(seq![v]) =~= T::wire(v)) by {
        assert(wire_all::<T>(seq![v]) == T::wire(seq![v][0]) + wire_all::<T>(seq![v].skip(1)));
    }
}

/// The bytes of a run of single bytes are the bytes as they are.
pub proof fn wire_all_bytes(bytes: Seq<u8>)
    ensures
        wire_all::<u8>(bytes) == bytes,
    decreases bytes.len(),
{
    if bytes.len() == 0 {
        assert(bytes =~= Seq::<u8>::empty());
    } else {
        wire_all_bytes(bytes.skip(1));
        assert(seq![bytes[0]] + bytes.skip(1) =~= bytes);
    }
}

/// Writes the primitives of the format to a sink.
pub struct Serializer<W> {
    writer: W,
}

impl<W: Write> Serializer<W> {
    /// The sink that the serializer writes to.
    pub closed spec fn writer(&self) -> W {
        self.writer
    }

    /// What the sink holds and how much room it has left.
    pub open spec fn sink(&self) -> Sink {
        self.writer().sink()
    }

    /// A serializer that writes to `writer`.
    pub fn new(writer: W) -> (r: Serializer<W>)
        ensures
            r.writer() == writer,
    {
        Serializer { writer }
    }

    /// Gives up the serializer for its sink.
    pub fn into_inner(self) -> (w: W)
        ensures
            w == self.writer(),
    {
        self.writer
    }

    /// A unit value takes no bytes.
    pub fn serialize_unit(&mut self) -> (r: Result<()>)
        ensures
            r is Ok,
            *final(self) == *old(self),
    {
        Ok(())
    }

    /// One byte: 1 for `true`, 0 for `false`.
    pub fn serialize_bool(&mut self, v: bool) -> (r: Result<()>)
        ensures
            emitted(old(self).sink(), final(self).sink(), seq![if v { 1u8 } else { 0u8 }], r),
    {
        let byte: u8 = if v { 1 } else { 0 };
        self.serialize_u8(byte)
    }

    /// One byte.
    pub fn serialize_u8(&mut self, v: u8) -> (r: Result<()>)
        ensures
            emitted(old(self).sink(), final(self).sink(), seq![v], r),
    {
        match self.writer.write_u8(v) {
            Ok(()) => Ok(()),
            Err(e) => Err(Box::new(ErrorKind::Io(e))),
        }
    }

    /// One byte, in two's complement.
    pub fn serialize_i8(&mut self, v: i8) -> (r: Result<()>)
        ensures
            emitted(old(self).sink(), final(self).sink(), seq![unsigned8(v)], r),
    {
        match self.writer.write_i8(v) {
            Ok(()) => Ok(()),
            Err(e) => Err(Box::new(ErrorKind::Io(e))),
        }
    }

    /// Two bytes, most significant first.
    pub fn serialize_u16(&mut self, v: u16) -> (r: Result<()>)
        ensures
            emitted(old(self).sink(), final(self).sink(), be_u16(v), r),
    {
        match self.writer.write_u16(v) {
            Ok(()) => Ok(()),
            Err(e) => Err(Box::new(ErrorKind::Io(e))),
        }
    }

    /// Two bytes, most significant first, in two's complement.
    pub fn serialize_i16(&mut self, v: i16) -> (r: Result<()>)
        ensures
            emitted(old(self).sink(), final(self).sink(), be_u16(unsigned16(v)), r),
    {
        match self.writer.write_i16(v) {
            Ok(()) => Ok(()),
            Err(e) => Err(Box::new(ErrorKind::Io(e))),
        }
    }

    /// Four bytes, most significant first.
    pub fn serialize_u32(&mut self, v: u32) -> (r: Result<()>)
        ensures
            emitted(old(self).sink(), final(self).sink(), be_u32(v), r),
    {
        match self.writer.write_u32(v) {
            Ok(()) => Ok(()),
            Err(e) => Err(Box::new(ErrorKind::Io(e))),
        }
    }

    /// Four bytes, most significant first, in two's complement.
    pub fn serialize_i32(&mut self, v: i32) -> (r: Result<()>)
        ensures
            emitted(old(self).sink(), final(self).sink(), be_u32(unsigned32(v)), r),
    {
        match self.writer.write_i32(v) {
            Ok(()) => Ok(()),
            Err(e) => Err(Box::new(ErrorKind::Io(e))),
        }
    }

    /// A byte blob: one length byte, then the bytes. The length byte holds
    /// the low eight bits of the length, so only a blob of at most 255 bytes
    /// can be read back.
    pub fn serialize_bytes(&mut self, v: &[u8]) -> (r: Result<()>)
        ensures
            emitted(old(self).sink(), final(self).sink(), wire_bytes(v@), r),
    {
        let ghost pre = self.sink();
        let len: u8 = (v.len() % 256) as u8;
        match self.serialize_u8(len) {
            Ok(()) => {},
            Err(e) => {
                proof {
                    emitted_stop(pre, self.sink(), seq![len], v@, Err(e));
                }
                return Err(e);
            },
        }
        let ghost mid = self.sink();
        let r = match self.writer.write_all(v) {
            Ok(()) => Ok(()),
            Err(e) => Err(Box::new(ErrorKind::Io(e))),
        };
        proof {
            emitted_then(pre, mid, self.sink(), seq![len], v@, r);
        }
        r
    }

    /// Opens a sequence of `len` items by writing its length byte. The count
    /// comes before the items on the wire, so a sequence whose length is not
    /// known yet (`None`) is refused before anything is written.
    pub fn serialize_seq(&mut self, len: Option<usize>) -> (r: Result<()>)
        ensures
            len matches Some(n) ==> emitted(
                old(self).sink(),
                final(self).sink(),
                seq![length_byte(n as nat)],
                r,
            ),
            len is None ==> failed_with(r, ErrorKind::SequenceMustHaveLength) && *final(self)
                == *old(self),
    {
        match len {
            Some(n) => self.serialize_u8((n % 256) as u8),
            None => Err(Box::new(ErrorKind::SequenceMustHaveLength)),
        }
    }

    /// Pushes one item of a sequence, one field of a record: its bytes
    /// follow what was written before, with nothing in between.
    pub fn serialize_element<T: Encode>(&mut self, value: &T) -> (r: Result<()>)
        ensures
            emitted(old(self).sink(), final(self).sink(), T::wire(value@), r),
    {
        value.encode(self)
    }

    /// Pushes the items of a sequence of fixed length, in order. No length
    /// byte is written: the length belongs to the type of what is written.
    pub fn serialize_tuple<T: Encode>(&mut self, items: &[T]) -> (r: Result<()>)
        ensures
            emitted(old(self).sink(), final(self).sink(), wire_all::<T>(views(items@)), r),
    {
        let ghost pre = self.sink();
        let ghost all = views(items@);
        let mut i: usize = 0;
        proof {
            assert(all.take(0) =~= Seq::<T::V>::empty());
            assert(pre.written + Seq::<u8>::empty() =~= pre.written);
        }
        while i < items.len()
            invariant
                i <= items.len(),
                pre == old(self).sink(),
                all == views(items@),
                emitted(pre, self.sink(), wire_all::<T>(all.take(i as int)), Ok(())),
            decreases items.len() - i,
        {
            let ghost done = wire_all::<T>(all.take(i as int));
            let ghost mid = self.sink();
            let r = items[i].encode(self);
            proof {
                wire_all_push::<T>(all.take(i as int), all[i as int]);
                assert(all.take(i as int).push(all[i as int]) =~= all.take(i + 1));
                emitted_then(pre, mid, self.sink(), done, T::wire(all[i as int]), r);
            }
            if r.is_err() {
                proof {
                    wire_all_split::<T>(all, i + 1);
                    emitted_stop(
                        pre,
                        self.sink(),
                        wire_all::<T>(all.take(i + 1)),
                        wire_all::<T>(all.skip(i + 1)),
                        r,
                    );
                }
                return r;
            }
            i = i + 1;
        }
        proof {
            assert(all.take(i as int) =~= all);
        }
        Ok(())
    }

    /// The format has no 64-bit integers.
    pub fn serialize_i64(&mut self, v: i64) -> (r: Result<()>)
        ensures
            failed_with(r, ErrorKind::NotSupported(Primitive::I64)),
            *final(self) == *old(self),
    {
        Err(Box::new(ErrorKind::NotSupported(Primitive::I64)))
    }

    /// The format has no 64-bit integers.
    pub fn serialize_u64(&mut self, v: u64) -> (r: Result<()>)
        ensures
            failed_with(r, ErrorKind::NotSupported(Primitive::U64)),
            *final(self) == *old(self),
    {
        Err(Box::new(ErrorKind::NotSupported(Primitive::U64)))
    }

    /// The format has no characters.
    pub fn serialize_char(&mut self, v: char) -> (r: Result<()>)
        ensures
            failed_with(r, ErrorKind::NotSupported(Primitive::Char)),
            *final(self) == *old(self),
    {
        Err(Box::new(ErrorKind::NotSupported(Primitive::Char)))
    }

    /// The format has no strings.
    pub fn serialize_str(&mut self, v: &str) -> (r: Result<()>)
        ensures
            failed_with(r, ErrorKind::NotSupported(Primitive::Str)),
            *final(self) == *old(self),
    {
        Err(Box::new(ErrorKind::NotSupported(Primitive::Str)))
    }

    /// The format has no optional values.
    pub fn serialize_none(&mut self) -> (r: Result<()>)
        ensures
            failed_with(r, ErrorKind::NotSupported(Primitive::Optional)),
            *final(self) == *old(self),
    {
        Err(Box::new(ErrorKind::NotSupported(Primitive::Optional)))
    }

    /// The format has no maps.
    pub fn serialize_map(&mut self, len: Option<usize>) -> (r: Result<()>)
        ensures
            failed_with(r, ErrorKind::NotSupported(Primitive::Mapping)),
            *final(self) == *old(self),
    {
        Err(Box::new(ErrorKind::NotSupported(Primitive::Mapping)))
    }
}

/// A value with a place in the wire format.
pub trait Encode: View {
    /// Whether the format can hold `v` without loss: every length in it fits
    /// its length byte.
    spec fn encodable(v: Self::V) -> bool;

    /// The bytes that stand for `v`.
    spec fn wire(v: Self::V) -> Seq<u8>;

    /// Pushes the bytes of the value into `ser`, in field order. When the
    /// sink cannot hold them all it keeps the prefix that fits, and the
    /// sink's failure is returned.
    fn encode<W: Write>(&self, ser: &mut Serializer<W>) -> (r: Result<()>)
        ensures
            emitted(old(ser).sink(), final(ser).sink(), Self::wire(self@), r),
    ;
}

impl Encode for u8 {
    open spec fn encodable(v: u8) -> bool {
        true
    }

    open spec fn wire(v: u8) -> Seq<u8> {
        seq![v]
    }

    fn encode<W: Write>(&self, ser: &mut Serializer<W>) -> (r: Result<()>) {
        ser.serialize_u8(*self)
    }
}

impl Encode for i8 {
    open spec fn encodable(v: i8) -> bool {
        true
    }

    open spec fn wire(v: i8) -> Seq<u8> {
        seq![unsigned8(v)]
    }

    fn encode<W: Write>(&self, ser: &mut Serializer<W>) -> (r: Result<()>) {
        ser.serialize_i8(*self)
    }
}

impl Encode for u16 {
    open spec fn encodable(v: u16) -> bool {
        true
    }

    open spec fn wire(v: u16) -> Seq<u8> {
        be_u16(v)
    }

    fn encode<W: Write>(&self, ser: &mut Serializer<W>) -> (r: Result<()>) {
        ser.serialize_u16(*self)
    }
}

impl Encode for i16 {
    open spec fn encodable(v: i16) -> bool {
        true
    }

    open spec fn wire(v: i16) -> Seq<u8> {
        be_u16(unsigned16(v))
    }

    fn encode<W: Write>(&self, ser: &mut Serializer<W>) -> (r: Result<()>) {
        ser.serialize_i16(*self)
    }
}

impl Encode for u32 {
    open spec fn encodable(v: u32) -> bool {
        true
    }

    open spec fn wire(v: u32) -> Seq<u8> {
        be_u32(v)
    }

    fn encode<W: Write>(&self, ser: &mut Serializer<W>) -> (r: Result<()>) {
        ser.serialize_u32(*self)
    }
}

impl Encode for i32 {
    open spec fn encodable(v: i32) -> bool {
        true
    }

    open spec fn wire(v: i32) -> Seq<u8> {
        be_u32(unsigned32(v))
    }

    fn encode<W: Write>(&self, ser: &mut Serializer<W>) -> (r: Result<()>) {
        ser.serialize_i32(*self)
    }
}

impl Encode for bool {
    open spec fn encodable(v: bool) -> bool {
        true
    }

    open spec fn wire(v: bool) -> Seq<u8> {
        seq![if v { 1u8 } else { 0u8 }]
    }

    fn encode<W: Write>(&self, ser: &mut Serializer<W>) -> (r: Result<()>) {
        ser.serialize_bool(*self)
    }
}

/// The bytes of `value`, in a buffer of their own.
pub fn serialize<T: Encode>(value: &T) -> (r: Result<Vec<u8>>)
    ensures
        r matches Ok(bytes) && bytes@ == T::wire(value@),
{
    let mut serializer = Serializer::new(Writer(Vec::new()));
    let r = value.encode(&mut serializer);
    let writer = serializer.into_inner();
    proof {
        assert(Seq::<u8>::empty() + T::wire(value@) =~= T::wire(value@));
    }
    match r {
        Ok(()) => Ok(writer.0),
        Err(e) => Err(e),
    }
}

} // verus!
