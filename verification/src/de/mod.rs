//! Decoding: from bytes to values.
//!
//! A [`Deserializer`] owns a byte source and offers one operation per
//! primitive of the format. A type that implements [`Decode`] says which
//! value a run of bytes stands for ([`Decode::parse`]) and pulls its fields
//! out of a deserializer in that order. Decoding is all or nothing: a failed
//! operation leaves the deserializer where it was.

pub mod read;

use crate::de::read::ReadBytesExt;
use crate::endian::{signed16, signed32, signed8, u16_of, u32_of};
use crate::error::{failed_with, Error, ErrorKind, Primitive, Result};
use crate::io;
use crate::io::Read;
use vstd::prelude::*;
use vstd::slice::{slice_subrange, slice_to_vec};

verus! {

/// A source that reads from a byte slice held in memory.
#[derive(Debug, Clone, Copy)]
pub struct SliceReader<'storage> {
    slice: &'storage [u8],
}

impl<'storage> SliceReader<'storage> {
    /// The bytes not yet read.
    pub closed spec fn rest(&self) -> Seq<u8> {
        self.slice@
    }

    /// A source that holds `bytes`.
    pub fn new(bytes: &'storage [u8]) -> (r: SliceReader<'storage>)
        ensures
            r.rest() == bytes@,
    {
        SliceReader { slice: bytes }
    }

    /// The number of bytes not yet read.
    pub fn len(&self) -> (n: usize)
        ensures
            n == self.rest().len(),
    {
        self.slice.len()
    }
}

impl<'storage> Read for SliceReader<'storage> {
    open spec fn remaining(&self) -> Seq<u8> {
        self.rest()
    }

    fn read_exact(&mut self, len: usize) -> (r: core::result::Result<Vec<u8>, io::Error>) {
        if len > self.slice.len() {
            return Err(io::Error::UnexpectedEof);
        }
        let head: &[u8] = slice_subrange(self.slice, 0, len);
        let out: Vec<u8> = slice_to_vec(head);
        self.slice = slice_subrange(self.slice, len, self.slice.len());
        Ok(out)
    }
}

/// A source that a [`Deserializer`] can read from: it can be copied, so that
/// a decoding step can be tried and given up without a trace.
pub trait EchonetLiteRead: Read + Copy {
    /// Reads `length` bytes into a buffer of their own.
    fn get_byte_buffer(&mut self, length: usize) -> (r: Result<Vec<u8>>)
        ensures
            length <= old(self).remaining().len() ==> (r matches Ok(v) && v@ == old(
                self,
            ).remaining().take(length as int)) && final(self).remaining() == old(
                self,
            ).remaining().skip(length as int),
            length > old(self).remaining().len() ==> failed_with(
                r,
                ErrorKind::Io(io::Error::UnexpectedEof),
            ) && final(self).remaining() == old(self).remaining(),
    {
        match self.read_exact(length) {
            Ok(v) => Ok(v),
            Err(e) => Err(Box::new(ErrorKind::Io(e))),
        }
    }
}

impl<'storage> EchonetLiteRead for SliceReader<'storage> {

}

/// What a run of bytes stands for: a value and the number of bytes it takes,
/// or the reason why it stands for none.
pub type Parsed<V> = core::result::Result<(V, nat), ErrorKind>;

/// The failure of a read that found too few bytes.
pub open spec fn eof<V>() -> Parsed<V> {
    Err(ErrorKind::Io(io::Error::UnexpectedEof))
}

/// One byte.
pub open spec fn parse_u8(s: Seq<u8>) -> Parsed<u8> {
    if s.len() >= 1 {
        Ok((s[0], 1))
    } else {
        eof()
    }
}

/// One byte in two's complement.
pub open spec fn parse_i8(s: Seq<u8>) -> Parsed<i8> {
    if s.len() >= 1 {
        Ok((signed8(s[0]), 1))
    } else {
        eof()
    }
}

/// Two bytes, most significant first.
pub open spec fn parse_u16(s: Seq<u8>) -> Parsed<u16> {
    if s.len() >= 2 {
        Ok((u16_of(s[0], s[1]), 2))
    } else {
        eof()
    }
}

/// Two bytes in two's complement.
pub open spec fn parse_i16(s: Seq<u8>) -> Parsed<i16> {
    if s.len() >= 2 {
        Ok((signed16(u16_of(s[0], s[1])), 2))
    } else {
        eof()
    }
}

/// Four bytes, most significant first.
pub open spec fn parse_u32(s: Seq<u8>) -> Parsed<u32> {
    if s.len() >= 4 {
        Ok((u32_of(s[0], s[1], s[2], s[3]), 4))
    } else {
        eof()
    }
}

/// Four bytes in two's complement.
pub open spec fn parse_i32(s: Seq<u8>) -> Parsed<i32> {
    if s.len() >= 4 {
        Ok((signed32(u32_of(s[0], s[1], s[2], s[3])), 4))
    } else {
        eof()
    }
}

/// One byte, 0 for `false` and 1 for `true`.
pub open spec fn parse_bool(s: Seq<u8>) -> Parsed<bool> {
    if s.len() < 1 {
        eof()
    } else if s[0] == 0 {
        Ok((false, 1))
    } else if s[0] == 1 {
        Ok((true, 1))
    } else {
        Err(ErrorKind::InvalidBoolEncoding(s[0]))
    }
}

/// A byte blob: a length byte, then that many bytes.
pub open spec fn parse_bytes(s: Seq<u8>) -> Parsed<Seq<u8>> {
    if s.len() >= 1 && s.len() >= 1 + s[0] {
        Ok((s.subrange(1, 1 + s[0]), (1 + s[0]) as nat))
    } else {
        eof()
    }
}

/// `parsed`, read after `items` that took `taken` bytes.
pub open spec fn after<V>(items: Seq<V>, taken: nat, parsed: Parsed<Seq<V>>) -> Parsed<Seq<V>> {
    match parsed {
        Ok((more, n)) => Ok((items + more, taken + n)),
        Err(e) => Err(e),
    }
}

/// `n` values of one type, one after the other.
pub open spec fn parse_n<T: Decode>(s: Seq<u8>, n: nat) -> Parsed<Seq<T::V>>
    decreases n,
{
    if n == 0 {
        Ok((Seq::empty(), 0))
    } else {
        match T::parse(s) {
            Ok((v, k)) => after(seq![v], k, parse_n::<T>(s.skip(k as int), (n - 1) as nat)),
            Err(e) => Err(e),
        }
    }
}

/// A sequence: a length byte, then that many values.
pub open spec fn parse_seq<T: Decode>(s: Seq<u8>) -> Parsed<Seq<T::V>> {
    if s.len() >= 1 {
        after(Seq::empty(), 1, parse_n::<T>(s.skip(1), s[0] as nat))
    } else {
        eof()
    }
}

/// The views of the values of `s`, in order.
pub open spec fn views<T: View>(s: Seq<T>) -> Seq<T::V> {
    s.map_values(|t: T| t@)
}

/// What a decoding step that returned `r` did: where `parsed` is a value, `r`
/// holds it and the source moved from `pre` to `post`, past the value's
/// bytes; where it is a failure, `r` is that failure and the source stayed.
pub open spec fn decoded<T: View>(pre: Seq<u8>, post: Seq<u8>, parsed: Parsed<T::V>, r: Result<T>) -> bool {
    match parsed {
        Ok((v, n)) => r matches Ok(x) && x@ == v && n <= pre.len() && post == pre.skip(n as int),
        Err(e) => failed_with(r, e) && post == pre,
    }
}

/// [`decoded`] for a run of values.
pub open spec fn decoded_all<T: View>(
    pre: Seq<u8>,
    post: Seq<u8>,
    parsed: Parsed<Seq<T::V>>,
    r: Result<Vec<T>>,
) -> bool {
    match parsed {
        Ok((vs, n)) => r matches Ok(xs) && views(xs@) == vs && n <= pre.len() && post == pre.skip(
            n as int,
        ),
        Err(e) => failed_with(r, e) && post == pre,
    }
}

/// Reads the primitives of the format from a source.
///
/// A deserializer is a cursor that can be copied: a decoder that reads
/// several fields works on a copy and stores it back once all of them are
/// read.
#[derive(Debug, Copy)]
pub struct Deserializer<R> {
    reader: R,
}

impl<R: Copy> Clone for Deserializer<R> {
    fn clone(&self) -> (r: Deserializer<R>)
        ensures
            r == *self,
    {
        *self
    }
}

impl<R: EchonetLiteRead> Deserializer<R> {
    /// The source that the deserializer reads from.
    pub closed spec fn reader(&self) -> R {
        self.reader
    }

    /// The bytes not yet read.
    pub open spec fn remaining(&self) -> Seq<u8> {
        self.reader().remaining()
    }

    /// A deserializer that reads from `r`.
    pub fn new(r: R) -> (d: Deserializer<R>)
        ensures
            d.reader() == r,
    {
        Deserializer { reader: r }
    }

    /// Gives up the deserializer for its source.
    pub fn into_inner(self) -> (r: R)
        ensures
            r == self.reader(),
    {
        self.reader
    }

    /// A unit value takes no bytes.
    pub fn deserialize_unit(&mut self) -> (r: Result<()>)
        ensures
            r is Ok,
            *final(self) == *old(self),
    {
        Ok(())
    }

    /// One byte.
    pub fn deserialize_u8(&mut self) -> (r: Result<u8>)
        ensures
            decoded::<u8>(
                old(self).remaining(),
                final(self).remaining(),
                parse_u8(old(self).remaining()),
                r,
            ),
            r is Err ==> *final(self) == *old(self),
    {
        let mut reader: R = self.reader;
        match reader.read_u8() {
            Ok(v) => {
                self.reader = reader;
                Ok(v)
            },
            Err(e) => Err(Box::new(ErrorKind::Io(e))),
        }
    }

    /// One byte, in two's complement.
    pub fn deserialize_i8(&mut self) -> (r: Result<i8>)
        ensures
            decoded::<i8>(
                old(self).remaining(),
                final(self).remaining(),
                parse_i8(old(self).remaining()),
                r,
            ),
            r is Err ==> *final(self) == *old(self),
    {
        let mut reader: R = self.reader;
        match reader.read_i8() {
            Ok(v) => {
                self.reader = reader;
                Ok(v)
            },
            Err(e) => Err(Box::new(ErrorKind::Io(e))),
        }
    }

    /// Two bytes, most significant first.
    pub fn deserialize_u16(&mut self) -> (r: Result<u16>)
        ensures
            decoded::<u16>(
                old(self).remaining(),
                final(self).remaining(),
                parse_u16(old(self).remaining()),
                r,
            ),
            r is Err ==> *final(self) == *old(self),
    {
        let mut reader: R = self.reader;
        match reader.read_u16() {
            Ok(v) => {
                self.reader = reader;
                Ok(v)
            },
            Err(e) => Err(Box::new(ErrorKind::Io(e))),
        }
    }

    /// Two bytes, most significant first, in two's complement.
    pub fn deserialize_i16(&mut self) -> (r: Result<i16>)
        ensures
            decoded::<i16>(
                old(self).remaining(),
                final(self).remaining(),
                parse_i16(old(self).remaining()),
                r,
            ),
            r is Err ==> *final(self) == *old(self),
    {
        let mut reader: R = self.reader;
        match reader.read_i16() {
            Ok(v) => {
                self.reader = reader;
                Ok(v)
            },
            Err(e) => Err(Box::new(ErrorKind::Io(e))),
        }
    }

    /// Four bytes, most significant first.
    pub fn deserialize_u32(&mut self) -> (r: Result<u32>)
        ensures
            decoded::<u32>(
                old(self).remaining(),
                final(self).remaining(),
                parse_u32(old(self).remaining()),
                r,
            ),
            r is Err ==> *final(self) == *old(self),
    {
        let mut reader: R = self.reader;
        match reader.read_u32() {
            Ok(v) => {
                self.reader = reader;
                Ok(v)
            },
            Err(e) => Err(Box::new(ErrorKind::Io(e))),
        }
    }

    /// Four bytes, most significant first, in two's complement.
    pub fn deserialize_i32(&mut self) -> (r: Result<i32>)
        ensures
            decoded::<i32>(
                old(self).remaining(),
                final(self).remaining(),
                parse_i32(old(self).remaining()),
                r,
            ),
            r is Err ==> *final(self) == *old(self),
    {
        let mut reader: R = self.reader;
        match reader.read_i32() {
            Ok(v) => {
                self.reader = reader;
                Ok(v)
            },
            Err(e) => Err(Box::new(ErrorKind::Io(e))),
        }
    }

    /// One byte that must be 0 or 1.
    pub fn deserialize_bool(&mut self) -> (r: Result<bool>)
        ensures
            decoded::<bool>(
                old(self).remaining(),
                final(self).remaining(),
                parse_bool(old(self).remaining()),
                r,
            ),
            r is Err ==> *final(self) == *old(self),
    {
        let mut reader: R = self.reader;
        match reader.read_u8() {
            Ok(v) => {
                if v == 0 {
                    self.reader = reader;
                    Ok(false)
                } else if v == 1 {
                    self.reader = reader;
                    Ok(true)
                } else {
                    Err(Box::new(ErrorKind::InvalidBoolEncoding(v)))
                }
            },
            Err(e) => Err(Box::new(ErrorKind::Io(e))),
        }
    }

    /// A byte blob: one length byte, then that many bytes, copied into a
    /// buffer of their own.
    pub fn deserialize_byte_buf(&mut self) -> (r: Result<Vec<u8>>)
        ensures
            decoded::<Vec<u8>>(
                old(self).remaining(),
                final(self).remaining(),
                parse_bytes(old(self).remaining()),
                r,
            ),
            r is Err ==> *final(self) == *old(self),
    {
        let mut reader: R = self.reader;
        let len: u8 = match reader.read_u8() {
            Ok(v) => v,
            Err(e) => {
                return Err(Box::new(ErrorKind::Io(e)));
            },
        };
        let ghost all = self.remaining();
        let buf: Vec<u8> = reader.get_byte_buffer(len as usize)?;
        self.reader = reader;
        proof {
            assert(all.skip(1).take(len as int) =~= all.subrange(1, 1 + len));
            assert(all.skip(1).skip(len as int) =~= all.skip(1 + len));
        }
        Ok(buf)
    }

    /// `len` values of one type, one after the other, with no length byte in
    /// front: the length belongs to the type of what is read.
    pub fn deserialize_tuple<T: Decode>(&mut self, len: usize) -> (r: Result<Vec<T>>)
        ensures
            decoded_all::<T>(
                old(self).remaining(),
                final(self).remaining(),
                parse_n::<T>(old(self).remaining(), len as nat),
                r,
            ),
            r is Err ==> *final(self) == *old(self),
    {
        let ghost start = self.remaining();
        let mut cursor: Deserializer<R> = *self;
        let mut out: Vec<T> = Vec::new();
        let mut left: usize = len;
        let ghost mut taken: nat = 0;
        proof {
            assert(start.skip(0) =~= start);
            assert(views(out@) =~= Seq::<T::V>::empty());
            after_nothing(parse_n::<T>(start, len as nat));
        }
        while left > 0
            invariant
                *self == *old(self),
                start == self.remaining(),
                taken <= start.len(),
                cursor.remaining() == start.skip(taken as int),
                parse_n::<T>(start, len as nat) == after(
                    views(out@),
                    taken,
                    parse_n::<T>(start.skip(taken as int), left as nat),
                ),
            decreases left,
        {
            let ghost before = cursor.remaining();
            let ghost items = views(out@);
            match T::decode(&mut cursor) {
                Ok(v) => {
                    out.push(v);
                    left = left - 1;
                    proof {
                        let k = T::parse(before)->Ok_0.1;
                        assert(before.skip(k as int) =~= start.skip((taken + k) as int));
                        assert(views(out@) =~= items + seq![v@]);
                        after_after(
                            items,
                            taken,
                            seq![v@],
                            k,
                            parse_n::<T>(before.skip(k as int), left as nat),
                        );
                        taken = taken + k;
                    }
                },
                Err(e) => {
                    assert(parse_n::<T>(before, left as nat) is Err);
                    return Err(e);
                },
            }
        }
        proof {
            assert(views(out@) + Seq::<T::V>::empty() =~= views(out@));
        }
        *self = cursor;
        Ok(out)
    }

    /// A sequence: one length byte, then that many values.
    pub fn deserialize_seq<T: Decode>(&mut self) -> (r: Result<Vec<T>>)
        ensures
            decoded_all::<T>(
                old(self).remaining(),
                final(self).remaining(),
                parse_seq::<T>(old(self).remaining()),
                r,
            ),
            r is Err ==> *final(self) == *old(self),
    {
        let ghost start = self.remaining();
        let mut cursor: Deserializer<R> = *self;
        let len: u8 = cursor.deserialize_u8()?;
        let out: Vec<T> = cursor.deserialize_tuple(len as usize)?;
        proof {
            let n = parse_n::<T>(start.skip(1), len as nat)->Ok_0.1;
            assert(start.skip(1).skip(n as int) =~= start.skip((1 + n) as int));
            assert(Seq::<T::V>::empty() + views(out@) =~= views(out@));
        }
        *self = cursor;
        Ok(out)
    }

    /// The format is not self-describing: nothing can be read without
    /// knowing its type.
    pub fn deserialize_any(&mut self) -> (r: Result<()>)
        ensures
            failed_with(r, ErrorKind::DeserializeAnyNotSupported),
            *final(self) == *old(self),
    {
        Err(Box::new(ErrorKind::DeserializeAnyNotSupported))
    }

    /// The format has no 64-bit integers.
    pub fn deserialize_i64(&mut self) -> (r: Result<i64>)
        ensures
            failed_with(r, ErrorKind::NotSupported(Primitive::I64)),
            *final(self) == *old(self),
    {
        Err(Box::new(ErrorKind::NotSupported(Primitive::I64)))
    }

    /// The format has no 64-bit integers.
    pub fn deserialize_u64(&mut self) -> (r: Result<u64>)
        ensures
            failed_with(r, ErrorKind::NotSupported(Primitive::U64)),
            *final(self) == *old(self),
    {
        Err(Box::new(ErrorKind::NotSupported(Primitive::U64)))
    }

    /// The format has no characters.
    pub fn deserialize_char(&mut self) -> (r: Result<char>)
        ensures
            failed_with(r, ErrorKind::NotSupported(Primitive::Char)),
            *final(self) == *old(self),
    {
        Err(Box::new(ErrorKind::NotSupported(Primitive::Char)))
    }

    /// The format has no strings.
    pub fn deserialize_string(&mut self) -> (r: Result<String>)
        ensures
            failed_with(r, ErrorKind::NotSupported(Primitive::Str)),
            *final(self) == *old(self),
    {
        Err(Box::new(ErrorKind::NotSupported(Primitive::Str)))
    }

    /// The format has no optional values.
    pub fn deserialize_option(&mut self) -> (r: Result<()>)
        ensures
            failed_with(r, ErrorKind::NotSupported(Primitive::Optional)),
            *final(self) == *old(self),
    {
        Err(Box::new(ErrorKind::NotSupported(Primitive::Optional)))
    }

    /// The format has no maps.
    pub fn deserialize_map(&mut self) -> (r: Result<()>)
        ensures
            failed_with(r, ErrorKind::NotSupported(Primitive::Mapping)),
            *final(self) == *old(self),
    {
        Err(Box::new(ErrorKind::NotSupported(Primitive::Mapping)))
    }
}

/// A run of `n` single bytes is the first `n` bytes as they are.
pub proof fn parse_n_bytes(s: Seq<u8>, n: nat)
    ensures
        parse_n::<u8>(s, n) == if n <= s.len() {
            Ok::<(Seq<u8>, nat), ErrorKind>((s.take(n as int), n))
        } else {
            eof::<Seq<u8>>()
        },
    decreases n,
{
    if n == 0 {
        assert(s.take(0) =~= Seq::<u8>::empty());
    } else if s.len() >= 1 {
        parse_n_bytes(s.skip(1), (n - 1) as nat);
        if n <= s.len() {
            assert(seq![s[0]] + s.skip(1).take(n - 1) =~= s.take(n as int));
        }
    }
}

/// The views of bytes are the bytes.
pub proof fn views_of_bytes(s: Seq<u8>)
    ensures
        views(s) == s,
{
    assert(views(s) =~= s);
}

/// Reading nothing before `parsed` changes nothing.
pub proof fn after_nothing<V>(parsed: Parsed<Seq<V>>)
    ensures
        after(Seq::empty(), 0, parsed) == parsed,
{
    match parsed {
        Ok((more, n)) => {
            assert(Seq::<V>::empty() + more =~= more);
        },
        Err(e) => {},
    }
}

/// Reading `a`, then `b`, then `parsed` is reading `a + b`, then `parsed`.
pub proof fn after_after<V>(a: Seq<V>, taken_a: nat, b: Seq<V>, taken_b: nat, parsed: Parsed<Seq<V>>)
    ensures
        after(a, taken_a, after(b, taken_b, parsed)) == after(a + b, taken_a + taken_b, parsed),
{
    match parsed {
        Ok((more, n)) => {
            assert(a + (b + more) =~= (a + b) + more);
        },
        Err(e) => {},
    }
}

/// A value that can be read back from the wire format.
pub trait Decode: View + Sized {
    /// The value that the first bytes of `bytes` stand for, and how many
    /// bytes those are.
    spec fn parse(bytes: Seq<u8>) -> Parsed<Self::V>;

    /// Pulls the fields of a value out of `de`, in order. On failure nothing
    /// is taken from `de`.
    fn decode<R: EchonetLiteRead>(de: &mut Deserializer<R>) -> (r: Result<Self>)
        ensures
            decoded::<Self>(
                old(de).remaining(),
                final(de).remaining(),
                Self::parse(old(de).remaining()),
                r,
            ),
            r is Err ==> *final(de) == *old(de),
    ;
}

impl Decode for u8 {
    open spec fn parse(bytes: Seq<u8>) -> Parsed<u8> {
        parse_u8(bytes)
    }

    fn decode<R: EchonetLiteRead>(de: &mut Deserializer<R>) -> (r: Result<u8>) {
        de.deserialize_u8()
    }
}

impl Decode for i8 {
    open spec fn parse(bytes: Seq<u8>) -> Parsed<i8> {
        parse_i8(bytes)
    }

    fn decode<R: EchonetLiteRead>(de: &mut Deserializer<R>) -> (r: Result<i8>) {
        de.deserialize_i8()
    }
}

impl Decode for u16 {
    open spec fn parse(bytes: Seq<u8>) -> Parsed<u16> {
        parse_u16(bytes)
    }

    fn decode<R: EchonetLiteRead>(de: &mut Deserializer<R>) -> (r: Result<u16>) {
        de.deserialize_u16()
    }
}

impl Decode for i16 {
    open spec fn parse(bytes: Seq<u8>) -> Parsed<i16> {
        parse_i16(bytes)
    }

    fn decode<R: EchonetLiteRead>(de: &mut Deserializer<R>) -> (r: Result<i16>) {
        de.deserialize_i16()
    }
}

impl Decode for u32 {
    open spec fn parse(bytes: Seq<u8>) -> Parsed<u32> {
        parse_u32(bytes)
    }

    fn decode<R: EchonetLiteRead>(de: &mut Deserializer<R>) -> (r: Result<u32>) {
        de.deserialize_u32()
    }
}

impl Decode for i32 {
    open spec fn parse(bytes: Seq<u8>) -> Parsed<i32> {
        parse_i32(bytes)
    }

    fn decode<R: EchonetLiteRead>(de: &mut Deserializer<R>) -> (r: Result<i32>) {
        de.deserialize_i32()
    }
}

impl Decode for bool {
    open spec fn parse(bytes: Seq<u8>) -> Parsed<bool> {
        parse_bool(bytes)
    }

    fn decode<R: EchonetLiteRead>(de: &mut Deserializer<R>) -> (r: Result<bool>) {
        de.deserialize_bool()
    }
}

/// Whether `r` is what decoding `parsed` from the start of a buffer gives:
/// the number of bytes taken and the value, or the failure.
pub open spec fn decoded_from<T: View>(parsed: Parsed<T::V>, r: Result<(usize, T)>) -> bool {
    match parsed {
        Ok((v, n)) => r matches Ok(p) && p.0 == n && p.1@ == v,
        Err(e) => failed_with(r, e),
    }
}

/// Reads one value from the start of `bytes` and says how many bytes it
/// took. What follows the value in `bytes` is not looked at.
pub fn deserialize<T: Decode>(bytes: &[u8]) -> (r: Result<(usize, T)>)
    ensures
        decoded_from::<T>(T::parse(bytes@), r),
{
    let mut deserializer = Deserializer::new(SliceReader::new(bytes));
    let value: T = T::decode(&mut deserializer)?;
    let rest: usize = deserializer.into_inner().len();
    Ok((bytes.len() - rest, value))
}

} // verus!
