//! Fixed-width integers on top of a byte source.

use crate::endian::{
    signed16, signed32, signed8, u16_from_be_bytes, u16_of, u16_to_i16, u32_from_be_bytes, u32_of,
    u32_to_i32, u8_to_i8,
};
use crate::io::{Error, Read};
use vstd::prelude::*;

verus! {

/// What reading a value of `len` bytes gives: the value made of the first
/// `len` bytes of `pre`, with `post` the bytes after them; or, when fewer are
/// left, [`Error::UnexpectedEof`] with nothing taken.
pub open spec fn read_value<T>(pre: Seq<u8>, post: Seq<u8>, len: nat, value: T, r: Result<T, Error>) -> bool {
    if len <= pre.len() {
        r == Ok::<T, Error>(value) && post == pre.skip(len as int)
    } else {
        r == Err::<T, Error>(Error::UnexpectedEof) && post == pre
    }
}

/// Reads integers from a source, most significant byte first.
pub trait ReadBytesExt: Read {
    /// Reads one byte.
    fn read_u8(&mut self) -> (r: Result<u8, Error>)
        ensures
            read_value(
                old(self).remaining(),
                final(self).remaining(),
                1,
                old(self).remaining()[0],
                r,
            ),
    {
        let buf: Vec<u8> = self.read_exact(1)?;
        Ok(buf[0])
    }

    /// Reads one byte as a number in two's complement.
    fn read_i8(&mut self) -> (r: Result<i8, Error>)
        ensures
            read_value(
                old(self).remaining(),
                final(self).remaining(),
                1,
                signed8(old(self).remaining()[0]),
                r,
            ),
    {
        let buf: Vec<u8> = self.read_exact(1)?;
        Ok(u8_to_i8(buf[0]))
    }

    /// Reads two bytes.
    fn read_u16(&mut self) -> (r: Result<u16, Error>)
        ensures
            read_value(
                old(self).remaining(),
                final(self).remaining(),
                2,
                u16_of(old(self).remaining()[0], old(self).remaining()[1]),
                r,
            ),
    {
        let buf: Vec<u8> = self.read_exact(2)?;
        Ok(u16_from_be_bytes(buf[0], buf[1]))
    }

    /// Reads two bytes as a number in two's complement.
    fn read_i16(&mut self) -> (r: Result<i16, Error>)
        ensures
            read_value(
                old(self).remaining(),
                final(self).remaining(),
                2,
                signed16(u16_of(old(self).remaining()[0], old(self).remaining()[1])),
                r,
            ),
    {
        let buf: Vec<u8> = self.read_exact(2)?;
        Ok(u16_to_i16(u16_from_be_bytes(buf[0], buf[1])))
    }

    /// Reads four bytes.
    fn read_u32(&mut self) -> (r: Result<u32, Error>)
        ensures
            read_value(
                old(self).remaining(),
                final(self).remaining(),
                4,
                u32_of(
                    old(self).remaining()[0],
                    old(self).remaining()[1],
                    old(self).remaining()[2],
                    old(self).remaining()[3],
                ),
                r,
            ),
    {
        let buf: Vec<u8> = self.read_exact(4)?;
        Ok(u32_from_be_bytes(buf[0], buf[1], buf[2], buf[3]))
    }

    /// Reads four bytes as a number in two's complement.
    fn read_i32(&mut self) -> (r: Result<i32, Error>)
        ensures
            read_value(
                old(self).remaining(),
                final(self).remaining(),
                4,
                signed32(
                    u32_of(
                        old(self).remaining()[0],
                        old(self).remaining()[1],
                        old(self).remaining()[2],
                        old(self).remaining()[3],
                    ),
                ),
                r,
            ),
    {
        let buf: Vec<u8> = self.read_exact(4)?;
        Ok(u32_to_i32(u32_from_be_bytes(buf[0], buf[1], buf[2], buf[3])))
    }
}

impl<R: Read> ReadBytesExt for R {

}

} // verus!
