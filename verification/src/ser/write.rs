//! Fixed-width integers on top of a byte sink.

use crate::endian::{
    be_u16, be_u32, i16_to_u16, i32_to_u32, i8_to_u8, u16_to_be_bytes, u32_to_be_bytes, unsigned16,
    unsigned32, unsigned8,
};
use crate::io::{Error, Write};
use vstd::prelude::*;

verus! {

/// Writes integers to a sink, most significant byte first.
pub trait WriteBytesExt: Write {
    /// Writes one byte.
    fn write_u8(&mut self, n: u8) -> (r: Result<(), Error>)
        ensures
            final(self).sink() == old(self).sink().offer(seq![n]),
            r == old(self).sink().outcome(1),
    {
        let buf: [u8; 1] = [n];
        assert(buf@ =~= seq![n]);
        self.write_all(buf.as_slice())
    }

    /// Writes one byte, the two's complement of `n`.
    fn write_i8(&mut self, n: i8) -> (r: Result<(), Error>)
        ensures
            final(self).sink() == old(self).sink().offer(seq![unsigned8(n)]),
            r == old(self).sink().outcome(1),
    {
        let buf: [u8; 1] = [i8_to_u8(n)];
        assert(buf@ =~= seq![unsigned8(n)]);
        self.write_all(buf.as_slice())
    }

    /// Writes two bytes.
    fn write_u16(&mut self, n: u16) -> (r: Result<(), Error>)
        ensures
            final(self).sink() == old(self).sink().offer(be_u16(n)),
            r == old(self).sink().outcome(2),
    {
        let buf: [u8; 2] = u16_to_be_bytes(n);
        self.write_all(buf.as_slice())
    }

    /// Writes two bytes, the two's complement of `n`.
    fn write_i16(&mut self, n: i16) -> (r: Result<(), Error>)
        ensures
            final(self).sink() == old(self).sink().offer(be_u16(unsigned16(n))),
            r == old(self).sink().outcome(2),
    {
        let buf: [u8; 2] = u16_to_be_bytes(i16_to_u16(n));
        self.write_all(buf.as_slice())
    }

    /// Writes four bytes.
    fn write_u32(&mut self, n: u32) -> (r: Result<(), Error>)
        ensures
            final(self).sink() == old(self).sink().offer(be_u32(n)),
            r == old(self).sink().outcome(4),
    {
        let buf: [u8; 4] = u32_to_be_bytes(n);
        self.write_all(buf.as_slice())
    }

    /// Writes four bytes, the two's complement of `n`.
    fn write_i32(&mut self, n: i32) -> (r: Result<(), Error>)
        ensures
            final(self).sink() == old(self).sink().offer(be_u32(unsigned32(n))),
            r == old(self).sink().outcome(4),
    {
        let buf: [u8; 4] = u32_to_be_bytes(i32_to_u32(n));
        self.write_all(buf.as_slice())
    }
}

impl<W: Write> WriteBytesExt for W {

}

} // verus!
