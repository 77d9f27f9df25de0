//! Byte sources and sinks.
//!
//! A sink accepts bytes until its room is used up; a source hands out the
//! bytes it still holds. Both are described by ghost state, so callers can
//! say exactly which bytes moved.

use vstd::prelude::*;

verus! {

/// Why a source or a sink could not complete an operation.
#[derive(Debug, Clone, Copy, PartialEq, Eq, Structural)]
pub enum Error {
    /// The source ended before the requested bytes could be read.
    UnexpectedEof,
    /// The sink is full: not all bytes could be written.
    WriteZero,
}

/// What a sink has taken so far and what it can still take.
pub struct Sink {
    /// Every byte the sink has accepted, oldest first.
    pub written: Seq<u8>,
    /// How many more bytes the sink accepts; `None` when it has no bound.
    pub room: Option<nat>,
}

impl Sink {
    /// Whether the sink can take `len` more bytes.
    pub open spec fn fits(self, len: nat) -> bool {
        match self.room {
            Some(m) => len <= m,
            None => true,
        }
    }

    /// The sink after it was offered `bytes`: it holds all of them, or the
    /// longest prefix that still fitted.
    pub open spec fn offer(self, bytes: Seq<u8>) -> Sink {
        match self.room {
            Some(m) => if bytes.len() <= m {
                Sink { written: self.written + bytes, room: Some((m - bytes.len()) as nat) }
            } else {
                Sink { written: self.written + bytes.take(m as int), room: Some(0) }
            },
            None => Sink { written: self.written + bytes, room: None },
        }
    }

    /// What a write of `len` bytes to the sink returns.
    pub open spec fn outcome(self, len: nat) -> Result<(), Error> {
        if self.fits(len) {
            Ok(())
        } else {
            Err(Error::WriteZero)
        }
    }

    /// Offering two runs of bytes one after the other is offering their
    /// concatenation.
    pub proof fn offer_twice(self, a: Seq<u8>, b: Seq<u8>)
        ensures
            self.offer(a).offer(b) == self.offer(a + b),
            !self.fits(a.len()) ==> self.offer(a) == self.offer(a + b),
            self.fits((a + b).len()) <==> self.fits(a.len()) && self.offer(a).fits(b.len()),
    {
        match self.room {
            Some(m) => {
                if a.len() <= m {
                    if b.len() <= m - a.len() {
                        assert(self.written + a + b =~= self.written + (a + b));
                    } else {
                        assert(self.written + a + b.take(m - a.len()) =~= self.written + (a
                            + b).take(m as int));
                    }
                } else {
                    assert(self.written + a.take(m as int) + b.take(0) =~= self.written + (a
                        + b).take(m as int));
                    assert(self.written + a.take(m as int) =~= self.written + (a + b).take(
                        m as int,
                    ));
                }
            },
            None => {
                assert(self.written + a + b =~= self.written + (a + b));
            },
        }
    }
}

/// A byte sink.
pub trait Write: Sized {
    /// What the sink holds and how much room it has left.
    spec fn sink(&self) -> Sink;

    /// Appends `buf`. A sink that cannot hold all of `buf` keeps the prefix
    /// that fits and reports [`Error::WriteZero`].
    fn write_all(&mut self, buf: &[u8]) -> (r: Result<(), Error>)
        ensures
            final(self).sink() == old(self).sink().offer(buf@),
            r == old(self).sink().outcome(buf@.len()),
    ;
}

/// A sink of fixed size: it takes bytes until `capacity` of them are held.
#[derive(Debug)]
pub struct FixedBuffer {
    bytes: Vec<u8>,
    capacity: usize,
}

impl FixedBuffer {
    /// The bytes held so far.
    pub closed spec fn contents(&self) -> Seq<u8> {
        self.bytes@
    }

    /// The number of bytes the buffer can hold.
    pub closed spec fn limit(&self) -> nat {
        self.capacity as nat
    }

    /// An empty buffer that holds up to `capacity` bytes.
    pub fn new(capacity: usize) -> (r: FixedBuffer)
        ensures
            r.contents() == Seq::<u8>::empty(),
            r.limit() == capacity,
    {
        FixedBuffer { bytes: Vec::new(), capacity }
    }

    /// The bytes held so far.
    pub fn as_slice(&self) -> (r: &[u8])
        ensures
            r@ == self.contents(),
    {
        self.bytes.as_slice()
    }

    /// Gives up the buffer for the bytes it holds.
    pub fn into_inner(self) -> (r: Vec<u8>)
        ensures
            r@ == self.contents(),
    {
        self.bytes
    }
}

impl Write for FixedBuffer {
    open spec fn sink(&self) -> Sink {
        Sink {
            written: self.contents(),
            room: Some(
                if self.contents().len() <= self.limit() {
                    (self.limit() - self.contents().len()) as nat
                } else {
                    0
                },
            ),
        }
    }

    fn write_all(&mut self, buf: &[u8]) -> (r: Result<(), Error>)
        ensures
            final(self).limit() == old(self).limit(),
    {
        let held: usize = self.bytes.len();
        let free: usize = if held <= self.capacity {
            self.capacity - held
        } else {
            0
        };
        if buf.len() <= free {
            self.bytes.extend_from_slice(buf);
            assert(self.sink().written =~= old(self).sink().offer(buf@).written);
            Ok(())
        } else {
            let head: &[u8] = vstd::slice::slice_subrange(buf, 0, free);
            self.bytes.extend_from_slice(head);
            assert(self.sink().written =~= old(self).sink().offer(buf@).written);
            Err(Error::WriteZero)
        }
    }
}

/// How a read of `len` bytes that returned `r` moved a source from holding
/// `pre` to holding `post`: it took the first `len` bytes, or, when fewer
/// were left, took nothing and reported [`Error::UnexpectedEof`].
pub open spec fn read_from(pre: Seq<u8>, post: Seq<u8>, len: nat, r: Result<Seq<u8>, Error>) -> bool {
    if len <= pre.len() {
        r == Ok::<Seq<u8>, Error>(pre.take(len as int)) && post == pre.skip(len as int)
    } else {
        r == Err::<Seq<u8>, Error>(Error::UnexpectedEof) && post == pre
    }
}

/// The view of what a read returned.
pub open spec fn bytes_read(r: Result<Vec<u8>, Error>) -> Result<Seq<u8>, Error> {
    match r {
        Ok(v) => Ok(v@),
        Err(e) => Err(e),
    }
}

/// A byte source.
pub trait Read: Sized {
    /// The bytes not yet read, next first.
    spec fn remaining(&self) -> Seq<u8>;

    /// Reads exactly `len` bytes, or none at all when fewer are left.
    fn read_exact(&mut self, len: usize) -> (r: Result<Vec<u8>, Error>)
        ensures
            read_from(old(self).remaining(), final(self).remaining(), len as nat, bytes_read(r)),
    ;
}

} // verus!
