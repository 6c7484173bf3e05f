//! A positioned cursor over an in-memory byte buffer, exposing the one
//! primitive the record layout needs: read four bytes as a big-endian
//! unsigned 32-bit integer.

use vstd::prelude::*;

use crate::bytes::be_u32_at;
use crate::bytes::be_u32_from;

verus! {

/// A byte buffer together with a read position. Every read advances the
/// position; a read past the end fails and leaves the cursor unchanged.
pub struct ByteCursor {
    data: Vec<u8>,
    pos: usize,
}

impl ByteCursor {
    /// The underlying bytes.
    pub closed spec fn bytes(&self) -> Seq<u8> {
        self.data@
    }

    /// The current read position.
    pub closed spec fn position(&self) -> int {
        self.pos as int
    }

    /// A cursor positioned at the start of `data`.
    pub fn new(data: Vec<u8>) -> (c: ByteCursor)
        ensures
            c.bytes() == data@,
            c.position() == 0,
    {
        ByteCursor { data, pos: 0 }
    }

    /// How many bytes remain to be read.
    pub fn remaining(&self) -> (n: u64)
        ensures
            n == if self.position() <= self.bytes().len() {
                self.bytes().len() - self.position()
            } else {
                0
            },
    {
        if self.pos <= self.data.len() {
            (self.data.len() - self.pos) as u64
        } else {
            0
        }
    }

    /// The current read position, as a count of bytes consumed so far.
    pub fn consumed(&self) -> (n: u64)
        ensures
            n == self.position(),
    {
        self.pos as u64
    }

    /// Reads the next four bytes as a big-endian unsigned 32-bit integer.
    /// Fails, without moving the position, when fewer than four bytes remain.
    pub fn read_be_u32(&mut self) -> (r: Option<u32>)
        ensures
            final(self).bytes() == old(self).bytes(),
            old(self).position() + 4 <= old(self).bytes().len() ==> {
                &&& r == Some(be_u32_at(old(self).bytes(), old(self).position()))
                &&& final(self).position() == old(self).position() + 4
            },
            old(self).position() + 4 > old(self).bytes().len() ==> {
                &&& r is None
                &&& final(self).position() == old(self).position()
            },
    {
        if self.data.len() >= 4 && self.pos <= self.data.len() - 4 {
            let r = be_u32_from(
                self.data[self.pos],
                self.data[self.pos + 1],
                self.data[self.pos + 2],
                self.data[self.pos + 3],
            );
            self.pos = self.pos + 4;
            Some(r)
        } else {
            None
        }
    }
}

} // verus!
