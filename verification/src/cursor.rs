//! A cursor over a buffer: the decoders read their fields through it, front
//! to back, and it refuses to read past the end.

use crate::error::DecodeError;
use vstd::prelude::*;
use vstd::slice::slice_subrange;

verus! {

/// A position in a borrowed buffer. What lies before it has been read; what
/// lies after it is still to come.
pub struct ByteCursor<'a> {
    bytes: &'a [u8],
    position: usize,
}

impl<'a> ByteCursor<'a> {
    #[verifier::type_invariant]
    spec fn in_bounds(self) -> bool {
        self.position <= self.bytes@.len()
    }

    /// The whole buffer, read or not.
    pub closed spec fn source(self) -> Seq<u8> {
        self.bytes@
    }

    /// How many bytes have been read.
    pub closed spec fn consumed(self) -> nat {
        self.position as nat
    }

    /// The bytes that are still to come.
    pub open spec fn remaining(self) -> Seq<u8> {
        self.source().subrange(self.consumed() as int, self.source().len() as int)
    }

    /// A cursor at the front of `bytes`.
    pub fn new(bytes: &'a [u8]) -> (cursor: Self)
        ensures
            cursor.source() == bytes@,
            cursor.consumed() == 0,
    {
        ByteCursor { bytes, position: 0 }
    }

    /// How many bytes are still to come. A cursor never stands behind the
    /// end of its buffer.
    pub fn remaining_len(&self) -> (count: usize)
        ensures
            self.consumed() <= self.source().len(),
            count == self.source().len() - self.consumed(),
    {
        proof {
            use_type_invariant(self);
        }
        self.bytes.len() - self.position
    }

    /// Reads one byte. At the end of the buffer nothing is read and the
    /// cursor stays where it is.
    pub fn next_byte(&mut self) -> (read: Result<u8, DecodeError>)
        ensures
            final(self).source() == old(self).source(),
            match read {
                Ok(byte) => {
                    &&& old(self).consumed() < old(self).source().len()
                    &&& byte == old(self).source()[old(self).consumed() as int]
                    &&& final(self).consumed() == old(self).consumed() + 1
                },
                Err(failure) => {
                    &&& failure == DecodeError::Truncated
                    &&& old(self).consumed() >= old(self).source().len()
                    &&& final(self).consumed() == old(self).consumed()
                },
            },
    {
        proof {
            use_type_invariant(&*self);
        }
        if self.position < self.bytes.len() {
            let byte = self.bytes[self.position];
            self.position = self.position + 1;
            Ok(byte)
        } else {
            Err(DecodeError::Truncated)
        }
    }

    /// Reads the next `count` bytes. Where fewer remain nothing is read and
    /// the cursor stays where it is.
    pub fn take(&mut self, count: usize) -> (read: Result<&'a [u8], DecodeError>)
        ensures
            final(self).source() == old(self).source(),
            match read {
                Ok(run) => {
                    &&& old(self).consumed() + count <= old(self).source().len()
                    &&& run@ == old(self).source().subrange(
                        old(self).consumed() as int,
                        old(self).consumed() + count,
                    )
                    &&& final(self).consumed() == old(self).consumed() + count
                },
                Err(failure) => {
                    &&& failure == DecodeError::Truncated
                    &&& old(self).consumed() + count > old(self).source().len()
                    &&& final(self).consumed() == old(self).consumed()
                },
            },
    {
        proof {
            use_type_invariant(&*self);
        }
        if count <= self.bytes.len() - self.position {
            let run = slice_subrange(self.bytes, self.position, self.position + count);
            self.position = self.position + count;
            Ok(run)
        } else {
            Err(DecodeError::Truncated)
        }
    }

    /// Reads all the bytes that are still to come.
    pub fn rest(&mut self) -> (run: &'a [u8])
        ensures
            final(self).source() == old(self).source(),
            final(self).consumed() == old(self).source().len(),
            old(self).consumed() <= old(self).source().len(),
            run@ == old(self).remaining(),
    {
        proof {
            use_type_invariant(&*self);
        }
        let run = slice_subrange(self.bytes, self.position, self.bytes.len());
        self.position = self.bytes.len();
        run
    }
}

} // verus!
