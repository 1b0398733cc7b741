//! A cursor over an owned byte container.
//!
//! Reads consume from the front; the cursor never backs up.  Running past
//! the end is the one failure.

use vstd::prelude::*;

verus! {

/// Failure of a buffer read.
#[derive(Clone, Copy, Debug, PartialEq, Eq, Structural)]
pub enum Error {
    /// The read would run past the end of the buffer.
    Eof,
}

/// An owned container with a read cursor.
#[derive(Debug)]
pub struct Buffer<T> {
    inner: T,
    pos: usize,
}

impl<T> Buffer<T> {
    /// The wrapped container.
    pub closed spec fn spec_inner(self) -> T {
        self.inner
    }

    /// The cursor: how many bytes have been consumed.
    pub closed spec fn spec_pos(self) -> usize {
        self.pos
    }

    /// Wraps a container with the cursor at the front.
    pub fn new(inner: T) -> (r: Buffer<T>)
        ensures
            r.spec_inner() == inner,
            r.spec_pos() == 0,
    {
        Buffer { pos: 0, inner }
    }

    /// Unwraps the container, dropping the cursor.
    pub fn into_inner(self) -> (r: T)
        ensures
            r == self.spec_inner(),
    {
        self.inner
    }

    /// The cursor's position.
    pub fn position(&self) -> (r: usize)
        ensures
            r == self.spec_pos(),
    {
        self.pos
    }
}

impl Buffer<Vec<u8>> {
    /// Whether `n_bytes` more bytes fit between the cursor and the end.
    fn ensure_space(&self, n_bytes: usize) -> (r: Result<(), Error>)
        ensures
            r == Ok::<(), Error>(()) <==> self.spec_pos() + n_bytes
                <= self.spec_inner()@.len(),
            r is Err ==> r == Err::<(), Error>(Error::Eof),
    {
        if n_bytes > self.inner.len() || self.pos > self.inner.len() - n_bytes {
            Err(Error::Eof)
        } else {
            Ok(())
        }
    }

    /// Consumes the next `n_bytes` bytes and hands them out, or fails
    /// without moving the cursor when fewer remain.
    pub fn take(&mut self, n_bytes: usize) -> (r: Result<&[u8], Error>)
        ensures
            old(self).spec_pos() + n_bytes <= old(self).spec_inner()@.len() <==> r is Ok,
            final(self).spec_inner() == old(self).spec_inner(),
            match r {
                Ok(data) => {
                    &&& data@ == old(self).spec_inner()@.subrange(
                        old(self).spec_pos() as int,
                        old(self).spec_pos() + n_bytes,
                    )
                    &&& final(self).spec_pos() == old(self).spec_pos() + n_bytes
                },
                Err(e) => {
                    &&& e == Error::Eof
                    &&& final(self).spec_pos() == old(self).spec_pos()
                },
            },
    {
        self.ensure_space(n_bytes)?;
        let len = self.inner.len();
        proof {
            assert(self.pos + n_bytes <= len);
        }
        let data = &self.inner.as_slice()[self.pos..self.pos + n_bytes];
        self.pos = self.pos + n_bytes;
        Ok(data)
    }
}

} // verus!
