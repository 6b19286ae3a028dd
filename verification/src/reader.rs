//! An in-memory byte source with a cursor.

use vstd::prelude::*;
use vstd::slice::slice_subrange;

verus! {

/// The ways in which reading from a byte source can fail.
#[derive(Debug, Clone, Copy, PartialEq, Eq, Structural)]
pub enum IoErrorKind {
    /// The source ended before the requested number of bytes was read.
    UnexpectedEof,
}

/// A cursor over a borrowed byte buffer.
///
/// A read that fails leaves the cursor where it was.
#[derive(Debug)]
pub struct ByteReader<'a> {
    data: &'a [u8],
    pos: usize,
}

impl<'a> ByteReader<'a> {
    #[verifier::type_invariant]
    spec fn well_formed(&self) -> bool {
        self.pos <= self.data@.len()
    }

    /// The bytes that have not been read yet.
    pub closed spec fn remaining(&self) -> Seq<u8> {
        self.data@.skip(self.pos as int)
    }

    /// A reader positioned at the start of `data`.
    pub fn new(data: &'a [u8]) -> (r: ByteReader<'a>)
        ensures
            r.remaining() == data@,
    {
        ByteReader { data, pos: 0 }
    }

    /// Number of bytes that have not been read yet.
    pub fn remaining_len(&self) -> (n: usize)
        ensures
            n == self.remaining().len(),
    {
        proof {
            use_type_invariant(self);
        }
        self.data.len() - self.pos
    }

    /// A second cursor at the same position over the same buffer.
    pub fn fork(&self) -> (r: ByteReader<'a>)
        ensures
            r.remaining() == self.remaining(),
    {
        proof {
            use_type_invariant(self);
        }
        ByteReader { data: self.data, pos: self.pos }
    }

    /// Reads one byte.
    pub fn read_u8(&mut self) -> (r: Result<u8, IoErrorKind>)
        ensures
            old(self).remaining().len() >= 1 ==> r == Ok::<u8, IoErrorKind>(
                old(self).remaining()[0],
            ) && final(self).remaining() == old(self).remaining().skip(1),
            old(self).remaining().len() < 1 ==> r == Err::<u8, IoErrorKind>(
                IoErrorKind::UnexpectedEof,
            ) && final(self).remaining() == old(self).remaining(),
    {
        proof {
            use_type_invariant(&*self);
        }
        if self.pos < self.data.len() {
            let b = self.data[self.pos];
            self.pos = self.pos + 1;
            assert(self.data@.skip(self.pos as int) =~= old(self).data@.skip(
                old(self).pos as int,
            ).skip(1));
            Ok(b)
        } else {
            Err(IoErrorKind::UnexpectedEof)
        }
    }

    /// Reads exactly `n` bytes.
    pub fn read_exact(&mut self, n: usize) -> (r: Result<&'a [u8], IoErrorKind>)
        ensures
            old(self).remaining().len() >= n ==> r is Ok && r->Ok_0@ == old(self).remaining().take(
                n as int,
            ) && final(self).remaining() == old(self).remaining().skip(n as int),
            old(self).remaining().len() < n ==> r == Err::<&[u8], IoErrorKind>(
                IoErrorKind::UnexpectedEof,
            ) && final(self).remaining() == old(self).remaining(),
    {
        proof {
            use_type_invariant(&*self);
        }
        if n <= self.data.len() - self.pos {
            let out = slice_subrange(self.data, self.pos, self.pos + n);
            self.pos = self.pos + n;
            assert(out@ =~= old(self).remaining().take(n as int));
            assert(self.data@.skip(self.pos as int) =~= old(self).remaining().skip(n as int));
            Ok(out)
        } else {
            Err(IoErrorKind::UnexpectedEof)
        }
    }

    /// Splits off a reader over exactly the next `n` bytes and moves past them.
    pub fn take(&mut self, n: usize) -> (r: Result<ByteReader<'a>, IoErrorKind>)
        ensures
            old(self).remaining().len() >= n ==> r is Ok && r->Ok_0.remaining()
                == old(self).remaining().take(n as int) && final(self).remaining()
                == old(self).remaining().skip(
                n as int,
            ),
            old(self).remaining().len() < n ==> r is Err && r->Err_0 == IoErrorKind::UnexpectedEof
                && final(self).remaining() == old(self).remaining(),
    {
        match self.read_exact(n) {
            Ok(bytes) => Ok(ByteReader { data: bytes, pos: 0 }),
            Err(e) => Err(e),
        }
    }

    /// Reads up to `n` bytes: all of them if the source holds that many,
    /// otherwise everything that is left.
    pub fn read_up_to(&mut self, n: usize) -> (r: Vec<u8>)
        ensures
            old(self).remaining().len() >= n ==> r@ == old(self).remaining().take(n as int)
                && final(self).remaining() == old(self).remaining().skip(n as int),
            old(self).remaining().len() < n ==> r@ == old(self).remaining()
                && final(self).remaining().len() == 0,
    {
        let avail = self.remaining_len();
        let k = if n <= avail {
            n
        } else {
            avail
        };
        match self.read_exact(k) {
            Ok(bytes) => {
                assert(old(self).remaining().take(avail as int) =~= old(self).remaining());
                vstd::slice::slice_to_vec(bytes)
            },
            Err(_) => Vec::new(),
        }
    }

    /// Reads everything that is left.
    pub fn read_to_end(&mut self) -> (r: Vec<u8>)
        ensures
            r@ == old(self).remaining(),
            final(self).remaining().len() == 0,
    {
        let avail = self.remaining_len();
        self.read_up_to(avail)
    }

    /// Moves this cursor to where `other` stands.
    pub fn advance_to(&mut self, other: ByteReader<'a>)
        ensures
            final(self).remaining() == other.remaining(),
    {
        *self = other;
    }
}

} // verus!
