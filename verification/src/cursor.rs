//! An in-memory implementor of the reading capabilities: an owned byte
//! buffer behind a cursor. It gives the capability traits a fully
//! specified model — every byte read, every byte left — and carries the
//! buffered-reading law that consumed bytes are never exposed again.

use vstd::prelude::*;

use crate::error::Error;
use crate::error::ErrorKind;

verus! {

/// An in-memory reader over an owned byte buffer; the bytes at and after
/// the cursor are the bytes still to be read.
#[derive(Debug)]
pub struct Cursor {
    data: Vec<u8>,
    pos: usize,
}

impl Cursor {
    /// The cursor never passes the end of the buffer.
    #[verifier::type_invariant]
    spec fn wf(self) -> bool {
        self.pos <= self.data@.len()
    }

    /// The bytes still to be read.
    pub closed spec fn remaining(self) -> Seq<u8> {
        self.data@.skip(self.pos as int)
    }

    /// Builds a reader over the whole of `data`.
    pub fn new(data: Vec<u8>) -> (r: Cursor)
        ensures
            r.remaining() == data@,
    {
        let r = Cursor { data, pos: 0 };
        proof {
            assert(r.remaining() =~= r.data@);
        }
        r
    }
}

impl crate::Read for Cursor {
    /// `read` moves as many bytes as fit — all of the buffer, or all that
    /// remain — into the buffer's prefix, leaves the rest of the buffer
    /// untouched, and never fails.
    open spec fn read_ens(
        pre: Self,
        post: Self,
        buf_pre: Seq<u8>,
        buf_post: Seq<u8>,
        r: Result<usize, Error>,
    ) -> bool {
        let k = if buf_pre.len() <= pre.remaining().len() {
            buf_pre.len() as int
        } else {
            pre.remaining().len() as int
        };
        &&& r == Ok::<usize, Error>(k as usize)
        &&& buf_post == pre.remaining().take(k) + buf_pre.skip(k)
        &&& post.remaining() == pre.remaining().skip(k)
    }

    /// `read_exact` either fills the whole buffer from the front of the
    /// remaining bytes, or — when fewer remain than the buffer holds —
    /// fails with the end-of-input kind and changes nothing.
    open spec fn read_exact_ens(
        pre: Self,
        post: Self,
        buf_pre: Seq<u8>,
        buf_post: Seq<u8>,
        r: Result<(), Error>,
    ) -> bool {
        if buf_pre.len() <= pre.remaining().len() {
            &&& r == Ok::<(), Error>(())
            &&& buf_post == pre.remaining().take(buf_pre.len() as int)
            &&& post.remaining() == pre.remaining().skip(buf_pre.len() as int)
        } else {
            &&& (r matches Err(e) && e.spec_kind() == ErrorKind::UnexpectedEof)
            &&& buf_post == buf_pre
            &&& post == pre
        }
    }

    fn read(&mut self, buf: &mut [u8]) -> (r: Result<usize, Error>) {
        proof {
            use_type_invariant(&*self);
            vstd::std_specs::vec::axiom_spec_len(&self.data);
        }
        let avail = self.data.len() - self.pos;
        let k = if buf.len() <= avail {
            buf.len()
        } else {
            avail
        };
        let mut i: usize = 0;
        while i < k
            invariant
                i <= k,
                self.pos + k <= self.data@.len(),
                k <= buf@.len(),
                buf@.len() == old(buf)@.len(),
                self.data@.len() <= usize::MAX,
                *self == *old(self),
                forall|j: int| 0 <= j < i ==> buf@[j] == self.remaining()[j],
                forall|j: int| i <= j < buf@.len() ==> buf@[j] == old(buf)@[j],
            decreases k - i,
        {
            buf[i] = self.data[self.pos + i];
            proof {
                assert(self.remaining()[i as int] == self.data@[self.pos + i]);
            }
            i += 1;
        }
        let ghost pre = *old(self);
        self.pos = self.pos + k;
        proof {
            assert(final(buf)@ =~= pre.remaining().take(k as int) + old(buf)@.skip(k as int));
            assert(self.remaining() =~= pre.remaining().skip(k as int));
        }
        Ok(k)
    }

    fn read_exact(&mut self, buf: &mut [u8]) -> (r: Result<(), Error>) {
        proof {
            use_type_invariant(&*self);
            vstd::std_specs::vec::axiom_spec_len(&self.data);
        }
        let avail = self.data.len() - self.pos;
        if buf.len() > avail {
            return Err(Error::new(ErrorKind::UnexpectedEof));
        }
        let k = buf.len();
        let mut i: usize = 0;
        while i < k
            invariant
                i <= k,
                self.pos + k <= self.data@.len(),
                k == buf@.len(),
                buf@.len() == old(buf)@.len(),
                self.data@.len() <= usize::MAX,
                *self == *old(self),
                forall|j: int| 0 <= j < i ==> buf@[j] == self.remaining()[j],
            decreases k - i,
        {
            buf[i] = self.data[self.pos + i];
            proof {
                assert(self.remaining()[i as int] == self.data@[self.pos + i]);
            }
            i += 1;
        }
        let ghost pre = *old(self);
        self.pos = self.pos + k;
        proof {
            assert(final(buf)@ =~= pre.remaining().take(k as int));
            assert(self.remaining() =~= pre.remaining().skip(k as int));
        }
        Ok(())
    }
}

impl crate::BufRead for Cursor {
    /// `fill_buf` exposes exactly the remaining bytes, consumes nothing,
    /// and never fails.
    open spec fn fill_buf_ens(pre: Self, post: Self, r: Result<Seq<u8>, Error>) -> bool {
        &&& r == Ok::<Seq<u8>, Error>(pre.remaining())
        &&& post == pre
    }

    /// `consume` accepts any amount up to the number of remaining bytes —
    /// the length of the slice `fill_buf` last returned.
    open spec fn consume_req(pre: Self, amount: usize) -> bool {
        amount <= pre.remaining().len()
    }

    /// `consume` discards exactly the given prefix of the remaining bytes.
    open spec fn consume_ens(pre: Self, post: Self, amount: usize) -> bool {
        post.remaining() == pre.remaining().skip(amount as int)
    }

    fn fill_buf<'a>(&'a mut self) -> (r: Result<&'a [u8], Error>) {
        proof {
            use_type_invariant(&*self);
        }
        let s = self.data.as_slice();
        let sub = &s[self.pos..s.len()];
        proof {
            assert(sub@ =~= self.remaining());
        }
        Ok(sub)
    }

    fn consume(&mut self, amount: usize) {
        proof {
            use_type_invariant(&*self);
            vstd::std_specs::vec::axiom_spec_len(&self.data);
        }
        let ghost pre = *old(self);
        self.pos = self.pos + amount;
        proof {
            assert(self.remaining() =~= pre.remaining().skip(amount as int));
        }
    }
}

/// Consumed bytes are never exposed again: when `fill_buf` showed the
/// slice `s`, `consume(n)` marked `n` of its bytes used, and the next
/// `fill_buf` shows `s2`, then `s2` is exactly `s` without its consumed
/// prefix.
pub proof fn lemma_consume_no_reexpose(
    c0: Cursor,
    c1: Cursor,
    c2: Cursor,
    c3: Cursor,
    s: Seq<u8>,
    n: usize,
    s2: Seq<u8>,
)
    requires
        crate::BufRead::fill_buf_ens(c0, c1, Ok(s)),
        n <= s.len(),
        crate::BufRead::consume_ens(c1, c2, n),
        crate::BufRead::fill_buf_ens(c2, c3, Ok(s2)),
    ensures
        s2 == s.skip(n as int),
{
}

} // verus!
