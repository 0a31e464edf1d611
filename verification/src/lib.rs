//! A portable byte I/O abstraction: capability traits for sequential
//! reading, buffered reading and writing, a discarding [`Sink`], and
//! bridging adapters between these capabilities and a host environment's
//! native I/O types.
//!
//! Each capability method carries two layers of contract: a baseline that
//! every implementor meets (a read never reports more bytes than the buffer
//! holds, a write never reports more bytes than it was given), and a
//! per-implementor relation (`read_ens`, `write_ens`, ...) through which a
//! concrete type such as [`Sink`] or an adapter states exactly what its
//! methods do.

use vstd::prelude::*;

pub mod bridge;
pub mod cursor;
pub mod error;
pub mod network;

pub use bridge::FromStd;
pub use bridge::ToStd;
pub use cursor::Cursor;
pub use error::Error;
pub use error::ErrorKind;

verus! {

/// The capability of pulling bytes into a caller-supplied buffer.
pub trait Read: Sized {
    /// What this implementor's `read` guarantees, over the implementor
    /// before and after the call, the buffer before and after, and the
    /// result.
    spec fn read_ens(
        pre: Self,
        post: Self,
        buf_pre: Seq<u8>,
        buf_post: Seq<u8>,
        r: Result<usize, Error>,
    ) -> bool;

    /// What this implementor's `read_exact` guarantees.
    spec fn read_exact_ens(
        pre: Self,
        post: Self,
        buf_pre: Seq<u8>,
        buf_post: Seq<u8>,
        r: Result<(), Error>,
    ) -> bool;

    /// Reads between zero and `buf.len()` bytes into a prefix of `buf` and
    /// returns the number actually read; zero means end of input when `buf`
    /// is not empty.
    fn read(&mut self, buf: &mut [u8]) -> (r: Result<usize, Error>)
        ensures
            final(buf)@.len() == old(buf)@.len(),
            (r matches Ok(n) ==> n <= final(buf)@.len()),
            Self::read_ens(*old(self), *final(self), old(buf)@, final(buf)@, r),
    ;

    /// Fills all of `buf` or fails; on failure the contents of `buf` are
    /// unspecified and bytes already consumed from the source stay consumed.
    fn read_exact(&mut self, buf: &mut [u8]) -> (r: Result<(), Error>)
        ensures
            final(buf)@.len() == old(buf)@.len(),
            Self::read_exact_ens(*old(self), *final(self), old(buf)@, final(buf)@, r),
    ;
}

/// The capability of exposing an internal buffer of not-yet-consumed bytes
/// without copying.
pub trait BufRead: Read {
    /// What this implementor's `fill_buf` guarantees; on success the
    /// argument is the view of the returned slice.
    spec fn fill_buf_ens(pre: Self, post: Self, r: Result<Seq<u8>, Error>) -> bool;

    /// The amounts this implementor accepts in `consume`.
    spec fn consume_req(pre: Self, amount: usize) -> bool;

    /// What this implementor's `consume` guarantees.
    spec fn consume_ens(pre: Self, post: Self, amount: usize) -> bool;

    /// Returns the currently buffered, unconsumed bytes, reading more from
    /// the source only if none are buffered; an empty slice means end of
    /// input. Bytes stay buffered until `consume` marks them used.
    fn fill_buf<'a>(&'a mut self) -> (r: Result<&'a [u8], Error>)
        ensures
            (r matches Ok(s) ==> Self::fill_buf_ens(*old(self), *final(self), Ok(s@))),
            (r matches Err(e) ==> Self::fill_buf_ens(*old(self), *final(self), Err(e))),
    ;

    /// Marks `amount` bytes of the slice most recently returned by
    /// `fill_buf` as used; `amount` must not exceed that slice's length.
    fn consume(&mut self, amount: usize)
        requires
            Self::consume_req(*old(self), amount),
        ensures
            Self::consume_ens(*old(self), *final(self), amount),
    ;
}

/// The capability of pushing bytes to a destination.
pub trait Write: Sized {
    /// What this implementor's `write` guarantees.
    spec fn write_ens(pre: Self, post: Self, buf: Seq<u8>, r: Result<usize, Error>) -> bool;

    /// What this implementor's `write_all` guarantees.
    spec fn write_all_ens(pre: Self, post: Self, buf: Seq<u8>, r: Result<(), Error>) -> bool;

    /// What this implementor's `flush` guarantees.
    spec fn flush_ens(pre: Self, post: Self, r: Result<(), Error>) -> bool;

    /// Writes between zero and `buf.len()` bytes from `buf` and returns the
    /// number actually accepted.
    fn write(&mut self, buf: &[u8]) -> (r: Result<usize, Error>)
        ensures
            (r matches Ok(n) ==> n <= buf@.len()),
            Self::write_ens(*old(self), *final(self), buf@, r),
    ;

    /// Writes every byte of `buf` or fails; on failure an unspecified
    /// prefix of `buf` has been written.
    fn write_all(&mut self, buf: &[u8]) -> (r: Result<(), Error>)
        ensures
            Self::write_all_ens(*old(self), *final(self), buf@, r),
    ;

    /// Forces internally buffered bytes to their destination; a no-op for
    /// destinations without internal buffering.
    fn flush(&mut self) -> (r: Result<(), Error>)
        ensures
            Self::flush_ens(*old(self), *final(self), r),
    ;
}

/// A destination that discards every byte written to it and always reports
/// success.
#[derive(Clone, Copy, Debug, PartialEq, Eq, Structural)]
pub struct Sink;

impl Write for Sink {
    /// `write` accepts the whole buffer and leaves no observable trace.
    open spec fn write_ens(pre: Self, post: Self, buf: Seq<u8>, r: Result<usize, Error>) -> bool {
        &&& post == pre
        &&& (r matches Ok(n) && n == buf.len())
    }

    /// `write_all` always succeeds and leaves no observable trace.
    open spec fn write_all_ens(pre: Self, post: Self, buf: Seq<u8>, r: Result<(), Error>) -> bool {
        &&& post == pre
        &&& r == Ok::<(), Error>(())
    }

    /// `flush` always succeeds and leaves no observable trace.
    open spec fn flush_ens(pre: Self, post: Self, r: Result<(), Error>) -> bool {
        &&& post == pre
        &&& r == Ok::<(), Error>(())
    }

    fn write(&mut self, buf: &[u8]) -> (r: Result<usize, Error>) {
        Ok(buf.len())
    }

    fn write_all(&mut self, buf: &[u8]) -> (r: Result<(), Error>) {
        Ok(())
    }

    fn flush(&mut self) -> (r: Result<(), Error>) {
        Ok(())
    }
}

} // verus!
