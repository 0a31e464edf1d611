//! Bridging adapters between the crate's capability traits and the host
//! environment's native I/O types.
//!
//! [`FromStd`] wraps a value with host I/O capabilities and exposes this
//! crate's capability set over it; [`ToStd`] wraps a value with this
//! crate's capabilities so that a host-facing shell can expose the host's
//! capability set over it, and passes this crate's capabilities through
//! unchanged. Both adapters' constructors and accessors are exact
//! inverses.
//!
//! A host buffered reader or writer takes this crate's capability set by
//! wrapping in [`FromStd`]; a direct impl of the capability traits on the
//! host's own types cannot stand in verified code, which does not take a
//! host trait as a bound of a trait impl.

use vstd::prelude::*;

use crate::error::Error;
use crate::error::ErrorKind;
use crate::BufRead;
use crate::Read;
use crate::Write;

verus! {

/// The host's opaque I/O error type.
#[verifier::external_type_specification]
#[verifier::external_body]
pub struct ExIoError(std::io::Error);

/// Relies on `std::io::Error::kind`: classifies a host failure as one of
/// this crate's error kinds; the end-of-input and write-zero kinds are kept
/// and every other host kind becomes the opaque kind. Total and panic-free.
#[verifier::external_body]
fn error_from_host(e: std::io::Error) -> (r: Error) {
    match e.kind() {
        std::io::ErrorKind::UnexpectedEof => Error::new(ErrorKind::UnexpectedEof),
        std::io::ErrorKind::WriteZero => Error::new(ErrorKind::WriteZero),
        _ => Error::new(ErrorKind::Other),
    }
}

/// Relies on `std::io::Read::read`: reads into a prefix of `buf`, returns
/// the number of bytes read, which its documentation bounds by `buf.len()`;
/// a mutable slice cannot change length.
#[verifier::external_body]
fn host_read<T: std::io::Read>(inner: &mut T, buf: &mut [u8]) -> (r: Result<
    usize,
    std::io::Error,
>)
    ensures
        final(buf)@.len() == old(buf)@.len(),
        (r matches Ok(n) ==> n <= final(buf)@.len()),
{
    inner.read(buf)
}

/// Relies on `std::io::Read::read_exact`: fills all of `buf` or fails with
/// an end-of-input or other host error; a mutable slice cannot change
/// length.
#[verifier::external_body]
fn host_read_exact<T: std::io::Read>(inner: &mut T, buf: &mut [u8]) -> (r: Result<
    (),
    std::io::Error,
>)
    ensures
        final(buf)@.len() == old(buf)@.len(),
{
    inner.read_exact(buf)
}

/// Relies on `std::io::BufRead::fill_buf`: returns the currently buffered,
/// unconsumed bytes, reading from the source only if none are buffered.
#[verifier::external_body]
fn host_fill_buf<'a, T: std::io::BufRead>(inner: &'a mut T) -> (r: Result<
    &'a [u8],
    std::io::Error,
>) {
    inner.fill_buf()
}

/// Relies on `std::io::BufRead::consume`: marks `amount` bytes of the most
/// recent `fill_buf` slice as used. Its documentation obliges the caller
/// to pass at most the length of that slice, and host implementations may
/// panic when the obligation is broken; the `requires` carries it, over
/// the adapter's record of how much of that slice is still unconsumed.
#[verifier::external_body]
fn host_consume<T: std::io::BufRead>(adapter: &mut FromStd<T>, amount: usize)
    requires
        amount <= old(adapter).spec_consumable(),
    ensures
        final(adapter).spec_consumable() == old(adapter).spec_consumable() - amount,
{
    adapter.inner.consume(amount)
}

/// Relies on `std::io::Write::write`: writes from `buf` and returns the
/// number of bytes accepted, which its documentation bounds by `buf.len()`.
#[verifier::external_body]
fn host_write<T: std::io::Write>(inner: &mut T, buf: &[u8]) -> (r: Result<
    usize,
    std::io::Error,
>)
    ensures
        (r matches Ok(n) ==> n <= buf@.len()),
{
    inner.write(buf)
}

/// Relies on `std::io::Write::write_all`: writes every byte of `buf` or
/// fails after writing an unspecified prefix.
#[verifier::external_body]
fn host_write_all<T: std::io::Write>(inner: &mut T, buf: &[u8]) -> (r: Result<
    (),
    std::io::Error,
>) {
    inner.write_all(buf)
}

/// Relies on `std::io::Write::flush`: forces buffered bytes to their
/// destination.
#[verifier::external_body]
fn host_flush<T: std::io::Write>(inner: &mut T) -> (r: Result<(), std::io::Error>) {
    inner.flush()
}

/// An adapter giving this crate's capability set to a value that has the
/// host's native I/O capabilities.
pub struct FromStd<T> {
    inner: T,
    consumable: Ghost<nat>,
}

impl<T> FromStd<T> {
    /// The wrapped value, as seen by specifications.
    pub closed spec fn spec_inner(self) -> T {
        self.inner
    }

    /// How many buffered bytes this adapter may still mark consumed: the
    /// length of the slice the last `fill_buf` returned, less what
    /// `consume` has taken from it since. Every other operation on the
    /// adapter resets it, so it never exceeds what the host still holds
    /// buffered.
    pub closed spec fn spec_consumable(self) -> nat {
        self.consumable@
    }

    /// Wraps a host I/O value.
    pub fn new(inner: T) -> (r: Self)
        ensures
            r.spec_inner() == inner,
            r.spec_consumable() == 0,
    {
        FromStd { inner, consumable: Ghost(0nat) }
    }

    /// Returns the wrapped value; the exact inverse of `new`.
    pub fn into_inner(self) -> (r: T)
        ensures
            r == self.spec_inner(),
    {
        self.inner
    }

    /// Returns a reference to the wrapped value.
    pub fn inner(&self) -> (r: &T)
        ensures
            *r == self.spec_inner(),
    {
        &self.inner
    }

    /// Returns a mutable reference to the wrapped value; the caller may
    /// alter the host's buffer through it, so the consumable record is
    /// reset.
    pub fn inner_mut(&mut self) -> (r: &mut T)
        ensures
            *r == old(self).spec_inner(),
            final(self).spec_inner() == *final(r),
            final(self).spec_consumable() == 0,
    {
        self.consumable = Ghost(0nat);
        &mut self.inner
    }
}

/// An adapter holding a value with this crate's capability set, for use
/// where the host's capability surface is wanted; this crate's own
/// capabilities pass through it unchanged.
pub struct ToStd<T> {
    inner: T,
}

impl<T> ToStd<T> {
    /// The wrapped value, as seen by specifications.
    pub closed spec fn spec_inner(self) -> T {
        self.inner
    }

    /// Wraps an I/O value of this crate.
    pub fn new(inner: T) -> (r: Self)
        ensures
            r.spec_inner() == inner,
    {
        ToStd { inner }
    }

    /// Returns the wrapped value; the exact inverse of `new`.
    pub fn into_inner(self) -> (r: T)
        ensures
            r == self.spec_inner(),
    {
        self.inner
    }

    /// Returns a reference to the wrapped value.
    pub fn inner(&self) -> (r: &T)
        ensures
            *r == self.spec_inner(),
    {
        &self.inner
    }

    /// Returns a mutable reference to the wrapped value.
    pub fn inner_mut(&mut self) -> (r: &mut T)
        ensures
            *r == old(self).spec_inner(),
            final(self).spec_inner() == *final(r),
    {
        &mut self.inner
    }
}

/// The capability methods of this crate, over a wrapped host reader.
///
/// These mirror [`crate::Read`]; a host stream promises nothing beyond the
/// baseline bounds, so the contracts state exactly those.
impl<T: std::io::Read> FromStd<T> {
    /// Reads between zero and `buf.len()` bytes into a prefix of `buf` and
    /// returns the number actually read; zero means end of input when
    /// `buf` is not empty. Reading may drain the host's buffer, so the
    /// consumable record is reset.
    pub fn read(&mut self, buf: &mut [u8]) -> (r: Result<usize, Error>)
        ensures
            final(buf)@.len() == old(buf)@.len(),
            (r matches Ok(n) ==> n <= final(buf)@.len()),
            final(self).spec_consumable() == 0,
    {
        self.consumable = Ghost(0nat);
        match host_read(&mut self.inner, buf) {
            Ok(n) => Ok(n),
            Err(e) => Err(error_from_host(e)),
        }
    }

    /// Fills all of `buf` or fails; on failure the contents of `buf` are
    /// unspecified and bytes already consumed from the source stay
    /// consumed. Reading may drain the host's buffer, so the consumable
    /// record is reset.
    pub fn read_exact(&mut self, buf: &mut [u8]) -> (r: Result<(), Error>)
        ensures
            final(buf)@.len() == old(buf)@.len(),
            final(self).spec_consumable() == 0,
    {
        self.consumable = Ghost(0nat);
        match host_read_exact(&mut self.inner, buf) {
            Ok(u) => Ok(u),
            Err(e) => Err(error_from_host(e)),
        }
    }
}

/// The buffered-reading capability methods of this crate, over a wrapped
/// host buffered reader.
impl<T: std::io::BufRead> FromStd<T> {
    /// Returns the currently buffered, unconsumed bytes, reading more from
    /// the source only if none are buffered; an empty slice means end of
    /// input. On success the whole returned slice becomes consumable.
    pub fn fill_buf<'a>(&'a mut self) -> (r: Result<&'a [u8], Error>)
        ensures
            (r matches Ok(s) ==> final(self).spec_consumable() == s@.len()),
            (r matches Err(e) ==> final(self).spec_consumable() == 0),
    {
        match host_fill_buf(&mut self.inner) {
            Ok(s) => {
                self.consumable = Ghost(s@.len());
                Ok(s)
            },
            Err(e) => {
                self.consumable = Ghost(0nat);
                Err(error_from_host(e))
            },
        }
    }

    /// Marks `amount` bytes of the slice most recently returned by
    /// `fill_buf` as used. The caller must not pass more than what is
    /// still consumable of that slice: a precondition, as with the host's
    /// own buffered readers, not a recoverable error.
    pub fn consume(&mut self, amount: usize)
        requires
            amount <= old(self).spec_consumable(),
        ensures
            final(self).spec_consumable() == old(self).spec_consumable() - amount,
    {
        host_consume(self, amount)
    }
}

/// The writing capability methods of this crate, over a wrapped host
/// writer.
impl<T: std::io::Write> FromStd<T> {
    /// Writes between zero and `buf.len()` bytes from `buf` and returns
    /// the number actually accepted. Writing counts as another operation
    /// on the host value, so the consumable record is reset.
    pub fn write(&mut self, buf: &[u8]) -> (r: Result<usize, Error>)
        ensures
            (r matches Ok(n) ==> n <= buf@.len()),
            final(self).spec_consumable() == 0,
    {
        self.consumable = Ghost(0nat);
        match host_write(&mut self.inner, buf) {
            Ok(n) => Ok(n),
            Err(e) => Err(error_from_host(e)),
        }
    }

    /// Writes every byte of `buf` or fails; on failure an unspecified
    /// prefix of `buf` has been written. The consumable record is reset.
    pub fn write_all(&mut self, buf: &[u8]) -> (r: Result<(), Error>)
        ensures
            final(self).spec_consumable() == 0,
    {
        self.consumable = Ghost(0nat);
        match host_write_all(&mut self.inner, buf) {
            Ok(u) => Ok(u),
            Err(e) => Err(error_from_host(e)),
        }
    }

    /// Forces internally buffered bytes to their destination. The
    /// consumable record is reset.
    pub fn flush(&mut self) -> (r: Result<(), Error>)
        ensures
            final(self).spec_consumable() == 0,
    {
        self.consumable = Ghost(0nat);
        match host_flush(&mut self.inner) {
            Ok(u) => Ok(u),
            Err(e) => Err(error_from_host(e)),
        }
    }
}

impl<T: crate::Read> crate::Read for ToStd<T> {
    /// Calls pass through: the wrapper's relation is exactly the wrapped
    /// value's.
    open spec fn read_ens(
        pre: Self,
        post: Self,
        buf_pre: Seq<u8>,
        buf_post: Seq<u8>,
        r: Result<usize, Error>,
    ) -> bool {
        T::read_ens(pre.spec_inner(), post.spec_inner(), buf_pre, buf_post, r)
    }

    /// Calls pass through: the wrapper's relation is exactly the wrapped
    /// value's.
    open spec fn read_exact_ens(
        pre: Self,
        post: Self,
        buf_pre: Seq<u8>,
        buf_post: Seq<u8>,
        r: Result<(), Error>,
    ) -> bool {
        T::read_exact_ens(pre.spec_inner(), post.spec_inner(), buf_pre, buf_post, r)
    }

    fn read(&mut self, buf: &mut [u8]) -> (r: Result<usize, Error>) {
        self.inner.read(buf)
    }

    fn read_exact(&mut self, buf: &mut [u8]) -> (r: Result<(), Error>) {
        self.inner.read_exact(buf)
    }
}

impl<T: crate::BufRead> crate::BufRead for ToStd<T> {
    /// Calls pass through: the wrapper's relation is exactly the wrapped
    /// value's.
    open spec fn fill_buf_ens(pre: Self, post: Self, r: Result<Seq<u8>, Error>) -> bool {
        T::fill_buf_ens(pre.spec_inner(), post.spec_inner(), r)
    }

    /// Calls pass through: the wrapper accepts exactly what the wrapped
    /// value accepts.
    open spec fn consume_req(pre: Self, amount: usize) -> bool {
        T::consume_req(pre.spec_inner(), amount)
    }

    /// Calls pass through: the wrapper's relation is exactly the wrapped
    /// value's.
    open spec fn consume_ens(pre: Self, post: Self, amount: usize) -> bool {
        T::consume_ens(pre.spec_inner(), post.spec_inner(), amount)
    }

    fn fill_buf<'a>(&'a mut self) -> (r: Result<&'a [u8], Error>) {
        self.inner.fill_buf()
    }

    fn consume(&mut self, amount: usize) {
        self.inner.consume(amount)
    }
}

impl<T: crate::Write> crate::Write for ToStd<T> {
    /// Calls pass through: the wrapper's relation is exactly the wrapped
    /// value's.
    open spec fn write_ens(pre: Self, post: Self, buf: Seq<u8>, r: Result<usize, Error>) -> bool {
        T::write_ens(pre.spec_inner(), post.spec_inner(), buf, r)
    }

    /// Calls pass through: the wrapper's relation is exactly the wrapped
    /// value's.
    open spec fn write_all_ens(
        pre: Self,
        post: Self,
        buf: Seq<u8>,
        r: Result<(), Error>,
    ) -> bool {
        T::write_all_ens(pre.spec_inner(), post.spec_inner(), buf, r)
    }

    /// Calls pass through: the wrapper's relation is exactly the wrapped
    /// value's.
    open spec fn flush_ens(pre: Self, post: Self, r: Result<(), Error>) -> bool {
        T::flush_ens(pre.spec_inner(), post.spec_inner(), r)
    }

    fn write(&mut self, buf: &[u8]) -> (r: Result<usize, Error>) {
        self.inner.write(buf)
    }

    fn write_all(&mut self, buf: &[u8]) -> (r: Result<(), Error>) {
        self.inner.write_all(buf)
    }

    fn flush(&mut self) -> (r: Result<(), Error>) {
        self.inner.flush()
    }
}

/// Pass-through fidelity for reading: what a wrapped value's `read` may
/// observably do through the adapter — the bytes moved, the count, the
/// error — is exactly what it may do when called directly.
pub proof fn lemma_to_std_read_pass_through<T: crate::Read>(
    pre: ToStd<T>,
    post: ToStd<T>,
    buf_pre: Seq<u8>,
    buf_post: Seq<u8>,
    r: Result<usize, Error>,
)
    ensures
        ToStd::<T>::read_ens(pre, post, buf_pre, buf_post, r) == T::read_ens(
            pre.spec_inner(),
            post.spec_inner(),
            buf_pre,
            buf_post,
            r,
        ),
{
}

/// Pass-through fidelity for writing: what a wrapped value's `write` may
/// observably do through the adapter is exactly what it may do when
/// called directly.
pub proof fn lemma_to_std_write_pass_through<T: crate::Write>(
    pre: ToStd<T>,
    post: ToStd<T>,
    buf: Seq<u8>,
    r: Result<usize, Error>,
)
    ensures
        ToStd::<T>::write_ens(pre, post, buf, r) == T::write_ens(
            pre.spec_inner(),
            post.spec_inner(),
            buf,
            r,
        ),
{
}

/// Pass-through fidelity for buffered reading: the buffer the adapter
/// exposes, and what consuming from it does, are exactly the wrapped
/// value's.
pub proof fn lemma_to_std_fill_buf_pass_through<T: crate::BufRead>(
    pre: ToStd<T>,
    post: ToStd<T>,
    r: Result<Seq<u8>, Error>,
)
    ensures
        ToStd::<T>::fill_buf_ens(pre, post, r) == T::fill_buf_ens(
            pre.spec_inner(),
            post.spec_inner(),
            r,
        ),
{
}

} // verus!
