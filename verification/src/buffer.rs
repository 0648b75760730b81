//! Forward-only cursors over bytes: a growable sink to write to and a finite
//! source to read from.
//!
//! Both are backed by the `bytes` crate. What that crate does is not proved
//! here: each call into it goes through one small function in this module
//! whose contract is taken on trust, and everything else is proved from those
//! contracts. Multi-byte integers are big-endian throughout.

use vstd::prelude::*;
use crate::error::{ReadError, WriteError};

verus! {

/// `bytes::BytesMut`, a buffer of bytes that grows. Nothing is known of what
/// a value of it holds but what [`written`] says.
#[verifier::external_type_specification]
#[verifier::external_body]
pub struct ExBytesMut(bytes::BytesMut);

/// `bytes::Bytes`, a buffer of bytes that is read from its front. Nothing is
/// known of what a value of it holds but what [`unread`] says.
#[verifier::external_type_specification]
#[verifier::external_body]
pub struct ExBytes(bytes::Bytes);

/// The bytes that a `bytes::BytesMut` holds, in the order they were written.
pub uninterp spec fn written(buf: bytes::BytesMut) -> Seq<u8>;

/// The bytes that a `bytes::Bytes` has yet to hand out, the next one first.
pub uninterp spec fn unread(buf: bytes::Bytes) -> Seq<u8>;

/// The two bytes of a 16-bit integer, high byte first.
#[verifier::opaque]
pub open spec fn be16(v: u16) -> Seq<u8> {
    seq![(v / 0x100) as u8, (v % 0x100) as u8]
}

/// The four bytes of a 32-bit integer, high byte first.
#[verifier::opaque]
pub open spec fn be32(v: u32) -> Seq<u8> {
    seq![
        (v / 0x100_0000) as u8,
        ((v / 0x1_0000) % 0x100) as u8,
        ((v / 0x100) % 0x100) as u8,
        (v % 0x100) as u8,
    ]
}

/// The 16-bit integer whose big-endian bytes open `s`.
#[verifier::opaque]
pub open spec fn de16(s: Seq<u8>) -> u16
    recommends
        s.len() >= 2,
{
    (s[0] * 0x100 + s[1]) as u16
}

/// The 32-bit integer whose big-endian bytes open `s`.
#[verifier::opaque]
pub open spec fn de32(s: Seq<u8>) -> u32
    recommends
        s.len() >= 4,
{
    (s[0] * 0x100_0000 + s[1] * 0x1_0000 + s[2] * 0x100 + s[3]) as u32
}

/// `n` copies of the byte `fill`.
pub open spec fn run(fill: u8, n: nat) -> Seq<u8> {
    Seq::new(n, |i: int| fill)
}

/// A 16-bit integer takes two bytes and a 32-bit integer four.
pub proof fn lemma_be_len()
    ensures
        forall|v: u16| #[trigger] be16(v).len() == 2,
        forall|v: u32| #[trigger] be32(v).len() == 4,
{
    reveal(be16);
    reveal(be32);
}

/// Reading back the bytes of a 16-bit integer gives the integer, whatever
/// follows them.
pub proof fn lemma_de16_be16(v: u16, rest: Seq<u8>)
    ensures
        de16(be16(v) + rest) == v,
{
    reveal(be16);
    reveal(de16);
}

/// Reading back the bytes of a 32-bit integer gives the integer, whatever
/// follows them.
pub proof fn lemma_de32_be32(v: u32, rest: Seq<u8>)
    ensures
        de32(be32(v) + rest) == v,
{
    reveal(be32);
    reveal(de32);
}

/// `bytes::BytesMut::new`: a buffer that holds no bytes.
#[verifier::external_body]
fn sink_new() -> (buf: bytes::BytesMut)
    ensures
        written(buf) == Seq::<u8>::empty(),
{
    bytes::BytesMut::new()
}

/// `bytes::BytesMut::len`: the number of bytes that the buffer holds.
#[verifier::external_body]
fn sink_len(buf: &bytes::BytesMut) -> (n: usize)
    ensures
        n == written(*buf).len(),
{
    buf.len()
}

/// `bytes::BufMut::put_u8` on a `BytesMut`: appends the byte. The buffer
/// grows as needed; growth past `isize::MAX` bytes panics and is left out.
#[verifier::external_body]
fn sink_put_u8(buf: &mut bytes::BytesMut, n: u8)
    requires
        written(*old(buf)).len() + 1 <= isize::MAX,
    ensures
        written(*final(buf)) == written(*old(buf)).push(n),
{
    bytes::BufMut::put_u8(buf, n)
}

/// `bytes::BufMut::put_u16` on a `BytesMut`: appends the two bytes of `n` in
/// big-endian order. Growth past `isize::MAX` bytes panics and is left out.
#[verifier::external_body]
fn sink_put_u16(buf: &mut bytes::BytesMut, n: u16)
    requires
        written(*old(buf)).len() + 2 <= isize::MAX,
    ensures
        written(*final(buf)) == written(*old(buf)) + be16(n),
{
    bytes::BufMut::put_u16(buf, n)
}

/// `bytes::BufMut::put_u32` on a `BytesMut`: appends the four bytes of `n` in
/// big-endian order. Growth past `isize::MAX` bytes panics and is left out.
#[verifier::external_body]
fn sink_put_u32(buf: &mut bytes::BytesMut, n: u32)
    requires
        written(*old(buf)).len() + 4 <= isize::MAX,
    ensures
        written(*final(buf)) == written(*old(buf)) + be32(n),
{
    bytes::BufMut::put_u32(buf, n)
}

/// `bytes::BufMut::put_bytes` on a `BytesMut`: appends `cnt` copies of `val`.
/// Growth past `isize::MAX` bytes panics and is left out.
#[verifier::external_body]
fn sink_put_bytes(buf: &mut bytes::BytesMut, val: u8, cnt: usize)
    requires
        written(*old(buf)).len() + cnt <= isize::MAX,
    ensures
        written(*final(buf)) == written(*old(buf)) + run(val, cnt as nat),
{
    bytes::BufMut::put_bytes(buf, val, cnt)
}

/// `bytes::BufMut::put_slice` on a `BytesMut`: appends the bytes of `src` in
/// order. Growth past `isize::MAX` bytes panics and is left out.
#[verifier::external_body]
fn sink_put_slice(buf: &mut bytes::BytesMut, src: &[u8])
    requires
        written(*old(buf)).len() + src@.len() <= isize::MAX,
    ensures
        written(*final(buf)) == written(*old(buf)) + src@,
{
    bytes::BufMut::put_slice(buf, src)
}

/// `Vec::<u8>::from` on a `BytesMut`: the bytes that the buffer holds.
#[verifier::external_body]
fn sink_into_vec(buf: bytes::BytesMut) -> (v: Vec<u8>)
    ensures
        v@ == written(buf),
{
    Vec::from(buf)
}

/// `bytes::Bytes::copy_from_slice`: a buffer whose unread bytes are a copy of
/// `data`.
#[verifier::external_body]
fn source_from_slice(data: &[u8]) -> (buf: bytes::Bytes)
    ensures
        unread(buf) == data@,
{
    bytes::Bytes::copy_from_slice(data)
}

/// `bytes::Buf::remaining` on a `Bytes`: the number of unread bytes.
#[verifier::external_body]
fn source_remaining(buf: &bytes::Bytes) -> (n: usize)
    ensures
        n == unread(*buf).len(),
{
    bytes::Buf::remaining(buf)
}

/// `bytes::Buf::get_u8` on a `Bytes`: hands out the next byte. It panics on
/// an empty buffer, which is left out.
#[verifier::external_body]
fn source_get_u8(buf: &mut bytes::Bytes) -> (v: u8)
    requires
        unread(*old(buf)).len() >= 1,
    ensures
        v == unread(*old(buf))[0],
        unread(*final(buf)) == unread(*old(buf)).skip(1),
{
    bytes::Buf::get_u8(buf)
}

/// `bytes::Buf::get_u16` on a `Bytes`: hands out the next two bytes as a
/// big-endian integer. It panics on fewer than two bytes, which is left out.
#[verifier::external_body]
fn source_get_u16(buf: &mut bytes::Bytes) -> (v: u16)
    requires
        unread(*old(buf)).len() >= 2,
    ensures
        v == de16(unread(*old(buf))),
        unread(*final(buf)) == unread(*old(buf)).skip(2),
{
    bytes::Buf::get_u16(buf)
}

/// `bytes::Buf::get_u32` on a `Bytes`: hands out the next four bytes as a
/// big-endian integer. It panics on fewer than four bytes, which is left out.
#[verifier::external_body]
fn source_get_u32(buf: &mut bytes::Bytes) -> (v: u32)
    requires
        unread(*old(buf)).len() >= 4,
    ensures
        v == de32(unread(*old(buf))),
        unread(*final(buf)) == unread(*old(buf)).skip(4),
{
    bytes::Buf::get_u32(buf)
}

/// `bytes::Buf::advance` on a `Bytes`: drops the next `cnt` bytes. It panics
/// when fewer are left, which is left out.
#[verifier::external_body]
fn source_advance(buf: &mut bytes::Bytes, cnt: usize)
    requires
        cnt <= unread(*old(buf)).len(),
    ensures
        unread(*final(buf)) == unread(*old(buf)).skip(cnt as int),
{
    bytes::Buf::advance(buf, cnt)
}

/// `bytes::Bytes::split_to`, then `Vec::<u8>::from`: hands out the next `cnt`
/// bytes. It panics when fewer are left, which is left out.
#[verifier::external_body]
fn source_take(buf: &mut bytes::Bytes, cnt: usize) -> (v: Vec<u8>)
    requires
        cnt <= unread(*old(buf)).len(),
    ensures
        v@ == unread(*old(buf)).take(cnt as int),
        unread(*final(buf)) == unread(*old(buf)).skip(cnt as int),
{
    Vec::from(buf.split_to(cnt))
}

/// Whether `all` opens with `start`: bytes were appended to `start`, or none
/// were.
pub open spec fn is_start(start: Seq<u8>, all: Seq<u8>) -> bool {
    start == all || (start.len() < all.len() && all.take(start.len() as int) == start)
}

/// A growable byte sink. Bytes are only ever appended.
///
/// A sink has a limit on the number of bytes it will hold. A write that
/// would pass the limit fails and appends nothing.
pub struct Writer {
    buf: bytes::BytesMut,
    limit: usize,
}

impl View for Writer {
    type V = Seq<u8>;

    /// The bytes written so far.
    closed spec fn view(&self) -> Seq<u8> {
        written(self.buf)
    }
}

impl Writer {
    /// The most bytes this sink will hold: never more than `isize::MAX`, and
    /// never fewer than it holds.
    pub closed spec fn limit(&self) -> nat {
        let most = if self.limit <= isize::MAX {
            self.limit as nat
        } else {
            isize::MAX as nat
        };
        if written(self.buf).len() <= most {
            most
        } else {
            written(self.buf).len()
        }
    }

    /// A sink never holds more than its limit.
    pub proof fn lemma_within_limit(&self)
        ensures
            self@.len() <= self.limit(),
    {
    }

    /// Whether `res` and `after` are what appending `bytes` to `self` gives:
    /// the bytes are appended if they fit under the limit, and otherwise the
    /// write fails as `SinkExhausted`. A write that fails may have appended
    /// some of the bytes, and has changed none that were there.
    pub open spec fn appends(
        &self,
        after: &Writer,
        res: Result<(), WriteError>,
        bytes: Seq<u8>,
    ) -> bool {
        &&& after.limit() == self.limit()
        &&& self@.len() + bytes.len() <= self.limit() ==> res is Ok && after@ == self@ + bytes
        &&& self@.len() + bytes.len() > self.limit() ==> res == Err::<(), WriteError>(
            WriteError::SinkExhausted,
        ) && is_start(self@, after@)
    }

    /// Two writes in a row append the bytes of the first and then those of
    /// the second, and fail if the second fails.
    pub proof fn lemma_appends_then(
        &self,
        mid: &Writer,
        after: &Writer,
        res: Result<(), WriteError>,
        first: Seq<u8>,
        second: Seq<u8>,
    )
        requires
            self.appends(mid, Ok(()), first),
            mid.appends(after, res, second),
        ensures
            self.appends(after, res, first + second),
    {
        assert((self@ + first) + second =~= self@ + (first + second));
        if res is Err {
            assert(after@.take(self@.len() as int) =~= mid@.take(self@.len() as int));
            assert(mid@.take(self@.len() as int) =~= self@);
            if first.len() == 0 {
                assert(mid@ =~= self@);
            }
        }
    }

    /// An empty sink with the largest limit: `isize::MAX` bytes.
    pub fn new() -> (w: Writer)
        ensures
            w@ == Seq::<u8>::empty(),
            w.limit() == isize::MAX,
    {
        Writer { buf: sink_new(), limit: isize::MAX as usize }
    }

    /// An empty sink that holds at most `limit` bytes (at most `isize::MAX`).
    pub fn with_limit(limit: usize) -> (w: Writer)
        ensures
            w@ == Seq::<u8>::empty(),
            w.limit() == if limit <= isize::MAX { limit as int } else { isize::MAX as int },
    {
        Writer { buf: sink_new(), limit }
    }

    /// Whether `n` more bytes fit under the limit.
    pub fn fits(&self, n: usize) -> (b: bool)
        ensures
            b == (self@.len() + n <= self.limit()),
    {
        let most = if self.limit <= isize::MAX as usize {
            self.limit
        } else {
            isize::MAX as usize
        };
        let held = sink_len(&self.buf);
        if held <= most {
            n <= most - held
        } else {
            n == 0
        }
    }

    /// Appends one byte.
    pub fn write_u8(&mut self, v: u8) -> (res: Result<(), WriteError>)
        ensures
            old(self).appends(final(self), res, seq![v]),
            res is Err ==> final(self)@ == old(self)@,
    {
        if !self.fits(1) {
            return Err(WriteError::SinkExhausted);
        }
        sink_put_u8(&mut self.buf, v);
        assert(self@ =~= old(self)@ + seq![v]);
        Ok(())
    }

    /// Appends a 16-bit integer, high byte first.
    pub fn write_u16(&mut self, v: u16) -> (res: Result<(), WriteError>)
        ensures
            old(self).appends(final(self), res, be16(v)),
            res is Err ==> final(self)@ == old(self)@,
    {
        proof {
            lemma_be_len();
        }
        if !self.fits(2) {
            return Err(WriteError::SinkExhausted);
        }
        sink_put_u16(&mut self.buf, v);
        Ok(())
    }

    /// Appends a 32-bit integer, high byte first.
    pub fn write_u32(&mut self, v: u32) -> (res: Result<(), WriteError>)
        ensures
            old(self).appends(final(self), res, be32(v)),
            res is Err ==> final(self)@ == old(self)@,
    {
        proof {
            lemma_be_len();
        }
        if !self.fits(4) {
            return Err(WriteError::SinkExhausted);
        }
        sink_put_u32(&mut self.buf, v);
        Ok(())
    }

    /// Appends `n` copies of the byte `fill`.
    pub fn write_bytes(&mut self, n: usize, fill: u8) -> (res: Result<(), WriteError>)
        ensures
            old(self).appends(final(self), res, run(fill, n as nat)),
            res is Err ==> final(self)@ == old(self)@,
    {
        if !self.fits(n) {
            return Err(WriteError::SinkExhausted);
        }
        if n > 0 {
            sink_put_bytes(&mut self.buf, fill, n);
        } else {
            assert(self@ + run(fill, 0) =~= self@);
        }
        Ok(())
    }

    /// Appends the bytes of `src` as they stand.
    pub fn write_raw(&mut self, src: &[u8]) -> (res: Result<(), WriteError>)
        ensures
            old(self).appends(final(self), res, src@),
            res is Err ==> final(self)@ == old(self)@,
    {
        if !self.fits(src.len()) {
            return Err(WriteError::SinkExhausted);
        }
        if src.len() > 0 {
            sink_put_slice(&mut self.buf, src);
        } else {
            assert(self@ + src@ =~= self@);
        }
        Ok(())
    }

    /// The buffer that holds the bytes written.
    pub fn into_bytes(self) -> (buf: bytes::BytesMut)
        ensures
            written(buf) == self@,
    {
        self.buf
    }

    /// The bytes written, as a vector.
    pub fn into_vec(self) -> (v: Vec<u8>)
        ensures
            v@ == self@,
    {
        sink_into_vec(self.buf)
    }
}

/// Whether `rest` is what is left of `all` once some of its bytes, or none,
/// were taken off its front.
pub open spec fn is_rest(rest: Seq<u8>, all: Seq<u8>) -> bool {
    rest == all || (rest.len() < all.len() && rest == all.skip(all.len() - rest.len()))
}

/// What is left of the bytes after the first `n` is left of the bytes.
pub proof fn lemma_rest_of_skip(rest: Seq<u8>, all: Seq<u8>, n: nat)
    requires
        n <= all.len(),
        is_rest(rest, all.skip(n as int)),
    ensures
        is_rest(rest, all),
{
    let mid = all.skip(n as int);
    if rest == mid {
        if n == 0 {
            assert(all.skip(0) =~= all);
        }
    } else {
        assert(mid.skip(mid.len() - rest.len()) =~= all.skip(all.len() - rest.len()));
    }
}

/// A finite byte source. Bytes are only ever consumed from its front.
pub struct Reader {
    buf: bytes::Bytes,
}

impl View for Reader {
    type V = Seq<u8>;

    /// The bytes not yet read, the next one first.
    closed spec fn view(&self) -> Seq<u8> {
        unread(self.buf)
    }
}

impl Reader {
    /// Whether `self` is what is left of `before` once some of its bytes,
    /// or none, were read off its front. A source is only ever read
    /// forward.
    pub open spec fn rest_of(&self, before: &Reader) -> bool {
        is_rest(self@, before@)
    }

    /// Whether `res` and `after` are what taking `n` bytes off the front of
    /// `self` gives: with `n` bytes or more left the read yields `value` and
    /// consumes exactly those bytes, and otherwise it fails as
    /// `BufferUnderrun` and consumes nothing. The bytes left can be counted
    /// in a `usize`.
    pub open spec fn takes<T>(
        &self,
        after: &Reader,
        res: Result<T, ReadError>,
        n: nat,
        value: T,
    ) -> bool {
        &&& self@.len() <= usize::MAX
        &&& self@.len() >= n ==> res == Ok::<T, ReadError>(value) && after@ == self@.skip(n as int)
        &&& self@.len() < n ==> res == Err::<T, ReadError>(ReadError::BufferUnderrun) && after@
            == self@
    }

    /// A source that yields a copy of the bytes of `data`.
    pub fn new(data: &[u8]) -> (r: Reader)
        ensures
            r@ == data@,
    {
        Reader { buf: source_from_slice(data) }
    }

    /// A source that yields the unread bytes of `buf`.
    pub fn from_bytes(buf: bytes::Bytes) -> (r: Reader)
        ensures
            r@ == unread(buf),
    {
        Reader { buf }
    }

    /// The buffer that holds the bytes not yet read.
    pub fn into_bytes(self) -> (buf: bytes::Bytes)
        ensures
            unread(buf) == self@,
    {
        self.buf
    }

    /// The number of bytes not yet read.
    pub fn remaining(&self) -> (n: usize)
        ensures
            n == self@.len(),
    {
        source_remaining(&self.buf)
    }

    /// Reads one byte.
    pub fn read_u8(&mut self) -> (res: Result<u8, ReadError>)
        ensures
            old(self).takes(final(self), res, 1, old(self)@[0]),
    {
        if self.remaining() < 1 {
            return Err(ReadError::BufferUnderrun);
        }
        Ok(source_get_u8(&mut self.buf))
    }

    /// Reads a 16-bit integer, high byte first.
    pub fn read_u16(&mut self) -> (res: Result<u16, ReadError>)
        ensures
            old(self).takes(final(self), res, 2, de16(old(self)@)),
    {
        if self.remaining() < 2 {
            return Err(ReadError::BufferUnderrun);
        }
        Ok(source_get_u16(&mut self.buf))
    }

    /// Reads a 32-bit integer, high byte first.
    pub fn read_u32(&mut self) -> (res: Result<u32, ReadError>)
        ensures
            old(self).takes(final(self), res, 4, de32(old(self)@)),
    {
        if self.remaining() < 4 {
            return Err(ReadError::BufferUnderrun);
        }
        Ok(source_get_u32(&mut self.buf))
    }

    /// Skips `n` bytes without looking at them.
    pub fn advance(&mut self, n: usize) -> (res: Result<(), ReadError>)
        ensures
            old(self).takes(final(self), res, n as nat, ()),
    {
        if self.remaining() < n {
            return Err(ReadError::BufferUnderrun);
        }
        source_advance(&mut self.buf, n);
        Ok(())
    }

    /// Reads the next `n` bytes as they stand.
    pub fn read_raw(&mut self, n: usize) -> (res: Result<Vec<u8>, ReadError>)
        ensures
            old(self)@.len() <= usize::MAX,
            old(self)@.len() >= n ==> res is Ok && res->Ok_0@ == old(self)@.take(n as int)
                && final(self)@ == old(self)@.skip(n as int),
            old(self)@.len() < n ==> res == Err::<Vec<u8>, ReadError>(ReadError::BufferUnderrun)
                && final(self)@ == old(self)@,
    {
        if self.remaining() < n {
            return Err(ReadError::BufferUnderrun);
        }
        Ok(source_take(&mut self.buf, n))
    }
}

} // verus!
