//! What it means for a type to have a wire format, and the fixed-width
//! scalars that every other format is built from.

use vstd::prelude::*;
use crate::buffer::{
    be16,
    be32,
    de16,
    de32,
    lemma_be_len,
    lemma_de16_be16,
    lemma_de32_be32,
    Reader,
    Writer,
};
use crate::error::{ReadError, WriteError};

verus! {

/// A type whose values have an exact size on the wire.
///
/// The contracts speak of a value through its `Model`: a mathematical value
/// that holds what the wire format carries and nothing else.
pub trait X11Size {
    /// What a value of this type stands for.
    type Model;

    /// What `self` stands for.
    spec fn model(&self) -> Self::Model;

    /// Whether the wire format can carry `m`.
    spec fn valid(m: Self::Model) -> bool;

    /// The bytes of `m` on the wire.
    spec fn wire(m: Self::Model) -> Seq<u8>;

    /// The number of bytes that `self` takes on the wire. Whatever value
    /// there is of this type, the wire format can carry it.
    fn x11_size(&self) -> (n: usize)
        ensures
            Self::valid(self.model()),
            n == Self::wire(self.model()).len(),
    ;
}

/// A type whose values can be written to a byte sink.
pub trait Writable: X11Size {
    /// Appends the bytes of `self` to `w`. This fails only when they do not
    /// fit under the limit of `w`.
    fn write_to(&self, w: &mut Writer) -> (res: Result<(), WriteError>)
        ensures
            old(w).appends(final(w), res, Self::wire(self.model())),
    ;
}

/// A type whose values can be read from a byte source.
pub trait Readable: X11Size + Sized {
    /// What reading from `bytes` gives: the value read and the number of
    /// bytes consumed, or the error that stops the read.
    spec fn parse(bytes: Seq<u8>) -> Result<(Self::Model, nat), ReadError>;

    /// Reads one value off the front of `r`, consuming exactly its bytes.
    /// A read that fails may have consumed bytes, and has given none back.
    fn read_from(r: &mut Reader) -> (res: Result<Self, ReadError>)
        ensures
            old(r)@.len() <= usize::MAX,
            match Self::parse(old(r)@) {
                Ok((m, n)) => res is Ok && res->Ok_0.model() == m && final(r)@ == old(r)@.skip(
                    n as int,
                ),
                Err(e) => res is Err && res->Err_0 == e && final(r).rest_of(old(r)),
            },
    ;

    /// What is read is a value that the format can carry, and the bytes
    /// consumed are as many as that value takes on the wire.
    proof fn lemma_parse_sound(bytes: Seq<u8>)
        ensures
            Self::parse(bytes) matches Ok((m, n)) ==> Self::valid(m) && n == Self::wire(m).len()
                && n <= bytes.len(),
    ;

    /// Reading the bytes of a value gives that value back and consumes
    /// exactly those bytes, whatever follows them.
    proof fn lemma_round_trip(m: Self::Model, rest: Seq<u8>)
        requires
            Self::valid(m),
        ensures
            Self::parse(Self::wire(m) + rest) == Ok::<(Self::Model, nat), ReadError>(
                (m, Self::wire(m).len()),
            ),
    ;
}

/// The bytes of `value`, in a vector of their own. This fails only when
/// there are more of them than a sink can hold.
pub fn encode<T: Writable>(value: &T) -> (res: Result<Vec<u8>, WriteError>)
    ensures
        T::wire(value.model()).len() <= isize::MAX ==> res is Ok && res->Ok_0@ == T::wire(
            value.model(),
        ),
        T::wire(value.model()).len() > isize::MAX ==> res == Err::<Vec<u8>, WriteError>(
            WriteError::SinkExhausted,
        ),
{
    let mut w = Writer::new();
    match value.write_to(&mut w) {
        Ok(()) => {
            assert(Seq::<u8>::empty() + T::wire(value.model()) =~= T::wire(value.model()));
            Ok(w.into_vec())
        },
        Err(e) => Err(e),
    }
}

/// The value whose bytes open `bytes`. Bytes after those of the value are
/// left unread.
pub fn decode<T: Readable>(bytes: &[u8]) -> (res: Result<T, ReadError>)
    ensures
        match T::parse(bytes@) {
            Ok((m, _)) => res is Ok && res->Ok_0.model() == m,
            Err(e) => res is Err && res->Err_0 == e,
        },
{
    let mut r = Reader::new(bytes);
    T::read_from(&mut r)
}

/// Decoding the bytes that encode a value gives the value back, and a value
/// takes as many bytes on the wire as its encoding is long.
pub proof fn lemma_decode_encode<T: Readable>(m: T::Model)
    requires
        T::valid(m),
    ensures
        T::parse(T::wire(m)) == Ok::<(T::Model, nat), ReadError>((m, T::wire(m).len())),
{
    T::lemma_round_trip(m, Seq::empty());
    assert(T::wire(m) + Seq::<u8>::empty() =~= T::wire(m));
}

/// Bytes can be grouped either way when they are put in a row.
pub proof fn lemma_concat_assoc(a: Seq<u8>, b: Seq<u8>, c: Seq<u8>)
    ensures
        (a + b) + c == a + (b + c),
{
    assert((a + b) + c =~= a + (b + c));
}

/// Skipping twice is skipping the sum.
pub proof fn lemma_skip_skip(s: Seq<u8>, i: nat, j: nat)
    requires
        i + j <= s.len(),
    ensures
        s.skip(i as int).skip(j as int) == s.skip((i + j) as int),
{
    assert(s.skip(i as int).skip(j as int) =~= s.skip((i + j) as int));
}

/// The bit pattern of a signed 8-bit integer in two's complement.
pub open spec fn bits8(v: i8) -> u8 {
    if v >= 0 {
        v as u8
    } else {
        (v + 0x100) as u8
    }
}

/// The signed 8-bit integer with the bit pattern `b` in two's complement.
pub open spec fn signed8(b: u8) -> i8 {
    if b < 0x80 {
        b as i8
    } else {
        (b - 0x100) as i8
    }
}

/// The bit pattern of a signed 16-bit integer in two's complement.
pub open spec fn bits16(v: i16) -> u16 {
    if v >= 0 {
        v as u16
    } else {
        (v + 0x1_0000) as u16
    }
}

/// The signed 16-bit integer with the bit pattern `b` in two's complement.
pub open spec fn signed16(b: u16) -> i16 {
    if b < 0x8000 {
        b as i16
    } else {
        (b - 0x1_0000) as i16
    }
}

/// The bit pattern of a signed 32-bit integer in two's complement.
pub open spec fn bits32(v: i32) -> u32 {
    if v >= 0 {
        v as u32
    } else {
        (v + 0x1_0000_0000) as u32
    }
}

/// The signed 32-bit integer with the bit pattern `b` in two's complement.
pub open spec fn signed32(b: u32) -> i32 {
    if b < 0x8000_0000 {
        b as i32
    } else {
        (b - 0x1_0000_0000) as i32
    }
}

/// Computes [`bits8`].
pub fn i8_bits(v: i8) -> (b: u8)
    ensures
        b == bits8(v),
{
    if v >= 0 {
        v as u8
    } else {
        (v as i16 + 0x100) as u8
    }
}

/// Computes [`signed8`].
pub fn i8_from_bits(b: u8) -> (v: i8)
    ensures
        v == signed8(b),
{
    if b < 0x80 {
        b as i8
    } else {
        (b as i16 - 0x100) as i8
    }
}

/// Computes [`bits16`].
pub fn i16_bits(v: i16) -> (b: u16)
    ensures
        b == bits16(v),
{
    if v >= 0 {
        v as u16
    } else {
        (v as i32 + 0x1_0000) as u16
    }
}

/// Computes [`signed16`].
pub fn i16_from_bits(b: u16) -> (v: i16)
    ensures
        v == signed16(b),
{
    if b < 0x8000 {
        b as i16
    } else {
        (b as i32 - 0x1_0000) as i16
    }
}

/// Computes [`bits32`].
pub fn i32_bits(v: i32) -> (b: u32)
    ensures
        b == bits32(v),
{
    if v >= 0 {
        v as u32
    } else {
        (v as i64 + 0x1_0000_0000) as u32
    }
}

/// Computes [`signed32`].
pub fn i32_from_bits(b: u32) -> (v: i32)
    ensures
        v == signed32(b),
{
    if b < 0x8000_0000 {
        b as i32
    } else {
        (b as i64 - 0x1_0000_0000) as i32
    }
}

impl X11Size for u8 {
    type Model = u8;

    open spec fn model(&self) -> u8 {
        *self
    }

    open spec fn valid(m: u8) -> bool {
        true
    }

    open spec fn wire(m: u8) -> Seq<u8> {
        seq![m]
    }


    fn x11_size(&self) -> (n: usize) {
        1
    }
}

impl Writable for u8 {
    fn write_to(&self, w: &mut Writer) -> (res: Result<(), WriteError>) {
        w.write_u8(*self)
    }
}

impl Readable for u8 {
    open spec fn parse(bytes: Seq<u8>) -> Result<(u8, nat), ReadError> {
        if bytes.len() >= 1 {
            Ok((bytes[0], 1))
        } else {
            Err(ReadError::BufferUnderrun)
        }
    }

    fn read_from(r: &mut Reader) -> (res: Result<u8, ReadError>)
        ensures
            res is Err ==> final(r)@ == old(r)@,
    {
        r.read_u8()
    }

    proof fn lemma_parse_sound(bytes: Seq<u8>) {
    }

    proof fn lemma_round_trip(m: u8, rest: Seq<u8>) {
    }
}

impl X11Size for u16 {
    type Model = u16;

    open spec fn model(&self) -> u16 {
        *self
    }

    open spec fn valid(m: u16) -> bool {
        true
    }

    open spec fn wire(m: u16) -> Seq<u8> {
        be16(m)
    }


    fn x11_size(&self) -> (n: usize) {
        proof {
            lemma_be_len();
        }
        2
    }
}

impl Writable for u16 {
    fn write_to(&self, w: &mut Writer) -> (res: Result<(), WriteError>) {
        w.write_u16(*self)
    }
}

impl Readable for u16 {
    open spec fn parse(bytes: Seq<u8>) -> Result<(u16, nat), ReadError> {
        if bytes.len() >= 2 {
            Ok((de16(bytes), 2))
        } else {
            Err(ReadError::BufferUnderrun)
        }
    }

    fn read_from(r: &mut Reader) -> (res: Result<u16, ReadError>)
        ensures
            res is Err ==> final(r)@ == old(r)@,
    {
        r.read_u16()
    }

    proof fn lemma_parse_sound(bytes: Seq<u8>) {
        lemma_be_len();
    }

    proof fn lemma_round_trip(m: u16, rest: Seq<u8>) {
        lemma_be_len();
        lemma_de16_be16(m, rest);
    }
}

impl X11Size for u32 {
    type Model = u32;

    open spec fn model(&self) -> u32 {
        *self
    }

    open spec fn valid(m: u32) -> bool {
        true
    }

    open spec fn wire(m: u32) -> Seq<u8> {
        be32(m)
    }


    fn x11_size(&self) -> (n: usize) {
        proof {
            lemma_be_len();
        }
        4
    }
}

impl Writable for u32 {
    fn write_to(&self, w: &mut Writer) -> (res: Result<(), WriteError>) {
        w.write_u32(*self)
    }
}

impl Readable for u32 {
    open spec fn parse(bytes: Seq<u8>) -> Result<(u32, nat), ReadError> {
        if bytes.len() >= 4 {
            Ok((de32(bytes), 4))
        } else {
            Err(ReadError::BufferUnderrun)
        }
    }

    fn read_from(r: &mut Reader) -> (res: Result<u32, ReadError>)
        ensures
            res is Err ==> final(r)@ == old(r)@,
    {
        r.read_u32()
    }

    proof fn lemma_parse_sound(bytes: Seq<u8>) {
        lemma_be_len();
    }

    proof fn lemma_round_trip(m: u32, rest: Seq<u8>) {
        lemma_be_len();
        lemma_de32_be32(m, rest);
    }
}

impl X11Size for i8 {
    type Model = i8;

    open spec fn model(&self) -> i8 {
        *self
    }

    open spec fn valid(m: i8) -> bool {
        true
    }

    open spec fn wire(m: i8) -> Seq<u8> {
        seq![bits8(m)]
    }


    fn x11_size(&self) -> (n: usize) {
        1
    }
}

impl Writable for i8 {
    fn write_to(&self, w: &mut Writer) -> (res: Result<(), WriteError>) {
        w.write_u8(i8_bits(*self))
    }
}

impl Readable for i8 {
    open spec fn parse(bytes: Seq<u8>) -> Result<(i8, nat), ReadError> {
        if bytes.len() >= 1 {
            Ok((signed8(bytes[0]), 1))
        } else {
            Err(ReadError::BufferUnderrun)
        }
    }

    fn read_from(r: &mut Reader) -> (res: Result<i8, ReadError>)
        ensures
            res is Err ==> final(r)@ == old(r)@,
    {
        match r.read_u8() {
            Ok(b) => Ok(i8_from_bits(b)),
            Err(e) => Err(e),
        }
    }

    proof fn lemma_parse_sound(bytes: Seq<u8>) {
    }

    proof fn lemma_round_trip(m: i8, rest: Seq<u8>) {
    }
}

impl X11Size for i16 {
    type Model = i16;

    open spec fn model(&self) -> i16 {
        *self
    }

    open spec fn valid(m: i16) -> bool {
        true
    }

    open spec fn wire(m: i16) -> Seq<u8> {
        be16(bits16(m))
    }


    fn x11_size(&self) -> (n: usize) {
        proof {
            lemma_be_len();
        }
        2
    }
}

impl Writable for i16 {
    fn write_to(&self, w: &mut Writer) -> (res: Result<(), WriteError>) {
        w.write_u16(i16_bits(*self))
    }
}

impl Readable for i16 {
    open spec fn parse(bytes: Seq<u8>) -> Result<(i16, nat), ReadError> {
        if bytes.len() >= 2 {
            Ok((signed16(de16(bytes)), 2))
        } else {
            Err(ReadError::BufferUnderrun)
        }
    }

    fn read_from(r: &mut Reader) -> (res: Result<i16, ReadError>)
        ensures
            res is Err ==> final(r)@ == old(r)@,
    {
        match r.read_u16() {
            Ok(b) => Ok(i16_from_bits(b)),
            Err(e) => Err(e),
        }
    }

    proof fn lemma_parse_sound(bytes: Seq<u8>) {
        lemma_be_len();
    }

    proof fn lemma_round_trip(m: i16, rest: Seq<u8>) {
        lemma_be_len();
        lemma_de16_be16(bits16(m), rest);
    }
}

impl X11Size for i32 {
    type Model = i32;

    open spec fn model(&self) -> i32 {
        *self
    }

    open spec fn valid(m: i32) -> bool {
        true
    }

    open spec fn wire(m: i32) -> Seq<u8> {
        be32(bits32(m))
    }


    fn x11_size(&self) -> (n: usize) {
        proof {
            lemma_be_len();
        }
        4
    }
}

impl Writable for i32 {
    fn write_to(&self, w: &mut Writer) -> (res: Result<(), WriteError>) {
        w.write_u32(i32_bits(*self))
    }
}

impl Readable for i32 {
    open spec fn parse(bytes: Seq<u8>) -> Result<(i32, nat), ReadError> {
        if bytes.len() >= 4 {
            Ok((signed32(de32(bytes)), 4))
        } else {
            Err(ReadError::BufferUnderrun)
        }
    }

    fn read_from(r: &mut Reader) -> (res: Result<i32, ReadError>)
        ensures
            res is Err ==> final(r)@ == old(r)@,
    {
        match r.read_u32() {
            Ok(b) => Ok(i32_from_bits(b)),
            Err(e) => Err(e),
        }
    }

    proof fn lemma_parse_sound(bytes: Seq<u8>) {
        lemma_be_len();
    }

    proof fn lemma_round_trip(m: i32, rest: Seq<u8>) {
        lemma_be_len();
        lemma_de32_be32(bits32(m), rest);
    }
}

impl X11Size for bool {
    type Model = bool;

    open spec fn model(&self) -> bool {
        *self
    }

    open spec fn valid(m: bool) -> bool {
        true
    }

    /// One byte: 1 for `true`, 0 for `false`.
    open spec fn wire(m: bool) -> Seq<u8> {
        seq![if m { 1u8 } else { 0u8 }]
    }


    fn x11_size(&self) -> (n: usize) {
        1
    }
}

impl Writable for bool {
    fn write_to(&self, w: &mut Writer) -> (res: Result<(), WriteError>) {
        w.write_u8(if *self { 1 } else { 0 })
    }
}

impl Readable for bool {
    /// Any byte but 0 reads as `true`.
    open spec fn parse(bytes: Seq<u8>) -> Result<(bool, nat), ReadError> {
        if bytes.len() >= 1 {
            Ok((bytes[0] != 0, 1))
        } else {
            Err(ReadError::BufferUnderrun)
        }
    }

    fn read_from(r: &mut Reader) -> (res: Result<bool, ReadError>)
        ensures
            res is Err ==> final(r)@ == old(r)@,
    {
        match r.read_u8() {
            Ok(b) => Ok(b != 0),
            Err(e) => Err(e),
        }
    }

    proof fn lemma_parse_sound(bytes: Seq<u8>) {
    }

    proof fn lemma_round_trip(m: bool, rest: Seq<u8>) {
    }
}

} // verus!
