//! The four shapes of a definition and the header that each puts before its
//! items.
//!
//! A request starts with its opcode, one byte that carries a field or a
//! minor opcode (the metabyte), and its length in units of four bytes. A
//! reply starts with a one, the metabyte, a sequence number, and the number
//! of four-byte units by which it is longer than 32 bytes. An event starts
//! with its code and then, if it carries a sequence number, the metabyte and
//! that number. A plain record has no header.

use vstd::prelude::*;
use crate::buffer::{
    be16,
    be32,
    de16,
    de32,
    lemma_be_len,
    lemma_de16_be16,
    lemma_de32_be32,
    Reader,
    Writer,
};
use crate::error::{ReadError, WriteError};
use crate::wire::lemma_skip_skip;

verus! {

/// The first byte of every reply.
pub const REPLY: u8 = 1;

/// The least length of a reply, and the length of every event.
pub const LEAST_LENGTH: usize = 32;

/// What tells a plain record apart: nothing. It has no header.
#[derive(Clone, Copy, Debug, PartialEq, Eq, Structural)]
pub struct BasicStructMetadata {}

/// What tells a request apart.
#[derive(Clone, Copy, Debug, PartialEq, Eq, Structural)]
pub struct Request {
    /// The major opcode: the first byte of the request.
    pub major_opcode: u8,
    /// The minor opcode, where the request is one of several of an
    /// extension that share a major opcode. It takes the place of the
    /// metabyte.
    pub minor_opcode: Option<u8>,
    /// The place of the definition of the reply to this request among the
    /// definitions it is defined with, if the request has a reply.
    pub reply: Option<usize>,
}

/// What tells a reply apart.
#[derive(Clone, Copy, Debug, PartialEq, Eq, Structural)]
pub struct Reply {
    /// Whether the sequence number stands in the header. If not, the one who
    /// writes or reads the reply supplies those two bytes.
    pub sequence: bool,
    /// The place of the definition of the request that this replies to among
    /// the definitions it is defined with.
    pub request: usize,
}

/// What tells an event apart.
#[derive(Clone, Copy, Debug, PartialEq, Eq, Structural)]
pub struct Event {
    /// The code: the first byte of the event.
    pub code: u8,
    /// Whether the event carries a metabyte and a sequence number after its
    /// code.
    pub sequence: bool,
}

/// The header of a message as it was read.
#[derive(Clone, Copy, Debug, PartialEq, Eq, Structural)]
pub struct Header {
    /// The metabyte, or zero where the header has none.
    pub metabyte: u8,
    /// The sequence number, or zero where the header has none.
    pub sequence: u16,
    /// The number of bytes of the body that follows the header.
    pub body: usize,
}

impl Request {
    /// The byte that follows the opcode: the minor opcode if the request has
    /// one, and `meta`, the byte of the item marked for it, if not.
    pub open spec fn spec_metabyte(self, meta: u8) -> u8 {
        match self.minor_opcode {
            Some(minor) => minor,
            None => meta,
        }
    }

    /// The length that stands in the header of a request of `total` bytes:
    /// the number of four-byte units, the header counted in.
    pub open spec fn spec_length(total: nat) -> nat {
        total / 4
    }

    /// Whether a request can be `total` bytes long: a whole number of
    /// four-byte units that the length in the header can carry.
    pub open spec fn fits(total: nat) -> bool {
        total % 4 == 0 && 4 <= total <= 4 * 0xffff
    }

    /// The header of a request of `total` bytes.
    pub open spec fn header(self, meta: u8, total: nat) -> Seq<u8> {
        seq![self.major_opcode, self.spec_metabyte(meta)] + be16(Self::spec_length(total) as u16)
    }

    /// What reading the header of this request from `bytes` gives: the
    /// metabyte and the length of the body. A first byte that is not the
    /// opcode, or a second that is not the minor opcode, is an unrecognized
    /// discriminant. A length of zero units leaves no room for the header
    /// itself and is an underrun.
    pub open spec fn parse_header(self, bytes: Seq<u8>) -> Result<Header, ReadError> {
        if bytes.len() < 1 {
            Err(ReadError::BufferUnderrun)
        } else if bytes[0] != self.major_opcode {
            Err(ReadError::UnrecognizedDiscriminant(bytes[0] as usize))
        } else if bytes.len() < 2 {
            Err(ReadError::BufferUnderrun)
        } else if self.minor_opcode is Some && bytes[1] != self.minor_opcode->Some_0 {
            Err(ReadError::UnrecognizedDiscriminant(bytes[1] as usize))
        } else if bytes.len() < 4 {
            Err(ReadError::BufferUnderrun)
        } else if de16(bytes.skip(2)) == 0 {
            Err(ReadError::BufferUnderrun)
        } else {
            Ok(
                Header {
                    metabyte: bytes[1],
                    sequence: 0,
                    body: (4 * de16(bytes.skip(2)) - 4) as usize,
                },
            )
        }
    }

    /// The header of a request is read back from its bytes, whatever follows
    /// them: the metabyte it was written with, and the length of a body
    /// that, with the header, makes up the length it was written with.
    pub proof fn lemma_header_read(self, meta: u8, total: nat, after: Seq<u8>)
        requires
            Self::fits(total),
        ensures
            self.header(meta, total).len() == 4,
            self.parse_header(self.header(meta, total) + after) == Ok::<Header, ReadError>(
                Header {
                    metabyte: self.spec_metabyte(meta),
                    sequence: 0,
                    body: (total - 4) as usize,
                },
            ),
    {
        lemma_be_len();
        let length = be16(Self::spec_length(total) as u16);
        let bytes = self.header(meta, total) + after;
        assert(bytes.skip(2) =~= length + after);
        lemma_de16_be16(Self::spec_length(total) as u16, after);
    }

    /// The byte that follows the opcode.
    #[verifier::when_used_as_spec(spec_metabyte)]
    pub fn metabyte(self, meta: u8) -> (byte: u8)
        ensures
            byte == self.spec_metabyte(meta),
    {
        match self.minor_opcode {
            Some(minor) => minor,
            None => meta,
        }
    }

    /// The length that stands in the header of a request of `total` bytes.
    pub fn length(&self, total: usize) -> (length: u16)
        requires
            Self::fits(total as nat),
        ensures
            length == Self::spec_length(total as nat),
            4 * length == total,
    {
        (total / 4) as u16
    }

    /// Writes the header of a request of `total` bytes.
    pub fn write_header(&self, meta: u8, total: usize, w: &mut Writer) -> (res: Result<
        (),
        WriteError,
    >)
        requires
            Self::fits(total as nat),
        ensures
            old(w).appends(final(w), res, self.header(meta, total as nat)),
    {
        let ghost first = *w;
        let ghost opcode = seq![self.major_opcode];
        let ghost both = opcode + seq![self.spec_metabyte(meta)];
        match w.write_u8(self.major_opcode) {
            Ok(()) => {},
            Err(e) => {
                return Err(e);
            },
        }
        let ghost mid = *w;
        let second = w.write_u8(self.metabyte(meta));
        proof {
            first.lemma_appends_then(&mid, w, second, opcode, seq![self.spec_metabyte(meta)]);
            assert(both =~= seq![self.major_opcode, self.spec_metabyte(meta)]);
        }
        match second {
            Ok(()) => {},
            Err(e) => {
                return Err(e);
            },
        }
        let ghost mid = *w;
        let third = w.write_u16(self.length(total));
        proof {
            first.lemma_appends_then(
                &mid,
                w,
                third,
                both,
                be16(Self::spec_length(total as nat) as u16),
            );
        }
        third
    }

    /// Reads the header of this request.
    pub fn read_header(&self, r: &mut Reader) -> (res: Result<Header, ReadError>)
        ensures
            old(r)@.len() <= usize::MAX,
            match self.parse_header(old(r)@) {
                Ok(header) => res == Ok::<Header, ReadError>(header) && final(r)@ == old(r)@.skip(
                    4,
                ),
                Err(e) => res == Err::<Header, ReadError>(e) && final(r).rest_of(old(r)),
            },
    {
        let ghost bytes = r@;
        let opcode = match r.read_u8() {
            Ok(byte) => byte,
            Err(e) => {
                return Err(e);
            },
        };
        if opcode != self.major_opcode {
            return Err(ReadError::UnrecognizedDiscriminant(opcode as usize));
        }
        let metabyte = match r.read_u8() {
            Ok(byte) => byte,
            Err(e) => {
                return Err(e);
            },
        };
        proof {
            lemma_skip_skip(bytes, 1, 1);
        }
        match self.minor_opcode {
            Some(minor) => {
                if metabyte != minor {
                    return Err(ReadError::UnrecognizedDiscriminant(metabyte as usize));
                }
            },
            None => {},
        }
        let length = match r.read_u16() {
            Ok(length) => length,
            Err(e) => {
                return Err(e);
            },
        };
        proof {
            lemma_skip_skip(bytes, 2, 2);
        }
        if length == 0 {
            return Err(ReadError::BufferUnderrun);
        }
        Ok(Header { metabyte, sequence: 0, body: 4 * (length as usize) - 4 })
    }
}

impl Reply {
    /// The length that stands in the header of a reply of `total` bytes: the
    /// number of four-byte units beyond the least length of 32 bytes.
    pub open spec fn spec_length(total: nat) -> nat {
        ((total - 32) / 4) as nat
    }

    /// Whether a reply can be `total` bytes long: at least 32 bytes, a whole
    /// number of four-byte units, and no more than the length in the header
    /// can carry.
    pub open spec fn fits(total: nat) -> bool {
        total % 4 == 0 && 32 <= total <= 32 + 4 * 0xffff_ffff
    }

    /// The number of bytes of the header that are written and read here:
    /// eight, or six where the sequence number is supplied from outside.
    pub open spec fn header_len(self) -> nat {
        if self.sequence {
            8
        } else {
            6
        }
    }

    /// The header of a reply of `total` bytes.
    pub open spec fn header(self, meta: u8, sequence: u16, total: nat) -> Seq<u8> {
        seq![REPLY, meta] + (if self.sequence {
            be16(sequence)
        } else {
            Seq::empty()
        }) + be32(Self::spec_length(total) as u32)
    }

    /// What reading the header of a reply from `bytes` gives. A first byte
    /// that is not a one is an unrecognized discriminant. A length that no
    /// `usize` can hold is an underrun: so many bytes cannot follow.
    pub open spec fn parse_header(self, bytes: Seq<u8>) -> Result<Header, ReadError> {
        if bytes.len() < 1 {
            Err(ReadError::BufferUnderrun)
        } else if bytes[0] != REPLY {
            Err(ReadError::UnrecognizedDiscriminant(bytes[0] as usize))
        } else if bytes.len() < self.header_len() {
            Err(ReadError::BufferUnderrun)
        } else {
            let length = de32(bytes.skip(self.header_len() - 4));
            if 24 + 4 * length > usize::MAX {
                Err(ReadError::BufferUnderrun)
            } else {
                Ok(
                    Header {
                        metabyte: bytes[1],
                        sequence: if self.sequence {
                            de16(bytes.skip(2))
                        } else {
                            0
                        },
                        body: (24 + 4 * length) as usize,
                    },
                )
            }
        }
    }

    /// The header of a reply is read back from its bytes, whatever follows
    /// them: the metabyte and the sequence number it was written with, and
    /// the length of a body that, with the eight bytes of the header, makes
    /// up the length it was written with.
    pub proof fn lemma_header_read(self, meta: u8, sequence: u16, total: nat, after: Seq<u8>)
        requires
            Self::fits(total),
            total <= usize::MAX,
        ensures
            self.header(meta, sequence, total).len() == self.header_len(),
            self.parse_header(self.header(meta, sequence, total) + after) == Ok::<
                Header,
                ReadError,
            >(
                Header {
                    metabyte: meta,
                    sequence: if self.sequence {
                        sequence
                    } else {
                        0
                    },
                    body: (total - 8) as usize,
                },
            ),
    {
        lemma_be_len();
        let length = be32(Self::spec_length(total) as u32);
        let bytes = self.header(meta, sequence, total) + after;
        if self.sequence {
            assert(bytes.skip(2) =~= be16(sequence) + (length + after));
            lemma_de16_be16(sequence, length + after);
            assert(bytes.skip(4) =~= length + after);
        } else {
            assert(bytes.skip(2) =~= length + after);
        }
        lemma_de32_be32(Self::spec_length(total) as u32, after);
    }

    /// The length that stands in the header of a reply of `total` bytes.
    pub fn length(&self, total: usize) -> (length: u32)
        requires
            Self::fits(total as nat),
        ensures
            length == Self::spec_length(total as nat),
            32 + 4 * length == total,
    {
        ((total - 32) / 4) as u32
    }

    /// Writes the header of a reply of `total` bytes.
    pub fn write_header(&self, meta: u8, sequence: u16, total: usize, w: &mut Writer) -> (res:
        Result<(), WriteError>)
        requires
            Self::fits(total as nat),
        ensures
            old(w).appends(final(w), res, self.header(meta, sequence, total as nat)),
    {
        let ghost first = *w;
        let ghost one = seq![REPLY];
        let ghost two = one + seq![meta];
        let ghost number = if self.sequence {
            be16(sequence)
        } else {
            Seq::empty()
        };
        match w.write_u8(REPLY) {
            Ok(()) => {},
            Err(e) => {
                return Err(e);
            },
        }
        let ghost mid = *w;
        let second = w.write_u8(meta);
        proof {
            first.lemma_appends_then(&mid, w, second, one, seq![meta]);
            assert(two =~= seq![REPLY, meta]);
        }
        match second {
            Ok(()) => {},
            Err(e) => {
                return Err(e);
            },
        }
        let ghost mid = *w;
        let third = if self.sequence {
            w.write_u16(sequence)
        } else {
            proof {
                w.lemma_within_limit();
                assert(w@ + Seq::<u8>::empty() =~= w@);
            }
            Ok(())
        };
        proof {
            first.lemma_appends_then(&mid, w, third, two, number);
        }
        match third {
            Ok(()) => {},
            Err(e) => {
                return Err(e);
            },
        }
        let ghost mid = *w;
        let fourth = w.write_u32(self.length(total));
        proof {
            first.lemma_appends_then(
                &mid,
                w,
                fourth,
                two + number,
                be32(Self::spec_length(total as nat) as u32),
            );
        }
        fourth
    }

    /// Reads the header of a reply.
    pub fn read_header(&self, r: &mut Reader) -> (res: Result<Header, ReadError>)
        ensures
            old(r)@.len() <= usize::MAX,
            match self.parse_header(old(r)@) {
                Ok(header) => res == Ok::<Header, ReadError>(header) && final(r)@ == old(r)@.skip(
                    self.header_len() as int,
                ),
                Err(e) => res == Err::<Header, ReadError>(e) && final(r).rest_of(old(r)),
            },
    {
        let ghost bytes = r@;
        let first = match r.read_u8() {
            Ok(byte) => byte,
            Err(e) => {
                return Err(e);
            },
        };
        if first != REPLY {
            return Err(ReadError::UnrecognizedDiscriminant(first as usize));
        }
        if r.remaining() < (if self.sequence {
            7
        } else {
            5
        }) {
            return Err(ReadError::BufferUnderrun);
        }
        let metabyte = match r.read_u8() {
            Ok(byte) => byte,
            Err(e) => {
                return Err(e);
            },
        };
        proof {
            lemma_skip_skip(bytes, 1, 1);
        }
        let sequence = if self.sequence {
            let number = match r.read_u16() {
                Ok(number) => number,
                Err(e) => {
                    return Err(e);
                },
            };
            proof {
                lemma_skip_skip(bytes, 2, 2);
            }
            number
        } else {
            0
        };
        let length = match r.read_u32() {
            Ok(length) => length,
            Err(e) => {
                return Err(e);
            },
        };
        proof {
            lemma_skip_skip(bytes, (self.header_len() - 4) as nat, 4);
        }
        let body: u64 = 24 + 4 * (length as u64);
        if body > usize::MAX as u64 {
            return Err(ReadError::BufferUnderrun);
        }
        Ok(Header { metabyte, sequence, body: body as usize })
    }
}

impl Event {
    /// The number of bytes of the header: four with a sequence number, and
    /// one without.
    pub open spec fn header_len(self) -> nat {
        if self.sequence {
            4
        } else {
            1
        }
    }

    /// The header of the event.
    pub open spec fn header(self, meta: u8, sequence: u16) -> Seq<u8> {
        if self.sequence {
            seq![self.code, meta] + be16(sequence)
        } else {
            seq![self.code]
        }
    }

    /// What reading the header of this event from `bytes` gives. A first
    /// byte that is not the code is an unrecognized discriminant. The body
    /// is what is left of the 32 bytes of the event.
    pub open spec fn parse_header(self, bytes: Seq<u8>) -> Result<Header, ReadError> {
        if bytes.len() < 1 {
            Err(ReadError::BufferUnderrun)
        } else if bytes[0] != self.code {
            Err(ReadError::UnrecognizedDiscriminant(bytes[0] as usize))
        } else if bytes.len() < self.header_len() {
            Err(ReadError::BufferUnderrun)
        } else if self.sequence {
            Ok(Header { metabyte: bytes[1], sequence: de16(bytes.skip(2)), body: 28 })
        } else {
            Ok(Header { metabyte: 0, sequence: 0, body: 31 })
        }
    }

    /// The header of an event is read back from its bytes, whatever follows
    /// them: the metabyte and the sequence number it was written with, if
    /// it carries them, and the length of a body that, with the header,
    /// makes up 32 bytes.
    pub proof fn lemma_header_read(self, meta: u8, sequence: u16, after: Seq<u8>)
        ensures
            self.header(meta, sequence).len() == self.header_len(),
            self.parse_header(self.header(meta, sequence) + after) == Ok::<Header, ReadError>(
                if self.sequence {
                    Header { metabyte: meta, sequence, body: 28 }
                } else {
                    Header { metabyte: 0, sequence: 0, body: 31 }
                },
            ),
    {
        lemma_be_len();
        let bytes = self.header(meta, sequence) + after;
        if self.sequence {
            assert(bytes.skip(2) =~= be16(sequence) + after);
            lemma_de16_be16(sequence, after);
        }
    }

    /// Writes the header of the event.
    pub fn write_header(&self, meta: u8, sequence: u16, w: &mut Writer) -> (res: Result<
        (),
        WriteError,
    >)
        ensures
            old(w).appends(final(w), res, self.header(meta, sequence)),
    {
        let ghost first = *w;
        let ghost one = seq![self.code];
        let ghost two = one + seq![meta];
        let code = w.write_u8(self.code);
        if !self.sequence {
            return code;
        }
        proof {
            lemma_be_len();
        }
        match code {
            Ok(()) => {},
            Err(e) => {
                return Err(e);
            },
        }
        let ghost mid = *w;
        let second = w.write_u8(meta);
        proof {
            first.lemma_appends_then(&mid, w, second, one, seq![meta]);
            assert(two =~= seq![self.code, meta]);
        }
        match second {
            Ok(()) => {},
            Err(e) => {
                return Err(e);
            },
        }
        let ghost mid = *w;
        let third = w.write_u16(sequence);
        proof {
            first.lemma_appends_then(&mid, w, third, two, be16(sequence));
        }
        third
    }

    /// Reads the header of this event.
    pub fn read_header(&self, r: &mut Reader) -> (res: Result<Header, ReadError>)
        ensures
            old(r)@.len() <= usize::MAX,
            match self.parse_header(old(r)@) {
                Ok(header) => res == Ok::<Header, ReadError>(header) && final(r)@ == old(r)@.skip(
                    self.header_len() as int,
                ),
                Err(e) => res == Err::<Header, ReadError>(e) && final(r).rest_of(old(r)),
            },
    {
        let ghost bytes = r@;
        let code = match r.read_u8() {
            Ok(byte) => byte,
            Err(e) => {
                return Err(e);
            },
        };
        if code != self.code {
            return Err(ReadError::UnrecognizedDiscriminant(code as usize));
        }
        if !self.sequence {
            return Ok(Header { metabyte: 0, sequence: 0, body: 31 });
        }
        if r.remaining() < 3 {
            return Err(ReadError::BufferUnderrun);
        }
        let metabyte = match r.read_u8() {
            Ok(byte) => byte,
            Err(e) => {
                return Err(e);
            },
        };
        proof {
            lemma_skip_skip(bytes, 1, 1);
        }
        let sequence = match r.read_u16() {
            Ok(number) => number,
            Err(e) => {
                return Err(e);
            },
        };
        proof {
            lemma_skip_skip(bytes, 2, 2);
        }
        Ok(Header { metabyte, sequence, body: 28 })
    }
}

} // verus!
