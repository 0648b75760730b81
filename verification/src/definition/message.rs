//! Records and messages: a header, if the shape of the definition has one,
//! and the items after it.

use vstd::prelude::*;
use crate::buffer::{lemma_rest_of_skip, Reader, Writer};
use crate::definition::header::{
    BasicStructMetadata,
    Event,
    Header,
    Reply,
    Request,
    LEAST_LENGTH,
};
use crate::definition::item::{
    accepts,
    body,
    bytes_of,
    conforms,
    find_metabyte,
    is_well_formed,
    lemma_items_round_trip,
    lemma_no_metabyte,
    measure,
    metabyte,
    none_is_metabyte,
    parse_items,
    read_back,
    Parsed,
    read_items,
    well_formed,
    write_items,
    Item,
};
use crate::error::{MessageError, ReadError, WriteError};
use crate::wire::lemma_skip_skip;

verus! {

/// The shape of a definition, and what tells it apart from others of its
/// shape.
#[derive(Clone, Copy, Debug, PartialEq, Eq, Structural)]
pub enum StructMetadata {
    /// A plain record.
    Struct(BasicStructMetadata),
    /// An event.
    Event(Event),
    /// A request.
    Request(Request),
    /// A reply.
    Reply(Reply),
}

impl StructMetadata {
    /// The number of bytes of a message that come before its items.
    pub open spec fn spec_start(&self) -> usize {
        match *self {
            StructMetadata::Struct(_) => 0,
            StructMetadata::Event(event) => if event.sequence {
                4
            } else {
                1
            },
            StructMetadata::Request(_) => 4,
            StructMetadata::Reply(_) => 8,
        }
    }

    /// The least number of bytes of a message.
    pub open spec fn spec_least(&self) -> usize {
        match *self {
            StructMetadata::Struct(_) => 0,
            StructMetadata::Event(_) => LEAST_LENGTH,
            StructMetadata::Request(_) => 0,
            StructMetadata::Reply(_) => LEAST_LENGTH,
        }
    }

    /// Whether the header has a byte for an item marked as metabyte.
    pub open spec fn spec_takes_metabyte(&self) -> bool {
        match *self {
            StructMetadata::Struct(_) => false,
            StructMetadata::Event(event) => event.sequence,
            StructMetadata::Request(request) => request.minor_opcode is None,
            StructMetadata::Reply(_) => true,
        }
    }

    /// Whether the header carries a sequence number.
    pub open spec fn spec_takes_sequence(&self) -> bool {
        match *self {
            StructMetadata::Struct(_) => false,
            StructMetadata::Event(event) => event.sequence,
            StructMetadata::Request(_) => false,
            StructMetadata::Reply(reply) => reply.sequence,
        }
    }

    /// Whether a message of this shape can be `total` bytes long.
    pub open spec fn fits(self, total: nat) -> bool {
        match self {
            StructMetadata::Struct(_) => true,
            StructMetadata::Event(_) => total == 32,
            StructMetadata::Request(_) => Request::fits(total),
            StructMetadata::Reply(_) => Reply::fits(total),
        }
    }

    /// The header of a message of `total` bytes.
    pub open spec fn header(self, meta: u8, sequence: u16, total: nat) -> Seq<u8> {
        match self {
            StructMetadata::Struct(_) => Seq::empty(),
            StructMetadata::Event(event) => event.header(meta, sequence),
            StructMetadata::Request(request) => request.header(meta, total),
            StructMetadata::Reply(reply) => reply.header(meta, sequence, total),
        }
    }

    /// The number of bytes of the header that are written and read here.
    pub open spec fn header_len(self) -> nat {
        match self {
            StructMetadata::Struct(_) => 0,
            StructMetadata::Event(event) => event.header_len(),
            StructMetadata::Request(_) => 4,
            StructMetadata::Reply(reply) => reply.header_len(),
        }
    }

    /// What reading the header of a message from `bytes` gives. A plain
    /// record has no header, and all of `bytes` is its body.
    pub open spec fn parse_header(self, bytes: Seq<u8>) -> Result<Header, ReadError> {
        match self {
            StructMetadata::Struct(_) => Ok(
                Header { metabyte: 0, sequence: 0, body: bytes.len() as usize },
            ),
            StructMetadata::Event(event) => event.parse_header(bytes),
            StructMetadata::Request(request) => request.parse_header(bytes),
            StructMetadata::Reply(reply) => reply.parse_header(bytes),
        }
    }

    /// The number of bytes of a message that come before its items.
    #[verifier::when_used_as_spec(spec_start)]
    pub fn start(&self) -> (n: usize)
        ensures
            n == self.spec_start(),
    {
        match self {
            StructMetadata::Struct(_) => 0,
            StructMetadata::Event(event) => if event.sequence {
                4
            } else {
                1
            },
            StructMetadata::Request(_) => 4,
            StructMetadata::Reply(_) => 8,
        }
    }

    /// The least number of bytes of a message.
    #[verifier::when_used_as_spec(spec_least)]
    pub fn least(&self) -> (n: usize)
        ensures
            n == self.spec_least(),
    {
        match self {
            StructMetadata::Struct(_) => 0,
            StructMetadata::Event(_) => LEAST_LENGTH,
            StructMetadata::Request(_) => 0,
            StructMetadata::Reply(_) => LEAST_LENGTH,
        }
    }

    /// Whether the header has a byte for an item marked as metabyte.
    #[verifier::when_used_as_spec(spec_takes_metabyte)]
    pub fn takes_metabyte(&self) -> (b: bool)
        ensures
            b == self.spec_takes_metabyte(),
    {
        match self {
            StructMetadata::Struct(_) => false,
            StructMetadata::Event(event) => event.sequence,
            StructMetadata::Request(request) => request.minor_opcode.is_none(),
            StructMetadata::Reply(_) => true,
        }
    }

    /// Whether the header carries a sequence number.
    #[verifier::when_used_as_spec(spec_takes_sequence)]
    pub fn takes_sequence(&self) -> (b: bool)
        ensures
            b == self.spec_takes_sequence(),
    {
        match self {
            StructMetadata::Struct(_) => false,
            StructMetadata::Event(event) => event.sequence,
            StructMetadata::Request(_) => false,
            StructMetadata::Reply(reply) => reply.sequence,
        }
    }

    /// Whether a message of this shape can be `total` bytes long.
    pub fn can_be(&self, total: usize) -> (b: bool)
        ensures
            b == self.fits(total as nat),
    {
        match self {
            StructMetadata::Struct(_) => true,
            StructMetadata::Event(_) => total == 32,
            StructMetadata::Request(_) => total % 4 == 0 && 4 <= total && total <= 4 * 0xffff,
            StructMetadata::Reply(_) => total % 4 == 0 && 32 <= total && (total - 32) / 4
                <= 0xffff_ffff,
        }
    }

    /// Writes the header of a message of `total` bytes.
    pub fn write_header(&self, meta: u8, sequence: u16, total: usize, w: &mut Writer) -> (res:
        Result<(), WriteError>)
        requires
            self.fits(total as nat),
        ensures
            old(w).appends(final(w), res, self.header(meta, sequence, total as nat)),
    {
        match self {
            StructMetadata::Struct(_) => {
                proof {
                    w.lemma_within_limit();
                    assert(w@ + Seq::<u8>::empty() =~= w@);
                }
                Ok(())
            },
            StructMetadata::Event(event) => event.write_header(meta, sequence, w),
            StructMetadata::Request(request) => request.write_header(meta, total, w),
            StructMetadata::Reply(reply) => reply.write_header(meta, sequence, total, w),
        }
    }

    /// Reads the header of a message.
    pub fn read_header(&self, r: &mut Reader) -> (res: Result<Header, ReadError>)
        ensures
            old(r)@.len() <= usize::MAX,
            match self.parse_header(old(r)@) {
                Ok(header) => res == Ok::<Header, ReadError>(header) && final(r)@ == old(r)@.skip(
                    self.header_len() as int,
                ),
                Err(e) => res == Err::<Header, ReadError>(e) && final(r).rest_of(old(r)),
            },
    {
        match self {
            StructMetadata::Struct(_) => {
                proof {
                    assert(r@.skip(0) =~= r@);
                }
                Ok(Header { metabyte: 0, sequence: 0, body: r.remaining() })
            },
            StructMetadata::Event(event) => event.read_header(r),
            StructMetadata::Request(request) => request.read_header(r),
            StructMetadata::Reply(reply) => reply.read_header(r),
        }
    }
}

/// A value of a definition: the bytes of each of its items, and the sequence
/// number that its header carries.
#[derive(Clone, Debug, PartialEq, Eq)]
pub struct Message {
    /// The sequence number, or zero where the header carries none.
    pub sequence: u16,
    /// For each item of the definition, its bytes. An item that is not a
    /// field has none.
    pub values: Vec<Vec<u8>>,
}

/// What a value of a definition stands for.
pub struct MessageModel {
    /// The sequence number.
    pub sequence: u16,
    /// The bytes of each item.
    pub values: Seq<Seq<u8>>,
}

impl View for Message {
    type V = MessageModel;

    open spec fn view(&self) -> MessageModel {
        MessageModel { sequence: self.sequence, values: bytes_of(self.values@) }
    }
}

/// The definition of a record or of a message: its shape and its items.
#[derive(Clone, Debug, PartialEq, Eq)]
pub struct Struct {
    /// The shape, and what tells the definition apart.
    pub metadata: StructMetadata,
    /// The items, in the order of the wire.
    pub items: Vec<Item>,
}

impl Struct {
    /// Whether the definition can be laid out: its items fit together, and
    /// an item is marked as metabyte only if the header has a byte for it.
    pub open spec fn well_formed(&self) -> bool {
        &&& well_formed(self.items@)
        &&& !self.metadata.spec_takes_metabyte() ==> forall|i: int|
            0 <= i < self.items@.len() ==> !(#[trigger] self.items@[i].spec_is_metabyte())
    }

    /// The bytes of the items of `m`, after the header.
    pub open spec fn body(&self, m: MessageModel) -> Seq<u8> {
        body(
            self.items@,
            m.values,
            self.items@.len(),
            self.metadata.spec_start() as nat,
            self.metadata.spec_least() as nat,
        )
    }

    /// The number of bytes of `m` as a message, the whole header counted in.
    pub open spec fn total(&self, m: MessageModel) -> nat {
        (self.metadata.spec_start() + self.body(m).len()) as nat
    }

    /// Whether `m` is a value of the definition: it has the bytes that each
    /// item asks for, its length is one that the shape allows and a `usize`
    /// can hold, and it has a sequence number only if the header carries
    /// one.
    pub open spec fn conforms(&self, m: MessageModel) -> bool {
        &&& conforms(self.items@, m.values)
        &&& self.total(m) <= usize::MAX
        &&& self.metadata.fits(self.total(m))
        &&& !self.metadata.spec_takes_sequence() ==> m.sequence == 0
    }

    /// The bytes of `m` on the wire: the header, then the items.
    pub open spec fn wire(&self, m: MessageModel) -> Seq<u8> {
        self.metadata.header(
            metabyte(self.items@, m.values, self.items@.len()),
            m.sequence,
            self.total(m),
        ) + self.body(m)
    }

    /// The length that the header of `m` carries, if its shape has one.
    pub open spec fn spec_length(&self, m: MessageModel) -> Option<u32> {
        match self.metadata {
            StructMetadata::Request(_) => Some(Request::spec_length(self.total(m)) as u32),
            StructMetadata::Reply(_) => Some(Reply::spec_length(self.total(m)) as u32),
            _ => None,
        }
    }

    /// What reading a value of the definition from `bytes` gives: the value
    /// and the number of bytes consumed, or the error that stops the read.
    ///
    /// The items of a plain record are read from `bytes` as they come. The
    /// items of a message are read from the body that its header declares,
    /// and from no byte after it; a body that is not all there is an
    /// underrun.
    pub open spec fn parse(&self, bytes: Seq<u8>) -> Result<(MessageModel, nat), ReadError> {
        if self.metadata is Struct {
            match parse_items(self.items@, self.items@.len(), bytes, 0, 0, 0) {
                Ok(read) => Ok((MessageModel { sequence: 0, values: read.values }, read.at)),
                Err(e) => Err(e),
            }
        } else {
            match self.metadata.parse_header(bytes) {
                Err(e) => Err(e),
                Ok(header) => {
                    let from = self.metadata.header_len();
                    if bytes.len() < from + header.body || self.metadata.spec_start() + header.body
                        > usize::MAX {
                        Err(ReadError::BufferUnderrun)
                    } else {
                        match parse_items(
                            self.items@,
                            self.items@.len(),
                            bytes.subrange(from as int, from + header.body),
                            self.metadata.spec_start() as nat,
                            self.metadata.spec_least() as nat,
                            if self.metadata.spec_takes_metabyte() {
                                header.metabyte
                            } else {
                                0
                            },
                        ) {
                            Ok(read) => Ok(
                                (
                                    MessageModel { sequence: header.sequence, values: read.values },
                                    (from + header.body) as nat,
                                ),
                            ),
                            Err(e) => Err(e),
                        }
                    }
                },
            }
        }
    }

    /// Whether the definition can be laid out. This is to be asked once of
    /// each definition, before any value of it is written or read.
    pub fn is_well_formed(&self) -> (b: bool)
        ensures
            b == self.well_formed(),
    {
        if !is_well_formed(&self.items) {
            return false;
        }
        self.metadata.takes_metabyte() || none_is_metabyte(&self.items)
    }

    /// Whether `message` is a value of the definition.
    pub fn accepts(&self, message: &Message) -> (b: bool)
        requires
            self.well_formed(),
        ensures
            b == self.conforms(message@),
    {
        if !accepts(&self.items, &message.values) {
            return false;
        }
        if !self.metadata.takes_sequence() && message.sequence != 0 {
            return false;
        }
        match measure(
            &self.items,
            &message.values,
            self.metadata.start(),
            self.metadata.least(),
        ) {
            Some(total) => self.metadata.can_be(total),
            None => false,
        }
    }

    /// The number of bytes of `message` on the wire, the whole header
    /// counted in.
    pub fn x11_size(&self, message: &Message) -> (n: usize)
        requires
            self.well_formed(),
            self.conforms(message@),
        ensures
            n == self.total(message@),
    {
        match measure(
            &self.items,
            &message.values,
            self.metadata.start(),
            self.metadata.least(),
        ) {
            Some(total) => total,
            // A `usize` holds the size of every value of the definition.
            None => 0,
        }
    }

    /// The length that the header of `message` carries, if its shape has
    /// one: for a request the number of four-byte units of the request, and
    /// for a reply the number of four-byte units beyond 32 bytes.
    pub fn length(&self, message: &Message) -> (length: Option<u32>)
        requires
            self.well_formed(),
            self.conforms(message@),
        ensures
            length == self.spec_length(message@),
    {
        let total = self.x11_size(message);
        match self.metadata {
            StructMetadata::Request(request) => Some(request.length(total) as u32),
            StructMetadata::Reply(reply) => Some(reply.length(total)),
            _ => None,
        }
    }

    /// Writes `message`: its header, then its items. A pass over the items
    /// measures the message first, since the header carries its length.
    pub fn write_to(&self, message: &Message, w: &mut Writer) -> (res: Result<(), WriteError>)
        requires
            self.well_formed(),
            self.conforms(message@),
        ensures
            old(w).appends(final(w), res, self.wire(message@)),
    {
        let ghost first = *w;
        let total = self.x11_size(message);
        let meta = find_metabyte(&self.items, &message.values);
        let ghost header = self.metadata.header(meta, message.sequence, total as nat);
        match self.metadata.write_header(meta, message.sequence, total, w) {
            Ok(()) => {},
            Err(e) => {
                return Err(e);
            },
        }
        let ghost mid = *w;
        let res = write_items(
            &self.items,
            &message.values,
            self.metadata.start(),
            self.metadata.least(),
            w,
        );
        proof {
            first.lemma_appends_then(&mid, w, res, header, self.body(message@));
        }
        res
    }

    /// Writes `message` if the definition can be laid out and `message` is
    /// a value of it, and says which of the two is not so otherwise.
    pub fn try_write_to(&self, message: &Message, w: &mut Writer) -> (res: Result<
        (),
        MessageError,
    >)
        ensures
            !self.well_formed() ==> res == Err::<(), MessageError>(MessageError::Definition)
                && final(w)@ == old(w)@,
            self.well_formed() && !self.conforms(message@) ==> res == Err::<(), MessageError>(
                MessageError::Value,
            ) && final(w)@ == old(w)@,
            self.well_formed() && self.conforms(message@) ==> match res {
                Ok(()) => old(w).appends(final(w), Ok(()), self.wire(message@)),
                Err(MessageError::Write(e)) => old(w).appends(
                    final(w),
                    Err(e),
                    self.wire(message@),
                ),
                Err(_) => false,
            },
    {
        if !self.is_well_formed() {
            return Err(MessageError::Definition);
        }
        if !self.accepts(message) {
            return Err(MessageError::Value);
        }
        match self.write_to(message, w) {
            Ok(()) => Ok(()),
            Err(e) => Err(MessageError::Write(e)),
        }
    }

    /// Reads a value of the definition off the front of `r` if the
    /// definition can be laid out, and says that it cannot otherwise.
    pub fn try_read_from(&self, r: &mut Reader) -> (res: Result<Message, MessageError>)
        ensures
            !self.well_formed() ==> res == Err::<Message, MessageError>(MessageError::Definition)
                && final(r)@ == old(r)@,
            self.well_formed() ==> match self.parse(old(r)@) {
                Ok((m, n)) => res is Ok && res->Ok_0@ == m && final(r)@ == old(r)@.skip(n as int),
                Err(e) => res == Err::<Message, MessageError>(MessageError::Read(e)) && final(r).rest_of(
                    old(r),
                ),
            },
    {
        if !self.is_well_formed() {
            return Err(MessageError::Definition);
        }
        match self.read_from(r) {
            Ok(message) => Ok(message),
            Err(e) => Err(MessageError::Read(e)),
        }
    }

    /// Reads a value of the definition off the front of `r`.
    pub fn read_from(&self, r: &mut Reader) -> (res: Result<Message, ReadError>)
        requires
            self.well_formed(),
        ensures
            match self.parse(old(r)@) {
                Ok((m, n)) => res is Ok && res->Ok_0@ == m && final(r)@ == old(r)@.skip(n as int),
                Err(e) => res is Err && res->Err_0 == e && final(r).rest_of(old(r)),
            },
    {
        let ghost bytes = r@;
        match self.metadata {
            StructMetadata::Struct(_) => {
                match read_items(&self.items, r, 0, 0, 0) {
                    Ok(values) => Ok(Message { sequence: 0, values }),
                    Err(e) => Err(e),
                }
            },
            _ => {
                let header = match self.metadata.read_header(r) {
                    Ok(header) => header,
                    Err(e) => {
                        return Err(e);
                    },
                };
                let ghost from = self.metadata.header_len();
                let frame = match r.read_raw(header.body) {
                    Ok(frame) => frame,
                    Err(e) => {
                        proof {
                            lemma_rest_of_skip(r@, bytes, from);
                        }
                        return Err(e);
                    },
                };
                proof {
                    assert(bytes.skip(from as int).take(header.body as int) =~= bytes.subrange(
                        from as int,
                        from + header.body,
                    ));
                    lemma_skip_skip(bytes, from, header.body as nat);
                    lemma_rest_of_skip(r@, bytes, from + header.body as nat);
                }
                let start = self.metadata.start();
                if header.body > usize::MAX - start {
                    return Err(ReadError::BufferUnderrun);
                }
                let meta = if self.metadata.takes_metabyte() {
                    header.metabyte
                } else {
                    0
                };
                let mut body = Reader::new(frame.as_slice());
                match read_items(&self.items, &mut body, start, self.metadata.least(), meta) {
                    Ok(values) => Ok(Message { sequence: header.sequence, values }),
                    Err(e) => Err(e),
                }
            },
        }
    }
}

impl Struct {
    /// A message takes as many bytes on the wire as [`total`](Struct::total)
    /// says, but for a reply whose sequence number is supplied from
    /// outside, which takes two fewer.
    pub proof fn lemma_wire_len(&self, m: MessageModel)
        requires
            self.well_formed(),
            self.conforms(m),
        ensures
            self.wire(m).len() == self.metadata.header_len() + self.body(m).len(),
            self.metadata.header_len() == self.metadata.spec_start() || (self.metadata
                matches StructMetadata::Reply(reply) && !reply.sequence),
    {
        let meta = metabyte(self.items@, m.values, self.items@.len());
        let total = self.total(m);
        match self.metadata {
            StructMetadata::Struct(_) => {},
            StructMetadata::Event(event) => {
                event.lemma_header_read(meta, m.sequence, Seq::empty());
            },
            StructMetadata::Request(request) => {
                request.lemma_header_read(meta, total, Seq::empty());
            },
            StructMetadata::Reply(reply) => {
                reply.lemma_header_read(meta, m.sequence, total, Seq::empty());
            },
        }
    }

    /// The length in the header of a request counts the four-byte units of
    /// the whole request, and that in the header of a reply the four-byte
    /// units beyond 32 bytes. No other shape has a length in its header.
    pub proof fn lemma_length_counts_units(&self, m: MessageModel)
        requires
            self.well_formed(),
            self.conforms(m),
        ensures
            match self.metadata {
                StructMetadata::Request(_) => self.spec_length(m) matches Some(length) && 4
                    * length == self.wire(m).len(),
                StructMetadata::Reply(_) => self.spec_length(m) matches Some(length) && 32 + 4
                    * length == self.total(m),
                _ => self.spec_length(m) is None,
            },
    {
        self.lemma_wire_len(m);
    }

    /// The items of a conforming value are read back from its body, with
    /// the byte that its header carries for them.
    proof fn lemma_body_read(&self, m: MessageModel)
        requires
            self.well_formed(),
            self.conforms(m),
        ensures
            parse_items(
                self.items@,
                self.items@.len(),
                self.body(m),
                self.metadata.spec_start() as nat,
                self.metadata.spec_least() as nat,
                metabyte(self.items@, m.values, self.items@.len()),
            ) == Ok::<Parsed, ReadError>(
                Parsed {
                    at: self.body(m).len(),
                    values: m.values,
                    counts: read_back(
                        self.items@,
                        m.values,
                        self.items@.len(),
                        self.metadata.spec_start() as nat,
                        self.metadata.spec_least() as nat,
                    ).counts,
                },
            ),
            !self.metadata.spec_takes_metabyte() ==> metabyte(
                self.items@,
                m.values,
                self.items@.len(),
            ) == 0,
    {
        let items = self.items@;
        let n = items.len();
        let start = self.metadata.spec_start() as nat;
        let least = self.metadata.spec_least() as nat;
        lemma_items_round_trip(items, m.values, n, start, least);
        assert(read_back(items, m.values, n, start, least).values =~= m.values);
        if !self.metadata.spec_takes_metabyte() {
            lemma_no_metabyte(items, m.values, n);
        }
    }

    /// What the header of a conforming value reads back as, whatever
    /// follows it: the byte and the sequence number it was written with,
    /// and the length of the body of the value.
    proof fn lemma_header_read(&self, m: MessageModel, after: Seq<u8>)
        requires
            self.well_formed(),
            self.conforms(m),
            !(self.metadata is Struct),
        ensures
            ({
                let meta = metabyte(self.items@, m.values, self.items@.len());
                let header = self.metadata.header(meta, m.sequence, self.total(m));
                &&& header.len() == self.metadata.header_len()
                &&& self.metadata.parse_header(header + after) matches Ok(read)
                &&& read.sequence == m.sequence
                &&& read.body == self.body(m).len()
                &&& self.metadata.spec_takes_metabyte() ==> read.metabyte == meta
            }),
    {
        let meta = metabyte(self.items@, m.values, self.items@.len());
        let total = self.total(m);
        match self.metadata {
            StructMetadata::Struct(_) => {},
            StructMetadata::Event(event) => {
                event.lemma_header_read(meta, m.sequence, after);
            },
            StructMetadata::Request(request) => {
                request.lemma_header_read(meta, total, after);
            },
            StructMetadata::Reply(reply) => {
                reply.lemma_header_read(meta, m.sequence, total, after);
            },
        }
    }

    /// The bytes of a message with bytes after them are the header, then the
    /// body, then those bytes, and the body stands right after the header.
    proof fn lemma_body_in_wire(header: Seq<u8>, body: Seq<u8>, rest: Seq<u8>)
        ensures
            (header + body) + rest == header + (body + rest),
            ((header + body) + rest).subrange(
                header.len() as int,
                (header.len() + body.len()) as int,
            ) == body,
    {
        assert((header + body) + rest =~= header + (body + rest));
        assert(((header + body) + rest).subrange(
            header.len() as int,
            (header.len() + body.len()) as int,
        ) =~= body);
    }

    /// Reading the bytes of a plain record gives the record back and
    /// consumes exactly those bytes.
    proof fn lemma_record_round_trip(&self, m: MessageModel)
        requires
            self.well_formed(),
            self.conforms(m),
            self.metadata is Struct,
        ensures
            self.parse(self.wire(m)) == Ok::<(MessageModel, nat), ReadError>(
                (m, self.wire(m).len()),
            ),
    {
        self.lemma_body_read(m);
        assert(self.wire(m) =~= self.body(m));
    }

    /// Reading the bytes of a message gives the message back and consumes
    /// exactly those bytes, whatever follows them.
    proof fn lemma_message_round_trip(&self, m: MessageModel, rest: Seq<u8>)
        requires
            self.well_formed(),
            self.conforms(m),
            !(self.metadata is Struct),
        ensures
            self.parse(self.wire(m) + rest) == Ok::<(MessageModel, nat), ReadError>(
                (m, self.wire(m).len()),
            ),
    {
        let meta = metabyte(self.items@, m.values, self.items@.len());
        let header = self.metadata.header(meta, m.sequence, self.total(m));
        let body = self.body(m);
        self.lemma_body_read(m);
        self.lemma_header_read(m, body + rest);
        Self::lemma_body_in_wire(header, body, rest);
    }

    /// Reading the bytes of a value of the definition gives the value back
    /// and consumes exactly those bytes. For a message this holds whatever
    /// follows its bytes; for a plain record, which has no length of its
    /// own, when nothing follows them.
    pub proof fn lemma_round_trip(&self, m: MessageModel, rest: Seq<u8>)
        requires
            self.well_formed(),
            self.conforms(m),
            self.metadata is Struct ==> rest.len() == 0,
        ensures
            self.parse(self.wire(m) + rest) == Ok::<(MessageModel, nat), ReadError>(
                (m, self.wire(m).len()),
            ),
    {
        if self.metadata is Struct {
            self.lemma_record_round_trip(m);
            assert(self.wire(m) + rest =~= self.wire(m));
        } else {
            self.lemma_message_round_trip(m, rest);
        }
    }
}

} // verus!
