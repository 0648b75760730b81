//! The items of a definition and the layout of a list of items.
//!
//! An item is a field, a count of the elements of a list, or a run of unused
//! bytes. The bytes of the fields are given and taken as they stand: what
//! they mean is up to the type of each field.

use vstd::prelude::*;
use crate::buffer::{be16, be32, de16, de32, lemma_be_len, lemma_de16_be16, lemma_de32_be32, run};
use crate::buffer::{is_rest, lemma_rest_of_skip, Reader, Writer};
use crate::error::{ReadError, WriteError};

verus! {

/// The width of the field that carries the number of elements of a list.
#[derive(Clone, Copy, Debug, PartialEq, Eq, Structural)]
pub enum CountWidth {
    /// One byte.
    U8,
    /// Two bytes.
    U16,
    /// Four bytes.
    U32,
}

impl CountWidth {
    /// The number of bytes of the field.
    pub open spec fn spec_bytes(self) -> usize {
        match self {
            CountWidth::U8 => 1,
            CountWidth::U16 => 2,
            CountWidth::U32 => 4,
        }
    }

    /// The largest number that the field can carry.
    pub open spec fn spec_max(self) -> u32 {
        match self {
            CountWidth::U8 => 0xff,
            CountWidth::U16 => 0xffff,
            CountWidth::U32 => 0xffff_ffff,
        }
    }

    /// The bytes of the field when it carries `n`.
    pub open spec fn wire(self, n: nat) -> Seq<u8>
        recommends
            n <= self.spec_max(),
    {
        match self {
            CountWidth::U8 => seq![n as u8],
            CountWidth::U16 => be16(n as u16),
            CountWidth::U32 => be32(n as u32),
        }
    }

    /// The number that the field carries when its bytes open `bytes`.
    pub open spec fn value(self, bytes: Seq<u8>) -> nat
        recommends
            bytes.len() >= self.spec_bytes(),
    {
        match self {
            CountWidth::U8 => bytes[0] as nat,
            CountWidth::U16 => de16(bytes) as nat,
            CountWidth::U32 => de32(bytes) as nat,
        }
    }

    /// A count that the field can carry is read back from its bytes,
    /// whatever follows them.
    pub proof fn lemma_value_wire(self, n: nat, rest: Seq<u8>)
        requires
            n <= self.spec_max(),
        ensures
            self.value(self.wire(n) + rest) == n,
            self.wire(n).len() == self.spec_bytes(),
    {
        lemma_be_len();
        match self {
            CountWidth::U8 => {},
            CountWidth::U16 => {
                lemma_de16_be16(n as u16, rest);
            },
            CountWidth::U32 => {
                lemma_de32_be32(n as u32, rest);
            },
        }
    }

    /// The number of bytes of the field.
    #[verifier::when_used_as_spec(spec_bytes)]
    pub fn bytes(self) -> (n: usize)
        ensures
            n == self.spec_bytes(),
    {
        match self {
            CountWidth::U8 => 1,
            CountWidth::U16 => 2,
            CountWidth::U32 => 4,
        }
    }

    /// The largest number that the field can carry.
    #[verifier::when_used_as_spec(spec_max)]
    pub fn max(self) -> (n: u32)
        ensures
            n == self.spec_max(),
    {
        match self {
            CountWidth::U8 => 0xff,
            CountWidth::U16 => 0xffff,
            CountWidth::U32 => 0xffff_ffff,
        }
    }
}

/// One item of a definition.
///
/// Items refer to one another by their place in the list of items of the
/// definition, counted from zero.
#[derive(Clone, Copy, Debug, PartialEq, Eq, Structural)]
pub enum Item {
    /// A field of `size` bytes. A field marked `metabyte` is one byte long
    /// and travels in the second byte of the header of a message, not in its
    /// body.
    Field { size: usize, metabyte: bool },
    /// A list of elements of `unit` bytes each. The number of its elements
    /// is carried by the item at `count`, which comes before it.
    List { count: usize, unit: usize },
    /// A list of strings, each with its length in its first byte. The number
    /// of the strings is carried by the item at `count`, which comes before
    /// the list.
    Strings { count: usize },
    /// A field that takes all bytes that are left. It is the last item.
    Rest,
    /// The number of elements of the list at `list`, which comes after it.
    /// A count marked `metabyte` is one byte wide and travels in the second
    /// byte of the header of a message, not in its body.
    Let { width: CountWidth, list: usize, metabyte: bool },
    /// A run of unused bytes. They are written as zero and skipped when
    /// read.
    Unused(usize),
    /// As many unused bytes as bring the message to its least length, or,
    /// if it has that already, to a multiple of four bytes.
    Pad,
}

impl Item {
    /// Whether the item travels in the header of a message.
    pub open spec fn spec_is_metabyte(self) -> bool {
        match self {
            Item::Field { metabyte, .. } => metabyte,
            Item::Let { metabyte, .. } => metabyte,
            _ => false,
        }
    }

    /// Whether the item travels in the header of a message.
    #[verifier::when_used_as_spec(spec_is_metabyte)]
    pub fn is_metabyte(self) -> (b: bool)
        ensures
            b == self.spec_is_metabyte(),
    {
        match self {
            Item::Field { metabyte, .. } => metabyte,
            Item::Let { metabyte, .. } => metabyte,
            _ => false,
        }
    }
}

/// The number of bytes that the first `n` strings in `bytes` take, each with
/// its length in its first byte, if `bytes` holds as many strings.
pub open spec fn strings_len(bytes: Seq<u8>, n: nat) -> Option<nat>
    decreases n,
{
    if n == 0 {
        Some(0)
    } else {
        match strings_len(bytes, (n - 1) as nat) {
            Some(at) => if at < bytes.len() && at + 1 + bytes[at as int] <= bytes.len() {
                Some((at + 1 + bytes[at as int]) as nat)
            } else {
                None
            },
            None => None,
        }
    }
}

/// The number of strings that make up `bytes` from `from` on, each with its
/// length in its first byte, if `bytes` ends where a string ends.
pub open spec fn strings_count(bytes: Seq<u8>, from: nat) -> Option<nat>
    decreases bytes.len() - from,
{
    if from >= bytes.len() {
        if from == bytes.len() {
            Some(0)
        } else {
            None
        }
    } else if from + 1 + bytes[from as int] <= bytes.len() {
        match strings_count(bytes, (from + 1 + bytes[from as int]) as nat) {
            Some(n) => Some(n + 1),
            None => None,
        }
    } else {
        None
    }
}

/// The number of unused bytes that a `Pad` stands for when `at` bytes of
/// the message come before it and the message is at least `least` bytes
/// long.
pub open spec fn padding(at: nat, least: nat) -> nat {
    if at < least {
        (least - at) as nat
    } else {
        ((4 - at % 4) % 4) as nat
    }
}

/// Whether the items are a definition that can be laid out: every list has
/// the count that it names before it, every count the list that it names
/// after it, at most one item travels in the header, and nothing follows
/// the rest.
pub open spec fn well_formed(items: Seq<Item>) -> bool {
    &&& forall|i: int| 0 <= i < items.len() ==> #[trigger] item_well_formed(items, i)
    &&& forall|i: int, j: int|
        0 <= i < items.len() && 0 <= j < items.len() && #[trigger] items[i].spec_is_metabyte()
            && #[trigger] items[j].spec_is_metabyte() ==> i == j
}

/// The place of the count of a list, if the item is a list.
pub open spec fn counted_by(item: Item) -> Option<usize> {
    match item {
        Item::List { count, .. } => Some(count),
        Item::Strings { count } => Some(count),
        _ => None,
    }
}

/// Whether the item at `i` fits into the definition around it.
pub open spec fn item_well_formed(items: Seq<Item>, i: int) -> bool {
    match items[i] {
        Item::Field { size, metabyte } => metabyte ==> size == 1,
        Item::List { count, unit } => {
            &&& unit >= 1
            &&& count < i
            &&& items[count as int] matches Item::Let { list, .. } && list == i
        },
        Item::Strings { count } => {
            &&& count < i
            &&& items[count as int] matches Item::Let { list, .. } && list == i
        },
        Item::Rest => i == items.len() - 1,
        Item::Let { width, list, metabyte } => {
            &&& metabyte ==> width == CountWidth::U8
            &&& i < list < items.len()
            &&& counted_by(items[list as int]) == Some(i as usize)
        },
        Item::Unused(_) => true,
        Item::Pad => true,
    }
}

/// Whether `values` is a value of the definition: it has bytes for each item,
/// as many as the item asks for, and none for an item that holds none.
pub open spec fn conforms(items: Seq<Item>, values: Seq<Seq<u8>>) -> bool {
    &&& values.len() == items.len()
    &&& forall|i: int| 0 <= i < items.len() ==> #[trigger] item_conforms(items, values, i)
}

/// Whether the bytes given for the item at `i` are as many as it asks for.
pub open spec fn item_conforms(items: Seq<Item>, values: Seq<Seq<u8>>, i: int) -> bool {
    match items[i] {
        Item::Field { size, .. } => values[i].len() == size,
        Item::List { count, unit } => {
            &&& values[i].len() % (unit as nat) == 0
            &&& items[count as int] matches Item::Let { width, .. } && values[i].len() / (
            unit as nat) <= width.spec_max()
        },
        Item::Strings { count } => {
            &&& strings_count(values[i], 0) is Some
            &&& items[count as int] matches Item::Let { width, .. } && strings_count(
                values[i],
                0,
            )->Some_0 <= width.spec_max()
        },
        Item::Rest => true,
        _ => values[i].len() == 0,
    }
}

/// The number that the count at `i` carries: the number of elements of its
/// list.
pub open spec fn count_at(items: Seq<Item>, values: Seq<Seq<u8>>, i: int) -> nat {
    match items[i] {
        Item::Let { list, .. } => elements(items[list as int], values[list as int]),
        _ => 0,
    }
}

/// The number of elements of a list whose bytes are `bytes`.
pub open spec fn elements(list: Item, bytes: Seq<u8>) -> nat {
    match list {
        Item::List { unit, .. } => bytes.len() / (unit as nat),
        Item::Strings { .. } => match strings_count(bytes, 0) {
            Some(n) => n,
            None => 0,
        },
        _ => 0,
    }
}

/// The bytes of the item at `i` in the body of a message, when `at` bytes
/// of the message come before it.
pub open spec fn piece(items: Seq<Item>, values: Seq<Seq<u8>>, i: int, at: nat, least: nat) -> Seq<
    u8,
> {
    match items[i] {
        Item::Field { metabyte, .. } => if metabyte {
            Seq::empty()
        } else {
            values[i]
        },
        Item::List { .. } => values[i],
        Item::Strings { .. } => values[i],
        Item::Rest => values[i],
        Item::Let { width, metabyte, .. } => if metabyte {
            Seq::empty()
        } else {
            width.wire(count_at(items, values, i))
        },
        Item::Unused(n) => run(0, n as nat),
        Item::Pad => run(0, padding(at, least)),
    }
}

/// The bytes of the first `k` items in the body of a message whose header
/// takes `start` bytes: the bytes of each in turn.
pub open spec fn body(items: Seq<Item>, values: Seq<Seq<u8>>, k: nat, start: nat, least: nat) -> Seq<
    u8,
>
    decreases k,
{
    if k == 0 {
        Seq::empty()
    } else {
        let before = body(items, values, (k - 1) as nat, start, least);
        before + piece(items, values, k - 1, start + before.len(), least)
    }
}

/// The byte that travels in the header for the first `k` items: the byte of
/// the field, or the count, that is marked for it, and zero if none is.
pub open spec fn metabyte(items: Seq<Item>, values: Seq<Seq<u8>>, k: nat) -> u8
    decreases k,
{
    if k == 0 {
        0
    } else {
        match items[k - 1] {
            Item::Field { metabyte: true, .. } => values[k - 1][0],
            Item::Let { metabyte: true, .. } => count_at(items, values, k - 1) as u8,
            _ => metabyte(items, values, (k - 1) as nat),
        }
    }
}

/// What has been read of a value after some of its items.
pub struct Parsed {
    /// The number of bytes of the body consumed so far.
    pub at: nat,
    /// The bytes of each item read so far.
    pub values: Seq<Seq<u8>>,
    /// For each item read so far, the number that it carries if it is a
    /// count, and zero otherwise.
    pub counts: Seq<nat>,
}

impl Parsed {
    /// Nothing read yet.
    pub open spec fn start() -> Parsed {
        Parsed { at: 0, values: Seq::empty(), counts: Seq::empty() }
    }

    /// What has been read after an item that takes no bytes of the body:
    /// its bytes are `bytes` and it carries `count`.
    pub open spec fn given(self, bytes: Seq<u8>, count: nat) -> Parsed {
        Parsed { at: self.at, values: self.values.push(bytes), counts: self.counts.push(count) }
    }

    /// What has been read after an item that takes the next `n` bytes of
    /// `body`, if that many are left: its bytes are those bytes if `keep`,
    /// and none otherwise. With fewer bytes left the read is an underrun.
    pub open spec fn taken(self, body: Seq<u8>, n: nat, keep: bool) -> Result<Parsed, ReadError> {
        if self.at + n <= body.len() {
            Ok(
                Parsed {
                    at: self.at + n,
                    values: self.values.push(
                        if keep {
                            body.subrange(self.at as int, (self.at + n) as int)
                        } else {
                            Seq::empty()
                        },
                    ),
                    counts: self.counts.push(0),
                },
            )
        } else {
            Err(ReadError::BufferUnderrun)
        }
    }
}

/// What reading the item at `i` gives after `before`, from a body `bytes`
/// that follows a header of `start` bytes whose second byte is `meta`.
pub open spec fn parse_item(
    items: Seq<Item>,
    i: int,
    bytes: Seq<u8>,
    start: nat,
    least: nat,
    meta: u8,
    before: Parsed,
) -> Result<Parsed, ReadError> {
    match items[i] {
        Item::Field { size, metabyte } => if metabyte {
            Ok(before.given(seq![meta], 0))
        } else {
            before.taken(bytes, size as nat, true)
        },
        Item::List { count, unit } => before.taken(
            bytes,
            (before.counts[count as int] * unit) as nat,
            true,
        ),
        Item::Strings { count } => match strings_len(
            bytes.skip(before.at as int),
            before.counts[count as int],
        ) {
            Some(n) => before.taken(bytes, n, true),
            None => Err(ReadError::BufferUnderrun),
        },
        Item::Rest => before.taken(bytes, (bytes.len() - before.at) as nat, true),
        Item::Let { width, metabyte, .. } => if metabyte {
            Ok(before.given(Seq::empty(), meta as nat))
        } else if before.at + width.spec_bytes() <= bytes.len() {
            Ok(
                Parsed {
                    at: (before.at + width.spec_bytes()) as nat,
                    values: before.values.push(Seq::empty()),
                    counts: before.counts.push(width.value(bytes.skip(before.at as int))),
                },
            )
        } else {
            Err(ReadError::BufferUnderrun)
        },
        Item::Unused(n) => before.taken(bytes, n as nat, false),
        Item::Pad => before.taken(bytes, padding(start + before.at, least), false),
    }
}

/// What reading the first `k` items gives: each is read in turn, after what
/// the ones before it gave, and the first that fails ends the read.
pub open spec fn parse_items(
    items: Seq<Item>,
    k: nat,
    bytes: Seq<u8>,
    start: nat,
    least: nat,
    meta: u8,
) -> Result<Parsed, ReadError>
    decreases k,
{
    if k == 0 {
        Ok(Parsed::start())
    } else {
        match parse_items(items, (k - 1) as nat, bytes, start, least, meta) {
            Ok(before) => parse_item(items, k - 1, bytes, start, least, meta, before),
            Err(e) => Err(e),
        }
    }
}

/// What reading a conforming value back gives after its first `k` items.
pub open spec fn read_back(
    items: Seq<Item>,
    values: Seq<Seq<u8>>,
    k: nat,
    start: nat,
    least: nat,
) -> Parsed {
    Parsed {
        at: body(items, values, k, start, least).len(),
        values: values.take(k as int),
        counts: Seq::new(k, |i: int| count_at(items, values, i)),
    }
}

/// The body of the first items of a value opens the body of more of them.
pub proof fn lemma_body_opens(
    items: Seq<Item>,
    values: Seq<Seq<u8>>,
    k: nat,
    n: nat,
    start: nat,
    least: nat,
)
    requires
        k <= n,
    ensures
        body(items, values, k, start, least).len() <= body(items, values, n, start, least).len(),
        body(items, values, n, start, least).take(
            body(items, values, k, start, least).len() as int,
        ) == body(items, values, k, start, least),
    decreases n,
{
    let short = body(items, values, k, start, least);
    let long = body(items, values, n, start, least);
    if k == n {
        assert(long.take(short.len() as int) =~= short);
    } else {
        let before = body(items, values, (n - 1) as nat, start, least);
        lemma_body_opens(items, values, k, (n - 1) as nat, start, least);
        assert(long.take(short.len() as int) =~= before.take(short.len() as int));
    }
}

/// The bytes of an item stand in the body right after those of the items
/// before it.
pub proof fn lemma_piece_in_body(
    items: Seq<Item>,
    values: Seq<Seq<u8>>,
    i: nat,
    n: nat,
    start: nat,
    least: nat,
)
    requires
        i < n,
    ensures
        ({
            let whole = body(items, values, n, start, least);
            let before = body(items, values, i, start, least);
            let part = piece(items, values, i as int, start + before.len(), least);
            &&& before.len() + part.len() <= whole.len()
            &&& whole.subrange(before.len() as int, (before.len() + part.len()) as int) == part
            &&& body(items, values, i + 1, start, least) == before + part
        }),
{
    let whole = body(items, values, n, start, least);
    let before = body(items, values, i, start, least);
    let part = piece(items, values, i as int, start + before.len(), least);
    let after = body(items, values, i + 1, start, least);
    assert(after == before + part);
    lemma_body_opens(items, values, i + 1, n, start, least);
    assert(whole.subrange(before.len() as int, (before.len() + part.len()) as int) =~= whole.take(
        after.len() as int,
    ).subrange(before.len() as int, (before.len() + part.len()) as int));
    assert(after.subrange(before.len() as int, (before.len() + part.len()) as int) =~= part);
}

/// The byte in the header is that of the item marked for it, wherever among
/// the first `n` items it stands.
pub proof fn lemma_metabyte_found(items: Seq<Item>, values: Seq<Seq<u8>>, i: nat, n: nat)
    requires
        well_formed(items),
        i < n <= items.len(),
        items[i as int].spec_is_metabyte(),
    ensures
        metabyte(items, values, n) == match items[i as int] {
            Item::Field { .. } => values[i as int][0],
            _ => count_at(items, values, i as int) as u8,
        },
    decreases n,
{
    if i + 1 < n {
        assert(!items[n - 1].spec_is_metabyte());
        lemma_metabyte_found(items, values, i, (n - 1) as nat);
    }
}

/// A whole number of units is the number of units times the unit.
pub proof fn lemma_whole_units(len: nat, unit: nat)
    requires
        unit >= 1,
        len % unit == 0,
    ensures
        (len / unit) * unit == len,
{
    assert(len == unit * (len / unit) + len % unit) by (nonlinear_arith)
        requires
            unit >= 1,
    ;
    assert((len / unit) * unit == unit * (len / unit)) by (nonlinear_arith);
}

/// Strings that are not all there are not all there if more are asked for.
pub proof fn lemma_strings_stay_short(bytes: Seq<u8>, few: nat, many: nat)
    requires
        few <= many,
        strings_len(bytes, few) is None,
    ensures
        strings_len(bytes, many) is None,
    decreases many,
{
    if few < many {
        lemma_strings_stay_short(bytes, few, (many - 1) as nat);
    }
}

/// The strings that `bytes` holds end within `bytes`.
pub proof fn lemma_strings_within(bytes: Seq<u8>, n: nat)
    ensures
        strings_len(bytes, n) matches Some(len) ==> len <= bytes.len(),
    decreases n,
{
    if n > 0 {
        lemma_strings_within(bytes, (n - 1) as nat);
    }
}

/// If the first `k` strings of `bytes + rest` end at `from`, and `bytes` is
/// made up of `n` strings from there on, then the first `k + n` strings end
/// where `bytes` ends.
proof fn lemma_strings_read_on(bytes: Seq<u8>, rest: Seq<u8>, from: nat, k: nat, n: nat)
    requires
        strings_len(bytes + rest, k) == Some(from),
        strings_count(bytes, from) == Some(n),
    ensures
        strings_len(bytes + rest, k + n) == Some(bytes.len()),
    decreases bytes.len() - from,
{
    if from < bytes.len() {
        let next = (from + 1 + bytes[from as int]) as nat;
        assert((bytes + rest)[from as int] == bytes[from as int]);
        assert(strings_len(bytes + rest, k + 1) == Some(next));
        lemma_strings_read_on(bytes, rest, next, k + 1, (n - 1) as nat);
    }
}

/// Bytes that are made up of `n` strings are read as `n` strings, whatever
/// follows them, and the strings end where the bytes end.
pub proof fn lemma_strings_read(bytes: Seq<u8>, rest: Seq<u8>)
    requires
        strings_count(bytes, 0) is Some,
    ensures
        strings_len(bytes + rest, strings_count(bytes, 0)->Some_0) == Some(bytes.len()),
{
    lemma_strings_read_on(bytes, rest, 0, 0, strings_count(bytes, 0)->Some_0);
}

/// Reading the body of a conforming value item by item gives the value
/// back: after each item, the bytes of every item so far, and as many bytes
/// consumed as those items take.
#[verifier::rlimit(30)]
pub proof fn lemma_items_round_trip(
    items: Seq<Item>,
    values: Seq<Seq<u8>>,
    k: nat,
    start: nat,
    least: nat,
)
    requires
        well_formed(items),
        conforms(items, values),
        k <= items.len(),
    ensures
        parse_items(
            items,
            k,
            body(items, values, items.len(), start, least),
            start,
            least,
            metabyte(items, values, items.len()),
        ) == Ok::<Parsed, ReadError>(read_back(items, values, k, start, least)),
    decreases k,
{
    let n = items.len();
    let whole = body(items, values, n, start, least);
    let meta = metabyte(items, values, n);
    if k == 0 {
        assert(read_back(items, values, 0, start, least).values =~= Seq::<Seq<u8>>::empty());
        assert(read_back(items, values, 0, start, least).counts =~= Seq::<nat>::empty());
    } else {
        let i = (k - 1) as nat;
        lemma_items_round_trip(items, values, i, start, least);
        let before = read_back(items, values, i, start, least);
        let after = read_back(items, values, k, start, least);
        let part = piece(items, values, i as int, start + before.at, least);
        lemma_piece_in_body(items, values, i, n, start, least);
        lemma_be_len();
        assert(item_well_formed(items, i as int));
        assert(item_conforms(items, values, i as int));
        let got = parse_item(items, i as int, whole, start, least, meta, before);
        assert(after.at == before.at + part.len());
        match items[i as int] {
            Item::Field { size, metabyte } => {
                if metabyte {
                    lemma_metabyte_found(items, values, i, n);
                    assert(seq![meta] =~= values[i as int]);
                }
            },
            Item::List { count, unit } => {
                assert(item_well_formed(items, count as int));
                lemma_whole_units(values[i as int].len(), unit as nat);
            },
            Item::Strings { count } => {
                assert(item_well_formed(items, count as int));
                let rest = whole.skip((before.at + part.len()) as int);
                assert(whole.skip(before.at as int) =~= part + rest);
                lemma_strings_read(values[i as int], rest);
            },
            Item::Rest => {
                lemma_body_opens(items, values, k, n, start, least);
                assert(whole.take(whole.len() as int) =~= whole);
            },
            Item::Let { width, list, metabyte } => {
                assert(item_well_formed(items, list as int));
                assert(item_conforms(items, values, list as int));
                assert(values[i as int] =~= Seq::<u8>::empty());
                if metabyte {
                    lemma_metabyte_found(items, values, i, n);
                } else {
                    let rest = whole.skip((before.at + part.len()) as int);
                    assert(whole.skip(before.at as int) =~= part + rest);
                    width.lemma_value_wire(count_at(items, values, i as int), rest);
                }
            },
            Item::Unused(n) => {
                assert(values[i as int] =~= Seq::<u8>::empty());
            },
            Item::Pad => {
                assert(values[i as int] =~= Seq::<u8>::empty());
            },
        }
        assert(got is Ok);
        assert(got->Ok_0.values == before.values.push(values[i as int]));
        assert(got->Ok_0.values =~= after.values);
        assert(got->Ok_0.counts =~= after.counts);
    }
}

/// The bytes that a value gives for each item.
pub open spec fn bytes_of(values: Seq<Vec<u8>>) -> Seq<Seq<u8>> {
    Seq::new(values.len(), |i: int| values[i]@)
}

/// Computes [`padding`].
pub fn pad(at: usize, least: usize) -> (n: usize)
    ensures
        n == padding(at as nat, least as nat),
{
    if at < least {
        least - at
    } else {
        (4 - at % 4) % 4
    }
}

/// Computes [`strings_count`]: the number of strings that make up `bytes`,
/// if `bytes` ends where a string ends.
pub fn count_strings(bytes: &Vec<u8>) -> (n: Option<usize>)
    ensures
        match n {
            Some(n) => strings_count(bytes@, 0) == Some(n as nat),
            None => strings_count(bytes@, 0) is None,
        },
{
    let mut from: usize = 0;
    let mut n: usize = 0;
    while from < bytes.len()
        invariant
            from <= bytes@.len(),
            n <= from,
            strings_count(bytes@, 0) == match strings_count(bytes@, from as nat) {
                Some(more) => Some((more + n) as nat),
                None => None,
            },
        decreases bytes@.len() - from,
    {
        let len = bytes[from] as usize;
        if len > bytes.len() - from - 1 {
            return None;
        }
        from = from + 1 + len;
        n = n + 1;
    }
    Some(n)
}

/// Computes [`elements`]: the number of elements of the list at `list`.
fn count_elements(items: &Vec<Item>, values: &Vec<Vec<u8>>, list: usize) -> (n: usize)
    requires
        list < items.len(),
        values.len() == items.len(),
        item_well_formed(items@, list as int),
        item_conforms(items@, bytes_of(values@), list as int),
    ensures
        n == elements(items@[list as int], bytes_of(values@)[list as int]),
{
    match items[list] {
        Item::List { unit, .. } => values[list].len() / unit,
        Item::Strings { .. } => match count_strings(&values[list]) {
            Some(n) => n,
            None => 0,
        },
        _ => 0,
    }
}

/// The number of bytes that the item at `i` takes in the body of a message,
/// when `at` bytes of the message come before it.
fn piece_len(items: &Vec<Item>, values: &Vec<Vec<u8>>, i: usize, at: usize, least: usize) -> (n:
    usize)
    requires
        i < items.len(),
        values.len() == items.len(),
    ensures
        n == piece(items@, bytes_of(values@), i as int, at as nat, least as nat).len(),
{
    proof {
        lemma_be_len();
    }
    match items[i] {
        Item::Field { size, metabyte } => if metabyte {
            0
        } else {
            values[i].len()
        },
        Item::List { .. } => values[i].len(),
        Item::Strings { .. } => values[i].len(),
        Item::Rest => values[i].len(),
        Item::Let { width, metabyte, .. } => if metabyte {
            0
        } else {
            width.bytes()
        },
        Item::Unused(n) => n,
        Item::Pad => pad(at, least),
    }
}

/// The number of bytes of a message whose header takes `start` bytes and
/// whose body holds `values`, if a `usize` can hold that number.
pub fn measure(items: &Vec<Item>, values: &Vec<Vec<u8>>, start: usize, least: usize) -> (size:
    Option<usize>)
    requires
        values.len() == items.len(),
    ensures
        match size {
            Some(n) => n == start + body(
                items@,
                bytes_of(values@),
                items@.len(),
                start as nat,
                least as nat,
            ).len(),
            None => start + body(
                items@,
                bytes_of(values@),
                items@.len(),
                start as nat,
                least as nat,
            ).len() > usize::MAX,
        },
{
    let ghost all = body(items@, bytes_of(values@), items@.len(), start as nat, least as nat);
    let mut at: usize = start;
    let mut k: usize = 0;
    while k < items.len()
        invariant
            k <= items.len(),
            values.len() == items.len(),
            at == start + body(items@, bytes_of(values@), k as nat, start as nat, least as nat).len(),
            all == body(items@, bytes_of(values@), items@.len(), start as nat, least as nat),
        decreases items.len() - k,
    {
        proof {
            lemma_body_opens(
                items@,
                bytes_of(values@),
                (k + 1) as nat,
                items@.len(),
                start as nat,
                least as nat,
            );
        }
        let n = piece_len(items, values, k, at, least);
        if n > usize::MAX - at {
            return None;
        }
        at = at + n;
        k = k + 1;
    }
    Some(at)
}

/// Writes the bytes of the item at `i`, when `at` bytes of the message come
/// before it.
fn write_piece(
    items: &Vec<Item>,
    values: &Vec<Vec<u8>>,
    i: usize,
    at: usize,
    least: usize,
    w: &mut Writer,
) -> (res: Result<(), WriteError>)
    requires
        i < items.len(),
        well_formed(items@),
        conforms(items@, bytes_of(values@)),
    ensures
        old(w).appends(
            final(w),
            res,
            piece(items@, bytes_of(values@), i as int, at as nat, least as nat),
        ),
{
    proof {
        w.lemma_within_limit();
        assert(item_well_formed(items@, i as int));
        assert(item_conforms(items@, bytes_of(values@), i as int));
        assert(w@ + Seq::<u8>::empty() =~= w@);
    }
    match items[i] {
        Item::Field { size, metabyte } => if metabyte {
            Ok(())
        } else {
            w.write_raw(values[i].as_slice())
        },
        Item::List { .. } => w.write_raw(values[i].as_slice()),
        Item::Strings { .. } => w.write_raw(values[i].as_slice()),
        Item::Rest => w.write_raw(values[i].as_slice()),
        Item::Let { width, list, metabyte } => if metabyte {
            Ok(())
        } else {
            proof {
                assert(item_well_formed(items@, list as int));
                assert(item_conforms(items@, bytes_of(values@), list as int));
            }
            let count = count_elements(items, values, list);
            match width {
                CountWidth::U8 => w.write_u8(count as u8),
                CountWidth::U16 => w.write_u16(count as u16),
                CountWidth::U32 => w.write_u32(count as u32),
            }
        },
        Item::Unused(n) => w.write_bytes(n, 0),
        Item::Pad => w.write_bytes(pad(at, least), 0),
    }
}

/// Writes the body of a message whose header takes `start` bytes: the bytes
/// of each item in turn.
pub fn write_items(
    items: &Vec<Item>,
    values: &Vec<Vec<u8>>,
    start: usize,
    least: usize,
    w: &mut Writer,
) -> (res: Result<(), WriteError>)
    requires
        well_formed(items@),
        conforms(items@, bytes_of(values@)),
        start + body(
            items@,
            bytes_of(values@),
            items@.len(),
            start as nat,
            least as nat,
        ).len() <= usize::MAX,
    ensures
        old(w).appends(
            final(w),
            res,
            body(items@, bytes_of(values@), items@.len(), start as nat, least as nat),
        ),
{
    let ghost first = *w;
    let ghost all = body(items@, bytes_of(values@), items@.len(), start as nat, least as nat);
    let mut at: usize = start;
    let mut k: usize = 0;
    proof {
        w.lemma_within_limit();
        assert(w@ + Seq::<u8>::empty() =~= w@);
    }
    while k < items.len()
        invariant
            k <= items.len(),
            well_formed(items@),
            conforms(items@, bytes_of(values@)),
            all == body(items@, bytes_of(values@), items@.len(), start as nat, least as nat),
            start + all.len() <= usize::MAX,
            at == start + body(items@, bytes_of(values@), k as nat, start as nat, least as nat).len(),
            first == *old(w),
            first.appends(
                w,
                Ok(()),
                body(items@, bytes_of(values@), k as nat, start as nat, least as nat),
            ),
        decreases items.len() - k,
    {
        let ghost before = body(items@, bytes_of(values@), k as nat, start as nat, least as nat);
        let ghost part = piece(items@, bytes_of(values@), k as int, at as nat, least as nat);
        let ghost mid = *w;
        proof {
            lemma_body_opens(
                items@,
                bytes_of(values@),
                (k + 1) as nat,
                items@.len(),
                start as nat,
                least as nat,
            );
        }
        let res = write_piece(items, values, k, at, least, w);
        proof {
            first.lemma_appends_then(&mid, w, res, before, part);
            assert(body(items@, bytes_of(values@), (k + 1) as nat, start as nat, least as nat)
                == before + part);
        }
        match res {
            Ok(()) => {},
            Err(e) => {
                return Err(e);
            },
        }
        let n = piece_len(items, values, k, at, least);
        at = at + n;
        k = k + 1;
    }
    Ok(())
}

/// The numbers that the counts read so far carry.
pub open spec fn counts_of(counts: Seq<u32>) -> Seq<nat> {
    Seq::new(counts.len(), |i: int| counts[i] as nat)
}

/// The number of bytes of `count` elements of `unit` bytes each, if no more
/// than `left`.
fn list_len(count: u32, unit: usize, left: usize) -> (n: Option<usize>)
    ensures
        match n {
            Some(n) => n == count * unit && n <= left,
            None => count * unit > left,
        },
{
    let count = count as usize;
    if count == 0 || unit == 0 {
        assert(count * unit == 0) by (nonlinear_arith)
            requires
                count == 0 || unit == 0,
        ;
        Some(0)
    } else if unit > left / count {
        assert(count * unit > left) by (nonlinear_arith)
            requires
                count > 0,
                unit > left / count,
        ;
        None
    } else {
        assert(count * unit <= left) by (nonlinear_arith)
            requires
                count > 0,
                unit <= left / count,
        ;
        Some(count * unit)
    }
}

/// Reads `n` strings off the front of `r`, which is at `before.at` in
/// `body`, each with its length in its first byte. Gives the bytes of all
/// of them.
fn read_strings(r: &mut Reader, n: u32, Ghost(body): Ghost<Seq<u8>>, Ghost(before): Ghost<Parsed>) -> (res:
    Result<(Vec<u8>, u32), ReadError>)
    requires
        before.at <= body.len(),
        old(r)@ == body.skip(before.at as int),
    ensures
        match strings_len(body.skip(before.at as int), n as nat) {
            Some(len) => {
                &&& res is Ok
                &&& res->Ok_0.0@ == body.subrange(before.at as int, (before.at + len) as int)
                &&& res->Ok_0.1 == 0
                &&& before.at + len <= body.len()
                &&& final(r)@ == body.skip((before.at + len) as int)
            },
            None => res == Err::<(Vec<u8>, u32), ReadError>(ReadError::BufferUnderrun) && is_rest(
                final(r)@,
                body,
            ),
        },
{
    let ghost from = body.skip(before.at as int);
    let ghost mut len: nat = 0;
    let mut all: Vec<u8> = Vec::new();
    let mut k: u32 = 0;
    proof {
        assert(from.skip(0) =~= from);
        assert(all@ =~= from.subrange(0, 0));
    }
    while k < n
        invariant
            k <= n,
            from == body.skip(before.at as int),
            before.at <= body.len(),
            len <= from.len(),
            strings_len(from, k as nat) == Some(len),
            all@ == from.subrange(0, len as int),
            r@ == from.skip(len as int),
        decreases n - k,
    {
        let ghost next = strings_len(from, (k + 1) as nat);
        let size = match r.read_u8() {
            Ok(size) => size,
            Err(e) => {
                proof {
                    lemma_strings_stay_short(from, (k + 1) as nat, n as nat);
                    lemma_rest_of_skip(r@, from, len);
                    lemma_rest_of_skip(r@, body, before.at);
                }
                return Err(e);
            },
        };
        let string = match r.read_raw(size as usize) {
            Ok(string) => string,
            Err(e) => {
                proof {
                    lemma_strings_stay_short(from, (k + 1) as nat, n as nat);
                    lemma_rest_of_skip(r@, from.skip(len as int), 1);
                    lemma_rest_of_skip(r@, from, len);
                    lemma_rest_of_skip(r@, body, before.at);
                }
                return Err(e);
            },
        };
        all.push(size);
        all.extend_from_slice(string.as_slice());
        proof {
            let end = (len + 1 + size) as nat;
            assert(next == Some(end));
            assert(all@ =~= from.subrange(0, end as int));
            assert(from.skip(len as int).skip(1).skip(size as int) =~= from.skip(end as int));
            len = end;
        }
        k = k + 1;
    }
    proof {
        assert(from.subrange(0, len as int) =~= body.subrange(
            before.at as int,
            (before.at + len) as int,
        ));
        assert(from.skip(len as int) =~= body.skip((before.at + len) as int));
    }
    Ok((all, 0))
}

/// Reads the item at `i` off the front of `r`, which is at `before.at` in
/// `body`. Gives the bytes of the item and the number that it carries.
fn read_piece(
    items: &Vec<Item>,
    i: usize,
    r: &mut Reader,
    start: usize,
    least: usize,
    meta: u8,
    counts: &Vec<u32>,
    total: usize,
    Ghost(body): Ghost<Seq<u8>>,
    Ghost(before): Ghost<Parsed>,
) -> (res: Result<(Vec<u8>, u32), ReadError>)
    requires
        i < items.len(),
        total == body.len(),
        item_well_formed(items@, i as int),
        counts.len() == i,
        before.counts == counts_of(counts@),
        before.at <= body.len(),
        start + body.len() <= usize::MAX,
        old(r)@ == body.skip(before.at as int),
    ensures
        match parse_item(items@, i as int, body, start as nat, least as nat, meta, before) {
            Ok(after) => {
                &&& res is Ok
                &&& after.values == before.values.push(res->Ok_0.0@)
                &&& after.counts == before.counts.push(res->Ok_0.1 as nat)
                &&& after.at <= body.len()
                &&& final(r)@ == body.skip(after.at as int)
            },
            Err(e) => res is Err && res->Err_0 == e && is_rest(final(r)@, body),
        },
{
    let left = r.remaining();
    let ghost at = before.at as int;
    proof {
        assert(r@.skip(0) =~= r@);
        // Where a read fails it has taken nothing.
        lemma_rest_of_skip(r@, body, before.at);
    }
    match items[i] {
        Item::Field { size, metabyte } => if metabyte {
            let mut bytes = Vec::new();
            bytes.push(meta);
            assert(bytes@ =~= seq![meta]);
            Ok((bytes, 0))
        } else {
            match r.read_raw(size) {
                Ok(bytes) => {
                    proof {
                        assert(body.skip(at).take(size as int) =~= body.subrange(at, at + size));
                        assert(body.skip(at).skip(size as int) =~= body.skip(at + size));
                    }
                    Ok((bytes, 0))
                },
                Err(e) => Err(e),
            }
        },
        Item::List { count, unit } => {
            match list_len(counts[count], unit, left) {
                Some(n) => match r.read_raw(n) {
                    Ok(bytes) => {
                        proof {
                            assert(body.skip(at).take(n as int) =~= body.subrange(at, at + n));
                            assert(body.skip(at).skip(n as int) =~= body.skip(at + n));
                        }
                        Ok((bytes, 0))
                    },
                    Err(e) => Err(e),
                },
                None => Err(ReadError::BufferUnderrun),
            }
        },
        Item::Strings { count } => {
            read_strings(r, counts[count], Ghost(body), Ghost(before))
        },
        Item::Rest => match r.read_raw(left) {
            Ok(bytes) => {
                proof {
                    assert(body.skip(at).take(left as int) =~= body.subrange(at, at + left));
                    assert(body.skip(at).skip(left as int) =~= body.skip(at + left));
                }
                Ok((bytes, 0))
            },
            Err(e) => Err(e),
        },
        Item::Let { width, metabyte, .. } => if metabyte {
            Ok((Vec::new(), meta as u32))
        } else {
            let read = match width {
                CountWidth::U8 => match r.read_u8() {
                    Ok(n) => Ok(n as u32),
                    Err(e) => Err(e),
                },
                CountWidth::U16 => match r.read_u16() {
                    Ok(n) => Ok(n as u32),
                    Err(e) => Err(e),
                },
                CountWidth::U32 => r.read_u32(),
            };
            match read {
                Ok(n) => {
                    proof {
                        assert(body.skip(at).skip(width.spec_bytes() as int) =~= body.skip(
                            at + width.spec_bytes(),
                        ));
                    }
                    Ok((Vec::new(), n))
                },
                Err(e) => Err(e),
            }
        },
        Item::Unused(n) => match r.advance(n) {
            Ok(()) => {
                proof {
                    assert(body.skip(at).skip(n as int) =~= body.skip(at + n));
                }
                Ok((Vec::new(), 0))
            },
            Err(e) => Err(e),
        },
        Item::Pad => {
            let n = pad(start + (total - left), least);
            match r.advance(n) {
                Ok(()) => {
                    proof {
                        assert(body.skip(at).skip(n as int) =~= body.skip(at + n));
                    }
                    Ok((Vec::new(), 0))
                },
                Err(e) => Err(e),
            }
        },
    }
}

/// Reads the items of a message off the front of `r`, which holds the body
/// that follows a header of `start` bytes whose second byte is `meta`.
/// Gives the bytes of each item, and consumes the bytes that the items take.
pub fn read_items(items: &Vec<Item>, r: &mut Reader, start: usize, least: usize, meta: u8) -> (res:
    Result<Vec<Vec<u8>>, ReadError>)
    requires
        well_formed(items@),
        start == 0 || start + old(r)@.len() <= usize::MAX,
    ensures
        match parse_items(items@, items@.len(), old(r)@, start as nat, least as nat, meta) {
            Ok(read) => res is Ok && bytes_of(res->Ok_0@) == read.values && read.at <= old(r)@.len()
                && final(r)@ == old(r)@.skip(read.at as int),
            Err(e) => res is Err && res->Err_0 == e && final(r).rest_of(old(r)),
        },
{
    let ghost body = r@;
    let total = r.remaining();
    let mut values: Vec<Vec<u8>> = Vec::new();
    let mut counts: Vec<u32> = Vec::new();
    let mut k: usize = 0;
    let ghost mut so_far = Parsed::start();
    proof {
        assert(body.skip(0) =~= body);
        assert(bytes_of(values@) =~= so_far.values);
        assert(counts_of(counts@) =~= so_far.counts);
    }
    while k < items.len()
        invariant
            k <= items.len(),
            well_formed(items@),
            total == body.len(),
            start + body.len() <= usize::MAX,
            body == old(r)@,
            values.len() == k,
            counts.len() == k,
            so_far.at <= body.len(),
            so_far.values == bytes_of(values@),
            so_far.counts == counts_of(counts@),
            r@ == body.skip(so_far.at as int),
            parse_items(items@, k as nat, body, start as nat, least as nat, meta) == Ok::<
                Parsed,
                ReadError,
            >(so_far),
        decreases items.len() - k,
    {
        proof {
            assert(item_well_formed(items@, k as int));
        }
        let ghost next = parse_item(
            items@,
            k as int,
            body,
            start as nat,
            least as nat,
            meta,
            so_far,
        );
        match read_piece(
            items,
            k,
            r,
            start,
            least,
            meta,
            &counts,
            total,
            Ghost(body),
            Ghost(so_far),
        ) {
            Ok((bytes, count)) => {
                proof {
                    assert(bytes_of(values@.push(bytes)) =~= bytes_of(values@).push(bytes@));
                    assert(counts_of(counts@.push(count)) =~= counts_of(counts@).push(
                        count as nat,
                    ));
                    so_far = next->Ok_0;
                }
                values.push(bytes);
                counts.push(count);
            },
            Err(e) => {
                proof {
                    lemma_parse_fails_on(
                        items@,
                        (k + 1) as nat,
                        items@.len(),
                        body,
                        start as nat,
                        least as nat,
                        meta,
                    );
                }
                return Err(e);
            },
        }
        k = k + 1;
    }
    Ok(values)
}

/// A read that has failed after some items has failed after more of them,
/// with the same error.
pub proof fn lemma_parse_fails_on(
    items: Seq<Item>,
    k: nat,
    n: nat,
    bytes: Seq<u8>,
    start: nat,
    least: nat,
    meta: u8,
)
    requires
        k <= n,
        parse_items(items, k, bytes, start, least, meta) is Err,
    ensures
        parse_items(items, n, bytes, start, least, meta) == parse_items(
            items,
            k,
            bytes,
            start,
            least,
            meta,
        ),
    decreases n,
{
    if k < n {
        lemma_parse_fails_on(items, k, (n - 1) as nat, bytes, start, least, meta);
    }
}

/// Computes [`item_well_formed`].
fn item_is_well_formed(items: &Vec<Item>, i: usize) -> (b: bool)
    requires
        i < items.len(),
    ensures
        b == item_well_formed(items@, i as int),
{
    match items[i] {
        Item::Field { size, metabyte } => !metabyte || size == 1,
        Item::List { count, unit } => {
            if unit >= 1 && count < i {
                match items[count] {
                    Item::Let { list, .. } => list == i,
                    _ => false,
                }
            } else {
                false
            }
        },
        Item::Strings { count } => {
            if count < i {
                match items[count] {
                    Item::Let { list, .. } => list == i,
                    _ => false,
                }
            } else {
                false
            }
        },
        Item::Rest => i == items.len() - 1,
        Item::Let { width, list, metabyte } => {
            let narrow = match width {
                CountWidth::U8 => true,
                _ => !metabyte,
            };
            if narrow && i < list && list < items.len() {
                match items[list] {
                    Item::List { count, .. } => count == i,
                    Item::Strings { count } => count == i,
                    _ => false,
                }
            } else {
                false
            }
        },
        Item::Unused(_) => true,
        Item::Pad => true,
    }
}

/// Whether the items are a definition that can be laid out. This is to be
/// asked once of each definition, before any value of it is written or
/// read.
pub fn is_well_formed(items: &Vec<Item>) -> (b: bool)
    ensures
        b == well_formed(items@),
{
    let mut marked: bool = false;
    let ghost mut at: int = 0;
    let mut k: usize = 0;
    while k < items.len()
        invariant
            k <= items.len(),
            forall|i: int| 0 <= i < k ==> #[trigger] item_well_formed(items@, i),
            forall|i: int, j: int|
                0 <= i < k && 0 <= j < k && #[trigger] items@[i].spec_is_metabyte()
                    && #[trigger] items@[j].spec_is_metabyte() ==> i == j,
            marked ==> 0 <= at < k && items@[at].spec_is_metabyte(),
            !marked ==> forall|i: int| 0 <= i < k ==> !(#[trigger] items@[i].spec_is_metabyte()),
        decreases items.len() - k,
    {
        if !item_is_well_formed(items, k) {
            assert(!item_well_formed(items@, k as int));
            return false;
        }
        if items[k].is_metabyte() {
            if marked {
                assert(items@[at].spec_is_metabyte() && items@[k as int].spec_is_metabyte());
                return false;
            }
            marked = true;
            proof {
                at = k as int;
            }
        }
        k = k + 1;
    }
    true
}

/// Computes [`item_conforms`].
fn item_accepts(items: &Vec<Item>, values: &Vec<Vec<u8>>, i: usize) -> (b: bool)
    requires
        i < items.len(),
        values.len() == items.len(),
        item_well_formed(items@, i as int),
    ensures
        b == item_conforms(items@, bytes_of(values@), i as int),
{
    let len = values[i].len();
    match items[i] {
        Item::Field { size, .. } => len == size,
        Item::List { count, unit } => {
            if len % unit == 0 {
                match items[count] {
                    Item::Let { width, .. } => len / unit <= width.max() as usize,
                    _ => false,
                }
            } else {
                false
            }
        },
        Item::Strings { count } => match count_strings(&values[i]) {
            Some(n) => match items[count] {
                Item::Let { width, .. } => n <= width.max() as usize,
                _ => false,
            },
            None => false,
        },
        Item::Rest => true,
        _ => len == 0,
    }
}

/// Whether `values` is a value of the definition.
pub fn accepts(items: &Vec<Item>, values: &Vec<Vec<u8>>) -> (b: bool)
    requires
        well_formed(items@),
    ensures
        b == conforms(items@, bytes_of(values@)),
{
    if values.len() != items.len() {
        return false;
    }
    let mut k: usize = 0;
    while k < items.len()
        invariant
            k <= items.len(),
            values.len() == items.len(),
            well_formed(items@),
            forall|i: int| 0 <= i < k ==> #[trigger] item_conforms(items@, bytes_of(values@), i),
        decreases items.len() - k,
    {
        assert(item_well_formed(items@, k as int));
        if !item_accepts(items, values, k) {
            assert(!item_conforms(items@, bytes_of(values@), k as int));
            return false;
        }
        k = k + 1;
    }
    true
}

/// With no item marked for it, the byte in the header is zero.
pub proof fn lemma_no_metabyte(items: Seq<Item>, values: Seq<Seq<u8>>, k: nat)
    requires
        k <= items.len(),
        forall|i: int| 0 <= i < items.len() ==> !(#[trigger] items[i].spec_is_metabyte()),
    ensures
        metabyte(items, values, k) == 0,
    decreases k,
{
    if k > 0 {
        assert(!items[k - 1].spec_is_metabyte());
        lemma_no_metabyte(items, values, (k - 1) as nat);
    }
}

/// Computes [`metabyte`]: the byte that a value puts in the header.
pub fn find_metabyte(items: &Vec<Item>, values: &Vec<Vec<u8>>) -> (meta: u8)
    requires
        well_formed(items@),
        conforms(items@, bytes_of(values@)),
    ensures
        meta == metabyte(items@, bytes_of(values@), items@.len()),
{
    let mut meta: u8 = 0;
    let mut k: usize = 0;
    while k < items.len()
        invariant
            k <= items.len(),
            well_formed(items@),
            conforms(items@, bytes_of(values@)),
            meta == metabyte(items@, bytes_of(values@), k as nat),
        decreases items.len() - k,
    {
        proof {
            assert(item_well_formed(items@, k as int));
            assert(item_conforms(items@, bytes_of(values@), k as int));
        }
        match items[k] {
            Item::Field { metabyte: true, .. } => {
                meta = values[k][0];
            },
            Item::Let { metabyte: true, list, .. } => {
                proof {
                    assert(item_well_formed(items@, list as int));
                    assert(item_conforms(items@, bytes_of(values@), list as int));
                }
                meta = count_elements(items, values, list) as u8;
            },
            _ => {},
        }
        k = k + 1;
    }
    meta
}

/// Whether no item is marked to travel in the header.
pub fn none_is_metabyte(items: &Vec<Item>) -> (b: bool)
    ensures
        b == forall|i: int| 0 <= i < items@.len() ==> !(#[trigger] items@[i].spec_is_metabyte()),
{
    let mut k: usize = 0;
    while k < items.len()
        invariant
            k <= items.len(),
            forall|i: int| 0 <= i < k ==> !(#[trigger] items@[i].spec_is_metabyte()),
        decreases items.len() - k,
    {
        if items[k].is_metabyte() {
            return false;
        }
        k = k + 1;
    }
    true
}

/// The field that counts a list carries the number of the elements of the
/// list, wherever in the message the two stand.
pub proof fn lemma_count_is_length(
    items: Seq<Item>,
    values: Seq<Seq<u8>>,
    i: int,
    at: nat,
    least: nat,
)
    requires
        well_formed(items),
        conforms(items, values),
        0 <= i < items.len(),
        items[i] matches Item::Let { metabyte, .. } && !metabyte,
    ensures
        items[i] matches Item::Let { width, list, .. } && {
            let n = elements(items[list as int], values[list as int]);
            &&& n <= width.spec_max()
            &&& piece(items, values, i, at, least) == width.wire(n)
            &&& items[list as int] matches Item::List { unit, .. } ==> values[list as int].len()
                == n * unit
            &&& items[list as int] is Strings ==> strings_count(values[list as int], 0) == Some(n)
        },
{
    assert(item_well_formed(items, i));
    if let Item::Let { list, .. } = items[i] {
        assert(item_well_formed(items, list as int));
        assert(item_conforms(items, values, list as int));
        if let Item::List { unit, .. } = items[list as int] {
            lemma_whole_units(values[list as int].len(), unit as nat);
        }
    }
}

/// A list whose count promises more elements than there are bytes left for
/// is an underrun: it is not cut short.
pub proof fn lemma_short_list_underruns(
    items: Seq<Item>,
    i: int,
    bytes: Seq<u8>,
    start: nat,
    least: nat,
    meta: u8,
    before: Parsed,
)
    requires
        0 <= i < items.len(),
        items[i] matches Item::List { count, unit } && before.at + before.counts[count as int]
            * unit > bytes.len(),
    ensures
        parse_item(items, i, bytes, start, least, meta, before) == Err::<Parsed, ReadError>(
            ReadError::BufferUnderrun,
        ),
{
}

} // verus!
