//! Lists of values, and strings.
//!
//! A list is the bytes of each of its elements in turn. The number of its
//! elements is not part of it: that number stands in a field of its own,
//! somewhere before the list, and is given to the one who reads the list.
//!
//! A string of one-byte characters that carries its own length in its first
//! byte is a value like any other, so that there can be lists of such
//! strings.

use vstd::prelude::*;
use crate::buffer::{lemma_rest_of_skip, Reader, Writer};
use crate::error::{ReadError, WriteError};
use crate::wire::{lemma_concat_assoc, lemma_skip_skip, Readable, Writable, X11Size};

verus! {

/// What each element of a list stands for.
pub open spec fn models<T: X11Size>(list: Seq<T>) -> Seq<T::Model> {
    Seq::new(list.len(), |i: int| list[i].model())
}

/// Whether the wire format can carry every element of the list.
pub open spec fn valid_list<T: X11Size>(list: Seq<T::Model>) -> bool {
    forall|i: int| 0 <= i < list.len() ==> T::valid(#[trigger] list[i])
}

/// The bytes of a list: those of each element in turn.
pub open spec fn wire_list<T: X11Size>(list: Seq<T::Model>) -> Seq<u8>
    decreases list.len(),
{
    if list.len() == 0 {
        Seq::empty()
    } else {
        wire_list::<T>(list.drop_last()) + T::wire(list.last())
    }
}

/// What reading `count` elements from `bytes` gives: the elements and the
/// number of bytes consumed, or the error of the first element that cannot
/// be read.
pub open spec fn parse_list<T: Readable>(bytes: Seq<u8>, count: nat) -> Result<
    (Seq<T::Model>, nat),
    ReadError,
>
    decreases count,
{
    if count == 0 {
        Ok((Seq::empty(), 0))
    } else {
        match parse_list::<T>(bytes, (count - 1) as nat) {
            Ok((list, at)) => match T::parse(bytes.skip(at as int)) {
                Ok((m, n)) => Ok((list.push(m), at + n)),
                Err(e) => Err(e),
            },
            Err(e) => Err(e),
        }
    }
}

/// The elements that are read are values that the format can carry, there
/// are as many as were asked for, and the bytes consumed are as many as they
/// take on the wire.
pub proof fn lemma_parse_list_sound<T: Readable>(bytes: Seq<u8>, count: nat)
    ensures
        parse_list::<T>(bytes, count) matches Ok((list, at)) ==> {
            &&& list.len() == count
            &&& valid_list::<T>(list)
            &&& at == wire_list::<T>(list).len()
            &&& at <= bytes.len()
        },
    decreases count,
{
    if count > 0 {
        lemma_parse_list_sound::<T>(bytes, (count - 1) as nat);
        match parse_list::<T>(bytes, (count - 1) as nat) {
            Ok((list, at)) => {
                T::lemma_parse_sound(bytes.skip(at as int));
                match T::parse(bytes.skip(at as int)) {
                    Ok((m, n)) => {
                        assert(list.push(m).drop_last() =~= list);
                    },
                    Err(_) => {},
                }
            },
            Err(_) => {},
        }
    }
}

/// A read that has failed after some elements has failed after more of
/// them, with the same error.
pub proof fn lemma_parse_list_fails_on<T: Readable>(bytes: Seq<u8>, few: nat, many: nat)
    requires
        few <= many,
        parse_list::<T>(bytes, few) is Err,
    ensures
        parse_list::<T>(bytes, many) == parse_list::<T>(bytes, few),
    decreases many,
{
    if few < many {
        lemma_parse_list_fails_on::<T>(bytes, few, (many - 1) as nat);
    }
}

/// Reading the bytes of a list, with the number of its elements, gives the
/// list back and consumes exactly those bytes, whatever follows them.
pub proof fn lemma_list_round_trip<T: Readable>(list: Seq<T::Model>, rest: Seq<u8>)
    requires
        valid_list::<T>(list),
    ensures
        parse_list::<T>(wire_list::<T>(list) + rest, list.len()) == Ok::<
            (Seq<T::Model>, nat),
            ReadError,
        >((list, wire_list::<T>(list).len())),
    decreases list.len(),
{
    if list.len() == 0 {
        assert(list =~= Seq::<T::Model>::empty());
    } else {
        let front = list.drop_last();
        let last = T::wire(list.last());
        let before = wire_list::<T>(front);
        assert(valid_list::<T>(front)) by {
            assert forall|i: int| 0 <= i < front.len() implies T::valid(#[trigger] front[i]) by {
                assert(front[i] == list[i]);
            }
        }
        lemma_list_round_trip::<T>(front, last + rest);
        lemma_concat_assoc(before, last, rest);
        let bytes = wire_list::<T>(list) + rest;
        assert(bytes.skip(before.len() as int) =~= last + rest);
        T::lemma_round_trip(list.last(), rest);
        assert(front.push(list.last()) =~= list);
    }
}

/// Writes a list: each element in turn.
pub fn write_list<T: Writable>(list: &Vec<T>, w: &mut Writer) -> (res: Result<(), WriteError>)
    ensures
        old(w).appends(final(w), res, wire_list::<T>(models(list@))),
{
    let ghost first = *w;
    let ghost all = models(list@);
    let mut k: usize = 0;
    proof {
        w.lemma_within_limit();
        assert(w@ + Seq::<u8>::empty() =~= w@);
        assert(all.take(0) =~= Seq::<T::Model>::empty());
    }
    while k < list.len()
        invariant
            k <= list.len(),
            all == models(list@),
            first == *old(w),
            first.appends(w, Ok(()), wire_list::<T>(all.take(k as int))),
        decreases list.len() - k,
    {
        let ghost before = wire_list::<T>(all.take(k as int));
        let ghost mid = *w;
        proof {
            assert(all.take(k + 1).drop_last() =~= all.take(k as int));
        }
        let res = list[k].write_to(w);
        proof {
            first.lemma_appends_then(&mid, w, res, before, T::wire(all[k as int]));
        }
        match res {
            Ok(()) => {},
            Err(e) => {
                proof {
                    lemma_wire_list_grows::<T>(all, (k + 1) as nat);
                }
                return Err(e);
            },
        }
        k = k + 1;
    }
    proof {
        assert(all.take(k as int) =~= all);
    }
    Ok(())
}

/// The bytes of the first elements of a list are no more than those of the
/// whole list.
pub proof fn lemma_wire_list_grows<T: X11Size>(list: Seq<T::Model>, k: nat)
    requires
        k <= list.len(),
    ensures
        wire_list::<T>(list.take(k as int)).len() <= wire_list::<T>(list).len(),
    decreases list.len(),
{
    if k == list.len() {
        assert(list.take(k as int) =~= list);
    } else {
        lemma_wire_list_grows::<T>(list.drop_last(), k);
        assert(list.drop_last().take(k as int) =~= list.take(k as int));
    }
}

/// Reads a list of `count` elements: one after the other, as many as
/// `count` says, however many bytes are left.
pub fn read_list<T: Readable>(r: &mut Reader, count: usize) -> (res: Result<Vec<T>, ReadError>)
    ensures
        match parse_list::<T>(old(r)@, count as nat) {
            Ok((list, n)) => res is Ok && models(res->Ok_0@) == list && final(r)@ == old(r)@.skip(
                n as int,
            ),
            Err(e) => res is Err && res->Err_0 == e && final(r).rest_of(old(r)),
        },
{
    let ghost bytes = r@;
    let ghost mut at: nat = 0;
    let mut list: Vec<T> = Vec::new();
    let mut k: usize = 0;
    proof {
        assert(bytes.skip(0) =~= bytes);
        assert(models(list@) =~= Seq::<T::Model>::empty());
    }
    while k < count
        invariant
            k <= count,
            bytes == old(r)@,
            at <= bytes.len(),
            r@ == bytes.skip(at as int),
            parse_list::<T>(bytes, k as nat) == Ok::<(Seq<T::Model>, nat), ReadError>(
                (models(list@), at),
            ),
        decreases count - k,
    {
        proof {
            T::lemma_parse_sound(bytes.skip(at as int));
        }
        match T::read_from(r) {
            Ok(value) => {
                proof {
                    let n = T::parse(bytes.skip(at as int))->Ok_0.1;
                    lemma_skip_skip(bytes, at, n);
                    assert(models(list@.push(value)) =~= models(list@).push(value.model()));
                    at = at + n;
                }
                list.push(value);
            },
            Err(e) => {
                proof {
                    lemma_parse_list_fails_on::<T>(bytes, (k + 1) as nat, count as nat);
                    lemma_rest_of_skip(r@, bytes, at);
                }
                return Err(e);
            },
        }
        k = k + 1;
    }
    Ok(list)
}

/// A string of at most 255 one-byte characters that carries its length in
/// its first byte.
#[derive(Debug, PartialEq, Eq)]
pub struct LenString8 {
    bytes: Vec<u8>,
}

impl LenString8 {
    /// The characters of the string.
    pub closed spec fn spec_bytes(&self) -> Seq<u8> {
        self.bytes@
    }

    #[verifier::type_invariant]
    spec fn short(&self) -> bool {
        self.bytes@.len() <= 255
    }

    /// The string with the characters `bytes`, if they are at most 255.
    pub fn new(bytes: Vec<u8>) -> (string: Option<LenString8>)
        ensures
            bytes@.len() <= 255 ==> string is Some && string->Some_0.spec_bytes() == bytes@,
            bytes@.len() > 255 ==> string is None,
    {
        if bytes.len() <= 255 {
            Some(LenString8 { bytes })
        } else {
            None
        }
    }

    /// The characters of the string.
    pub fn bytes(&self) -> (bytes: &Vec<u8>)
        ensures
            bytes@ == self.spec_bytes(),
            bytes@.len() <= 255,
    {
        proof {
            use_type_invariant(self);
        }
        &self.bytes
    }
}

impl Clone for LenString8 {
    fn clone(&self) -> (copy: LenString8)
        ensures
            copy.spec_bytes() == self.spec_bytes(),
    {
        proof {
            use_type_invariant(self);
        }
        LenString8 { bytes: self.bytes.clone() }
    }
}

impl X11Size for LenString8 {
    type Model = Seq<u8>;

    /// A string stands for its characters.
    open spec fn model(&self) -> Seq<u8> {
        self.spec_bytes()
    }

    /// The length must fit in one byte.
    open spec fn valid(m: Seq<u8>) -> bool {
        m.len() <= 255
    }

    /// The length in one byte, then the characters.
    open spec fn wire(m: Seq<u8>) -> Seq<u8> {
        seq![m.len() as u8] + m
    }


    fn x11_size(&self) -> (n: usize) {
        1 + self.bytes().len()
    }
}

impl Writable for LenString8 {
    fn write_to(&self, w: &mut Writer) -> (res: Result<(), WriteError>) {
        let ghost first = *w;
        let bytes = self.bytes();
        match w.write_u8(bytes.len() as u8) {
            Ok(()) => {},
            Err(e) => {
                return Err(e);
            },
        }
        let ghost mid = *w;
        let res = w.write_raw(bytes.as_slice());
        proof {
            first.lemma_appends_then(&mid, w, res, seq![bytes@.len() as u8], bytes@);
        }
        res
    }
}

impl Readable for LenString8 {
    /// The first byte tells how many characters follow.
    open spec fn parse(bytes: Seq<u8>) -> Result<(Seq<u8>, nat), ReadError> {
        if bytes.len() < 1 || bytes.len() < 1 + bytes[0] {
            Err(ReadError::BufferUnderrun)
        } else {
            Ok((bytes.subrange(1, 1 + bytes[0]), (1 + bytes[0]) as nat))
        }
    }

    /// A read that fails for want of characters has read the length;
    /// one that fails for want of the length has read nothing.
    fn read_from(r: &mut Reader) -> (res: Result<LenString8, ReadError>)
        ensures
            res is Err && old(r)@.len() >= 1 ==> final(r)@ == old(r)@.skip(1),
            res is Err && old(r)@.len() < 1 ==> final(r)@ == old(r)@,
    {
        let ghost all = r@;
        let len = match r.read_u8() {
            Ok(len) => len,
            Err(e) => {
                return Err(e);
            },
        };
        match r.read_raw(len as usize) {
            Ok(bytes) => {
                proof {
                    assert(all.skip(1).take(len as int) =~= all.subrange(1, 1 + len));
                    lemma_skip_skip(all, 1, len as nat);
                }
                Ok(LenString8 { bytes })
            },
            Err(e) => Err(e),
        }
    }

    proof fn lemma_parse_sound(bytes: Seq<u8>) {
        if Self::parse(bytes) is Ok {
            let m = bytes.subrange(1, 1 + bytes[0]);
            assert(m.len() == bytes[0]);
        }
    }

    proof fn lemma_round_trip(m: Seq<u8>, rest: Seq<u8>) {
        let bytes = Self::wire(m) + rest;
        assert(bytes[0] == m.len() as u8);
        assert(bytes.subrange(1, (1 + m.len()) as int) =~= m);
    }
}

} // verus!
