//! Sets of optional fields whose presence a bitmask declares.

use vstd::prelude::*;
use crate::buffer::Reader;
use crate::error::ReadError;
use crate::wire::{Readable, X11Size};

pub mod window_configs;

verus! {

/// What an optional value stands for.
pub open spec fn model_of<T: X11Size>(value: Option<T>) -> Option<T::Model> {
    match value {
        Some(v) => Some(v.model()),
        None => None,
    }
}

/// The bytes of an optional field of a set: those of the value where there
/// is one, and none at all where there is not.
pub open spec fn wire_set_value<T: X11Size>(value: Option<T::Model>) -> Seq<u8> {
    match value {
        Some(m) => T::wire(m),
        None => Seq::empty(),
    }
}

/// What reading an optional field of a set from `bytes` gives: a value where
/// the field is present, and nothing, with no byte consumed, where it is not.
pub open spec fn parse_set_value<T: Readable>(bytes: Seq<u8>, present: bool) -> Result<
    (Option<T::Model>, nat),
    ReadError,
> {
    if present {
        match T::parse(bytes) {
            Ok((m, n)) => Ok((Some(m), n)),
            Err(e) => Err(e),
        }
    } else {
        Ok((None, 0))
    }
}

/// What reading an optional field of a set gives when the field starts `at`
/// bytes into `bytes`: the field, and where the next one starts.
#[verifier::opaque]
pub open spec fn parse_field<T: Readable>(bytes: Seq<u8>, at: nat, present: bool) -> Result<
    (Option<T::Model>, nat),
    ReadError,
> {
    match parse_set_value::<T>(bytes.skip(at as int), present) {
        Ok((m, n)) => Ok((m, at + n)),
        Err(e) => Err(e),
    }
}

/// Reads an optional field of a set: a value if `present`, nothing otherwise.
/// The size of what was read is added to `x11_size`.
pub fn read_set_value<T: Readable>(r: &mut Reader, x11_size: &mut usize, present: bool) -> (res:
    Result<Option<T>, ReadError>)
    requires
        *old(x11_size) + old(r)@.len() <= usize::MAX,
    ensures
        match parse_set_value::<T>(old(r)@, present) {
            Ok((m, n)) => res is Ok && model_of(res->Ok_0) == m && final(r)@ == old(r)@.skip(
                n as int,
            ) && *final(x11_size) == *old(x11_size) + n && n <= old(r)@.len(),
            Err(e) => res is Err && res->Err_0 == e && final(r).rest_of(old(r)),
        },
{
    if !present {
        assert(r@.skip(0) =~= r@);
        return Ok(None);
    }
    proof {
        T::lemma_parse_sound(r@);
    }
    match T::read_from(r) {
        Ok(value) => {
            *x11_size = *x11_size + value.x11_size();
            Ok(Some(value))
        },
        Err(e) => Err(e),
    }
}

/// Reading the bytes of an optional field gives the field back, whatever
/// follows them.
pub proof fn lemma_set_value_round_trip<T: Readable>(value: Option<T::Model>, rest: Seq<u8>)
    requires
        value matches Some(m) ==> T::valid(m),
    ensures
        parse_set_value::<T>(wire_set_value::<T>(value) + rest, value is Some) == Ok::<
            (Option<T::Model>, nat),
            ReadError,
        >((value, wire_set_value::<T>(value).len())),
        (wire_set_value::<T>(value) + rest).skip(wire_set_value::<T>(value).len() as int) == rest,
{
    match value {
        Some(m) => {
            T::lemma_round_trip(m, rest);
        },
        None => {
            assert(Seq::<u8>::empty() + rest =~= rest);
        },
    }
    assert((wire_set_value::<T>(value) + rest).skip(wire_set_value::<T>(value).len() as int)
        =~= rest);
}

/// A field that is read is there if and only if it was declared present, it
/// is a value that the format can carry, and the next field starts right
/// after its bytes, within the bytes that were given.
pub proof fn lemma_field_sound<T: Readable>(bytes: Seq<u8>, at: nat, present: bool)
    requires
        at <= bytes.len(),
    ensures
        parse_field::<T>(bytes, at, present) matches Ok((m, next)) ==> {
            &&& m is Some <==> present
            &&& m matches Some(v) ==> T::valid(v)
            &&& next == at + wire_set_value::<T>(m).len()
            &&& next <= bytes.len()
        },
{
    reveal(parse_field);
    T::lemma_parse_sound(bytes.skip(at as int));
}

/// Reading an optional field where its bytes start gives the field back, and
/// the next field starts right after them.
pub proof fn lemma_field_round_trip<T: Readable>(
    before: Seq<u8>,
    value: Option<T::Model>,
    after: Seq<u8>,
)
    requires
        value matches Some(m) ==> T::valid(m),
    ensures
        parse_field::<T>(
            before + (wire_set_value::<T>(value) + after),
            before.len(),
            value is Some,
        ) == Ok::<(Option<T::Model>, nat), ReadError>(
            (value, before.len() + wire_set_value::<T>(value).len()),
        ),
{
    reveal(parse_field);
    let field = wire_set_value::<T>(value) + after;
    assert((before + field).skip(before.len() as int) =~= field);
    lemma_set_value_round_trip::<T>(value, after);
}

} // verus!
