//! Tagged variants: one byte that tells which case follows, and the items
//! of that case.
//!
//! The cases are numbered from zero in the order they are defined. A case
//! may name its own number; the cases after it are numbered on from there.

use vstd::prelude::*;
use crate::buffer::{lemma_rest_of_skip, Reader, Writer};
use crate::definition::item::{
    accepts,
    body,
    bytes_of,
    conforms,
    is_well_formed,
    lemma_items_round_trip,
    lemma_no_metabyte,
    measure,
    none_is_metabyte,
    parse_items,
    read_back,
    read_items,
    well_formed,
    write_items,
    Item,
};
use crate::error::{MessageError, ReadError, WriteError};

verus! {

/// One case of a tagged variant.
#[derive(Clone, Debug, PartialEq, Eq)]
pub struct Variant {
    /// The discriminant of the case, if it names one. A case that names
    /// none has the discriminant after that of the case before it, and the
    /// first case has zero.
    pub discriminant: Option<u8>,
    /// The items of the case, in the order of the wire.
    pub items: Vec<Item>,
}

/// The definition of a tagged variant: its cases, in the order they are
/// tried when a value is read.
#[derive(Clone, Debug, PartialEq, Eq)]
pub struct Enum {
    /// The cases.
    pub variants: Vec<Variant>,
}

/// A value of a tagged variant: one of its cases, with the bytes of each
/// item of that case.
#[derive(Clone, Debug, PartialEq, Eq)]
pub struct Case {
    /// The place of the case among the cases of the definition.
    pub variant: usize,
    /// For each item of the case, its bytes.
    pub values: Vec<Vec<u8>>,
}

/// What a value of a tagged variant stands for.
pub struct CaseModel {
    /// The place of the case.
    pub variant: nat,
    /// The bytes of each item.
    pub values: Seq<Seq<u8>>,
}

impl View for Case {
    type V = CaseModel;

    open spec fn view(&self) -> CaseModel {
        CaseModel { variant: self.variant as nat, values: bytes_of(self.values@) }
    }
}

/// The discriminant after `d`. After 255 comes 0: a discriminant is one
/// byte.
pub open spec fn following(d: u8) -> u8 {
    if d == 255 {
        0
    } else {
        (d + 1) as u8
    }
}

impl Enum {
    /// The discriminant of the case at `k`: the one it names, or else the
    /// one after that of the case before it, or zero for the first case.
    pub open spec fn spec_discriminant(&self, k: int) -> u8
        recommends
            0 <= k < self.variants@.len(),
        decreases k,
    {
        match self.variants@[k].discriminant {
            Some(d) => d,
            None => if k <= 0 {
                0
            } else {
                following(self.spec_discriminant(k - 1))
            },
        }
    }

    /// The first case from `from` on whose discriminant is `tag`, if there
    /// is one.
    pub open spec fn find(&self, tag: u8, from: nat) -> Option<nat>
        decreases self.variants@.len() - from,
    {
        if from >= self.variants@.len() {
            None
        } else if self.spec_discriminant(from as int) == tag {
            Some(from)
        } else {
            self.find(tag, from + 1)
        }
    }

    /// Whether the definition can be laid out: the items of each case fit
    /// together, none is marked as metabyte (a variant has no header to
    /// carry it), and no two cases have the same discriminant.
    pub open spec fn well_formed(&self) -> bool {
        &&& forall|k: int|
            0 <= k < self.variants@.len() ==> well_formed(#[trigger] self.variants@[k].items@)
        &&& forall|k: int, i: int|
            0 <= k < self.variants@.len() && 0 <= i < self.variants@[k].items@.len() ==> !(
            #[trigger] self.variants@[k].items@[i].spec_is_metabyte())
        &&& forall|j: int, k: int|
            0 <= j < k < self.variants@.len() ==> #[trigger] self.spec_discriminant(j)
                != #[trigger] self.spec_discriminant(k)
    }

    /// The bytes of the items of `c`, after the discriminant.
    pub open spec fn body(&self, c: CaseModel) -> Seq<u8> {
        let items = self.variants@[c.variant as int].items@;
        body(items, c.values, items.len(), 1, 0)
    }

    /// Whether `c` is a value of the definition: its case is one of the
    /// cases, it has the bytes that each item of the case asks for, and a
    /// `usize` can hold its length.
    pub open spec fn conforms(&self, c: CaseModel) -> bool {
        &&& c.variant < self.variants@.len()
        &&& conforms(self.variants@[c.variant as int].items@, c.values)
        &&& 1 + self.body(c).len() <= usize::MAX
    }

    /// The bytes of `c` on the wire: the discriminant of its case, then its
    /// items.
    pub open spec fn wire(&self, c: CaseModel) -> Seq<u8> {
        seq![self.spec_discriminant(c.variant as int)] + self.body(c)
    }

    /// What reading a value of the definition from `bytes` gives: the value
    /// and the number of bytes consumed, or the error that stops the read.
    /// The first byte is the discriminant. The cases are tried in their
    /// order, and a discriminant that no case has is unrecognized.
    pub open spec fn parse(&self, bytes: Seq<u8>) -> Result<(CaseModel, nat), ReadError> {
        if bytes.len() < 1 {
            Err(ReadError::BufferUnderrun)
        } else {
            match self.find(bytes[0], 0) {
                None => Err(ReadError::UnrecognizedDiscriminant(bytes[0] as usize)),
                Some(k) => {
                    let items = self.variants@[k as int].items@;
                    match parse_items(items, items.len(), bytes.skip(1), 1, 0, 0) {
                        Ok(read) => Ok(
                            (CaseModel { variant: k, values: read.values }, (1 + read.at) as nat),
                        ),
                        Err(e) => Err(e),
                    }
                },
            }
        }
    }

    /// A case that names its discriminant has that discriminant. A case that
    /// names none has the discriminant after that of the case before it,
    /// named or not, and zero if it is the first.
    pub proof fn lemma_discriminants_continue(&self, k: int)
        requires
            0 <= k < self.variants@.len(),
        ensures
            self.spec_discriminant(k) == match self.variants@[k].discriminant {
                Some(d) => d,
                None => if k == 0 {
                    0
                } else {
                    following(self.spec_discriminant(k - 1))
                },
            },
    {
    }

    /// A case that is found is one of the cases, none before it from where
    /// the search began has the discriminant, and it has.
    pub proof fn lemma_find(&self, tag: u8, from: nat)
        ensures
            match self.find(tag, from) {
                Some(k) => {
                    &&& from <= k < self.variants@.len()
                    &&& self.spec_discriminant(k as int) == tag
                    &&& forall|j: int| from <= j < k ==> #[trigger] self.spec_discriminant(j) != tag
                },
                None => forall|j: int|
                    from <= j < self.variants@.len() ==> #[trigger] self.spec_discriminant(j)
                        != tag,
            },
        decreases self.variants@.len() - from,
    {
        if from < self.variants@.len() && self.spec_discriminant(from as int) != tag {
            self.lemma_find(tag, from + 1);
        }
    }

    /// Where no two cases have the same discriminant, the discriminant of a
    /// case finds that case.
    pub proof fn lemma_found(&self, k: nat)
        requires
            self.well_formed(),
            k < self.variants@.len(),
        ensures
            self.find(self.spec_discriminant(k as int), 0) == Some(k),
    {
        self.lemma_find(self.spec_discriminant(k as int), 0);
    }

    /// Reading the bytes of a value of the definition gives the value back
    /// and consumes exactly those bytes.
    pub proof fn lemma_round_trip(&self, c: CaseModel)
        requires
            self.well_formed(),
            self.conforms(c),
        ensures
            self.parse(self.wire(c)) == Ok::<(CaseModel, nat), ReadError>((c, self.wire(c).len())),
    {
        let items = self.variants@[c.variant as int].items@;
        let bytes = self.wire(c);
        assert(bytes.skip(1) =~= self.body(c));
        self.lemma_found(c.variant);
        lemma_no_metabyte(items, c.values, items.len());
        lemma_items_round_trip(items, c.values, items.len(), 1, 0);
        assert(read_back(items, c.values, items.len(), 1, 0).values =~= c.values);
    }

    /// The discriminant of the case at `k`.
    pub fn discriminant(&self, k: usize) -> (d: u8)
        requires
            k < self.variants@.len(),
        ensures
            d == self.spec_discriminant(k as int),
    {
        let all = self.discriminants();
        all[k]
    }

    /// The discriminant of each case, in the order of the cases.
    pub fn discriminants(&self) -> (all: Vec<u8>)
        ensures
            all@.len() == self.variants@.len(),
            forall|k: int| 0 <= k < all@.len() ==> all@[k] == self.spec_discriminant(k),
    {
        let mut all: Vec<u8> = Vec::new();
        let mut i: usize = 0;
        while i < self.variants.len()
            invariant
                i <= self.variants@.len(),
                all@.len() == i,
                forall|k: int| 0 <= k < i ==> all@[k] == self.spec_discriminant(k),
            decreases self.variants@.len() - i,
        {
            let d = match self.variants[i].discriminant {
                Some(named) => named,
                None => if i == 0 {
                    0
                } else if all[i - 1] == 255 {
                    0
                } else {
                    all[i - 1] + 1
                },
            };
            proof {
                if self.variants@[i as int].discriminant is None && i > 0 {
                    assert(all@[i - 1] == self.spec_discriminant(i - 1));
                    assert(self.spec_discriminant(i as int) == following(
                        self.spec_discriminant(i as int - 1),
                    ));
                }
            }
            all.push(d);
            i = i + 1;
        }
        all
    }

    /// The first case whose discriminant is `tag`, if there is one.
    pub fn case_of(&self, tag: u8) -> (found: Option<usize>)
        ensures
            match found {
                Some(k) => self.find(tag, 0) == Some(k as nat),
                None => self.find(tag, 0) is None,
            },
    {
        let all = self.discriminants();
        let mut i: usize = 0;
        while i < all.len()
            invariant
                i <= all@.len(),
                all@.len() == self.variants@.len(),
                forall|k: int| 0 <= k < all@.len() ==> all@[k] == self.spec_discriminant(k),
                self.find(tag, 0) == self.find(tag, i as nat),
            decreases all@.len() - i,
        {
            if all[i] == tag {
                return Some(i);
            }
            i = i + 1;
        }
        None
    }
}

impl Enum {
    /// Whether the definition can be laid out. This is to be asked once of
    /// each definition, before any value of it is written or read.
    pub fn is_well_formed(&self) -> (b: bool)
        ensures
            b == self.well_formed(),
    {
        let mut k: usize = 0;
        while k < self.variants.len()
            invariant
                k <= self.variants@.len(),
                forall|c: int| 0 <= c < k ==> well_formed(#[trigger] self.variants@[c].items@),
                forall|c: int, i: int|
                    0 <= c < k && 0 <= i < self.variants@[c].items@.len() ==> !(
                    #[trigger] self.variants@[c].items@[i].spec_is_metabyte()),
            decreases self.variants@.len() - k,
        {
            if !is_well_formed(&self.variants[k].items) {
                return false;
            }
            if !none_is_metabyte(&self.variants[k].items) {
                return false;
            }
            k = k + 1;
        }
        let all = self.discriminants();
        let mut k: usize = 0;
        while k < all.len()
            invariant
                k <= all@.len(),
                all@.len() == self.variants@.len(),
                forall|c: int| 0 <= c < all@.len() ==> all@[c] == self.spec_discriminant(c),
                forall|c: int| 0 <= c < all@.len() ==> well_formed(#[trigger] self.variants@[c].items@),
                forall|c: int, i: int|
                    0 <= c < all@.len() && 0 <= i < self.variants@[c].items@.len() ==> !(
                    #[trigger] self.variants@[c].items@[i].spec_is_metabyte()),
                forall|a: int, b: int|
                    0 <= a < b < k ==> #[trigger] self.spec_discriminant(a)
                        != #[trigger] self.spec_discriminant(b),
            decreases all@.len() - k,
        {
            let mut j: usize = 0;
            while j < k
                invariant
                    j <= k < all@.len(),
                    all@.len() == self.variants@.len(),
                    forall|c: int| 0 <= c < all@.len() ==> all@[c] == self.spec_discriminant(c),
                    forall|a: int|
                        0 <= a < j ==> #[trigger] self.spec_discriminant(a)
                            != self.spec_discriminant(k as int),
                decreases k - j,
            {
                if all[j] == all[k] {
                    assert(self.spec_discriminant(j as int) == self.spec_discriminant(k as int));
                    return false;
                }
                j = j + 1;
            }
            k = k + 1;
        }
        true
    }

    /// Whether `case` is a value of the definition.
    pub fn accepts(&self, case: &Case) -> (b: bool)
        requires
            self.well_formed(),
        ensures
            b == self.conforms(case@),
    {
        if case.variant >= self.variants.len() {
            return false;
        }
        let items = &self.variants[case.variant].items;
        if !accepts(items, &case.values) {
            return false;
        }
        measure(items, &case.values, 1, 0).is_some()
    }

    /// The number of bytes of `case` on the wire: one for the discriminant,
    /// and those of the items.
    pub fn x11_size(&self, case: &Case) -> (n: usize)
        requires
            self.well_formed(),
            self.conforms(case@),
        ensures
            n == self.wire(case@).len(),
            n == 1 + self.body(case@).len(),
    {
        match measure(&self.variants[case.variant].items, &case.values, 1, 0) {
            Some(total) => total,
            // A `usize` holds the size of every value of the definition.
            None => 0,
        }
    }

    /// Writes `case`: the discriminant of its case, then its items.
    pub fn write_to(&self, case: &Case, w: &mut Writer) -> (res: Result<(), WriteError>)
        requires
            self.well_formed(),
            self.conforms(case@),
        ensures
            old(w).appends(final(w), res, self.wire(case@)),
    {
        let ghost first = *w;
        let tag = self.discriminant(case.variant);
        match w.write_u8(tag) {
            Ok(()) => {},
            Err(e) => {
                return Err(e);
            },
        }
        let ghost mid = *w;
        let res = write_items(&self.variants[case.variant].items, &case.values, 1, 0, w);
        proof {
            first.lemma_appends_then(&mid, w, res, seq![tag], self.body(case@));
        }
        res
    }

    /// Writes `case` if the definition can be laid out and `case` is a value
    /// of it, and says which of the two is not so otherwise.
    pub fn try_write_to(&self, case: &Case, w: &mut Writer) -> (res: Result<(), MessageError>)
        ensures
            !self.well_formed() ==> res == Err::<(), MessageError>(MessageError::Definition)
                && final(w)@ == old(w)@,
            self.well_formed() && !self.conforms(case@) ==> res == Err::<(), MessageError>(
                MessageError::Value,
            ) && final(w)@ == old(w)@,
            self.well_formed() && self.conforms(case@) ==> match res {
                Ok(()) => old(w).appends(final(w), Ok(()), self.wire(case@)),
                Err(MessageError::Write(e)) => old(w).appends(final(w), Err(e), self.wire(case@)),
                Err(_) => false,
            },
    {
        if !self.is_well_formed() {
            return Err(MessageError::Definition);
        }
        if !self.accepts(case) {
            return Err(MessageError::Value);
        }
        match self.write_to(case, w) {
            Ok(()) => Ok(()),
            Err(e) => Err(MessageError::Write(e)),
        }
    }

    /// Reads a value of the definition off the front of `r` if the
    /// definition can be laid out, and says that it cannot otherwise.
    pub fn try_read_from(&self, r: &mut Reader) -> (res: Result<Case, MessageError>)
        ensures
            !self.well_formed() ==> res == Err::<Case, MessageError>(MessageError::Definition)
                && final(r)@ == old(r)@,
            self.well_formed() ==> match self.parse(old(r)@) {
                Ok((c, n)) => res is Ok && res->Ok_0@ == c && final(r)@ == old(r)@.skip(n as int),
                Err(e) => res == Err::<Case, MessageError>(MessageError::Read(e)) && final(r).rest_of(
                    old(r),
                ),
            },
    {
        if !self.is_well_formed() {
            return Err(MessageError::Definition);
        }
        match self.read_from(r) {
            Ok(case) => Ok(case),
            Err(e) => Err(MessageError::Read(e)),
        }
    }

    /// Reads a value of the definition off the front of `r`. Where the
    /// discriminant is that of no case, that one byte has been read and no
    /// other; where there is no byte for it, none has been read.
    pub fn read_from(&self, r: &mut Reader) -> (res: Result<Case, ReadError>)
        requires
            self.well_formed(),
        ensures
            match self.parse(old(r)@) {
                Ok((c, n)) => res is Ok && res->Ok_0@ == c && final(r)@ == old(r)@.skip(n as int),
                Err(e) => res is Err && res->Err_0 == e && final(r).rest_of(old(r)),
            },
            old(r)@.len() < 1 ==> final(r)@ == old(r)@,
            old(r)@.len() >= 1 && self.find(old(r)@[0], 0) is None ==> final(r)@ == old(r)@.skip(1),
    {
        let ghost bytes = r@;
        let tag = match r.read_u8() {
            Ok(tag) => tag,
            Err(e) => {
                return Err(e);
            },
        };
        proof {
            self.lemma_find(tag, 0);
        }
        let variant = match self.case_of(tag) {
            Some(variant) => variant,
            None => {
                return Err(ReadError::UnrecognizedDiscriminant(tag as usize));
            },
        };
        match read_items(&self.variants[variant].items, r, 1, 0, 0) {
            Ok(values) => {
                proof {
                    let items = self.variants@[variant as int].items@;
                    let read = parse_items(items, items.len(), bytes.skip(1), 1, 0, 0)->Ok_0;
                    assert(bytes.skip(1).skip(read.at as int) =~= bytes.skip((1 + read.at) as int));
                }
                Ok(Case { variant, values })
            },
            Err(e) => {
                proof {
                    lemma_rest_of_skip(r@, bytes, 1);
                }
                Err(e)
            },
        }
    }
}

} // verus!
