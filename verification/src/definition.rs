//! Definitions of wire formats: what a record, a message or a tagged variant
//! holds, item by item, and how that is laid out in bytes.
//!
//! A definition is data. The functions of this module lay out, measure and
//! read back the values of any definition, so that a message type need not
//! bring code of its own: it is written down as a definition, and a value of
//! it is the bytes of each of its fields.

use vstd::prelude::*;
use crate::definition::message::{Struct, StructMetadata};
use crate::definition::variant::Enum;

pub mod grammar;
pub mod header;
pub mod item;
pub mod message;
pub mod syntax;
pub mod variant;

verus! {

/// The definition of a tagged variant, or of a record or a message.
#[derive(Clone, Debug, PartialEq, Eq)]
pub enum Definition {
    /// The definition of a tagged variant.
    Enum(Enum),
    /// The definition of a record or of a message.
    Struct(Struct),
}

/// A list of definitions that are defined together. A request names its
/// reply, and a reply its request, by the place it has in the list.
#[derive(Clone, Debug, PartialEq, Eq)]
pub struct Definitions(pub Vec<Definition>);

impl Definition {
    /// Whether the definition can be laid out.
    pub open spec fn well_formed(&self) -> bool {
        match self {
            Definition::Enum(definition) => definition.well_formed(),
            Definition::Struct(definition) => definition.well_formed(),
        }
    }

    /// The request that the definition is, if it is one.
    pub open spec fn spec_request(&self) -> Option<crate::definition::header::Request> {
        match self {
            Definition::Struct(definition) => match definition.metadata {
                StructMetadata::Request(request) => Some(request),
                _ => None,
            },
            _ => None,
        }
    }

    /// The reply that the definition is, if it is one.
    pub open spec fn spec_reply(&self) -> Option<crate::definition::header::Reply> {
        match self {
            Definition::Struct(definition) => match definition.metadata {
                StructMetadata::Reply(reply) => Some(reply),
                _ => None,
            },
            _ => None,
        }
    }

    /// Whether the definition can be laid out.
    pub fn is_well_formed(&self) -> (b: bool)
        ensures
            b == self.well_formed(),
    {
        match self {
            Definition::Enum(definition) => definition.is_well_formed(),
            Definition::Struct(definition) => definition.is_well_formed(),
        }
    }

    /// The request that the definition is, if it is one.
    #[verifier::when_used_as_spec(spec_request)]
    pub fn request(&self) -> (request: Option<crate::definition::header::Request>)
        ensures
            request == self.spec_request(),
    {
        match self {
            Definition::Struct(definition) => match definition.metadata {
                StructMetadata::Request(request) => Some(request),
                _ => None,
            },
            _ => None,
        }
    }

    /// The reply that the definition is, if it is one.
    #[verifier::when_used_as_spec(spec_reply)]
    pub fn reply(&self) -> (reply: Option<crate::definition::header::Reply>)
        ensures
            reply == self.spec_reply(),
    {
        match self {
            Definition::Struct(definition) => match definition.metadata {
                StructMetadata::Reply(reply) => Some(reply),
                _ => None,
            },
            _ => None,
        }
    }
}

/// Whether the definition at `k` names what it should: a request with a
/// reply names a reply in the list that names it back, and a reply names a
/// request in the list that names it back.
pub open spec fn paired(all: Seq<Definition>, k: int) -> bool {
    &&& all[k].spec_request() matches Some(request) ==> (request.reply matches Some(at) ==> at
        < all.len() && (all[at as int].spec_reply() matches Some(reply) && reply.request == k))
    &&& all[k].spec_reply() matches Some(reply) ==> reply.request < all.len() && (
    all[reply.request as int].spec_request() matches Some(request) && request.reply == Some(
        k as usize,
    ))
}

/// Whether every definition of the list can be laid out, and requests and
/// replies name one another.
pub open spec fn well_formed(all: Seq<Definition>) -> bool {
    forall|k: int| 0 <= k < all.len() ==> (#[trigger] all[k]).well_formed() && paired(all, k)
}

impl Definitions {
    /// Whether the definition at `k` names what it should.
    pub open spec fn paired(&self, k: int) -> bool {
        paired(self.0@, k)
    }

    /// Whether every definition of the list can be laid out, and requests
    /// and replies name one another.
    pub open spec fn well_formed(&self) -> bool {
        well_formed(self.0@)
    }

    /// Computes [`paired`](Definitions::paired).
    fn is_paired(&self, k: usize) -> (b: bool)
        requires
            k < self.0@.len(),
        ensures
            b == self.paired(k as int),
    {
        let named = match self.0[k].request() {
            Some(request) => match request.reply {
                Some(at) => if at < self.0.len() {
                    match self.0[at].reply() {
                        Some(reply) => reply.request == k,
                        None => false,
                    }
                } else {
                    false
                },
                None => true,
            },
            None => true,
        };
        let named_back = match self.0[k].reply() {
            Some(reply) => if reply.request < self.0.len() {
                match self.0[reply.request].request() {
                    Some(request) => match request.reply {
                        Some(at) => at == k,
                        None => false,
                    },
                    None => false,
                }
            } else {
                false
            },
            None => true,
        };
        named && named_back
    }

    /// Whether every definition of the list can be laid out, and requests
    /// and replies name one another. This is to be asked once of a list of
    /// definitions, before any value of them is written or read.
    pub fn is_well_formed(&self) -> (b: bool)
        ensures
            b == self.well_formed(),
    {
        let mut k: usize = 0;
        while k < self.0.len()
            invariant
                k <= self.0@.len(),
                forall|j: int|
                    0 <= j < k ==> (#[trigger] self.0@[j]).well_formed() && self.paired(j),
            decreases self.0@.len() - k,
        {
            if !self.0[k].is_well_formed() || !self.is_paired(k) {
                return false;
            }
            k = k + 1;
        }
        true
    }
}

} // verus!
