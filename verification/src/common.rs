//! Types that requests, replies and events share.

use vstd::prelude::*;
use crate::buffer::{lemma_be_len, lemma_de32_be32, Reader, Writer};
use crate::error::{ReadError, WriteError};
use crate::wire::{Readable, Writable, X11Size};

pub mod set;

verus! {

/// The resource ID of a window.
#[derive(Clone, Copy, Debug, Hash, PartialEq, Eq, Structural)]
pub struct Window {
    id: u32,
}

impl Window {
    /// The window with the resource ID `id`.
    pub fn new(id: u32) -> (window: Window)
        ensures
            window.spec_id() == id,
    {
        Window { id }
    }

    /// The window with the resource ID zero, which no window has.
    pub fn empty() -> (window: Window)
        ensures
            window.spec_id() == 0,
    {
        Window { id: 0 }
    }

    /// The resource ID.
    pub closed spec fn spec_id(&self) -> u32 {
        self.id
    }

    /// The resource ID.
    #[verifier::when_used_as_spec(spec_id)]
    pub fn id(&self) -> (id: u32)
        ensures
            id == self.spec_id(),
    {
        self.id
    }
}

impl X11Size for Window {
    type Model = u32;

    /// A window stands for its resource ID.
    open spec fn model(&self) -> u32 {
        self.spec_id()
    }

    open spec fn valid(m: u32) -> bool {
        true
    }

    open spec fn wire(m: u32) -> Seq<u8> {
        u32::wire(m)
    }


    fn x11_size(&self) -> (n: usize) {
        proof {
            lemma_be_len();
        }
        4
    }
}

impl Writable for Window {
    fn write_to(&self, w: &mut Writer) -> (res: Result<(), WriteError>) {
        w.write_u32(self.id)
    }
}

impl Readable for Window {
    open spec fn parse(bytes: Seq<u8>) -> Result<(u32, nat), ReadError> {
        u32::parse(bytes)
    }

    fn read_from(r: &mut Reader) -> (res: Result<Window, ReadError>)
        ensures
            res is Err ==> final(r)@ == old(r)@,
    {
        match r.read_u32() {
            Ok(id) => Ok(Window { id }),
            Err(e) => Err(e),
        }
    }

    proof fn lemma_parse_sound(bytes: Seq<u8>) {
        lemma_be_len();
    }

    proof fn lemma_round_trip(m: u32, rest: Seq<u8>) {
        lemma_be_len();
        lemma_de32_be32(m, rest);
    }
}

/// How a window is stacked among its siblings.
#[derive(Clone, Copy, Debug, Hash, PartialEq, Eq, Structural)]
pub enum StackMode {
    /// Above the sibling, or above all siblings.
    Above,
    /// Below the sibling, or below all siblings.
    Below,
    /// At the top if a sibling occludes it.
    TopIf,
    /// At the bottom if it occludes a sibling.
    BottomIf,
    /// At the top if a sibling occludes it, else at the bottom if it occludes
    /// a sibling.
    Opposite,
}

impl StackMode {
    /// The number that stands for this mode on the wire.
    pub open spec fn spec_code(self) -> u8 {
        match self {
            StackMode::Above => 0,
            StackMode::Below => 1,
            StackMode::TopIf => 2,
            StackMode::BottomIf => 3,
            StackMode::Opposite => 4,
        }
    }

    /// The mode that `code` stands for, where it stands for one.
    pub open spec fn spec_from_code(code: int) -> Option<StackMode> {
        if code == 0 {
            Some(StackMode::Above)
        } else if code == 1 {
            Some(StackMode::Below)
        } else if code == 2 {
            Some(StackMode::TopIf)
        } else if code == 3 {
            Some(StackMode::BottomIf)
        } else if code == 4 {
            Some(StackMode::Opposite)
        } else {
            None
        }
    }

    /// The number that stands for this mode on the wire.
    #[verifier::when_used_as_spec(spec_code)]
    pub fn code(self) -> (code: u8)
        ensures
            code == self.spec_code(),
    {
        match self {
            StackMode::Above => 0,
            StackMode::Below => 1,
            StackMode::TopIf => 2,
            StackMode::BottomIf => 3,
            StackMode::Opposite => 4,
        }
    }

    /// The mode that `code` stands for, where it stands for one.
    pub fn from_code(code: u32) -> (mode: Option<StackMode>)
        ensures
            mode == StackMode::spec_from_code(code as int),
    {
        if code == 0 {
            Some(StackMode::Above)
        } else if code == 1 {
            Some(StackMode::Below)
        } else if code == 2 {
            Some(StackMode::TopIf)
        } else if code == 3 {
            Some(StackMode::BottomIf)
        } else if code == 4 {
            Some(StackMode::Opposite)
        } else {
            None
        }
    }
}

} // verus!
