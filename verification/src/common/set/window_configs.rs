//! The set of options with which a window is configured.
//!
//! On the wire the set is a 16-bit mask, two unused bytes, and then one
//! four-byte slot for each option that the mask declares, in a fixed order:
//! x, y, width, height, border width, sibling, stack mode. An option that is
//! not configured takes no bytes at all.
//!
//! The coordinates, the dimensions and the border width are 16-bit values
//! that nonetheless travel in four-byte slots.

use vstd::prelude::*;
use crate::buffer::{
    be16,
    be32,
    de16,
    de32,
    is_rest,
    lemma_be_len,
    lemma_de16_be16,
    lemma_de32_be32,
    lemma_rest_of_skip,
    Reader,
    Writer,
};
use crate::common::set::{
    lemma_field_round_trip,
    lemma_field_sound,
    model_of,
    parse_field,
    read_set_value,
    wire_set_value,
};
use crate::common::{StackMode, Window};
use crate::error::{ReadError, WriteError};
use crate::wire::{lemma_concat_assoc, lemma_skip_skip, Readable, Writable, X11Size};

verus! {

/// A mask of the options that a set configures: one bit for each.
#[derive(Clone, Copy, Debug, Hash, PartialEq, Eq, Structural)]
pub struct WindowConfigMask {
    bits: u16,
}

/// Whether `bits` has every bit of `flag` set.
pub open spec fn flagged(bits: u16, flag: u16) -> bool {
    bits & flag == flag
}

/// The number of options that a mask with the bits `bits` declares.
pub open spec fn declared(bits: u16) -> nat {
    (if flagged(bits, WindowConfigMask::X) { 1nat } else { 0nat })
    + (if flagged(bits, WindowConfigMask::Y) { 1nat } else { 0nat })
    + (if flagged(bits, WindowConfigMask::WIDTH) { 1nat } else { 0nat })
    + (if flagged(bits, WindowConfigMask::HEIGHT) { 1nat } else { 0nat })
    + (if flagged(bits, WindowConfigMask::BORDER_WIDTH) { 1nat } else { 0nat })
    + (if flagged(bits, WindowConfigMask::SIBLING) { 1nat } else { 0nat })
    + (if flagged(bits, WindowConfigMask::STACK_MODE) { 1nat } else { 0nat })
}

impl WindowConfigMask {
    /// No bit is set but those that stand for an option.
    #[verifier::type_invariant]
    spec fn known(self) -> bool {
        self.bits & 0x007f == self.bits
    }

    /// Whether the x coordinate is configured.
    pub const X: u16 = 0x0001;

    /// Whether the y coordinate is configured.
    pub const Y: u16 = 0x0002;

    /// Whether the width is configured.
    pub const WIDTH: u16 = 0x0004;

    /// Whether the height is configured.
    pub const HEIGHT: u16 = 0x0008;

    /// Whether the width of the border is configured.
    pub const BORDER_WIDTH: u16 = 0x0010;

    /// Whether a sibling is configured.
    pub const SIBLING: u16 = 0x0020;

    /// Whether the stack mode is configured.
    pub const STACK_MODE: u16 = 0x0040;

    /// Every bit that stands for an option.
    pub const ALL: u16 = 0x007f;

    /// The bits of the mask.
    pub closed spec fn spec_bits(&self) -> u16 {
        self.bits
    }

    /// The mask with no bit set.
    pub fn empty() -> (mask: WindowConfigMask)
        ensures
            mask.spec_bits() == 0,
    {
        assert(0u16 & 0x007f == 0u16) by (bit_vector);
        WindowConfigMask { bits: 0 }
    }

    /// The mask with the bits of `bits` that stand for an option; the others
    /// are dropped.
    pub fn from_bits_truncate(bits: u16) -> (mask: WindowConfigMask)
        ensures
            mask.spec_bits() == bits & WindowConfigMask::ALL,
    {
        assert((bits & 0x007f) & 0x007f == bits & 0x007f) by (bit_vector);
        WindowConfigMask { bits: bits & WindowConfigMask::ALL }
    }

    /// The mask with the bits of `flag` set as well.
    pub fn with(self, flag: u16) -> (mask: WindowConfigMask)
        ensures
            mask.spec_bits() == (self.spec_bits() | flag) & WindowConfigMask::ALL,
    {
        let bits = self.bits | flag;
        assert((bits & 0x007f) & 0x007f == bits & 0x007f) by (bit_vector);
        WindowConfigMask { bits: bits & WindowConfigMask::ALL }
    }

    /// The bits of the mask.
    #[verifier::when_used_as_spec(spec_bits)]
    pub fn bits(&self) -> (bits: u16)
        ensures
            bits == self.spec_bits(),
    {
        self.bits
    }

    /// Whether the mask has every bit of `flag` set.
    pub fn contains(&self, flag: u16) -> (b: bool)
        ensures
            b == flagged(self.spec_bits(), flag),
    {
        self.bits & flag == flag
    }
}

impl X11Size for WindowConfigMask {
    type Model = u16;

    /// A mask stands for its bits.
    open spec fn model(&self) -> u16 {
        self.spec_bits()
    }

    /// Only the bits that stand for an option can be set.
    open spec fn valid(m: u16) -> bool {
        m & WindowConfigMask::ALL == m
    }

    open spec fn wire(m: u16) -> Seq<u8> {
        be16(m)
    }


    fn x11_size(&self) -> (n: usize) {
        proof {
            use_type_invariant(self);
            lemma_be_len();
        }
        2
    }
}

impl Writable for WindowConfigMask {
    fn write_to(&self, w: &mut Writer) -> (res: Result<(), WriteError>) {
        w.write_u16(self.bits)
    }
}

impl Readable for WindowConfigMask {
    /// Bits that stand for no option are dropped.
    open spec fn parse(bytes: Seq<u8>) -> Result<(u16, nat), ReadError> {
        if bytes.len() >= 2 {
            Ok((de16(bytes) & WindowConfigMask::ALL, 2))
        } else {
            Err(ReadError::BufferUnderrun)
        }
    }

    /// With fewer than two bytes left nothing is read.
    fn read_from(r: &mut Reader) -> (res: Result<WindowConfigMask, ReadError>)
        ensures
            res is Err ==> final(r)@ == old(r)@,
    {
        match r.read_u16() {
            Ok(bits) => Ok(WindowConfigMask::from_bits_truncate(bits)),
            Err(e) => Err(e),
        }
    }

    proof fn lemma_parse_sound(bytes: Seq<u8>) {
        let raw = de16(bytes);
        assert((raw & 0x007f) & 0x007f == raw & 0x007f) by (bit_vector);
        lemma_be_len();
    }

    proof fn lemma_round_trip(m: u16, rest: Seq<u8>) {
        lemma_be_len();
        lemma_de16_be16(m, rest);
    }
}

/// A stack mode as it travels in a set: in a four-byte slot.
#[derive(Clone, Copy, Debug, Hash, PartialEq, Eq, Structural)]
pub struct StackModeSlot(pub StackMode);

impl X11Size for StackModeSlot {
    type Model = StackMode;

    open spec fn model(&self) -> StackMode {
        self.0
    }

    open spec fn valid(m: StackMode) -> bool {
        true
    }

    /// The code of the mode as a 32-bit integer.
    open spec fn wire(m: StackMode) -> Seq<u8> {
        be32(m.spec_code() as u32)
    }


    fn x11_size(&self) -> (n: usize) {
        proof {
            lemma_be_len();
        }
        4
    }
}

impl Writable for StackModeSlot {
    fn write_to(&self, w: &mut Writer) -> (res: Result<(), WriteError>) {
        w.write_u32(self.0.code() as u32)
    }
}

impl Readable for StackModeSlot {
    /// A 32-bit integer that is the code of no mode is an unrecognized
    /// discriminant.
    open spec fn parse(bytes: Seq<u8>) -> Result<(StackMode, nat), ReadError> {
        if bytes.len() >= 4 {
            match StackMode::spec_from_code(de32(bytes) as int) {
                Some(mode) => Ok((mode, 4)),
                None => Err(ReadError::UnrecognizedDiscriminant(de32(bytes) as usize)),
            }
        } else {
            Err(ReadError::BufferUnderrun)
        }
    }

    /// Reads the four bytes of the slot, whatever code they hold. With
    /// fewer than four bytes left nothing is read.
    fn read_from(r: &mut Reader) -> (res: Result<StackModeSlot, ReadError>)
        ensures
            old(r)@.len() >= 4 ==> final(r)@ == old(r)@.skip(4),
            old(r)@.len() < 4 ==> final(r)@ == old(r)@,
    {
        match r.read_u32() {
            Ok(code) => match StackMode::from_code(code) {
                Some(mode) => Ok(StackModeSlot(mode)),
                None => Err(ReadError::UnrecognizedDiscriminant(code as usize)),
            },
            Err(e) => Err(e),
        }
    }

    proof fn lemma_parse_sound(bytes: Seq<u8>) {
        lemma_be_len();
    }

    proof fn lemma_round_trip(m: StackMode, rest: Seq<u8>) {
        lemma_be_len();
        lemma_de32_be32(m.spec_code() as u32, rest);
    }
}

/// What a set of window configuration options stands for: for each option,
/// the value in its slot if the option is configured.
pub struct WindowConfigsModel {
    /// The slot of the x coordinate.
    pub x: Option<i32>,
    /// The slot of the y coordinate.
    pub y: Option<i32>,
    /// The slot of the width.
    pub width: Option<u32>,
    /// The slot of the height.
    pub height: Option<u32>,
    /// The slot of the border width.
    pub border_width: Option<u32>,
    /// The resource ID of the sibling.
    pub sibling: Option<u32>,
    /// The stack mode.
    pub stack_mode: Option<StackMode>,
}

impl WindowConfigsModel {
    /// The set in which nothing is configured.
    pub open spec fn unset() -> WindowConfigsModel {
        WindowConfigsModel {
            x: None,
            y: None,
            width: None,
            height: None,
            border_width: None,
            sibling: None,
            stack_mode: None,
        }
    }

    /// The mask of the set: the bit of an option is set if and only if the
    /// option is configured.
    pub open spec fn mask(self) -> u16 {
        (if self.x is Some { 0x0001u16 } else { 0u16 })
        | (if self.y is Some { 0x0002u16 } else { 0u16 })
        | (if self.width is Some { 0x0004u16 } else { 0u16 })
        | (if self.height is Some { 0x0008u16 } else { 0u16 })
        | (if self.border_width is Some { 0x0010u16 } else { 0u16 })
        | (if self.sibling is Some { 0x0020u16 } else { 0u16 })
        | (if self.stack_mode is Some { 0x0040u16 } else { 0u16 })
    }

    /// The number of options that are configured.
    pub open spec fn count(self) -> nat {
        (if self.x is Some { 1nat } else { 0nat })
        + (if self.y is Some { 1nat } else { 0nat })
        + (if self.width is Some { 1nat } else { 0nat })
        + (if self.height is Some { 1nat } else { 0nat })
        + (if self.border_width is Some { 1nat } else { 0nat })
        + (if self.sibling is Some { 1nat } else { 0nat })
        + (if self.stack_mode is Some { 1nat } else { 0nat })
    }

    /// What reading the slots from that of the x coordinate on gives, where
    /// the set starts at the front of `bytes` and has the mask `mask`, the
    /// slots before it gave `read`, and the slot starts `at` bytes into
    /// `bytes`. The slot is read if its bit is set in the mask, and passed
    /// over if not.
    #[verifier::opaque]
    pub open spec fn slots_from_x(
        bytes: Seq<u8>,
        mask: u16,
        read: WindowConfigsModel,
        at: nat,
    ) -> Result<(WindowConfigsModel, nat), ReadError> {
        match parse_field::<i32>(bytes, at, flagged(mask, WindowConfigMask::X)) {
            Ok((x, next)) => WindowConfigsModel::slots_from_y(
                bytes,
                mask,
                WindowConfigsModel { x, ..read },
                next,
            ),
            Err(e) => Err(e),
        }
    }

    /// What reading the slots from that of the y coordinate on gives, where
    /// the set starts at the front of `bytes` and has the mask `mask`, the
    /// slots before it gave `read`, and the slot starts `at` bytes into
    /// `bytes`. The slot is read if its bit is set in the mask, and passed
    /// over if not.
    #[verifier::opaque]
    pub open spec fn slots_from_y(
        bytes: Seq<u8>,
        mask: u16,
        read: WindowConfigsModel,
        at: nat,
    ) -> Result<(WindowConfigsModel, nat), ReadError> {
        match parse_field::<i32>(bytes, at, flagged(mask, WindowConfigMask::Y)) {
            Ok((y, next)) => WindowConfigsModel::slots_from_width(
                bytes,
                mask,
                WindowConfigsModel { y, ..read },
                next,
            ),
            Err(e) => Err(e),
        }
    }

    /// What reading the slots from that of the width on gives, where
    /// the set starts at the front of `bytes` and has the mask `mask`, the
    /// slots before it gave `read`, and the slot starts `at` bytes into
    /// `bytes`. The slot is read if its bit is set in the mask, and passed
    /// over if not.
    #[verifier::opaque]
    pub open spec fn slots_from_width(
        bytes: Seq<u8>,
        mask: u16,
        read: WindowConfigsModel,
        at: nat,
    ) -> Result<(WindowConfigsModel, nat), ReadError> {
        match parse_field::<u32>(bytes, at, flagged(mask, WindowConfigMask::WIDTH)) {
            Ok((width, next)) => WindowConfigsModel::slots_from_height(
                bytes,
                mask,
                WindowConfigsModel { width, ..read },
                next,
            ),
            Err(e) => Err(e),
        }
    }

    /// What reading the slots from that of the height on gives, where
    /// the set starts at the front of `bytes` and has the mask `mask`, the
    /// slots before it gave `read`, and the slot starts `at` bytes into
    /// `bytes`. The slot is read if its bit is set in the mask, and passed
    /// over if not.
    #[verifier::opaque]
    pub open spec fn slots_from_height(
        bytes: Seq<u8>,
        mask: u16,
        read: WindowConfigsModel,
        at: nat,
    ) -> Result<(WindowConfigsModel, nat), ReadError> {
        match parse_field::<u32>(bytes, at, flagged(mask, WindowConfigMask::HEIGHT)) {
            Ok((height, next)) => WindowConfigsModel::slots_from_border_width(
                bytes,
                mask,
                WindowConfigsModel { height, ..read },
                next,
            ),
            Err(e) => Err(e),
        }
    }

    /// What reading the slots from that of the border width on gives, where
    /// the set starts at the front of `bytes` and has the mask `mask`, the
    /// slots before it gave `read`, and the slot starts `at` bytes into
    /// `bytes`. The slot is read if its bit is set in the mask, and passed
    /// over if not.
    #[verifier::opaque]
    pub open spec fn slots_from_border_width(
        bytes: Seq<u8>,
        mask: u16,
        read: WindowConfigsModel,
        at: nat,
    ) -> Result<(WindowConfigsModel, nat), ReadError> {
        match parse_field::<u32>(bytes, at, flagged(mask, WindowConfigMask::BORDER_WIDTH)) {
            Ok((border_width, next)) => WindowConfigsModel::slots_from_sibling(
                bytes,
                mask,
                WindowConfigsModel { border_width, ..read },
                next,
            ),
            Err(e) => Err(e),
        }
    }

    /// What reading the slots from that of the sibling on gives, where
    /// the set starts at the front of `bytes` and has the mask `mask`, the
    /// slots before it gave `read`, and the slot starts `at` bytes into
    /// `bytes`. The slot is read if its bit is set in the mask, and passed
    /// over if not.
    #[verifier::opaque]
    pub open spec fn slots_from_sibling(
        bytes: Seq<u8>,
        mask: u16,
        read: WindowConfigsModel,
        at: nat,
    ) -> Result<(WindowConfigsModel, nat), ReadError> {
        match parse_field::<Window>(bytes, at, flagged(mask, WindowConfigMask::SIBLING)) {
            Ok((sibling, next)) => WindowConfigsModel::slots_from_stack_mode(
                bytes,
                mask,
                WindowConfigsModel { sibling, ..read },
                next,
            ),
            Err(e) => Err(e),
        }
    }

    /// What reading the slots from that of the stack mode on gives, where
    /// the set starts at the front of `bytes` and has the mask `mask`, the
    /// slots before it gave `read`, and the slot starts `at` bytes into
    /// `bytes`. The slot is read if its bit is set in the mask, and passed
    /// over if not.
    #[verifier::opaque]
    pub open spec fn slots_from_stack_mode(
        bytes: Seq<u8>,
        mask: u16,
        read: WindowConfigsModel,
        at: nat,
    ) -> Result<(WindowConfigsModel, nat), ReadError> {
        match parse_field::<StackModeSlot>(bytes, at, flagged(mask, WindowConfigMask::STACK_MODE)) {
            Ok((stack_mode, next)) => Ok((WindowConfigsModel { stack_mode, ..read }, next)),
            Err(e) => Err(e),
        }
    }

    /// What reading the slots of a set gives, where the set starts at the
    /// front of `bytes` and has the mask `mask`: in the fixed order, a slot
    /// is read for each option whose bit is set in the mask, and for no
    /// other. The first slot starts after the mask and the two unused bytes.
    pub open spec fn parse_slots(bytes: Seq<u8>, mask: u16) -> Result<
        (WindowConfigsModel, nat),
        ReadError,
    > {
        WindowConfigsModel::slots_from_x(bytes, mask, WindowConfigsModel::unset(), 4)
    }

    /// Whether the set says how to stack the window if it names a sibling to
    /// stack it against. A sibling means nothing without a stack mode. The
    /// builder gives no set without this; the wire format carries such a
    /// set all the same, and so a set that was read may be one.
    pub open spec fn stacks_sibling(self) -> bool {
        self.sibling is Some ==> self.stack_mode is Some
    }

    /// Whether the slot of the x coordinate, if there is one, holds a value
    /// that fits in 16 bits.
    pub open spec fn x_fits(self) -> bool {
        self.x matches Some(v) ==> i16::MIN <= v <= i16::MAX
    }

    /// Whether the slot of the y coordinate, if there is one, holds a value
    /// that fits in 16 bits.
    pub open spec fn y_fits(self) -> bool {
        self.y matches Some(v) ==> i16::MIN <= v <= i16::MAX
    }

    /// Whether the slot of the width, if there is one, holds a value that
    /// fits in 16 bits.
    pub open spec fn width_fits(self) -> bool {
        self.width matches Some(v) ==> v <= u16::MAX
    }

    /// Whether the slot of the height, if there is one, holds a value that
    /// fits in 16 bits.
    pub open spec fn height_fits(self) -> bool {
        self.height matches Some(v) ==> v <= u16::MAX
    }

    /// Whether the slot of the border width, if there is one, holds a value
    /// that fits in 16 bits.
    pub open spec fn border_width_fits(self) -> bool {
        self.border_width matches Some(v) ==> v <= u16::MAX
    }

    /// Whether every slot that holds a 16-bit value holds a value that fits
    /// in 16 bits.
    pub open spec fn narrowable(self) -> bool {
        &&& self.x_fits()
        &&& self.y_fits()
        &&& self.width_fits()
        &&& self.height_fits()
        &&& self.border_width_fits()
    }
}

/// A set of options with which a window is configured.
///
/// Options that are not configured are taken from the existing geometry of
/// the window. A set is immutable: it is built with a
/// [`WindowConfigsBuilder`], or read from the wire.
#[derive(Debug, Hash, PartialEq, Eq)]
pub struct WindowConfigs {
    /// The size of the set on the wire, kept so that it need not be computed
    /// again.
    x11_size: usize,
    mask: WindowConfigMask,
    // These stand for 16-bit values, but each takes a four-byte slot.
    x: Option<i32>,
    y: Option<i32>,
    width: Option<u32>,
    height: Option<u32>,
    border_width: Option<u32>,
    sibling: Option<Window>,
    stack_mode: Option<StackModeSlot>,
}

impl WindowConfigs {
    /// The mask and the size that the set keeps are those of the options it
    /// holds.
    #[verifier::type_invariant]
    spec fn consistent(self) -> bool {
        &&& self.mask.spec_bits() == self.model().mask()
        &&& self.x11_size == 4 + 4 * self.model().count()
    }

    /// A new builder, with which a set can be built.
    pub fn builder() -> (builder: WindowConfigsBuilder)
        ensures
            builder.model() == WindowConfigsModel::unset(),
    {
        WindowConfigsBuilder::new()
    }

    /// The mask of the options that are configured.
    pub fn mask(&self) -> (mask: WindowConfigMask)
        ensures
            mask.spec_bits() == self.model().mask(),
    {
        proof {
            use_type_invariant(self);
        }
        self.mask
    }

    /// Whether the slot of the x coordinate, if there is one, holds a value that
    /// fits in 16 bits, so that [`x`](WindowConfigs::x) can give it.
    pub fn x_fits(&self) -> (b: bool)
        ensures
            b == self.model().x_fits(),
    {
        match self.x {
            Some(v) => -0x8000 <= v && v <= 0x7fff,
            None => true,
        }
    }

    /// Whether the slot of the y coordinate, if there is one, holds a value that
    /// fits in 16 bits, so that [`y`](WindowConfigs::y) can give it.
    pub fn y_fits(&self) -> (b: bool)
        ensures
            b == self.model().y_fits(),
    {
        match self.y {
            Some(v) => -0x8000 <= v && v <= 0x7fff,
            None => true,
        }
    }

    /// Whether the slot of the width, if there is one, holds a value that
    /// fits in 16 bits, so that [`width`](WindowConfigs::width) can give it.
    pub fn width_fits(&self) -> (b: bool)
        ensures
            b == self.model().width_fits(),
    {
        match self.width {
            Some(v) => v <= 0xffff,
            None => true,
        }
    }

    /// Whether the slot of the height, if there is one, holds a value that
    /// fits in 16 bits, so that [`height`](WindowConfigs::height) can give it.
    pub fn height_fits(&self) -> (b: bool)
        ensures
            b == self.model().height_fits(),
    {
        match self.height {
            Some(v) => v <= 0xffff,
            None => true,
        }
    }

    /// Whether the slot of the border width, if there is one, holds a value that
    /// fits in 16 bits, so that [`border_width`](WindowConfigs::border_width) can give it.
    pub fn border_width_fits(&self) -> (b: bool)
        ensures
            b == self.model().border_width_fits(),
    {
        match self.border_width {
            Some(v) => v <= 0xffff,
            None => true,
        }
    }

    /// Whether every 16-bit option of the set holds a value that fits in 16
    /// bits. A set that was built always does; one that was read does if the
    /// bytes it was read from do.
    pub fn is_narrowable(&self) -> (b: bool)
        ensures
            b == self.model().narrowable(),
    {
        self.x_fits() && self.y_fits() && self.width_fits() && self.height_fits()
            && self.border_width_fits()
    }

    /// Whether the set says how to stack the window if it names a sibling to
    /// stack it against. A set that was built always does; one that was
    /// read does if the mask it was read with does.
    pub fn stacks_sibling(&self) -> (b: bool)
        ensures
            b == self.model().stacks_sibling(),
    {
        self.sibling.is_none() || self.stack_mode.is_some()
    }

    /// The x coordinate of the top-left corner of the window, if configured.
    pub fn x(&self) -> (x: Option<i16>)
        requires
            self.model().x_fits(),
        ensures
            match self.model().x {
                Some(v) => x == Some(v as i16),
                None => x is None,
            },
    {
        match self.x {
            Some(v) => Some(v as i16),
            None => None,
        }
    }

    /// The y coordinate of the top-left corner of the window, if configured.
    pub fn y(&self) -> (y: Option<i16>)
        requires
            self.model().y_fits(),
        ensures
            match self.model().y {
                Some(v) => y == Some(v as i16),
                None => y is None,
            },
    {
        match self.y {
            Some(v) => Some(v as i16),
            None => None,
        }
    }

    /// The width of the window, if configured.
    pub fn width(&self) -> (width: Option<u16>)
        requires
            self.model().width_fits(),
        ensures
            match self.model().width {
                Some(v) => width == Some(v as u16),
                None => width is None,
            },
    {
        match self.width {
            Some(v) => Some(v as u16),
            None => None,
        }
    }

    /// The height of the window, if configured.
    pub fn height(&self) -> (height: Option<u16>)
        requires
            self.model().height_fits(),
        ensures
            match self.model().height {
                Some(v) => height == Some(v as u16),
                None => height is None,
            },
    {
        match self.height {
            Some(v) => Some(v as u16),
            None => None,
        }
    }

    /// The width of the border of the window, if configured.
    pub fn border_width(&self) -> (border_width: Option<u16>)
        requires
            self.model().border_width_fits(),
        ensures
            match self.model().border_width {
                Some(v) => border_width == Some(v as u16),
                None => border_width is None,
            },
    {
        match self.border_width {
            Some(v) => Some(v as u16),
            None => None,
        }
    }

    /// The sibling to which the stack mode applies, if configured.
    pub fn sibling(&self) -> (sibling: &Option<Window>)
        ensures
            model_of(*sibling) == self.model().sibling,
    {
        &self.sibling
    }

    /// The way in which the window is stacked among its siblings, if
    /// configured. Where a sibling is configured, this is relative to that
    /// sibling; otherwise it is relative to all siblings.
    pub fn stack_mode(&self) -> (stack_mode: Option<&StackMode>)
        ensures
            match self.model().stack_mode {
                Some(mode) => stack_mode == Some(&mode),
                None => stack_mode is None,
            },
    {
        match &self.stack_mode {
            Some(slot) => Some(&slot.0),
            None => None,
        }
    }
}

/// A builder with which a [`WindowConfigs`] set is constructed.
///
/// Every option starts out as not configured. The methods named after the
/// options configure them, and [`build`](WindowConfigsBuilder::build) gives
/// the set.
#[derive(Debug, Hash, PartialEq, Eq)]
pub struct WindowConfigsBuilder {
    x11_size: usize,
    mask: WindowConfigMask,
    x: Option<i16>,
    y: Option<i16>,
    width: Option<u16>,
    height: Option<u16>,
    border_width: Option<u16>,
    sibling: Option<Window>,
    stack_mode: Option<StackMode>,
}

impl WindowConfigsBuilder {
    /// The mask and the size that the builder keeps are those of the options
    /// configured so far.
    #[verifier::type_invariant]
    spec fn consistent(self) -> bool {
        &&& self.mask.spec_bits() == self.model().mask()
        &&& self.x11_size == 4 + 4 * self.model().count()
    }

    /// The set that the builder would build: each 16-bit value widened to
    /// the four-byte slot that carries it.
    pub closed spec fn model(&self) -> WindowConfigsModel {
        WindowConfigsModel {
            x: match self.x {
                Some(v) => Some(v as i32),
                None => None,
            },
            y: match self.y {
                Some(v) => Some(v as i32),
                None => None,
            },
            width: match self.width {
                Some(v) => Some(v as u32),
                None => None,
            },
            height: match self.height {
                Some(v) => Some(v as u32),
                None => None,
            },
            border_width: match self.border_width {
                Some(v) => Some(v as u32),
                None => None,
            },
            sibling: model_of(self.sibling),
            stack_mode: self.stack_mode,
        }
    }

    /// A new builder, in which nothing is configured.
    pub fn new() -> (builder: WindowConfigsBuilder)
        ensures
            builder.model() == WindowConfigsModel::unset(),
    {
        assert(0u16 | 0u16 | 0u16 | 0u16 | 0u16 | 0u16 | 0u16 == 0u16) by (bit_vector);
        WindowConfigsBuilder {
            x11_size: 4,
            mask: WindowConfigMask::empty(),
            x: None,
            y: None,
            width: None,
            height: None,
            border_width: None,
            sibling: None,
            stack_mode: None,
        }
    }

    /// Whether the builder says how to stack the window if it names a
    /// sibling to stack it against. Only then does it build a set.
    pub fn stacks_sibling(&self) -> (b: bool)
        ensures
            b == self.model().stacks_sibling(),
    {
        self.sibling.is_none() || self.stack_mode.is_some()
    }

    /// The set with the options configured so far, if it says how to stack
    /// the window against the sibling it names, and nothing if it names a
    /// sibling and no stack mode.
    pub fn try_build(self) -> (configs: Option<WindowConfigs>)
        ensures
            self.model().stacks_sibling() ==> configs is Some && configs->Some_0.model()
                == self.model(),
            !self.model().stacks_sibling() ==> configs is None,
    {
        if self.stacks_sibling() {
            Some(self.build())
        } else {
            None
        }
    }

    /// The set with the options configured so far. A sibling means nothing
    /// without a stack mode: a builder that names a sibling must name a
    /// stack mode too, in either order, before it builds the set. Every
    /// 16-bit value is widened to its slot, so the set can always be
    /// narrowed again.
    pub fn build(self) -> (configs: WindowConfigs)
        requires
            self.model().stacks_sibling(),
        ensures
            configs.model() == self.model(),
            configs.model().stacks_sibling(),
            configs.model().narrowable(),
    {
        proof {
            use_type_invariant(&self);
        }
        WindowConfigs {
            x11_size: self.x11_size,
            mask: self.mask,
            x: match self.x {
                Some(v) => Some(v as i32),
                None => None,
            },
            y: match self.y {
                Some(v) => Some(v as i32),
                None => None,
            },
            width: match self.width {
                Some(v) => Some(v as u32),
                None => None,
            },
            height: match self.height {
                Some(v) => Some(v as u32),
                None => None,
            },
            border_width: match self.border_width {
                Some(v) => Some(v as u32),
                None => None,
            },
            sibling: self.sibling,
            stack_mode: match self.stack_mode {
                Some(mode) => Some(StackModeSlot(mode)),
                None => None,
            },
        }
    }

    /// Configures the x coordinate of the top-left corner of the window.
    pub fn x(&mut self, x: i16) -> (builder: &mut Self)
        ensures
            builder.model() == (WindowConfigsModel {
                x: Some(x as i32),
                ..old(self).model()
            }),
            *final(self) == *final(builder),
    {
        proof {
            use_type_invariant(&*self);
            lemma_mask_after_set(
                self.model(),
                WindowConfigsModel { x: Some(x as i32), ..self.model() },
                WindowConfigMask::X,
            );
        }
        let x11_size = if self.x.is_none() {
            self.x11_size + 4
        } else {
            self.x11_size
        };
        *self = WindowConfigsBuilder {
            x11_size,
            mask: self.mask.with(WindowConfigMask::X),
            x: Some(x),
            y: self.y,
            width: self.width,
            height: self.height,
            border_width: self.border_width,
            sibling: self.sibling,
            stack_mode: self.stack_mode,
        };
        self
    }

    /// Configures the y coordinate of the top-left corner of the window.
    pub fn y(&mut self, y: i16) -> (builder: &mut Self)
        ensures
            builder.model() == (WindowConfigsModel {
                y: Some(y as i32),
                ..old(self).model()
            }),
            *final(self) == *final(builder),
    {
        proof {
            use_type_invariant(&*self);
            lemma_mask_after_set(
                self.model(),
                WindowConfigsModel { y: Some(y as i32), ..self.model() },
                WindowConfigMask::Y,
            );
        }
        let x11_size = if self.y.is_none() {
            self.x11_size + 4
        } else {
            self.x11_size
        };
        *self = WindowConfigsBuilder {
            x11_size,
            mask: self.mask.with(WindowConfigMask::Y),
            x: self.x,
            y: Some(y),
            width: self.width,
            height: self.height,
            border_width: self.border_width,
            sibling: self.sibling,
            stack_mode: self.stack_mode,
        };
        self
    }

    /// Configures the width of the window.
    pub fn width(&mut self, width: u16) -> (builder: &mut Self)
        ensures
            builder.model() == (WindowConfigsModel {
                width: Some(width as u32),
                ..old(self).model()
            }),
            *final(self) == *final(builder),
    {
        proof {
            use_type_invariant(&*self);
            lemma_mask_after_set(
                self.model(),
                WindowConfigsModel { width: Some(width as u32), ..self.model() },
                WindowConfigMask::WIDTH,
            );
        }
        let x11_size = if self.width.is_none() {
            self.x11_size + 4
        } else {
            self.x11_size
        };
        *self = WindowConfigsBuilder {
            x11_size,
            mask: self.mask.with(WindowConfigMask::WIDTH),
            x: self.x,
            y: self.y,
            width: Some(width),
            height: self.height,
            border_width: self.border_width,
            sibling: self.sibling,
            stack_mode: self.stack_mode,
        };
        self
    }

    /// Configures the height of the window.
    pub fn height(&mut self, height: u16) -> (builder: &mut Self)
        ensures
            builder.model() == (WindowConfigsModel {
                height: Some(height as u32),
                ..old(self).model()
            }),
            *final(self) == *final(builder),
    {
        proof {
            use_type_invariant(&*self);
            lemma_mask_after_set(
                self.model(),
                WindowConfigsModel { height: Some(height as u32), ..self.model() },
                WindowConfigMask::HEIGHT,
            );
        }
        let x11_size = if self.height.is_none() {
            self.x11_size + 4
        } else {
            self.x11_size
        };
        *self = WindowConfigsBuilder {
            x11_size,
            mask: self.mask.with(WindowConfigMask::HEIGHT),
            x: self.x,
            y: self.y,
            width: self.width,
            height: Some(height),
            border_width: self.border_width,
            sibling: self.sibling,
            stack_mode: self.stack_mode,
        };
        self
    }

    /// Configures the width of the border of the window.
    pub fn border_width(&mut self, border_width: u16) -> (builder: &mut Self)
        ensures
            builder.model() == (WindowConfigsModel {
                border_width: Some(border_width as u32),
                ..old(self).model()
            }),
            *final(self) == *final(builder),
    {
        proof {
            use_type_invariant(&*self);
            lemma_mask_after_set(
                self.model(),
                WindowConfigsModel { border_width: Some(border_width as u32), ..self.model() },
                WindowConfigMask::BORDER_WIDTH,
            );
        }
        let x11_size = if self.border_width.is_none() {
            self.x11_size + 4
        } else {
            self.x11_size
        };
        *self = WindowConfigsBuilder {
            x11_size,
            mask: self.mask.with(WindowConfigMask::BORDER_WIDTH),
            x: self.x,
            y: self.y,
            width: self.width,
            height: self.height,
            border_width: Some(border_width),
            sibling: self.sibling,
            stack_mode: self.stack_mode,
        };
        self
    }

    /// Configures the sibling to which the stack mode applies. The stack
    /// mode is to be configured too, before or after, or the builder builds
    /// no set.
    pub fn sibling(&mut self, sibling: Window) -> (builder: &mut Self)
        ensures
            builder.model() == (WindowConfigsModel {
                sibling: Some(sibling.model()),
                ..old(self).model()
            }),
            *final(self) == *final(builder),
    {
        proof {
            use_type_invariant(&*self);
            lemma_mask_after_set(
                self.model(),
                WindowConfigsModel { sibling: Some(sibling.model()), ..self.model() },
                WindowConfigMask::SIBLING,
            );
        }
        let x11_size = if self.sibling.is_none() {
            self.x11_size + 4
        } else {
            self.x11_size
        };
        *self = WindowConfigsBuilder {
            x11_size,
            mask: self.mask.with(WindowConfigMask::SIBLING),
            x: self.x,
            y: self.y,
            width: self.width,
            height: self.height,
            border_width: self.border_width,
            sibling: Some(sibling),
            stack_mode: self.stack_mode,
        };
        self
    }

    /// Configures the way in which the window is stacked among its siblings.
    pub fn stack_mode(&mut self, stack_mode: StackMode) -> (builder: &mut Self)
        ensures
            builder.model() == (WindowConfigsModel {
                stack_mode: Some(stack_mode),
                ..old(self).model()
            }),
            *final(self) == *final(builder),
    {
        proof {
            use_type_invariant(&*self);
            lemma_mask_after_set(
                self.model(),
                WindowConfigsModel { stack_mode: Some(stack_mode), ..self.model() },
                WindowConfigMask::STACK_MODE,
            );
        }
        let x11_size = if self.stack_mode.is_none() {
            self.x11_size + 4
        } else {
            self.x11_size
        };
        *self = WindowConfigsBuilder {
            x11_size,
            mask: self.mask.with(WindowConfigMask::STACK_MODE),
            x: self.x,
            y: self.y,
            width: self.width,
            height: self.height,
            border_width: self.border_width,
            sibling: self.sibling,
            stack_mode: Some(stack_mode),
        };
        self
    }
}

/// Writes an optional field of a set: the value where there is one, and
/// nothing where there is not.
pub fn write_set_value<T: Writable>(value: &Option<T>, w: &mut Writer) -> (res: Result<
    (),
    WriteError,
>)
    ensures
        old(w).appends(final(w), res, wire_set_value::<T>(model_of(*value))),
{
    match value {
        Some(v) => {
            let res = v.write_to(w);
            assert(wire_set_value::<T>(model_of(*value)) == T::wire(v.model()));
            res
        },
        None => {
            proof {
                w.lemma_within_limit();
                assert(w@ + Seq::<u8>::empty() =~= w@);
            }
            Ok(())
        },
    }
}

/// Writes an optional field of a set after the bytes `so_far`, which `w`
/// has taken since it was `start`.
fn write_slot<T: Writable>(
    value: &Option<T>,
    w: &mut Writer,
    Ghost(start): Ghost<Writer>,
    Ghost(so_far): Ghost<Seq<u8>>,
) -> (res: Result<(), WriteError>)
    requires
        start.appends(old(w), Ok(()), so_far),
    ensures
        start.appends(final(w), res, so_far + wire_set_value::<T>(model_of(*value))),
{
    let ghost mid = *w;
    let res = write_set_value(value, w);
    proof {
        start.lemma_appends_then(&mid, w, res, so_far, wire_set_value::<T>(model_of(*value)));
    }
    res
}

/// Reads an optional field of a set that starts `at` bytes into `bytes`,
/// and tells where the next one starts.
fn read_slot<T: Readable>(r: &mut Reader, at: usize, present: bool, Ghost(bytes): Ghost<Seq<u8>>) -> (res:
    Result<(Option<T>, usize), ReadError>)
    requires
        old(r)@ == bytes.skip(at as int),
        at <= bytes.len() <= usize::MAX,
    ensures
        match res {
            Ok((value, next)) => {
                &&& parse_field::<T>(bytes, at as nat, present) == Ok::<
                    (Option<T::Model>, nat),
                    ReadError,
                >((model_of(value), next as nat))
                &&& value is Some <==> present
                &&& next == at + wire_set_value::<T>(model_of(value)).len()
                &&& next <= bytes.len()
                &&& final(r)@ == bytes.skip(next as int)
            },
            Err(e) => parse_field::<T>(bytes, at as nat, present) == Err::<
                (Option<T::Model>, nat),
                ReadError,
            >(e) && is_rest(final(r)@, bytes),
        },
{
    proof {
        reveal(parse_field);
        lemma_field_sound::<T>(bytes, at as nat, present);
    }
    let mut x11_size = at;
    match read_set_value::<T>(r, &mut x11_size, present) {
        Ok(value) => {
            proof {
                lemma_skip_skip(bytes, at as nat, (x11_size - at) as nat);
            }
            Ok((value, x11_size))
        },
        Err(e) => {
            proof {
                lemma_rest_of_skip(r@, bytes, at as nat);
            }
            Err(e)
        },
    }
}

/// Reads the slot of the stack mode, the last of a set, which starts `at`
/// bytes into `bytes`. The four bytes of the slot are read whatever code
/// they hold.
fn read_mode_slot(r: &mut Reader, at: usize, present: bool, Ghost(bytes): Ghost<Seq<u8>>) -> (res:
    Result<(Option<StackModeSlot>, usize), ReadError>)
    requires
        old(r)@ == bytes.skip(at as int),
        at <= bytes.len() <= usize::MAX,
    ensures
        match res {
            Ok((value, next)) => {
                &&& parse_field::<StackModeSlot>(bytes, at as nat, present) == Ok::<
                    (Option<StackMode>, nat),
                    ReadError,
                >((model_of(value), next as nat))
                &&& value is Some <==> present
                &&& next == at + wire_set_value::<StackModeSlot>(model_of(value)).len()
                &&& next <= bytes.len()
                &&& final(r)@ == bytes.skip(next as int)
            },
            Err(e) => {
                &&& parse_field::<StackModeSlot>(bytes, at as nat, present) == Err::<
                    (Option<StackMode>, nat),
                    ReadError,
                >(e)
                &&& present
                &&& is_rest(final(r)@, bytes)
                &&& e is UnrecognizedDiscriminant ==> at + 4 <= bytes.len() && final(r)@
                    == bytes.skip(at + 4)
            },
        },
{
    proof {
        reveal(parse_field);
        lemma_be_len();
    }
    if !present {
        return Ok((None, at));
    }
    match StackModeSlot::read_from(r) {
        Ok(slot) => {
            proof {
                lemma_skip_skip(bytes, at as nat, 4);
            }
            Ok((Some(slot), at + 4))
        },
        Err(e) => {
            proof {
                lemma_rest_of_skip(r@, bytes, at as nat);
                if e is UnrecognizedDiscriminant {
                    lemma_skip_skip(bytes, at as nat, 4);
                }
            }
            Err(e)
        },
    }
}

/// A slot that holds a number can only fail to be read for want of bytes.
proof fn lemma_slot_underruns(bytes: Seq<u8>, at: nat, present: bool)
    ensures
        parse_field::<i32>(bytes, at, present) matches Err(e) ==> e == ReadError::BufferUnderrun,
        parse_field::<u32>(bytes, at, present) matches Err(e) ==> e == ReadError::BufferUnderrun,
        parse_field::<Window>(bytes, at, present) matches Err(e) ==> e
            == ReadError::BufferUnderrun,
{
    reveal(parse_field);
}

/// Where the last slot of a set ends, when the mask declares it, each slot
/// before it stands where the mask says, and the first starts after four
/// bytes: after four bytes and four more for each option that the mask
/// declares.
proof fn lemma_last_slot_ends(
    m: WindowConfigsModel,
    bits: u16,
    at1: nat,
    at2: nat,
    at3: nat,
    at4: nat,
    at5: nat,
    at6: nat,
)
    requires
        at1 == 4 + wire_set_value::<i32>(m.x).len(),
        at2 == at1 + wire_set_value::<i32>(m.y).len(),
        at3 == at2 + wire_set_value::<u32>(m.width).len(),
        at4 == at3 + wire_set_value::<u32>(m.height).len(),
        at5 == at4 + wire_set_value::<u32>(m.border_width).len(),
        at6 == at5 + wire_set_value::<Window>(m.sibling).len(),
        (m.x is Some) == flagged(bits, WindowConfigMask::X),
        (m.y is Some) == flagged(bits, WindowConfigMask::Y),
        (m.width is Some) == flagged(bits, WindowConfigMask::WIDTH),
        (m.height is Some) == flagged(bits, WindowConfigMask::HEIGHT),
        (m.border_width is Some) == flagged(bits, WindowConfigMask::BORDER_WIDTH),
        (m.sibling is Some) == flagged(bits, WindowConfigMask::SIBLING),
        flagged(bits, WindowConfigMask::STACK_MODE),
    ensures
        at6 + 4 == 4 + 4 * declared(bits),
{
    lemma_be_len();
}

/// Where the slots of a set end, when each starts where the one before it
/// ends and the first starts after four bytes.
proof fn lemma_slots_end(
    m: WindowConfigsModel,
    at1: nat,
    at2: nat,
    at3: nat,
    at4: nat,
    at5: nat,
    at6: nat,
    at7: nat,
)
    requires
        at1 == 4 + wire_set_value::<i32>(m.x).len(),
        at2 == at1 + wire_set_value::<i32>(m.y).len(),
        at3 == at2 + wire_set_value::<u32>(m.width).len(),
        at4 == at3 + wire_set_value::<u32>(m.height).len(),
        at5 == at4 + wire_set_value::<u32>(m.border_width).len(),
        at6 == at5 + wire_set_value::<Window>(m.sibling).len(),
        at7 == at6 + wire_set_value::<StackModeSlot>(m.stack_mode).len(),
    ensures
        at7 == 4 + 4 * m.count(),
{
    lemma_be_len();
}

/// Reads the slots of a set whose mask is `mask`, after the mask and the two
/// unused bytes have been read off the front of `bytes`.
#[verifier::rlimit(50)]
fn read_slots(r: &mut Reader, mask: WindowConfigMask, Ghost(bytes): Ghost<Seq<u8>>) -> (res:
    Result<WindowConfigs, ReadError>)
    requires
        4 <= bytes.len() <= usize::MAX,
        old(r)@ == bytes.skip(4),
    ensures
        match WindowConfigsModel::parse_slots(bytes, mask.spec_bits()) {
            Ok((m, n)) => res is Ok && res->Ok_0.model() == m && final(r)@ == bytes.skip(n as int),
            Err(e) => res is Err && res->Err_0 == e && is_rest(final(r)@, bytes),
        },
        res matches Err(ReadError::UnrecognizedDiscriminant(_)) ==> final(r)@ == bytes.skip(
            (4 + 4 * declared(mask.spec_bits())) as int,
        ),
{
    // What has been read so far.
    let ghost mut read = WindowConfigsModel::unset();
    proof {
        reveal(WindowConfigsModel::slots_from_x);
    }
    let (x, at1) = match read_slot::<i32>(
        r,
        4,
        mask.contains(WindowConfigMask::X),
        Ghost(bytes),
    ) {
        Ok(slot) => slot,
        Err(e) => {
            proof {
                lemma_slot_underruns(
                    bytes,
                    4,
                    flagged(mask.spec_bits(), WindowConfigMask::X),
                );
            }
            return Err(e);
        },
    };
    proof {
        read = WindowConfigsModel { x, ..read };
        assert(WindowConfigsModel::parse_slots(bytes, mask.spec_bits())
            == WindowConfigsModel::slots_from_y(bytes, mask.spec_bits(), read, at1 as nat));
        reveal(WindowConfigsModel::slots_from_y);
    }
    let (y, at2) = match read_slot::<i32>(
        r,
        at1,
        mask.contains(WindowConfigMask::Y),
        Ghost(bytes),
    ) {
        Ok(slot) => slot,
        Err(e) => {
            proof {
                lemma_slot_underruns(
                    bytes,
                    at1 as nat,
                    flagged(mask.spec_bits(), WindowConfigMask::Y),
                );
            }
            return Err(e);
        },
    };
    proof {
        read = WindowConfigsModel { y, ..read };
        assert(WindowConfigsModel::parse_slots(bytes, mask.spec_bits())
            == WindowConfigsModel::slots_from_width(bytes, mask.spec_bits(), read, at2 as nat));
        reveal(WindowConfigsModel::slots_from_width);
    }
    let (width, at3) = match read_slot::<u32>(
        r,
        at2,
        mask.contains(WindowConfigMask::WIDTH),
        Ghost(bytes),
    ) {
        Ok(slot) => slot,
        Err(e) => {
            proof {
                lemma_slot_underruns(
                    bytes,
                    at2 as nat,
                    flagged(mask.spec_bits(), WindowConfigMask::WIDTH),
                );
            }
            return Err(e);
        },
    };
    proof {
        read = WindowConfigsModel { width, ..read };
        assert(WindowConfigsModel::parse_slots(bytes, mask.spec_bits())
            == WindowConfigsModel::slots_from_height(bytes, mask.spec_bits(), read, at3 as nat));
        reveal(WindowConfigsModel::slots_from_height);
    }
    let (height, at4) = match read_slot::<u32>(
        r,
        at3,
        mask.contains(WindowConfigMask::HEIGHT),
        Ghost(bytes),
    ) {
        Ok(slot) => slot,
        Err(e) => {
            proof {
                lemma_slot_underruns(
                    bytes,
                    at3 as nat,
                    flagged(mask.spec_bits(), WindowConfigMask::HEIGHT),
                );
            }
            return Err(e);
        },
    };
    proof {
        read = WindowConfigsModel { height, ..read };
        assert(WindowConfigsModel::parse_slots(bytes, mask.spec_bits())
            == WindowConfigsModel::slots_from_border_width(bytes, mask.spec_bits(), read, at4 as nat));
        reveal(WindowConfigsModel::slots_from_border_width);
    }
    let (border_width, at5) = match read_slot::<u32>(
        r,
        at4,
        mask.contains(WindowConfigMask::BORDER_WIDTH),
        Ghost(bytes),
    ) {
        Ok(slot) => slot,
        Err(e) => {
            proof {
                lemma_slot_underruns(
                    bytes,
                    at4 as nat,
                    flagged(mask.spec_bits(), WindowConfigMask::BORDER_WIDTH),
                );
            }
            return Err(e);
        },
    };
    proof {
        read = WindowConfigsModel { border_width, ..read };
        assert(WindowConfigsModel::parse_slots(bytes, mask.spec_bits())
            == WindowConfigsModel::slots_from_sibling(bytes, mask.spec_bits(), read, at5 as nat));
        reveal(WindowConfigsModel::slots_from_sibling);
    }
    let (sibling, at6) = match read_slot::<Window>(
        r,
        at5,
        mask.contains(WindowConfigMask::SIBLING),
        Ghost(bytes),
    ) {
        Ok(slot) => slot,
        Err(e) => {
            proof {
                lemma_slot_underruns(
                    bytes,
                    at5 as nat,
                    flagged(mask.spec_bits(), WindowConfigMask::SIBLING),
                );
            }
            return Err(e);
        },
    };
    proof {
        read = WindowConfigsModel { sibling: model_of(sibling), ..read };
        assert(WindowConfigsModel::parse_slots(bytes, mask.spec_bits())
            == WindowConfigsModel::slots_from_stack_mode(bytes, mask.spec_bits(), read, at6 as nat));
        reveal(WindowConfigsModel::slots_from_stack_mode);
    }
    let (stack_mode, at7) = match read_mode_slot(
        r,
        at6,
        mask.contains(WindowConfigMask::STACK_MODE),
        Ghost(bytes),
    ) {
        Ok(slot) => slot,
        Err(e) => {
            proof {
                lemma_last_slot_ends(
                    read,
                    mask.spec_bits(),
                    at1 as nat,
                    at2 as nat,
                    at3 as nat,
                    at4 as nat,
                    at5 as nat,
                    at6 as nat,
                );
            }
            return Err(e);
        },
    };
    proof {
        read = WindowConfigsModel { stack_mode: model_of(stack_mode), ..read };
    }
    proof {
        use_type_invariant(&mask);
        lemma_presence_tells_mask(read, mask.spec_bits());
        lemma_slots_end(
            read,
            at1 as nat,
            at2 as nat,
            at3 as nat,
            at4 as nat,
            at5 as nat,
            at6 as nat,
            at7 as nat,
        );
    }
    Ok(
        WindowConfigs {
            x11_size: at7,
            mask,
            x,
            y,
            width,
            height,
            border_width,
            sibling,
            stack_mode,
        },
    )
}

impl X11Size for WindowConfigs {
    type Model = WindowConfigsModel;

    closed spec fn model(&self) -> WindowConfigsModel {
        WindowConfigsModel {
            x: self.x,
            y: self.y,
            width: self.width,
            height: self.height,
            border_width: self.border_width,
            sibling: model_of(self.sibling),
            stack_mode: model_of(self.stack_mode),
        }
    }

    /// Every set has bytes: a slot takes whatever 32-bit value it is given.
    open spec fn valid(m: WindowConfigsModel) -> bool {
        true
    }

    /// The mask, two unused bytes, and the slots of the configured options
    /// in their fixed order.
    open spec fn wire(m: WindowConfigsModel) -> Seq<u8> {
        be16(m.mask()) + seq![0u8, 0u8] + wire_set_value::<i32>(m.x) + wire_set_value::<i32>(m.y)
            + wire_set_value::<u32>(m.width) + wire_set_value::<u32>(m.height)
            + wire_set_value::<u32>(m.border_width) + wire_set_value::<Window>(m.sibling)
            + wire_set_value::<StackModeSlot>(m.stack_mode)
    }


    /// Four bytes for the mask and the two unused bytes, and four more for
    /// each option that is configured.
    fn x11_size(&self) -> (n: usize)
        ensures
            n == 4 + 4 * self.model().count(),
    {
        proof {
            use_type_invariant(self);
            lemma_wire_len(self.model());
        }
        self.x11_size
    }
}

/// The mask and the unused bytes take four bytes, each configured option
/// takes four more, and the others take none.
#[verifier::rlimit(30)]
pub proof fn lemma_wire_len(m: WindowConfigsModel)
    ensures
        WindowConfigs::wire(m).len() == 4 + 4 * m.count(),
{
    lemma_be_len();
}

impl Writable for WindowConfigs {
    /// Writes the mask, two unused bytes, and the slot of each option that
    /// is configured, in the fixed order. Nothing is written for an option
    /// that is not configured.
    fn write_to(&self, w: &mut Writer) -> (res: Result<(), WriteError>)
        ensures
            old(w).appends(final(w), res, Self::wire(self.model())),
    {
        proof {
            use_type_invariant(self);
            lemma_mask_tells_presence(self.model());
        }
        let ghost m = self.model();
        let ghost start = *w;
        let ghost lead0 = be16(m.mask());
        let ghost lead1 = lead0 + seq![0u8, 0u8];
        let ghost lead2 = lead1 + wire_set_value::<i32>(m.x);
        let ghost lead3 = lead2 + wire_set_value::<i32>(m.y);
        let ghost lead4 = lead3 + wire_set_value::<u32>(m.width);
        let ghost lead5 = lead4 + wire_set_value::<u32>(m.height);
        let ghost lead6 = lead5 + wire_set_value::<u32>(m.border_width);
        let ghost lead7 = lead6 + wire_set_value::<Window>(m.sibling);

        match self.mask.write_to(w) {
            Ok(()) => {},
            Err(e) => {
                return Err(e);
            },
        }
        // Two unused bytes after the mask.
        let ghost mid = *w;
        let gap = w.write_bytes(2, 0);
        proof {
            assert(crate::buffer::run(0u8, 2) =~= seq![0u8, 0u8]);
            start.lemma_appends_then(&mid, w, gap, lead0, seq![0u8, 0u8]);
        }
        match gap {
            Ok(()) => {},
            Err(e) => {
                return Err(e);
            },
        }
        match write_slot(&self.x, w, Ghost(start), Ghost(lead1)) {
            Ok(()) => {},
            Err(e) => {
                return Err(e);
            },
        }
        match write_slot(&self.y, w, Ghost(start), Ghost(lead2)) {
            Ok(()) => {},
            Err(e) => {
                return Err(e);
            },
        }
        match write_slot(&self.width, w, Ghost(start), Ghost(lead3)) {
            Ok(()) => {},
            Err(e) => {
                return Err(e);
            },
        }
        match write_slot(&self.height, w, Ghost(start), Ghost(lead4)) {
            Ok(()) => {},
            Err(e) => {
                return Err(e);
            },
        }
        match write_slot(&self.border_width, w, Ghost(start), Ghost(lead5)) {
            Ok(()) => {},
            Err(e) => {
                return Err(e);
            },
        }
        match write_slot(&self.sibling, w, Ghost(start), Ghost(lead6)) {
            Ok(()) => {},
            Err(e) => {
                return Err(e);
            },
        }
        write_slot(&self.stack_mode, w, Ghost(start), Ghost(lead7))
    }
}

impl Readable for WindowConfigs {
    /// The mask is read first and the two bytes after it are skipped. Then
    /// the slots are read as the mask declares them.
    open spec fn parse(bytes: Seq<u8>) -> Result<(WindowConfigsModel, nat), ReadError> {
        match WindowConfigMask::parse(bytes) {
            Err(e) => Err(e),
            Ok((mask, _)) => if bytes.len() < 4 {
                Err(ReadError::BufferUnderrun)
            } else {
                WindowConfigsModel::parse_slots(bytes, mask)
            },
        }
    }

    /// Reads the mask, skips two bytes, and reads the slot of each option
    /// whose bit is set in the mask, in the fixed order.
    fn read_from(r: &mut Reader) -> (res: Result<WindowConfigs, ReadError>)
        ensures
            match Self::parse(old(r)@) {
                Ok((m, n)) => res is Ok && res->Ok_0.model() == m && final(r)@ == old(r)@.skip(
                    n as int,
                ),
                Err(e) => res is Err && res->Err_0 == e,
            },
            // Where the stack mode is one that is not known, the whole set
            // has been read: the mask, the two unused bytes, and a slot for
            // each option that the mask declares.
            res matches Err(ReadError::UnrecognizedDiscriminant(_)) ==> final(r)@ == old(r)@.skip(
                (4 + 4 * declared(de16(old(r)@) & WindowConfigMask::ALL)) as int,
            ),
    {
        let ghost bytes = r@;
        let mask = match WindowConfigMask::read_from(r) {
            Ok(mask) => mask,
            Err(e) => {
                return Err(e);
            },
        };
        // Two unused bytes after the mask.
        match r.advance(2) {
            Ok(()) => {},
            Err(e) => {
                proof {
                    lemma_rest_of_skip(r@, bytes, 2);
                }
                return Err(e);
            },
        }
        proof {
            lemma_skip_skip(bytes, 2, 2);
        }
        read_slots(r, mask, Ghost(bytes))
    }

    #[verifier::rlimit(50)]
    proof fn lemma_parse_sound(bytes: Seq<u8>) {
        reveal(WindowConfigsModel::slots_from_x);
        reveal(WindowConfigsModel::slots_from_y);
        reveal(WindowConfigsModel::slots_from_width);
        reveal(WindowConfigsModel::slots_from_height);
        reveal(WindowConfigsModel::slots_from_border_width);
        reveal(WindowConfigsModel::slots_from_sibling);
        reveal(WindowConfigsModel::slots_from_stack_mode);
        if WindowConfigMask::parse(bytes) is Ok && bytes.len() >= 4 {
            let mask = WindowConfigMask::parse(bytes)->Ok_0.0;
            lemma_field_sound::<i32>(bytes, 4, flagged(mask, WindowConfigMask::X));
            let r1 = parse_field::<i32>(bytes, 4, flagged(mask, WindowConfigMask::X));
            if r1 is Ok {
                let at1 = r1->Ok_0.1;
                lemma_field_sound::<i32>(bytes, at1, flagged(mask, WindowConfigMask::Y));
                let r2 = parse_field::<i32>(bytes, at1, flagged(mask, WindowConfigMask::Y));
                if r2 is Ok {
                    let at2 = r2->Ok_0.1;
                    lemma_field_sound::<u32>(bytes, at2, flagged(mask, WindowConfigMask::WIDTH));
                    let r3 = parse_field::<u32>(bytes, at2, flagged(mask, WindowConfigMask::WIDTH));
                    if r3 is Ok {
                        let at3 = r3->Ok_0.1;
                        lemma_field_sound::<u32>(bytes, at3, flagged(mask, WindowConfigMask::HEIGHT));
                        let r4 = parse_field::<u32>(
                            bytes,
                            at3,
                            flagged(mask, WindowConfigMask::HEIGHT),
                        );
                        if r4 is Ok {
                            let at4 = r4->Ok_0.1;
                            lemma_field_sound::<u32>(
                                bytes,
                                at4,
                                flagged(mask, WindowConfigMask::BORDER_WIDTH),
                            );
                            let r5 = parse_field::<u32>(
                                bytes,
                                at4,
                                flagged(mask, WindowConfigMask::BORDER_WIDTH),
                            );
                            if r5 is Ok {
                                let at5 = r5->Ok_0.1;
                                lemma_field_sound::<Window>(
                                    bytes,
                                    at5,
                                    flagged(mask, WindowConfigMask::SIBLING),
                                );
                                let r6 = parse_field::<Window>(
                                    bytes,
                                    at5,
                                    flagged(mask, WindowConfigMask::SIBLING),
                                );
                                if r6 is Ok {
                                    let at6 = r6->Ok_0.1;
                                    lemma_field_sound::<StackModeSlot>(
                                        bytes,
                                        at6,
                                        flagged(mask, WindowConfigMask::STACK_MODE),
                                    );
                                    lemma_be_len();
                                }
                            }
                        }
                    }
                }
            }
        }
    }

    #[verifier::rlimit(50)]
    proof fn lemma_round_trip(m: WindowConfigsModel, rest: Seq<u8>) {
        reveal(WindowConfigsModel::slots_from_x);
        reveal(WindowConfigsModel::slots_from_y);
        reveal(WindowConfigsModel::slots_from_width);
        reveal(WindowConfigsModel::slots_from_height);
        reveal(WindowConfigsModel::slots_from_border_width);
        reveal(WindowConfigsModel::slots_from_sibling);
        reveal(WindowConfigsModel::slots_from_stack_mode);
        lemma_mask_tells_presence(m);
        lemma_be_len();
        let a1 = wire_set_value::<i32>(m.x);
        let a2 = wire_set_value::<i32>(m.y);
        let a3 = wire_set_value::<u32>(m.width);
        let a4 = wire_set_value::<u32>(m.height);
        let a5 = wire_set_value::<u32>(m.border_width);
        let a6 = wire_set_value::<Window>(m.sibling);
        let a7 = wire_set_value::<StackModeSlot>(m.stack_mode);
        let gap = seq![0u8, 0u8];
        let lead1 = be16(m.mask()) + gap;
        let lead2 = lead1 + a1;
        let lead3 = lead2 + a2;
        let lead4 = lead3 + a3;
        let lead5 = lead4 + a4;
        let lead6 = lead5 + a5;
        let lead7 = lead6 + a6;
        let t7 = a7 + rest;
        let t6 = a6 + t7;
        let t5 = a5 + t6;
        let t4 = a4 + t5;
        let t3 = a3 + t4;
        let t2 = a2 + t3;
        let t1 = a1 + t2;
        let bytes = Self::wire(m) + rest;
        lemma_concat_assoc(lead7, a7, rest);
        lemma_concat_assoc(lead6, a6, t7);
        lemma_concat_assoc(lead5, a5, t6);
        lemma_concat_assoc(lead4, a4, t5);
        lemma_concat_assoc(lead3, a3, t4);
        lemma_concat_assoc(lead2, a2, t3);
        lemma_concat_assoc(lead1, a1, t2);
        lemma_concat_assoc(be16(m.mask()), gap, t1);
        assert(bytes == be16(m.mask()) + (gap + t1));
        lemma_de16_be16(m.mask(), gap + t1);
        lemma_field_round_trip::<i32>(lead1, m.x, t2);
        lemma_field_round_trip::<i32>(lead2, m.y, t3);
        lemma_field_round_trip::<u32>(lead3, m.width, t4);
        lemma_field_round_trip::<u32>(lead4, m.height, t5);
        lemma_field_round_trip::<u32>(lead5, m.border_width, t6);
        lemma_field_round_trip::<Window>(lead6, m.sibling, t7);
        lemma_field_round_trip::<StackModeSlot>(lead7, m.stack_mode, rest);
    }
}

/// A set that is written and read back has exactly the options that it had,
/// each with the value that it had. An option that was not configured is
/// read back as not configured: it took no byte on the wire, and so the set
/// took four bytes and four more for each option that was configured.
pub proof fn lemma_subset_preserved(m: WindowConfigsModel, rest: Seq<u8>)
    ensures
        WindowConfigs::parse(WindowConfigs::wire(m) + rest) == Ok::<
            (WindowConfigsModel, nat),
            ReadError,
        >((m, (4 + 4 * m.count()) as nat)),
        flagged(m.mask(), WindowConfigMask::X) == (m.x is Some),
        flagged(m.mask(), WindowConfigMask::Y) == (m.y is Some),
        flagged(m.mask(), WindowConfigMask::WIDTH) == (m.width is Some),
        flagged(m.mask(), WindowConfigMask::HEIGHT) == (m.height is Some),
        flagged(m.mask(), WindowConfigMask::BORDER_WIDTH) == (m.border_width is Some),
        flagged(m.mask(), WindowConfigMask::SIBLING) == (m.sibling is Some),
        flagged(m.mask(), WindowConfigMask::STACK_MODE) == (m.stack_mode is Some),
{
    WindowConfigs::lemma_round_trip(m, rest);
    lemma_wire_len(m);
    lemma_mask_tells_presence(m);
}

/// A 16-bit coordinate that is configured travels in a four-byte slot and
/// is read back as the same 16-bit value, its sign kept.
pub proof fn lemma_coordinate_survives(m: WindowConfigsModel, x: i16, rest: Seq<u8>)
    requires
        m.x == Some(x as i32),
    ensures
        WindowConfigs::parse(WindowConfigs::wire(m) + rest) matches Ok((read, _)) && read.x
            matches Some(slot) && i16::MIN <= slot <= i16::MAX && slot as i16 == x,
{
    WindowConfigs::lemma_round_trip(m, rest);
}

impl Default for WindowConfigMask {
    fn default() -> (mask: WindowConfigMask)
        ensures
            mask.spec_bits() == 0,
    {
        WindowConfigMask::empty()
    }
}

impl Default for WindowConfigsBuilder {
    fn default() -> (builder: WindowConfigsBuilder)
        ensures
            builder.model() == WindowConfigsModel::unset(),
    {
        WindowConfigsBuilder::new()
    }
}

impl Clone for WindowConfigs {
    fn clone(&self) -> (copy: WindowConfigs)
        ensures
            copy == *self,
    {
        proof {
            use_type_invariant(self);
        }
        WindowConfigs {
            x11_size: self.x11_size,
            mask: self.mask,
            x: self.x,
            y: self.y,
            width: self.width,
            height: self.height,
            border_width: self.border_width,
            sibling: self.sibling,
            stack_mode: self.stack_mode,
        }
    }
}

impl Clone for WindowConfigsBuilder {
    fn clone(&self) -> (copy: WindowConfigsBuilder)
        ensures
            copy == *self,
    {
        proof {
            use_type_invariant(self);
        }
        WindowConfigsBuilder {
            x11_size: self.x11_size,
            mask: self.mask,
            x: self.x,
            y: self.y,
            width: self.width,
            height: self.height,
            border_width: self.border_width,
            sibling: self.sibling,
            stack_mode: self.stack_mode,
        }
    }
}

/// The mask of a set tells which options are configured, and holds no other
/// bit.
pub proof fn lemma_mask_tells_presence(m: WindowConfigsModel)
    ensures
        flagged(m.mask(), WindowConfigMask::X) == (m.x is Some),
        flagged(m.mask(), WindowConfigMask::Y) == (m.y is Some),
        flagged(m.mask(), WindowConfigMask::WIDTH) == (m.width is Some),
        flagged(m.mask(), WindowConfigMask::HEIGHT) == (m.height is Some),
        flagged(m.mask(), WindowConfigMask::BORDER_WIDTH) == (m.border_width is Some),
        flagged(m.mask(), WindowConfigMask::SIBLING) == (m.sibling is Some),
        flagged(m.mask(), WindowConfigMask::STACK_MODE) == (m.stack_mode is Some),
        m.mask() & WindowConfigMask::ALL == m.mask(),
{
    let a = if m.x is Some { 0x0001u16 } else { 0u16 };
    let b = if m.y is Some { 0x0002u16 } else { 0u16 };
    let c = if m.width is Some { 0x0004u16 } else { 0u16 };
    let d = if m.height is Some { 0x0008u16 } else { 0u16 };
    let e = if m.border_width is Some { 0x0010u16 } else { 0u16 };
    let f = if m.sibling is Some { 0x0020u16 } else { 0u16 };
    let g = if m.stack_mode is Some { 0x0040u16 } else { 0u16 };
    lemma_bits_of_flags(a, b, c, d, e, f, g);
}

/// Setting the bit of an option in the mask of a set gives the mask of the
/// set with that option configured as well.
proof fn lemma_mask_after_set(before: WindowConfigsModel, after: WindowConfigsModel, flag: u16)
    requires
        flag == WindowConfigMask::X || flag == WindowConfigMask::Y || flag
            == WindowConfigMask::WIDTH || flag == WindowConfigMask::HEIGHT || flag
            == WindowConfigMask::BORDER_WIDTH || flag == WindowConfigMask::SIBLING || flag
            == WindowConfigMask::STACK_MODE,
        (after.x is Some) == (before.x is Some || flag == WindowConfigMask::X),
        (after.y is Some) == (before.y is Some || flag == WindowConfigMask::Y),
        (after.width is Some) == (before.width is Some || flag == WindowConfigMask::WIDTH),
        (after.height is Some) == (before.height is Some || flag == WindowConfigMask::HEIGHT),
        (after.border_width is Some) == (before.border_width is Some || flag
            == WindowConfigMask::BORDER_WIDTH),
        (after.sibling is Some) == (before.sibling is Some || flag == WindowConfigMask::SIBLING),
        (after.stack_mode is Some) == (before.stack_mode is Some || flag
            == WindowConfigMask::STACK_MODE),
    ensures
        (before.mask() | flag) & WindowConfigMask::ALL == after.mask(),
{
    let a = if before.x is Some { 0x0001u16 } else { 0u16 };
    let b = if before.y is Some { 0x0002u16 } else { 0u16 };
    let c = if before.width is Some { 0x0004u16 } else { 0u16 };
    let d = if before.height is Some { 0x0008u16 } else { 0u16 };
    let e = if before.border_width is Some { 0x0010u16 } else { 0u16 };
    let f = if before.sibling is Some { 0x0020u16 } else { 0u16 };
    let g = if before.stack_mode is Some { 0x0040u16 } else { 0u16 };
    lemma_bits_of_flags(a, b, c, d, e, f, g);
    lemma_mask_tells_presence(after);
}

proof fn lemma_bits_of_flags(a: u16, b: u16, c: u16, d: u16, e: u16, f: u16, g: u16)
    by (bit_vector)
    requires
        a == 0 || a == 0x0001,
        b == 0 || b == 0x0002,
        c == 0 || c == 0x0004,
        d == 0 || d == 0x0008,
        e == 0 || e == 0x0010,
        f == 0 || f == 0x0020,
        g == 0 || g == 0x0040,
    ensures
        ((a | b | c | d | e | f | g) & 0x0001 == 0x0001) == (a != 0),
        ((a | b | c | d | e | f | g) & 0x0002 == 0x0002) == (b != 0),
        ((a | b | c | d | e | f | g) & 0x0004 == 0x0004) == (c != 0),
        ((a | b | c | d | e | f | g) & 0x0008 == 0x0008) == (d != 0),
        ((a | b | c | d | e | f | g) & 0x0010 == 0x0010) == (e != 0),
        ((a | b | c | d | e | f | g) & 0x0020 == 0x0020) == (f != 0),
        ((a | b | c | d | e | f | g) & 0x0040 == 0x0040) == (g != 0),
        (a | b | c | d | e | f | g) & 0x007f == (a | b | c | d | e | f | g),
        (a | b | c | d | e | f | g) | 0x0001 == (0x0001 | b | c | d | e | f | g),
        (a | b | c | d | e | f | g) | 0x0002 == (a | 0x0002 | c | d | e | f | g),
        (a | b | c | d | e | f | g) | 0x0004 == (a | b | 0x0004 | d | e | f | g),
        (a | b | c | d | e | f | g) | 0x0008 == (a | b | c | 0x0008 | e | f | g),
        (a | b | c | d | e | f | g) | 0x0010 == (a | b | c | d | 0x0010 | f | g),
        (a | b | c | d | e | f | g) | 0x0020 == (a | b | c | d | e | 0x0020 | g),
        (a | b | c | d | e | f | g) | 0x0040 == (a | b | c | d | e | f | 0x0040),
{
}

/// A mask that holds no other bit than those of the options, and the bit of
/// each option if and only if the option is configured, is the mask of the
/// set.
proof fn lemma_presence_tells_mask(m: WindowConfigsModel, bits: u16)
    requires
        bits & WindowConfigMask::ALL == bits,
        flagged(bits, WindowConfigMask::X) == (m.x is Some),
        flagged(bits, WindowConfigMask::Y) == (m.y is Some),
        flagged(bits, WindowConfigMask::WIDTH) == (m.width is Some),
        flagged(bits, WindowConfigMask::HEIGHT) == (m.height is Some),
        flagged(bits, WindowConfigMask::BORDER_WIDTH) == (m.border_width is Some),
        flagged(bits, WindowConfigMask::SIBLING) == (m.sibling is Some),
        flagged(bits, WindowConfigMask::STACK_MODE) == (m.stack_mode is Some),
    ensures
        m.mask() == bits,
{
    lemma_flags_of_bits(bits);
}

proof fn lemma_flags_of_bits(m: u16)
    by (bit_vector)
    requires
        m & 0x007f == m,
    ensures
        (if m & 0x0001 == 0x0001 { 0x0001u16 } else { 0u16 })
        | (if m & 0x0002 == 0x0002 { 0x0002u16 } else { 0u16 })
        | (if m & 0x0004 == 0x0004 { 0x0004u16 } else { 0u16 })
        | (if m & 0x0008 == 0x0008 { 0x0008u16 } else { 0u16 })
        | (if m & 0x0010 == 0x0010 { 0x0010u16 } else { 0u16 })
        | (if m & 0x0020 == 0x0020 { 0x0020u16 } else { 0u16 })
        | (if m & 0x0040 == 0x0040 { 0x0040u16 } else { 0u16 }) == m,
{
}

} // verus!
