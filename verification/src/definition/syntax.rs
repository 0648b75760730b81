//! The items of a source of definitions.
//!
//! Definitions are written among other items: modules, imports, functions
//! and the like. Of all these only a struct and an enum hold a definition.
//! The others are told apart and passed over.

use vstd::prelude::*;
use crate::definition::message::Struct;
use crate::definition::variant::Enum;

verus! {

/// An attribute that stands before an item.
#[derive(Clone, Copy, Debug, PartialEq, Eq)]
pub struct OuterAttribute;

/// Who can see an item.
#[derive(Clone, Copy, Debug, PartialEq, Eq)]
pub enum Visibility {
    /// Everyone.
    Public(PubVisibility),
    /// The crate of the item.
    PublicCrate(PubCrateVisibility),
    /// The module of the item.
    PublicSelf(PubSelfVisibility),
    /// The module above that of the item.
    PublicSuper(PubSuperVisibility),
    /// A module that is named.
    PublicInPath(PubInPathVisibility),
    /// The default: nothing is written.
    Default,
}

/// Seen by everyone.
#[derive(Clone, Copy, Debug, PartialEq, Eq)]
pub struct PubVisibility;

/// Seen in the crate.
#[derive(Clone, Copy, Debug, PartialEq, Eq)]
pub struct PubCrateVisibility;

/// Seen in the module.
#[derive(Clone, Copy, Debug, PartialEq, Eq)]
pub struct PubSelfVisibility;

/// Seen in the module above.
#[derive(Clone, Copy, Debug, PartialEq, Eq)]
pub struct PubSuperVisibility;

/// Seen in a module that is named.
#[derive(Clone, Copy, Debug, PartialEq, Eq)]
pub struct PubInPathVisibility;

/// An item with the attributes that stand before it.
#[derive(Clone, Debug, PartialEq, Eq)]
pub struct AttributesItem {
    /// The attributes.
    pub attributes: Vec<OuterAttribute>,
    /// The item.
    pub item: Item,
}

/// An item of a source of definitions.
#[derive(Clone, Debug, PartialEq, Eq)]
pub enum Item {
    /// An item that has a visibility.
    WithVisibility(VisItem),
    /// An item that is a macro.
    Macro(MacroItem),
}

/// An item that has a visibility.
#[derive(Clone, Debug, PartialEq, Eq)]
pub struct VisItem {
    /// Who can see the item.
    pub visibility: Visibility,
    /// What the item defines.
    pub definition: VisDefinition,
}

/// What an item with a visibility defines.
#[derive(Clone, Debug, PartialEq, Eq)]
pub enum VisDefinition {
    /// A module.
    Module(Module),
    /// The import of a crate.
    ExternCrate(ExternCrate),
    /// An import.
    Use(Use),
    /// A function.
    Function(Function),
    /// A name for a type.
    TypeAlias(TypeAlias),
    /// A record or a message: it holds a definition.
    Struct(Struct),
    /// A tagged variant: it holds a definition.
    Enum(Enum),
    /// A union.
    Union(Union),
    /// A constant.
    Constant(Constant),
    /// A global.
    Static(Static),
    /// A trait.
    Trait(Trait),
    /// An implementation.
    Impl(Impl),
    /// A block of foreign items.
    Extern(Extern),
}

/// A module.
#[derive(Clone, Copy, Debug, PartialEq, Eq)]
pub struct Module;

/// The import of a crate.
#[derive(Clone, Copy, Debug, PartialEq, Eq)]
pub struct ExternCrate;

/// An import.
#[derive(Clone, Copy, Debug, PartialEq, Eq)]
pub struct Use;

/// A function.
#[derive(Clone, Copy, Debug, PartialEq, Eq)]
pub struct Function;

/// A name for a type.
#[derive(Clone, Copy, Debug, PartialEq, Eq)]
pub struct TypeAlias;

/// A union.
#[derive(Clone, Copy, Debug, PartialEq, Eq)]
pub struct Union;

/// A constant.
#[derive(Clone, Copy, Debug, PartialEq, Eq)]
pub struct Constant;

/// A global.
#[derive(Clone, Copy, Debug, PartialEq, Eq)]
pub struct Static;

/// A trait.
#[derive(Clone, Copy, Debug, PartialEq, Eq)]
pub struct Trait;

/// An implementation.
#[derive(Clone, Copy, Debug, PartialEq, Eq)]
pub struct Impl;

/// A block of foreign items.
#[derive(Clone, Copy, Debug, PartialEq, Eq)]
pub struct Extern;

/// An item that is a macro.
#[derive(Clone, Copy, Debug, PartialEq, Eq)]
pub enum MacroItem {
    /// The call of a macro that stands as an item.
    OuterMacroInvocation(OuterMacroInvocation),
    /// The definition of a macro by rules.
    MacroRulesDefinition(MacroRulesDefinition),
}

/// The call of a macro that stands as an item: its brackets are followed by
/// a semicolon unless they are curly.
#[derive(Clone, Copy, Debug, PartialEq, Eq)]
pub struct OuterMacroInvocation;

/// The definition of a macro by rules.
#[derive(Clone, Copy, Debug, PartialEq, Eq)]
pub struct MacroRulesDefinition;

} // verus!
