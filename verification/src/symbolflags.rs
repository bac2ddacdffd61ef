//! The kinds of symbols as a set of bits.
//!
//! Each kind has one bit of a 32-bit word; a named union of kinds is the
//! `|` of its kinds. The meaning of a bit is fixed: it is that of the
//! compiler's own table of symbol flags, which the analysis process writes
//! into the payload. A word may carry bits that have no name here; they are
//! kept or dropped as the caller asks, and no query fails on them.

use vstd::prelude::*;

verus! {

/// A set of symbol kinds.
#[derive(Debug, Clone, Copy, PartialEq, Eq, Hash, Structural)]
pub struct SymbolFlags(u32);

impl SymbolFlags {
    /// No kind.
    pub const NONE: u32 = 0;

    /// A variable declared with `var`, or a parameter.
    pub const FUNCTION_SCOPED_VARIABLE: u32 = 0x0000_0001;

    /// A variable declared with `let` or `const`.
    pub const BLOCK_SCOPED_VARIABLE: u32 = 0x0000_0002;

    /// A property, or an enum member.
    pub const PROPERTY: u32 = 0x0000_0004;

    /// An enum member.
    pub const ENUM_MEMBER: u32 = 0x0000_0008;

    /// A function.
    pub const FUNCTION: u32 = 0x0000_0010;

    /// A class.
    pub const CLASS: u32 = 0x0000_0020;

    /// An interface.
    pub const INTERFACE: u32 = 0x0000_0040;

    /// A const enum.
    pub const CONST_ENUM: u32 = 0x0000_0080;

    /// An enum that is not const.
    pub const REGULAR_ENUM: u32 = 0x0000_0100;

    /// A module that is instantiated.
    pub const VALUE_MODULE: u32 = 0x0000_0200;

    /// A module that is not instantiated.
    pub const NAMESPACE_MODULE: u32 = 0x0000_0400;

    /// A type literal, or a mapped type.
    pub const TYPE_LITERAL: u32 = 0x0000_0800;

    /// An object literal.
    pub const OBJECT_LITERAL: u32 = 0x0000_1000;

    /// A method.
    pub const METHOD: u32 = 0x0000_2000;

    /// A constructor.
    pub const CONSTRUCTOR: u32 = 0x0000_4000;

    /// A get accessor.
    pub const GET_ACCESSOR: u32 = 0x0000_8000;

    /// A set accessor.
    pub const SET_ACCESSOR: u32 = 0x0001_0000;

    /// A call, construct or index signature.
    pub const SIGNATURE: u32 = 0x0002_0000;

    /// A type parameter.
    pub const TYPE_PARAMETER: u32 = 0x0004_0000;

    /// A type alias.
    pub const TYPE_ALIAS: u32 = 0x0008_0000;

    /// The marker of an exported value.
    pub const EXPORT_VALUE: u32 = 0x0010_0000;

    /// An alias for another symbol.
    pub const ALIAS: u32 = 0x0020_0000;

    /// A prototype property, which has no place in the source.
    pub const PROTOTYPE: u32 = 0x0040_0000;

    /// An `export *` declaration.
    pub const EXPORT_STAR: u32 = 0x0080_0000;

    /// An optional property.
    pub const OPTIONAL: u32 = 0x0100_0000;

    /// A symbol made in the course of type checking.
    pub const TRANSIENT: u32 = 0x0200_0000;

    /// An assignment to a property of a function that acts as a declaration.
    pub const ASSIGNMENT: u32 = 0x0400_0000;

    /// The `module` of `module.exports` in CommonJS.
    pub const MODULE_EXPORTS: u32 = 0x0800_0000;

    /// A module that holds const enums, or modules of that kind, and nothing else.
    pub const CONST_ENUM_ONLY_MODULE: u32 = 0x1000_0000;

    /// A symbol that a method may replace.
    pub const REPLACEABLE_BY_METHOD: u32 = 0x2000_0000;

    /// The signal of a lookup among the globals.
    pub const GLOBAL_LOOKUP: u32 = 0x4000_0000;

    /// Enums of both kinds.
    pub const ENUM: u32 = Self::REGULAR_ENUM | Self::CONST_ENUM;

    /// Variables of both scopes.
    pub const VARIABLE: u32 = Self::FUNCTION_SCOPED_VARIABLE | Self::BLOCK_SCOPED_VARIABLE;

    /// What has a value.
    pub const VALUE: u32 = Self::VARIABLE
        | Self::PROPERTY
        | Self::ENUM_MEMBER
        | Self::OBJECT_LITERAL
        | Self::FUNCTION
        | Self::CLASS
        | Self::ENUM
        | Self::VALUE_MODULE
        | Self::METHOD
        | Self::GET_ACCESSOR
        | Self::SET_ACCESSOR;

    /// What is a type.
    pub const TYPE: u32 = Self::CLASS
        | Self::INTERFACE
        | Self::ENUM
        | Self::ENUM_MEMBER
        | Self::TYPE_LITERAL
        | Self::TYPE_PARAMETER
        | Self::TYPE_ALIAS;

    /// What is a namespace.
    pub const NAMESPACE: u32 = Self::VALUE_MODULE | Self::NAMESPACE_MODULE | Self::ENUM;

    /// Modules of both kinds.
    pub const MODULE: u32 = Self::VALUE_MODULE | Self::NAMESPACE_MODULE;

    /// Accessors of both kinds.
    pub const ACCESSOR: u32 = Self::GET_ACCESSOR | Self::SET_ACCESSOR;

    /// What can be a member of a module.
    pub const MODULE_MEMBER: u32 = Self::VARIABLE
        | Self::FUNCTION
        | Self::CLASS
        | Self::INTERFACE
        | Self::ENUM
        | Self::MODULE
        | Self::TYPE_ALIAS
        | Self::ALIAS;

    /// What has a local symbol beside its export.
    pub const EXPORT_HAS_LOCAL: u32 = Self::FUNCTION
        | Self::CLASS
        | Self::ENUM
        | Self::VALUE_MODULE;

    /// What is scoped to its block.
    pub const BLOCK_SCOPED: u32 = Self::BLOCK_SCOPED_VARIABLE | Self::CLASS | Self::ENUM;

    /// A property or an accessor.
    pub const PROPERTY_OR_ACCESSOR: u32 = Self::PROPERTY | Self::ACCESSOR;

    /// What can be a member of a class.
    pub const CLASS_MEMBER: u32 = Self::METHOD | Self::ACCESSOR | Self::PROPERTY;

    /// What can be exported as `default`.
    pub const EXPORT_SUPPORTS_DEFAULT_MODIFIER: u32 = Self::CLASS
        | Self::FUNCTION
        | Self::INTERFACE;

    /// What can be classified.
    pub const CLASSIFIABLE: u32 = Self::CLASS
        | Self::ENUM
        | Self::TYPE_ALIAS
        | Self::INTERFACE
        | Self::TYPE_PARAMETER
        | Self::MODULE
        | Self::ALIAS;

    /// What can hold members that are bound late.
    pub const LATE_BINDING_CONTAINER: u32 = Self::CLASS
        | Self::INTERFACE
        | Self::TYPE_LITERAL
        | Self::OBJECT_LITERAL
        | Self::FUNCTION;

    /// Every bit that has a name.
    pub const ALL: u32 = 0x7fff_ffff;

    /// The set whose bits are `bits`.
    pub closed spec fn of(bits: u32) -> SymbolFlags {
        SymbolFlags(bits)
    }

    /// A set is its bits and nothing else.
    pub broadcast proof fn lemma_of_bits(bits: u32)
        ensures
            #[trigger] Self::of(bits)@ == bits,
    {
    }

    /// Two sets with the same bits are the same set.
    pub proof fn lemma_same_bits(self, other: SymbolFlags)
        requires
            self@ == other@,
        ensures
            self == other,
    {
    }

    /// Whether this set and `mask` have a bit in common.
    pub open spec fn meets(self, mask: u32) -> bool {
        self@ & mask != 0
    }

    /// Whether this set has every bit of `mask`.
    pub open spec fn holds(self, mask: u32) -> bool {
        self@ & mask == mask
    }

    /// The empty set.
    pub fn empty() -> (r: SymbolFlags)
        ensures
            r@ == 0,
    {
        SymbolFlags(0)
    }

    /// The set of every kind that has a name.
    pub fn all() -> (r: SymbolFlags)
        ensures
            r@ == Self::ALL,
    {
        SymbolFlags(Self::ALL)
    }

    /// The bits of this set.
    pub fn bits(&self) -> (r: u32)
        ensures
            r == self@,
    {
        self.0
    }

    /// The set with the bits `bits`, if each of them has a name.
    pub fn from_bits(bits: u32) -> (r: Option<SymbolFlags>)
        ensures
            r is Some <==> bits & Self::ALL == bits,
            r is Some ==> r->Some_0@ == bits,
    {
        if bits & Self::ALL == bits {
            Some(SymbolFlags(bits))
        } else {
            None
        }
    }

    /// The set with those of the bits `bits` that have a name. Bits without a
    /// name are dropped; no word is refused.
    pub fn from_bits_truncate(bits: u32) -> (r: SymbolFlags)
        ensures
            r@ == bits & Self::ALL,
    {
        SymbolFlags(bits & Self::ALL)
    }

    /// The set with the bits `bits`, those without a name too.
    pub fn from_bits_retain(bits: u32) -> (r: SymbolFlags)
        ensures
            r@ == bits,
            r == Self::of(bits),
    {
        SymbolFlags(bits)
    }

    /// Whether no bit is set.
    pub fn is_empty(&self) -> (r: bool)
        ensures
            r == (self@ == 0),
    {
        self.0 == 0
    }

    /// Whether every bit that has a name is set.
    pub fn is_all(&self) -> (r: bool)
        ensures
            r == (Self::ALL | self@ == self@),
    {
        Self::ALL | self.0 == self.0
    }

    /// Whether this set and `other` have a bit in common.
    pub fn intersects(&self, other: SymbolFlags) -> (r: bool)
        ensures
            r == self.meets(other@),
    {
        self.0 & other.0 != 0
    }

    /// Whether this set has every bit of `other`.
    pub fn contains(&self, other: SymbolFlags) -> (r: bool)
        ensures
            r == self.holds(other@),
    {
        self.0 & other.0 == other.0
    }

    /// The bits of either set.
    pub fn union(self, other: SymbolFlags) -> (r: SymbolFlags)
        ensures
            r@ == self@ | other@,
    {
        SymbolFlags(self.0 | other.0)
    }

    /// The bits of both sets.
    pub fn intersection(self, other: SymbolFlags) -> (r: SymbolFlags)
        ensures
            r@ == self@ & other@,
    {
        SymbolFlags(self.0 & other.0)
    }

    /// The bits of this set that `other` has not.
    pub fn difference(self, other: SymbolFlags) -> (r: SymbolFlags)
        ensures
            r@ == self@ & !other@,
    {
        SymbolFlags(self.0 & !other.0)
    }

    /// The bits of exactly one of the two sets.
    pub fn symmetric_difference(self, other: SymbolFlags) -> (r: SymbolFlags)
        ensures
            r@ == self@ ^ other@,
    {
        SymbolFlags(self.0 ^ other.0)
    }

    /// The bits with a name that this set has not.
    pub fn complement(self) -> (r: SymbolFlags)
        ensures
            r@ == !self@ & Self::ALL,
    {
        SymbolFlags(!self.0 & Self::ALL)
    }

    /// Adds the bits of `other`.
    pub fn insert(&mut self, other: SymbolFlags)
        ensures
            final(self)@ == old(self)@ | other@,
    {
        self.0 = self.0 | other.0;
    }

    /// Takes the bits of `other` away.
    pub fn remove(&mut self, other: SymbolFlags)
        ensures
            final(self)@ == old(self)@ & !other@,
    {
        self.0 = self.0 & !other.0;
    }

    /// Flips the bits of `other`.
    pub fn toggle(&mut self, other: SymbolFlags)
        ensures
            final(self)@ == old(self)@ ^ other@,
    {
        self.0 = self.0 ^ other.0;
    }

    /// Adds the bits of `other` if `value` holds, else takes them away.
    pub fn set(&mut self, other: SymbolFlags, value: bool)
        ensures
            final(self)@ == if value {
                old(self)@ | other@
            } else {
                old(self)@ & !other@
            },
    {
        if value {
            self.insert(other);
        } else {
            self.remove(other);
        }
    }
}

impl View for SymbolFlags {
    type V = u32;

    /// The bits of this set.
    closed spec fn view(&self) -> u32 {
        self.0
    }
}

impl core::ops::BitOr for SymbolFlags {
    type Output = SymbolFlags;

    fn bitor(self, other: SymbolFlags) -> (r: SymbolFlags) {
        SymbolFlags(self.0 | other.0)
    }
}

impl vstd::std_specs::ops::BitOrSpecImpl for SymbolFlags {
    open spec fn obeys_bitor_spec() -> bool {
        true
    }

    open spec fn bitor_req(self, other: SymbolFlags) -> bool {
        true
    }

    open spec fn bitor_spec(self, other: SymbolFlags) -> SymbolFlags {
        SymbolFlags::of(self@ | other@)
    }
}

/// The words of the named unions.
pub proof fn lemma_union_words()
    ensures
        SymbolFlags::ENUM == 0x0000_0180,
        SymbolFlags::VARIABLE == 0x0000_0003,
        SymbolFlags::VALUE == 0x0001_b3bf,
        SymbolFlags::TYPE == 0x000c_09e8,
        SymbolFlags::NAMESPACE == 0x0000_0780,
        SymbolFlags::MODULE == 0x0000_0600,
        SymbolFlags::ACCESSOR == 0x0001_8000,
        SymbolFlags::MODULE_MEMBER == 0x0028_07f3,
        SymbolFlags::EXPORT_HAS_LOCAL == 0x0000_03b0,
        SymbolFlags::BLOCK_SCOPED == 0x0000_01a2,
        SymbolFlags::PROPERTY_OR_ACCESSOR == 0x0001_8004,
        SymbolFlags::CLASS_MEMBER == 0x0001_a004,
        SymbolFlags::EXPORT_SUPPORTS_DEFAULT_MODIFIER == 0x0000_0070,
        SymbolFlags::CLASSIFIABLE == 0x002c_07e0,
        SymbolFlags::LATE_BINDING_CONTAINER == 0x0000_1870,
{
    assert(0x0000_0100u32 | 0x0000_0080u32 == 0x0000_0180) by (bit_vector);
    assert(0x0000_0001u32 | 0x0000_0002u32 == 0x0000_0003) by (bit_vector);
    assert(0x0000_0003u32
        | 0x0000_0004u32
        | 0x0000_0008u32
        | 0x0000_1000u32
        | 0x0000_0010u32
        | 0x0000_0020u32
        | 0x0000_0180u32
        | 0x0000_0200u32
        | 0x0000_2000u32
        | 0x0000_8000u32
        | 0x0001_0000u32
        == 0x0001_b3bf) by (bit_vector);
    assert(0x0000_0020u32
        | 0x0000_0040u32
        | 0x0000_0180u32
        | 0x0000_0008u32
        | 0x0000_0800u32
        | 0x0004_0000u32
        | 0x0008_0000u32
        == 0x000c_09e8) by (bit_vector);
    assert(0x0000_0200u32 | 0x0000_0400u32 | 0x0000_0180u32 == 0x0000_0780) by (bit_vector);
    assert(0x0000_0200u32 | 0x0000_0400u32 == 0x0000_0600) by (bit_vector);
    assert(0x0000_8000u32 | 0x0001_0000u32 == 0x0001_8000) by (bit_vector);
    assert(0x0000_0003u32
        | 0x0000_0010u32
        | 0x0000_0020u32
        | 0x0000_0040u32
        | 0x0000_0180u32
        | 0x0000_0600u32
        | 0x0008_0000u32
        | 0x0020_0000u32
        == 0x0028_07f3) by (bit_vector);
    assert(0x0000_0010u32
        | 0x0000_0020u32
        | 0x0000_0180u32
        | 0x0000_0200u32
        == 0x0000_03b0) by (bit_vector);
    assert(0x0000_0002u32 | 0x0000_0020u32 | 0x0000_0180u32 == 0x0000_01a2) by (bit_vector);
    assert(0x0000_0004u32 | 0x0001_8000u32 == 0x0001_8004) by (bit_vector);
    assert(0x0000_2000u32 | 0x0001_8000u32 | 0x0000_0004u32 == 0x0001_a004) by (bit_vector);
    assert(0x0000_0020u32 | 0x0000_0010u32 | 0x0000_0040u32 == 0x0000_0070) by (bit_vector);
    assert(0x0000_0020u32
        | 0x0000_0180u32
        | 0x0008_0000u32
        | 0x0000_0040u32
        | 0x0004_0000u32
        | 0x0000_0600u32
        | 0x0020_0000u32
        == 0x002c_07e0) by (bit_vector);
    assert(0x0000_0020u32
        | 0x0000_0040u32
        | 0x0000_0800u32
        | 0x0000_1000u32
        | 0x0000_0010u32
        == 0x0000_1870) by (bit_vector);
}

/// A set meets a named union exactly when it meets one of the kinds that
/// the union is made of. This holds of every set, so of each set of one kind.
pub proof fn lemma_union_membership(flags: SymbolFlags)
    ensures
        flags.meets(SymbolFlags::ENUM) == (flags.meets(SymbolFlags::REGULAR_ENUM)
            || flags.meets(SymbolFlags::CONST_ENUM)),
        flags.meets(SymbolFlags::VARIABLE) == (flags.meets(SymbolFlags::FUNCTION_SCOPED_VARIABLE)
            || flags.meets(SymbolFlags::BLOCK_SCOPED_VARIABLE)),
        flags.meets(SymbolFlags::VALUE) == (flags.meets(SymbolFlags::VARIABLE)
            || flags.meets(SymbolFlags::PROPERTY)
            || flags.meets(SymbolFlags::ENUM_MEMBER)
            || flags.meets(SymbolFlags::OBJECT_LITERAL)
            || flags.meets(SymbolFlags::FUNCTION)
            || flags.meets(SymbolFlags::CLASS)
            || flags.meets(SymbolFlags::ENUM)
            || flags.meets(SymbolFlags::VALUE_MODULE)
            || flags.meets(SymbolFlags::METHOD)
            || flags.meets(SymbolFlags::GET_ACCESSOR)
            || flags.meets(SymbolFlags::SET_ACCESSOR)),
        flags.meets(SymbolFlags::TYPE) == (flags.meets(SymbolFlags::CLASS)
            || flags.meets(SymbolFlags::INTERFACE)
            || flags.meets(SymbolFlags::ENUM)
            || flags.meets(SymbolFlags::ENUM_MEMBER)
            || flags.meets(SymbolFlags::TYPE_LITERAL)
            || flags.meets(SymbolFlags::TYPE_PARAMETER)
            || flags.meets(SymbolFlags::TYPE_ALIAS)),
        flags.meets(SymbolFlags::NAMESPACE) == (flags.meets(SymbolFlags::VALUE_MODULE)
            || flags.meets(SymbolFlags::NAMESPACE_MODULE)
            || flags.meets(SymbolFlags::ENUM)),
        flags.meets(SymbolFlags::MODULE) == (flags.meets(SymbolFlags::VALUE_MODULE)
            || flags.meets(SymbolFlags::NAMESPACE_MODULE)),
        flags.meets(SymbolFlags::ACCESSOR) == (flags.meets(SymbolFlags::GET_ACCESSOR)
            || flags.meets(SymbolFlags::SET_ACCESSOR)),
        flags.meets(SymbolFlags::MODULE_MEMBER) == (flags.meets(SymbolFlags::VARIABLE)
            || flags.meets(SymbolFlags::FUNCTION)
            || flags.meets(SymbolFlags::CLASS)
            || flags.meets(SymbolFlags::INTERFACE)
            || flags.meets(SymbolFlags::ENUM)
            || flags.meets(SymbolFlags::MODULE)
            || flags.meets(SymbolFlags::TYPE_ALIAS)
            || flags.meets(SymbolFlags::ALIAS)),
        flags.meets(SymbolFlags::EXPORT_HAS_LOCAL) == (flags.meets(SymbolFlags::FUNCTION)
            || flags.meets(SymbolFlags::CLASS)
            || flags.meets(SymbolFlags::ENUM)
            || flags.meets(SymbolFlags::VALUE_MODULE)),
        flags.meets(SymbolFlags::BLOCK_SCOPED) == (flags.meets(SymbolFlags::BLOCK_SCOPED_VARIABLE)
            || flags.meets(SymbolFlags::CLASS)
            || flags.meets(SymbolFlags::ENUM)),
        flags.meets(SymbolFlags::PROPERTY_OR_ACCESSOR) == (flags.meets(SymbolFlags::PROPERTY)
            || flags.meets(SymbolFlags::ACCESSOR)),
        flags.meets(SymbolFlags::CLASS_MEMBER) == (flags.meets(SymbolFlags::METHOD)
            || flags.meets(SymbolFlags::ACCESSOR)
            || flags.meets(SymbolFlags::PROPERTY)),
        flags.meets(SymbolFlags::EXPORT_SUPPORTS_DEFAULT_MODIFIER) == (flags.meets(
            SymbolFlags::CLASS,
        )
            || flags.meets(SymbolFlags::FUNCTION)
            || flags.meets(SymbolFlags::INTERFACE)),
        flags.meets(SymbolFlags::CLASSIFIABLE) == (flags.meets(SymbolFlags::CLASS)
            || flags.meets(SymbolFlags::ENUM)
            || flags.meets(SymbolFlags::TYPE_ALIAS)
            || flags.meets(SymbolFlags::INTERFACE)
            || flags.meets(SymbolFlags::TYPE_PARAMETER)
            || flags.meets(SymbolFlags::MODULE)
            || flags.meets(SymbolFlags::ALIAS)),
        flags.meets(SymbolFlags::LATE_BINDING_CONTAINER) == (flags.meets(SymbolFlags::CLASS)
            || flags.meets(SymbolFlags::INTERFACE)
            || flags.meets(SymbolFlags::TYPE_LITERAL)
            || flags.meets(SymbolFlags::OBJECT_LITERAL)
            || flags.meets(SymbolFlags::FUNCTION)),
{
    let w: u32 = flags@;
    {
        let a: u32 = SymbolFlags::REGULAR_ENUM;
        let b: u32 = SymbolFlags::CONST_ENUM;
        assert((w & (a | b) != 0) == ((w & a != 0) || (w & b != 0))) by (bit_vector);
    }
    {
        let a: u32 = SymbolFlags::FUNCTION_SCOPED_VARIABLE;
        let b: u32 = SymbolFlags::BLOCK_SCOPED_VARIABLE;
        assert((w & (a | b) != 0) == ((w & a != 0) || (w & b != 0))) by (bit_vector);
    }
    {
        let a: u32 = SymbolFlags::VARIABLE;
        let b: u32 = SymbolFlags::PROPERTY;
        let c: u32 = SymbolFlags::ENUM_MEMBER;
        let d: u32 = SymbolFlags::OBJECT_LITERAL;
        let e: u32 = SymbolFlags::FUNCTION;
        let f: u32 = SymbolFlags::CLASS;
        let g: u32 = SymbolFlags::ENUM;
        let h: u32 = SymbolFlags::VALUE_MODULE;
        let i: u32 = SymbolFlags::METHOD;
        let j: u32 = SymbolFlags::GET_ACCESSOR;
        let k: u32 = SymbolFlags::SET_ACCESSOR;
        assert((w & (a | b | c | d | e | f | g | h | i | j | k) != 0) == ((w & a != 0)
            || (w & b != 0)
            || (w & c != 0)
            || (w & d != 0)
            || (w & e != 0)
            || (w & f != 0)
            || (w & g != 0)
            || (w & h != 0)
            || (w & i != 0)
            || (w & j != 0)
            || (w & k != 0))) by (bit_vector);
    }
    {
        let a: u32 = SymbolFlags::CLASS;
        let b: u32 = SymbolFlags::INTERFACE;
        let c: u32 = SymbolFlags::ENUM;
        let d: u32 = SymbolFlags::ENUM_MEMBER;
        let e: u32 = SymbolFlags::TYPE_LITERAL;
        let f: u32 = SymbolFlags::TYPE_PARAMETER;
        let g: u32 = SymbolFlags::TYPE_ALIAS;
        assert((w & (a | b | c | d | e | f | g) != 0) == ((w & a != 0)
            || (w & b != 0)
            || (w & c != 0)
            || (w & d != 0)
            || (w & e != 0)
            || (w & f != 0)
            || (w & g != 0))) by (bit_vector);
    }
    {
        let a: u32 = SymbolFlags::VALUE_MODULE;
        let b: u32 = SymbolFlags::NAMESPACE_MODULE;
        let c: u32 = SymbolFlags::ENUM;
        assert((w & (a | b | c) != 0) == ((w & a != 0)
            || (w & b != 0)
            || (w & c != 0))) by (bit_vector);
    }
    {
        let a: u32 = SymbolFlags::VALUE_MODULE;
        let b: u32 = SymbolFlags::NAMESPACE_MODULE;
        assert((w & (a | b) != 0) == ((w & a != 0) || (w & b != 0))) by (bit_vector);
    }
    {
        let a: u32 = SymbolFlags::GET_ACCESSOR;
        let b: u32 = SymbolFlags::SET_ACCESSOR;
        assert((w & (a | b) != 0) == ((w & a != 0) || (w & b != 0))) by (bit_vector);
    }
    {
        let a: u32 = SymbolFlags::VARIABLE;
        let b: u32 = SymbolFlags::FUNCTION;
        let c: u32 = SymbolFlags::CLASS;
        let d: u32 = SymbolFlags::INTERFACE;
        let e: u32 = SymbolFlags::ENUM;
        let f: u32 = SymbolFlags::MODULE;
        let g: u32 = SymbolFlags::TYPE_ALIAS;
        let h: u32 = SymbolFlags::ALIAS;
        assert((w & (a | b | c | d | e | f | g | h) != 0) == ((w & a != 0)
            || (w & b != 0)
            || (w & c != 0)
            || (w & d != 0)
            || (w & e != 0)
            || (w & f != 0)
            || (w & g != 0)
            || (w & h != 0))) by (bit_vector);
    }
    {
        let a: u32 = SymbolFlags::FUNCTION;
        let b: u32 = SymbolFlags::CLASS;
        let c: u32 = SymbolFlags::ENUM;
        let d: u32 = SymbolFlags::VALUE_MODULE;
        assert((w & (a | b | c | d) != 0) == ((w & a != 0)
            || (w & b != 0)
            || (w & c != 0)
            || (w & d != 0))) by (bit_vector);
    }
    {
        let a: u32 = SymbolFlags::BLOCK_SCOPED_VARIABLE;
        let b: u32 = SymbolFlags::CLASS;
        let c: u32 = SymbolFlags::ENUM;
        assert((w & (a | b | c) != 0) == ((w & a != 0)
            || (w & b != 0)
            || (w & c != 0))) by (bit_vector);
    }
    {
        let a: u32 = SymbolFlags::PROPERTY;
        let b: u32 = SymbolFlags::ACCESSOR;
        assert((w & (a | b) != 0) == ((w & a != 0) || (w & b != 0))) by (bit_vector);
    }
    {
        let a: u32 = SymbolFlags::METHOD;
        let b: u32 = SymbolFlags::ACCESSOR;
        let c: u32 = SymbolFlags::PROPERTY;
        assert((w & (a | b | c) != 0) == ((w & a != 0)
            || (w & b != 0)
            || (w & c != 0))) by (bit_vector);
    }
    {
        let a: u32 = SymbolFlags::CLASS;
        let b: u32 = SymbolFlags::FUNCTION;
        let c: u32 = SymbolFlags::INTERFACE;
        assert((w & (a | b | c) != 0) == ((w & a != 0)
            || (w & b != 0)
            || (w & c != 0))) by (bit_vector);
    }
    {
        let a: u32 = SymbolFlags::CLASS;
        let b: u32 = SymbolFlags::ENUM;
        let c: u32 = SymbolFlags::TYPE_ALIAS;
        let d: u32 = SymbolFlags::INTERFACE;
        let e: u32 = SymbolFlags::TYPE_PARAMETER;
        let f: u32 = SymbolFlags::MODULE;
        let g: u32 = SymbolFlags::ALIAS;
        assert((w & (a | b | c | d | e | f | g) != 0) == ((w & a != 0)
            || (w & b != 0)
            || (w & c != 0)
            || (w & d != 0)
            || (w & e != 0)
            || (w & f != 0)
            || (w & g != 0))) by (bit_vector);
    }
    {
        let a: u32 = SymbolFlags::CLASS;
        let b: u32 = SymbolFlags::INTERFACE;
        let c: u32 = SymbolFlags::TYPE_LITERAL;
        let d: u32 = SymbolFlags::OBJECT_LITERAL;
        let e: u32 = SymbolFlags::FUNCTION;
        assert((w & (a | b | c | d | e) != 0) == ((w & a != 0)
            || (w & b != 0)
            || (w & c != 0)
            || (w & d != 0)
            || (w & e != 0))) by (bit_vector);
    }
}

/// Bits without a name change no answer about bits with a name: a word that
/// is cut down to the named bits meets and holds the same named masks as the
/// word itself.
pub proof fn lemma_unknown_bits_ignored(raw: u32, mask: u32)
    requires
        mask & SymbolFlags::ALL == mask,
    ensures
        SymbolFlags::of(raw & SymbolFlags::ALL).meets(mask) == SymbolFlags::of(raw).meets(mask),
        SymbolFlags::of(raw & SymbolFlags::ALL).holds(mask) == SymbolFlags::of(raw).holds(mask),
{
    let all: u32 = SymbolFlags::ALL;
    assert(mask & all == mask ==> ((raw & all) & mask) == raw & mask) by (bit_vector);
}

/// A word below 2^31 has no bit but named ones.
pub proof fn lemma_named_within_all(mask: u32)
    requires
        mask < 0x8000_0000,
    ensures
        mask & SymbolFlags::ALL == mask,
{
    assert(mask < 0x8000_0000u32 ==> mask & 0x7fff_ffffu32 == mask) by (bit_vector);
}

} // verus!
