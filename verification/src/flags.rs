//! The access flags of classes, fields and methods: sets of bits of fixed
//! width, each with the bits that are known for it.

use vstd::prelude::*;

verus! {

/// The access flags of a class.
///
/// A value holds known bits only: one with other bits cannot be made.
#[derive(Debug, Clone, Copy, PartialEq, Eq, Hash, Structural)]
pub struct ClassAccessFlags {
    bits: u16,
}

impl View for ClassAccessFlags {
    type V = u16;

    closed spec fn view(&self) -> u16 {
        self.bits
    }
}

impl DeepView for ClassAccessFlags {
    type V = u16;

    open spec fn deep_view(&self) -> u16 {
        self@
    }
}

impl ClassAccessFlags {
    /// Declared public: may be accessed from outside its package.
    pub const PUBLIC: u16 = 0x0001;

    /// Declared final: no subclasses allowed.
    pub const FINAL: u16 = 0x0010;

    /// Treat superclass methods specially when invoked by a special invocation.
    pub const SUPER: u16 = 0x0020;

    /// Is an interface, not a class.
    pub const INTERFACE: u16 = 0x0200;

    /// Declared abstract: must not be instantiated.
    pub const ABSTRACT: u16 = 0x0400;

    /// Declared synthetic: not present in the source code.
    pub const SYNTHETIC: u16 = 0x1000;

    /// Declared as an annotation type.
    pub const ANNOTATION: u16 = 0x2000;

    /// Declared as an enum type.
    pub const ENUM: u16 = 0x4000;

    /// Is a module, not a class or interface.
    pub const MODULE: u16 = 0x8000;

    /// All the bits that a class may have.
    pub const ALL: u16 = 0xF631;

    /// Whether a number has known bits only.
    pub open spec fn known(bits: u16) -> bool {
        bits & !Self::ALL == 0
    }

    #[verifier::type_invariant]
    spec fn known_bits_only(self) -> bool {
        Self::known(self.bits)
    }

    /// The flags with no bit set.
    pub fn empty() -> (flags: Self)
        ensures
            flags@ == 0,
    {
        assert(0u16 & !0xF631u16 == 0) by (bit_vector);
        ClassAccessFlags { bits: 0 }
    }

    /// The flags that a number holds, unless it has a bit that is not
    /// known.
    pub fn from_bits(bits: u16) -> (flags: Option<Self>)
        ensures
            Self::known(bits) ==> (flags matches Some(f) && f@ == bits),
            !Self::known(bits) ==> flags is None,
    {
        if bits & !Self::ALL == 0 {
            Some(ClassAccessFlags { bits })
        } else {
            None
        }
    }

    /// The flags as a number.
    pub fn bits(&self) -> (bits: u16)
        ensures
            bits == self@,
            Self::known(bits),
    {
        proof {
            use_type_invariant(self);
        }
        self.bits
    }

    /// Whether all the bits of `other` are set.
    pub fn contains(&self, other: u16) -> (yes: bool)
        ensures
            yes == (self@ & other == other),
    {
        self.bits & other == other
    }
}

/// The access flags of a field.
///
/// A value holds known bits only: one with other bits cannot be made.
#[derive(Debug, Clone, Copy, PartialEq, Eq, Hash, Structural)]
pub struct FieldFlags {
    bits: u16,
}

impl View for FieldFlags {
    type V = u16;

    closed spec fn view(&self) -> u16 {
        self.bits
    }
}

impl DeepView for FieldFlags {
    type V = u16;

    open spec fn deep_view(&self) -> u16 {
        self@
    }
}

impl FieldFlags {
    /// Declared public.
    pub const PUBLIC: u16 = 0x0001;

    /// Declared private.
    pub const PRIVATE: u16 = 0x0002;

    /// Declared protected.
    pub const PROTECTED: u16 = 0x0004;

    /// Declared static.
    pub const STATIC: u16 = 0x0008;

    /// Declared final: never directly assigned to after construction.
    pub const FINAL: u16 = 0x0010;

    /// Declared volatile: cannot be cached.
    pub const VOLATILE: u16 = 0x0040;

    /// Declared transient: not written or read by a persistent object manager.
    pub const TRANSIENT: u16 = 0x0080;

    /// Declared synthetic: not present in the source code.
    pub const SYNTHETIC: u16 = 0x1000;

    /// Declared as an element of an enum.
    pub const ENUM: u16 = 0x4000;

    /// All the bits that a field may have.
    pub const ALL: u16 = 0x50DF;

    /// Whether a number has known bits only.
    pub open spec fn known(bits: u16) -> bool {
        bits & !Self::ALL == 0
    }

    #[verifier::type_invariant]
    spec fn known_bits_only(self) -> bool {
        Self::known(self.bits)
    }

    /// The flags with no bit set.
    pub fn empty() -> (flags: Self)
        ensures
            flags@ == 0,
    {
        assert(0u16 & !0x50DFu16 == 0) by (bit_vector);
        FieldFlags { bits: 0 }
    }

    /// The flags that a number holds, unless it has a bit that is not
    /// known.
    pub fn from_bits(bits: u16) -> (flags: Option<Self>)
        ensures
            Self::known(bits) ==> (flags matches Some(f) && f@ == bits),
            !Self::known(bits) ==> flags is None,
    {
        if bits & !Self::ALL == 0 {
            Some(FieldFlags { bits })
        } else {
            None
        }
    }

    /// The flags as a number.
    pub fn bits(&self) -> (bits: u16)
        ensures
            bits == self@,
            Self::known(bits),
    {
        proof {
            use_type_invariant(self);
        }
        self.bits
    }

    /// Whether all the bits of `other` are set.
    pub fn contains(&self, other: u16) -> (yes: bool)
        ensures
            yes == (self@ & other == other),
    {
        self.bits & other == other
    }
}

/// The access flags of a method.
///
/// A value holds known bits only: one with other bits cannot be made.
#[derive(Debug, Clone, Copy, PartialEq, Eq, Hash, Structural)]
pub struct MethodFlags {
    bits: u16,
}

impl View for MethodFlags {
    type V = u16;

    closed spec fn view(&self) -> u16 {
        self.bits
    }
}

impl DeepView for MethodFlags {
    type V = u16;

    open spec fn deep_view(&self) -> u16 {
        self@
    }
}

impl MethodFlags {
    /// Declared public.
    pub const PUBLIC: u16 = 0x0001;

    /// Declared private.
    pub const PRIVATE: u16 = 0x0002;

    /// Declared protected.
    pub const PROTECTED: u16 = 0x0004;

    /// Declared static.
    pub const STATIC: u16 = 0x0008;

    /// Declared final: must not be overridden.
    pub const FINAL: u16 = 0x0010;

    /// Declared synchronized: invocation is wrapped by a monitor use.
    pub const SYNCHRONIZED: u16 = 0x0020;

    /// A bridge method, generated by the compiler.
    pub const BRIDGE: u16 = 0x0040;

    /// Declared with a variable number of arguments.
    pub const VARARGS: u16 = 0x0080;

    /// Declared native: implemented in another language.
    pub const NATIVE: u16 = 0x0100;

    /// Declared abstract: no implementation is provided.
    pub const ABSTRACT: u16 = 0x0400;

    /// Declared strictfp: floating-point mode is strict.
    pub const STRICT: u16 = 0x0800;

    /// Declared synthetic: not present in the source code.
    pub const SYNTHETIC: u16 = 0x1000;

    /// All the bits that a method may have.
    pub const ALL: u16 = 0x1DFF;

    /// Whether a number has known bits only.
    pub open spec fn known(bits: u16) -> bool {
        bits & !Self::ALL == 0
    }

    #[verifier::type_invariant]
    spec fn known_bits_only(self) -> bool {
        Self::known(self.bits)
    }

    /// The flags with no bit set.
    pub fn empty() -> (flags: Self)
        ensures
            flags@ == 0,
    {
        assert(0u16 & !0x1DFFu16 == 0) by (bit_vector);
        MethodFlags { bits: 0 }
    }

    /// The flags that a number holds, unless it has a bit that is not
    /// known.
    pub fn from_bits(bits: u16) -> (flags: Option<Self>)
        ensures
            Self::known(bits) ==> (flags matches Some(f) && f@ == bits),
            !Self::known(bits) ==> flags is None,
    {
        if bits & !Self::ALL == 0 {
            Some(MethodFlags { bits })
        } else {
            None
        }
    }

    /// The flags as a number.
    pub fn bits(&self) -> (bits: u16)
        ensures
            bits == self@,
            Self::known(bits),
    {
        proof {
            use_type_invariant(self);
        }
        self.bits
    }

    /// Whether all the bits of `other` are set.
    pub fn contains(&self, other: u16) -> (yes: bool)
        ensures
            yes == (self@ & other == other),
    {
        self.bits & other == other
    }
}

} // verus!
