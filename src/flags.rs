//! Bit-flag sets of the native compiler, with union and intersection.
use vstd::prelude::*;

verus! {

pub const SLANG_COMPILE_FLAG_NO_MANGLING: u32 = 8;
pub const SLANG_COMPILE_FLAG_NO_CODEGEN: u32 = 16;
pub const SLANG_COMPILE_FLAG_NO_CHECKING: u32 = 0;
pub const SLANG_COMPILE_FLAG_SPLIT_MIXED_TYPES: u32 = 0;
pub const SLANG_TARGET_FLAG_PARAMETER_BLOCKS_USE_REGISTER_SPACES: u32 = 16;

/// Flags that control a whole compile request.
#[derive(Debug, Clone, Copy, PartialEq, Eq, Structural)]
pub struct CompileFlags {
    bits: u32,
}

impl CompileFlags {
    /// The raw bits of this set.
    pub closed spec fn spec_bits(self) -> u32 {
        self.bits
    }

    /// The raw bits of this set.
    pub fn bits(&self) -> (r: u32)
        ensures
            r == self.spec_bits(),
    {
        self.bits
    }

    /// The set with no flag.
    pub fn empty() -> (r: Self)
        ensures
            r.spec_bits() == 0,
    {
        CompileFlags { bits: 0 }
    }

    /// The set of every named flag.
    pub fn all() -> (r: Self)
        ensures
            r.spec_bits() == 24,
    {
        CompileFlags { bits: 24 }
    }

    /// The set with exactly `bits`, if every bit of it is a named flag.
    pub fn from_bits(bits: u32) -> (r: Option<Self>)
        ensures
            r is Some <==> bits & !24u32 == 0,
            r matches Some(f) ==> f.spec_bits() == bits,
    {
        if bits & !24u32 == 0 {
            Some(CompileFlags { bits })
        } else {
            None
        }
    }

    /// The set of the named flags among `bits`; other bits are dropped.
    pub fn from_bits_truncate(bits: u32) -> (r: Self)
        ensures
            r.spec_bits() == bits & 24,
    {
        CompileFlags { bits: bits & 24 }
    }

    /// Whether no flag is set.
    pub fn is_empty(&self) -> (r: bool)
        ensures
            r == (self.spec_bits() == 0),
    {
        self.bits == 0
    }

    /// Whether every flag of `other` is set in `self`.
    pub fn contains(&self, other: Self) -> (r: bool)
        ensures
            r == (self.spec_bits() & other.spec_bits() == other.spec_bits()),
    {
        self.bits & other.bits == other.bits
    }

    /// The flags set in either.
    pub fn union(self, other: Self) -> (r: Self)
        ensures
            r.spec_bits() == self.spec_bits() | other.spec_bits(),
    {
        CompileFlags { bits: self.bits | other.bits }
    }

    /// The flags set in both.
    pub fn intersection(self, other: Self) -> (r: Self)
        ensures
            r.spec_bits() == self.spec_bits() & other.spec_bits(),
    {
        CompileFlags { bits: self.bits & other.bits }
    }

    /// Sets the flags of `other`.
    pub fn insert(&mut self, other: Self)
        ensures
            final(self).spec_bits() == old(self).spec_bits() | other.spec_bits(),
    {
        self.bits = self.bits | other.bits;
    }

    /// Clears the flags of `other`.
    pub fn remove(&mut self, other: Self)
        ensures
            final(self).spec_bits() == old(self).spec_bits() & !other.spec_bits(),
    {
        self.bits = self.bits & !other.bits;
    }

    /// Keep names as close to the source as possible.
    pub fn no_mangling() -> (r: Self)
        ensures
            r.spec_bits() == SLANG_COMPILE_FLAG_NO_MANGLING,
    {
        CompileFlags { bits: SLANG_COMPILE_FLAG_NO_MANGLING }
    }

    /// Check the code and compute layout, but generate no code.
    pub fn no_codegen() -> (r: Self)
        ensures
            r.spec_bits() == SLANG_COMPILE_FLAG_NO_CODEGEN,
    {
        CompileFlags { bits: SLANG_COMPILE_FLAG_NO_CODEGEN }
    }

    /// Retired by the native compiler: no bit.
    pub fn no_checking() -> (r: Self)
        ensures
            r.spec_bits() == SLANG_COMPILE_FLAG_NO_CHECKING,
    {
        CompileFlags { bits: SLANG_COMPILE_FLAG_NO_CHECKING }
    }

    /// Retired by the native compiler: no bit.
    pub fn split_mixed_types() -> (r: Self)
        ensures
            r.spec_bits() == SLANG_COMPILE_FLAG_SPLIT_MIXED_TYPES,
    {
        CompileFlags { bits: SLANG_COMPILE_FLAG_SPLIT_MIXED_TYPES }
    }
}

/// Flags that control one code-generation target.
#[derive(Debug, Clone, Copy, PartialEq, Eq, Structural)]
pub struct TargetFlags {
    bits: u32,
}

impl TargetFlags {
    /// The raw bits of this set.
    pub closed spec fn spec_bits(self) -> u32 {
        self.bits
    }

    /// The raw bits of this set.
    pub fn bits(&self) -> (r: u32)
        ensures
            r == self.spec_bits(),
    {
        self.bits
    }

    /// The set with no flag.
    pub fn empty() -> (r: Self)
        ensures
            r.spec_bits() == 0,
    {
        TargetFlags { bits: 0 }
    }

    /// The set of every named flag.
    pub fn all() -> (r: Self)
        ensures
            r.spec_bits() == 16,
    {
        TargetFlags { bits: 16 }
    }

    /// The set with exactly `bits`, if every bit of it is a named flag.
    pub fn from_bits(bits: u32) -> (r: Option<Self>)
        ensures
            r is Some <==> bits & !16u32 == 0,
            r matches Some(f) ==> f.spec_bits() == bits,
    {
        if bits & !16u32 == 0 {
            Some(TargetFlags { bits })
        } else {
            None
        }
    }

    /// The set of the named flags among `bits`; other bits are dropped.
    pub fn from_bits_truncate(bits: u32) -> (r: Self)
        ensures
            r.spec_bits() == bits & 16,
    {
        TargetFlags { bits: bits & 16 }
    }

    /// Whether no flag is set.
    pub fn is_empty(&self) -> (r: bool)
        ensures
            r == (self.spec_bits() == 0),
    {
        self.bits == 0
    }

    /// Whether every flag of `other` is set in `self`.
    pub fn contains(&self, other: Self) -> (r: bool)
        ensures
            r == (self.spec_bits() & other.spec_bits() == other.spec_bits()),
    {
        self.bits & other.bits == other.bits
    }

    /// The flags set in either.
    pub fn union(self, other: Self) -> (r: Self)
        ensures
            r.spec_bits() == self.spec_bits() | other.spec_bits(),
    {
        TargetFlags { bits: self.bits | other.bits }
    }

    /// The flags set in both.
    pub fn intersection(self, other: Self) -> (r: Self)
        ensures
            r.spec_bits() == self.spec_bits() & other.spec_bits(),
    {
        TargetFlags { bits: self.bits & other.bits }
    }

    /// Sets the flags of `other`.
    pub fn insert(&mut self, other: Self)
        ensures
            final(self).spec_bits() == old(self).spec_bits() | other.spec_bits(),
    {
        self.bits = self.bits | other.bits;
    }

    /// Clears the flags of `other`.
    pub fn remove(&mut self, other: Self)
        ensures
            final(self).spec_bits() == old(self).spec_bits() & !other.spec_bits(),
    {
        self.bits = self.bits & !other.bits;
    }

    /// Give each parameter block a register space of its own.
    pub fn parameter_blocks_use_register_spaces() -> (r: Self)
        ensures
            r.spec_bits() == SLANG_TARGET_FLAG_PARAMETER_BLOCKS_USE_REGISTER_SPACES,
    {
        TargetFlags { bits: SLANG_TARGET_FLAG_PARAMETER_BLOCKS_USE_REGISTER_SPACES }
    }
}

} // verus!
