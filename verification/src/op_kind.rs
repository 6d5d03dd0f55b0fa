//! The kinds of operand that an instruction can have.

use vstd::prelude::*;

use crate::constants::NUMBER_OF_OP_KINDS;

verus! {

/// The kind of one operand of an instruction.
///
/// The register kind comes first, so that its ordinal is zero: the kind bits of
/// a cleared instruction record read as `Register` without ever being written.
#[derive(Clone, Copy, Debug, PartialEq, Eq, Structural, Hash)]
pub enum OpKind {
    /// A register.
    Register,
    /// A near branch to a 16-bit target.
    NearBranch16,
    /// A near branch to a 32-bit target.
    NearBranch32,
    /// A near branch to a 64-bit target.
    NearBranch64,
    /// A far branch to a selector and a 16-bit offset.
    FarBranch16,
    /// A far branch to a selector and a 32-bit offset.
    FarBranch32,
    /// An 8-bit immediate.
    Immediate8,
    /// A second 8-bit immediate.
    Immediate8Second,
    /// A 16-bit immediate.
    Immediate16,
    /// A 32-bit immediate.
    Immediate32,
    /// A 64-bit immediate.
    Immediate64,
    /// An 8-bit immediate sign-extended to 16 bits.
    Immediate8To16,
    /// An 8-bit immediate sign-extended to 32 bits.
    Immediate8To32,
    /// An 8-bit immediate sign-extended to 64 bits.
    Immediate8To64,
    /// A 32-bit immediate sign-extended to 64 bits.
    Immediate32To64,
    /// Memory at `seg:[SI]`.
    MemorySegSI,
    /// Memory at `seg:[ESI]`.
    MemorySegESI,
    /// Memory at `seg:[RSI]`.
    MemorySegRSI,
    /// Memory at `seg:[DI]`.
    MemorySegDI,
    /// Memory at `seg:[EDI]`.
    MemorySegEDI,
    /// Memory at `seg:[RDI]`.
    MemorySegRDI,
    /// Memory at `ES:[DI]`.
    MemoryESDI,
    /// Memory at `ES:[EDI]`.
    MemoryESEDI,
    /// Memory at `ES:[RDI]`.
    MemoryESRDI,
    /// Memory at a 64-bit absolute offset.
    Memory64,
    /// Memory addressed by base, index, scale and displacement.
    Memory,
}

impl OpKind {
    /// The position of this kind in the enumeration.
    pub open spec fn spec_ordinal(self) -> u32 {
        match self {
            OpKind::Register => 0,
            OpKind::NearBranch16 => 1,
            OpKind::NearBranch32 => 2,
            OpKind::NearBranch64 => 3,
            OpKind::FarBranch16 => 4,
            OpKind::FarBranch32 => 5,
            OpKind::Immediate8 => 6,
            OpKind::Immediate8Second => 7,
            OpKind::Immediate16 => 8,
            OpKind::Immediate32 => 9,
            OpKind::Immediate64 => 10,
            OpKind::Immediate8To16 => 11,
            OpKind::Immediate8To32 => 12,
            OpKind::Immediate8To64 => 13,
            OpKind::Immediate32To64 => 14,
            OpKind::MemorySegSI => 15,
            OpKind::MemorySegESI => 16,
            OpKind::MemorySegRSI => 17,
            OpKind::MemorySegDI => 18,
            OpKind::MemorySegEDI => 19,
            OpKind::MemorySegRDI => 20,
            OpKind::MemoryESDI => 21,
            OpKind::MemoryESEDI => 22,
            OpKind::MemoryESRDI => 23,
            OpKind::Memory64 => 24,
            OpKind::Memory => 25,
        }
    }

    /// The kind at position `n` of the enumeration, if there is one.
    pub open spec fn spec_from_ordinal(n: u32) -> Option<OpKind> {
        match n {
            0 => Some(OpKind::Register),
            1 => Some(OpKind::NearBranch16),
            2 => Some(OpKind::NearBranch32),
            3 => Some(OpKind::NearBranch64),
            4 => Some(OpKind::FarBranch16),
            5 => Some(OpKind::FarBranch32),
            6 => Some(OpKind::Immediate8),
            7 => Some(OpKind::Immediate8Second),
            8 => Some(OpKind::Immediate16),
            9 => Some(OpKind::Immediate32),
            10 => Some(OpKind::Immediate64),
            11 => Some(OpKind::Immediate8To16),
            12 => Some(OpKind::Immediate8To32),
            13 => Some(OpKind::Immediate8To64),
            14 => Some(OpKind::Immediate32To64),
            15 => Some(OpKind::MemorySegSI),
            16 => Some(OpKind::MemorySegESI),
            17 => Some(OpKind::MemorySegRSI),
            18 => Some(OpKind::MemorySegDI),
            19 => Some(OpKind::MemorySegEDI),
            20 => Some(OpKind::MemorySegRDI),
            21 => Some(OpKind::MemoryESDI),
            22 => Some(OpKind::MemoryESEDI),
            23 => Some(OpKind::MemoryESRDI),
            24 => Some(OpKind::Memory64),
            25 => Some(OpKind::Memory),
            _ => None,
        }
    }

    /// The position of this kind in the enumeration.
    #[verifier::when_used_as_spec(spec_ordinal)]
    pub fn ordinal(self) -> (n: u32)
        ensures
            n == self.spec_ordinal(),
            n < NUMBER_OF_OP_KINDS,
    {
        match self {
            OpKind::Register => 0,
            OpKind::NearBranch16 => 1,
            OpKind::NearBranch32 => 2,
            OpKind::NearBranch64 => 3,
            OpKind::FarBranch16 => 4,
            OpKind::FarBranch32 => 5,
            OpKind::Immediate8 => 6,
            OpKind::Immediate8Second => 7,
            OpKind::Immediate16 => 8,
            OpKind::Immediate32 => 9,
            OpKind::Immediate64 => 10,
            OpKind::Immediate8To16 => 11,
            OpKind::Immediate8To32 => 12,
            OpKind::Immediate8To64 => 13,
            OpKind::Immediate32To64 => 14,
            OpKind::MemorySegSI => 15,
            OpKind::MemorySegESI => 16,
            OpKind::MemorySegRSI => 17,
            OpKind::MemorySegDI => 18,
            OpKind::MemorySegEDI => 19,
            OpKind::MemorySegRDI => 20,
            OpKind::MemoryESDI => 21,
            OpKind::MemoryESEDI => 22,
            OpKind::MemoryESRDI => 23,
            OpKind::Memory64 => 24,
            OpKind::Memory => 25,
        }
    }

    /// The kind at position `n` of the enumeration; `None` when `n` is not the
    /// ordinal of any kind.
    #[verifier::when_used_as_spec(spec_from_ordinal)]
    pub fn from_ordinal(n: u32) -> (kind: Option<OpKind>)
        ensures
            kind == OpKind::spec_from_ordinal(n),
            kind is Some <==> n < NUMBER_OF_OP_KINDS,
            kind matches Some(k) ==> k.spec_ordinal() == n,
    {
        match n {
            0 => Some(OpKind::Register),
            1 => Some(OpKind::NearBranch16),
            2 => Some(OpKind::NearBranch32),
            3 => Some(OpKind::NearBranch64),
            4 => Some(OpKind::FarBranch16),
            5 => Some(OpKind::FarBranch32),
            6 => Some(OpKind::Immediate8),
            7 => Some(OpKind::Immediate8Second),
            8 => Some(OpKind::Immediate16),
            9 => Some(OpKind::Immediate32),
            10 => Some(OpKind::Immediate64),
            11 => Some(OpKind::Immediate8To16),
            12 => Some(OpKind::Immediate8To32),
            13 => Some(OpKind::Immediate8To64),
            14 => Some(OpKind::Immediate32To64),
            15 => Some(OpKind::MemorySegSI),
            16 => Some(OpKind::MemorySegESI),
            17 => Some(OpKind::MemorySegRSI),
            18 => Some(OpKind::MemorySegDI),
            19 => Some(OpKind::MemorySegEDI),
            20 => Some(OpKind::MemorySegRDI),
            21 => Some(OpKind::MemoryESDI),
            22 => Some(OpKind::MemoryESEDI),
            23 => Some(OpKind::MemoryESRDI),
            24 => Some(OpKind::Memory64),
            25 => Some(OpKind::Memory),
            _ => None,
        }
    }

    /// Every kind has an ordinal below the number of kinds, and is found again
    /// from its ordinal.
    pub proof fn lemma_ordinal_round_trip(self)
        ensures
            self.spec_ordinal() < NUMBER_OF_OP_KINDS,
            OpKind::spec_from_ordinal(self.spec_ordinal()) == Some(self),
    {
    }

    /// Exactly the numbers below the number of kinds are ordinals, and the kind
    /// found at an ordinal has that ordinal.
    pub proof fn lemma_from_ordinal(n: u32)
        ensures
            OpKind::spec_from_ordinal(n) is Some <==> n < NUMBER_OF_OP_KINDS,
            OpKind::spec_from_ordinal(n) matches Some(k) ==> k.spec_ordinal() == n,
    {
    }

    /// The register kind, and no other kind, has ordinal zero.
    pub proof fn lemma_register_is_zero(self)
        ensures
            OpKind::Register.spec_ordinal() == 0,
            self.spec_ordinal() == 0 <==> self == OpKind::Register,
    {
    }
}

} // verus!
