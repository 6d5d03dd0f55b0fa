//! The context in which one instruction is decoded.
//!
//! The decoder state is filled in before any handler runs: the encoding kind
//! and the operand size come from the prefixes and the processor mode, and the
//! three addressing fields come from the addressing byte. Handlers read the
//! state and never change it.

use vstd::prelude::*;

verus! {

/// The encoding family of an instruction.
#[derive(Clone, Copy, Debug, PartialEq, Eq, Structural, Hash)]
pub enum EncodingKind {
    /// The legacy encoding.
    Legacy,
    /// The VEX encoding.
    Vex,
    /// The EVEX encoding.
    Evex,
    /// The XOP encoding.
    Xop,
    /// The 3DNow! encoding.
    D3now,
}

impl EncodingKind {
    /// The position of this kind in the enumeration.
    pub open spec fn spec_ordinal(self) -> u32 {
        match self {
            EncodingKind::Legacy => 0,
            EncodingKind::Vex => 1,
            EncodingKind::Evex => 2,
            EncodingKind::Xop => 3,
            EncodingKind::D3now => 4,
        }
    }

    /// The kind at position `n` of the enumeration, if there is one.
    pub open spec fn spec_from_ordinal(n: u32) -> Option<EncodingKind> {
        match n {
            0 => Some(EncodingKind::Legacy),
            1 => Some(EncodingKind::Vex),
            2 => Some(EncodingKind::Evex),
            3 => Some(EncodingKind::Xop),
            4 => Some(EncodingKind::D3now),
            _ => None,
        }
    }

    /// The position of this kind in the enumeration.
    #[verifier::when_used_as_spec(spec_ordinal)]
    pub fn ordinal(self) -> (n: u32)
        ensures
            n == self.spec_ordinal(),
    {
        match self {
            EncodingKind::Legacy => 0,
            EncodingKind::Vex => 1,
            EncodingKind::Evex => 2,
            EncodingKind::Xop => 3,
            EncodingKind::D3now => 4,
        }
    }

    /// The kind at position `n` of the enumeration; `None` when `n` is not the
    /// ordinal of any kind.
    #[verifier::when_used_as_spec(spec_from_ordinal)]
    pub fn from_ordinal(n: u32) -> (kind: Option<EncodingKind>)
        ensures
            kind == EncodingKind::spec_from_ordinal(n),
    {
        match n {
            0 => Some(EncodingKind::Legacy),
            1 => Some(EncodingKind::Vex),
            2 => Some(EncodingKind::Evex),
            3 => Some(EncodingKind::Xop),
            4 => Some(EncodingKind::D3now),
            _ => None,
        }
    }
}

/// The effective operand size of an instruction.
#[derive(Clone, Copy, Debug, PartialEq, Eq, Structural, Hash)]
pub enum OpSize {
    /// 16-bit operands.
    Size16,
    /// 32-bit operands.
    Size32,
    /// 64-bit operands.
    Size64,
}

/// What a handler knows of the instruction that it decodes.
#[derive(Clone, Copy, Debug, PartialEq, Eq, Structural, Hash)]
pub struct DecoderState {
    encoding: EncodingKind,
    operand_size: OpSize,
    mod_: u32,
    reg: u32,
    rm: u32,
}

impl DecoderState {
    /// The encoding kind of the instruction.
    pub closed spec fn spec_encoding(&self) -> EncodingKind {
        self.encoding
    }

    /// The effective operand size of the instruction.
    pub closed spec fn spec_operand_size(&self) -> OpSize {
        self.operand_size
    }

    /// The `mod` field of the addressing byte.
    pub closed spec fn spec_mod(&self) -> u32 {
        self.mod_
    }

    /// The `reg` field of the addressing byte.
    pub closed spec fn spec_reg(&self) -> u32 {
        self.reg
    }

    /// The `rm` field of the addressing byte.
    pub closed spec fn spec_rm(&self) -> u32 {
        self.rm
    }

    /// The addressing fields are as wide as in the addressing byte: two bits of
    /// `mod`, three of `reg` and three of `rm`.
    #[verifier::type_invariant]
    pub open spec fn wf(&self) -> bool {
        &&& self.spec_mod() < 4
        &&& self.spec_reg() < 8
        &&& self.spec_rm() < 8
    }

    /// Whether the addressing byte names a register rather than memory.
    pub open spec fn spec_is_register_direct(&self) -> bool {
        self.spec_mod() == 3
    }

    /// The state of an instruction whose addressing byte is `modrm`: `mod` is
    /// its two high bits, `reg` the three bits below them, and `rm` its three
    /// low bits.
    pub fn from_modrm(
        encoding: EncodingKind,
        operand_size: OpSize,
        modrm: u8,
    ) -> (state: DecoderState)
        ensures
            state.spec_encoding() == encoding,
            state.spec_operand_size() == operand_size,
            state.spec_mod() == modrm / 64,
            state.spec_reg() == (modrm / 8) % 8,
            state.spec_rm() == modrm % 8,
    {
        let mod_: u8 = modrm >> 6;
        let reg: u8 = (modrm >> 3) & 7;
        let rm: u8 = modrm & 7;
        assert(modrm >> 6 == modrm / 64 && (modrm >> 3) & 7 == (modrm / 8) % 8 && modrm & 7 == modrm
            % 8) by (bit_vector);
        DecoderState { encoding, operand_size, mod_: mod_ as u32, reg: reg as u32, rm: rm as u32 }
    }

    /// The state with the given fields; `None` unless `mod_` is below 4 and
    /// `reg` and `rm` are below 8.
    pub fn from_fields(
        encoding: EncodingKind,
        operand_size: OpSize,
        mod_: u32,
        reg: u32,
        rm: u32,
    ) -> (state: Option<DecoderState>)
        ensures
            state is Some <==> mod_ < 4 && reg < 8 && rm < 8,
            state matches Some(s) ==> {
                &&& s.spec_encoding() == encoding
                &&& s.spec_operand_size() == operand_size
                &&& s.spec_mod() == mod_
                &&& s.spec_reg() == reg
                &&& s.spec_rm() == rm
            },
    {
        if mod_ < 4 && reg < 8 && rm < 8 {
            Some(DecoderState { encoding, operand_size, mod_, reg, rm })
        } else {
            None
        }
    }

    /// The encoding kind of the instruction.
    #[verifier::when_used_as_spec(spec_encoding)]
    pub fn encoding(&self) -> (encoding: EncodingKind)
        ensures
            encoding == self.spec_encoding(),
    {
        self.encoding
    }

    /// The effective operand size of the instruction.
    #[verifier::when_used_as_spec(spec_operand_size)]
    pub fn operand_size(&self) -> (size: OpSize)
        ensures
            size == self.spec_operand_size(),
    {
        self.operand_size
    }

    /// The `mod` field of the addressing byte, below 4.
    #[verifier::when_used_as_spec(spec_mod)]
    pub fn mod_(&self) -> (mod_: u32)
        ensures
            mod_ == self.spec_mod(),
            mod_ < 4,
    {
        proof {
            use_type_invariant(self);
        }
        self.mod_
    }

    /// The `reg` field of the addressing byte, below 8.
    #[verifier::when_used_as_spec(spec_reg)]
    pub fn reg(&self) -> (reg: u32)
        ensures
            reg == self.spec_reg(),
            reg < 8,
    {
        proof {
            use_type_invariant(self);
        }
        self.reg
    }

    /// The `rm` field of the addressing byte, below 8.
    #[verifier::when_used_as_spec(spec_rm)]
    pub fn rm(&self) -> (rm: u32)
        ensures
            rm == self.spec_rm(),
            rm < 8,
    {
        proof {
            use_type_invariant(self);
        }
        self.rm
    }

    /// Whether the addressing byte names a register rather than memory.
    #[verifier::when_used_as_spec(spec_is_register_direct)]
    pub fn is_register_direct(&self) -> (direct: bool)
        ensures
            direct == self.spec_is_register_direct(),
    {
        self.mod_ == 3
    }
}

} // verus!
