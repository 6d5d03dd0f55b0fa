//! The description of a memory operand.

use vstd::prelude::*;

use crate::register::Register;

verus! {

/// Where a memory operand lies: `segment:[base + index * scale + displacement]`.
///
/// A part that is absent is [`Register::NoRegister`], or zero for the
/// displacement. The scale is 1, 2, 4 or 8, and the segment is a segment
/// register or absent.
#[derive(Clone, Copy, Debug, PartialEq, Eq, Structural, Hash)]
pub struct MemoryOperand {
    base: Register,
    index: Register,
    scale: u32,
    displacement: u64,
    segment: Register,
}

/// Whether `scale` is a factor by which an index register can be multiplied.
pub open spec fn spec_is_scale(scale: u32) -> bool {
    scale == 1 || scale == 2 || scale == 4 || scale == 8
}

/// Whether `register` can stand as the segment of a memory operand: it is a
/// segment register, or absent.
pub open spec fn spec_is_segment(register: Register) -> bool {
    register == Register::NoRegister || register == Register::ES || register == Register::CS
        || register == Register::SS || register == Register::DS || register == Register::FS
        || register == Register::GS
}

/// Whether `scale` is a factor by which an index register can be multiplied.
#[verifier::when_used_as_spec(spec_is_scale)]
pub fn is_scale(scale: u32) -> (valid: bool)
    ensures
        valid == spec_is_scale(scale),
{
    scale == 1 || scale == 2 || scale == 4 || scale == 8
}

/// Whether `register` can stand as the segment of a memory operand.
#[verifier::when_used_as_spec(spec_is_segment)]
pub fn is_segment(register: Register) -> (valid: bool)
    ensures
        valid == spec_is_segment(register),
{
    match register {
        Register::NoRegister
        | Register::ES
        | Register::CS
        | Register::SS
        | Register::DS
        | Register::FS
        | Register::GS => true,
        _ => false,
    }
}

impl MemoryOperand {
    /// The base register.
    pub closed spec fn spec_base(&self) -> Register {
        self.base
    }

    /// The index register.
    pub closed spec fn spec_index(&self) -> Register {
        self.index
    }

    /// The factor by which the index register is multiplied.
    pub closed spec fn spec_scale(&self) -> u32 {
        self.scale
    }

    /// The displacement.
    pub closed spec fn spec_displacement(&self) -> u64 {
        self.displacement
    }

    /// The segment register.
    pub closed spec fn spec_segment(&self) -> Register {
        self.segment
    }

    /// The operand with the given parts.
    pub closed spec fn spec_with_parts(
        base: Register,
        index: Register,
        scale: u32,
        displacement: u64,
        segment: Register,
    ) -> MemoryOperand {
        MemoryOperand { base, index, scale, displacement, segment }
    }

    /// The operand of which every part is absent, with scale 1.
    pub open spec fn spec_absent() -> MemoryOperand {
        MemoryOperand::spec_with_parts(
            Register::NoRegister,
            Register::NoRegister,
            1,
            0,
            Register::NoRegister,
        )
    }

    /// The scale is 1, 2, 4 or 8, and the segment is a segment register or
    /// absent.
    #[verifier::type_invariant]
    pub open spec fn wf(&self) -> bool {
        &&& spec_is_scale(self.spec_scale())
        &&& spec_is_segment(self.spec_segment())
    }

    /// The operand with the given parts; `None` unless `scale` is 1, 2, 4 or 8
    /// and `segment` is a segment register or absent.
    pub fn new(
        base: Register,
        index: Register,
        scale: u32,
        displacement: u64,
        segment: Register,
    ) -> (memory: Option<MemoryOperand>)
        ensures
            memory == if spec_is_scale(scale) && spec_is_segment(segment) {
                Some(MemoryOperand::spec_with_parts(base, index, scale, displacement, segment))
            } else {
                None
            },
    {
        if is_scale(scale) && is_segment(segment) {
            Some(MemoryOperand { base, index, scale, displacement, segment })
        } else {
            None
        }
    }

    /// The operand of which every part is absent, with scale 1.
    #[verifier::when_used_as_spec(spec_absent)]
    pub fn absent() -> (memory: MemoryOperand)
        ensures
            memory == MemoryOperand::spec_absent(),
    {
        MemoryOperand {
            base: Register::NoRegister,
            index: Register::NoRegister,
            scale: 1,
            displacement: 0,
            segment: Register::NoRegister,
        }
    }

    /// The base register.
    #[verifier::when_used_as_spec(spec_base)]
    pub fn base(&self) -> (base: Register)
        ensures
            base == self.spec_base(),
    {
        self.base
    }

    /// The index register.
    #[verifier::when_used_as_spec(spec_index)]
    pub fn index(&self) -> (index: Register)
        ensures
            index == self.spec_index(),
    {
        self.index
    }

    /// The factor by which the index register is multiplied: 1, 2, 4 or 8.
    #[verifier::when_used_as_spec(spec_scale)]
    pub fn scale(&self) -> (scale: u32)
        ensures
            scale == self.spec_scale(),
            spec_is_scale(scale),
    {
        proof {
            use_type_invariant(self);
        }
        self.scale
    }

    /// The displacement.
    #[verifier::when_used_as_spec(spec_displacement)]
    pub fn displacement(&self) -> (displacement: u64)
        ensures
            displacement == self.spec_displacement(),
    {
        self.displacement
    }

    /// The segment register, or [`Register::NoRegister`].
    #[verifier::when_used_as_spec(spec_segment)]
    pub fn segment(&self) -> (segment: Register)
        ensures
            segment == self.spec_segment(),
            spec_is_segment(segment),
    {
        proof {
            use_type_invariant(self);
        }
        self.segment
    }

    /// An operand made from parts has those parts.
    pub proof fn lemma_with_parts(
        base: Register,
        index: Register,
        scale: u32,
        displacement: u64,
        segment: Register,
    )
        ensures
            MemoryOperand::spec_with_parts(base, index, scale, displacement, segment).spec_base()
                == base,
            MemoryOperand::spec_with_parts(base, index, scale, displacement, segment).spec_index()
                == index,
            MemoryOperand::spec_with_parts(base, index, scale, displacement, segment).spec_scale()
                == scale,
            MemoryOperand::spec_with_parts(
                base,
                index,
                scale,
                displacement,
                segment,
            ).spec_displacement() == displacement,
            MemoryOperand::spec_with_parts(
                base,
                index,
                scale,
                displacement,
                segment,
            ).spec_segment() == segment,
    {
    }

    /// An operand is the one made from its parts.
    pub proof fn lemma_parts(self)
        ensures
            self == MemoryOperand::spec_with_parts(
                self.spec_base(),
                self.spec_index(),
                self.spec_scale(),
                self.spec_displacement(),
                self.spec_segment(),
            ),
    {
    }
}

} // verus!
