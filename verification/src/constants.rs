//! Sizes of the enumerations and of the packed fields of an instruction record.

use vstd::prelude::*;

use crate::register::Register;

verus! {

/// The largest number of operands that one instruction can have.
pub const MAX_OP_COUNT: u32 = 5;

/// The width, in bits, of a packed register ordinal.
pub const REGISTER_BITS: u32 = 8;

/// The number of instruction identities.
pub const NUMBER_OF_CODE_VALUES: u32 = 4203;

/// The number of registers.
pub const NUMBER_OF_REGISTERS: u32 = 241;

/// The number of encoding kinds.
pub const NUMBER_OF_ENCODING_KINDS: u32 = 5;

/// The number of operand kinds.
pub const NUMBER_OF_OP_KINDS: u32 = 26;

/// The first register of the widest vector family.
pub const VMM_FIRST: Register = Register::ZMM0;

/// The last register of the widest vector family.
pub const VMM_LAST: Register = Register::ZMM31;

/// The number of registers in each vector family.
pub const VMM_COUNT: u32 = 32;

/// The last 128-bit vector register.
pub const XMM_LAST: Register = Register::XMM31;

/// The last 256-bit vector register.
pub const YMM_LAST: Register = Register::YMM31;

/// The last 512-bit vector register.
pub const ZMM_LAST: Register = Register::ZMM31;

/// Each vector family has [`VMM_COUNT`] registers at consecutive ordinals, and
/// the three families follow one another.
pub proof fn lemma_vector_families()
    ensures
        XMM_LAST.spec_ordinal() - Register::XMM0.spec_ordinal() + 1 == VMM_COUNT,
        YMM_LAST.spec_ordinal() - Register::YMM0.spec_ordinal() + 1 == VMM_COUNT,
        ZMM_LAST.spec_ordinal() - Register::ZMM0.spec_ordinal() + 1 == VMM_COUNT,
        VMM_LAST.spec_ordinal() - VMM_FIRST.spec_ordinal() + 1 == VMM_COUNT,
        Register::YMM0.spec_ordinal() == XMM_LAST.spec_ordinal() + 1,
        Register::ZMM0.spec_ordinal() == YMM_LAST.spec_ordinal() + 1,
{
}

} // verus!
