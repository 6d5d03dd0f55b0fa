//! The instruction record that a handler fills in.
//!
//! The record is small and of fixed size, so that one record can be cleared
//! and used again for every instruction of a stream. Its fields are packed:
//!
//! - `code`, 16 bits: the instruction identity;
//! - `op_kind_flags`, 32 bits: the kind of operand `i` in bits `5i .. 5i + 5`;
//! - `op_registers`, 64 bits: the register of operand `i` in bits
//!   `8i .. 8i + 8`;
//! - `memory_flags`, 32 bits: the base, index and segment registers of the
//!   memory operand in bits `0 .. 8`, `8 .. 16` and `16 .. 24`, and the binary
//!   logarithm of its scale in bits `24 .. 26`;
//! - `displacement`, 64 bits: the displacement of the memory operand.
//!
//! A cleared record is all zeros. Because the register kind has ordinal zero
//! and the absent register has ordinal zero, a cleared record reads as the
//! invalid instruction whose operands are all of kind register and hold no
//! register.
//!
//! Contracts speak of a record through its view, [`InstructionView`].

use vstd::pervasive::unreached;
use vstd::prelude::*;

use crate::code::Code;
use crate::constants::{MAX_OP_COUNT, NUMBER_OF_OP_KINDS, NUMBER_OF_REGISTERS, REGISTER_BITS};
use crate::memory::{spec_is_segment, MemoryOperand};
use crate::op_kind::OpKind;
use crate::register::Register;

verus! {

/// The width, in bits, of a packed operand kind.
pub const OP_KIND_BITS: u32 = 5;

/// The mask of a packed operand kind.
pub const OP_KIND_MASK: u32 = 31;

/// The mask of a packed register ordinal.
pub const REGISTER_MASK: u64 = 0xff;

/// The first bit of the index register in the memory flags.
const MEMORY_INDEX_SHIFT: u32 = 8;

/// The first bit of the segment register in the memory flags.
const MEMORY_SEGMENT_SHIFT: u32 = 16;

/// The first bit of the scale in the memory flags.
const MEMORY_SCALE_SHIFT: u32 = 24;

/// The mask of a register ordinal in the memory flags.
const MEMORY_REGISTER_MASK: u32 = 0xff;

/// The mask of the scale in the memory flags.
const MEMORY_SCALE_MASK: u32 = 3;

/// What an instruction record holds.
pub struct InstructionView {
    /// The instruction identity.
    pub code: Code,
    /// The kind of each operand, by operand index.
    pub op_kinds: Seq<OpKind>,
    /// The register of each operand, by operand index.
    pub op_registers: Seq<Register>,
    /// The description of the memory operand.
    pub memory: MemoryOperand,
}

impl InstructionView {
    /// There is a kind and a register for each of the [`MAX_OP_COUNT`]
    /// operands, and the identity and the memory operand are well formed.
    pub open spec fn wf(self) -> bool {
        &&& self.code.wf()
        &&& self.op_kinds.len() == MAX_OP_COUNT
        &&& self.op_registers.len() == MAX_OP_COUNT
        &&& self.memory.wf()
    }

    /// What a cleared record holds: the invalid instruction, every operand of
    /// kind register with no register, and no memory operand.
    pub open spec fn reset() -> InstructionView {
        InstructionView {
            code: Code::spec_invalid(),
            op_kinds: Seq::new(MAX_OP_COUNT as nat, |i: int| OpKind::Register),
            op_registers: Seq::new(MAX_OP_COUNT as nat, |i: int| Register::NoRegister),
            memory: MemoryOperand::spec_absent(),
        }
    }

    /// This record with its identity replaced by `code`.
    pub open spec fn with_code(self, code: Code) -> InstructionView {
        InstructionView { code, ..self }
    }

    /// This record with the kind of operand `index` replaced by `kind`.
    pub open spec fn with_op_kind(self, index: int, kind: OpKind) -> InstructionView {
        InstructionView { op_kinds: self.op_kinds.update(index, kind), ..self }
    }

    /// This record with the register of operand `index` replaced by
    /// `register`.
    pub open spec fn with_op_register(self, index: int, register: Register) -> InstructionView {
        InstructionView { op_registers: self.op_registers.update(index, register), ..self }
    }

    /// This record with its memory operand replaced by `memory`.
    pub open spec fn with_memory(self, memory: MemoryOperand) -> InstructionView {
        InstructionView { memory, ..self }
    }

    /// The first `count` operands, each as its kind and its register.
    pub open spec fn operands(self, count: nat) -> Seq<(OpKind, Register)> {
        Seq::new(count, |i: int| (self.op_kinds[i], self.op_registers[i]))
    }
}

/// The binary logarithm of a scale.
spec fn spec_scale_bits(scale: u32) -> u32 {
    if scale == 1 {
        0
    } else if scale == 2 {
        1
    } else if scale == 4 {
        2
    } else {
        3
    }
}

/// The scale of which `bits` is the binary logarithm.
spec fn spec_scale_of_bits(bits: u32) -> u32 {
    if bits == 0 {
        1
    } else if bits == 1 {
        2
    } else if bits == 2 {
        4
    } else {
        8
    }
}

/// The packed kind that starts at bit `shift`.
spec fn kind_field(flags: u32, shift: u32) -> u32 {
    (flags >> shift) & OP_KIND_MASK
}

/// The packed register ordinal that starts at bit `shift`.
spec fn register_field(registers: u64, shift: u64) -> u64 {
    (registers >> shift) & REGISTER_MASK
}

/// The first bit of the packed kind of operand `index`.
spec fn kind_shift(index: int) -> u32 {
    (OP_KIND_BITS * index) as u32
}

/// The first bit of the packed register of operand `index`.
spec fn register_shift(index: int) -> u64 {
    (REGISTER_BITS * index) as u64
}

/// The packed base register of a memory operand.
spec fn base_field(flags: u32) -> u32 {
    flags & MEMORY_REGISTER_MASK
}

/// The packed index register of a memory operand.
spec fn index_field(flags: u32) -> u32 {
    (flags >> MEMORY_INDEX_SHIFT) & MEMORY_REGISTER_MASK
}

/// The packed segment register of a memory operand.
spec fn segment_field(flags: u32) -> u32 {
    (flags >> MEMORY_SEGMENT_SHIFT) & MEMORY_REGISTER_MASK
}

/// The packed scale of a memory operand.
spec fn scale_field(flags: u32) -> u32 {
    (flags >> MEMORY_SCALE_SHIFT) & MEMORY_SCALE_MASK
}

/// The kind with ordinal `bits`.
spec fn kind_of(bits: u32) -> OpKind {
    match OpKind::spec_from_ordinal(bits) {
        Some(kind) => kind,
        None => OpKind::Register,
    }
}

/// The register with ordinal `bits`.
spec fn register_of(bits: u32) -> Register {
    match Register::spec_from_ordinal(bits) {
        Some(register) => register,
        None => Register::NoRegister,
    }
}

/// Writing a kind at bit `written` changes the kind read there and no other.
proof fn lemma_kind_field_written(flags: u32, written: u32, read: u32, value: u32)
    by (bit_vector)
    requires
        written == 0 || written == 5 || written == 10 || written == 15 || written == 20,
        read == 0 || read == 5 || read == 10 || read == 15 || read == 20,
        value < 32,
    ensures
        kind_field((flags & !(OP_KIND_MASK << written)) | (value << written), read)
            == (if read == written {
            value
        } else {
            kind_field(flags, read)
        }),
{
}

/// Writing a register at bit `written` changes the register read there and no
/// other.
proof fn lemma_register_field_written(registers: u64, written: u64, read: u64, value: u64)
    by (bit_vector)
    requires
        written == 0 || written == 8 || written == 16 || written == 24 || written == 32,
        read == 0 || read == 8 || read == 16 || read == 24 || read == 32,
        value < 256,
    ensures
        register_field((registers & !(REGISTER_MASK << written)) | (value << written), read)
            == (if read == written {
            value
        } else {
            register_field(registers, read)
        }),
{
}

/// The memory flags that hold the given parts.
spec fn memory_flags_of(base: u32, index: u32, segment: u32, scale: u32) -> u32 {
    base | (index << MEMORY_INDEX_SHIFT) | (segment << MEMORY_SEGMENT_SHIFT) | (scale
        << MEMORY_SCALE_SHIFT)
}

/// The four parts of packed memory flags read back as they were packed.
proof fn lemma_memory_fields_packed(base: u32, index: u32, segment: u32, scale: u32)
    by (bit_vector)
    requires
        base < 256,
        index < 256,
        segment < 256,
        scale < 4,
    ensures
        base_field(memory_flags_of(base, index, segment, scale)) == base,
        index_field(memory_flags_of(base, index, segment, scale)) == index,
        segment_field(memory_flags_of(base, index, segment, scale)) == segment,
        scale_field(memory_flags_of(base, index, segment, scale)) == scale,
{
}

/// Every field of a zero word is zero.
proof fn lemma_zero_fields(kind_at: u32, register_at: u64)
    by (bit_vector)
    ensures
        kind_field(0, kind_at) == 0,
        register_field(0, register_at) == 0,
        base_field(0) == 0,
        index_field(0) == 0,
        segment_field(0) == 0,
        scale_field(0) == 0,
{
}

/// A packed field is no wider than its mask.
proof fn lemma_field_widths(flags: u32, registers: u64, kind_at: u32, register_at: u64)
    by (bit_vector)
    ensures
        kind_field(flags, kind_at) < 32,
        register_field(registers, register_at) < 256,
        base_field(flags) < 256,
        index_field(flags) < 256,
        segment_field(flags) < 256,
        scale_field(flags) < 4,
{
}

/// The binary logarithm of a scale.
#[verifier::when_used_as_spec(spec_scale_bits)]
fn scale_bits(scale: u32) -> (bits: u32)
    ensures
        bits == spec_scale_bits(scale),
{
    if scale == 1 {
        0
    } else if scale == 2 {
        1
    } else if scale == 4 {
        2
    } else {
        3
    }
}

/// The scale of which `bits` is the binary logarithm.
#[verifier::when_used_as_spec(spec_scale_of_bits)]
fn scale_of_bits(bits: u32) -> (scale: u32)
    ensures
        scale == spec_scale_of_bits(bits),
{
    if bits == 0 {
        1
    } else if bits == 1 {
        2
    } else if bits == 2 {
        4
    } else {
        8
    }
}

/// One decoded instruction.
#[derive(Clone, Copy, Debug, PartialEq, Eq, Structural, Hash)]
pub struct Instruction {
    code: Code,
    op_kind_flags: u32,
    op_registers: u64,
    memory_flags: u32,
    displacement: u64,
}

impl View for Instruction {
    type V = InstructionView;

    open spec fn view(&self) -> InstructionView {
        InstructionView {
            code: self.spec_code(),
            op_kinds: Seq::new(MAX_OP_COUNT as nat, |i: int| self.spec_op_kind(i)),
            op_registers: Seq::new(MAX_OP_COUNT as nat, |i: int| self.spec_op_register(i)),
            memory: self.spec_memory(),
        }
    }
}

impl Default for Instruction {
    /// A cleared record.
    fn default() -> (instruction: Instruction)
        ensures
            instruction@ == InstructionView::reset(),
    {
        Instruction::new()
    }
}

impl Instruction {
    /// Every packed field holds the ordinal of a value of its type.
    #[verifier::type_invariant]
    pub closed spec fn wf(&self) -> bool {
        &&& self.code.wf()
        &&& forall|i: int|
            0 <= i < MAX_OP_COUNT ==> #[trigger] kind_field(self.op_kind_flags, kind_shift(i))
                < NUMBER_OF_OP_KINDS
        &&& forall|i: int|
            0 <= i < MAX_OP_COUNT ==> #[trigger] register_field(
                self.op_registers,
                register_shift(i),
            ) < NUMBER_OF_REGISTERS
        &&& base_field(self.memory_flags) < NUMBER_OF_REGISTERS
        &&& index_field(self.memory_flags) < NUMBER_OF_REGISTERS
        &&& segment_field(self.memory_flags) < NUMBER_OF_REGISTERS
        &&& spec_is_segment(register_of(segment_field(self.memory_flags)))
    }

    /// The instruction identity.
    pub closed spec fn spec_code(&self) -> Code {
        self.code
    }

    /// The kind of operand `index`.
    pub closed spec fn spec_op_kind(&self, index: int) -> OpKind {
        kind_of(kind_field(self.op_kind_flags, kind_shift(index)))
    }

    /// The register of operand `index`.
    pub closed spec fn spec_op_register(&self, index: int) -> Register {
        register_of(register_field(self.op_registers, register_shift(index)) as u32)
    }

    /// The description of the memory operand.
    pub closed spec fn spec_memory(&self) -> MemoryOperand {
        MemoryOperand::spec_with_parts(
            register_of(base_field(self.memory_flags)),
            register_of(index_field(self.memory_flags)),
            spec_scale_of_bits(scale_field(self.memory_flags)),
            self.displacement,
            register_of(segment_field(self.memory_flags)),
        )
    }

    /// A cleared record.
    pub fn new() -> (instruction: Instruction)
        ensures
            instruction@ == InstructionView::reset(),
    {
        let code = Code::invalid();
        proof {
            use_type_invariant(code);
            lemma_zero_fields(0, 0);
            assert forall|i: int| 0 <= i < MAX_OP_COUNT implies #[trigger] kind_field(
                0,
                kind_shift(i),
            ) == 0 by {
                lemma_zero_fields(kind_shift(i), 0);
            }
            assert forall|i: int| 0 <= i < MAX_OP_COUNT implies #[trigger] register_field(
                0,
                register_shift(i),
            ) == 0 by {
                lemma_zero_fields(0, register_shift(i));
            }
        }
        let instruction = Instruction {
            code,
            op_kind_flags: 0,
            op_registers: 0,
            memory_flags: 0,
            displacement: 0,
        };
        proof {
            assert(instruction@.op_kinds =~= InstructionView::reset().op_kinds);
            assert(instruction@.op_registers =~= InstructionView::reset().op_registers);
        }
        instruction
    }

    /// Clears this record.
    pub fn reset(&mut self)
        ensures
            final(self)@ == InstructionView::reset(),
    {
        *self = Instruction::new();
    }

    /// The instruction identity.
    pub fn code(&self) -> (code: Code)
        ensures
            code == self@.code,
    {
        self.code
    }

    /// The kind of operand `index`.
    pub fn op_kind(&self, index: u32) -> (kind: OpKind)
        requires
            index < MAX_OP_COUNT,
        ensures
            kind == self@.op_kinds[index as int],
    {
        proof {
            use_type_invariant(self);
        }
        let bits: u32 = (self.op_kind_flags >> (index * OP_KIND_BITS)) & OP_KIND_MASK;
        assert(bits == kind_field(self.op_kind_flags, kind_shift(index as int)));
        match OpKind::from_ordinal(bits) {
            Some(kind) => kind,
            None => unreached(),
        }
    }

    /// The register of operand `index`.
    pub fn op_register(&self, index: u32) -> (register: Register)
        requires
            index < MAX_OP_COUNT,
        ensures
            register == self@.op_registers[index as int],
    {
        proof {
            use_type_invariant(self);
        }
        let shift: u64 = (index * REGISTER_BITS) as u64;
        let bits: u64 = (self.op_registers >> shift) & REGISTER_MASK;
        assert(bits == register_field(self.op_registers, register_shift(index as int)));
        proof {
            Register::lemma_from_ordinal(bits as u32);
        }
        match Register::from_ordinal(bits as u32) {
            Some(register) => register,
            None => unreached(),
        }
    }

    /// The description of the memory operand.
    pub fn memory(&self) -> (memory: MemoryOperand)
        ensures
            memory == self@.memory,
    {
        proof {
            use_type_invariant(self);
            Register::lemma_from_ordinal(base_field(self.memory_flags));
            Register::lemma_from_ordinal(index_field(self.memory_flags));
            Register::lemma_from_ordinal(segment_field(self.memory_flags));
        }
        let flags: u32 = self.memory_flags;
        let base = Register::from_ordinal(flags & MEMORY_REGISTER_MASK);
        let index = Register::from_ordinal((flags >> MEMORY_INDEX_SHIFT) & MEMORY_REGISTER_MASK);
        let segment = Register::from_ordinal(
            (flags >> MEMORY_SEGMENT_SHIFT) & MEMORY_REGISTER_MASK,
        );
        let scale: u32 = scale_of_bits((flags >> MEMORY_SCALE_SHIFT) & MEMORY_SCALE_MASK);
        match (base, index, segment) {
            (Some(base), Some(index), Some(segment)) => {
                match MemoryOperand::new(base, index, scale, self.displacement, segment) {
                    Some(memory) => memory,
                    None => unreached(),
                }
            },
            _ => unreached(),
        }
    }

    /// Writes the instruction identity.
    pub fn set_code(&mut self, code: Code)
        ensures
            final(self)@ == old(self)@.with_code(code),
    {
        proof {
            use_type_invariant(&*self);
            use_type_invariant(code);
        }
        self.code = code;
        proof {
            assert(self@.op_kinds =~= old(self)@.op_kinds);
            assert(self@.op_registers =~= old(self)@.op_registers);
        }
    }

    /// Writes the kind of operand `index`.
    pub fn set_operand_kind(&mut self, index: u32, kind: OpKind)
        requires
            index < MAX_OP_COUNT,
        ensures
            final(self)@ == old(self)@.with_op_kind(index as int, kind),
    {
        let shift: u32 = index * OP_KIND_BITS;
        let value: u32 = kind.ordinal();
        let flags: u32 = self.op_kind_flags;
        let updated: u32 = (flags & !(OP_KIND_MASK << shift)) | (value << shift);
        proof {
            use_type_invariant(&*self);
            kind.lemma_ordinal_round_trip();
            assert forall|i: int| 0 <= i < MAX_OP_COUNT implies #[trigger] kind_field(
                updated,
                kind_shift(i),
            ) == (if i == index {
                value
            } else {
                kind_field(flags, kind_shift(i))
            }) by {
                lemma_kind_field_written(flags, shift, kind_shift(i), value);
            }
        }
        self.op_kind_flags = updated;
        proof {
            assert(self@.op_kinds =~= old(self)@.op_kinds.update(index as int, kind));
            assert(self@.op_registers =~= old(self)@.op_registers);
        }
    }

    /// Writes the register of operand `index`, given by its ordinal.
    pub fn set_operand_register(&mut self, index: u32, ordinal: u32)
        requires
            index < MAX_OP_COUNT,
            ordinal < NUMBER_OF_REGISTERS,
        ensures
            final(self)@ == old(self)@.with_op_register(
                index as int,
                Register::spec_from_ordinal(ordinal).unwrap(),
            ),
    {
        let shift: u64 = (index * REGISTER_BITS) as u64;
        let value: u64 = ordinal as u64;
        let registers: u64 = self.op_registers;
        let updated: u64 = (registers & !(REGISTER_MASK << shift)) | (value << shift);
        proof {
            use_type_invariant(&*self);
            Register::lemma_from_ordinal(ordinal);
            assert forall|i: int| 0 <= i < MAX_OP_COUNT implies #[trigger] register_field(
                updated,
                register_shift(i),
            ) == (if i == index {
                value
            } else {
                register_field(registers, register_shift(i))
            }) by {
                lemma_register_field_written(registers, shift, register_shift(i), value);
            }
        }
        self.op_registers = updated;
        proof {
            assert(self@.op_kinds =~= old(self)@.op_kinds);
            assert(self@.op_registers =~= old(self)@.op_registers.update(
                index as int,
                Register::spec_from_ordinal(ordinal).unwrap(),
            ));
        }
    }

    /// Makes operand `index` the memory operand that `memory` describes: writes
    /// the kind [`OpKind::Memory`] for it, and the description.
    pub fn set_operand_memory(&mut self, index: u32, memory: MemoryOperand)
        requires
            index < MAX_OP_COUNT,
        ensures
            final(self)@ == old(self)@.with_op_kind(index as int, OpKind::Memory).with_memory(
                memory,
            ),
    {
        self.set_operand_kind(index, OpKind::Memory);
        let base: u32 = memory.base().ordinal();
        let index_register: u32 = memory.index().ordinal();
        let segment: u32 = memory.segment().ordinal();
        let scale: u32 = scale_bits(memory.scale());
        proof {
            use_type_invariant(&*self);
            memory.spec_base().lemma_ordinal_round_trip();
            memory.spec_index().lemma_ordinal_round_trip();
            memory.spec_segment().lemma_ordinal_round_trip();
            lemma_memory_fields_packed(base, index_register, segment, scale);
            memory.lemma_parts();
        }
        self.memory_flags = base | (index_register << MEMORY_INDEX_SHIFT) | (segment
            << MEMORY_SEGMENT_SHIFT) | (scale << MEMORY_SCALE_SHIFT);
        self.displacement = memory.displacement();
        proof {
            assert(self@.op_kinds =~= old(self)@.op_kinds.update(index as int, OpKind::Memory));
            assert(self@.op_registers =~= old(self)@.op_registers);
        }
    }

    /// The view of a record is well formed.
    pub proof fn lemma_view_wf(&self)
        requires
            self.wf(),
        ensures
            self@.wf(),
    {
        Register::lemma_from_ordinal(segment_field(self.memory_flags));
        lemma_field_widths(self.memory_flags, 0, 0, 0);
        MemoryOperand::lemma_with_parts(
            register_of(base_field(self.memory_flags)),
            register_of(index_field(self.memory_flags)),
            spec_scale_of_bits(scale_field(self.memory_flags)),
            self.displacement,
            register_of(segment_field(self.memory_flags)),
        );
    }
}

/// The packed fields are wide enough: every operand kind fits into
/// [`OP_KIND_BITS`] bits and every register ordinal into [`REGISTER_BITS`]
/// bits, and the fields of all [`MAX_OP_COUNT`] operands fit into their words.
pub proof fn lemma_packed_widths(kind: OpKind, register: Register)
    ensures
        kind.spec_ordinal() <= OP_KIND_MASK,
        register.spec_ordinal() <= REGISTER_MASK,
        NUMBER_OF_OP_KINDS <= OP_KIND_MASK + 1,
        NUMBER_OF_REGISTERS <= REGISTER_MASK + 1,
        MAX_OP_COUNT * OP_KIND_BITS <= 32,
        MAX_OP_COUNT * REGISTER_BITS <= 64,
{
    kind.lemma_ordinal_round_trip();
    register.lemma_ordinal_round_trip();
}

/// A cleared record in which registers were written, and no kind, reads as
/// register operands throughout: the kind of every operand is still the one
/// with ordinal zero, which is the register kind.
pub proof fn lemma_cleared_kinds_are_register(
    first: int,
    first_register: Register,
    second: int,
    second_register: Register,
    operand: int,
)
    requires
        0 <= first < MAX_OP_COUNT,
        0 <= second < MAX_OP_COUNT,
        0 <= operand < MAX_OP_COUNT,
    ensures
        InstructionView::reset().op_kinds[operand] == OpKind::Register,
        InstructionView::reset().with_op_register(first, first_register).op_kinds[operand]
            == OpKind::Register,
        InstructionView::reset().with_op_register(first, first_register).with_op_register(
            second,
            second_register,
        ).op_kinds[operand] == OpKind::Register,
        OpKind::Register.spec_ordinal() == 0,
{
}

} // verus!
