//! The opcode handlers.
//!
//! A handler decodes the instructions of one encoding family. It carries the
//! identities that it can give to an instruction, reads the decoder state, and
//! writes the identity and the operands into the instruction record. The
//! handlers form a closed set, [`OpCodeHandler`].
//!
//! A handler never reads the byte stream. A handler whose operand lies in
//! memory writes what it knows and says, by the [`Continuation`] that it
//! returns, that the description of the operand is still to be read; whoever
//! reads it hands the outcome to [`complete_memory_operand`].

use vstd::pervasive::unreached;
use vstd::prelude::*;

use crate::code::Code;
use crate::constants::MAX_OP_COUNT;
use crate::instruction::{Instruction, InstructionView};
use crate::memory::MemoryOperand;
use crate::op_kind::OpKind;
use crate::register::Register;
use crate::state::{DecoderState, EncodingKind, OpSize};

verus! {

/// Why an instruction could not be decoded.
#[derive(Clone, Copy, Debug, PartialEq, Eq, Structural, Hash)]
pub enum DecodeError {
    /// No handler is responsible for the instruction: its encoding is reserved.
    Reserved,
    /// A handler was given a decoder state that it does not accept: whoever
    /// routed the instruction to the handler broke the rules of routing.
    InvariantViolation,
    /// The byte stream ended inside the instruction.
    Truncated,
}

/// What is left to do once a handler has run.
#[derive(Clone, Copy, Debug, PartialEq, Eq, Structural, Hash)]
pub enum Continuation {
    /// Nothing: the instruction is decoded.
    Complete,
    /// The description of the memory operand with index `operand` is to be
    /// read from the byte stream.
    ReadMemory {
        /// The index of the memory operand.
        operand: u32,
    },
}

/// A unit of decoding, responsible for one family of instruction encodings.
#[derive(Clone, Copy, Debug, PartialEq, Eq, Structural, Hash)]
pub enum OpCodeHandler {
    /// Responsible for nothing: stands where an encoding is reserved.
    Invalid,
    /// Two registers: the top of the floating-point stack, then the stack
    /// register that `rm` selects.
    StSti {
        /// The identity of the instruction.
        code: Code,
    },
    /// Two registers: the stack register that `rm` selects, then the top of the
    /// floating-point stack.
    StiSt {
        /// The identity of the instruction.
        code: Code,
    },
    /// One register: the stack register that `rm` selects.
    Sti {
        /// The identity of the instruction.
        code: Code,
    },
    /// One memory operand, with an identity that depends on the operand size.
    Mf {
        /// The identity of the instruction when the operand size is 16 bits.
        code16: Code,
        /// The identity of the instruction at any other operand size.
        code32: Code,
    },
}

/// The floating-point stack register that `rm` selects: the register `rm`
/// ordinals after the top of the stack.
pub open spec fn spec_stack_register(rm: u32) -> Register {
    Register::spec_from_ordinal((Register::ST0.spec_ordinal() + rm) as u32).unwrap()
}

impl OpCodeHandler {
    /// Whether the operand of this handler lies in memory.
    pub open spec fn spec_is_memory_capable(&self) -> bool {
        self is Mf
    }

    /// Whether this handler decodes instructions of the encoding kind
    /// `encoding` whose addressing byte has the `mod` field `mod_`: the
    /// encoding is legacy, and the addressing byte names memory if the operand
    /// of the handler lies in memory.
    pub open spec fn spec_admits(&self, encoding: EncodingKind, mod_: u32) -> bool {
        match *self {
            OpCodeHandler::Invalid => false,
            OpCodeHandler::StSti { .. } | OpCodeHandler::StiSt { .. } | OpCodeHandler::Sti {
                ..
            } => encoding == EncodingKind::Legacy,
            OpCodeHandler::Mf { .. } => encoding == EncodingKind::Legacy && mod_ != 3,
        }
    }

    /// Whether this handler decodes the instruction that `state` belongs to.
    pub open spec fn spec_accepts(&self, state: &DecoderState) -> bool {
        self.spec_admits(state.spec_encoding(), state.spec_mod())
    }

    /// The error with which this handler turns down a state that it does not
    /// accept.
    pub open spec fn rejection(&self) -> DecodeError {
        if *self is Invalid {
            DecodeError::Reserved
        } else {
            DecodeError::InvariantViolation
        }
    }

    /// Whether the instructions that this handler decodes have an addressing
    /// byte, which is then to be read into the state before the handler runs:
    /// every handler but the invalid one reads a field of it.
    pub open spec fn spec_has_modrm(&self) -> bool {
        !(*self is Invalid)
    }

    /// The number of operands of the instructions that this handler decodes.
    pub open spec fn spec_operand_count(&self) -> u32 {
        match *self {
            OpCodeHandler::Invalid => 0,
            OpCodeHandler::StSti { .. } | OpCodeHandler::StiSt { .. } => 2,
            OpCodeHandler::Sti { .. } | OpCodeHandler::Mf { .. } => 1,
        }
    }

    /// What is left to do once this handler has run.
    pub open spec fn continuation(&self) -> Continuation {
        if *self is Mf {
            Continuation::ReadMemory { operand: 0 }
        } else {
            Continuation::Complete
        }
    }

    /// The record that this handler makes of `before` in the state `state`.
    ///
    /// A register handler writes the identity and the registers and leaves the
    /// operand kinds as they are. The memory handler writes the identity for
    /// the operand size and the kind of its operand.
    pub open spec fn decoded(
        &self,
        state: &DecoderState,
        before: InstructionView,
    ) -> InstructionView {
        match *self {
            OpCodeHandler::Invalid => before,
            OpCodeHandler::StSti { code } => before.with_code(code).with_op_register(
                0,
                Register::ST0,
            ).with_op_register(1, spec_stack_register(state.spec_rm())),
            OpCodeHandler::StiSt { code } => before.with_code(code).with_op_register(
                0,
                spec_stack_register(state.spec_rm()),
            ).with_op_register(1, Register::ST0),
            OpCodeHandler::Sti { code } => before.with_code(code).with_op_register(
                0,
                spec_stack_register(state.spec_rm()),
            ),
            OpCodeHandler::Mf { code16, code32 } => before.with_code(
                if state.spec_operand_size() == OpSize::Size16 {
                    code16
                } else {
                    code32
                },
            ).with_op_kind(0, OpKind::Memory),
        }
    }

    /// Whether the operand of this handler lies in memory.
    #[verifier::when_used_as_spec(spec_is_memory_capable)]
    pub fn is_memory_capable(&self) -> (capable: bool)
        ensures
            capable == self.spec_is_memory_capable(),
    {
        match self {
            OpCodeHandler::Mf { .. } => true,
            _ => false,
        }
    }

    /// Whether this handler decodes instructions of the encoding kind
    /// `encoding` whose addressing byte has the `mod` field `mod_`.
    #[verifier::when_used_as_spec(spec_admits)]
    pub fn admits(&self, encoding: EncodingKind, mod_: u32) -> (admitted: bool)
        ensures
            admitted == self.spec_admits(encoding, mod_),
    {
        match self {
            OpCodeHandler::Invalid => false,
            OpCodeHandler::StSti { .. } | OpCodeHandler::StiSt { .. } | OpCodeHandler::Sti {
                ..
            } => encoding == EncodingKind::Legacy,
            OpCodeHandler::Mf { .. } => encoding == EncodingKind::Legacy && mod_ != 3,
        }
    }

    /// Whether this handler decodes the instruction that `state` belongs to.
    #[verifier::when_used_as_spec(spec_accepts)]
    pub fn accepts(&self, state: &DecoderState) -> (accepted: bool)
        ensures
            accepted == self.spec_accepts(state),
    {
        self.admits(state.encoding(), state.mod_())
    }

    /// Whether the instructions that this handler decodes have an addressing
    /// byte.
    #[verifier::when_used_as_spec(spec_has_modrm)]
    pub fn has_modrm(&self) -> (has: bool)
        ensures
            has == self.spec_has_modrm(),
    {
        match self {
            OpCodeHandler::Invalid => false,
            _ => true,
        }
    }

    /// The number of operands of the instructions that this handler decodes.
    #[verifier::when_used_as_spec(spec_operand_count)]
    pub fn operand_count(&self) -> (count: u32)
        ensures
            count == self.spec_operand_count(),
            count <= MAX_OP_COUNT,
    {
        match self {
            OpCodeHandler::Invalid => 0,
            OpCodeHandler::StSti { .. } | OpCodeHandler::StiSt { .. } => 2,
            OpCodeHandler::Sti { .. } | OpCodeHandler::Mf { .. } => 1,
        }
    }

    /// Decodes one instruction into `instruction`.
    ///
    /// The state must be one that this handler accepts: whoever routes
    /// instructions to handlers answers for that. Nothing is tested again here.
    pub fn decode(
        &self,
        state: &DecoderState,
        instruction: &mut Instruction,
    ) -> (next: Continuation)
        requires
            self.spec_accepts(state),
        ensures
            final(instruction)@ == self.decoded(state, old(instruction)@),
            next == self.continuation(),
    {
        match *self {
            OpCodeHandler::Invalid => unreached(),
            OpCodeHandler::StSti { code } => {
                let top: u32 = Register::ST0.ordinal();
                let selected: u32 = top + state.rm();
                instruction.set_code(code);
                instruction.set_operand_register(0, top);
                instruction.set_operand_register(1, selected);
                Continuation::Complete
            },
            OpCodeHandler::StiSt { code } => {
                let top: u32 = Register::ST0.ordinal();
                let selected: u32 = top + state.rm();
                instruction.set_code(code);
                instruction.set_operand_register(0, selected);
                instruction.set_operand_register(1, top);
                Continuation::Complete
            },
            OpCodeHandler::Sti { code } => {
                let selected: u32 = Register::ST0.ordinal() + state.rm();
                instruction.set_code(code);
                instruction.set_operand_register(0, selected);
                Continuation::Complete
            },
            OpCodeHandler::Mf { code16, code32 } => {
                if state.operand_size() != OpSize::Size16 {
                    instruction.set_code(code32);
                } else {
                    instruction.set_code(code16);
                }
                instruction.set_operand_kind(0, OpKind::Memory);
                Continuation::ReadMemory { operand: 0 }
            },
        }
    }

    /// Decodes one instruction into `instruction` if this handler accepts
    /// `state`, and turns the state down otherwise, leaving `instruction` as it
    /// is.
    pub fn try_decode(
        &self,
        state: &DecoderState,
        instruction: &mut Instruction,
    ) -> (result: Result<Continuation, DecodeError>)
        ensures
            self.spec_accepts(state) ==> result == Ok::<Continuation, DecodeError>(
                self.continuation(),
            ) && final(instruction)@ == self.decoded(state, old(instruction)@),
            !self.spec_accepts(state) ==> result == Err::<Continuation, DecodeError>(
                self.rejection(),
            ) && *final(instruction) == *old(instruction),
    {
        if self.accepts(state) {
            Ok(self.decode(state, instruction))
        } else {
            match self {
                OpCodeHandler::Invalid => Err(DecodeError::Reserved),
                _ => Err(DecodeError::InvariantViolation),
            }
        }
    }
}

/// Ends the decoding of an instruction whose memory operand, with index
/// `operand`, was still to be read, given the outcome of reading it.
///
/// If the description was read, it is written into `instruction`. If reading
/// failed, the failure is handed on and `instruction` is cleared, so that
/// nothing of the instruction that was begun is left in it.
pub fn complete_memory_operand(
    instruction: &mut Instruction,
    operand: u32,
    outcome: Result<MemoryOperand, DecodeError>,
) -> (result: Result<(), DecodeError>)
    requires
        operand < MAX_OP_COUNT,
    ensures
        match outcome {
            Ok(memory) => result is Ok && final(instruction)@ == old(instruction)@.with_op_kind(
                operand as int,
                OpKind::Memory,
            ).with_memory(memory),
            Err(error) => result == Err::<(), DecodeError>(error) && final(instruction)@
                == InstructionView::reset(),
        },
{
    match outcome {
        Ok(memory) => {
            instruction.set_operand_memory(operand, memory);
            Ok(())
        },
        Err(error) => {
            instruction.reset();
            Err(error)
        },
    }
}

/// The stack register that `rm` selects lies `rm` ordinals after the top of
/// the stack and is one of the eight stack registers. The largest `rm`
/// selects the last of them, `ST7`, and no `rm` reaches the family that
/// follows.
pub proof fn lemma_stack_register_in_family(rm: u32)
    requires
        rm < 8,
    ensures
        spec_stack_register(rm).spec_ordinal() == Register::ST0.spec_ordinal() + rm,
        Register::ST0.spec_ordinal() <= spec_stack_register(rm).spec_ordinal()
            <= Register::ST7.spec_ordinal(),
        rm == 0 ==> spec_stack_register(rm) == Register::ST0,
        rm == 7 ==> spec_stack_register(rm) == Register::ST7,
        spec_stack_register(rm).spec_ordinal() < Register::MM0.spec_ordinal(),
{
    Register::lemma_from_ordinal((Register::ST0.spec_ordinal() + rm) as u32);
}

/// Whatever `rm` is, the register handlers write the top of the stack and the
/// register `rm` ordinals after it, each at its place, and the identity that
/// they carry.
pub proof fn lemma_register_operands(code: Code, state: &DecoderState, before: InstructionView)
    requires
        state.wf(),
        before.wf(),
    ensures
        ({
            let after = (OpCodeHandler::StSti { code }).decoded(state, before);
            &&& after.code == code
            &&& after.op_registers[0] == Register::ST0
            &&& after.op_registers[1].spec_ordinal() == Register::ST0.spec_ordinal()
                + state.spec_rm()
        }),
        ({
            let after = (OpCodeHandler::StiSt { code }).decoded(state, before);
            &&& after.code == code
            &&& after.op_registers[0].spec_ordinal() == Register::ST0.spec_ordinal()
                + state.spec_rm()
            &&& after.op_registers[1] == Register::ST0
        }),
        ({
            let after = (OpCodeHandler::Sti { code }).decoded(state, before);
            &&& after.code == code
            &&& after.op_registers[0].spec_ordinal() == Register::ST0.spec_ordinal()
                + state.spec_rm()
        }),
{
    lemma_stack_register_in_family(state.spec_rm());
}

/// The two register-pair handlers mirror each other: with the same identity,
/// in the same state and on the same record, they write the same identity and
/// the same two registers in opposite order. Where the record held the same
/// kind for its first two operands, as a cleared record does, the two operand
/// lists are each the reverse of the other.
pub proof fn lemma_register_pair_symmetry(
    code: Code,
    state: &DecoderState,
    before: InstructionView,
)
    requires
        state.wf(),
        before.wf(),
    ensures
        ({
            let forward = (OpCodeHandler::StSti { code }).decoded(state, before);
            let backward = (OpCodeHandler::StiSt { code }).decoded(state, before);
            &&& forward.code == backward.code
            &&& forward.op_registers.subrange(0, 2) == backward.op_registers.subrange(
                0,
                2,
            ).reverse()
            &&& forward.op_kinds == backward.op_kinds
            &&& before.op_kinds[0] == before.op_kinds[1] ==> forward.operands(2)
                == backward.operands(2).reverse()
        }),
{
    let forward = (OpCodeHandler::StSti { code }).decoded(state, before);
    let backward = (OpCodeHandler::StiSt { code }).decoded(state, before);
    assert(forward.op_registers.subrange(0, 2) =~= backward.op_registers.subrange(
        0,
        2,
    ).reverse());
    if before.op_kinds[0] == before.op_kinds[1] {
        assert(forward.operands(2) =~= backward.operands(2).reverse());
    }
}

/// The memory handler gives an instruction its identity for 16 bits when the
/// operand size is 16 bits, and its other identity at every other size. The
/// two records differ in nothing but the identity, and where the two
/// identities of the handler differ, so do those of the records.
pub proof fn lemma_operand_size_selects_identity(
    code16: Code,
    code32: Code,
    narrow: &DecoderState,
    wide: &DecoderState,
    before: InstructionView,
)
    requires
        narrow.spec_operand_size() == OpSize::Size16,
        wide.spec_operand_size() != OpSize::Size16,
    ensures
        ({
            let handler = OpCodeHandler::Mf { code16, code32 };
            &&& handler.decoded(narrow, before).code == code16
            &&& handler.decoded(wide, before).code == code32
            &&& handler.decoded(narrow, before) == handler.decoded(wide, before).with_code(
                code16,
            )
            &&& code16 != code32 ==> handler.decoded(narrow, before).code != handler.decoded(
                wide,
                before,
            ).code
        }),
{
}

/// A handler whose operand lies in memory accepts no state whose addressing
/// byte names a register, and no handler accepts a state of another encoding
/// than the legacy one.
pub proof fn lemma_accepted_states(handler: OpCodeHandler, state: &DecoderState)
    ensures
        handler.spec_is_memory_capable() && state.spec_is_register_direct()
            ==> !handler.spec_accepts(state),
        state.spec_encoding() != EncodingKind::Legacy ==> !handler.spec_accepts(state),
        handler.spec_accepts(state) <==> !(handler is Invalid) && state.spec_encoding()
            == EncodingKind::Legacy && !(handler.spec_is_memory_capable()
            && state.spec_is_register_direct()),
{
}

/// On a cleared record, a handler leaves well-formed operands below its
/// operand count and nothing at or above it: each operand that a register
/// handler wrote reads as a register of the stack, though its kind was never
/// written; the operand of the memory handler reads as memory; and every
/// other operand is as in a cleared record.
pub proof fn lemma_decoded_on_cleared_record(handler: OpCodeHandler, state: &DecoderState)
    requires
        state.wf(),
        handler.spec_accepts(state),
    ensures
        ({
            let after = handler.decoded(state, InstructionView::reset());
            &&& after.op_kinds.len() == MAX_OP_COUNT
            &&& after.op_registers.len() == MAX_OP_COUNT
            &&& forall|i: int|
                0 <= i < handler.spec_operand_count() ==> if handler.spec_is_memory_capable() {
                    #[trigger] after.op_kinds[i] == OpKind::Memory
                } else {
                    &&& after.op_kinds[i] == OpKind::Register
                    &&& after.op_kinds[i].spec_ordinal() == 0
                    &&& Register::ST0.spec_ordinal() <= after.op_registers[i].spec_ordinal()
                        <= Register::ST7.spec_ordinal()
                }
            &&& forall|i: int|
                handler.spec_operand_count() <= i < MAX_OP_COUNT ==> {
                    &&& #[trigger] after.op_kinds[i] == OpKind::Register
                    &&& after.op_registers[i] == Register::NoRegister
                }
            &&& after.memory == MemoryOperand::spec_absent()
        }),
{
    lemma_stack_register_in_family(state.spec_rm());
}

/// Once the memory operand that the memory handler left to be read is written
/// into the record, the record holds the identity for the operand size, the
/// memory kind for its one operand and the description that was read, and is
/// otherwise as before the handler ran.
pub proof fn lemma_memory_operand_completed(
    handler: OpCodeHandler,
    state: &DecoderState,
    before: InstructionView,
    memory: MemoryOperand,
)
    requires
        handler.spec_is_memory_capable(),
        before.wf(),
    ensures
        handler.continuation() == (Continuation::ReadMemory { operand: 0 }),
        ({
            let after = handler.decoded(state, before).with_op_kind(0, OpKind::Memory).with_memory(
                memory,
            );
            &&& after == handler.decoded(state, before).with_memory(memory)
            &&& after.op_kinds[0] == OpKind::Memory
            &&& after.memory == memory
            &&& after.op_registers == before.op_registers
            &&& forall|i: int| 1 <= i < MAX_OP_COUNT ==> after.op_kinds[i] == before.op_kinds[i]
        }),
{
    let written = handler.decoded(state, before);
    assert(written.with_op_kind(0, OpKind::Memory).op_kinds =~= written.op_kinds);
}

} // verus!
