//! The dispatch table: which handler is responsible for which instruction.
//!
//! A table maps selectors to handlers. The selector of an instruction is a
//! number made of its encoding kind, its opcode byte and the three fields of
//! its addressing byte:
//!
//! - bits `0 .. 3`: `rm`;
//! - bits `3 .. 6`: `reg`;
//! - bits `6 .. 8`: `mod`;
//! - bits `8 .. 16`: the opcode byte;
//! - bits `16 ..`: the ordinal of the encoding kind.
//!
//! Different instructions have different selectors, so a table holds exactly
//! one handler for each. A selector at which nothing was installed, or beyond
//! the end of the table, belongs to [`OpCodeHandler::Invalid`].
//!
//! A table is put together once, with [`DispatchTable::new`] and
//! [`DispatchTable::install`], and only read afterwards. `install` takes a
//! handler only at a selector whose instructions the handler accepts, so a
//! lookup never yields a handler for an instruction that it does not accept.

use vstd::prelude::*;

use crate::constants::MAX_OP_COUNT;
use crate::handlers::{complete_memory_operand, Continuation, DecodeError, OpCodeHandler};
use crate::instruction::{Instruction, InstructionView};
use crate::memory::MemoryOperand;
use crate::op_kind::OpKind;
use crate::state::{DecoderState, EncodingKind};

verus! {

/// The number of selectors of one encoding kind.
pub const SELECTORS_PER_ENCODING: u32 = 65536;

/// The selector of the instruction with the given encoding kind, opcode byte
/// and addressing fields.
pub open spec fn spec_selector(
    encoding: EncodingKind,
    opcode: u8,
    mod_: u32,
    reg: u32,
    rm: u32,
) -> u32 {
    (encoding.spec_ordinal() * 65536 + opcode * 256 + mod_ * 64 + reg * 8 + rm) as u32
}

/// The encoding kind of the instructions with the selector `selector`, if
/// there is one.
pub open spec fn spec_selector_encoding(selector: u32) -> Option<EncodingKind> {
    EncodingKind::spec_from_ordinal(selector / 65536)
}

/// The opcode byte of the instructions with the selector `selector`.
pub open spec fn spec_selector_opcode(selector: u32) -> u8 {
    ((selector / 256) % 256) as u8
}

/// The `mod` field of the instructions with the selector `selector`.
pub open spec fn spec_selector_mod(selector: u32) -> u32 {
    (selector / 64) % 4
}

/// The `reg` field of the instructions with the selector `selector`.
pub open spec fn spec_selector_reg(selector: u32) -> u32 {
    (selector / 8) % 8
}

/// The `rm` field of the instructions with the selector `selector`.
pub open spec fn spec_selector_rm(selector: u32) -> u32 {
    selector % 8
}

/// Whether `handler` may stand at `selector`: it is the invalid handler, or the
/// selector has an encoding kind and the handler decodes instructions of that
/// kind with the `mod` field of the selector.
pub open spec fn spec_routable(handler: OpCodeHandler, selector: u32) -> bool {
    handler is Invalid || (spec_selector_encoding(selector) matches Some(encoding)
        && handler.spec_admits(encoding, spec_selector_mod(selector)))
}

/// The selector of the instruction with the opcode byte `opcode` that `state`
/// belongs to.
pub fn selector(state: &DecoderState, opcode: u8) -> (selector: u32)
    ensures
        selector == spec_selector(
            state.spec_encoding(),
            opcode,
            state.spec_mod(),
            state.spec_reg(),
            state.spec_rm(),
        ),
{
    state.encoding().ordinal() * SELECTORS_PER_ENCODING + (opcode as u32) * 256 + state.mod_() * 64
        + state.reg() * 8 + state.rm()
}

/// Whether `handler` may stand at `selector`.
#[verifier::when_used_as_spec(spec_routable)]
pub fn routable(handler: OpCodeHandler, selector: u32) -> (allowed: bool)
    ensures
        allowed == spec_routable(handler, selector),
{
    match handler {
        OpCodeHandler::Invalid => true,
        _ => match EncodingKind::from_ordinal(selector / SELECTORS_PER_ENCODING) {
            Some(encoding) => handler.admits(encoding, (selector / 64) % 4),
            None => false,
        },
    }
}

/// A map from selectors to handlers.
pub struct DispatchTable {
    handlers: Vec<OpCodeHandler>,
}

impl View for DispatchTable {
    type V = Seq<OpCodeHandler>;

    closed spec fn view(&self) -> Seq<OpCodeHandler> {
        self.handlers@
    }
}

impl DispatchTable {
    /// Every handler of the table may stand at its selector.
    #[verifier::type_invariant]
    pub open spec fn wf(&self) -> bool {
        forall|selector: u32|
            selector < self@.len() ==> spec_routable(#[trigger] self@[selector as int], selector)
    }

    /// The handler that is responsible for the instructions with the selector
    /// `selector`.
    pub open spec fn handler_at(&self, selector: u32) -> OpCodeHandler {
        if selector < self@.len() {
            self@[selector as int]
        } else {
            OpCodeHandler::Invalid
        }
    }

    /// The table of `len` selectors in which no handler is installed.
    pub fn new(len: u32) -> (table: DispatchTable)
        ensures
            table@ == Seq::new(len as nat, |i: int| OpCodeHandler::Invalid),
    {
        let mut handlers: Vec<OpCodeHandler> = Vec::new();
        let mut count: u32 = 0;
        while count < len
            invariant
                count <= len,
                handlers@ == Seq::new(count as nat, |i: int| OpCodeHandler::Invalid),
            decreases len - count,
        {
            handlers.push(OpCodeHandler::Invalid);
            count = count + 1;
            assert(handlers@ =~= Seq::new(count as nat, |i: int| OpCodeHandler::Invalid));
        }
        DispatchTable { handlers }
    }

    /// The number of selectors of the table.
    pub fn len(&self) -> (len: usize)
        ensures
            len == self@.len(),
    {
        self.handlers.len()
    }

    /// Makes `handler` responsible for the instructions with the selector
    /// `selector`, if the selector lies in the table and the handler may stand
    /// there; leaves the table as it is otherwise. Says which of the two it
    /// did.
    pub fn install(&mut self, selector: u32, handler: OpCodeHandler) -> (installed: bool)
        ensures
            installed == (selector < old(self)@.len() && spec_routable(handler, selector)),
            installed ==> final(self)@ == old(self)@.update(selector as int, handler),
            !installed ==> final(self)@ == old(self)@,
    {
        proof {
            use_type_invariant(&*self);
        }
        if (selector as usize) < self.handlers.len() && routable(handler, selector) {
            let mut handlers: Vec<OpCodeHandler> = Vec::new();
            core::mem::swap(&mut self.handlers, &mut handlers);
            handlers.set(selector as usize, handler);
            core::mem::swap(&mut self.handlers, &mut handlers);
            true
        } else {
            false
        }
    }

    /// The handler that is responsible for the instructions with the selector
    /// `selector`. It may stand at that selector.
    pub fn dispatch(&self, selector: u32) -> (handler: OpCodeHandler)
        ensures
            handler == self.handler_at(selector),
            spec_routable(handler, selector),
    {
        proof {
            use_type_invariant(self);
        }
        if (selector as usize) < self.handlers.len() {
            self.handlers[selector as usize]
        } else {
            OpCodeHandler::Invalid
        }
    }

    /// Decodes into `instruction` the instruction with the opcode byte `opcode`
    /// that `state` belongs to, with the handler that is responsible for it.
    ///
    /// Fails, leaving `instruction` as it is, exactly when that handler is the
    /// invalid one: any other handler of the table accepts the state.
    pub fn decode(
        &self,
        state: &DecoderState,
        opcode: u8,
        instruction: &mut Instruction,
    ) -> (result: Result<Continuation, DecodeError>)
        ensures
            ({
                let handler = self.handler_at(
                    spec_selector(
                        state.spec_encoding(),
                        opcode,
                        state.spec_mod(),
                        state.spec_reg(),
                        state.spec_rm(),
                    ),
                );
                if handler is Invalid {
                    &&& result == Err::<Continuation, DecodeError>(DecodeError::Reserved)
                    &&& *final(instruction) == *old(instruction)
                } else {
                    &&& handler.spec_accepts(state)
                    &&& result == Ok::<Continuation, DecodeError>(handler.continuation())
                    &&& final(instruction)@ == handler.decoded(state, old(instruction)@)
                }
            }),
    {
        let handler = self.dispatch(selector(state, opcode));
        proof {
            use_type_invariant(state);
            lemma_selector_fields(
                state.spec_encoding(),
                opcode,
                state.spec_mod(),
                state.spec_reg(),
                state.spec_rm(),
            );
        }
        match handler {
            OpCodeHandler::Invalid => Err(DecodeError::Reserved),
            _ => Ok(handler.decode(state, instruction)),
        }
    }

    /// Decodes into `instruction` the whole of the instruction with the opcode
    /// byte `opcode` that `state` belongs to. Where the handler leaves a memory
    /// operand to be read, `read_memory` is called once, with the state and the
    /// index of the operand, to read its description.
    ///
    /// Fails with [`DecodeError::Reserved`], leaving `instruction` as it is,
    /// when no handler is responsible for the instruction; fails as
    /// `read_memory` failed, leaving `instruction` cleared, when it did; and
    /// succeeds otherwise.
    pub fn decode_with<F>(
        &self,
        state: &DecoderState,
        opcode: u8,
        instruction: &mut Instruction,
        read_memory: F,
    ) -> (result: Result<(), DecodeError>) where
        F: FnOnce(&DecoderState, u32) -> Result<MemoryOperand, DecodeError>,

        requires
            forall|operand: u32|
                operand < MAX_OP_COUNT ==> call_requires(read_memory, (state, operand)),
        ensures
            ({
                let handler = self.handler_at(
                    spec_selector(
                        state.spec_encoding(),
                        opcode,
                        state.spec_mod(),
                        state.spec_reg(),
                        state.spec_rm(),
                    ),
                );
                let written = handler.decoded(state, old(instruction)@);
                if handler is Invalid {
                    &&& result == Err::<(), DecodeError>(DecodeError::Reserved)
                    &&& *final(instruction) == *old(instruction)
                } else if !handler.spec_is_memory_capable() {
                    &&& result is Ok
                    &&& final(instruction)@ == written
                } else {
                    exists|outcome: Result<MemoryOperand, DecodeError>|
                        {
                            &&& #[trigger] call_ensures(read_memory, (state, 0u32), outcome)
                            &&& match outcome {
                                Ok(memory) => result is Ok && final(instruction)@
                                    == written.with_memory(memory),
                                Err(error) => result == Err::<(), DecodeError>(error)
                                    && final(instruction)@ == InstructionView::reset(),
                            }
                        }
                }
            }),
    {
        match self.decode(state, opcode, instruction) {
            Err(error) => Err(error),
            Ok(Continuation::Complete) => Ok(()),
            Ok(Continuation::ReadMemory { operand }) => {
                let ghost written = instruction@;
                let outcome = read_memory(state, operand);
                proof {
                    assert(written.with_op_kind(0, OpKind::Memory).op_kinds =~= written.op_kinds);
                }
                complete_memory_operand(instruction, operand, outcome)
            },
        }
    }
}

/// A number put together as a selector is falls apart again, by division, into
/// the parts that it was made of.
proof fn lemma_selector_parts(encoding: u32, opcode: u32, mod_: u32, reg: u32, rm: u32)
    by (bit_vector)
    requires
        encoding < 5,
        opcode < 256,
        mod_ < 4,
        reg < 8,
        rm < 8,
    ensures
        ({
            let selector = (encoding * 65536 + opcode * 256 + mod_ * 64 + reg * 8 + rm) as u32;
            &&& selector == encoding * 65536 + opcode * 256 + mod_ * 64 + reg * 8 + rm
            &&& selector / 65536 == encoding
            &&& (selector / 256) % 256 == opcode
            &&& (selector / 64) % 4 == mod_
            &&& (selector / 8) % 8 == reg
            &&& selector % 8 == rm
        }),
{
}

/// A selector holds each of the parts that it was made of: the encoding kind,
/// the opcode byte and the three addressing fields are found again from it.
/// So instructions that differ in any part differ in their selectors.
pub proof fn lemma_selector_fields(
    encoding: EncodingKind,
    opcode: u8,
    mod_: u32,
    reg: u32,
    rm: u32,
)
    requires
        mod_ < 4,
        reg < 8,
        rm < 8,
    ensures
        spec_selector_encoding(spec_selector(encoding, opcode, mod_, reg, rm)) == Some(encoding),
        spec_selector_opcode(spec_selector(encoding, opcode, mod_, reg, rm)) == opcode,
        spec_selector_mod(spec_selector(encoding, opcode, mod_, reg, rm)) == mod_,
        spec_selector_reg(spec_selector(encoding, opcode, mod_, reg, rm)) == reg,
        spec_selector_rm(spec_selector(encoding, opcode, mod_, reg, rm)) == rm,
{
    lemma_selector_parts(encoding.spec_ordinal(), opcode as u32, mod_, reg, rm);
}

/// Two instructions with the same selector have the same encoding kind, the
/// same opcode byte and the same addressing fields.
pub proof fn lemma_selector_injective(
    encoding1: EncodingKind,
    opcode1: u8,
    mod1: u32,
    reg1: u32,
    rm1: u32,
    encoding2: EncodingKind,
    opcode2: u8,
    mod2: u32,
    reg2: u32,
    rm2: u32,
)
    requires
        mod1 < 4,
        reg1 < 8,
        rm1 < 8,
        mod2 < 4,
        reg2 < 8,
        rm2 < 8,
        spec_selector(encoding1, opcode1, mod1, reg1, rm1) == spec_selector(
            encoding2,
            opcode2,
            mod2,
            reg2,
            rm2,
        ),
    ensures
        encoding1 == encoding2,
        opcode1 == opcode2,
        mod1 == mod2,
        reg1 == reg2,
        rm1 == rm2,
{
    lemma_selector_fields(encoding1, opcode1, mod1, reg1, rm1);
    lemma_selector_fields(encoding2, opcode2, mod2, reg2, rm2);
}

/// In a table, the handler that is responsible for an instruction is the
/// invalid one or accepts the state of the instruction: no instruction is
/// routed to a handler that does not decode it.
pub proof fn lemma_dispatch_is_compatible(table: &DispatchTable, state: &DecoderState, opcode: u8)
    requires
        table.wf(),
        state.wf(),
    ensures
        ({
            let handler = table.handler_at(
                spec_selector(
                    state.spec_encoding(),
                    opcode,
                    state.spec_mod(),
                    state.spec_reg(),
                    state.spec_rm(),
                ),
            );
            handler is Invalid || handler.spec_accepts(state)
        }),
{
    lemma_selector_fields(
        state.spec_encoding(),
        opcode,
        state.spec_mod(),
        state.spec_reg(),
        state.spec_rm(),
    );
}

} // verus!
