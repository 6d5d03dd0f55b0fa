use iced_x86::code::Code;
use iced_x86::constants::MAX_OP_COUNT;
use iced_x86::handlers::{complete_memory_operand, Continuation, DecodeError, OpCodeHandler};
use iced_x86::instruction::Instruction;
use iced_x86::memory::MemoryOperand;
use iced_x86::op_kind::OpKind;
use iced_x86::register::Register;
use iced_x86::state::{DecoderState, EncodingKind, OpSize};

const STACK: [Register; 8] = [
    Register::ST0,
    Register::ST1,
    Register::ST2,
    Register::ST3,
    Register::ST4,
    Register::ST5,
    Register::ST6,
    Register::ST7,
];

const SIZES: [OpSize; 3] = [OpSize::Size16, OpSize::Size32, OpSize::Size64];

const ENCODINGS: [EncodingKind; 5] = [
    EncodingKind::Legacy,
    EncodingKind::Vex,
    EncodingKind::Evex,
    EncodingKind::Xop,
    EncodingKind::D3now,
];

fn legacy(mod_: u32, reg: u32, rm: u32) -> DecoderState {
    DecoderState::from_fields(EncodingKind::Legacy, OpSize::Size32, mod_, reg, rm).unwrap()
}

fn code(n: u32) -> Code {
    Code::from_ordinal(n).unwrap()
}

#[test]
fn sti_st_decodes_st5_then_st0() {
    let identity = code(1234);
    let state = legacy(3, 0, 5);
    let handler = OpCodeHandler::StiSt { code: identity };
    let mut instruction = Instruction::new();
    let next = handler.decode(&state, &mut instruction);
    assert_eq!(next, Continuation::Complete);
    assert_eq!(instruction.code(), identity);
    assert_eq!(instruction.op_kind(0), OpKind::Register);
    assert_eq!(instruction.op_register(0), Register::ST5);
    assert_eq!(instruction.op_kind(1), OpKind::Register);
    assert_eq!(instruction.op_register(1), Register::ST0);
    for index in 2..MAX_OP_COUNT {
        assert_eq!(instruction.op_kind(index), OpKind::Register);
        assert_eq!(instruction.op_register(index), Register::NoRegister);
    }
    assert_eq!(instruction.memory(), MemoryOperand::absent());
}

#[test]
fn st_sti_writes_top_then_selected_register_for_every_rm() {
    for rm in 0..8u32 {
        for mod_ in 0..4u32 {
            let state = legacy(mod_, 7, rm);
            let handler = OpCodeHandler::StSti { code: code(300) };
            let mut instruction = Instruction::new();
            assert_eq!(handler.decode(&state, &mut instruction), Continuation::Complete);
            assert_eq!(instruction.code().ordinal(), 300);
            assert_eq!(instruction.op_register(0), Register::ST0);
            assert_eq!(instruction.op_register(1), STACK[rm as usize]);
            assert_eq!(instruction.op_register(1).ordinal(), Register::ST0.ordinal() + rm);
            assert_eq!(instruction.op_kind(0), OpKind::Register);
            assert_eq!(instruction.op_kind(1), OpKind::Register);
        }
    }
}

#[test]
fn sti_st_writes_selected_register_then_top_for_every_rm() {
    for rm in 0..8u32 {
        let state = legacy(3, 1, rm);
        let handler = OpCodeHandler::StiSt { code: code(301) };
        let mut instruction = Instruction::new();
        assert_eq!(handler.decode(&state, &mut instruction), Continuation::Complete);
        assert_eq!(instruction.code().ordinal(), 301);
        assert_eq!(instruction.op_register(0), STACK[rm as usize]);
        assert_eq!(instruction.op_register(1), Register::ST0);
    }
}

#[test]
fn sti_writes_one_register_for_every_rm() {
    for rm in 0..8u32 {
        let state = legacy(3, 2, rm);
        let handler = OpCodeHandler::Sti { code: code(302) };
        let mut instruction = Instruction::new();
        assert_eq!(handler.decode(&state, &mut instruction), Continuation::Complete);
        assert_eq!(instruction.code().ordinal(), 302);
        assert_eq!(instruction.op_register(0), STACK[rm as usize]);
        for index in 1..MAX_OP_COUNT {
            assert_eq!(instruction.op_register(index), Register::NoRegister);
            assert_eq!(instruction.op_kind(index), OpKind::Register);
        }
    }
}

#[test]
fn largest_rm_selects_the_last_stack_register() {
    let state = legacy(3, 0, 7);
    let mut instruction = Instruction::new();
    OpCodeHandler::StSti { code: code(1) }.decode(&state, &mut instruction);
    assert_eq!(instruction.op_register(1), Register::ST7);
    assert_eq!(instruction.op_register(1).ordinal(), 224);
    assert!(instruction.op_register(1).ordinal() < Register::MM0.ordinal());
    assert_ne!(instruction.op_register(1), Register::MM0);
}

#[test]
fn register_pair_handlers_mirror_each_other() {
    for rm in 0..8u32 {
        let state = legacy(3, 4, rm);
        let mut forward = Instruction::new();
        let mut backward = Instruction::new();
        OpCodeHandler::StSti { code: code(777) }.decode(&state, &mut forward);
        OpCodeHandler::StiSt { code: code(777) }.decode(&state, &mut backward);
        assert_eq!(forward.code(), backward.code());
        let forward_operands = vec![
            (forward.op_kind(0), forward.op_register(0)),
            (forward.op_kind(1), forward.op_register(1)),
        ];
        let mut backward_operands = vec![
            (backward.op_kind(0), backward.op_register(0)),
            (backward.op_kind(1), backward.op_register(1)),
        ];
        backward_operands.reverse();
        assert_eq!(forward_operands, backward_operands);
    }
}

#[test]
fn register_handlers_leave_the_kinds_as_they_are() {
    let state = legacy(3, 0, 2);
    let mut instruction = Instruction::new();
    instruction.set_operand_kind(0, OpKind::Immediate8);
    instruction.set_operand_kind(1, OpKind::Memory);
    OpCodeHandler::StSti { code: code(5) }.decode(&state, &mut instruction);
    assert_eq!(instruction.op_kind(0), OpKind::Immediate8);
    assert_eq!(instruction.op_kind(1), OpKind::Memory);
    assert_eq!(instruction.op_register(0), Register::ST0);
    assert_eq!(instruction.op_register(1), Register::ST2);
}

#[test]
fn mf_selects_the_identity_by_operand_size() {
    let handler = OpCodeHandler::Mf { code16: code(1000), code32: code(1001) };
    for size in SIZES {
        let state = DecoderState::from_modrm(EncodingKind::Legacy, size, 0x35);
        let mut instruction = Instruction::new();
        let next = handler.decode(&state, &mut instruction);
        assert_eq!(next, Continuation::ReadMemory { operand: 0 });
        let expected = if size == OpSize::Size16 { 1000 } else { 1001 };
        assert_eq!(instruction.code().ordinal(), expected);
        assert_eq!(instruction.op_kind(0), OpKind::Memory);
        for index in 1..MAX_OP_COUNT {
            assert_eq!(instruction.op_kind(index), OpKind::Register);
        }
        for index in 0..MAX_OP_COUNT {
            assert_eq!(instruction.op_register(index), Register::NoRegister);
        }
        assert_eq!(instruction.memory(), MemoryOperand::absent());
    }
}

#[test]
fn mf_gives_different_identities_at_sixteen_bits_and_elsewhere() {
    let handler = OpCodeHandler::Mf { code16: code(2000), code32: code(2001) };
    let narrow = DecoderState::from_modrm(EncodingKind::Legacy, OpSize::Size16, 0x06);
    let mut narrow_record = Instruction::new();
    handler.decode(&narrow, &mut narrow_record);
    for size in [OpSize::Size32, OpSize::Size64] {
        let wide = DecoderState::from_modrm(EncodingKind::Legacy, size, 0x06);
        let mut wide_record = Instruction::new();
        handler.decode(&wide, &mut wide_record);
        assert_ne!(narrow_record.code(), wide_record.code());
        wide_record.set_code(narrow_record.code());
        assert_eq!(narrow_record, wide_record);
    }
}

#[test]
fn mf_accepts_every_memory_form() {
    let handler = OpCodeHandler::Mf { code16: code(10), code32: code(11) };
    for byte in 0..=255u8 {
        let state = DecoderState::from_modrm(EncodingKind::Legacy, OpSize::Size32, byte);
        assert_eq!(handler.accepts(&state), byte < 0xC0);
    }
}

#[test]
fn try_decode_rejects_register_direct_for_memory_handler() {
    let handler = OpCodeHandler::Mf { code16: code(10), code32: code(11) };
    for rm in 0..8u32 {
        for reg in 0..8u32 {
            let state = legacy(3, reg, rm);
            let mut instruction = Instruction::new();
            instruction.set_code(code(42));
            let before = instruction;
            assert_eq!(handler.try_decode(&state, &mut instruction), Err(DecodeError::InvariantViolation));
            assert_eq!(instruction, before);
            assert_eq!(instruction.op_kind(0), OpKind::Register);
            assert_ne!(instruction.op_kind(0), OpKind::Memory);
        }
    }
}

#[test]
fn try_decode_rejects_other_encodings() {
    let handlers = [
        OpCodeHandler::StSti { code: code(1) },
        OpCodeHandler::StiSt { code: code(2) },
        OpCodeHandler::Sti { code: code(3) },
        OpCodeHandler::Mf { code16: code(4), code32: code(5) },
    ];
    for handler in handlers {
        for encoding in ENCODINGS {
            let state = DecoderState::from_modrm(encoding, OpSize::Size32, 0x45);
            let mut instruction = Instruction::new();
            let result = handler.try_decode(&state, &mut instruction);
            if encoding == EncodingKind::Legacy {
                assert_eq!(result, Ok(handler.decode(&state, &mut Instruction::new())));
                assert!(handler.accepts(&state));
                assert!(handler.admits(encoding, 1));
            } else {
                assert_eq!(result, Err(DecodeError::InvariantViolation));
                assert_eq!(instruction, Instruction::new());
                assert!(!handler.accepts(&state));
                assert!(!handler.admits(encoding, 1));
            }
        }
    }
}

#[test]
fn try_decode_of_invalid_handler_is_reserved() {
    for encoding in ENCODINGS {
        for byte in [0x00u8, 0x45, 0xC0, 0xFF] {
            let state = DecoderState::from_modrm(encoding, OpSize::Size32, byte);
            let mut instruction = Instruction::new();
            let result = OpCodeHandler::Invalid.try_decode(&state, &mut instruction);
            assert_eq!(result, Err(DecodeError::Reserved));
            assert_eq!(instruction, Instruction::new());
            assert!(!OpCodeHandler::Invalid.accepts(&state));
        }
    }
}

#[test]
fn try_decode_decodes_what_the_handler_accepts() {
    let state = legacy(3, 0, 6);
    let mut tried = Instruction::new();
    let mut decoded = Instruction::new();
    let handler = OpCodeHandler::StSti { code: code(88) };
    let result = handler.try_decode(&state, &mut tried);
    let next = handler.decode(&state, &mut decoded);
    assert_eq!(result, Ok(next));
    assert_eq!(tried, decoded);
    assert_eq!(tried.op_register(1), Register::ST6);

    let memory = legacy(0, 0, 6);
    let handler = OpCodeHandler::Mf { code16: code(7), code32: code(8) };
    let mut tried = Instruction::new();
    assert_eq!(
        handler.try_decode(&memory, &mut tried),
        Ok(Continuation::ReadMemory { operand: 0 })
    );
    assert_eq!(tried.code().ordinal(), 8);
    assert_eq!(tried.op_kind(0), OpKind::Memory);
}

#[test]
fn operand_counts_and_flags_of_the_handlers() {
    let pair = OpCodeHandler::StSti { code: code(1) };
    let reversed = OpCodeHandler::StiSt { code: code(1) };
    let single = OpCodeHandler::Sti { code: code(1) };
    let memory = OpCodeHandler::Mf { code16: code(1), code32: code(2) };
    assert_eq!(OpCodeHandler::Invalid.operand_count(), 0);
    assert_eq!(pair.operand_count(), 2);
    assert_eq!(reversed.operand_count(), 2);
    assert_eq!(single.operand_count(), 1);
    assert_eq!(memory.operand_count(), 1);
    assert!(!OpCodeHandler::Invalid.is_memory_capable());
    assert!(!pair.is_memory_capable());
    assert!(!reversed.is_memory_capable());
    assert!(!single.is_memory_capable());
    assert!(memory.is_memory_capable());
    assert!(!OpCodeHandler::Invalid.has_modrm());
    assert!(pair.has_modrm());
    assert!(reversed.has_modrm());
    assert!(single.has_modrm());
    assert!(memory.has_modrm());
}

#[test]
fn operands_at_or_above_the_count_stay_cleared() {
    let handlers = [
        OpCodeHandler::StSti { code: code(1) },
        OpCodeHandler::StiSt { code: code(2) },
        OpCodeHandler::Sti { code: code(3) },
        OpCodeHandler::Mf { code16: code(4), code32: code(5) },
    ];
    for handler in handlers {
        let state = legacy(1, 3, 4);
        let mut instruction = Instruction::new();
        handler.decode(&state, &mut instruction);
        for index in handler.operand_count()..MAX_OP_COUNT {
            assert_eq!(instruction.op_kind(index), OpKind::Register);
            assert_eq!(instruction.op_register(index), Register::NoRegister);
        }
    }
}

#[test]
fn complete_memory_operand_writes_the_description() {
    let handler = OpCodeHandler::Mf { code16: code(500), code32: code(501) };
    let state = DecoderState::from_modrm(EncodingKind::Legacy, OpSize::Size16, 0x84);
    let mut instruction = Instruction::new();
    let next = handler.decode(&state, &mut instruction);
    let operand = match next {
        Continuation::ReadMemory { operand } => operand,
        Continuation::Complete => panic!("the memory handler leaves its operand to be read"),
    };
    let memory =
        MemoryOperand::new(Register::ESP, Register::EDI, 2, 0xffff_fff0, Register::SS).unwrap();
    assert_eq!(complete_memory_operand(&mut instruction, operand, Ok(memory)), Ok(()));
    assert_eq!(instruction.code().ordinal(), 500);
    assert_eq!(instruction.op_kind(0), OpKind::Memory);
    assert_eq!(instruction.memory(), memory);
    for index in 1..MAX_OP_COUNT {
        assert_eq!(instruction.op_kind(index), OpKind::Register);
        assert_eq!(instruction.op_register(index), Register::NoRegister);
    }
}

#[test]
fn complete_memory_operand_hands_on_a_failure_and_clears_the_record() {
    for error in [DecodeError::Truncated, DecodeError::Reserved, DecodeError::InvariantViolation] {
        let handler = OpCodeHandler::Mf { code16: code(500), code32: code(501) };
        let state = DecoderState::from_modrm(EncodingKind::Legacy, OpSize::Size32, 0x84);
        let mut instruction = Instruction::new();
        handler.decode(&state, &mut instruction);
        assert_eq!(instruction.code().ordinal(), 501);
        assert_eq!(complete_memory_operand(&mut instruction, 0, Err(error)), Err(error));
        assert_eq!(instruction, Instruction::new());
        assert_eq!(instruction.code(), Code::invalid());
        assert_eq!(instruction.op_kind(0), OpKind::Register);
    }
}

#[test]
fn decoding_does_not_depend_on_reg() {
    for reg in 0..8u32 {
        let mut instruction = Instruction::new();
        OpCodeHandler::StiSt { code: code(9) }.decode(&legacy(3, reg, 1), &mut instruction);
        let mut reference = Instruction::new();
        OpCodeHandler::StiSt { code: code(9) }.decode(&legacy(3, 0, 1), &mut reference);
        assert_eq!(instruction, reference);
    }
}
