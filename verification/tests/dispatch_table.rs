use iced_x86::code::Code;
use iced_x86::handlers::{Continuation, DecodeError, OpCodeHandler};
use iced_x86::instruction::Instruction;
use iced_x86::memory::MemoryOperand;
use iced_x86::op_kind::OpKind;
use iced_x86::register::Register;
use iced_x86::state::{DecoderState, EncodingKind, OpSize};
use iced_x86::table::{routable, selector, DispatchTable, SELECTORS_PER_ENCODING};

fn code(n: u32) -> Code {
    Code::from_ordinal(n).unwrap()
}

fn legacy(byte: u8) -> DecoderState {
    DecoderState::from_modrm(EncodingKind::Legacy, OpSize::Size32, byte)
}

#[test]
fn selector_is_made_of_encoding_opcode_and_addressing_byte() {
    assert_eq!(selector(&legacy(0xC5), 0xD8), 0xD8C5);
    assert_eq!(selector(&legacy(0x00), 0x00), 0);
    assert_eq!(selector(&legacy(0xFF), 0xFF), 0xFFFF);
    let vex = DecoderState::from_modrm(EncodingKind::Vex, OpSize::Size32, 0x12);
    assert_eq!(selector(&vex, 0x34), 0x1_3412);
    let d3now = DecoderState::from_modrm(EncodingKind::D3now, OpSize::Size16, 0xFF);
    assert_eq!(selector(&d3now, 0xFF), 0x4_FFFF);
    let fields =
        DecoderState::from_fields(EncodingKind::Evex, OpSize::Size64, 2, 5, 3).unwrap();
    assert_eq!(selector(&fields, 0xDD), 2 * 65536 + 0xDD * 256 + 2 * 64 + 5 * 8 + 3);
}

#[test]
fn selector_does_not_depend_on_operand_size() {
    for size in [OpSize::Size16, OpSize::Size32, OpSize::Size64] {
        let state = DecoderState::from_modrm(EncodingKind::Legacy, size, 0x9A);
        assert_eq!(selector(&state, 0xDB), 0xDB9A);
    }
}

#[test]
fn selectors_of_different_instructions_differ() {
    let mut seen = vec![false; 5 * 65536];
    let encodings = [
        EncodingKind::Legacy,
        EncodingKind::Vex,
        EncodingKind::Evex,
        EncodingKind::Xop,
        EncodingKind::D3now,
    ];
    for encoding in encodings {
        for opcode in 0..=255u8 {
            for byte in 0..=255u8 {
                let state = DecoderState::from_modrm(encoding, OpSize::Size32, byte);
                let index = selector(&state, opcode) as usize;
                assert!(!seen[index]);
                seen[index] = true;
            }
        }
    }
    assert!(seen.iter().all(|&s| s));
}

#[test]
fn new_table_holds_no_handler() {
    let table = DispatchTable::new(512);
    assert_eq!(table.len(), 512);
    for index in 0..600u32 {
        assert_eq!(table.dispatch(index), OpCodeHandler::Invalid);
    }
    assert_eq!(table.dispatch(u32::MAX), OpCodeHandler::Invalid);
    assert_eq!(DispatchTable::new(0).len(), 0);
    assert_eq!(DispatchTable::new(0).dispatch(0), OpCodeHandler::Invalid);
}

#[test]
fn install_puts_one_handler_at_one_selector() {
    let mut table = DispatchTable::new(SELECTORS_PER_ENCODING);
    let handler = OpCodeHandler::StSti { code: code(600) };
    assert!(table.install(0xD8C1, handler));
    assert_eq!(table.len(), 65536);
    assert_eq!(table.dispatch(0xD8C1), handler);
    assert_eq!(table.dispatch(0xD8C0), OpCodeHandler::Invalid);
    assert_eq!(table.dispatch(0xD8C2), OpCodeHandler::Invalid);
    let other = OpCodeHandler::Sti { code: code(601) };
    assert!(table.install(0xD8C1, other));
    assert_eq!(table.dispatch(0xD8C1), other);
    assert!(table.install(0xD8C1, OpCodeHandler::Invalid));
    assert_eq!(table.dispatch(0xD8C1), OpCodeHandler::Invalid);
}

#[test]
fn install_refuses_a_selector_beyond_the_table() {
    let mut table = DispatchTable::new(16);
    let handler = OpCodeHandler::Sti { code: code(1) };
    assert!(table.install(15, handler));
    assert!(!table.install(16, handler));
    assert!(!table.install(u32::MAX, handler));
    assert!(!table.install(16, OpCodeHandler::Invalid));
    assert_eq!(table.len(), 16);
    assert_eq!(table.dispatch(16), OpCodeHandler::Invalid);
}

#[test]
fn install_refuses_a_memory_handler_at_a_register_form() {
    let mut table = DispatchTable::new(SELECTORS_PER_ENCODING);
    let memory = OpCodeHandler::Mf { code16: code(1), code32: code(2) };
    for byte in 0..=255u32 {
        let at = 0xD9 * 256 + byte;
        assert_eq!(table.install(at, memory), byte < 0xC0);
        assert_eq!(routable(memory, at), byte < 0xC0);
        let expected = if byte < 0xC0 { memory } else { OpCodeHandler::Invalid };
        assert_eq!(table.dispatch(at), expected);
    }
}

#[test]
fn install_refuses_a_legacy_handler_at_another_encoding() {
    let mut table = DispatchTable::new(5 * SELECTORS_PER_ENCODING + 10);
    let handler = OpCodeHandler::StiSt { code: code(3) };
    assert!(table.install(0xDCC0, handler));
    for encoding in 1..5u32 {
        let at = encoding * SELECTORS_PER_ENCODING + 0xDCC0;
        assert!(!table.install(at, handler));
        assert!(!routable(handler, at));
        assert!(routable(OpCodeHandler::Invalid, at));
        assert_eq!(table.dispatch(at), OpCodeHandler::Invalid);
    }
    assert!(!table.install(5 * SELECTORS_PER_ENCODING + 1, handler));
    assert!(table.install(5 * SELECTORS_PER_ENCODING + 1, OpCodeHandler::Invalid));
}

#[test]
fn table_decodes_with_the_handler_at_the_selector() {
    let mut table = DispatchTable::new(SELECTORS_PER_ENCODING);
    for rm in 0..8u32 {
        assert!(table.install(0xD8C0 + rm, OpCodeHandler::StSti { code: code(700) }));
        assert!(table.install(0xDCC0 + rm, OpCodeHandler::StiSt { code: code(701) }));
        assert!(table.install(0xDDC0 + rm, OpCodeHandler::Sti { code: code(702) }));
    }
    for mod_ in 0..3u32 {
        for rm in 0..8u32 {
            let at = 0xD900 + mod_ * 64 + 6 * 8 + rm;
            assert!(table.install(at, OpCodeHandler::Mf { code16: code(703), code32: code(704) }));
        }
    }

    let mut instruction = Instruction::new();
    assert_eq!(table.decode(&legacy(0xC5), 0xDC, &mut instruction), Ok(Continuation::Complete));
    assert_eq!(instruction.code().ordinal(), 701);
    assert_eq!(instruction.op_register(0), Register::ST5);
    assert_eq!(instruction.op_register(1), Register::ST0);

    instruction.reset();
    assert_eq!(table.decode(&legacy(0xC3), 0xD8, &mut instruction), Ok(Continuation::Complete));
    assert_eq!(instruction.code().ordinal(), 700);
    assert_eq!(instruction.op_register(0), Register::ST0);
    assert_eq!(instruction.op_register(1), Register::ST3);

    instruction.reset();
    assert_eq!(table.decode(&legacy(0xC7), 0xDD, &mut instruction), Ok(Continuation::Complete));
    assert_eq!(instruction.code().ordinal(), 702);
    assert_eq!(instruction.op_register(0), Register::ST7);

    instruction.reset();
    let narrow = DecoderState::from_modrm(EncodingKind::Legacy, OpSize::Size16, 0x74);
    assert_eq!(
        table.decode(&narrow, 0xD9, &mut instruction),
        Ok(Continuation::ReadMemory { operand: 0 })
    );
    assert_eq!(instruction.code().ordinal(), 703);
    assert_eq!(instruction.op_kind(0), OpKind::Memory);
}

#[test]
fn table_reports_a_reserved_encoding() {
    let mut table = DispatchTable::new(SELECTORS_PER_ENCODING);
    assert!(table.install(0xD8C0, OpCodeHandler::StSti { code: code(700) }));
    let mut instruction = Instruction::new();
    instruction.set_code(code(5));
    let before = instruction;
    assert_eq!(
        table.decode(&legacy(0xC1), 0xD8, &mut instruction),
        Err(DecodeError::Reserved)
    );
    assert_eq!(instruction, before);
    let vex = DecoderState::from_modrm(EncodingKind::Vex, OpSize::Size32, 0xC0);
    assert_eq!(table.decode(&vex, 0xD8, &mut instruction), Err(DecodeError::Reserved));
    assert_eq!(instruction, before);
    assert_eq!(
        DispatchTable::new(0).decode(&legacy(0xC0), 0xD8, &mut instruction),
        Err(DecodeError::Reserved)
    );
    assert_eq!(instruction, before);
}

#[test]
fn every_handler_of_a_table_accepts_what_is_routed_to_it() {
    let mut table = DispatchTable::new(2 * SELECTORS_PER_ENCODING);
    let handlers = [
        OpCodeHandler::StSti { code: code(1) },
        OpCodeHandler::StiSt { code: code(2) },
        OpCodeHandler::Sti { code: code(3) },
        OpCodeHandler::Mf { code16: code(4), code32: code(5) },
    ];
    for at in 0..2 * SELECTORS_PER_ENCODING {
        table.install(at, handlers[(at % 4) as usize]);
    }
    for encoding in [EncodingKind::Legacy, EncodingKind::Vex] {
        for opcode in [0x00u8, 0xD8, 0xD9, 0xFF] {
            for byte in 0..=255u8 {
                let state = DecoderState::from_modrm(encoding, OpSize::Size32, byte);
                let handler = table.dispatch(selector(&state, opcode));
                assert!(handler == OpCodeHandler::Invalid || handler.accepts(&state));
            }
        }
    }
}

fn fpu_table() -> DispatchTable {
    let mut table = DispatchTable::new(SELECTORS_PER_ENCODING);
    for rm in 0..8u32 {
        assert!(table.install(0xD8C0 + rm, OpCodeHandler::StSti { code: code(700) }));
    }
    for mod_ in 0..3u32 {
        for rm in 0..8u32 {
            let at = 0xD900 + mod_ * 64 + 6 * 8 + rm;
            assert!(table.install(at, OpCodeHandler::Mf { code16: code(703), code32: code(704) }));
        }
    }
    table
}

#[test]
fn decode_with_reads_the_memory_operand_once() {
    let table = fpu_table();
    let state = DecoderState::from_modrm(EncodingKind::Legacy, OpSize::Size64, 0xB3);
    let memory =
        MemoryOperand::new(Register::RBX, Register::NoRegister, 1, 0x7fff_0000, Register::DS)
            .unwrap();
    let mut calls = Vec::new();
    let mut instruction = Instruction::new();
    let result = table.decode_with(&state, 0xD9, &mut instruction, |given, operand| {
        calls.push((*given, operand));
        Ok(memory)
    });
    assert_eq!(result, Ok(()));
    assert_eq!(calls, vec![(state, 0)]);
    assert_eq!(instruction.code().ordinal(), 704);
    assert_eq!(instruction.op_kind(0), OpKind::Memory);
    assert_eq!(instruction.memory(), memory);
    assert_eq!(instruction.op_kind(1), OpKind::Register);
    assert_eq!(instruction.op_register(0), Register::NoRegister);
}

#[test]
fn decode_with_does_not_read_memory_for_register_forms() {
    let table = fpu_table();
    let mut calls = 0;
    let mut instruction = Instruction::new();
    let result = table.decode_with(&legacy(0xC2), 0xD8, &mut instruction, |_, _| {
        calls += 1;
        Err(DecodeError::Truncated)
    });
    assert_eq!(result, Ok(()));
    assert_eq!(calls, 0);
    assert_eq!(instruction.code().ordinal(), 700);
    assert_eq!(instruction.op_register(0), Register::ST0);
    assert_eq!(instruction.op_register(1), Register::ST2);
    assert_eq!(instruction.memory(), MemoryOperand::absent());
}

#[test]
fn decode_with_hands_on_the_failure_of_the_reader() {
    let table = fpu_table();
    let state = DecoderState::from_modrm(EncodingKind::Legacy, OpSize::Size16, 0x34);
    let mut instruction = Instruction::new();
    let result =
        table.decode_with(&state, 0xD9, &mut instruction, |_, _| Err(DecodeError::Truncated));
    assert_eq!(result, Err(DecodeError::Truncated));
    assert_eq!(instruction, Instruction::new());
}

#[test]
fn decode_with_reports_a_reserved_encoding_without_reading() {
    let table = fpu_table();
    let mut calls = 0;
    let mut instruction = Instruction::new();
    instruction.set_code(code(9));
    let before = instruction;
    let result = table.decode_with(&legacy(0xF3), 0xD9, &mut instruction, |_, _| {
        calls += 1;
        Ok(MemoryOperand::absent())
    });
    assert_eq!(result, Err(DecodeError::Reserved));
    assert_eq!(calls, 0);
    assert_eq!(instruction, before);
}
