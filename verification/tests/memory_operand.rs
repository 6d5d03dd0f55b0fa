use iced_x86::memory::{is_scale, is_segment, MemoryOperand};
use iced_x86::register::Register;

#[test]
fn memory_operand_keeps_its_parts() {
    let memory =
        MemoryOperand::new(Register::RBX, Register::RSI, 4, 0x1234_5678_9abc_def0, Register::FS)
            .unwrap();
    assert_eq!(memory.base(), Register::RBX);
    assert_eq!(memory.index(), Register::RSI);
    assert_eq!(memory.scale(), 4);
    assert_eq!(memory.displacement(), 0x1234_5678_9abc_def0);
    assert_eq!(memory.segment(), Register::FS);
}

#[test]
fn memory_operand_scale_is_one_two_four_or_eight() {
    for scale in 0..20u32 {
        let memory =
            MemoryOperand::new(Register::EAX, Register::ECX, scale, 0, Register::NoRegister);
        assert_eq!(memory.is_some(), scale == 1 || scale == 2 || scale == 4 || scale == 8);
        assert_eq!(is_scale(scale), memory.is_some());
    }
    assert!(!is_scale(16));
    assert!(!is_scale(u32::MAX));
}

#[test]
fn memory_operand_segment_is_a_segment_register_or_absent() {
    for n in 0..241u32 {
        let segment = Register::from_ordinal(n).unwrap();
        let memory = MemoryOperand::new(Register::EAX, Register::NoRegister, 1, 0, segment);
        let expected = n == 0 || (71..=76).contains(&n);
        assert_eq!(memory.is_some(), expected);
        assert_eq!(is_segment(segment), expected);
    }
}

#[test]
fn absent_memory_operand_has_no_part() {
    let memory = MemoryOperand::absent();
    assert_eq!(memory.base(), Register::NoRegister);
    assert_eq!(memory.index(), Register::NoRegister);
    assert_eq!(memory.scale(), 1);
    assert_eq!(memory.displacement(), 0);
    assert_eq!(memory.segment(), Register::NoRegister);
    assert_eq!(
        MemoryOperand::new(Register::NoRegister, Register::NoRegister, 1, 0, Register::NoRegister),
        Some(memory)
    );
}
