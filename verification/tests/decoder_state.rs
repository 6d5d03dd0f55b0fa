use iced_x86::state::{DecoderState, EncodingKind, OpSize};

#[test]
fn from_modrm_splits_the_addressing_byte() {
    let state = DecoderState::from_modrm(EncodingKind::Legacy, OpSize::Size32, 0xC5);
    assert_eq!(state.mod_(), 3);
    assert_eq!(state.reg(), 0);
    assert_eq!(state.rm(), 5);
    assert_eq!(state.encoding(), EncodingKind::Legacy);
    assert_eq!(state.operand_size(), OpSize::Size32);
    assert!(state.is_register_direct());

    let state = DecoderState::from_modrm(EncodingKind::Vex, OpSize::Size16, 0x7A);
    assert_eq!(state.mod_(), 1);
    assert_eq!(state.reg(), 7);
    assert_eq!(state.rm(), 2);
    assert_eq!(state.encoding(), EncodingKind::Vex);
    assert_eq!(state.operand_size(), OpSize::Size16);
    assert!(!state.is_register_direct());
}

#[test]
fn from_modrm_covers_every_byte() {
    for byte in 0..=255u8 {
        let state = DecoderState::from_modrm(EncodingKind::Legacy, OpSize::Size64, byte);
        assert_eq!(state.mod_(), u32::from(byte) / 64);
        assert_eq!(state.reg(), u32::from(byte) / 8 % 8);
        assert_eq!(state.rm(), u32::from(byte) % 8);
        assert_eq!(state.is_register_direct(), byte >= 0xC0);
    }
}

#[test]
fn from_fields_agrees_with_from_modrm() {
    for byte in 0..=255u8 {
        let split = DecoderState::from_modrm(EncodingKind::Evex, OpSize::Size32, byte);
        let given = DecoderState::from_fields(
            EncodingKind::Evex,
            OpSize::Size32,
            u32::from(byte) >> 6,
            (u32::from(byte) >> 3) & 7,
            u32::from(byte) & 7,
        );
        assert_eq!(given, Some(split));
    }
}

#[test]
fn from_fields_rejects_fields_that_are_too_wide() {
    assert!(DecoderState::from_fields(EncodingKind::Legacy, OpSize::Size32, 3, 7, 7).is_some());
    assert_eq!(DecoderState::from_fields(EncodingKind::Legacy, OpSize::Size32, 4, 0, 0), None);
    assert_eq!(DecoderState::from_fields(EncodingKind::Legacy, OpSize::Size32, 0, 8, 0), None);
    assert_eq!(DecoderState::from_fields(EncodingKind::Legacy, OpSize::Size32, 0, 0, 8), None);
    assert_eq!(
        DecoderState::from_fields(EncodingKind::Legacy, OpSize::Size32, u32::MAX, 0, 0),
        None
    );
}
