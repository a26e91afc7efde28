use avm1::opcode::OpCode;

#[test]
fn table_holds_exactly_one_hundred_codes() {
    let mut found = 0;
    for byte in 0..=255u8 {
        if let Some(op) = OpCode::from_u8(byte) {
            assert_eq!(op.code(), byte);
            found += 1;
        }
    }
    assert_eq!(found, 100);
}

#[test]
fn table_entries_at_the_edges() {
    assert_eq!(OpCode::from_u8(0x00), Some(OpCode::End));
    assert_eq!(OpCode::from_u8(0x01), None);
    assert_eq!(OpCode::from_u8(0x04), Some(OpCode::NextFrame));
    assert_eq!(OpCode::from_u8(0x69), Some(OpCode::Extends));
    assert_eq!(OpCode::from_u8(0x6A), None);
    assert_eq!(OpCode::from_u8(0x80), None);
    assert_eq!(OpCode::from_u8(0x81), Some(OpCode::GotoFrame));
    assert_eq!(OpCode::from_u8(0x96), Some(OpCode::Push));
    assert_eq!(OpCode::from_u8(0x9B), Some(OpCode::DefineFunction));
    assert_eq!(OpCode::from_u8(0x8E), Some(OpCode::DefineFunction2));
    assert_eq!(OpCode::from_u8(0x8F), Some(OpCode::Try));
    assert_eq!(OpCode::from_u8(0x9F), Some(OpCode::GotoFrame2));
    assert_eq!(OpCode::from_u8(0xA0), None);
    assert_eq!(OpCode::from_u8(0xFF), None);
    assert_eq!(OpCode::Trace.code(), 0x26);
}
