use chip8::decode::Instruction;

#[test]
fn decoder_splits_fields() {
    let ins = Instruction::new(0x12, 0x34);
    assert_eq!(ins.first, 0x1);
    assert_eq!(ins.x, 0x2);
    assert_eq!(ins.y, 0x3);
    assert_eq!(ins.n, 0x4);
    assert_eq!(ins.nn, 0x34);
    assert_eq!(ins.nnn, 0x234);
}

#[test]
fn decoder_handles_extreme_bytes() {
    let ins = Instruction::new(0x00, 0x00);
    assert_eq!(ins.first, 0x0);
    assert_eq!(ins.x, 0x0);
    assert_eq!(ins.y, 0x0);
    assert_eq!(ins.n, 0x0);
    assert_eq!(ins.nn, 0x00);
    assert_eq!(ins.nnn, 0x000);

    let ins = Instruction::new(0xFF, 0xFF);
    assert_eq!(ins.first, 0xF);
    assert_eq!(ins.x, 0xF);
    assert_eq!(ins.y, 0xF);
    assert_eq!(ins.n, 0xF);
    assert_eq!(ins.nn, 0xFF);
    assert_eq!(ins.nnn, 0xFFF);
}

#[test]
fn decoder_recomposes_operands_for_all_byte_pairs() {
    for b0 in 0..=255u16 {
        for b1 in 0..=255u16 {
            let ins = Instruction::new(b0 as u8, b1 as u8);
            assert_eq!(ins.nnn, (((b0 as usize) & 0xF) << 8) | (b1 as usize));
            assert_eq!(ins.nn, b1 as u8);
        }
    }
}
