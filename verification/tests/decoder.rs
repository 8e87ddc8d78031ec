use chip_8::Instruction;

#[test]
fn decodes_flow_control_opcodes() {
    assert_eq!(Instruction::parse(0x00E0), Instruction::Cls);
    assert_eq!(Instruction::parse(0x00EE), Instruction::Ret);
    assert_eq!(Instruction::parse(0x0123), Instruction::Sys(0x123));
    assert_eq!(Instruction::parse(0x0000), Instruction::Sys(0x000));
    assert_eq!(Instruction::parse(0x0FFF), Instruction::Sys(0xFFF));
    assert_eq!(Instruction::parse(0x1ABC), Instruction::Jp(0xABC));
    assert_eq!(Instruction::parse(0x2DEF), Instruction::Call(0xDEF));
    assert_eq!(Instruction::parse(0xB321), Instruction::JpV0(0x321));
}

#[test]
fn decodes_skip_opcodes() {
    assert_eq!(Instruction::parse(0x3A42), Instruction::SeByte(0xA, 0x42));
    assert_eq!(Instruction::parse(0x4B99), Instruction::SneByte(0xB, 0x99));
    assert_eq!(Instruction::parse(0x5120), Instruction::Se(1, 2));
    assert_eq!(Instruction::parse(0x9EF0), Instruction::Sne(0xE, 0xF));
}

#[test]
fn decodes_load_and_add_byte_opcodes() {
    assert_eq!(Instruction::parse(0x6A12), Instruction::LdByte(0xA, 0x12));
    assert_eq!(Instruction::parse(0x60FF), Instruction::LdByte(0, 0xFF));
    assert_eq!(Instruction::parse(0x6F00), Instruction::LdByte(0xF, 0));
    assert_eq!(Instruction::parse(0x7C0A), Instruction::AddByte(0xC, 0x0A));
}

#[test]
fn decodes_register_to_register_opcodes() {
    assert_eq!(Instruction::parse(0x8120), Instruction::Ld(1, 2));
    assert_eq!(Instruction::parse(0x8121), Instruction::Or(1, 2));
    assert_eq!(Instruction::parse(0x8122), Instruction::And(1, 2));
    assert_eq!(Instruction::parse(0x8123), Instruction::Xor(1, 2));
    assert_eq!(Instruction::parse(0x8124), Instruction::Add(1, 2));
    assert_eq!(Instruction::parse(0x8125), Instruction::Sub(1, 2));
    assert_eq!(Instruction::parse(0x8126), Instruction::Shr(1));
    assert_eq!(Instruction::parse(0x8127), Instruction::Subn(1, 2));
    assert_eq!(Instruction::parse(0x812E), Instruction::Shl(1));
    assert_eq!(Instruction::parse(0x8FE4), Instruction::Add(0xF, 0xE));
}

#[test]
fn shifts_ignore_the_second_register_nibble() {
    assert_eq!(Instruction::parse(0x8A06), Instruction::Shr(0xA));
    assert_eq!(Instruction::parse(0x8AF6), Instruction::Shr(0xA));
    assert_eq!(Instruction::parse(0x8A0E), Instruction::Shl(0xA));
    assert_eq!(Instruction::parse(0x8AFE), Instruction::Shl(0xA));
}

#[test]
fn decodes_index_random_and_timer_opcodes() {
    assert_eq!(Instruction::parse(0xA2F0), Instruction::Ldi(0x2F0));
    assert_eq!(Instruction::parse(0xC50F), Instruction::Rnd(5, 0x0F));
    assert_eq!(Instruction::parse(0xF307), Instruction::LdVxDelay(3));
    assert_eq!(Instruction::parse(0xF415), Instruction::LdDelayVx(4));
}

#[test]
fn opcodes_outside_the_table_are_unknown() {
    for op in [
        0x5121u16, 0x512F, 0x8128, 0x8129, 0x812A, 0x812B, 0x812C, 0x812D, 0x812F, 0x9121, 0xD123,
        0xE19E, 0xE1A1, 0xF000, 0xF10A, 0xF118, 0xF11E, 0xF129, 0xF133, 0xF155, 0xF165, 0xFFFF,
    ] {
        assert_eq!(Instruction::parse(op), Instruction::Unknown(op));
    }
}

#[test]
fn every_opcode_decodes_by_the_table() {
    for word in 0..=0xFFFFu32 {
        let op = word as u16;
        let class = op >> 12;
        let x = ((op >> 8) & 0xF) as usize;
        let y = ((op >> 4) & 0xF) as usize;
        let n = op & 0xF;
        let kk = (op & 0xFF) as u8;
        let nnn = op & 0xFFF;
        let expected = match (class, n) {
            _ if op == 0x00E0 => Instruction::Cls,
            _ if op == 0x00EE => Instruction::Ret,
            (0x0, _) => Instruction::Sys(nnn),
            (0x1, _) => Instruction::Jp(nnn),
            (0x2, _) => Instruction::Call(nnn),
            (0x3, _) => Instruction::SeByte(x, kk),
            (0x4, _) => Instruction::SneByte(x, kk),
            (0x5, 0) => Instruction::Se(x, y),
            (0x6, _) => Instruction::LdByte(x, kk),
            (0x7, _) => Instruction::AddByte(x, kk),
            (0x8, 0x0) => Instruction::Ld(x, y),
            (0x8, 0x1) => Instruction::Or(x, y),
            (0x8, 0x2) => Instruction::And(x, y),
            (0x8, 0x3) => Instruction::Xor(x, y),
            (0x8, 0x4) => Instruction::Add(x, y),
            (0x8, 0x5) => Instruction::Sub(x, y),
            (0x8, 0x6) => Instruction::Shr(x),
            (0x8, 0x7) => Instruction::Subn(x, y),
            (0x8, 0xE) => Instruction::Shl(x),
            (0x9, 0) => Instruction::Sne(x, y),
            (0xA, _) => Instruction::Ldi(nnn),
            (0xB, _) => Instruction::JpV0(nnn),
            (0xC, _) => Instruction::Rnd(x, kk),
            (0xF, _) if kk == 0x07 => Instruction::LdVxDelay(x),
            (0xF, _) if kk == 0x15 => Instruction::LdDelayVx(x),
            _ => Instruction::Unknown(op),
        };
        assert_eq!(Instruction::parse(op), expected);
    }
}

#[test]
fn decoding_is_repeatable() {
    for op in [0x0000u16, 0x00E0, 0x6A12, 0x8AB4, 0xC0FF, 0xD000, 0xFFFF] {
        assert_eq!(Instruction::parse(op), Instruction::parse(op));
    }
}
