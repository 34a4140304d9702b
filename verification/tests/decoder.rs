use chip_8::opcode::{decode, decode_parts, DataRegister, Kk, Nnn, Opcode, N};

#[test]
fn test_decode_parts() {
    let (nnn, kk, x, y, n) = decode_parts(0b1111_1110_1100_1000);

    assert_eq!(nnn.0, 0b1110_1100_1000);
    assert_eq!(kk.0, 0b1100_1000);
    assert_eq!(x, DataRegister::VE); // 14 (0b1110)
    assert_eq!(y, DataRegister::VC); // 12 (0b1100)
    assert_eq!(n.0, 0b1000);

    let x: u32 = 456;
    let ones: u32 = x % 10;
    let tens: u32 = x / 10 % 10;
    let hundreds: u32 = x / 100 % 10;

    assert_eq!(hundreds, 4);
    assert_eq!(tens, 5);
    assert_eq!(ones, 6);
}

#[test]
fn test_decode_skip_if_equal() {
    assert_eq!(
        decode(0x3A12),
        Ok(Opcode::SE3(DataRegister::VA, Kk(0x12)))
    );
}

#[test]
fn test_decode_draw() {
    assert_eq!(
        decode(0xD012),
        Ok(Opcode::DRW(DataRegister::V0, DataRegister::V1, N(2)))
    );
}

#[test]
fn test_decode_zero_operand_forms() {
    assert_eq!(decode(0x00E0), Ok(Opcode::DisplayClear));
    assert_eq!(decode(0x00EE), Ok(Opcode::RET));
    assert_eq!(decode(0x00C0), Ok(Opcode::SYS(Nnn(0x0C0))));
}

#[test]
fn test_decode_families() {
    assert_eq!(decode(0x1234), Ok(Opcode::JP(Nnn(0x234))));
    assert_eq!(decode(0x2ABC), Ok(Opcode::CALL(Nnn(0xABC))));
    assert_eq!(
        decode(0x4512),
        Ok(Opcode::SNE4(DataRegister::V5, Kk(0x12)))
    );
    assert_eq!(
        decode(0x5120),
        Ok(Opcode::SE5(DataRegister::V1, DataRegister::V2))
    );
    assert_eq!(decode(0x6A55), Ok(Opcode::LD6(DataRegister::VA, Kk(0x55))));
    assert_eq!(decode(0x7A01), Ok(Opcode::ADD(DataRegister::VA, Kk(0x01))));
    assert_eq!(
        decode(0x8124),
        Ok(Opcode::ADD8(DataRegister::V1, DataRegister::V2))
    );
    assert_eq!(
        decode(0x8125),
        Ok(Opcode::SUB8(DataRegister::V1, DataRegister::V2))
    );
    assert_eq!(
        decode(0x812E),
        Ok(Opcode::SHL8(DataRegister::V1, DataRegister::V2))
    );
    assert_eq!(
        decode(0x9120),
        Ok(Opcode::SNE(DataRegister::V1, DataRegister::V2))
    );
    assert_eq!(decode(0xA123), Ok(Opcode::LDI(Nnn(0x123))));
    assert_eq!(decode(0xB123), Ok(Opcode::JPB(Nnn(0x123))));
    assert_eq!(decode(0xC3F0), Ok(Opcode::RND(DataRegister::V3, Kk(0xF0))));
    assert_eq!(decode(0xE19E), Ok(Opcode::SKP(DataRegister::V1)));
    assert_eq!(decode(0xE1A1), Ok(Opcode::SKNP(DataRegister::V1)));
    assert_eq!(decode(0xF107), Ok(Opcode::LdDtToReg(DataRegister::V1)));
    assert_eq!(decode(0xF10A), Ok(Opcode::LdKey(DataRegister::V1)));
    assert_eq!(decode(0xF115), Ok(Opcode::LdDt(DataRegister::V1)));
    assert_eq!(decode(0xF118), Ok(Opcode::LdSt(DataRegister::V1)));
    assert_eq!(decode(0xF11E), Ok(Opcode::AddI(DataRegister::V1)));
    assert_eq!(decode(0xF129), Ok(Opcode::LdF(DataRegister::V1)));
    assert_eq!(decode(0xF133), Ok(Opcode::LdB(DataRegister::V1)));
    assert_eq!(decode(0xF155), Ok(Opcode::LdAllI(DataRegister::V1)));
    assert_eq!(decode(0xF165), Ok(Opcode::LdAll(DataRegister::V1)));
}

#[test]
fn test_decode_invalid_carries_instruction() {
    assert_eq!(decode(0x8128), Err(0x8128));
    assert_eq!(decode(0x812F), Err(0x812F));
    assert_eq!(decode(0xE100), Err(0xE100));
    assert_eq!(decode(0xF100), Err(0xF100));
    assert_eq!(decode(0xF1FF), Err(0xF1FF));
}

#[test]
fn test_decode_is_total() {
    // Every 16-bit value decodes without panicking, to a known opcode or the
    // explicit invalid signal carrying the instruction itself.
    for instruction in 0..=0xFFFFu16 {
        match decode(instruction) {
            Ok(_) => {}
            Err(raw) => assert_eq!(raw, instruction),
        }
    }
}
