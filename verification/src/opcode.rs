//! Instruction decoding: a pure, total function from a 16-bit instruction to a
//! tagged `Opcode` with validated operands, or an explicit invalid-instruction
//! signal carrying the raw instruction.

use vstd::prelude::*;

verus! {

/// One of the sixteen byte-sized general registers.
#[derive(Debug, Clone, Copy, PartialEq, Eq, Structural)]
pub enum DataRegister {
    V0, V1, V2, V3, V4, V5, V6, V7,
    V8, V9, VA, VB, VC, VD, VE, VF,
}

impl DataRegister {
    /// The index of this register, 0 through 15.
    pub open spec fn spec_num(self) -> u8 {
        match self {
            DataRegister::V0 => 0,
            DataRegister::V1 => 1,
            DataRegister::V2 => 2,
            DataRegister::V3 => 3,
            DataRegister::V4 => 4,
            DataRegister::V5 => 5,
            DataRegister::V6 => 6,
            DataRegister::V7 => 7,
            DataRegister::V8 => 8,
            DataRegister::V9 => 9,
            DataRegister::VA => 10,
            DataRegister::VB => 11,
            DataRegister::VC => 12,
            DataRegister::VD => 13,
            DataRegister::VE => 14,
            DataRegister::VF => 15,
        }
    }

    /// The register whose index is `n`; meaningful for `n < 16`.
    pub open spec fn spec_from(n: u8) -> DataRegister
        recommends
            n < 16,
    {
        if n == 0 { DataRegister::V0 }
        else if n == 1 { DataRegister::V1 }
        else if n == 2 { DataRegister::V2 }
        else if n == 3 { DataRegister::V3 }
        else if n == 4 { DataRegister::V4 }
        else if n == 5 { DataRegister::V5 }
        else if n == 6 { DataRegister::V6 }
        else if n == 7 { DataRegister::V7 }
        else if n == 8 { DataRegister::V8 }
        else if n == 9 { DataRegister::V9 }
        else if n == 10 { DataRegister::VA }
        else if n == 11 { DataRegister::VB }
        else if n == 12 { DataRegister::VC }
        else if n == 13 { DataRegister::VD }
        else if n == 14 { DataRegister::VE }
        else { DataRegister::VF }
    }

    pub fn from(n: u8) -> (r: Self)
        requires
            n < 16,
        ensures
            r == DataRegister::spec_from(n),
            r.spec_num() == n,
    {
        match n {
            0x0 => DataRegister::V0, 0x1 => DataRegister::V1, 0x2 => DataRegister::V2, 0x3 => DataRegister::V3,
            0x4 => DataRegister::V4, 0x5 => DataRegister::V5, 0x6 => DataRegister::V6, 0x7 => DataRegister::V7,
            0x8 => DataRegister::V8, 0x9 => DataRegister::V9, 0xa => DataRegister::VA, 0xb => DataRegister::VB,
            0xc => DataRegister::VC, 0xd => DataRegister::VD, 0xe => DataRegister::VE, _ => DataRegister::VF,
        }
    }

    /// The index of this register as a usize, for array addressing.
    pub fn num(&self) -> (n: usize)
        ensures
            n == self.spec_num(),
            n < 16,
    {
        match self {
            DataRegister::V0 => 0,
            DataRegister::V1 => 1,
            DataRegister::V2 => 2,
            DataRegister::V3 => 3,
            DataRegister::V4 => 4,
            DataRegister::V5 => 5,
            DataRegister::V6 => 6,
            DataRegister::V7 => 7,
            DataRegister::V8 => 8,
            DataRegister::V9 => 9,
            DataRegister::VA => 10,
            DataRegister::VB => 11,
            DataRegister::VC => 12,
            DataRegister::VD => 13,
            DataRegister::VE => 14,
            DataRegister::VF => 15,
        }
    }
}

/// A 12-bit address operand (bits 0-11 of an instruction).
#[derive(Debug, Clone, Copy, PartialEq, Eq, Structural)]
pub struct Nnn(pub u16);

/// An 8-bit immediate operand (bits 0-7 of an instruction).
#[derive(Debug, Clone, Copy, PartialEq, Eq, Structural)]
pub struct Kk(pub u8);

/// A 4-bit count operand (bits 0-3 of an instruction).
#[derive(Debug, Clone, Copy, PartialEq, Eq, Structural)]
pub struct N(pub u8);

/// The decoded, structured representation of one fetched instruction.
#[derive(Debug, Clone, Copy, PartialEq, Eq, Structural)]
pub enum Opcode {
    DisplayClear,
    RET,
    SKP(DataRegister),
    SKNP(DataRegister),
    CALL(Nnn),
    SYS(Nnn),
    LDI(Nnn),
    LD6(DataRegister, Kk),
    LD8(DataRegister, DataRegister),
    LdDtToReg(DataRegister),
    LdDt(DataRegister),
    LdSt(DataRegister),
    LdB(DataRegister),
    LdF(DataRegister),
    LdAll(DataRegister),
    LdAllI(DataRegister),
    LdKey(DataRegister),
    OR8(DataRegister, DataRegister),
    AND8(DataRegister, DataRegister),
    XOR8(DataRegister, DataRegister),
    ADD8(DataRegister, DataRegister),
    ADD(DataRegister, Kk),
    AddI(DataRegister),
    SUB8(DataRegister, DataRegister),
    SHR8(DataRegister, DataRegister),
    SUBN8(DataRegister, DataRegister),
    SHL8(DataRegister, DataRegister),
    SNE4(DataRegister, Kk),
    SE5(DataRegister, DataRegister),
    SNE(DataRegister, DataRegister),
    SE3(DataRegister, Kk),
    JP(Nnn),
    JPB(Nnn),
    DRW(DataRegister, DataRegister, N),
    RND(DataRegister, Kk),
}

/// Bits 0-11 of an instruction: the address operand.
pub open spec fn spec_nnn(instruction: u16) -> u16 {
    instruction & 0x0fff
}

/// Bits 0-7 of an instruction: the immediate operand.
pub open spec fn spec_kk(instruction: u16) -> u8 {
    (instruction & 0x00ff) as u8
}

/// Bits 8-11 of an instruction: the first register operand.
pub open spec fn spec_x(instruction: u16) -> u8 {
    ((instruction >> 8) & 0xf) as u8
}

/// Bits 4-7 of an instruction: the second register operand.
pub open spec fn spec_y(instruction: u16) -> u8 {
    ((instruction >> 4) & 0xf) as u8
}

/// Bits 0-3 of an instruction: the count operand.
pub open spec fn spec_n(instruction: u16) -> u8 {
    (instruction & 0x000f) as u8
}

/// The five operand fields every instruction carries, extracted.
pub fn decode_parts(instruction: u16) -> (r: (Nnn, Kk, DataRegister, DataRegister, N))
    ensures
        r.0.0 == spec_nnn(instruction),
        r.1.0 == spec_kk(instruction),
        r.2 == DataRegister::spec_from(spec_x(instruction)),
        r.3 == DataRegister::spec_from(spec_y(instruction)),
        r.4.0 == spec_n(instruction),
{
    proof {
        assert(((instruction >> 8) & 0xf) < 16) by (bit_vector);
        assert(((instruction >> 4) & 0xf) < 16) by (bit_vector);
    }
    (
        Nnn(instruction & 0x0fff),
        Kk((instruction & 0x00ff) as u8),
        DataRegister::from(((instruction >> 8) & 0xf) as u8),
        DataRegister::from(((instruction >> 4) & 0xf) as u8),
        N((instruction & 0x000f) as u8),
    )
}

/// What `decode` returns for every 16-bit instruction: a known `Opcode`, or
/// the raw instruction itself as the invalid-instruction signal.
pub open spec fn spec_decode(instruction: u16) -> Result<Opcode, u16> {
    let nnn = Nnn(spec_nnn(instruction));
    let kk = Kk(spec_kk(instruction));
    let x = DataRegister::spec_from(spec_x(instruction));
    let y = DataRegister::spec_from(spec_y(instruction));
    let n = N(spec_n(instruction));
    let top = (instruction >> 12) & 0xf;
    if top == 0x0 {
        if instruction == 0x00e0 { Ok(Opcode::DisplayClear) }
        else if instruction == 0x00ee { Ok(Opcode::RET) }
        else { Ok(Opcode::SYS(nnn)) }
    } else if top == 0x1 { Ok(Opcode::JP(nnn)) }
    else if top == 0x2 { Ok(Opcode::CALL(nnn)) }
    else if top == 0x3 { Ok(Opcode::SE3(x, kk)) }
    else if top == 0x4 { Ok(Opcode::SNE4(x, kk)) }
    else if top == 0x5 { Ok(Opcode::SE5(x, y)) }
    else if top == 0x6 { Ok(Opcode::LD6(x, kk)) }
    else if top == 0x7 { Ok(Opcode::ADD(x, kk)) }
    else if top == 0x8 {
        if n.0 == 0x0 { Ok(Opcode::LD8(x, y)) }
        else if n.0 == 0x1 { Ok(Opcode::OR8(x, y)) }
        else if n.0 == 0x2 { Ok(Opcode::AND8(x, y)) }
        else if n.0 == 0x3 { Ok(Opcode::XOR8(x, y)) }
        else if n.0 == 0x4 { Ok(Opcode::ADD8(x, y)) }
        else if n.0 == 0x5 { Ok(Opcode::SUB8(x, y)) }
        else if n.0 == 0x6 { Ok(Opcode::SHR8(x, y)) }
        else if n.0 == 0x7 { Ok(Opcode::SUBN8(x, y)) }
        else if n.0 == 0xe { Ok(Opcode::SHL8(x, y)) }
        else { Err(instruction) }
    } else if top == 0x9 { Ok(Opcode::SNE(x, y)) }
    else if top == 0xa { Ok(Opcode::LDI(nnn)) }
    else if top == 0xb { Ok(Opcode::JPB(nnn)) }
    else if top == 0xc { Ok(Opcode::RND(x, kk)) }
    else if top == 0xd { Ok(Opcode::DRW(x, y, n)) }
    else if top == 0xe {
        if kk.0 == 0x9e { Ok(Opcode::SKP(x)) }
        else if kk.0 == 0xa1 { Ok(Opcode::SKNP(x)) }
        else { Err(instruction) }
    } else if top == 0xf {
        if kk.0 == 0x07 { Ok(Opcode::LdDtToReg(x)) }
        else if kk.0 == 0x0a { Ok(Opcode::LdKey(x)) }
        else if kk.0 == 0x15 { Ok(Opcode::LdDt(x)) }
        else if kk.0 == 0x18 { Ok(Opcode::LdSt(x)) }
        else if kk.0 == 0x1e { Ok(Opcode::AddI(x)) }
        else if kk.0 == 0x29 { Ok(Opcode::LdF(x)) }
        else if kk.0 == 0x33 { Ok(Opcode::LdB(x)) }
        else if kk.0 == 0x55 { Ok(Opcode::LdAllI(x)) }
        else if kk.0 == 0x65 { Ok(Opcode::LdAll(x)) }
        else { Err(instruction) }
    } else { Err(instruction) }
}

/// Decode one instruction. Total over all 16-bit values: every instruction
/// yields a known `Opcode`, or an invalid-instruction error carrying the raw
/// instruction value for diagnostics.
pub fn decode(instruction: u16) -> (r: Result<Opcode, u16>)
    ensures
        r == spec_decode(instruction),
{
    let (nnn, kk, x, y, n) = decode_parts(instruction);

    match (instruction >> 12) & 0xf {
        0x0 => match instruction {
            0x00e0 => Ok(Opcode::DisplayClear),
            0x00ee => Ok(Opcode::RET),
            _ => Ok(Opcode::SYS(nnn)),
        },
        0x1 => Ok(Opcode::JP(nnn)),
        0x2 => Ok(Opcode::CALL(nnn)),
        0x3 => Ok(Opcode::SE3(x, kk)),
        0x4 => Ok(Opcode::SNE4(x, kk)),
        0x5 => Ok(Opcode::SE5(x, y)),
        0x6 => Ok(Opcode::LD6(x, kk)),
        0x7 => Ok(Opcode::ADD(x, kk)),
        0x8 => match n.0 {
            0x0 => Ok(Opcode::LD8(x, y)),
            0x1 => Ok(Opcode::OR8(x, y)),
            0x2 => Ok(Opcode::AND8(x, y)),
            0x3 => Ok(Opcode::XOR8(x, y)),
            0x4 => Ok(Opcode::ADD8(x, y)),
            0x5 => Ok(Opcode::SUB8(x, y)),
            0x6 => Ok(Opcode::SHR8(x, y)),
            0x7 => Ok(Opcode::SUBN8(x, y)),
            0xe => Ok(Opcode::SHL8(x, y)),
            _ => invalid_instruction(instruction),
        },
        0x9 => Ok(Opcode::SNE(x, y)),
        0xa => Ok(Opcode::LDI(nnn)),
        0xb => Ok(Opcode::JPB(nnn)),
        0xc => Ok(Opcode::RND(x, kk)),
        0xd => Ok(Opcode::DRW(x, y, n)),
        0xe => match kk.0 {
            0x9e => Ok(Opcode::SKP(x)),
            0xa1 => Ok(Opcode::SKNP(x)),
            _ => invalid_instruction(instruction),
        },
        0xf => match kk.0 {
            0x07 => Ok(Opcode::LdDtToReg(x)),
            0x0a => Ok(Opcode::LdKey(x)),
            0x15 => Ok(Opcode::LdDt(x)),
            0x18 => Ok(Opcode::LdSt(x)),
            0x1e => Ok(Opcode::AddI(x)),
            0x29 => Ok(Opcode::LdF(x)),
            0x33 => Ok(Opcode::LdB(x)),
            0x55 => Ok(Opcode::LdAllI(x)),
            0x65 => Ok(Opcode::LdAll(x)),
            _ => invalid_instruction(instruction),
        },
        _ => invalid_instruction(instruction),
    }
}

/// Law: decoding is total over all 16-bit values: every instruction yields a
/// known opcode or the explicit invalid signal, and the signal carries the
/// offending instruction itself, never another value.
pub proof fn lemma_decode_total(instruction: u16)
    ensures
        spec_decode(instruction) is Ok || spec_decode(instruction) == Err::<Opcode, u16>(
            instruction,
        ),
{
}

/// The invalid-instruction signal: the raw instruction value, for diagnostics.
pub fn invalid_instruction(instruction: u16) -> (r: Result<Opcode, u16>)
    ensures
        r == Err::<Opcode, u16>(instruction),
{
    Err(instruction)
}

} // verus!
