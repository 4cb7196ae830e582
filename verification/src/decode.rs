use vstd::prelude::*;

verus! {

/// The operations of the instruction set, one per opcode pattern.
#[derive(Clone, Copy, Debug, PartialEq, Eq)]
pub enum Opcode {
    /// `00E0`
    Cls,
    /// `00EE`
    Ret,
    /// `1NNN`
    Jp,
    /// `2NNN`
    Call,
    /// `3XNN`
    Se,
    /// `4XNN`
    Sne,
    /// `5XY0`
    SeReg,
    /// `6XNN`
    Ld,
    /// `7XNN`
    Add,
    /// `8XY0`
    LdReg,
    /// `8XY1`
    Or,
    /// `8XY2`
    And,
    /// `8XY3`
    Xor,
    /// `8XY4`
    AddCarry,
    /// `8XY5`
    Sub,
    /// `8XY6`
    Shr,
    /// `8XY7`
    Subn,
    /// `8XYE`
    Shl,
    /// `9XY0`
    SneReg,
    /// `ANNN`
    LdI,
    /// `BNNN`
    JpOffset,
    /// `CXNN`
    Rnd,
    /// `DXYN`
    Drw,
    /// `EX9E`
    Skp,
    /// `EXA1`
    Sknp,
    /// `FX07`
    LdRegDt,
    /// `FX0A`
    LdRegKey,
    /// `FX15`
    LdDtReg,
    /// `FX18`
    LdStReg,
    /// `FX1E`
    AddIReg,
    /// `FX29`
    LdF,
    /// `FX33`
    LdB,
    /// `FX55`
    LdRegMem,
    /// `FX65`
    LdMemReg,
}

/// The most significant hexadecimal digit of an instruction word.
pub open spec fn spec_family(inst: u16) -> u8 {
    (inst / 0x1000) as u8
}

/// The second hexadecimal digit: the register index X.
pub open spec fn spec_reg_x(inst: u16) -> u8 {
    ((inst / 0x100) % 0x10) as u8
}

/// The third hexadecimal digit: the register index Y.
pub open spec fn spec_reg_y(inst: u16) -> u8 {
    ((inst / 0x10) % 0x10) as u8
}

/// The least significant hexadecimal digit: the operand N.
pub open spec fn spec_imm4(inst: u16) -> u8 {
    (inst % 0x10) as u8
}

/// The low byte: the operand NN.
pub open spec fn spec_imm8(inst: u16) -> u8 {
    (inst % 0x100) as u8
}

/// The low twelve bits: the operand NNN.
pub open spec fn spec_addr(inst: u16) -> u16 {
    inst % 0x1000
}

/// The operation that an instruction word denotes, if it denotes one.
pub open spec fn spec_decode(inst: u16) -> Option<Opcode> {
    let family = spec_family(inst);
    let n = spec_imm4(inst);
    let nn = spec_imm8(inst);
    if inst == 0x00E0 {
        Some(Opcode::Cls)
    } else if inst == 0x00EE {
        Some(Opcode::Ret)
    } else if family == 0x1 {
        Some(Opcode::Jp)
    } else if family == 0x2 {
        Some(Opcode::Call)
    } else if family == 0x3 {
        Some(Opcode::Se)
    } else if family == 0x4 {
        Some(Opcode::Sne)
    } else if family == 0x5 && n == 0x0 {
        Some(Opcode::SeReg)
    } else if family == 0x6 {
        Some(Opcode::Ld)
    } else if family == 0x7 {
        Some(Opcode::Add)
    } else if family == 0x8 && n == 0x0 {
        Some(Opcode::LdReg)
    } else if family == 0x8 && n == 0x1 {
        Some(Opcode::Or)
    } else if family == 0x8 && n == 0x2 {
        Some(Opcode::And)
    } else if family == 0x8 && n == 0x3 {
        Some(Opcode::Xor)
    } else if family == 0x8 && n == 0x4 {
        Some(Opcode::AddCarry)
    } else if family == 0x8 && n == 0x5 {
        Some(Opcode::Sub)
    } else if family == 0x8 && n == 0x6 {
        Some(Opcode::Shr)
    } else if family == 0x8 && n == 0x7 {
        Some(Opcode::Subn)
    } else if family == 0x8 && n == 0xE {
        Some(Opcode::Shl)
    } else if family == 0x9 && n == 0x0 {
        Some(Opcode::SneReg)
    } else if family == 0xA {
        Some(Opcode::LdI)
    } else if family == 0xB {
        Some(Opcode::JpOffset)
    } else if family == 0xC {
        Some(Opcode::Rnd)
    } else if family == 0xD {
        Some(Opcode::Drw)
    } else if family == 0xE && nn == 0x9E {
        Some(Opcode::Skp)
    } else if family == 0xE && nn == 0xA1 {
        Some(Opcode::Sknp)
    } else if family == 0xF && nn == 0x07 {
        Some(Opcode::LdRegDt)
    } else if family == 0xF && nn == 0x0A {
        Some(Opcode::LdRegKey)
    } else if family == 0xF && nn == 0x15 {
        Some(Opcode::LdDtReg)
    } else if family == 0xF && nn == 0x18 {
        Some(Opcode::LdStReg)
    } else if family == 0xF && nn == 0x1E {
        Some(Opcode::AddIReg)
    } else if family == 0xF && nn == 0x29 {
        Some(Opcode::LdF)
    } else if family == 0xF && nn == 0x33 {
        Some(Opcode::LdB)
    } else if family == 0xF && nn == 0x55 {
        Some(Opcode::LdRegMem)
    } else if family == 0xF && nn == 0x65 {
        Some(Opcode::LdMemReg)
    } else {
        None
    }
}

/// Extracts the most significant hexadecimal digit.
pub fn family(inst: u16) -> (d: u8)
    ensures
        d == spec_family(inst),
        d < 16,
{
    assert(inst >> 12 == inst / 0x1000) by (bit_vector);
    (inst >> 12) as u8
}

/// Extracts the register index X.
pub fn reg_x(inst: u16) -> (x: u8)
    ensures
        x == spec_reg_x(inst),
        x < 16,
{
    assert((inst & 0xf00) >> 8 == (inst / 0x100) % 0x10) by (bit_vector);
    ((inst & 0xf00) >> 8) as u8
}

/// Extracts the register index Y.
pub fn reg_y(inst: u16) -> (y: u8)
    ensures
        y == spec_reg_y(inst),
        y < 16,
{
    assert((inst & 0xf0) >> 4 == (inst / 0x10) % 0x10) by (bit_vector);
    ((inst & 0xf0) >> 4) as u8
}

/// Extracts the operand N.
pub fn imm4(inst: u16) -> (n: u8)
    ensures
        n == spec_imm4(inst),
        n < 16,
{
    assert(inst & 0xf == inst % 0x10) by (bit_vector);
    (inst & 0xf) as u8
}

/// Extracts the operand NN.
pub fn imm8(inst: u16) -> (nn: u8)
    ensures
        nn == spec_imm8(inst),
{
    assert(inst & 0xff == inst % 0x100) by (bit_vector);
    (inst & 0xff) as u8
}

/// Extracts the operand NNN.
pub fn addr(inst: u16) -> (nnn: u16)
    ensures
        nnn == spec_addr(inst),
        nnn < 0x1000,
{
    assert(inst & 0xfff == inst % 0x1000) by (bit_vector);
    inst & 0xfff
}

/// Maps an instruction word to its operation, or to `None` where the word
/// matches no opcode pattern. Decoding reads nothing but the word.
pub fn decode(inst: u16) -> (op: Option<Opcode>)
    ensures
        op == spec_decode(inst),
{
    let n3 = family(inst);
    let n2 = reg_x(inst);
    let n1 = reg_y(inst);
    let n0 = imm4(inst);
    assert(spec_imm8(inst) == n1 * 16 + n0);
    assert(inst == n3 * 0x1000 + n2 * 0x100 + n1 * 0x10 + n0);
    match (n3, n2, n1, n0) {
        (0x0, 0x0, 0xE, 0x0) => Some(Opcode::Cls),
        (0x0, 0x0, 0xE, 0xE) => Some(Opcode::Ret),
        (0x1, _, _, _) => Some(Opcode::Jp),
        (0x2, _, _, _) => Some(Opcode::Call),
        (0x3, _, _, _) => Some(Opcode::Se),
        (0x4, _, _, _) => Some(Opcode::Sne),
        (0x5, _, _, 0x0) => Some(Opcode::SeReg),
        (0x6, _, _, _) => Some(Opcode::Ld),
        (0x7, _, _, _) => Some(Opcode::Add),
        (0x8, _, _, 0x0) => Some(Opcode::LdReg),
        (0x8, _, _, 0x1) => Some(Opcode::Or),
        (0x8, _, _, 0x2) => Some(Opcode::And),
        (0x8, _, _, 0x3) => Some(Opcode::Xor),
        (0x8, _, _, 0x4) => Some(Opcode::AddCarry),
        (0x8, _, _, 0x5) => Some(Opcode::Sub),
        (0x8, _, _, 0x6) => Some(Opcode::Shr),
        (0x8, _, _, 0x7) => Some(Opcode::Subn),
        (0x8, _, _, 0xE) => Some(Opcode::Shl),
        (0x9, _, _, 0x0) => Some(Opcode::SneReg),
        (0xA, _, _, _) => Some(Opcode::LdI),
        (0xB, _, _, _) => Some(Opcode::JpOffset),
        (0xC, _, _, _) => Some(Opcode::Rnd),
        (0xD, _, _, _) => Some(Opcode::Drw),
        (0xE, _, 0x9, 0xE) => Some(Opcode::Skp),
        (0xE, _, 0xA, 0x1) => Some(Opcode::Sknp),
        (0xF, _, 0x0, 0x7) => Some(Opcode::LdRegDt),
        (0xF, _, 0x0, 0xA) => Some(Opcode::LdRegKey),
        (0xF, _, 0x1, 0x5) => Some(Opcode::LdDtReg),
        (0xF, _, 0x1, 0x8) => Some(Opcode::LdStReg),
        (0xF, _, 0x1, 0xE) => Some(Opcode::AddIReg),
        (0xF, _, 0x2, 0x9) => Some(Opcode::LdF),
        (0xF, _, 0x3, 0x3) => Some(Opcode::LdB),
        (0xF, _, 0x5, 0x5) => Some(Opcode::LdRegMem),
        (0xF, _, 0x6, 0x5) => Some(Opcode::LdMemReg),
        (_, _, _, _) => None,
    }
}

} // verus!
