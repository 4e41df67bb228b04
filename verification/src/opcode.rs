//! Decoding of the 16-bit instruction word.
//!
//! The word is read as four hexadecimal digits. The first digit selects
//! the instruction group; in the groups `0`, `E` and `F` the low byte,
//! and in group `8` the last digit, select the instruction within it.
//! Every other group holds one instruction, whatever the remaining digits.
use vstd::prelude::*;

verus! {

/// One decoded instruction with its operands.
///
/// `x` and `y` index registers, `kk` is an 8-bit immediate, `nnn` a
/// 12-bit address and `n` a sprite height.
#[derive(Clone, Copy, Debug, PartialEq, Eq, Structural)]
pub enum Instruction {
    /// `00E0`
    ClearScreen,
    /// `00EE`
    Return,
    /// `1nnn`
    Jump { nnn: u16 },
    /// `2nnn`
    Call { nnn: u16 },
    /// `3xkk`
    SkipEqImm { x: usize, kk: u8 },
    /// `4xkk`
    SkipNeImm { x: usize, kk: u8 },
    /// `5xy0`
    SkipEqReg { x: usize, y: usize },
    /// `6xkk`
    LoadImm { x: usize, kk: u8 },
    /// `7xkk`
    AddImm { x: usize, kk: u8 },
    /// `8xy0`
    Move { x: usize, y: usize },
    /// `8xy1`
    Or { x: usize, y: usize },
    /// `8xy2`
    And { x: usize, y: usize },
    /// `8xy3`
    Xor { x: usize, y: usize },
    /// `8xy4`
    Add { x: usize, y: usize },
    /// `8xy5`
    Sub { x: usize, y: usize },
    /// `8xy6`
    ShiftRight { x: usize },
    /// `8xy7`
    SubFrom { x: usize, y: usize },
    /// `8xyE`
    ShiftLeft { x: usize },
    /// `9xy0`
    SkipNeReg { x: usize, y: usize },
    /// `Annn`
    LoadIndex { nnn: u16 },
    /// `Bnnn`
    JumpOffset { nnn: u16 },
    /// `Cxkk`
    Random { x: usize, kk: u8 },
    /// `Dxyn`
    Draw { x: usize, y: usize, n: u8 },
    /// `Ex9E`
    SkipKeyDown { x: usize },
    /// `ExA1`
    SkipKeyUp { x: usize },
    /// `Fx07`
    ReadDelay { x: usize },
    /// `Fx0A`
    WaitKey { x: usize },
    /// `Fx15`
    SetDelay { x: usize },
    /// `Fx18`
    SetSound { x: usize },
    /// `Fx1E`
    AddIndex { x: usize },
    /// `Fx29`
    Glyph { x: usize },
    /// `Fx33`
    Bcd { x: usize },
    /// `Fx55`
    StoreRegs { x: usize },
    /// `Fx65`
    LoadRegs { x: usize },
    /// Any word that selects no instruction.
    Unknown,
}

/// The first hexadecimal digit of the word.
pub open spec fn group(op: u16) -> int {
    op as int / 0x1000
}

/// The second digit: a register index.
pub open spec fn field_x(op: u16) -> usize {
    ((op as int / 0x100) % 0x10) as usize
}

/// The third digit: a register index.
pub open spec fn field_y(op: u16) -> usize {
    ((op as int / 0x10) % 0x10) as usize
}

/// The last digit: a sprite height.
pub open spec fn field_n(op: u16) -> u8 {
    (op as int % 0x10) as u8
}

/// The last three digits: an address.
pub open spec fn field_nnn(op: u16) -> u16 {
    (op as int % 0x1000) as u16
}

/// The low byte: an immediate.
pub open spec fn field_kk(op: u16) -> u8 {
    (op as int % 0x100) as u8
}

/// The instruction that the word `op` encodes.
pub open spec fn decoded(op: u16) -> Instruction {
    let x = field_x(op);
    let y = field_y(op);
    let n = field_n(op);
    let nnn = field_nnn(op);
    let kk = field_kk(op);
    let g = group(op);
    if g == 0x0 {
        if kk == 0xE0 {
            Instruction::ClearScreen
        } else if kk == 0xEE {
            Instruction::Return
        } else {
            Instruction::Unknown
        }
    } else if g == 0x1 {
        Instruction::Jump { nnn }
    } else if g == 0x2 {
        Instruction::Call { nnn }
    } else if g == 0x3 {
        Instruction::SkipEqImm { x, kk }
    } else if g == 0x4 {
        Instruction::SkipNeImm { x, kk }
    } else if g == 0x5 {
        Instruction::SkipEqReg { x, y }
    } else if g == 0x6 {
        Instruction::LoadImm { x, kk }
    } else if g == 0x7 {
        Instruction::AddImm { x, kk }
    } else if g == 0x8 {
        if n == 0x0 {
            Instruction::Move { x, y }
        } else if n == 0x1 {
            Instruction::Or { x, y }
        } else if n == 0x2 {
            Instruction::And { x, y }
        } else if n == 0x3 {
            Instruction::Xor { x, y }
        } else if n == 0x4 {
            Instruction::Add { x, y }
        } else if n == 0x5 {
            Instruction::Sub { x, y }
        } else if n == 0x6 {
            Instruction::ShiftRight { x }
        } else if n == 0x7 {
            Instruction::SubFrom { x, y }
        } else if n == 0xE {
            Instruction::ShiftLeft { x }
        } else {
            Instruction::Unknown
        }
    } else if g == 0x9 {
        Instruction::SkipNeReg { x, y }
    } else if g == 0xA {
        Instruction::LoadIndex { nnn }
    } else if g == 0xB {
        Instruction::JumpOffset { nnn }
    } else if g == 0xC {
        Instruction::Random { x, kk }
    } else if g == 0xD {
        Instruction::Draw { x, y, n }
    } else if g == 0xE {
        if kk == 0x9E {
            Instruction::SkipKeyDown { x }
        } else if kk == 0xA1 {
            Instruction::SkipKeyUp { x }
        } else {
            Instruction::Unknown
        }
    } else {
        if kk == 0x07 {
            Instruction::ReadDelay { x }
        } else if kk == 0x0A {
            Instruction::WaitKey { x }
        } else if kk == 0x15 {
            Instruction::SetDelay { x }
        } else if kk == 0x18 {
            Instruction::SetSound { x }
        } else if kk == 0x1E {
            Instruction::AddIndex { x }
        } else if kk == 0x29 {
            Instruction::Glyph { x }
        } else if kk == 0x33 {
            Instruction::Bcd { x }
        } else if kk == 0x55 {
            Instruction::StoreRegs { x }
        } else if kk == 0x65 {
            Instruction::LoadRegs { x }
        } else {
            Instruction::Unknown
        }
    }
}

/// The word written with the hexadecimal digits `g`, `x`, `y`, `n` has
/// those digits as its fields.
pub proof fn lemma_fields_of_word(g: int, x: int, y: int, n: int)
    requires
        0 <= g < 16,
        0 <= x < 16,
        0 <= y < 16,
        0 <= n < 16,
    ensures
        ({
            let op = (g * 0x1000 + x * 0x100 + y * 0x10 + n) as u16;
            &&& op == g * 0x1000 + x * 0x100 + y * 0x10 + n
            &&& group(op) == g
            &&& field_x(op) == x
            &&& field_y(op) == y
            &&& field_n(op) == n
            &&& field_kk(op) == y * 0x10 + n
            &&& field_nnn(op) == x * 0x100 + y * 0x10 + n
        }),
{
    let op = (g * 0x1000 + x * 0x100 + y * 0x10 + n) as u16;
    let (g, x, y, n) = (g as u16, x as u16, y as u16, n as u16);
    assert(op / 0x1000 == g && (op / 0x100) % 0x10 == x && (op / 0x10) % 0x10 == y && op % 0x10
        == n && op % 0x100 == y * 0x10 + n && op % 0x1000 == x * 0x100 + y * 0x10 + n)
        by (bit_vector)
        requires
            g < 16,
            x < 16,
            y < 16,
            n < 16,
            op == g * 0x1000 + x * 0x100 + y * 0x10 + n,
    ;
}

/// The word made of the digit `g`, the digit `x` and the byte `kk` has
/// those as its fields.
pub proof fn lemma_fields_of_immediate_word(g: int, x: int, kk: u8)
    requires
        0 <= g < 16,
        0 <= x < 16,
    ensures
        ({
            let op = (g * 0x1000 + x * 0x100 + kk) as u16;
            &&& op == g * 0x1000 + x * 0x100 + kk
            &&& group(op) == g
            &&& field_x(op) == x
            &&& field_kk(op) == kk
        }),
{
    let op = (g * 0x1000 + x * 0x100 + kk) as u16;
    let (g, x) = (g as u16, x as u16);
    assert(op / 0x1000 == g && (op / 0x100) % 0x10 == x && op % 0x100 == kk) by (bit_vector)
        requires
            g < 16,
            x < 16,
            op == g * 0x1000 + x * 0x100 + kk,
    ;
}

/// The word made of the digit `g` and the address `nnn` has those as
/// its fields.
pub proof fn lemma_fields_of_address_word(g: int, nnn: u16)
    requires
        0 <= g < 16,
        nnn < 0x1000,
    ensures
        ({
            let op = (g * 0x1000 + nnn) as u16;
            &&& op == g * 0x1000 + nnn
            &&& group(op) == g
            &&& field_nnn(op) == nnn
        }),
{
    let op = (g * 0x1000 + nnn) as u16;
    let g = g as u16;
    assert(op / 0x1000 == g && op % 0x1000 == nnn) by (bit_vector)
        requires
            g < 16,
            nnn < 0x1000,
            op == g * 0x1000 + nnn,
    ;
}

impl Instruction {
    /// The instruction decides the next program counter itself: a jump,
    /// a call, a return, one of the conditional skips, or the wait for a
    /// key. Every other instruction moves on to the word after it.
    pub open spec fn sets_program_counter(self) -> bool {
        match self {
            Instruction::Return
            | Instruction::Jump { .. }
            | Instruction::Call { .. }
            | Instruction::JumpOffset { .. }
            | Instruction::SkipEqImm { .. }
            | Instruction::SkipNeImm { .. }
            | Instruction::SkipEqReg { .. }
            | Instruction::SkipNeReg { .. }
            | Instruction::SkipKeyDown { .. }
            | Instruction::SkipKeyUp { .. }
            | Instruction::WaitKey { .. } => true,
            _ => false,
        }
    }

    /// Every operand lies in the range that its field of the word can hold.
    pub open spec fn wf(self) -> bool {
        match self {
            Instruction::ClearScreen | Instruction::Return | Instruction::Unknown => true,
            Instruction::Jump { nnn }
            | Instruction::Call { nnn }
            | Instruction::LoadIndex { nnn }
            | Instruction::JumpOffset { nnn } => nnn < 0x1000,
            Instruction::SkipEqImm { x, kk }
            | Instruction::SkipNeImm { x, kk }
            | Instruction::LoadImm { x, kk }
            | Instruction::AddImm { x, kk }
            | Instruction::Random { x, kk } => x < 16,
            Instruction::SkipEqReg { x, y }
            | Instruction::Move { x, y }
            | Instruction::Or { x, y }
            | Instruction::And { x, y }
            | Instruction::Xor { x, y }
            | Instruction::Add { x, y }
            | Instruction::Sub { x, y }
            | Instruction::SubFrom { x, y }
            | Instruction::SkipNeReg { x, y } => x < 16 && y < 16,
            Instruction::Draw { x, y, n } => x < 16 && y < 16 && n < 16,
            Instruction::ShiftRight { x }
            | Instruction::ShiftLeft { x }
            | Instruction::SkipKeyDown { x }
            | Instruction::SkipKeyUp { x }
            | Instruction::ReadDelay { x }
            | Instruction::WaitKey { x }
            | Instruction::SetDelay { x }
            | Instruction::SetSound { x }
            | Instruction::AddIndex { x }
            | Instruction::Glyph { x }
            | Instruction::Bcd { x }
            | Instruction::StoreRegs { x }
            | Instruction::LoadRegs { x } => x < 16,
        }
    }
}

/// Decodes the instruction word `op`.
pub fn decode(op: u16) -> (ins: Instruction)
    ensures
        ins == decoded(op),
        ins.wf(),
{
    let x = ((op >> 8) & 0xF) as usize;
    let y = ((op >> 4) & 0xF) as usize;
    let n = (op & 0xF) as u8;
    let nnn = op & 0xFFF;
    let kk = (op & 0xFF) as u8;
    proof {
        assert(((op >> 8) & 0xF) == (op / 0x100) % 0x10) by (bit_vector);
        assert(((op >> 4) & 0xF) == (op / 0x10) % 0x10) by (bit_vector);
        assert((op & 0xF) == op % 0x10) by (bit_vector);
        assert((op & 0xFFF) == op % 0x1000) by (bit_vector);
        assert((op & 0xFF) == op % 0x100) by (bit_vector);
        assert((op & 0xF000) == (op / 0x1000) * 0x1000) by (bit_vector);
        assert(op / 0x1000 < 0x10) by (bit_vector);
    }
    match op & 0xF000 {
        0x0000 => match op & 0xFF {
            0xE0 => Instruction::ClearScreen,
            0xEE => Instruction::Return,
            _ => Instruction::Unknown,
        },
        0x1000 => Instruction::Jump { nnn },
        0x2000 => Instruction::Call { nnn },
        0x3000 => Instruction::SkipEqImm { x, kk },
        0x4000 => Instruction::SkipNeImm { x, kk },
        0x5000 => Instruction::SkipEqReg { x, y },
        0x6000 => Instruction::LoadImm { x, kk },
        0x7000 => Instruction::AddImm { x, kk },
        0x8000 => match op & 0xF {
            0x0 => Instruction::Move { x, y },
            0x1 => Instruction::Or { x, y },
            0x2 => Instruction::And { x, y },
            0x3 => Instruction::Xor { x, y },
            0x4 => Instruction::Add { x, y },
            0x5 => Instruction::Sub { x, y },
            0x6 => Instruction::ShiftRight { x },
            0x7 => Instruction::SubFrom { x, y },
            0xE => Instruction::ShiftLeft { x },
            _ => Instruction::Unknown,
        },
        0x9000 => Instruction::SkipNeReg { x, y },
        0xA000 => Instruction::LoadIndex { nnn },
        0xB000 => Instruction::JumpOffset { nnn },
        0xC000 => Instruction::Random { x, kk },
        0xD000 => Instruction::Draw { x, y, n },
        0xE000 => match op & 0xFF {
            0x9E => Instruction::SkipKeyDown { x },
            0xA1 => Instruction::SkipKeyUp { x },
            _ => Instruction::Unknown,
        },
        0xF000 => match op & 0xFF {
            0x07 => Instruction::ReadDelay { x },
            0x0A => Instruction::WaitKey { x },
            0x15 => Instruction::SetDelay { x },
            0x18 => Instruction::SetSound { x },
            0x1E => Instruction::AddIndex { x },
            0x29 => Instruction::Glyph { x },
            0x33 => Instruction::Bcd { x },
            0x55 => Instruction::StoreRegs { x },
            0x65 => Instruction::LoadRegs { x },
            _ => Instruction::Unknown,
        },
        _ => Instruction::Unknown,
    }
}

} // verus!
