//! Instruction words and what they stand for.
//!
//! An instruction is a 16-bit word of four nibbles. The first nibble, and for
//! some instructions the last one or two, select the instruction; the others
//! are its operands: `nnn` is a 12-bit address, `kk` an 8-bit constant, `x`
//! and `y` name registers, and `n` is a sprite's height.

use vstd::prelude::*;

verus! {

/// A decoded instruction with its operands.
#[derive(Clone, Copy, Debug, PartialEq, Eq, Structural)]
pub enum Instruction {
    /// `00E0`: clear the screen.
    ClearScreen,
    /// `00EE`: return from a subroutine.
    Return,
    /// `1nnn`: jump to `nnn`.
    Jump { nnn: u16 },
    /// `2nnn`: call the subroutine at `nnn`.
    Call { nnn: u16 },
    /// `3xkk`: skip the next instruction if `Vx == kk`.
    SkipIfEqual { x: usize, kk: u8 },
    /// `4xkk`: skip the next instruction if `Vx != kk`.
    SkipIfNotEqual { x: usize, kk: u8 },
    /// `5xy0`: skip the next instruction if `Vx == Vy`.
    SkipIfRegistersEqual { x: usize, y: usize },
    /// `6xkk`: `Vx = kk`.
    Load { x: usize, kk: u8 },
    /// `7xkk`: `Vx += kk`.
    Add { x: usize, kk: u8 },
    /// `8xy0`: `Vx = Vy`.
    Copy { x: usize, y: usize },
    /// `8xy1`: `Vx |= Vy`.
    Or { x: usize, y: usize },
    /// `8xy2`: `Vx &= Vy`.
    And { x: usize, y: usize },
    /// `8xy3`: `Vx ^= Vy`.
    Xor { x: usize, y: usize },
    /// `8xy4`: `Vx += Vy`, with the carry in `VF`.
    AddRegisters { x: usize, y: usize },
    /// `8xy5`: `Vx -= Vy`, with `VF` telling whether `Vx > Vy`.
    Subtract { x: usize, y: usize },
    /// `8xy6`: `Vx >>= 1`, with the bit shifted out in `VF`.
    ShiftRight { x: usize },
    /// `8xy7`: `Vy -= Vx`, with `VF` telling whether `Vy > Vx`.
    SubtractFrom { x: usize, y: usize },
    /// `8xy8`: `Vx <<= 1`, with the lowest bit of `Vx` in `VF`. The usual
    /// instruction set has no `8xy8`; this machine has it as an extension.
    ShiftLeft { x: usize },
    /// `9xy0`: skip the next instruction if `Vx != Vy`.
    SkipIfRegistersNotEqual { x: usize, y: usize },
    /// `Annn`: `I = nnn`.
    LoadIndex { nnn: u16 },
    /// `Bnnn`: jump to `nnn + V0`.
    JumpOffset { nnn: u16 },
    /// `Cxkk`: `Vx = random byte & kk`.
    Random { x: usize, kk: u8 },
    /// `Dxyn`: draw the `n` bytes at `I` as a sprite at `(Vx, Vy)`.
    Draw { x: usize, y: usize, n: usize },
    /// `Ex9E`: skip the next instruction if key `Vx` is down.
    SkipIfKeyDown { x: usize },
    /// `ExA1`: skip the next instruction if key `Vx` is up.
    SkipIfKeyUp { x: usize },
    /// `Fx07`: `Vx = delay timer`.
    ReadDelay { x: usize },
    /// `Fx0A`: wait for a key press and store the key in `Vx`.
    WaitForKey { x: usize },
    /// `Fx15`: `delay timer = Vx`.
    SetDelay { x: usize },
    /// `Fx18`: `sound timer = Vx`.
    SetSound { x: usize },
    /// `Fx1E`: `I += Vx`.
    AddToIndex { x: usize },
    /// `Fx29`: `I =` address of the font sprite for the digit `Vx`.
    LoadFont { x: usize },
    /// `Fx33`: store the three decimal digits of `Vx` at `I`.
    StoreBcd { x: usize },
    /// `Fx55`: store `V0..=Vx` at `I`.
    StoreRegisters { x: usize },
    /// `Fx65`: load `V0..=Vx` from `I`.
    LoadRegisters { x: usize },
    /// Any other word.
    Unimplemented,
}

/// The four nibbles of an instruction word, most significant first.
pub open spec fn nibbles(opcode: u16) -> (int, int, int, int) {
    (opcode as int / 0x1000, opcode as int / 0x100 % 0x10, opcode as int / 0x10 % 0x10, opcode as int % 0x10)
}

/// The instruction that a word stands for.
pub open spec fn decode_spec(opcode: u16) -> Instruction {
    let (op, x, y, n) = nibbles(opcode);
    let nnn = (opcode % 0x1000) as u16;
    let kk = (opcode % 0x100) as u8;
    let x = x as usize;
    let y = y as usize;
    if opcode == 0x00E0 {
        Instruction::ClearScreen
    } else if opcode == 0x00EE {
        Instruction::Return
    } else if op == 0x1 {
        Instruction::Jump { nnn }
    } else if op == 0x2 {
        Instruction::Call { nnn }
    } else if op == 0x3 {
        Instruction::SkipIfEqual { x, kk }
    } else if op == 0x4 {
        Instruction::SkipIfNotEqual { x, kk }
    } else if op == 0x5 && n == 0x0 {
        Instruction::SkipIfRegistersEqual { x, y }
    } else if op == 0x6 {
        Instruction::Load { x, kk }
    } else if op == 0x7 {
        Instruction::Add { x, kk }
    } else if op == 0x8 && n == 0x0 {
        Instruction::Copy { x, y }
    } else if op == 0x8 && n == 0x1 {
        Instruction::Or { x, y }
    } else if op == 0x8 && n == 0x2 {
        Instruction::And { x, y }
    } else if op == 0x8 && n == 0x3 {
        Instruction::Xor { x, y }
    } else if op == 0x8 && n == 0x4 {
        Instruction::AddRegisters { x, y }
    } else if op == 0x8 && n == 0x5 {
        Instruction::Subtract { x, y }
    } else if op == 0x8 && n == 0x6 {
        Instruction::ShiftRight { x }
    } else if op == 0x8 && n == 0x7 {
        Instruction::SubtractFrom { x, y }
    } else if op == 0x8 && n == 0x8 {
        Instruction::ShiftLeft { x }
    } else if op == 0x9 && n == 0x0 {
        Instruction::SkipIfRegistersNotEqual { x, y }
    } else if op == 0xA {
        Instruction::LoadIndex { nnn }
    } else if op == 0xB {
        Instruction::JumpOffset { nnn }
    } else if op == 0xC {
        Instruction::Random { x, kk }
    } else if op == 0xD {
        Instruction::Draw { x, y, n: n as usize }
    } else if op == 0xE && kk == 0x9E {
        Instruction::SkipIfKeyDown { x }
    } else if op == 0xE && kk == 0xA1 {
        Instruction::SkipIfKeyUp { x }
    } else if op == 0xF && kk == 0x07 {
        Instruction::ReadDelay { x }
    } else if op == 0xF && kk == 0x0A {
        Instruction::WaitForKey { x }
    } else if op == 0xF && kk == 0x15 {
        Instruction::SetDelay { x }
    } else if op == 0xF && kk == 0x18 {
        Instruction::SetSound { x }
    } else if op == 0xF && kk == 0x1E {
        Instruction::AddToIndex { x }
    } else if op == 0xF && kk == 0x29 {
        Instruction::LoadFont { x }
    } else if op == 0xF && kk == 0x33 {
        Instruction::StoreBcd { x }
    } else if op == 0xF && kk == 0x55 {
        Instruction::StoreRegisters { x }
    } else if op == 0xF && kk == 0x65 {
        Instruction::LoadRegisters { x }
    } else {
        Instruction::Unimplemented
    }
}

impl Instruction {
    /// Whether every operand is as wide as its field in the instruction
    /// word: register numbers and sprite heights below 16, and addresses
    /// below 4096. Every decoded instruction is.
    pub open spec fn wf(self) -> bool {
        match self {
            Instruction::ClearScreen | Instruction::Return | Instruction::Unimplemented => true,
            Instruction::Jump { nnn }
            | Instruction::Call { nnn }
            | Instruction::LoadIndex { nnn }
            | Instruction::JumpOffset { nnn } => nnn < 0x1000,
            Instruction::SkipIfEqual { x, .. }
            | Instruction::SkipIfNotEqual { x, .. }
            | Instruction::Load { x, .. }
            | Instruction::Add { x, .. }
            | Instruction::Random { x, .. }
            | Instruction::ShiftRight { x }
            | Instruction::ShiftLeft { x }
            | Instruction::SkipIfKeyDown { x }
            | Instruction::SkipIfKeyUp { x }
            | Instruction::ReadDelay { x }
            | Instruction::WaitForKey { x }
            | Instruction::SetDelay { x }
            | Instruction::SetSound { x }
            | Instruction::AddToIndex { x }
            | Instruction::LoadFont { x }
            | Instruction::StoreBcd { x }
            | Instruction::StoreRegisters { x }
            | Instruction::LoadRegisters { x } => x < 16,
            Instruction::SkipIfRegistersEqual { x, y }
            | Instruction::Copy { x, y }
            | Instruction::Or { x, y }
            | Instruction::And { x, y }
            | Instruction::Xor { x, y }
            | Instruction::AddRegisters { x, y }
            | Instruction::Subtract { x, y }
            | Instruction::SubtractFrom { x, y }
            | Instruction::SkipIfRegistersNotEqual { x, y } => x < 16 && y < 16,
            Instruction::Draw { x, y, n } => x < 16 && y < 16 && n < 16,
        }
    }
}

/// Decodes an instruction word.
pub fn decode(opcode: u16) -> (instruction: Instruction)
    ensures
        instruction == decode_spec(opcode),
        instruction.wf(),
{
    let nibbles: (u16, u16, u16, u16) = (
        (opcode & 0xF000) >> 12,
        (opcode & 0x0F00) >> 8,
        (opcode & 0x00F0) >> 4,
        opcode & 0x000F,
    );
    let nnn: u16 = opcode & 0x0FFF;
    let kk: u8 = (opcode & 0x00FF) as u8;
    let x: usize = nibbles.1 as usize;
    let y: usize = nibbles.2 as usize;
    let n: usize = nibbles.3 as usize;
    proof {
        assert((opcode & 0xF000) >> 12 == opcode / 0x1000) by (bit_vector);
        assert((opcode & 0x0F00) >> 8 == opcode / 0x100 % 0x10) by (bit_vector);
        assert((opcode & 0x00F0) >> 4 == opcode / 0x10 % 0x10) by (bit_vector);
        assert(opcode & 0x000F == opcode % 0x10) by (bit_vector);
        assert(opcode & 0x0FFF == opcode % 0x1000) by (bit_vector);
        assert(opcode & 0x00FF == opcode % 0x100) by (bit_vector);
    }
    match nibbles {
        (0x0, 0x0, 0xE, 0x0) => Instruction::ClearScreen,
        (0x0, 0x0, 0xE, 0xE) => Instruction::Return,
        (0x1, _, _, _) => Instruction::Jump { nnn },
        (0x2, _, _, _) => Instruction::Call { nnn },
        (0x3, _, _, _) => Instruction::SkipIfEqual { x, kk },
        (0x4, _, _, _) => Instruction::SkipIfNotEqual { x, kk },
        (0x5, _, _, 0x0) => Instruction::SkipIfRegistersEqual { x, y },
        (0x6, _, _, _) => Instruction::Load { x, kk },
        (0x7, _, _, _) => Instruction::Add { x, kk },
        (0x8, _, _, 0x0) => Instruction::Copy { x, y },
        (0x8, _, _, 0x1) => Instruction::Or { x, y },
        (0x8, _, _, 0x2) => Instruction::And { x, y },
        (0x8, _, _, 0x3) => Instruction::Xor { x, y },
        (0x8, _, _, 0x4) => Instruction::AddRegisters { x, y },
        (0x8, _, _, 0x5) => Instruction::Subtract { x, y },
        (0x8, _, _, 0x6) => Instruction::ShiftRight { x },
        (0x8, _, _, 0x7) => Instruction::SubtractFrom { x, y },
        (0x8, _, _, 0x8) => Instruction::ShiftLeft { x },
        (0x9, _, _, 0x0) => Instruction::SkipIfRegistersNotEqual { x, y },
        (0xA, _, _, _) => Instruction::LoadIndex { nnn },
        (0xB, _, _, _) => Instruction::JumpOffset { nnn },
        (0xC, _, _, _) => Instruction::Random { x, kk },
        (0xD, _, _, _) => Instruction::Draw { x, y, n },
        (0xE, _, 0x9, 0xE) => Instruction::SkipIfKeyDown { x },
        (0xE, _, 0xA, 0x1) => Instruction::SkipIfKeyUp { x },
        (0xF, _, 0x0, 0x7) => Instruction::ReadDelay { x },
        (0xF, _, 0x0, 0xA) => Instruction::WaitForKey { x },
        (0xF, _, 0x1, 0x5) => Instruction::SetDelay { x },
        (0xF, _, 0x1, 0x8) => Instruction::SetSound { x },
        (0xF, _, 0x1, 0xE) => Instruction::AddToIndex { x },
        (0xF, _, 0x2, 0x9) => Instruction::LoadFont { x },
        (0xF, _, 0x3, 0x3) => Instruction::StoreBcd { x },
        (0xF, _, 0x5, 0x5) => Instruction::StoreRegisters { x },
        (0xF, _, 0x6, 0x5) => Instruction::LoadRegisters { x },
        _ => Instruction::Unimplemented,
    }
}

} // verus!
