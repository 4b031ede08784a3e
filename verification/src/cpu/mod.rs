//! The interpreter: memory, registers, call stack and program counter, and
//! the cycle that fetches, decodes and executes one instruction.
//!
//! The executable machine is verified against its mathematical model,
//! [`Chip8View`].

pub mod decode;
pub mod laws;
pub mod model;
pub mod timers;

use crate::cpu::decode::{decode, decode_spec, Instruction};
use crate::cpu::model::{flag, last_register, opcode_at, skip, wrap16, wrap8, Chip8View};
use crate::cpu::timers::{TimerSubsystem, TimerView};
use crate::display::Display;
use crate::fonts::{FONTS, FONT_SIZE};
use crate::keypad::{Keypad, NO_KEY};
use vstd::prelude::*;

verus! {

/// Number of bytes of memory.
pub const RAM_SIZE: usize = 4096;

/// Address at which programs are loaded and start.
pub const PROGRAM_START: usize = 0x200;

/// Number of return addresses that the call stack holds.
pub const STACK_SIZE: usize = 16;

/// Why the machine refused to go on. A refused operation changes nothing.
#[derive(Clone, Copy, Debug, PartialEq, Eq, Structural)]
pub enum Fault {
    /// The program does not fit between the start address and the end of
    /// memory.
    RomTooLarge,
    /// A call with sixteen calls already in progress, or a stack pointer
    /// beyond the stack.
    StackOverflow,
    /// A return with no call in progress.
    StackUnderflow,
    /// An instruction, a sprite or a block of registers that would lie
    /// beyond the end of memory.
    AddressOutOfRange,
    /// A key number above 15.
    KeyOutOfRange,
}

/// What the machine did with an instruction word.
#[derive(Clone, Copy, Debug, PartialEq, Eq, Structural)]
pub enum Outcome {
    /// The word is an instruction, and it was executed.
    Executed,
    /// The word, given here, is no instruction, and was passed over.
    Unimplemented(u16),
}

/// The machine.
pub struct Chip8 {
    /// Memory. The font lies at the bottom, programs from
    /// [`PROGRAM_START`] on.
    pub ram: [u8; RAM_SIZE],
    /// Return addresses. The call at depth `d` has slot `d mod 16`: the
    /// first call slot 1, the sixteenth slot 0.
    pub stack: [u16; STACK_SIZE],
    /// The registers `V0` to `VF`. `VF` doubles as the flag register.
    pub v: [u8; 16],
    /// The index register.
    pub i: u16,
    /// The program counter.
    pub pc: u16,
    /// The stack pointer: the number of calls in progress.
    pub sp: usize,
    pub timer_subsystem: TimerSubsystem,
    pub display: Display,
    pub keypad: Keypad,
}

impl View for Chip8 {
    type V = Chip8View;

    open spec fn view(&self) -> Chip8View {
        Chip8View {
            ram: self.ram@,
            stack: self.stack@,
            v: self.v@,
            i: self.i,
            pc: self.pc,
            sp: self.sp,
            timers: self.timer_subsystem@,
            display: self.display@,
            keypad: self.keypad@,
        }
    }
}

impl Chip8 {
    /// A machine at power-on, with the font in memory.
    pub fn new() -> (cpu: Chip8)
        ensures
            cpu@ == Chip8View::power_on(),
    {
        let mut cpu = Chip8 {
            ram: [0; RAM_SIZE],
            stack: [0; STACK_SIZE],
            v: [0; 16],
            i: 0,
            pc: 0x200,
            sp: 0,
            timer_subsystem: TimerSubsystem::new(),
            display: Display::new(),
            keypad: Keypad::new(),
        };
        let mut i: usize = 0;
        while i < FONT_SIZE
            invariant
                i <= FONT_SIZE,
                forall|a: int| 0 <= a < i ==> cpu.ram[a] == FONTS[a],
                forall|a: int| i <= a < RAM_SIZE ==> cpu.ram[a] == 0,
                cpu@ == (Chip8View { ram: cpu.ram@, ..Chip8View::power_on() }),
            decreases FONT_SIZE - i,
        {
            cpu.ram[i] = FONTS[i];
            i += 1;
        }
        assert(cpu@.ram =~= Chip8View::power_on().ram);
        cpu
    }

    /// Copies a program into memory, from the start address on. A program
    /// of more than 3584 bytes does not fit, and is refused.
    pub fn load_rom(&mut self, rom: &[u8]) -> (result: Result<(), Fault>)
        ensures
            rom@.len() <= RAM_SIZE - PROGRAM_START ==> result == Ok::<(), Fault>(())
                && final(self)@ == old(self)@.loaded(rom@),
            rom@.len() > RAM_SIZE - PROGRAM_START ==> result == Err::<(), Fault>(
                Fault::RomTooLarge,
            ) && final(self)@ == old(self)@,
    {
        if rom.len() > RAM_SIZE - PROGRAM_START {
            return Err(Fault::RomTooLarge);
        }
        let mut i: usize = 0;
        while i < rom.len()
            invariant
                i <= rom@.len() <= RAM_SIZE - PROGRAM_START,
                forall|a: int|
                    PROGRAM_START <= a < PROGRAM_START + i ==> self.ram[a] == rom@[a
                        - PROGRAM_START],
                forall|a: int|
                    0 <= a < RAM_SIZE && !(PROGRAM_START <= a < PROGRAM_START + i) ==> self.ram[a]
                        == old(self).ram[a],
                self@ == (Chip8View { ram: self.ram@, ..old(self)@ }),
            decreases rom@.len() - i,
        {
            self.ram[i + PROGRAM_START] = rom[i];
            i += 1;
        }
        assert(self@.ram =~= old(self)@.loaded(rom@).ram);
        Ok(())
    }

    /// The instruction word at the program counter.
    pub fn get_opcode(&mut self) -> (opcode: u16)
        requires
            old(self)@.can_fetch(),
        ensures
            opcode == opcode_at(old(self)@.ram, old(self)@.pc as int),
            *final(self) == *old(self),
    {
        let pc: usize = self.pc as usize;
        let high: u16 = self.ram[pc] as u16;
        let low: u16 = self.ram[pc + 1] as u16;
        assert(high << 8 | low == high * 0x100 + low) by (bit_vector)
            requires
                high < 0x100,
                low < 0x100,
        ;
        high << 8 | low
    }

    /// Executes the instruction word `opcode` and moves the program counter
    /// on. A word that is no instruction is passed over, and reported as
    /// [`Outcome::Unimplemented`]. A fault leaves the machine as it was.
    pub fn run_opcode(&mut self, opcode: u16) -> (result: Result<Outcome, Fault>)
        ensures
            exists|random: u8| (final(self)@, result) == old(self)@.run(opcode, random),
            !(decode_spec(opcode) is Random) ==> (final(self)@, result) == old(self)@.run(
                opcode,
                0,
            ),
    {
        let instruction: Instruction = decode(opcode);
        let ghost before = self@;
        let ghost mut random: u8 = 0;
        let pc_change: Result<usize, Fault> = match instruction {
            Instruction::ClearScreen => Ok(self.op_00E0()),
            Instruction::Return => self.op_00EE(),
            Instruction::Jump { nnn } => Ok(self.op_1nnn(nnn)),
            Instruction::Call { nnn } => self.op_2nnn(nnn),
            Instruction::SkipIfEqual { x, kk } => Ok(self.op_3xkk(x, kk)),
            Instruction::SkipIfNotEqual { x, kk } => Ok(self.op_4xkk(x, kk)),
            Instruction::SkipIfRegistersEqual { x, y } => Ok(self.op_5xy0(x, y)),
            Instruction::Load { x, kk } => Ok(self.op_6xkk(x, kk)),
            Instruction::Add { x, kk } => Ok(self.op_7xkk(x, kk)),
            Instruction::Copy { x, y } => Ok(self.op_8xy0(x, y)),
            Instruction::Or { x, y } => Ok(self.op_8xy1(x, y)),
            Instruction::And { x, y } => Ok(self.op_8xy2(x, y)),
            Instruction::Xor { x, y } => Ok(self.op_8xy3(x, y)),
            Instruction::AddRegisters { x, y } => Ok(self.op_8xy4(x, y)),
            Instruction::Subtract { x, y } => Ok(self.op_8xy5(x, y)),
            Instruction::ShiftRight { x } => Ok(self.op_8xy6(x)),
            Instruction::SubtractFrom { x, y } => Ok(self.op_8xy7(x, y)),
            Instruction::ShiftLeft { x } => Ok(self.op_8xy8(x)),
            Instruction::SkipIfRegistersNotEqual { x, y } => Ok(self.op_9xy0(x, y)),
            Instruction::LoadIndex { nnn } => Ok(self.op_Annn(nnn)),
            Instruction::JumpOffset { nnn } => Ok(self.op_Bnnn(nnn)),
            Instruction::Random { x, kk } => {
                let delta: usize = self.op_Cxkk(x, kk);
                proof {
                    random = choose|random: u8| self@ == before.set_v(x as int, random & kk);
                }
                Ok(delta)
            },
            Instruction::Draw { x, y, n } => self.op_Dxyn(x, y, n),
            Instruction::SkipIfKeyDown { x } => self.op_Ex9E(x),
            Instruction::SkipIfKeyUp { x } => self.op_ExA1(x),
            Instruction::ReadDelay { x } => Ok(self.op_Fx07(x)),
            Instruction::WaitForKey { x } => Ok(self.op_Fx0A(x)),
            Instruction::SetDelay { x } => Ok(self.op_Fx15(x)),
            Instruction::SetSound { x } => Ok(self.op_Fx18(x)),
            Instruction::AddToIndex { x } => Ok(self.op_Fx1E(x)),
            Instruction::LoadFont { x } => Ok(self.op_Fx29(x)),
            Instruction::StoreBcd { x } => self.op_Fx33(x),
            Instruction::StoreRegisters { x } => self.op_Fx55(x),
            Instruction::LoadRegisters { x } => self.op_Fx65(x),
            Instruction::Unimplemented => Ok(self.unimplemented(opcode)),
        };
        let result: Result<Outcome, Fault> = match pc_change {
            Ok(delta) => {
                self.pc = self.pc.wrapping_add(delta as u16);
                match instruction {
                    Instruction::Unimplemented => Ok(Outcome::Unimplemented(opcode)),
                    _ => Ok(Outcome::Executed),
                }
            },
            Err(fault) => Err(fault),
        };
        assert((self@, result) == before.run(opcode, random));
        result
    }

    /// Runs one cycle: fetches the instruction word at the program counter
    /// and executes it, and then lets the timers count down by the time that
    /// has passed. Where the word would lie beyond the end of memory, that
    /// is a fault. A fault leaves the machine as it was.
    pub fn cycle(&mut self) -> (result: Result<Outcome, Fault>)
        ensures
            exists|random: u8, elapsed_ms: u64|
                (final(self)@, result) == old(self)@.cycled(random, elapsed_ms),
    {
        if self.pc as usize + 1 >= RAM_SIZE {
            assert((self@, Err::<Outcome, Fault>(Fault::AddressOutOfRange)) == old(self)@.cycled(
                0,
                0,
            ));
            return Err(Fault::AddressOutOfRange);
        }
        let opcode: u16 = self.get_opcode();
        let result: Result<Outcome, Fault> = self.run_opcode(opcode);
        let ghost random: u8 = choose|random: u8| (self@, result) == old(self)@.run(opcode, random);
        if result.is_ok() {
            let ghost ran = self@;
            self.timer_subsystem.cycle();
            let ghost elapsed_ms: u64 = choose|elapsed_ms: u64|
                self.timer_subsystem@ == ran.timers.advanced(elapsed_ms);
            assert((self@, result) == old(self)@.cycled(random, elapsed_ms));
        } else {
            assert((self@, result) == old(self)@.cycled(random, 0));
        }
        result
    }
}

/// The instruction handlers. Each returns the distance by which the program
/// counter is to move on, which is 0 where the handler has set the program
/// counter itself.
#[allow(non_snake_case)]
impl Chip8 {
    /// Clears the screen.
    pub fn op_00E0(&mut self) -> (delta: usize)
        ensures
            final(self)@ == old(self)@.screen_cleared(),
            delta == 2,
    {
        self.display.clear();
        2
    }

    /// Returns from a subroutine.
    pub fn op_00EE(&mut self) -> (result: Result<usize, Fault>)
        ensures
            match old(self)@.returned() {
                Ok(next) => result == Ok::<usize, Fault>(0) && final(self)@ == next,
                Err(fault) => result == Err::<usize, Fault>(fault) && final(self)@ == old(self)@,
            },
    {
        if self.sp == 0 {
            return Err(Fault::StackUnderflow);
        }
        if self.sp > STACK_SIZE {
            return Err(Fault::StackOverflow);
        }
        self.pc = self.stack[self.sp % STACK_SIZE];
        self.sp -= 1;
        Ok(0)
    }

    /// Jumps to `nnn`.
    pub fn op_1nnn(&mut self, nnn: u16) -> (delta: usize)
        ensures
            final(self)@ == old(self)@.jumped(nnn),
            delta == 0,
    {
        self.pc = nnn;
        0
    }

    /// Calls the subroutine at `nnn`.
    pub fn op_2nnn(&mut self, nnn: u16) -> (result: Result<usize, Fault>)
        ensures
            match old(self)@.called(nnn) {
                Ok(next) => result == Ok::<usize, Fault>(0) && final(self)@ == next,
                Err(fault) => result == Err::<usize, Fault>(fault) && final(self)@ == old(self)@,
            },
    {
        if self.sp >= STACK_SIZE {
            return Err(Fault::StackOverflow);
        }
        self.sp += 1;
        self.stack[self.sp % STACK_SIZE] = self.pc.wrapping_add(2);
        self.pc = nnn;
        Ok(0)
    }

    /// Skips the next instruction if `Vx == kk`.
    pub fn op_3xkk(&mut self, x: usize, kk: u8) -> (delta: usize)
        requires
            x < 16,
        ensures
            final(self)@ == old(self)@,
            delta == skip(old(self)@.v[x as int] == kk),
    {
        if self.v[x] == kk {
            return 4;
        }
        2
    }

    /// Skips the next instruction if `Vx != kk`.
    pub fn op_4xkk(&mut self, x: usize, kk: u8) -> (delta: usize)
        requires
            x < 16,
        ensures
            final(self)@ == old(self)@,
            delta == skip(old(self)@.v[x as int] != kk),
    {
        if self.v[x] != kk {
            return 4;
        }
        2
    }

    /// Skips the next instruction if `Vx == Vy`.
    pub fn op_5xy0(&mut self, x: usize, y: usize) -> (delta: usize)
        requires
            x < 16,
            y < 16,
        ensures
            final(self)@ == old(self)@,
            delta == skip(old(self)@.v[x as int] == old(self)@.v[y as int]),
    {
        if self.v[x] == self.v[y] {
            return 4;
        }
        2
    }

    /// Puts `kk` into `Vx`.
    pub fn op_6xkk(&mut self, x: usize, kk: u8) -> (delta: usize)
        requires
            x < 16,
        ensures
            final(self)@ == old(self)@.set_v(x as int, kk),
            final(self)@.v[x as int] == kk,
            delta == 2,
    {
        self.v[x] = kk;
        2
    }

    /// Adds `kk` to `Vx`, modulo 256. The flag register is left alone.
    pub fn op_7xkk(&mut self, x: usize, kk: u8) -> (delta: usize)
        requires
            x < 16,
        ensures
            final(self)@ == old(self)@.set_v(x as int, wrap8(old(self)@.v[x as int] + kk)),
            final(self)@.v[x as int] == (old(self)@.v[x as int] + kk) % 256,
            delta == 2,
    {
        self.v[x] = self.v[x].wrapping_add(kk);
        2
    }

    /// Puts `Vy` into `Vx`.
    pub fn op_8xy0(&mut self, x: usize, y: usize) -> (delta: usize)
        requires
            x < 16,
            y < 16,
        ensures
            final(self)@ == old(self)@.set_v(x as int, old(self)@.v[y as int]),
            delta == 2,
    {
        self.v[x] = self.v[y];
        2
    }

    /// Puts `Vx | Vy` into `Vx`.
    pub fn op_8xy1(&mut self, x: usize, y: usize) -> (delta: usize)
        requires
            x < 16,
            y < 16,
        ensures
            final(self)@ == old(self)@.set_v(
                x as int,
                old(self)@.v[x as int] | old(self)@.v[y as int],
            ),
            delta == 2,
    {
        self.v[x] |= self.v[y];
        2
    }

    /// Puts `Vx & Vy` into `Vx`.
    pub fn op_8xy2(&mut self, x: usize, y: usize) -> (delta: usize)
        requires
            x < 16,
            y < 16,
        ensures
            final(self)@ == old(self)@.set_v(
                x as int,
                old(self)@.v[x as int] & old(self)@.v[y as int],
            ),
            delta == 2,
    {
        self.v[x] &= self.v[y];
        2
    }

    /// Puts `Vx ^ Vy` into `Vx`.
    pub fn op_8xy3(&mut self, x: usize, y: usize) -> (delta: usize)
        requires
            x < 16,
            y < 16,
        ensures
            final(self)@ == old(self)@.set_v(
                x as int,
                old(self)@.v[x as int] ^ old(self)@.v[y as int],
            ),
            delta == 2,
    {
        self.v[x] ^= self.v[y];
        2
    }

    /// Adds `Vy` to `Vx`, modulo 256, with the carry in the flag register.
    /// Where `Vx` is the flag register itself, it ends up holding the sum.
    pub fn op_8xy4(&mut self, x: usize, y: usize) -> (delta: usize)
        requires
            x < 16,
            y < 16,
        ensures
            final(self)@ == old(self)@.added(x as int, y as int),
            final(self)@.v[x as int] == (old(self)@.v[x as int] + old(self)@.v[y as int]) % 256,
            x != 0xF ==> final(self)@.v[0xF] == flag(
                old(self)@.v[x as int] + old(self)@.v[y as int] > 255,
            ),
            delta == 2,
    {
        let vx: u16 = self.v[x] as u16;
        let vy: u16 = self.v[y] as u16;
        let sum: u16 = vx + vy;
        if sum > 0xFF {
            self.v[0xF] = 1;
        } else {
            self.v[0xF] = 0;
        }
        self.v[x] = (sum % 0x100) as u8;
        2
    }

    /// Subtracts `Vy` from `Vx`, modulo 256, after the flag register was
    /// set to tell whether `Vx > Vy`. Where `Vx` or `Vy` is the flag
    /// register itself, the subtraction works on the flag just set.
    pub fn op_8xy5(&mut self, x: usize, y: usize) -> (delta: usize)
        requires
            x < 16,
            y < 16,
        ensures
            final(self)@ == old(self)@.subtracted(x as int, y as int),
            x != 0xF && y != 0xF ==> final(self)@.v[x as int] == (old(self)@.v[x as int] - old(
                self,
            )@.v[y as int]) % 256,
            x != 0xF ==> final(self)@.v[0xF] == flag(
                old(self)@.v[x as int] > old(self)@.v[y as int],
            ),
            delta == 2,
    {
        if self.v[x] > self.v[y] {
            self.v[0xF] = 1;
        } else {
            self.v[0xF] = 0;
        }
        self.v[x] = self.v[x].wrapping_sub(self.v[y]);
        2
    }

    /// Halves `Vx`, after the flag register was set to tell whether `Vx`
    /// is odd.
    pub fn op_8xy6(&mut self, x: usize) -> (delta: usize)
        requires
            x < 16,
        ensures
            final(self)@ == old(self)@.shifted_right(x as int),
            delta == 2,
    {
        let vx: u8 = self.v[x];
        assert(vx & 1 == vx % 2) by (bit_vector);
        self.v[0xF] = if self.v[x] & 1 == 1 {
            1
        } else {
            0
        };
        let flagged: u8 = self.v[x];
        assert(flagged >> 1 == flagged / 2) by (bit_vector);
        self.v[x] >>= 1;
        2
    }

    /// Subtracts `Vx` from `Vy`, modulo 256, after the flag register was
    /// set to tell whether `Vy > Vx`. Where `Vx` or `Vy` is the flag
    /// register itself, the subtraction works on the flag just set.
    pub fn op_8xy7(&mut self, x: usize, y: usize) -> (delta: usize)
        requires
            x < 16,
            y < 16,
        ensures
            final(self)@ == old(self)@.subtracted_from(x as int, y as int),
            x != 0xF && y != 0xF ==> final(self)@.v[y as int] == (old(self)@.v[y as int] - old(
                self,
            )@.v[x as int]) % 256,
            y != 0xF ==> final(self)@.v[0xF] == flag(
                old(self)@.v[y as int] > old(self)@.v[x as int],
            ),
            delta == 2,
    {
        if self.v[y] > self.v[x] {
            self.v[0xF] = 1;
        } else {
            self.v[0xF] = 0;
        }
        self.v[y] = self.v[y].wrapping_sub(self.v[x]);
        2
    }

    /// Doubles `Vx`, modulo 256, after the flag register was set to tell
    /// whether `Vx` is odd.
    pub fn op_8xy8(&mut self, x: usize) -> (delta: usize)
        requires
            x < 16,
        ensures
            final(self)@ == old(self)@.shifted_left(x as int),
            delta == 2,
    {
        let vx: u8 = self.v[x];
        assert(vx & 1 == vx % 2) by (bit_vector);
        self.v[0xF] = if self.v[x] & 1 == 1 {
            1
        } else {
            0
        };
        let flagged: u8 = self.v[x];
        assert(flagged << 1 == (2 * flagged) % 0x100) by (bit_vector);
        self.v[x] <<= 1;
        2
    }

    /// Skips the next instruction if `Vx != Vy`.
    pub fn op_9xy0(&mut self, x: usize, y: usize) -> (delta: usize)
        requires
            x < 16,
            y < 16,
        ensures
            final(self)@ == old(self)@,
            delta == skip(old(self)@.v[x as int] != old(self)@.v[y as int]),
    {
        if self.v[x] != self.v[y] {
            return 4;
        }
        2
    }

    /// Puts `nnn` into the index register.
    pub fn op_Annn(&mut self, nnn: u16) -> (delta: usize)
        ensures
            final(self)@ == old(self)@.set_i(nnn),
            delta == 2,
    {
        self.i = nnn;
        2
    }

    /// Jumps to `nnn + V0`.
    pub fn op_Bnnn(&mut self, nnn: u16) -> (delta: usize)
        ensures
            final(self)@ == old(self)@.jumped(wrap16(nnn + old(self)@.v[0])),
            delta == 0,
    {
        self.pc = nnn.wrapping_add(self.v[0] as u16);
        0
    }
}

/// A byte drawn by `rand::random` from the thread's random number generator.
/// Nothing is claimed of its value.
#[verifier::external_body]
fn random_byte() -> (byte: u8) {
    rand::random()
}

#[allow(non_snake_case)]
impl Chip8 {
    /// Puts a random byte, masked by `kk`, into `Vx`.
    pub fn op_Cxkk(&mut self, x: usize, kk: u8) -> (delta: usize)
        requires
            x < 16,
        ensures
            exists|random: u8| final(self)@ == old(self)@.set_v(x as int, random & kk),
            delta == 2,
    {
        let rn: u8 = random_byte();
        let delta: usize = self.store_masked(x, kk, rn);
        assert(self@ == old(self)@.set_v(x as int, rn & kk));
        delta
    }

    /// Puts `random`, masked by `kk`, into `Vx`.
    pub fn store_masked(&mut self, x: usize, kk: u8, random: u8) -> (delta: usize)
        requires
            x < 16,
        ensures
            final(self)@ == old(self)@.set_v(x as int, random & kk),
            delta == 2,
    {
        self.v[x] = random & kk;
        2
    }

    /// Draws the `n` bytes at `I` as a sprite at `(Vx, Vy)`, and sets the
    /// flag register to tell whether a lit pixel was turned off.
    pub fn op_Dxyn(&mut self, x: usize, y: usize, n: usize) -> (result: Result<usize, Fault>)
        requires
            x < 16,
            y < 16,
        ensures
            match old(self)@.sprite_drawn(x as int, y as int, n as int) {
                Ok(next) => result == Ok::<usize, Fault>(2) && final(self)@ == next,
                Err(fault) => result == Err::<usize, Fault>(fault) && final(self)@ == old(self)@,
            },
    {
        let start: usize = self.i as usize;
        if start > RAM_SIZE || n > RAM_SIZE - start {
            return Err(Fault::AddressOutOfRange);
        }
        let sprite: &[u8] = vstd::slice::slice_subrange(self.ram.as_slice(), start, start + n);
        let collision: bool = self.display.draw(
            self.v[x] as usize,
            self.v[y] as usize,
            n,
            sprite,
        );
        self.v[0xF] = if collision {
            1
        } else {
            0
        };
        Ok(2)
    }

    /// Skips the next instruction if the key whose number is in `Vx` is
    /// down.
    pub fn op_Ex9E(&mut self, x: usize) -> (result: Result<usize, Fault>)
        requires
            x < 16,
        ensures
            final(self)@ == old(self)@,
            match old(self)@.key_down(x as int) {
                Ok(down) => result == Ok::<usize, Fault>(skip(down) as usize),
                Err(fault) => result == Err::<usize, Fault>(fault),
            },
    {
        let key: usize = self.v[x] as usize;
        if key >= 16 {
            return Err(Fault::KeyOutOfRange);
        }
        if self.keypad.get_key(key) {
            return Ok(4);
        }
        Ok(2)
    }

    /// Skips the next instruction if the key whose number is in `Vx` is up.
    pub fn op_ExA1(&mut self, x: usize) -> (result: Result<usize, Fault>)
        requires
            x < 16,
        ensures
            final(self)@ == old(self)@,
            match old(self)@.key_down(x as int) {
                Ok(down) => result == Ok::<usize, Fault>(skip(!down) as usize),
                Err(fault) => result == Err::<usize, Fault>(fault),
            },
    {
        let key: usize = self.v[x] as usize;
        if key >= 16 {
            return Err(Fault::KeyOutOfRange);
        }
        if !self.keypad.get_key(key) {
            return Ok(4);
        }
        Ok(2)
    }

    /// Puts the delay timer into `Vx`.
    pub fn op_Fx07(&mut self, x: usize) -> (delta: usize)
        requires
            x < 16,
        ensures
            final(self)@ == old(self)@.set_v(x as int, old(self)@.timers.delay),
            delta == 2,
    {
        self.v[x] = self.timer_subsystem.delay;
        2
    }

    /// Polls the keypad for a key press. While none has arrived the program
    /// counter stays, so that the instruction is run again; once one has,
    /// its key goes into `Vx`.
    pub fn op_Fx0A(&mut self, x: usize) -> (delta: usize)
        requires
            x < 16,
        ensures
            final(self)@ == old(self)@.key_awaited(x as int),
            delta == if old(self)@.keypad.wait_result() == NO_KEY {
                0int
            } else {
                2int
            },
    {
        let key: u8 = self.keypad.wait_for_keypress();
        if key == NO_KEY {
            return 0;
        }
        self.v[x] = key;
        2
    }

    /// Puts `Vx` into the delay timer.
    pub fn op_Fx15(&mut self, x: usize) -> (delta: usize)
        requires
            x < 16,
        ensures
            final(self)@ == old(self)@.set_timers(
                TimerView { delay: old(self)@.v[x as int], ..old(self)@.timers },
            ),
            delta == 2,
    {
        self.timer_subsystem.delay = self.v[x];
        2
    }

    /// Puts `Vx` into the sound timer.
    pub fn op_Fx18(&mut self, x: usize) -> (delta: usize)
        requires
            x < 16,
        ensures
            final(self)@ == old(self)@.set_timers(
                TimerView { sound: old(self)@.v[x as int], ..old(self)@.timers },
            ),
            delta == 2,
    {
        self.timer_subsystem.sound = self.v[x];
        2
    }

    /// Adds `Vx` to the index register, modulo 65536.
    pub fn op_Fx1E(&mut self, x: usize) -> (delta: usize)
        requires
            x < 16,
        ensures
            final(self)@ == old(self)@.set_i(wrap16(old(self)@.i + old(self)@.v[x as int])),
            delta == 2,
    {
        self.i = self.i.wrapping_add(self.v[x] as u16);
        2
    }

    /// Puts the address of the font sprite for the digit `Vx` into the
    /// index register: five times `Vx`.
    pub fn op_Fx29(&mut self, x: usize) -> (delta: usize)
        requires
            x < 16,
        ensures
            final(self)@ == old(self)@.set_i((old(self)@.v[x as int] * 5) as u16),
            final(self)@.i == old(self)@.v[x as int] * 5,
            delta == 2,
    {
        self.i = self.v[x] as u16 * 5;
        2
    }

    /// Stores the hundreds, tens and ones of `Vx` in the three bytes at `I`.
    pub fn op_Fx33(&mut self, x: usize) -> (result: Result<usize, Fault>)
        requires
            x < 16,
        ensures
            match old(self)@.bcd_stored(x as int) {
                Ok(next) => result == Ok::<usize, Fault>(2) && final(self)@ == next,
                Err(fault) => result == Err::<usize, Fault>(fault) && final(self)@ == old(self)@,
            },
    {
        let i: usize = self.i as usize;
        if i + 2 >= RAM_SIZE {
            return Err(Fault::AddressOutOfRange);
        }
        self.ram[i] = self.v[x] / 100;
        self.ram[i + 1] = (self.v[x] % 100) / 10;
        self.ram[i + 2] = self.v[x] % 10;
        Ok(2)
    }

    /// Stores the registers `V0` to `Vx` in the bytes at `I`. An `x` above
    /// 15 counts as 15.
    pub fn op_Fx55(&mut self, x: usize) -> (result: Result<usize, Fault>)
        ensures
            match old(self)@.registers_stored(x as int) {
                Ok(next) => result == Ok::<usize, Fault>(2) && final(self)@ == next,
                Err(fault) => result == Err::<usize, Fault>(fault) && final(self)@ == old(self)@,
            },
    {
        let end: usize = if x > 0xF {
            0xF
        } else {
            x
        };
        let i: usize = self.i as usize;
        if i + end >= RAM_SIZE {
            return Err(Fault::AddressOutOfRange);
        }
        let mut addr: usize = 0;
        while addr < end + 1
            invariant
                addr <= end + 1,
                end == last_register(x as int),
                i == old(self).i,
                i + end < RAM_SIZE,
                forall|a: int| i <= a < i + addr ==> self.ram[a] == old(self).v[a - i],
                forall|a: int|
                    0 <= a < RAM_SIZE && !(i <= a < i + addr) ==> self.ram[a] == old(self).ram[a],
                self@ == (Chip8View { ram: self.ram@, ..old(self)@ }),
            decreases end + 1 - addr,
        {
            self.ram[i + addr] = self.v[addr];
            addr += 1;
        }
        assert(self@.ram =~= old(self)@.registers_stored(x as int)->Ok_0.ram);
        Ok(2)
    }

    /// Loads the registers `V0` to `Vx` from the bytes at `I`. An `x` above
    /// 15 counts as 15.
    pub fn op_Fx65(&mut self, x: usize) -> (result: Result<usize, Fault>)
        ensures
            match old(self)@.registers_loaded(x as int) {
                Ok(next) => result == Ok::<usize, Fault>(2) && final(self)@ == next,
                Err(fault) => result == Err::<usize, Fault>(fault) && final(self)@ == old(self)@,
            },
    {
        let end: usize = if x > 0xF {
            0xF
        } else {
            x
        };
        let i: usize = self.i as usize;
        if i + end >= RAM_SIZE {
            return Err(Fault::AddressOutOfRange);
        }
        let mut addr: usize = 0;
        while addr < end + 1
            invariant
                addr <= end + 1,
                end == last_register(x as int),
                i == old(self).i,
                i + end < RAM_SIZE,
                forall|k: int| 0 <= k < addr ==> self.v[k] == old(self).ram[i + k],
                forall|k: int| addr <= k < 16 ==> self.v[k] == old(self).v[k],
                self@ == (Chip8View { v: self.v@, ..old(self)@ }),
            decreases end + 1 - addr,
        {
            self.v[addr] = self.ram[i + addr];
            addr += 1;
        }
        assert(self@.v =~= old(self)@.registers_loaded(x as int)->Ok_0.v);
        Ok(2)
    }

    /// Passes over a word that is no instruction.
    pub fn unimplemented(&mut self, _opcode: u16) -> (delta: usize)
        ensures
            final(self)@ == old(self)@,
            delta == 2,
    {
        2
    }
}

} // verus!
