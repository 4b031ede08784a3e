//! The mathematical model of the machine, and what each instruction does to
//! it.

use crate::cpu::decode::{decode_spec, Instruction};
use crate::cpu::timers::TimerView;
use crate::cpu::{Fault, Outcome, PROGRAM_START, RAM_SIZE, STACK_SIZE};
use crate::display::DisplayView;
use crate::fonts::FONTS;
use crate::keypad::{KeypadView, NO_KEY};
use vstd::prelude::*;

verus! {

/// Mathematical model of a [`Chip8`].
#[verifier::ext_equal]
pub struct Chip8View {
    /// Memory, 4096 bytes.
    pub ram: Seq<u8>,
    /// Return addresses, 16 slots. The call at depth `d` has slot `d mod 16`.
    pub stack: Seq<u16>,
    /// The registers `V0` to `VF`.
    pub v: Seq<u8>,
    /// The index register.
    pub i: u16,
    /// The program counter.
    pub pc: u16,
    /// The stack pointer: the number of calls in progress.
    pub sp: usize,
    pub timers: TimerView,
    pub display: DisplayView,
    pub keypad: KeypadView,
}

/// The flag register's value for a condition.
pub open spec fn flag(condition: bool) -> u8 {
    if condition {
        1
    } else {
        0
    }
}

/// How far a conditional skip moves the program counter: past the next
/// instruction if the condition holds, and to it otherwise.
pub open spec fn skip(condition: bool) -> int {
    if condition {
        4
    } else {
        2
    }
}

/// A 16-bit register's value for a number: the number modulo 65536.
pub open spec fn wrap16(value: int) -> u16 {
    (value % 0x10000) as u16
}

/// An 8-bit register's value for a number: the number modulo 256.
pub open spec fn wrap8(value: int) -> u8 {
    (value % 0x100) as u8
}

/// Number of the last register that a block transfer with operand `x`
/// touches: `x`, or 15 if `x` is larger.
pub open spec fn last_register(x: int) -> int {
    if x > 0xF {
        0xF
    } else {
        x
    }
}

/// The instruction word at `pc`: two bytes, the high one first.
pub open spec fn opcode_at(ram: Seq<u8>, pc: int) -> u16 {
    (ram[pc] * 0x100 + ram[pc + 1]) as u16
}

impl Chip8View {
    /// The shape of every view of a [`Chip8`].
    pub open spec fn wf(self) -> bool {
        &&& self.ram.len() == RAM_SIZE
        &&& self.stack.len() == STACK_SIZE
        &&& self.v.len() == 16
        &&& self.display.wf()
        &&& self.keypad.wf()
    }

    /// The machine at power-on: the font at the bottom of memory, the
    /// program counter at the start address, a blank screen, and everything
    /// else zero.
    pub open spec fn power_on() -> Chip8View {
        Chip8View {
            ram: Seq::new(
                RAM_SIZE as nat,
                |a: int|
                    if a < 80 {
                        FONTS[a]
                    } else {
                        0u8
                    },
            ),
            stack: Seq::new(STACK_SIZE as nat, |k: int| 0u16),
            v: Seq::new(16, |k: int| 0u8),
            i: 0,
            pc: PROGRAM_START as u16,
            sp: 0,
            timers: TimerView::zero(),
            display: DisplayView::blank(),
            keypad: KeypadView::idle(),
        }
    }

    /// The machine with `rom` in memory from the start address on.
    pub open spec fn loaded(self, rom: Seq<u8>) -> Chip8View {
        Chip8View {
            ram: Seq::new(
                RAM_SIZE as nat,
                |a: int|
                    if PROGRAM_START <= a < PROGRAM_START + rom.len() {
                        rom[a - PROGRAM_START]
                    } else {
                        self.ram[a]
                    },
            ),
            ..self
        }
    }

    /// The machine with `value` in register `x`.
    pub open spec fn set_v(self, x: int, value: u8) -> Chip8View {
        Chip8View { v: self.v.update(x, value), ..self }
    }

    /// The machine with the flag register telling `condition`.
    pub open spec fn set_flag(self, condition: bool) -> Chip8View {
        self.set_v(0xF, flag(condition))
    }

    /// The machine with the program counter at `target`.
    pub open spec fn jumped(self, target: u16) -> Chip8View {
        Chip8View { pc: target, ..self }
    }

    /// The machine with the program counter moved on by `delta`.
    pub open spec fn advanced(self, delta: int) -> Chip8View {
        self.jumped(wrap16(self.pc + delta))
    }

    /// The machine with the index register at `value`.
    pub open spec fn set_i(self, value: u16) -> Chip8View {
        Chip8View { i: value, ..self }
    }

    /// `00EE`: the program counter takes the return address of the call in
    /// progress, which is thereby over.
    pub open spec fn returned(self) -> Result<Chip8View, Fault> {
        if self.sp == 0 {
            Err(Fault::StackUnderflow)
        } else if self.sp > STACK_SIZE {
            Err(Fault::StackOverflow)
        } else {
            Ok(
                Chip8View {
                    pc: self.stack[self.sp as int % 16],
                    sp: (self.sp - 1) as usize,
                    ..self
                },
            )
        }
    }

    /// `2nnn`: the address of the next instruction goes on the stack, and
    /// the program counter to `nnn`.
    pub open spec fn called(self, nnn: u16) -> Result<Chip8View, Fault> {
        if self.sp >= STACK_SIZE {
            Err(Fault::StackOverflow)
        } else {
            Ok(
                Chip8View {
                    stack: self.stack.update((self.sp + 1) % 16, wrap16(self.pc + 2)),
                    sp: (self.sp + 1) as usize,
                    pc: nnn,
                    ..self
                },
            )
        }
    }

    /// `8xy4`: the flag tells whether `Vx + Vy` exceeds 255, and then `Vx`
    /// takes the sum modulo 256.
    pub open spec fn added(self, x: int, y: int) -> Chip8View {
        let sum = self.v[x] + self.v[y];
        self.set_flag(sum > 0xFF).set_v(x, wrap8(sum))
    }

    /// `8xy5`: the flag tells whether `Vx > Vy`, and then `Vx` takes
    /// `Vx - Vy` modulo 256, of the registers as they then are.
    pub open spec fn subtracted(self, x: int, y: int) -> Chip8View {
        let flagged = self.set_flag(self.v[x] > self.v[y]);
        flagged.set_v(x, wrap8(flagged.v[x] - flagged.v[y]))
    }

    /// `8xy6`: the flag tells whether `Vx` is odd, and then `Vx` is halved.
    pub open spec fn shifted_right(self, x: int) -> Chip8View {
        let flagged = self.set_flag(self.v[x] % 2 == 1);
        flagged.set_v(x, flagged.v[x] / 2)
    }

    /// `8xy7`: the flag tells whether `Vy > Vx`, and then `Vy` takes
    /// `Vy - Vx` modulo 256, of the registers as they then are.
    pub open spec fn subtracted_from(self, x: int, y: int) -> Chip8View {
        let flagged = self.set_flag(self.v[y] > self.v[x]);
        flagged.set_v(y, wrap8(flagged.v[y] - flagged.v[x]))
    }

    /// `8xy8`: the flag tells whether `Vx` is odd, and then `Vx` is doubled
    /// modulo 256.
    pub open spec fn shifted_left(self, x: int) -> Chip8View {
        let flagged = self.set_flag(self.v[x] % 2 == 1);
        flagged.set_v(x, wrap8(2 * flagged.v[x]))
    }

    /// `Dxyn`: the `n` bytes at `I` are drawn as a sprite at `(Vx, Vy)`, and
    /// then the flag tells whether the sprite turned a lit pixel off.
    pub open spec fn sprite_drawn(self, x: int, y: int, n: int) -> Result<Chip8View, Fault> {
        if self.i + n > RAM_SIZE {
            Err(Fault::AddressOutOfRange)
        } else {
            let sprite = self.ram.subrange(self.i as int, self.i + n);
            let vx = self.v[x] as int;
            let vy = self.v[y] as int;
            Ok(
                Chip8View { display: self.display.drawn(vx, vy, n, sprite), ..self }.set_flag(
                    self.display.collides(vx, vy, n, sprite),
                ),
            )
        }
    }

    /// Whether the key whose number is in `Vx` is down.
    pub open spec fn key_down(self, x: int) -> Result<bool, Fault> {
        if self.v[x] >= 16 {
            Err(Fault::KeyOutOfRange)
        } else {
            Ok(self.keypad.keys[self.v[x] as int])
        }
    }

    /// `Fx0A`: the keypad's latch is polled; once it answers with a key, `Vx`
    /// takes the key.
    pub open spec fn key_awaited(self, x: int) -> Chip8View {
        let key = self.keypad.wait_result();
        let polled = Chip8View { keypad: self.keypad.after_wait(), ..self };
        if key == NO_KEY {
            polled
        } else {
            polled.set_v(x, key)
        }
    }

    /// `Fx33`: the hundreds, tens and ones of `Vx` go to the three bytes at
    /// `I`.
    pub open spec fn bcd_stored(self, x: int) -> Result<Chip8View, Fault> {
        if self.i + 2 >= RAM_SIZE {
            Err(Fault::AddressOutOfRange)
        } else {
            let value = self.v[x];
            Ok(
                Chip8View {
                    ram: self.ram.update(self.i as int, value / 100).update(
                        self.i + 1,
                        value % 100 / 10,
                    ).update(self.i + 2, value % 10),
                    ..self
                },
            )
        }
    }

    /// `Fx55`: the registers `V0` to `Vx` go to the bytes at `I`.
    pub open spec fn registers_stored(self, x: int) -> Result<Chip8View, Fault> {
        let last = last_register(x);
        if self.i + last >= RAM_SIZE {
            Err(Fault::AddressOutOfRange)
        } else {
            Ok(
                Chip8View {
                    ram: Seq::new(
                        RAM_SIZE as nat,
                        |a: int|
                            if self.i <= a <= self.i + last {
                                self.v[a - self.i]
                            } else {
                                self.ram[a]
                            },
                    ),
                    ..self
                },
            )
        }
    }

    /// `Fx65`: the registers `V0` to `Vx` take the bytes at `I`.
    pub open spec fn registers_loaded(self, x: int) -> Result<Chip8View, Fault> {
        let last = last_register(x);
        if self.i + last >= RAM_SIZE {
            Err(Fault::AddressOutOfRange)
        } else {
            Ok(
                Chip8View {
                    v: Seq::new(
                        16,
                        |k: int|
                            if k <= last {
                                self.ram[self.i + k]
                            } else {
                                self.v[k]
                            },
                    ),
                    ..self
                },
            )
        }
    }

    /// `Fx07`, `Fx15`, `Fx18`: the machine with its timers replaced.
    pub open spec fn set_timers(self, timers: TimerView) -> Chip8View {
        Chip8View { timers, ..self }
    }

    /// `00E0`: the machine with a blank screen.
    pub open spec fn screen_cleared(self) -> Chip8View {
        Chip8View { display: DisplayView::blank(), ..self }
    }

    /// The machine after `instruction`, program counter included, or the
    /// fault that stops it. `random` is the byte that chance supplies, which
    /// only [`Instruction::Random`] looks at.
    pub open spec fn executed(self, instruction: Instruction, random: u8) -> Result<
        Chip8View,
        Fault,
    > {
        match instruction {
            Instruction::ClearScreen => Ok(self.screen_cleared().advanced(2)),
            Instruction::Return => self.returned(),
            Instruction::Jump { nnn } => Ok(self.jumped(nnn)),
            Instruction::Call { nnn } => self.called(nnn),
            Instruction::SkipIfEqual { x, kk } => Ok(self.advanced(skip(self.v[x as int] == kk))),
            Instruction::SkipIfNotEqual { x, kk } => Ok(
                self.advanced(skip(self.v[x as int] != kk)),
            ),
            Instruction::SkipIfRegistersEqual { x, y } => Ok(
                self.advanced(skip(self.v[x as int] == self.v[y as int])),
            ),
            Instruction::Load { x, kk } => Ok(self.set_v(x as int, kk).advanced(2)),
            Instruction::Add { x, kk } => Ok(
                self.set_v(x as int, wrap8(self.v[x as int] + kk)).advanced(2),
            ),
            Instruction::Copy { x, y } => Ok(self.set_v(x as int, self.v[y as int]).advanced(2)),
            Instruction::Or { x, y } => Ok(
                self.set_v(x as int, self.v[x as int] | self.v[y as int]).advanced(2),
            ),
            Instruction::And { x, y } => Ok(
                self.set_v(x as int, self.v[x as int] & self.v[y as int]).advanced(2),
            ),
            Instruction::Xor { x, y } => Ok(
                self.set_v(x as int, self.v[x as int] ^ self.v[y as int]).advanced(2),
            ),
            Instruction::AddRegisters { x, y } => Ok(self.added(x as int, y as int).advanced(2)),
            Instruction::Subtract { x, y } => Ok(self.subtracted(x as int, y as int).advanced(2)),
            Instruction::ShiftRight { x } => Ok(self.shifted_right(x as int).advanced(2)),
            Instruction::SubtractFrom { x, y } => Ok(
                self.subtracted_from(x as int, y as int).advanced(2),
            ),
            Instruction::ShiftLeft { x } => Ok(self.shifted_left(x as int).advanced(2)),
            Instruction::SkipIfRegistersNotEqual { x, y } => Ok(
                self.advanced(skip(self.v[x as int] != self.v[y as int])),
            ),
            Instruction::LoadIndex { nnn } => Ok(self.set_i(nnn).advanced(2)),
            Instruction::JumpOffset { nnn } => Ok(self.jumped(wrap16(nnn + self.v[0]))),
            Instruction::Random { x, kk } => Ok(self.set_v(x as int, random & kk).advanced(2)),
            Instruction::Draw { x, y, n } => match self.sprite_drawn(x as int, y as int, n as int) {
                Ok(drawn) => Ok(drawn.advanced(2)),
                Err(fault) => Err(fault),
            },
            Instruction::SkipIfKeyDown { x } => match self.key_down(x as int) {
                Ok(down) => Ok(self.advanced(skip(down))),
                Err(fault) => Err(fault),
            },
            Instruction::SkipIfKeyUp { x } => match self.key_down(x as int) {
                Ok(down) => Ok(self.advanced(skip(!down))),
                Err(fault) => Err(fault),
            },
            Instruction::ReadDelay { x } => Ok(self.set_v(x as int, self.timers.delay).advanced(2)),
            Instruction::WaitForKey { x } => Ok(
                self.key_awaited(x as int).advanced(
                    if self.keypad.wait_result() == NO_KEY {
                        0
                    } else {
                        2
                    },
                ),
            ),
            Instruction::SetDelay { x } => Ok(
                self.set_timers(TimerView { delay: self.v[x as int], ..self.timers }).advanced(2),
            ),
            Instruction::SetSound { x } => Ok(
                self.set_timers(TimerView { sound: self.v[x as int], ..self.timers }).advanced(2),
            ),
            Instruction::AddToIndex { x } => Ok(
                self.set_i(wrap16(self.i + self.v[x as int])).advanced(2),
            ),
            Instruction::LoadFont { x } => Ok(
                self.set_i((self.v[x as int] * 5) as u16).advanced(2),
            ),
            Instruction::StoreBcd { x } => match self.bcd_stored(x as int) {
                Ok(stored) => Ok(stored.advanced(2)),
                Err(fault) => Err(fault),
            },
            Instruction::StoreRegisters { x } => match self.registers_stored(x as int) {
                Ok(stored) => Ok(stored.advanced(2)),
                Err(fault) => Err(fault),
            },
            Instruction::LoadRegisters { x } => match self.registers_loaded(x as int) {
                Ok(loaded) => Ok(loaded.advanced(2)),
                Err(fault) => Err(fault),
            },
            Instruction::Unimplemented => Ok(self.advanced(2)),
        }
    }

    /// The machine after the instruction word `opcode`, and what is reported
    /// of it. A word that is no instruction is skipped; a fault leaves the
    /// machine as it was.
    pub open spec fn run(self, opcode: u16, random: u8) -> (Chip8View, Result<Outcome, Fault>) {
        let instruction = decode_spec(opcode);
        match self.executed(instruction, random) {
            Ok(next) => (
                next,
                Ok(
                    if instruction == Instruction::Unimplemented {
                        Outcome::Unimplemented(opcode)
                    } else {
                        Outcome::Executed
                    },
                ),
            ),
            Err(fault) => (self, Err(fault)),
        }
    }

    /// Whether the two bytes at the program counter lie within memory.
    pub open spec fn can_fetch(self) -> bool {
        self.pc + 1 < RAM_SIZE
    }

    /// The machine after one cycle, and what is reported of it: the word at
    /// the program counter is run, and then the timers count down by
    /// `elapsed_ms` milliseconds. A fault leaves the machine as it was.
    pub open spec fn cycled(self, random: u8, elapsed_ms: u64) -> (
        Chip8View,
        Result<Outcome, Fault>,
    ) {
        if !self.can_fetch() {
            (self, Err(Fault::AddressOutOfRange))
        } else {
            let (next, result) = self.run(opcode_at(self.ram, self.pc as int), random);
            if result is Ok {
                (next.set_timers(next.timers.advanced(elapsed_ms)), result)
            } else {
                (self, result)
            }
        }
    }
}

} // verus!
