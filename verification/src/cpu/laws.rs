//! Laws of the instruction set, stated of instruction words and proved from
//! the model.

use crate::cpu::decode::{decode_spec, nibbles, Instruction};
use crate::cpu::model::{flag, Chip8View};
use crate::cpu::{Fault, Outcome};
use vstd::arithmetic::div_mod::lemma_fundamental_div_mod_converse;
use vstd::prelude::*;

verus! {

/// The instruction word with first nibble `op`, register nibble `x` and
/// constant `kk`.
pub open spec fn word_xkk(op: int, x: int, kk: u8) -> u16 {
    (op * 0x1000 + x * 0x100 + kk) as u16
}

/// The instruction word with first nibble `op`, register nibbles `x` and `y`
/// and last nibble `n`.
pub open spec fn word_xyn(op: int, x: int, y: int, n: int) -> u16 {
    (op * 0x1000 + x * 0x100 + y * 0x10 + n) as u16
}

/// The instruction word with first nibble `op` and address `nnn`.
pub open spec fn word_nnn(op: int, nnn: int) -> u16 {
    (op * 0x1000 + nnn) as u16
}

/// The nibbles of a word are the nibbles it was made of.
proof fn lemma_nibbles(op: int, x: int, y: int, n: int)
    requires
        0 <= op < 16,
        0 <= x < 16,
        0 <= y < 16,
        0 <= n < 16,
    ensures
        nibbles(word_xyn(op, x, y, n)) == (op, x, y, n),
        word_xyn(op, x, y, n) % 0x100 == y * 0x10 + n,
        word_xyn(op, x, y, n) % 0x1000 == x * 0x100 + y * 0x10 + n,
        word_xyn(op, x, y, n) == op * 0x1000 + x * 0x100 + y * 0x10 + n,
{
    let word = op * 0x1000 + x * 0x100 + y * 0x10 + n;
    lemma_fundamental_div_mod_converse(word, 0x1000, op, x * 0x100 + y * 0x10 + n);
    lemma_fundamental_div_mod_converse(word, 0x100, op * 0x10 + x, y * 0x10 + n);
    lemma_fundamental_div_mod_converse(word, 0x10, op * 0x100 + x * 0x10 + y, n);
    lemma_fundamental_div_mod_converse(op * 0x10 + x, 0x10, op, x);
    lemma_fundamental_div_mod_converse(op * 0x100 + x * 0x10 + y, 0x10, op * 0x10 + x, y);
}

/// A byte or an address is made of its nibbles.
proof fn lemma_split(value: int)
    requires
        0 <= value < 0x1000,
    ensures
        value == (value / 0x100) * 0x100 + (value / 0x10 % 0x10) * 0x10 + value % 0x10,
        0 <= value / 0x100 < 0x10,
        0 <= value / 0x10 % 0x10 < 0x10,
        0 <= value % 0x10 < 0x10,
        value < 0x100 ==> value / 0x100 == 0 && value / 0x10 % 0x10 == value / 0x10,
{
}

/// Words of the forms `6xkk`, `7xkk`, `8xy4`, `8xy5`, `2nnn` and `00EE`
/// stand for the instructions of those names.
proof fn lemma_decode(x: int, y: int, n: int)
    requires
        0 <= x < 16,
        0 <= y < 16,
        0 <= n < 16,
    ensures
        decode_spec(word_xyn(0x6, x, y, n)) == (Instruction::Load {
            x: x as usize,
            kk: (y * 0x10 + n) as u8,
        }),
        decode_spec(word_xyn(0x7, x, y, n)) == (Instruction::Add {
            x: x as usize,
            kk: (y * 0x10 + n) as u8,
        }),
        decode_spec(word_xyn(0x8, x, y, 0x4)) == (Instruction::AddRegisters {
            x: x as usize,
            y: y as usize,
        }),
        decode_spec(word_xyn(0x8, x, y, 0x5)) == (Instruction::Subtract {
            x: x as usize,
            y: y as usize,
        }),
        decode_spec(word_xyn(0x2, x, y, n)) == (Instruction::Call {
            nnn: (x * 0x100 + y * 0x10 + n) as u16,
        }),
        decode_spec(0x00EE) == Instruction::Return,
{
    lemma_nibbles(0x6, x, y, n);
    lemma_nibbles(0x7, x, y, n);
    lemma_nibbles(0x8, x, y, 0x4);
    lemma_nibbles(0x8, x, y, 0x5);
    lemma_nibbles(0x2, x, y, n);
}

/// `6xkk` leaves exactly `kk` in `Vx`, and `7xkk` leaves `Vx + kk` modulo
/// 256 there. Both move on to the next instruction.
pub proof fn lemma_load_and_add(s: Chip8View, x: int, kk: u8, random: u8)
    requires
        s.wf(),
        0 <= x < 16,
    ensures
        s.run(word_xkk(0x6, x, kk), random).1 == Ok::<Outcome, Fault>(Outcome::Executed),
        s.run(word_xkk(0x6, x, kk), random).0 == s.set_v(x, kk).advanced(2),
        s.run(word_xkk(0x6, x, kk), random).0.v[x] == kk,
        s.run(word_xkk(0x7, x, kk), random).1 == Ok::<Outcome, Fault>(Outcome::Executed),
        s.run(word_xkk(0x7, x, kk), random).0.v[x] == (s.v[x] + kk) % 256,
        forall|k: int|
            0 <= k < 16 && k != x ==> s.run(word_xkk(0x7, x, kk), random).0.v[k] == s.v[k],
{
    lemma_split(kk as int);
    lemma_decode(x, kk as int / 0x10, kk as int % 0x10);
    assert(word_xkk(0x6, x, kk) == word_xyn(0x6, x, kk as int / 0x10, kk as int % 0x10));
    assert(word_xkk(0x7, x, kk) == word_xyn(0x7, x, kk as int / 0x10, kk as int % 0x10));
    assert(decode_spec(word_xkk(0x6, x, kk)) == (Instruction::Load { x: x as usize, kk }));
    assert(decode_spec(word_xkk(0x7, x, kk)) == (Instruction::Add { x: x as usize, kk }));
}

/// `8xy4` leaves `Vx + Vy` modulo 256 in `Vx`; and unless `Vx` is the flag
/// register itself, the flag register is 1 if the sum exceeds 255, and 0
/// otherwise.
pub proof fn lemma_add_registers(s: Chip8View, x: int, y: int, random: u8)
    requires
        s.wf(),
        0 <= x < 16,
        0 <= y < 16,
    ensures
        s.run(word_xyn(0x8, x, y, 0x4), random).1 == Ok::<Outcome, Fault>(Outcome::Executed),
        s.run(word_xyn(0x8, x, y, 0x4), random).0.v[x] == (s.v[x] + s.v[y]) % 256,
        x != 0xF ==> s.run(word_xyn(0x8, x, y, 0x4), random).0.v[0xF] == flag(
            s.v[x] + s.v[y] > 255,
        ),
{
    lemma_decode(x, y, 0);
}

/// `8xy5` sets the flag register to 1 if `Vx > Vy` before the subtraction,
/// and to 0 otherwise, unless `Vx` is the flag register itself; and where
/// neither `Vx` nor `Vy` is the flag register, `Vx` is left holding
/// `Vx - Vy` modulo 256.
pub proof fn lemma_subtract(s: Chip8View, x: int, y: int, random: u8)
    requires
        s.wf(),
        0 <= x < 16,
        0 <= y < 16,
    ensures
        s.run(word_xyn(0x8, x, y, 0x5), random).1 == Ok::<Outcome, Fault>(Outcome::Executed),
        x != 0xF ==> s.run(word_xyn(0x8, x, y, 0x5), random).0.v[0xF] == flag(s.v[x] > s.v[y]),
        x != 0xF && y != 0xF ==> s.run(word_xyn(0x8, x, y, 0x5), random).0.v[x] == (s.v[x]
            - s.v[y]) % 256,
{
    lemma_decode(x, y, 0);
}

/// A call followed by a return: `2nnn` goes to `nnn` with one more call in
/// progress; `00EE` then comes back to the instruction after the call, with
/// the stack pointer as it was before the call. Nothing but the stack slot
/// of the call has changed.
pub proof fn lemma_call_then_return(s: Chip8View, nnn: int, random: u8)
    requires
        s.wf(),
        0 <= nnn < 0x1000,
        s.sp < 16,
    ensures
        ({
            let (called, call_result) = s.run(word_nnn(0x2, nnn), random);
            let (back, return_result) = called.run(0x00EE, random);
            &&& call_result == Ok::<Outcome, Fault>(Outcome::Executed)
            &&& called.pc == nnn
            &&& called.sp == s.sp + 1
            &&& return_result == Ok::<Outcome, Fault>(Outcome::Executed)
            &&& back.pc == (s.pc + 2) % 0x10000
            &&& back.sp == s.sp
            &&& back == (Chip8View { pc: back.pc, stack: called.stack, ..s })
        }),
{
    lemma_split(nnn);
    lemma_decode(nnn / 0x100, nnn / 0x10 % 0x10, nnn % 0x10);
    assert(word_nnn(0x2, nnn) == word_xyn(0x2, nnn / 0x100, nnn / 0x10 % 0x10, nnn % 0x10));
    assert(decode_spec(word_nnn(0x2, nnn)) == (Instruction::Call { nnn: nnn as u16 }));
}

/// A call with sixteen calls in progress and a return with none are
/// faults, and leave the machine as it was.
pub proof fn lemma_stack_limits(s: Chip8View, nnn: int, random: u8)
    requires
        s.wf(),
        0 <= nnn < 0x1000,
    ensures
        s.sp >= 16 ==> s.run(word_nnn(0x2, nnn), random) == (
            s,
            Err::<Outcome, Fault>(Fault::StackOverflow),
        ),
        s.sp == 0 ==> s.run(0x00EE, random) == (s, Err::<Outcome, Fault>(Fault::StackUnderflow)),
{
    lemma_split(nnn);
    lemma_decode(nnn / 0x100, nnn / 0x10 % 0x10, nnn % 0x10);
    assert(word_nnn(0x2, nnn) == word_xyn(0x2, nnn / 0x100, nnn / 0x10 % 0x10, nnn % 0x10));
    assert(decode_spec(word_nnn(0x2, nnn)) == (Instruction::Call { nnn: nnn as u16 }));
}

} // verus!
