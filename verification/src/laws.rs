//! Laws of the instruction set, proved over the machine as a mathematical value.

use vstd::prelude::*;
use crate::chip::Chip;
use crate::instruction::Instruction;
use crate::random::{RandomSource, ScriptedSource};
use crate::semantics::{address_part, executable, outcome, step, MachineState, FLAG_REGISTER};

verus! {

/// A machine always has sixteen registers and 4096 bytes of memory.
pub proof fn lemma_chip_is_well_formed(chip: Chip)
    ensures
        chip@.well_formed(),
{
}

/// An instruction keeps the register file and the memory at their sizes,
/// and never writes to memory.
pub proof fn lemma_step_keeps_shape(s: MachineState, instruction: Instruction, random: u8)
    requires
        s.well_formed(),
        instruction.registers_in_range(),
    ensures
        step(s, instruction, random).well_formed(),
        step(s, instruction, random).memory == s.memory,
        step(s, instruction, random).sound == s.sound,
{
}

/// Only [`Instruction::Rnd`] looks at the random byte.
pub proof fn lemma_only_rnd_draws(s: MachineState, instruction: Instruction, a: u8, b: u8)
    requires
        !(instruction is Rnd),
    ensures
        step(s, instruction, a) == step(s, instruction, b),
{
}

/// After `LdByte(x, kk)`, register `Vx` reads `kk`; no other register and
/// nothing else in the machine changes.
pub proof fn lemma_ld_byte_then_read(s: MachineState, x: usize, kk: u8, random: u8)
    requires
        s.well_formed(),
        x < 16,
    ensures
        step(s, Instruction::LdByte(x, kk), random).v(x) == kk,
        step(s, Instruction::LdByte(x, kk), random) == s.with_register(x, kk),
        forall|other: usize|
            other < 16 && other != x ==> step(s, Instruction::LdByte(x, kk), random).v(other)
                == s.v(other),
{
}

/// `AddByte(x, kk)` adds modulo 256 and touches no register but `Vx`: the
/// flag register keeps its value unless it is `Vx` itself.
pub proof fn lemma_add_byte_wraps(s: MachineState, x: usize, kk: u8, random: u8)
    requires
        s.well_formed(),
        x < 16,
    ensures
        step(s, Instruction::AddByte(x, kk), random).v(x) == (s.v(x) + kk) % 256,
        s.v(x) + kk < 256 ==> step(s, Instruction::AddByte(x, kk), random).v(x) == s.v(x) + kk,
        s.v(x) + kk >= 256 ==> step(s, Instruction::AddByte(x, kk), random).v(x) == s.v(x) + kk
            - 256,
        forall|other: usize|
            other < 16 && other != x ==> step(s, Instruction::AddByte(x, kk), random).v(other)
                == s.v(other),
        x != FLAG_REGISTER ==> step(s, Instruction::AddByte(x, kk), random).v(FLAG_REGISTER)
            == s.v(FLAG_REGISTER),
{
}

/// `Or`, `And` and `Xor` leave the flag register alone unless it is `Vx` itself.
pub proof fn lemma_bitwise_keeps_flag(s: MachineState, x: usize, y: usize, random: u8)
    requires
        s.well_formed(),
        x < 16,
        y < 16,
        x != FLAG_REGISTER,
    ensures
        step(s, Instruction::Or(x, y), random).v(FLAG_REGISTER) == s.v(FLAG_REGISTER),
        step(s, Instruction::And(x, y), random).v(FLAG_REGISTER) == s.v(FLAG_REGISTER),
        step(s, Instruction::Xor(x, y), random).v(FLAG_REGISTER) == s.v(FLAG_REGISTER),
{
}

/// `Add(x, y)` reads both operands before it writes: `Vx` becomes the sum
/// modulo 256 and the flag register the carry, also where `y` names the
/// flag register. The carry is written last, so it is what the flag
/// register holds even where `x` names it.
pub proof fn lemma_add_carries(s: MachineState, x: usize, y: usize, random: u8)
    requires
        s.well_formed(),
        x < 16,
        y < 16,
    ensures
        x != FLAG_REGISTER ==> step(s, Instruction::Add(x, y), random).v(x) == (s.v(x) + s.v(y))
            % 256,
        step(s, Instruction::Add(x, y), random).v(FLAG_REGISTER) == (if s.v(x) + s.v(y) > 255 {
            1u8
        } else {
            0u8
        }),
        forall|other: usize|
            other < 16 && other != x && other != FLAG_REGISTER ==> step(
                s,
                Instruction::Add(x, y),
                random,
            ).v(other) == s.v(other),
{
}

/// `Sub(x, y)` reads both operands before it writes: `Vx` becomes the
/// difference modulo 256, and the flag register says whether `Vx` was
/// greater than `Vy`. Where `x` names the flag register the difference is
/// what it holds.
pub proof fn lemma_sub_borrows(s: MachineState, x: usize, y: usize, random: u8)
    requires
        s.well_formed(),
        x < 16,
        y < 16,
    ensures
        step(s, Instruction::Sub(x, y), random).v(x) == (s.v(x) - s.v(y)) % 256,
        s.v(x) >= s.v(y) ==> step(s, Instruction::Sub(x, y), random).v(x) == s.v(x) - s.v(y),
        s.v(x) < s.v(y) ==> step(s, Instruction::Sub(x, y), random).v(x) == 256 + s.v(x) - s.v(
            y,
        ),
        x != FLAG_REGISTER ==> step(s, Instruction::Sub(x, y), random).v(FLAG_REGISTER) == (if s.v(
            x,
        ) > s.v(y) {
            1u8
        } else {
            0u8
        }),
        forall|other: usize|
            other < 16 && other != x && other != FLAG_REGISTER ==> step(
                s,
                Instruction::Sub(x, y),
                random,
            ).v(other) == s.v(other),
{
}

/// `Subn(x, y)` is `Sub` with the operands exchanged: `Vx` becomes
/// `Vy - Vx` modulo 256, and the flag register says whether `Vy` was
/// greater than `Vx`.
pub proof fn lemma_subn_mirrors_sub(s: MachineState, x: usize, y: usize, random: u8)
    requires
        s.well_formed(),
        x < 16,
        y < 16,
    ensures
        step(s, Instruction::Subn(x, y), random).v(x) == (s.v(y) - s.v(x)) % 256,
        x != FLAG_REGISTER ==> step(s, Instruction::Subn(x, y), random).v(FLAG_REGISTER) == (if s.v(
            y,
        ) > s.v(x) {
            1u8
        } else {
            0u8
        }),
{
}

/// Adding `Vy` to `Vx` and then subtracting it again gives `Vx` back,
/// whether or not the sum wrapped.
pub proof fn lemma_add_then_sub_restores(s: MachineState, x: usize, y: usize, r1: u8, r2: u8)
    requires
        s.well_formed(),
        x < 16,
        y < 16,
        x != y,
        x != FLAG_REGISTER,
        y != FLAG_REGISTER,
    ensures
        step(step(s, Instruction::Add(x, y), r1), Instruction::Sub(x, y), r2).v(x) == s.v(x),
{
}

/// `Shr` moves bit 0 of `Vx` into the flag register and halves `Vx`.
pub proof fn lemma_shr_halves(s: MachineState, x: usize, random: u8)
    requires
        s.well_formed(),
        x < 16,
    ensures
        step(s, Instruction::Shr(x), random).v(x) == s.v(x) >> 1,
        step(s, Instruction::Shr(x), random).v(x) == s.v(x) / 2,
        x != FLAG_REGISTER ==> step(s, Instruction::Shr(x), random).v(FLAG_REGISTER) == s.v(x)
            & 1,
        x != FLAG_REGISTER ==> step(s, Instruction::Shr(x), random).v(FLAG_REGISTER) == s.v(x)
            % 2,
{
    let v = s.v(x);
    assert(v >> 1 == v / 2) by (bit_vector);
    assert(v & 1 == v % 2) by (bit_vector);
}

/// `Shl` moves bit 7 of `Vx` into the flag register and doubles `Vx`
/// modulo 256: the bit shifted out is kept nowhere else.
pub proof fn lemma_shl_doubles(s: MachineState, x: usize, random: u8)
    requires
        s.well_formed(),
        x < 16,
    ensures
        step(s, Instruction::Shl(x), random).v(x) == s.v(x) << 1,
        step(s, Instruction::Shl(x), random).v(x) == (s.v(x) * 2) % 256,
        x != FLAG_REGISTER ==> step(s, Instruction::Shl(x), random).v(FLAG_REGISTER) == (s.v(x)
            & 0x80) >> 7,
        x != FLAG_REGISTER ==> step(s, Instruction::Shl(x), random).v(FLAG_REGISTER) == s.v(x)
            / 128,
{
    let v = s.v(x);
    assert(v << 1 == (v * 2) % 256) by (bit_vector);
    assert((v & 0x80) >> 7 == v / 128) by (bit_vector);
}

/// `Shr` followed by `Shl` does not give `Vx` back: bit 0 is lost, so the
/// register ends as the even number at or just below its first value, and
/// the flag register ends at zero.
pub proof fn lemma_shr_then_shl_loses_low_bit(s: MachineState, x: usize, r1: u8, r2: u8)
    requires
        s.well_formed(),
        x < 16,
    ensures
        step(step(s, Instruction::Shr(x), r1), Instruction::Shl(x), r2).v(x) == s.v(x) - s.v(x)
            % 2,
        x != FLAG_REGISTER ==> step(step(s, Instruction::Shr(x), r1), Instruction::Shl(x), r2).v(
            FLAG_REGISTER,
        ) == 0,
        x != FLAG_REGISTER ==> step(s, Instruction::Shr(x), r1).v(FLAG_REGISTER) == s.v(x) % 2,
{
}

/// `Shl` followed by `Shr` does not give `Vx` back: bit 7 is lost, so the
/// register ends as its first value modulo 128, and the flag register ends
/// at zero.
pub proof fn lemma_shl_then_shr_loses_high_bit(s: MachineState, x: usize, r1: u8, r2: u8)
    requires
        s.well_formed(),
        x < 16,
    ensures
        step(step(s, Instruction::Shl(x), r1), Instruction::Shr(x), r2).v(x) == s.v(x) % 128,
        x != FLAG_REGISTER ==> step(step(s, Instruction::Shl(x), r1), Instruction::Shr(x), r2).v(
            FLAG_REGISTER,
        ) == 0,
        x != FLAG_REGISTER ==> step(s, Instruction::Shl(x), r1).v(FLAG_REGISTER) == s.v(x) / 128,
{
}

/// `Rnd(x, mask)` stores the drawn byte under the mask: `Vx` is the bitwise
/// AND of the two, which is never above the mask, and no other register
/// changes.
pub proof fn lemma_rnd_masks_the_draw(s: MachineState, x: usize, mask: u8, random: u8)
    requires
        s.well_formed(),
        x < 16,
    ensures
        step(s, Instruction::Rnd(x, mask), random).v(x) == random & mask,
        step(s, Instruction::Rnd(x, mask), random).v(x) <= mask,
        step(s, Instruction::Rnd(x, mask), random).v(x) <= random,
        forall|other: usize|
            other < 16 && other != x ==> step(s, Instruction::Rnd(x, mask), random).v(other)
                == s.v(other),
{
    assert(random & mask <= mask) by (bit_vector);
    assert(random & mask <= random) by (bit_vector);
}

/// A scripted source admits exactly one draw: its upcoming byte, after
/// which it stands one place further in the same script.
pub proof fn lemma_scripted_draw_is_determined(
    source: ScriptedSource,
    byte: u8,
    rest: ScriptedSource,
)
    requires
        source.may_draw(byte, rest),
    ensures
        byte == source.upcoming(),
        rest.script() == source.script(),
        rest.position() == source.following(),
        source.script().len() > 0 ==> byte == source.script()[source.position() as int],
{
}

/// A skip instruction moves the program counter by exactly two when its
/// condition holds and changes nothing when it does not.
pub proof fn lemma_skips_advance_by_two(s: MachineState, x: usize, y: usize, kk: u8, random: u8)
    requires
        s.well_formed(),
        x < 16,
        y < 16,
        s.program_counter + 2 <= u16::MAX,
    ensures
        step(s, Instruction::SeByte(x, kk), random) == (if s.v(x) == kk {
            s.with_program_counter((s.program_counter + 2) as u16)
        } else {
            s
        }),
        step(s, Instruction::SneByte(x, kk), random) == (if s.v(x) != kk {
            s.with_program_counter((s.program_counter + 2) as u16)
        } else {
            s
        }),
        step(s, Instruction::Se(x, y), random) == (if s.v(x) == s.v(y) {
            s.with_program_counter((s.program_counter + 2) as u16)
        } else {
            s
        }),
        step(s, Instruction::Sne(x, y), random) == (if s.v(x) != s.v(y) {
            s.with_program_counter((s.program_counter + 2) as u16)
        } else {
            s
        }),
{
}

/// `Call` to a twelve-bit address puts the program counter on the stack and
/// jumps there; a `Ret` that follows it, from a program counter that was
/// itself a twelve-bit address, gives back the machine as it was before the
/// call: the same program counter and the same stack.
pub proof fn lemma_call_then_ret_round_trip(s: MachineState, addr: u16, r1: u8, r2: u8)
    requires
        s.well_formed(),
        addr <= 0xFFF,
        s.program_counter <= 0xFFF,
    ensures
        step(s, Instruction::Call(addr), r1).program_counter == addr,
        step(s, Instruction::Call(addr), r1).stack == s.stack.push(s.program_counter),
        step(step(s, Instruction::Call(addr), r1), Instruction::Ret, r2) == s,
        s.stack.len() == 0 ==> step(
            step(s, Instruction::Call(addr), r1),
            Instruction::Ret,
            r2,
        ).stack.len() == 0,
{
    let called = step(s, Instruction::Call(addr), r1);
    let returned = step(called, Instruction::Ret, r2);
    assert(called.stack.drop_last() =~= s.stack);
    assert(returned =~= s);
}

/// `Call` and `Ret` keep only the low twelve bits of an address, whatever
/// the operand or the stack held.
pub proof fn lemma_call_and_ret_mask_addresses(s: MachineState, addr: u16, random: u8)
    requires
        s.well_formed(),
    ensures
        step(s, Instruction::Call(addr), random).program_counter == address_part(addr),
        step(s, Instruction::Call(addr), random).program_counter <= 0xFFF,
        step(s, Instruction::Call(addr), random).program_counter == addr & 0xFFF,
        s.stack.len() > 0 ==> step(s, Instruction::Ret, random).program_counter <= 0xFFF,
        s.stack.len() > 0 ==> step(s, Instruction::Ret, random).program_counter == s.stack.last()
            & 0xFFF,
{
    assert(addr & 0xFFF == addr % 4096) by (bit_vector);
    if s.stack.len() > 0 {
        let top = s.stack.last();
        assert(top & 0xFFF == top % 4096) by (bit_vector);
    }
}

/// `Ret` on an empty stack changes nothing.
pub proof fn lemma_ret_on_empty_stack_is_inert(s: MachineState, random: u8)
    requires
        s.stack.len() == 0,
    ensures
        step(s, Instruction::Ret, random) == s,
        outcome(Instruction::Ret) is Ok,
{
}

/// An instruction that is reported as unimplemented or unknown changes
/// nothing in the machine. `Sys`, `Cls` and `Unknown` are the instructions
/// that are reported, and the machine can take them in any state.
pub proof fn lemma_failure_changes_nothing(s: MachineState, instruction: Instruction, random: u8)
    ensures
        outcome(instruction) is Err ==> step(s, instruction, random) == s,
        outcome(instruction) is Err <==> (instruction is Sys || instruction is Cls
            || instruction is Unknown),
        outcome(instruction) is Err ==> executable(s, instruction),
{
}

/// Whatever opcode is decoded, the machine can carry out the result unless
/// a skip or a jump would push the program counter past sixteen bits. From
/// a program counter that is a twelve-bit address neither can happen.
pub proof fn lemma_decoded_is_executable(s: MachineState, op: u16)
    requires
        s.well_formed(),
        s.program_counter <= 0xFFF,
    ensures
        executable(s, crate::instruction::decode(op)),
{
    crate::instruction::lemma_decode_operands_in_range(op);
}

} // verus!
