use vstd::prelude::*;
use crate::instruction::Instruction;

verus! {

/// Why an instruction was not carried out.
#[derive(Debug, Clone, Copy, PartialEq, Eq, Structural)]
pub enum ExecuteError {
    /// The instruction is a valid one that this machine does not implement.
    UnimplementedOpcode,
    /// The instruction stands for an opcode that matched no pattern.
    UnknownOpcode,
}

/// Index of the flag register `VF`.
pub const FLAG_REGISTER: usize = 0xF;

/// The machine as a mathematical value.
pub struct MachineState {
    /// The sixteen general-purpose registers `V0` to `VF`.
    pub registers: Seq<u8>,
    /// The 4096 bytes of memory.
    pub memory: Seq<u8>,
    /// The index register `I`.
    pub index: u16,
    /// The delay timer.
    pub delay: u8,
    /// The sound timer.
    pub sound: u8,
    /// The return addresses, the most recent one last.
    pub stack: Seq<u16>,
    /// The program counter.
    pub program_counter: u16,
}

impl MachineState {
    /// Whether the register file and the memory have their fixed sizes.
    pub open spec fn well_formed(self) -> bool {
        &&& self.registers.len() == 16
        &&& self.memory.len() == 4096
    }

    /// The value of register `Vx`.
    pub open spec fn v(self, x: usize) -> u8 {
        self.registers[x as int]
    }

    /// The machine with register `Vx` set to `value`.
    pub open spec fn with_register(self, x: usize, value: u8) -> MachineState {
        MachineState { registers: self.registers.update(x as int, value), ..self }
    }

    /// The machine with the program counter set to `address`.
    pub open spec fn with_program_counter(self, address: u16) -> MachineState {
        MachineState { program_counter: address, ..self }
    }

    /// The machine with the program counter moved past the next instruction
    /// if `condition` holds, and unchanged if it does not.
    pub open spec fn skip_if(self, condition: bool) -> MachineState {
        if condition {
            self.with_program_counter((self.program_counter + 2) as u16)
        } else {
            self
        }
    }
}

/// The low twelve bits of `value`: the part of it that addresses memory.
pub open spec fn address_part(value: u16) -> u16 {
    (value % 4096) as u16
}

/// The flag as a register value.
pub open spec fn flag(raised: bool) -> u8 {
    if raised {
        1u8
    } else {
        0u8
    }
}

/// Whether the machine can carry out the instruction: its register operands
/// exist, and the program counter that it asks for fits in sixteen bits.
pub open spec fn executable(s: MachineState, instruction: Instruction) -> bool {
    &&& instruction.registers_in_range()
    &&& match instruction {
        Instruction::SeByte(x, kk) => s.v(x) == kk ==> s.program_counter + 2 <= u16::MAX,
        Instruction::SneByte(x, kk) => s.v(x) != kk ==> s.program_counter + 2 <= u16::MAX,
        Instruction::Se(x, y) => s.v(x) == s.v(y) ==> s.program_counter + 2 <= u16::MAX,
        Instruction::Sne(x, y) => s.v(x) != s.v(y) ==> s.program_counter + 2 <= u16::MAX,
        Instruction::JpV0(addr) => addr + s.v(0) <= u16::MAX,
        _ => true,
    }
}

/// What carrying out the instruction reports: the two unimplemented
/// instructions and an unknown opcode are told apart from success and from
/// each other.
pub open spec fn outcome(instruction: Instruction) -> Result<(), ExecuteError> {
    match instruction {
        Instruction::Sys(_) => Err(ExecuteError::UnimplementedOpcode),
        Instruction::Cls => Err(ExecuteError::UnimplementedOpcode),
        Instruction::Unknown(_) => Err(ExecuteError::UnknownOpcode),
        _ => Ok(()),
    }
}

/// The machine after one instruction. `random` is the byte drawn for
/// [`Instruction::Rnd`]; no other instruction looks at it.
///
/// Operands are read from the machine as it was before the instruction.
/// Where an instruction writes both `Vx` and the flag register, the later
/// write wins when `x` names the flag register: the carry for `Add`, the
/// result for `Sub`, `Subn`, `Shr` and `Shl`.
pub open spec fn step(s: MachineState, instruction: Instruction, random: u8) -> MachineState {
    match instruction {
        Instruction::Sys(_) => s,
        Instruction::Cls => s,
        Instruction::Unknown(_) => s,
        Instruction::Ret => if s.stack.len() > 0 {
            MachineState {
                program_counter: address_part(s.stack.last()),
                stack: s.stack.drop_last(),
                ..s
            }
        } else {
            s
        },
        Instruction::Jp(addr) => s.with_program_counter(addr),
        Instruction::Call(addr) => MachineState {
            program_counter: address_part(addr),
            stack: s.stack.push(s.program_counter),
            ..s
        },
        Instruction::SeByte(x, kk) => s.skip_if(s.v(x) == kk),
        Instruction::SneByte(x, kk) => s.skip_if(s.v(x) != kk),
        Instruction::Se(x, y) => s.skip_if(s.v(x) == s.v(y)),
        Instruction::Sne(x, y) => s.skip_if(s.v(x) != s.v(y)),
        Instruction::LdByte(x, kk) => s.with_register(x, kk),
        Instruction::AddByte(x, kk) => s.with_register(x, ((s.v(x) + kk) % 256) as u8),
        Instruction::Ld(x, y) => s.with_register(x, s.v(y)),
        Instruction::Or(x, y) => s.with_register(x, s.v(x) | s.v(y)),
        Instruction::And(x, y) => s.with_register(x, s.v(x) & s.v(y)),
        Instruction::Xor(x, y) => s.with_register(x, s.v(x) ^ s.v(y)),
        Instruction::Add(x, y) => s.with_register(x, ((s.v(x) + s.v(y)) % 256) as u8).with_register(
            FLAG_REGISTER,
            flag(s.v(x) + s.v(y) > 255),
        ),
        Instruction::Sub(x, y) => s.with_register(FLAG_REGISTER, flag(s.v(x) > s.v(y))).with_register(
            x,
            ((s.v(x) - s.v(y)) % 256) as u8,
        ),
        Instruction::Subn(x, y) => s.with_register(
            FLAG_REGISTER,
            flag(s.v(y) > s.v(x)),
        ).with_register(x, ((s.v(y) - s.v(x)) % 256) as u8),
        Instruction::Shr(x) => s.with_register(FLAG_REGISTER, s.v(x) % 2).with_register(
            x,
            s.v(x) / 2,
        ),
        Instruction::Shl(x) => s.with_register(FLAG_REGISTER, s.v(x) / 128).with_register(
            x,
            ((s.v(x) * 2) % 256) as u8,
        ),
        Instruction::Ldi(value) => MachineState { index: value, ..s },
        Instruction::JpV0(addr) => s.with_program_counter((addr + s.v(0)) as u16),
        Instruction::Rnd(x, mask) => s.with_register(x, random & mask),
        Instruction::LdVxDelay(x) => s.with_register(x, s.delay),
        Instruction::LdDelayVx(x) => MachineState { delay: s.v(x), ..s },
    }
}

} // verus!
