use vstd::prelude::*;
use crate::components::{zero_padded, AddressableStorage, Memory, Register};
use crate::instruction::Instruction;
use crate::random::{RandomSource, ThreadRandom};
use crate::semantics::{executable, outcome, step, ExecuteError, MachineState};

verus! {

/// The machine: memory, register file, program counter and call stack.
pub struct Chip {
    pub memory: Memory,
    pub register: Register,
    pub program_counter: u16,
    pub stack: Vec<u16>,
}

impl View for Chip {
    type V = MachineState;

    open spec fn view(&self) -> MachineState {
        MachineState {
            registers: self.register.values@,
            memory: self.memory.values@,
            index: self.register.i,
            delay: self.register.delay,
            sound: self.register.sound,
            stack: self.stack@,
            program_counter: self.program_counter,
        }
    }
}

/// The machine whose general-purpose registers start with `values` and in
/// which everything else is zero or empty.
pub open spec fn initial_state(values: Seq<u8>) -> MachineState {
    MachineState {
        registers: zero_padded(values, 16),
        memory: zero_padded(Seq::empty(), 4096),
        index: 0,
        delay: 0,
        sound: 0,
        stack: Seq::empty(),
        program_counter: 0,
    }
}

impl Chip {
    /// A machine with every register, timer and memory byte zero, the
    /// program counter at zero and an empty stack.
    pub fn new() -> (chip: Chip)
        ensures
            chip@ == initial_state(Seq::empty()),
    {
        Chip {
            register: Register::new(),
            memory: Memory::new(),
            program_counter: 0,
            stack: Vec::new(),
        }
    }

    /// A machine as [`Chip::new`] makes it, but with the general-purpose
    /// registers starting with `values`.
    pub fn with_register_values(values: &[u8]) -> (chip: Chip)
        ensures
            chip@ == initial_state(values@),
    {
        let mut chip = Chip::new();
        chip.register = Register::with_values(values);
        chip
    }

    /// Carries out one instruction, with `random` as the byte drawn for
    /// [`Instruction::Rnd`]. An unimplemented or unknown instruction is
    /// reported and changes nothing.
    pub fn apply(&mut self, instruction: &Instruction, random: u8) -> (result: Result<
        (),
        ExecuteError,
    >)
        requires
            executable(old(self)@, *instruction),
        ensures
            final(self)@ == step(old(self)@, *instruction, random),
            result == outcome(*instruction),
            result is Err ==> final(self)@ == old(self)@,
    {
        let result = match *instruction {
            Instruction::Sys(_) => Err(ExecuteError::UnimplementedOpcode),
            Instruction::Cls => Err(ExecuteError::UnimplementedOpcode),
            Instruction::Unknown(_) => Err(ExecuteError::UnknownOpcode),
            Instruction::Ret => {
                if let Some(addr) = self.stack.pop() {
                    assert(addr & 0xFFF == addr % 4096) by (bit_vector);
                    self.program_counter = addr & 0xFFF;
                }
                Ok(())
            },
            Instruction::Jp(addr) => {
                self.program_counter = addr;
                Ok(())
            },
            Instruction::Call(addr) => {
                assert(addr & 0xFFF == addr % 4096) by (bit_vector);
                self.stack.push(self.program_counter);
                self.program_counter = addr & 0xFFF;
                Ok(())
            },
            Instruction::SeByte(vx, value) => {
                if self.register.get(vx) == value {
                    self.program_counter += 2;
                }
                Ok(())
            },
            Instruction::SneByte(vx, value) => {
                if self.register.get(vx) != value {
                    self.program_counter += 2;
                }
                Ok(())
            },
            Instruction::Se(vx, vy) => {
                if self.register.get(vx) == self.register.get(vy) {
                    self.program_counter += 2;
                }
                Ok(())
            },
            Instruction::Sne(vx, vy) => {
                if self.register.get(vx) != self.register.get(vy) {
                    self.program_counter += 2;
                }
                Ok(())
            },
            Instruction::LdByte(vx, value) => {
                self.register.set(vx, value);
                Ok(())
            },
            Instruction::AddByte(vx, value) => {
                let value_x: u16 = self.register.get(vx) as u16;
                let sum: u16 = value_x + value as u16;
                assert(sum & 255 == sum % 256) by (bit_vector);
                self.register.set(vx, (sum & 255) as u8);
                Ok(())
            },
            Instruction::Ld(vx, vy) => {
                let value: u8 = self.register.get(vy);
                self.register.set(vx, value);
                Ok(())
            },
            Instruction::Or(vx, vy) => {
                let value_x: u8 = self.register.get(vx);
                let value_y: u8 = self.register.get(vy);
                self.register.set(vx, value_x | value_y);
                Ok(())
            },
            Instruction::And(vx, vy) => {
                let value_x: u8 = self.register.get(vx);
                let value_y: u8 = self.register.get(vy);
                self.register.set(vx, value_x & value_y);
                Ok(())
            },
            Instruction::Xor(vx, vy) => {
                let value_x: u8 = self.register.get(vx);
                let value_y: u8 = self.register.get(vy);
                self.register.set(vx, value_x ^ value_y);
                Ok(())
            },
            Instruction::Add(vx, vy) => {
                let value_x: u16 = self.register.get(vx) as u16;
                let value_y: u16 = self.register.get(vy) as u16;
                let sum: u16 = value_x + value_y;
                let overflow: u8 = if sum > 255 {
                    1
                } else {
                    0
                };
                assert(sum & 255 == sum % 256) by (bit_vector);
                self.register.set(vx, (sum & 255) as u8);
                self.register.set(0xF, overflow);
                Ok(())
            },
            Instruction::Sub(vx, vy) => {
                let value_x: u8 = self.register.get(vx);
                let value_y: u8 = self.register.get(vy);
                let no_borrow: u8 = if value_x > value_y {
                    1
                } else {
                    0
                };
                self.register.set(0xF, no_borrow);
                self.register.set(vx, value_x.wrapping_sub(value_y));
                Ok(())
            },
            Instruction::Shr(vx) => {
                let value_x: u8 = self.register.get(vx);
                let least_sig_bit: u8 = value_x & 0b1;
                assert(value_x & 0b1 == value_x % 2) by (bit_vector);
                assert(value_x >> 1 == value_x / 2) by (bit_vector);
                self.register.set(0xF, least_sig_bit);
                self.register.set(vx, value_x >> 1);
                Ok(())
            },
            Instruction::Subn(vx, vy) => {
                let value_x: u8 = self.register.get(vx);
                let value_y: u8 = self.register.get(vy);
                let no_borrow: u8 = if value_y > value_x {
                    1
                } else {
                    0
                };
                self.register.set(0xF, no_borrow);
                self.register.set(vx, value_y.wrapping_sub(value_x));
                Ok(())
            },
            Instruction::Shl(vx) => {
                let value_x: u8 = self.register.get(vx);
                let most_sig_bit: u8 = (value_x & 0b10000000) >> 7;
                assert((value_x & 0b10000000) >> 7 == value_x / 128) by (bit_vector);
                assert(value_x << 1 == (value_x * 2) % 256) by (bit_vector);
                self.register.set(0xF, most_sig_bit);
                self.register.set(vx, value_x << 1);
                Ok(())
            },
            Instruction::Ldi(value) => {
                self.register.i = value;
                Ok(())
            },
            Instruction::JpV0(addr) => {
                self.program_counter = self.register.get(0) as u16 + addr;
                Ok(())
            },
            Instruction::Rnd(vx, mask) => {
                self.register.set(vx, random & mask);
                Ok(())
            },
            Instruction::LdVxDelay(vx) => {
                let delay: u8 = self.register.delay;
                self.register.set(vx, delay);
                Ok(())
            },
            Instruction::LdDelayVx(vx) => {
                self.register.delay = self.register.get(vx);
                Ok(())
            },
        };
        assert(self@ =~= step(old(self)@, *instruction, random));
        result
    }

    /// Carries out one instruction, drawing from `source` if and only if the
    /// instruction is [`Instruction::Rnd`].
    pub fn execute_with<R: RandomSource>(
        &mut self,
        instruction: &Instruction,
        source: &mut R,
    ) -> (result: Result<(), ExecuteError>)
        requires
            executable(old(self)@, *instruction),
        ensures
            result == outcome(*instruction),
            result is Err ==> final(self)@ == old(self)@,
            *instruction is Rnd ==> exists|byte: u8|
                {
                    &&& #[trigger] old(source).may_draw(byte, *final(source))
                    &&& final(self)@ == step(old(self)@, *instruction, byte)
                },
            !(*instruction is Rnd) ==> {
                &&& *final(source) == *old(source)
                &&& forall|byte: u8|
                    final(self)@ == #[trigger] step(old(self)@, *instruction, byte)
            },
    {
        match *instruction {
            Instruction::Rnd(_, _) => {
                let byte: u8 = source.next_byte();
                self.apply(instruction, byte)
            },
            _ => self.apply(instruction, 0),
        }
    }

    /// Carries out one instruction, with the calling thread's random number
    /// generator behind [`Instruction::Rnd`].
    pub fn execute(&mut self, instruction: &Instruction) -> (result: Result<(), ExecuteError>)
        requires
            executable(old(self)@, *instruction),
        ensures
            result == outcome(*instruction),
            result is Err ==> final(self)@ == old(self)@,
            exists|byte: u8| final(self)@ == #[trigger] step(old(self)@, *instruction, byte),
    {
        let mut source = ThreadRandom;
        let result = self.execute_with(instruction, &mut source);
        proof {
            if !(*instruction is Rnd) {
                assert(self@ == step(old(self)@, *instruction, 0u8));
            }
        }
        result
    }

    /// Whether the machine can carry out the instruction as it stands.
    pub fn can_execute(&self, instruction: &Instruction) -> (ok: bool)
        ensures
            ok == executable(self@, *instruction),
    {
        match *instruction {
            Instruction::SeByte(x, kk) => x < 16 && (self.register.get(x) != kk
                || self.program_counter <= u16::MAX - 2),
            Instruction::SneByte(x, kk) => x < 16 && (self.register.get(x) == kk
                || self.program_counter <= u16::MAX - 2),
            Instruction::Se(x, y) => x < 16 && y < 16 && (self.register.get(x)
                != self.register.get(y) || self.program_counter <= u16::MAX - 2),
            Instruction::Sne(x, y) => x < 16 && y < 16 && (self.register.get(x)
                == self.register.get(y) || self.program_counter <= u16::MAX - 2),
            Instruction::JpV0(addr) => addr <= u16::MAX - self.register.get(0) as u16,
            Instruction::LdByte(x, _) => x < 16,
            Instruction::AddByte(x, _) => x < 16,
            Instruction::Shr(x) => x < 16,
            Instruction::Shl(x) => x < 16,
            Instruction::Rnd(x, _) => x < 16,
            Instruction::LdVxDelay(x) => x < 16,
            Instruction::LdDelayVx(x) => x < 16,
            Instruction::Ld(x, y) => x < 16 && y < 16,
            Instruction::Or(x, y) => x < 16 && y < 16,
            Instruction::And(x, y) => x < 16 && y < 16,
            Instruction::Xor(x, y) => x < 16 && y < 16,
            Instruction::Add(x, y) => x < 16 && y < 16,
            Instruction::Sub(x, y) => x < 16 && y < 16,
            Instruction::Subn(x, y) => x < 16 && y < 16,
            _ => true,
        }
    }
}

} // verus!
