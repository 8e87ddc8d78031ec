use vstd::prelude::*;

verus! {

/// One decoded instruction. Register operands are indices into the register
/// file, addresses are the low twelve bits of the opcode.
#[derive(Debug, Clone, Copy, PartialEq, Eq, Structural)]
pub enum Instruction {
    /// 0nnn - SYS addr
    /// Jump to a machine code routine at nnn. Recognised, not carried out.
    Sys(u16),
    /// 00E0 - CLS
    /// Clear the display. Recognised, not carried out.
    Cls,
    /// 00EE - RET
    /// Return from a subroutine: the program counter is set to the address
    /// on top of the stack, which is removed.
    Ret,
    /// 1nnn - JP addr
    /// Jump to the location nnn.
    Jp(u16),
    /// 2nnn - CALL addr
    /// Call the subroutine at nnn: the program counter is put on top of the
    /// stack and then set to nnn.
    Call(u16),
    /// 3xkk - SE Vx, byte
    /// Skip the next instruction if Vx = kk.
    SeByte(usize, u8),
    /// 4xkk - SNE Vx, byte
    /// Skip the next instruction if Vx != kk.
    SneByte(usize, u8),
    /// 5xy0 - SE Vx, Vy
    /// Skip the next instruction if Vx = Vy.
    Se(usize, usize),
    /// 6xkk - LD Vx, byte
    /// Set Vx = kk.
    LdByte(usize, u8),
    /// 7xkk - ADD Vx, byte
    /// Set Vx = Vx + kk, without touching the flag.
    AddByte(usize, u8),
    /// 8xy0 - LD Vx, Vy
    /// Set Vx = Vy.
    Ld(usize, usize),
    /// 8xy1 - OR Vx, Vy
    /// Set Vx = Vx OR Vy.
    Or(usize, usize),
    /// 8xy2 - AND Vx, Vy
    /// Set Vx = Vx AND Vy.
    And(usize, usize),
    /// 8xy3 - XOR Vx, Vy
    /// Set Vx = Vx XOR Vy.
    Xor(usize, usize),
    /// 8xy4 - ADD Vx, Vy
    /// Set Vx = Vx + Vy, set VF = carry.
    Add(usize, usize),
    /// 8xy5 - SUB Vx, Vy
    /// Set Vx = Vx - Vy, set VF = NOT borrow.
    Sub(usize, usize),
    /// 8xy6 - SHR Vx {, Vy}
    /// Set Vx = Vx SHR 1, set VF = the bit shifted out.
    Shr(usize),
    /// 8xy7 - SUBN Vx, Vy
    /// Set Vx = Vy - Vx, set VF = NOT borrow.
    Subn(usize, usize),
    /// 8xyE - SHL Vx {, Vy}
    /// Set Vx = Vx SHL 1, set VF = the bit shifted out.
    Shl(usize),
    /// 9xy0 - SNE Vx, Vy
    /// Skip the next instruction if Vx != Vy.
    Sne(usize, usize),
    /// Annn - LD I, addr
    /// Set I = nnn.
    Ldi(u16),
    /// Bnnn - JP V0, addr
    /// Jump to the location nnn + V0.
    JpV0(u16),
    /// Cxkk - RND Vx, byte
    /// Set Vx = random byte AND kk.
    Rnd(usize, u8),
    /// Fx07 - LD Vx, DT
    /// Set Vx = delay timer value.
    LdVxDelay(usize),
    /// Fx15 - LD DT, Vx
    /// Set delay timer = Vx.
    LdDelayVx(usize),
    /// An opcode word that matches no instruction pattern.
    Unknown(u16),
}

/// The opcode word made of four nibbles, most significant first.
pub open spec fn opcode(class: int, x: int, y: int, n: int) -> int {
    class * 4096 + x * 256 + y * 16 + n
}

/// The opcode word made of a family nibble, a register nibble and a byte.
pub open spec fn opcode_with_byte(class: int, x: int, kk: int) -> int {
    class * 4096 + x * 256 + kk
}

/// The opcode word made of a family nibble and a twelve-bit address.
pub open spec fn opcode_with_address(class: int, nnn: int) -> int {
    class * 4096 + nnn
}

/// The most significant nibble of an opcode, which selects the instruction family.
pub open spec fn class_of(op: u16) -> int {
    op as int / 4096
}

/// The second nibble of an opcode: the register operand `x`.
pub open spec fn x_of(op: u16) -> int {
    (op as int / 256) % 16
}

/// The third nibble of an opcode: the register operand `y`.
pub open spec fn y_of(op: u16) -> int {
    (op as int / 16) % 16
}

/// The least significant nibble of an opcode.
pub open spec fn n_of(op: u16) -> int {
    op as int % 16
}

/// The low byte of an opcode: the immediate operand `kk`.
pub open spec fn kk_of(op: u16) -> int {
    op as int % 256
}

/// The low twelve bits of an opcode: the address operand `nnn`.
pub open spec fn nnn_of(op: u16) -> int {
    op as int % 4096
}

/// The register-to-register instruction selected by the last nibble of an
/// opcode of family 8.
pub open spec fn decode_arithmetic(x: usize, y: usize, n: int) -> Instruction {
    if n == 0x0 {
        Instruction::Ld(x, y)
    } else if n == 0x1 {
        Instruction::Or(x, y)
    } else if n == 0x2 {
        Instruction::And(x, y)
    } else if n == 0x3 {
        Instruction::Xor(x, y)
    } else if n == 0x4 {
        Instruction::Add(x, y)
    } else if n == 0x5 {
        Instruction::Sub(x, y)
    } else if n == 0x6 {
        Instruction::Shr(x)
    } else if n == 0x7 {
        Instruction::Subn(x, y)
    } else {
        Instruction::Shl(x)
    }
}

/// Whether the last nibble of an opcode of family 8 selects an instruction.
pub open spec fn is_arithmetic_selector(n: int) -> bool {
    0x0 <= n <= 0x7 || n == 0xE
}

/// The instruction that an opcode word stands for.
pub open spec fn decode(op: u16) -> Instruction {
    let class = class_of(op);
    let x = x_of(op) as usize;
    let y = y_of(op) as usize;
    let n = n_of(op);
    let kk = kk_of(op) as u8;
    let nnn = nnn_of(op) as u16;
    if op == 0x00E0 {
        Instruction::Cls
    } else if op == 0x00EE {
        Instruction::Ret
    } else if class == 0x0 {
        Instruction::Sys(nnn)
    } else if class == 0x1 {
        Instruction::Jp(nnn)
    } else if class == 0x2 {
        Instruction::Call(nnn)
    } else if class == 0x3 {
        Instruction::SeByte(x, kk)
    } else if class == 0x4 {
        Instruction::SneByte(x, kk)
    } else if class == 0x5 && n == 0 {
        Instruction::Se(x, y)
    } else if class == 0x6 {
        Instruction::LdByte(x, kk)
    } else if class == 0x7 {
        Instruction::AddByte(x, kk)
    } else if class == 0x8 && is_arithmetic_selector(n) {
        decode_arithmetic(x, y, n)
    } else if class == 0x9 && n == 0 {
        Instruction::Sne(x, y)
    } else if class == 0xA {
        Instruction::Ldi(nnn)
    } else if class == 0xB {
        Instruction::JpV0(nnn)
    } else if class == 0xC {
        Instruction::Rnd(x, kk)
    } else if class == 0xF && kk == 0x07 {
        Instruction::LdVxDelay(x)
    } else if class == 0xF && kk == 0x15 {
        Instruction::LdDelayVx(x)
    } else {
        Instruction::Unknown(op)
    }
}

impl Instruction {
    /// Whether every register operand of the instruction names one of the
    /// sixteen registers.
    pub open spec fn registers_in_range(self) -> bool {
        match self {
            Instruction::SeByte(x, _) => x < 16,
            Instruction::SneByte(x, _) => x < 16,
            Instruction::Se(x, y) => x < 16 && y < 16,
            Instruction::LdByte(x, _) => x < 16,
            Instruction::AddByte(x, _) => x < 16,
            Instruction::Ld(x, y) => x < 16 && y < 16,
            Instruction::Or(x, y) => x < 16 && y < 16,
            Instruction::And(x, y) => x < 16 && y < 16,
            Instruction::Xor(x, y) => x < 16 && y < 16,
            Instruction::Add(x, y) => x < 16 && y < 16,
            Instruction::Sub(x, y) => x < 16 && y < 16,
            Instruction::Shr(x) => x < 16,
            Instruction::Subn(x, y) => x < 16 && y < 16,
            Instruction::Shl(x) => x < 16,
            Instruction::Sne(x, y) => x < 16 && y < 16,
            Instruction::Rnd(x, _) => x < 16,
            Instruction::LdVxDelay(x) => x < 16,
            Instruction::LdDelayVx(x) => x < 16,
            _ => true,
        }
    }

    /// Whether the address operand of the instruction, if it has one, fits
    /// in twelve bits.
    pub open spec fn address_in_range(self) -> bool {
        match self {
            Instruction::Sys(addr) => addr <= 0xFFF,
            Instruction::Jp(addr) => addr <= 0xFFF,
            Instruction::Call(addr) => addr <= 0xFFF,
            Instruction::Ldi(addr) => addr <= 0xFFF,
            Instruction::JpV0(addr) => addr <= 0xFFF,
            _ => true,
        }
    }

    /// Decodes one opcode word. A word that matches no instruction pattern
    /// is handed back inside [`Instruction::Unknown`].
    pub fn parse(op: u16) -> (instruction: Instruction)
        ensures
            instruction == decode(op),
            instruction.registers_in_range(),
            instruction.address_in_range(),
    {
        let class: u16 = op >> 12;
        let x: usize = ((op >> 8) & 15) as usize;
        let y: usize = ((op >> 4) & 15) as usize;
        let n: u16 = op & 15;
        let kk: u8 = (op & 0xFF) as u8;
        let nnn: u16 = op & 0xFFF;
        proof {
            assert(op >> 12 == op / 4096) by (bit_vector);
            assert((op >> 8) & 15 == (op / 256) % 16) by (bit_vector);
            assert((op >> 4) & 15 == (op / 16) % 16) by (bit_vector);
            assert(op & 15 == op % 16) by (bit_vector);
            assert(op & 0xFF == op % 256) by (bit_vector);
            assert(op & 0xFFF == op % 4096) by (bit_vector);
        }
        if op == 0x00E0 {
            Instruction::Cls
        } else if op == 0x00EE {
            Instruction::Ret
        } else {
            match (class, n) {
                (0x0, _) => Instruction::Sys(nnn),
                (0x1, _) => Instruction::Jp(nnn),
                (0x2, _) => Instruction::Call(nnn),
                (0x3, _) => Instruction::SeByte(x, kk),
                (0x4, _) => Instruction::SneByte(x, kk),
                (0x5, 0x0) => Instruction::Se(x, y),
                (0x6, _) => Instruction::LdByte(x, kk),
                (0x7, _) => Instruction::AddByte(x, kk),
                (0x8, 0x0) => Instruction::Ld(x, y),
                (0x8, 0x1) => Instruction::Or(x, y),
                (0x8, 0x2) => Instruction::And(x, y),
                (0x8, 0x3) => Instruction::Xor(x, y),
                (0x8, 0x4) => Instruction::Add(x, y),
                (0x8, 0x5) => Instruction::Sub(x, y),
                (0x8, 0x6) => Instruction::Shr(x),
                (0x8, 0x7) => Instruction::Subn(x, y),
                (0x8, 0xE) => Instruction::Shl(x),
                (0x9, 0x0) => Instruction::Sne(x, y),
                (0xA, _) => Instruction::Ldi(nnn),
                (0xB, _) => Instruction::JpV0(nnn),
                (0xC, _) => Instruction::Rnd(x, kk),
                (0xF, _) => {
                    if kk == 0x07 {
                        Instruction::LdVxDelay(x)
                    } else if kk == 0x15 {
                        Instruction::LdDelayVx(x)
                    } else {
                        Instruction::Unknown(op)
                    }
                },
                _ => Instruction::Unknown(op),
            }
        }
    }
}

proof fn lemma_nibble_fields(class: u16, x: u16, y: u16, n: u16)
    by (bit_vector)
    requires
        class < 16,
        x < 16,
        y < 16,
        n < 16,
    ensures
        class * 4096 + x * 256 + y * 16 + n < 0x10000,
        (class * 4096 + x * 256 + y * 16 + n) as u16 / 4096 == class,
        ((class * 4096 + x * 256 + y * 16 + n) as u16 / 256) % 16 == x,
        ((class * 4096 + x * 256 + y * 16 + n) as u16 / 16) % 16 == y,
        (class * 4096 + x * 256 + y * 16 + n) as u16 % 16 == n,
{
}

proof fn lemma_byte_fields(class: u16, x: u16, kk: u16)
    by (bit_vector)
    requires
        class < 16,
        x < 16,
        kk < 256,
    ensures
        class * 4096 + x * 256 + kk < 0x10000,
        (class * 4096 + x * 256 + kk) as u16 / 4096 == class,
        ((class * 4096 + x * 256 + kk) as u16 / 256) % 16 == x,
        (class * 4096 + x * 256 + kk) as u16 % 256 == kk,
{
}

proof fn lemma_address_fields(class: u16, nnn: u16)
    by (bit_vector)
    requires
        class < 16,
        nnn < 4096,
    ensures
        class * 4096 + nnn < 0x10000,
        (class * 4096 + nnn) as u16 / 4096 == class,
        (class * 4096 + nnn) as u16 % 4096 == nnn,
{
}

/// The opcode table, row by row: each pattern decodes to its instruction,
/// with the operands taken from the nibbles that the pattern names.
pub proof fn lemma_decode_table(x: int, y: int, kk: int, nnn: int)
    requires
        0 <= x < 16,
        0 <= y < 16,
        0 <= kk < 256,
        0 <= nnn < 4096,
    ensures
        decode(0x00E0) == Instruction::Cls,
        decode(0x00EE) == Instruction::Ret,
        nnn != 0x0E0 && nnn != 0x0EE ==> decode(opcode_with_address(0x0, nnn) as u16)
            == Instruction::Sys(nnn as u16),
        decode(opcode_with_address(0x1, nnn) as u16) == Instruction::Jp(nnn as u16),
        decode(opcode_with_address(0x2, nnn) as u16) == Instruction::Call(nnn as u16),
        decode(opcode_with_byte(0x3, x, kk) as u16) == Instruction::SeByte(x as usize, kk as u8),
        decode(opcode_with_byte(0x4, x, kk) as u16) == Instruction::SneByte(x as usize, kk as u8),
        decode(opcode(0x5, x, y, 0x0) as u16) == Instruction::Se(x as usize, y as usize),
        decode(opcode_with_byte(0x6, x, kk) as u16) == Instruction::LdByte(x as usize, kk as u8),
        decode(opcode_with_byte(0x7, x, kk) as u16) == Instruction::AddByte(x as usize, kk as u8),
        decode(opcode(0x8, x, y, 0x0) as u16) == Instruction::Ld(x as usize, y as usize),
        decode(opcode(0x8, x, y, 0x1) as u16) == Instruction::Or(x as usize, y as usize),
        decode(opcode(0x8, x, y, 0x2) as u16) == Instruction::And(x as usize, y as usize),
        decode(opcode(0x8, x, y, 0x3) as u16) == Instruction::Xor(x as usize, y as usize),
        decode(opcode(0x8, x, y, 0x4) as u16) == Instruction::Add(x as usize, y as usize),
        decode(opcode(0x8, x, y, 0x5) as u16) == Instruction::Sub(x as usize, y as usize),
        decode(opcode(0x8, x, y, 0x6) as u16) == Instruction::Shr(x as usize),
        decode(opcode(0x8, x, y, 0x7) as u16) == Instruction::Subn(x as usize, y as usize),
        decode(opcode(0x8, x, y, 0xE) as u16) == Instruction::Shl(x as usize),
        decode(opcode(0x9, x, y, 0x0) as u16) == Instruction::Sne(x as usize, y as usize),
        decode(opcode_with_address(0xA, nnn) as u16) == Instruction::Ldi(nnn as u16),
        decode(opcode_with_address(0xB, nnn) as u16) == Instruction::JpV0(nnn as u16),
        decode(opcode_with_byte(0xC, x, kk) as u16) == Instruction::Rnd(x as usize, kk as u8),
        decode(opcode_with_byte(0xF, x, 0x07) as u16) == Instruction::LdVxDelay(x as usize),
        decode(opcode_with_byte(0xF, x, 0x15) as u16) == Instruction::LdDelayVx(x as usize),
{
    let (x, y, kk, nnn) = (x as u16, y as u16, kk as u16, nnn as u16);
    lemma_address_fields(0x0, nnn);
    lemma_address_fields(0x1, nnn);
    lemma_address_fields(0x2, nnn);
    lemma_byte_fields(0x3, x, kk);
    lemma_byte_fields(0x4, x, kk);
    lemma_nibble_fields(0x5, x, y, 0x0);
    lemma_byte_fields(0x6, x, kk);
    lemma_byte_fields(0x7, x, kk);
    lemma_nibble_fields(0x8, x, y, 0x0);
    lemma_nibble_fields(0x8, x, y, 0x1);
    lemma_nibble_fields(0x8, x, y, 0x2);
    lemma_nibble_fields(0x8, x, y, 0x3);
    lemma_nibble_fields(0x8, x, y, 0x4);
    lemma_nibble_fields(0x8, x, y, 0x5);
    lemma_nibble_fields(0x8, x, y, 0x6);
    lemma_nibble_fields(0x8, x, y, 0x7);
    lemma_nibble_fields(0x8, x, y, 0xE);
    lemma_nibble_fields(0x9, x, y, 0x0);
    lemma_address_fields(0xA, nnn);
    lemma_address_fields(0xB, nnn);
    lemma_byte_fields(0xC, x, kk);
    lemma_byte_fields(0xF, x, 0x07);
    lemma_byte_fields(0xF, x, 0x15);
}

/// The opcodes outside the table, and only they, decode to
/// [`Instruction::Unknown`], which then carries the opcode word itself.
pub proof fn lemma_unknown_opcodes(op: u16)
    ensures
        decode(op) is Unknown <==> {
            ||| class_of(op) == 0xD
            ||| class_of(op) == 0xE
            ||| (class_of(op) == 0x5 && n_of(op) != 0)
            ||| (class_of(op) == 0x9 && n_of(op) != 0)
            ||| (class_of(op) == 0x8 && !is_arithmetic_selector(n_of(op)))
            ||| (class_of(op) == 0xF && kk_of(op) != 0x07 && kk_of(op) != 0x15)
        },
        decode(op) is Unknown ==> decode(op) == Instruction::Unknown(op),
{
}

/// Decoding never yields a register operand outside the register file, nor
/// an address operand wider than twelve bits.
pub proof fn lemma_decode_operands_in_range(op: u16)
    ensures
        decode(op).registers_in_range(),
        decode(op).address_in_range(),
{
}

} // verus!
