use vstd::prelude::*;

verus! {

/// A register selector. `F` and `SP` only appear where an instruction names
/// the AF pair or the stack pointer.
#[derive(Debug, Clone, Copy, PartialEq, Eq, Structural)]
pub enum ArithmeticTarget {
    A,
    B,
    C,
    D,
    E,
    H,
    L,
    F,
    SP,
}

/// A decoded instruction: an operation and its operands.
///
/// Control transfers carry three booleans `(carry, zero, negate)`: with neither
/// `carry` nor `zero` the transfer is unconditional; otherwise the named flag is
/// tested, inverted when `negate` is set.
#[derive(Debug, Clone, Copy, PartialEq, Eq, Structural)]
pub enum Instruction {
    ADD(ArithmeticTarget),
    ADC(ArithmeticTarget),
    SUB(ArithmeticTarget),
    SBC(ArithmeticTarget),
    AND(ArithmeticTarget),
    OR(ArithmeticTarget),
    XOR(ArithmeticTarget),
    CP(ArithmeticTarget),
    /// Rotate A left; `true` rotates the shifted-out bit back in, `false` the old carry.
    RL(bool),
    /// Rotate A right; `true` rotates the shifted-out bit back in, `false` the old carry.
    RR(bool),
    DAA,
    ADD_IMM(u8),
    ADC_IMM(u8),
    SUB_IMM(u8),
    SBC_IMM(u8),
    AND_IMM(u8),
    OR_IMM(u8),
    XOR_IMM(u8),
    CP_IMM(u8),
    ADD_MEM,
    ADC_MEM,
    SUB_MEM,
    SBC_MEM,
    AND_MEM,
    OR_MEM,
    XOR_MEM,
    CP_MEM,
    ADD_HL(ArithmeticTarget, ArithmeticTarget),
    NOP,
    INC(ArithmeticTarget),
    DEC(ArithmeticTarget),
    INC_16(ArithmeticTarget, ArithmeticTarget),
    DEC_16(ArithmeticTarget, ArithmeticTarget),
    EI,
    DI,
    PUSH(ArithmeticTarget, ArithmeticTarget),
    POP(ArithmeticTarget, ArithmeticTarget),
    /// Conditional return: `(carry, zero, negate)`.
    RET(bool, bool, bool),
    /// Return from an interrupt handler, restoring the saved interrupt-enable flag.
    RETI,
    /// Call the fixed handler at the given address (a multiple of 8, at most 0x38).
    RST(u8),
    CALL(u16, bool, bool, bool),
    JR(bool, bool, bool, i8),
    JP(bool, bool, bool, u16),
    JP_HL,
    LD_RR(ArithmeticTarget, ArithmeticTarget),
    LD_MEM_REG(ArithmeticTarget),
    LD_REG_MEM(ArithmeticTarget),
    LD_MEM_IMM(u8),
    LD_REG_IMM(ArithmeticTarget, u8),
    /// `(increment, load)`: A to or from (HL), then HL steps up or down.
    LD_MEM_INC(bool, bool),
    LD_BCDE(ArithmeticTarget, ArithmeticTarget, bool),
    LD_IMM_16(u16, bool),
    LD_IMM_8(u8, bool),
    LD_AC(bool),
    LD_REG_IMM_16(ArithmeticTarget, ArithmeticTarget, u16),
    /// Increment (`true`) or decrement (`false`) the byte at (HL).
    MOD_MEM(bool),
    STORE_SP(u16),
    INC_SP(i8),
    LD_SP_HL,
    LD_HL_SP(i8),
    SCF,
    CCF,
    CPL,
}

/// Description of an opcode, for listings.
pub struct Code {
    pub opcode: u8,
    pub mnemonic: String,
    pub operands: Vec<String>,
    pub cycles: u8,
    pub size: u8,
}

/// One of the seven 8-bit registers an operation can name.
pub open spec fn is_r8(t: ArithmeticTarget) -> bool {
    !(t is F) && !(t is SP)
}

/// BC, DE or HL.
pub open spec fn is_data_pair(t1: ArithmeticTarget, t2: ArithmeticTarget) -> bool {
    (t1 is B && t2 is C) || (t1 is D && t2 is E) || (t1 is H && t2 is L)
}

/// BC, DE, HL, or SP (named as SP, SP).
pub open spec fn is_wide_pair(t1: ArithmeticTarget, t2: ArithmeticTarget) -> bool {
    is_data_pair(t1, t2) || (t1 is SP && t2 is SP)
}

/// BC, DE, HL or AF: the pairs the stack operations move.
pub open spec fn is_stack_pair(t1: ArithmeticTarget, t2: ArithmeticTarget) -> bool {
    is_data_pair(t1, t2) || (t1 is A && t2 is F)
}

pub open spec fn valid_condition(carry: bool, zero: bool) -> bool {
    !(carry && zero)
}

impl Instruction {
    /// The operand combinations the execution engine gives a meaning to.
    pub open spec fn valid(self) -> bool {
        match self {
            Instruction::ADD(t) => is_r8(t),
            Instruction::ADC(t) => is_r8(t),
            Instruction::SUB(t) => is_r8(t),
            Instruction::SBC(t) => is_r8(t),
            Instruction::AND(t) => is_r8(t),
            Instruction::OR(t) => is_r8(t),
            Instruction::XOR(t) => is_r8(t),
            Instruction::CP(t) => is_r8(t),
            Instruction::ADD_HL(t1, t2) => is_wide_pair(t1, t2),
            Instruction::INC(t) => is_r8(t) || t is SP,
            Instruction::DEC(t) => is_r8(t) || t is SP,
            Instruction::INC_16(t1, t2) => is_wide_pair(t1, t2),
            Instruction::DEC_16(t1, t2) => is_wide_pair(t1, t2),
            Instruction::PUSH(t1, t2) => is_stack_pair(t1, t2),
            Instruction::POP(t1, t2) => is_stack_pair(t1, t2),
            Instruction::RET(c, z, _) => valid_condition(c, z),
            Instruction::RST(v) => v % 8 == 0 && v <= 0x38,
            Instruction::CALL(_, c, z, _) => valid_condition(c, z),
            Instruction::JR(c, z, _, _) => valid_condition(c, z),
            Instruction::JP(c, z, _, _) => valid_condition(c, z),
            Instruction::LD_RR(t1, t2) => is_r8(t1) && is_r8(t2),
            Instruction::LD_MEM_REG(t) => is_r8(t),
            Instruction::LD_REG_MEM(t) => is_r8(t),
            Instruction::LD_REG_IMM(t, _) => is_r8(t),
            Instruction::LD_BCDE(t1, t2, _) => (t1 is B && t2 is C) || (t1 is D && t2 is E),
            Instruction::LD_REG_IMM_16(t1, t2, _) => is_wide_pair(t1, t2),
            _ => true,
        }
    }
}

impl Instruction {
    /// Arithmetic, logic, rotates and flag operations on A.
    pub open spec fn is_alu(self) -> bool {
        self is ADD || self is ADC || self is SUB || self is SBC || self is AND || self is OR || self is XOR
            || self is CP || self is ADD_IMM || self is ADC_IMM || self is SUB_IMM || self is SBC_IMM
            || self is AND_IMM || self is OR_IMM || self is XOR_IMM || self is CP_IMM || self is ADD_MEM
            || self is ADC_MEM || self is SUB_MEM || self is SBC_MEM || self is AND_MEM || self is OR_MEM
            || self is XOR_MEM || self is CP_MEM || self is RL || self is RR || self is DAA || self is SCF
            || self is CCF || self is CPL
    }

    /// Increments, decrements and 16-bit arithmetic.
    pub open spec fn is_counter(self) -> bool {
        self is ADD_HL || self is INC || self is DEC || self is INC_16 || self is DEC_16 || self is MOD_MEM
            || self is INC_SP || self is LD_HL_SP || self is LD_SP_HL
    }

    /// Stack operations, jumps, calls, returns and interrupt-enable changes.
    pub open spec fn is_control(self) -> bool {
        self is NOP || self is EI || self is DI || self is PUSH || self is POP || self is RET || self is RETI
            || self is RST || self is CALL || self is JR || self is JP || self is JP_HL
    }
}

/// A byte read as a two's-complement signed value.
pub open spec fn signed8(b: u8) -> i8 {
    if b < 128 { b as i8 } else { (b as int - 256) as i8 }
}

pub fn to_signed(b: u8) -> (r: i8)
    ensures
        r == signed8(b),
{
    if b < 128 { b as i8 } else { (b as i16 - 256) as i8 }
}

/// The register an operand field names: 0 to 7 stand for B, C, D, E, H, L,
/// (HL) and A; `None` is (HL).
pub open spec fn r8_field(code: int) -> Option<ArithmeticTarget> {
    if code == 0 {
        Some(ArithmeticTarget::B)
    } else if code == 1 {
        Some(ArithmeticTarget::C)
    } else if code == 2 {
        Some(ArithmeticTarget::D)
    } else if code == 3 {
        Some(ArithmeticTarget::E)
    } else if code == 4 {
        Some(ArithmeticTarget::H)
    } else if code == 5 {
        Some(ArithmeticTarget::L)
    } else if code == 6 {
        None
    } else {
        Some(ArithmeticTarget::A)
    }
}

/// Opcodes 0x40 to 0x7F: load from the register in bits 0-2 into the one in
/// bits 3-5, either of them possibly (HL); (HL) to (HL) is HALT, not implemented.
pub open spec fn load_block(opcode: u8) -> Option<Instruction> {
    match (r8_field((opcode as int / 8) % 8), r8_field(opcode as int % 8)) {
        (Some(dst), Some(src)) => Some(Instruction::LD_RR(dst, src)),
        (None, Some(src)) => Some(Instruction::LD_MEM_REG(src)),
        (Some(dst), None) => Some(Instruction::LD_REG_MEM(dst)),
        (None, None) => None,
    }
}

/// Opcodes 0x80 to 0xBF: the operation in bits 3-5 (ADD, ADC, SUB, SBC, AND,
/// XOR, OR, CP) on A and the operand in bits 0-2.
pub open spec fn alu_block(opcode: u8) -> Option<Instruction> {
    let op = (opcode as int / 8) % 8;
    match r8_field(opcode as int % 8) {
        Some(t) => Some(
            if op == 0 {
                Instruction::ADD(t)
            } else if op == 1 {
                Instruction::ADC(t)
            } else if op == 2 {
                Instruction::SUB(t)
            } else if op == 3 {
                Instruction::SBC(t)
            } else if op == 4 {
                Instruction::AND(t)
            } else if op == 5 {
                Instruction::XOR(t)
            } else if op == 6 {
                Instruction::OR(t)
            } else {
                Instruction::CP(t)
            },
        ),
        None => Some(
            if op == 0 {
                Instruction::ADD_MEM
            } else if op == 1 {
                Instruction::ADC_MEM
            } else if op == 2 {
                Instruction::SUB_MEM
            } else if op == 3 {
                Instruction::SBC_MEM
            } else if op == 4 {
                Instruction::AND_MEM
            } else if op == 5 {
                Instruction::XOR_MEM
            } else if op == 6 {
                Instruction::OR_MEM
            } else {
                Instruction::CP_MEM
            },
        ),
    }
}

/// The instruction an opcode stands for, given the two bytes that follow it;
/// `None` for the opcodes this engine does not implement (STOP, HALT, the
/// CB prefix, and the unused slots). Outside the two regular blocks the
/// opcodes are listed one by one.
#[verifier::opaque]
pub open spec fn decode_table(opcode: u8, imm1: u8, imm2: u8) -> Option<Instruction> {
    let imm16 = (imm2 as int * 256 + imm1 as int) as u16;
    if 0x40 <= opcode < 0x80 {
        load_block(opcode)
    } else if 0x80 <= opcode < 0xC0 {
        alu_block(opcode)
    } else {
        match opcode {
            0x00 => Some(Instruction::NOP),
            0x01 => Some(Instruction::LD_REG_IMM_16(ArithmeticTarget::B, ArithmeticTarget::C, imm16)),
            0x02 => Some(Instruction::LD_BCDE(ArithmeticTarget::B, ArithmeticTarget::C, false)),
            0x03 => Some(Instruction::INC_16(ArithmeticTarget::B, ArithmeticTarget::C)),
            0x04 => Some(Instruction::INC(ArithmeticTarget::B)),
            0x05 => Some(Instruction::DEC(ArithmeticTarget::B)),
            0x06 => Some(Instruction::LD_REG_IMM(ArithmeticTarget::B, imm1)),
            0x07 => Some(Instruction::RL(true)),
            0x08 => Some(Instruction::STORE_SP(imm16)),
            0x09 => Some(Instruction::ADD_HL(ArithmeticTarget::B, ArithmeticTarget::C)),
            0x0A => Some(Instruction::LD_BCDE(ArithmeticTarget::B, ArithmeticTarget::C, true)),
            0x0B => Some(Instruction::DEC_16(ArithmeticTarget::B, ArithmeticTarget::C)),
            0x0C => Some(Instruction::INC(ArithmeticTarget::C)),
            0x0D => Some(Instruction::DEC(ArithmeticTarget::C)),
            0x0E => Some(Instruction::LD_REG_IMM(ArithmeticTarget::C, imm1)),
            0x0F => Some(Instruction::RR(true)),
            0x11 => Some(Instruction::LD_REG_IMM_16(ArithmeticTarget::D, ArithmeticTarget::E, imm16)),
            0x12 => Some(Instruction::LD_BCDE(ArithmeticTarget::D, ArithmeticTarget::E, false)),
            0x13 => Some(Instruction::INC_16(ArithmeticTarget::D, ArithmeticTarget::E)),
            0x14 => Some(Instruction::INC(ArithmeticTarget::D)),
            0x15 => Some(Instruction::DEC(ArithmeticTarget::D)),
            0x16 => Some(Instruction::LD_REG_IMM(ArithmeticTarget::D, imm1)),
            0x17 => Some(Instruction::RL(false)),
            0x18 => Some(Instruction::JR(false, false, false, signed8(imm1))),
            0x19 => Some(Instruction::ADD_HL(ArithmeticTarget::D, ArithmeticTarget::E)),
            0x1A => Some(Instruction::LD_BCDE(ArithmeticTarget::D, ArithmeticTarget::E, true)),
            0x1B => Some(Instruction::DEC_16(ArithmeticTarget::D, ArithmeticTarget::E)),
            0x1C => Some(Instruction::INC(ArithmeticTarget::E)),
            0x1D => Some(Instruction::DEC(ArithmeticTarget::E)),
            0x1E => Some(Instruction::LD_REG_IMM(ArithmeticTarget::E, imm1)),
            0x1F => Some(Instruction::RR(false)),
            0x20 => Some(Instruction::JR(false, true, true, signed8(imm1))),
            0x21 => Some(Instruction::LD_REG_IMM_16(ArithmeticTarget::H, ArithmeticTarget::L, imm16)),
            0x22 => Some(Instruction::LD_MEM_INC(true, false)),
            0x23 => Some(Instruction::INC_16(ArithmeticTarget::H, ArithmeticTarget::L)),
            0x24 => Some(Instruction::INC(ArithmeticTarget::H)),
            0x25 => Some(Instruction::DEC(ArithmeticTarget::H)),
            0x26 => Some(Instruction::LD_REG_IMM(ArithmeticTarget::H, imm1)),
            0x27 => Some(Instruction::DAA),
            0x28 => Some(Instruction::JR(false, true, false, signed8(imm1))),
            0x29 => Some(Instruction::ADD_HL(ArithmeticTarget::H, ArithmeticTarget::L)),
            0x2A => Some(Instruction::LD_MEM_INC(true, true)),
            0x2B => Some(Instruction::DEC_16(ArithmeticTarget::H, ArithmeticTarget::L)),
            0x2C => Some(Instruction::INC(ArithmeticTarget::L)),
            0x2D => Some(Instruction::DEC(ArithmeticTarget::L)),
            0x2E => Some(Instruction::LD_REG_IMM(ArithmeticTarget::L, imm1)),
            0x2F => Some(Instruction::CPL),
            0x30 => Some(Instruction::JR(true, false, true, signed8(imm1))),
            0x31 => Some(Instruction::LD_REG_IMM_16(ArithmeticTarget::SP, ArithmeticTarget::SP, imm16)),
            0x32 => Some(Instruction::LD_MEM_INC(false, false)),
            0x33 => Some(Instruction::INC_16(ArithmeticTarget::SP, ArithmeticTarget::SP)),
            0x34 => Some(Instruction::MOD_MEM(true)),
            0x35 => Some(Instruction::MOD_MEM(false)),
            0x36 => Some(Instruction::LD_MEM_IMM(imm1)),
            0x37 => Some(Instruction::SCF),
            0x38 => Some(Instruction::JR(true, false, false, signed8(imm1))),
            0x39 => Some(Instruction::ADD_HL(ArithmeticTarget::SP, ArithmeticTarget::SP)),
            0x3A => Some(Instruction::LD_MEM_INC(false, true)),
            0x3B => Some(Instruction::DEC_16(ArithmeticTarget::SP, ArithmeticTarget::SP)),
            0x3C => Some(Instruction::INC(ArithmeticTarget::A)),
            0x3D => Some(Instruction::DEC(ArithmeticTarget::A)),
            0x3E => Some(Instruction::LD_REG_IMM(ArithmeticTarget::A, imm1)),
            0x3F => Some(Instruction::CCF),
            0xC0 => Some(Instruction::RET(false, true, true)),
            0xC1 => Some(Instruction::POP(ArithmeticTarget::B, ArithmeticTarget::C)),
            0xC2 => Some(Instruction::JP(false, true, true, imm16)),
            0xC3 => Some(Instruction::JP(false, false, false, imm16)),
            0xC4 => Some(Instruction::CALL(imm16, false, true, true)),
            0xC5 => Some(Instruction::PUSH(ArithmeticTarget::B, ArithmeticTarget::C)),
            0xC6 => Some(Instruction::ADD_IMM(imm1)),
            0xC7 => Some(Instruction::RST(0x00)),
            0xC8 => Some(Instruction::RET(false, true, false)),
            0xC9 => Some(Instruction::RET(false, false, false)),
            0xCA => Some(Instruction::JP(false, true, false, imm16)),
            0xCC => Some(Instruction::CALL(imm16, false, true, false)),
            0xCD => Some(Instruction::CALL(imm16, false, false, false)),
            0xCE => Some(Instruction::ADC_IMM(imm1)),
            0xCF => Some(Instruction::RST(0x08)),
            0xD0 => Some(Instruction::RET(true, false, true)),
            0xD1 => Some(Instruction::POP(ArithmeticTarget::D, ArithmeticTarget::E)),
            0xD2 => Some(Instruction::JP(true, false, true, imm16)),
            0xD4 => Some(Instruction::CALL(imm16, true, false, true)),
            0xD5 => Some(Instruction::PUSH(ArithmeticTarget::D, ArithmeticTarget::E)),
            0xD6 => Some(Instruction::SUB_IMM(imm1)),
            0xD7 => Some(Instruction::RST(0x10)),
            0xD8 => Some(Instruction::RET(true, false, false)),
            0xD9 => Some(Instruction::RETI),
            0xDA => Some(Instruction::JP(true, false, false, imm16)),
            0xDC => Some(Instruction::CALL(imm16, true, false, false)),
            0xDE => Some(Instruction::SBC_IMM(imm1)),
            0xDF => Some(Instruction::RST(0x18)),
            0xE0 => Some(Instruction::LD_IMM_8(imm1, false)),
            0xE1 => Some(Instruction::POP(ArithmeticTarget::H, ArithmeticTarget::L)),
            0xE2 => Some(Instruction::LD_AC(false)),
            0xE5 => Some(Instruction::PUSH(ArithmeticTarget::H, ArithmeticTarget::L)),
            0xE6 => Some(Instruction::AND_IMM(imm1)),
            0xE7 => Some(Instruction::RST(0x20)),
            0xE8 => Some(Instruction::INC_SP(signed8(imm1))),
            0xE9 => Some(Instruction::JP_HL),
            0xEA => Some(Instruction::LD_IMM_16(imm16, false)),
            0xEE => Some(Instruction::XOR_IMM(imm1)),
            0xEF => Some(Instruction::RST(0x28)),
            0xF0 => Some(Instruction::LD_IMM_8(imm1, true)),
            0xF1 => Some(Instruction::POP(ArithmeticTarget::A, ArithmeticTarget::F)),
            0xF2 => Some(Instruction::LD_AC(true)),
            0xF3 => Some(Instruction::DI),
            0xF5 => Some(Instruction::PUSH(ArithmeticTarget::A, ArithmeticTarget::F)),
            0xF6 => Some(Instruction::OR_IMM(imm1)),
            0xF7 => Some(Instruction::RST(0x30)),
            0xF8 => Some(Instruction::LD_HL_SP(signed8(imm1))),
            0xF9 => Some(Instruction::LD_SP_HL),
            0xFA => Some(Instruction::LD_IMM_16(imm16, true)),
            0xFB => Some(Instruction::EI),
            0xFE => Some(Instruction::CP_IMM(imm1)),
            0xFF => Some(Instruction::RST(0x38)),
            _ => None,
        }
    }
}

/// Size in bytes and base cycle count of each opcode.
pub open spec fn instruction_info(opcode: u8) -> (u8, u8) {
    if opcode == 0x06 || opcode == 0x0E || opcode == 0x16 || opcode == 0x1E || opcode == 0x26
        || opcode == 0x2E || opcode == 0x36 || opcode == 0x3E || opcode == 0xC6 || opcode == 0xCE
        || opcode == 0xD6 || opcode == 0xDE || opcode == 0xE6 || opcode == 0xEE || opcode == 0xF6
        || opcode == 0xFE || opcode == 0x18 || opcode == 0x20 || opcode == 0x28 || opcode == 0x30
        || opcode == 0x38 {
        (2, 8)
    } else if opcode == 0x01 || opcode == 0x11 || opcode == 0x21 || opcode == 0x31 || opcode == 0xC2
        || opcode == 0xC3 || opcode == 0xC4 || opcode == 0xCA || opcode == 0xCC || opcode == 0xCD
        || opcode == 0xD2 || opcode == 0xD4 || opcode == 0xDA || opcode == 0xDC || opcode == 0xEA
        || opcode == 0xFA {
        (3, 12)
    } else if opcode == 0xE0 || opcode == 0xF0 {
        (2, 12)
    } else if opcode == 0xC0 || opcode == 0xC8 || opcode == 0xD0 || opcode == 0xD8 || opcode == 0xE2
        || opcode == 0xF2 || opcode == 0xF9 {
        (1, 8)
    } else if opcode == 0x08 {
        (3, 20)
    } else if opcode == 0xE8 {
        (2, 16)
    } else if opcode == 0xF8 {
        (2, 12)
    } else {
        (1, 4)
    }
}

/// Decodes one opcode with the two bytes that follow it.
pub fn decode(opcode: u8, imm1: u8, imm2: u8) -> (r: Option<Instruction>)
    ensures
        r == decode_table(opcode, imm1, imm2),
        r matches Some(i) ==> i.valid(),
{
    reveal(decode_table);
    let imm16: u16 = (imm2 as u16) * 256 + (imm1 as u16);
    match opcode {
        0x00 => Some(Instruction::NOP),
        0x01 => Some(Instruction::LD_REG_IMM_16(ArithmeticTarget::B, ArithmeticTarget::C, imm16)),
        0x02 => Some(Instruction::LD_BCDE(ArithmeticTarget::B, ArithmeticTarget::C, false)),
        0x03 => Some(Instruction::INC_16(ArithmeticTarget::B, ArithmeticTarget::C)),
        0x04 => Some(Instruction::INC(ArithmeticTarget::B)),
        0x05 => Some(Instruction::DEC(ArithmeticTarget::B)),
        0x06 => Some(Instruction::LD_REG_IMM(ArithmeticTarget::B, imm1)),
        0x07 => Some(Instruction::RL(true)),
        0x08 => Some(Instruction::STORE_SP(imm16)),
        0x09 => Some(Instruction::ADD_HL(ArithmeticTarget::B, ArithmeticTarget::C)),
        0x0A => Some(Instruction::LD_BCDE(ArithmeticTarget::B, ArithmeticTarget::C, true)),
        0x0B => Some(Instruction::DEC_16(ArithmeticTarget::B, ArithmeticTarget::C)),
        0x0C => Some(Instruction::INC(ArithmeticTarget::C)),
        0x0D => Some(Instruction::DEC(ArithmeticTarget::C)),
        0x0E => Some(Instruction::LD_REG_IMM(ArithmeticTarget::C, imm1)),
        0x0F => Some(Instruction::RR(true)),
        0x11 => Some(Instruction::LD_REG_IMM_16(ArithmeticTarget::D, ArithmeticTarget::E, imm16)),
        0x12 => Some(Instruction::LD_BCDE(ArithmeticTarget::D, ArithmeticTarget::E, false)),
        0x13 => Some(Instruction::INC_16(ArithmeticTarget::D, ArithmeticTarget::E)),
        0x14 => Some(Instruction::INC(ArithmeticTarget::D)),
        0x15 => Some(Instruction::DEC(ArithmeticTarget::D)),
        0x16 => Some(Instruction::LD_REG_IMM(ArithmeticTarget::D, imm1)),
        0x17 => Some(Instruction::RL(false)),
        0x18 => Some(Instruction::JR(false, false, false, to_signed(imm1))),
        0x19 => Some(Instruction::ADD_HL(ArithmeticTarget::D, ArithmeticTarget::E)),
        0x1A => Some(Instruction::LD_BCDE(ArithmeticTarget::D, ArithmeticTarget::E, true)),
        0x1B => Some(Instruction::DEC_16(ArithmeticTarget::D, ArithmeticTarget::E)),
        0x1C => Some(Instruction::INC(ArithmeticTarget::E)),
        0x1D => Some(Instruction::DEC(ArithmeticTarget::E)),
        0x1E => Some(Instruction::LD_REG_IMM(ArithmeticTarget::E, imm1)),
        0x1F => Some(Instruction::RR(false)),
        0x20 => Some(Instruction::JR(false, true, true, to_signed(imm1))),
        0x21 => Some(Instruction::LD_REG_IMM_16(ArithmeticTarget::H, ArithmeticTarget::L, imm16)),
        0x22 => Some(Instruction::LD_MEM_INC(true, false)),
        0x23 => Some(Instruction::INC_16(ArithmeticTarget::H, ArithmeticTarget::L)),
        0x24 => Some(Instruction::INC(ArithmeticTarget::H)),
        0x25 => Some(Instruction::DEC(ArithmeticTarget::H)),
        0x26 => Some(Instruction::LD_REG_IMM(ArithmeticTarget::H, imm1)),
        0x27 => Some(Instruction::DAA),
        0x28 => Some(Instruction::JR(false, true, false, to_signed(imm1))),
        0x29 => Some(Instruction::ADD_HL(ArithmeticTarget::H, ArithmeticTarget::L)),
        0x2A => Some(Instruction::LD_MEM_INC(true, true)),
        0x2B => Some(Instruction::DEC_16(ArithmeticTarget::H, ArithmeticTarget::L)),
        0x2C => Some(Instruction::INC(ArithmeticTarget::L)),
        0x2D => Some(Instruction::DEC(ArithmeticTarget::L)),
        0x2E => Some(Instruction::LD_REG_IMM(ArithmeticTarget::L, imm1)),
        0x2F => Some(Instruction::CPL),
        0x30 => Some(Instruction::JR(true, false, true, to_signed(imm1))),
        0x31 => Some(Instruction::LD_REG_IMM_16(ArithmeticTarget::SP, ArithmeticTarget::SP, imm16)),
        0x32 => Some(Instruction::LD_MEM_INC(false, false)),
        0x33 => Some(Instruction::INC_16(ArithmeticTarget::SP, ArithmeticTarget::SP)),
        0x34 => Some(Instruction::MOD_MEM(true)),
        0x35 => Some(Instruction::MOD_MEM(false)),
        0x36 => Some(Instruction::LD_MEM_IMM(imm1)),
        0x37 => Some(Instruction::SCF),
        0x38 => Some(Instruction::JR(true, false, false, to_signed(imm1))),
        0x39 => Some(Instruction::ADD_HL(ArithmeticTarget::SP, ArithmeticTarget::SP)),
        0x3A => Some(Instruction::LD_MEM_INC(false, true)),
        0x3B => Some(Instruction::DEC_16(ArithmeticTarget::SP, ArithmeticTarget::SP)),
        0x3C => Some(Instruction::INC(ArithmeticTarget::A)),
        0x3D => Some(Instruction::DEC(ArithmeticTarget::A)),
        0x3E => Some(Instruction::LD_REG_IMM(ArithmeticTarget::A, imm1)),
        0x3F => Some(Instruction::CCF),
        0x40 => Some(Instruction::LD_RR(ArithmeticTarget::B, ArithmeticTarget::B)),
        0x41 => Some(Instruction::LD_RR(ArithmeticTarget::B, ArithmeticTarget::C)),
        0x42 => Some(Instruction::LD_RR(ArithmeticTarget::B, ArithmeticTarget::D)),
        0x43 => Some(Instruction::LD_RR(ArithmeticTarget::B, ArithmeticTarget::E)),
        0x44 => Some(Instruction::LD_RR(ArithmeticTarget::B, ArithmeticTarget::H)),
        0x45 => Some(Instruction::LD_RR(ArithmeticTarget::B, ArithmeticTarget::L)),
        0x46 => Some(Instruction::LD_REG_MEM(ArithmeticTarget::B)),
        0x47 => Some(Instruction::LD_RR(ArithmeticTarget::B, ArithmeticTarget::A)),
        0x48 => Some(Instruction::LD_RR(ArithmeticTarget::C, ArithmeticTarget::B)),
        0x49 => Some(Instruction::LD_RR(ArithmeticTarget::C, ArithmeticTarget::C)),
        0x4A => Some(Instruction::LD_RR(ArithmeticTarget::C, ArithmeticTarget::D)),
        0x4B => Some(Instruction::LD_RR(ArithmeticTarget::C, ArithmeticTarget::E)),
        0x4C => Some(Instruction::LD_RR(ArithmeticTarget::C, ArithmeticTarget::H)),
        0x4D => Some(Instruction::LD_RR(ArithmeticTarget::C, ArithmeticTarget::L)),
        0x4E => Some(Instruction::LD_REG_MEM(ArithmeticTarget::C)),
        0x4F => Some(Instruction::LD_RR(ArithmeticTarget::C, ArithmeticTarget::A)),
        0x50 => Some(Instruction::LD_RR(ArithmeticTarget::D, ArithmeticTarget::B)),
        0x51 => Some(Instruction::LD_RR(ArithmeticTarget::D, ArithmeticTarget::C)),
        0x52 => Some(Instruction::LD_RR(ArithmeticTarget::D, ArithmeticTarget::D)),
        0x53 => Some(Instruction::LD_RR(ArithmeticTarget::D, ArithmeticTarget::E)),
        0x54 => Some(Instruction::LD_RR(ArithmeticTarget::D, ArithmeticTarget::H)),
        0x55 => Some(Instruction::LD_RR(ArithmeticTarget::D, ArithmeticTarget::L)),
        0x56 => Some(Instruction::LD_REG_MEM(ArithmeticTarget::D)),
        0x57 => Some(Instruction::LD_RR(ArithmeticTarget::D, ArithmeticTarget::A)),
        0x58 => Some(Instruction::LD_RR(ArithmeticTarget::E, ArithmeticTarget::B)),
        0x59 => Some(Instruction::LD_RR(ArithmeticTarget::E, ArithmeticTarget::C)),
        0x5A => Some(Instruction::LD_RR(ArithmeticTarget::E, ArithmeticTarget::D)),
        0x5B => Some(Instruction::LD_RR(ArithmeticTarget::E, ArithmeticTarget::E)),
        0x5C => Some(Instruction::LD_RR(ArithmeticTarget::E, ArithmeticTarget::H)),
        0x5D => Some(Instruction::LD_RR(ArithmeticTarget::E, ArithmeticTarget::L)),
        0x5E => Some(Instruction::LD_REG_MEM(ArithmeticTarget::E)),
        0x5F => Some(Instruction::LD_RR(ArithmeticTarget::E, ArithmeticTarget::A)),
        0x60 => Some(Instruction::LD_RR(ArithmeticTarget::H, ArithmeticTarget::B)),
        0x61 => Some(Instruction::LD_RR(ArithmeticTarget::H, ArithmeticTarget::C)),
        0x62 => Some(Instruction::LD_RR(ArithmeticTarget::H, ArithmeticTarget::D)),
        0x63 => Some(Instruction::LD_RR(ArithmeticTarget::H, ArithmeticTarget::E)),
        0x64 => Some(Instruction::LD_RR(ArithmeticTarget::H, ArithmeticTarget::H)),
        0x65 => Some(Instruction::LD_RR(ArithmeticTarget::H, ArithmeticTarget::L)),
        0x66 => Some(Instruction::LD_REG_MEM(ArithmeticTarget::H)),
        0x67 => Some(Instruction::LD_RR(ArithmeticTarget::H, ArithmeticTarget::A)),
        0x68 => Some(Instruction::LD_RR(ArithmeticTarget::L, ArithmeticTarget::B)),
        0x69 => Some(Instruction::LD_RR(ArithmeticTarget::L, ArithmeticTarget::C)),
        0x6A => Some(Instruction::LD_RR(ArithmeticTarget::L, ArithmeticTarget::D)),
        0x6B => Some(Instruction::LD_RR(ArithmeticTarget::L, ArithmeticTarget::E)),
        0x6C => Some(Instruction::LD_RR(ArithmeticTarget::L, ArithmeticTarget::H)),
        0x6D => Some(Instruction::LD_RR(ArithmeticTarget::L, ArithmeticTarget::L)),
        0x6E => Some(Instruction::LD_REG_MEM(ArithmeticTarget::L)),
        0x6F => Some(Instruction::LD_RR(ArithmeticTarget::L, ArithmeticTarget::A)),
        0x70 => Some(Instruction::LD_MEM_REG(ArithmeticTarget::B)),
        0x71 => Some(Instruction::LD_MEM_REG(ArithmeticTarget::C)),
        0x72 => Some(Instruction::LD_MEM_REG(ArithmeticTarget::D)),
        0x73 => Some(Instruction::LD_MEM_REG(ArithmeticTarget::E)),
        0x74 => Some(Instruction::LD_MEM_REG(ArithmeticTarget::H)),
        0x75 => Some(Instruction::LD_MEM_REG(ArithmeticTarget::L)),
        0x77 => Some(Instruction::LD_MEM_REG(ArithmeticTarget::A)),
        0x78 => Some(Instruction::LD_RR(ArithmeticTarget::A, ArithmeticTarget::B)),
        0x79 => Some(Instruction::LD_RR(ArithmeticTarget::A, ArithmeticTarget::C)),
        0x7A => Some(Instruction::LD_RR(ArithmeticTarget::A, ArithmeticTarget::D)),
        0x7B => Some(Instruction::LD_RR(ArithmeticTarget::A, ArithmeticTarget::E)),
        0x7C => Some(Instruction::LD_RR(ArithmeticTarget::A, ArithmeticTarget::H)),
        0x7D => Some(Instruction::LD_RR(ArithmeticTarget::A, ArithmeticTarget::L)),
        0x7E => Some(Instruction::LD_REG_MEM(ArithmeticTarget::A)),
        0x7F => Some(Instruction::LD_RR(ArithmeticTarget::A, ArithmeticTarget::A)),
        0x80 => Some(Instruction::ADD(ArithmeticTarget::B)),
        0x81 => Some(Instruction::ADD(ArithmeticTarget::C)),
        0x82 => Some(Instruction::ADD(ArithmeticTarget::D)),
        0x83 => Some(Instruction::ADD(ArithmeticTarget::E)),
        0x84 => Some(Instruction::ADD(ArithmeticTarget::H)),
        0x85 => Some(Instruction::ADD(ArithmeticTarget::L)),
        0x86 => Some(Instruction::ADD_MEM),
        0x87 => Some(Instruction::ADD(ArithmeticTarget::A)),
        0x88 => Some(Instruction::ADC(ArithmeticTarget::B)),
        0x89 => Some(Instruction::ADC(ArithmeticTarget::C)),
        0x8A => Some(Instruction::ADC(ArithmeticTarget::D)),
        0x8B => Some(Instruction::ADC(ArithmeticTarget::E)),
        0x8C => Some(Instruction::ADC(ArithmeticTarget::H)),
        0x8D => Some(Instruction::ADC(ArithmeticTarget::L)),
        0x8E => Some(Instruction::ADC_MEM),
        0x8F => Some(Instruction::ADC(ArithmeticTarget::A)),
        0x90 => Some(Instruction::SUB(ArithmeticTarget::B)),
        0x91 => Some(Instruction::SUB(ArithmeticTarget::C)),
        0x92 => Some(Instruction::SUB(ArithmeticTarget::D)),
        0x93 => Some(Instruction::SUB(ArithmeticTarget::E)),
        0x94 => Some(Instruction::SUB(ArithmeticTarget::H)),
        0x95 => Some(Instruction::SUB(ArithmeticTarget::L)),
        0x96 => Some(Instruction::SUB_MEM),
        0x97 => Some(Instruction::SUB(ArithmeticTarget::A)),
        0x98 => Some(Instruction::SBC(ArithmeticTarget::B)),
        0x99 => Some(Instruction::SBC(ArithmeticTarget::C)),
        0x9A => Some(Instruction::SBC(ArithmeticTarget::D)),
        0x9B => Some(Instruction::SBC(ArithmeticTarget::E)),
        0x9C => Some(Instruction::SBC(ArithmeticTarget::H)),
        0x9D => Some(Instruction::SBC(ArithmeticTarget::L)),
        0x9E => Some(Instruction::SBC_MEM),
        0x9F => Some(Instruction::SBC(ArithmeticTarget::A)),
        0xA0 => Some(Instruction::AND(ArithmeticTarget::B)),
        0xA1 => Some(Instruction::AND(ArithmeticTarget::C)),
        0xA2 => Some(Instruction::AND(ArithmeticTarget::D)),
        0xA3 => Some(Instruction::AND(ArithmeticTarget::E)),
        0xA4 => Some(Instruction::AND(ArithmeticTarget::H)),
        0xA5 => Some(Instruction::AND(ArithmeticTarget::L)),
        0xA6 => Some(Instruction::AND_MEM),
        0xA7 => Some(Instruction::AND(ArithmeticTarget::A)),
        0xA8 => Some(Instruction::XOR(ArithmeticTarget::B)),
        0xA9 => Some(Instruction::XOR(ArithmeticTarget::C)),
        0xAA => Some(Instruction::XOR(ArithmeticTarget::D)),
        0xAB => Some(Instruction::XOR(ArithmeticTarget::E)),
        0xAC => Some(Instruction::XOR(ArithmeticTarget::H)),
        0xAD => Some(Instruction::XOR(ArithmeticTarget::L)),
        0xAE => Some(Instruction::XOR_MEM),
        0xAF => Some(Instruction::XOR(ArithmeticTarget::A)),
        0xB0 => Some(Instruction::OR(ArithmeticTarget::B)),
        0xB1 => Some(Instruction::OR(ArithmeticTarget::C)),
        0xB2 => Some(Instruction::OR(ArithmeticTarget::D)),
        0xB3 => Some(Instruction::OR(ArithmeticTarget::E)),
        0xB4 => Some(Instruction::OR(ArithmeticTarget::H)),
        0xB5 => Some(Instruction::OR(ArithmeticTarget::L)),
        0xB6 => Some(Instruction::OR_MEM),
        0xB7 => Some(Instruction::OR(ArithmeticTarget::A)),
        0xB8 => Some(Instruction::CP(ArithmeticTarget::B)),
        0xB9 => Some(Instruction::CP(ArithmeticTarget::C)),
        0xBA => Some(Instruction::CP(ArithmeticTarget::D)),
        0xBB => Some(Instruction::CP(ArithmeticTarget::E)),
        0xBC => Some(Instruction::CP(ArithmeticTarget::H)),
        0xBD => Some(Instruction::CP(ArithmeticTarget::L)),
        0xBE => Some(Instruction::CP_MEM),
        0xBF => Some(Instruction::CP(ArithmeticTarget::A)),
        0xC0 => Some(Instruction::RET(false, true, true)),
        0xC1 => Some(Instruction::POP(ArithmeticTarget::B, ArithmeticTarget::C)),
        0xC2 => Some(Instruction::JP(false, true, true, imm16)),
        0xC3 => Some(Instruction::JP(false, false, false, imm16)),
        0xC4 => Some(Instruction::CALL(imm16, false, true, true)),
        0xC5 => Some(Instruction::PUSH(ArithmeticTarget::B, ArithmeticTarget::C)),
        0xC6 => Some(Instruction::ADD_IMM(imm1)),
        0xC7 => Some(Instruction::RST(0x00)),
        0xC8 => Some(Instruction::RET(false, true, false)),
        0xC9 => Some(Instruction::RET(false, false, false)),
        0xCA => Some(Instruction::JP(false, true, false, imm16)),
        0xCC => Some(Instruction::CALL(imm16, false, true, false)),
        0xCD => Some(Instruction::CALL(imm16, false, false, false)),
        0xCE => Some(Instruction::ADC_IMM(imm1)),
        0xCF => Some(Instruction::RST(0x08)),
        0xD0 => Some(Instruction::RET(true, false, true)),
        0xD1 => Some(Instruction::POP(ArithmeticTarget::D, ArithmeticTarget::E)),
        0xD2 => Some(Instruction::JP(true, false, true, imm16)),
        0xD4 => Some(Instruction::CALL(imm16, true, false, true)),
        0xD5 => Some(Instruction::PUSH(ArithmeticTarget::D, ArithmeticTarget::E)),
        0xD6 => Some(Instruction::SUB_IMM(imm1)),
        0xD7 => Some(Instruction::RST(0x10)),
        0xD8 => Some(Instruction::RET(true, false, false)),
        0xD9 => Some(Instruction::RETI),
        0xDA => Some(Instruction::JP(true, false, false, imm16)),
        0xDC => Some(Instruction::CALL(imm16, true, false, false)),
        0xDE => Some(Instruction::SBC_IMM(imm1)),
        0xDF => Some(Instruction::RST(0x18)),
        0xE0 => Some(Instruction::LD_IMM_8(imm1, false)),
        0xE1 => Some(Instruction::POP(ArithmeticTarget::H, ArithmeticTarget::L)),
        0xE2 => Some(Instruction::LD_AC(false)),
        0xE5 => Some(Instruction::PUSH(ArithmeticTarget::H, ArithmeticTarget::L)),
        0xE6 => Some(Instruction::AND_IMM(imm1)),
        0xE7 => Some(Instruction::RST(0x20)),
        0xE8 => Some(Instruction::INC_SP(to_signed(imm1))),
        0xE9 => Some(Instruction::JP_HL),
        0xEA => Some(Instruction::LD_IMM_16(imm16, false)),
        0xEE => Some(Instruction::XOR_IMM(imm1)),
        0xEF => Some(Instruction::RST(0x28)),
        0xF0 => Some(Instruction::LD_IMM_8(imm1, true)),
        0xF1 => Some(Instruction::POP(ArithmeticTarget::A, ArithmeticTarget::F)),
        0xF2 => Some(Instruction::LD_AC(true)),
        0xF3 => Some(Instruction::DI),
        0xF5 => Some(Instruction::PUSH(ArithmeticTarget::A, ArithmeticTarget::F)),
        0xF6 => Some(Instruction::OR_IMM(imm1)),
        0xF7 => Some(Instruction::RST(0x30)),
        0xF8 => Some(Instruction::LD_HL_SP(to_signed(imm1))),
        0xF9 => Some(Instruction::LD_SP_HL),
        0xFA => Some(Instruction::LD_IMM_16(imm16, true)),
        0xFB => Some(Instruction::EI),
        0xFE => Some(Instruction::CP_IMM(imm1)),
        0xFF => Some(Instruction::RST(0x38)),
        _ => None,
    }
}

/// Size in bytes and base cycle count of an opcode. Conditional transfers
/// are counted as not taken.
pub fn get_instruction_info(opcode: u8) -> (r: (u8, u8))
    ensures
        r == instruction_info(opcode),
{
    match opcode {
        0x06 | 0x0E | 0x16 | 0x1E | 0x26 | 0x2E | 0x36 | 0x3E | 0xC6 | 0xCE | 0xD6 | 0xDE | 0xE6
        | 0xEE | 0xF6 | 0xFE | 0x18 | 0x20 | 0x28 | 0x30 | 0x38 => (2, 8),
        0x01 | 0x11 | 0x21 | 0x31 | 0xC2 | 0xC3 | 0xC4 | 0xCA | 0xCC | 0xCD | 0xD2 | 0xD4 | 0xDA
        | 0xDC | 0xEA | 0xFA => (3, 12),
        0xE0 | 0xF0 => (2, 12),
        0xC0 | 0xC8 | 0xD0 | 0xD8 | 0xE2 | 0xF2 | 0xF9 => (1, 8),
        0x08 => (3, 20),
        0xE8 => (2, 16),
        0xF8 => (2, 12),
        _ => (1, 4),
    }
}

} // verus!
