use vstd::prelude::*;
use crate::instruction::{ArithmeticTarget, Instruction, decode_table, instruction_info, is_r8, is_stack_pair, is_wide_pair};
use crate::ram::{MEMORY_SIZE, INTERRUPT_ENABLE_ADDRESS, INTERRUPT_FLAGS_ADDRESS};
use crate::register::{RegisterState, canonical_f, flags_byte, flag_c, flag_h, flag_n, flag_z, b2i, pair, lemma_canonical_f, lemma_flags_byte_bits};

verus! {

/// What an instruction reads and changes: the registers, memory, the
/// interrupt-master-enable flag and its saved copy.
pub struct CpuState {
    pub regs: RegisterState,
    pub mem: Seq<u8>,
    pub ime: bool,
    pub saved_ime: bool,
}

impl CpuState {
    pub open spec fn wf(self) -> bool {
        self.regs.wf() && self.mem.len() == MEMORY_SIZE
    }

    pub open spec fn byte(self, address: u16) -> u8 {
        self.mem[address as int]
    }

    pub open spec fn with_regs(self, regs: RegisterState) -> CpuState {
        CpuState { regs, ..self }
    }

    pub open spec fn with_mem(self, address: u16, value: u8) -> CpuState {
        CpuState { mem: self.mem.update(address as int, value), ..self }
    }
}

pub open spec fn wrap8(x: int) -> u8 {
    (x % 256) as u8
}

pub open spec fn wrap16(x: int) -> u16 {
    (x % 65536) as u16
}

pub open spec fn reg8(r: RegisterState, t: ArithmeticTarget) -> u8 {
    match t {
        ArithmeticTarget::A => r.a,
        ArithmeticTarget::B => r.b,
        ArithmeticTarget::C => r.c,
        ArithmeticTarget::D => r.d,
        ArithmeticTarget::E => r.e,
        ArithmeticTarget::H => r.h,
        ArithmeticTarget::L => r.l,
        ArithmeticTarget::F => r.f,
        ArithmeticTarget::SP => 0,
    }
}

pub open spec fn with_reg8(r: RegisterState, t: ArithmeticTarget, v: u8) -> RegisterState {
    match t {
        ArithmeticTarget::A => RegisterState { a: v, ..r },
        ArithmeticTarget::B => RegisterState { b: v, ..r },
        ArithmeticTarget::C => RegisterState { c: v, ..r },
        ArithmeticTarget::D => RegisterState { d: v, ..r },
        ArithmeticTarget::E => RegisterState { e: v, ..r },
        ArithmeticTarget::H => RegisterState { h: v, ..r },
        ArithmeticTarget::L => RegisterState { l: v, ..r },
        _ => r,
    }
}

/// The 16-bit value of the pair `t1 t2`: BC, DE, HL, AF, or SP.
pub open spec fn pair16(r: RegisterState, t1: ArithmeticTarget, t2: ArithmeticTarget) -> u16 {
    if t1 is B && t2 is C {
        r.bc()
    } else if t1 is D && t2 is E {
        r.de()
    } else if t1 is H && t2 is L {
        r.hl()
    } else if t1 is A && t2 is F {
        r.af()
    } else {
        r.sp
    }
}

/// Writes a pair, high byte to the first register; F keeps only its flag bits.
pub open spec fn with_pair16(r: RegisterState, t1: ArithmeticTarget, t2: ArithmeticTarget, v: u16) -> RegisterState {
    let hi = (v / 256) as u8;
    let lo = (v % 256) as u8;
    if t1 is B && t2 is C {
        RegisterState { b: hi, c: lo, ..r }
    } else if t1 is D && t2 is E {
        RegisterState { d: hi, e: lo, ..r }
    } else if t1 is H && t2 is L {
        RegisterState { h: hi, l: lo, ..r }
    } else if t1 is A && t2 is F {
        RegisterState { a: hi, f: canonical_f(lo), ..r }
    } else {
        RegisterState { sp: v, ..r }
    }
}

pub open spec fn with_flags(r: RegisterState, zero: bool, subtract: bool, half_carry: bool, carry: bool) -> RegisterState {
    RegisterState { f: flags_byte(zero, subtract, half_carry, carry), ..r }
}

/// The byte at (HL).
pub open spec fn hl_byte(s: CpuState) -> u8 {
    s.byte(s.regs.hl())
}

// ---- 8-bit arithmetic and logic on A ----

/// A + v + carry_in; half-carry is the carry out of bit 3, carry the carry out of bit 7.
pub open spec fn add_spec(s: CpuState, v: u8, carry_in: bool) -> CpuState {
    let a = s.regs.a;
    let cin = b2i(carry_in);
    let res = wrap8(a + v + cin);
    s.with_regs(with_flags(RegisterState { a: res, ..s.regs }, res == 0, false, a % 16 + v % 16 + cin > 15, a + v + cin > 255))
}

/// A - v - carry_in; half-carry is the borrow from bit 4, carry the borrow
/// from bit 8. With `keep` false only the flags change (compare).
pub open spec fn sub_spec(s: CpuState, v: u8, carry_in: bool, keep: bool) -> CpuState {
    let a = s.regs.a;
    let cin = b2i(carry_in);
    let res = wrap8(a - v - cin);
    let r1 = if keep { RegisterState { a: res, ..s.regs } } else { s.regs };
    s.with_regs(with_flags(r1, res == 0, true, a % 16 < v % 16 + cin, a < v + cin))
}

pub open spec fn and_spec(s: CpuState, v: u8) -> CpuState {
    let res = s.regs.a & v;
    s.with_regs(with_flags(RegisterState { a: res, ..s.regs }, res == 0, false, true, false))
}

pub open spec fn or_spec(s: CpuState, v: u8) -> CpuState {
    let res = s.regs.a | v;
    s.with_regs(with_flags(RegisterState { a: res, ..s.regs }, res == 0, false, false, false))
}

pub open spec fn xor_spec(s: CpuState, v: u8) -> CpuState {
    let res = s.regs.a ^ v;
    s.with_regs(with_flags(RegisterState { a: res, ..s.regs }, res == 0, false, false, false))
}

// ---- increment and decrement ----

/// 8-bit increment: zero and half-carry from the result, subtract cleared,
/// carry kept. On SP: a 16-bit increment with no flag change.
pub open spec fn inc_spec(s: CpuState, t: ArithmeticTarget) -> CpuState {
    if t is SP {
        s.with_regs(RegisterState { sp: wrap16(s.regs.sp + 1), ..s.regs })
    } else {
        let v = reg8(s.regs, t);
        let res = wrap8(v + 1);
        s.with_regs(with_flags(with_reg8(s.regs, t, res), res == 0, false, v % 16 == 15, flag_c(s.regs.f)))
    }
}

/// 8-bit decrement: zero and half-carry from the result, subtract set,
/// carry kept. On SP: a 16-bit decrement with no flag change.
pub open spec fn dec_spec(s: CpuState, t: ArithmeticTarget) -> CpuState {
    if t is SP {
        s.with_regs(RegisterState { sp: wrap16(s.regs.sp - 1), ..s.regs })
    } else {
        let v = reg8(s.regs, t);
        let res = wrap8(v - 1);
        s.with_regs(with_flags(with_reg8(s.regs, t, res), res == 0, true, v % 16 == 0, flag_c(s.regs.f)))
    }
}

/// Increment or decrement of the byte at (HL), with the flags of the 8-bit forms.
pub open spec fn mod_mem_spec(s: CpuState, increment: bool) -> CpuState {
    let v = hl_byte(s);
    let res = if increment { wrap8(v + 1) } else { wrap8(v - 1) };
    let half = if increment { v % 16 == 15 } else { v % 16 == 0 };
    s.with_mem(s.regs.hl(), res).with_regs(with_flags(s.regs, res == 0, !increment, half, flag_c(s.regs.f)))
}

pub open spec fn inc16_spec(s: CpuState, t1: ArithmeticTarget, t2: ArithmeticTarget) -> CpuState {
    s.with_regs(with_pair16(s.regs, t1, t2, wrap16(pair16(s.regs, t1, t2) + 1)))
}

pub open spec fn dec16_spec(s: CpuState, t1: ArithmeticTarget, t2: ArithmeticTarget) -> CpuState {
    s.with_regs(with_pair16(s.regs, t1, t2, wrap16(pair16(s.regs, t1, t2) - 1)))
}

/// HL + pair: half-carry out of bit 11, carry out of bit 15, zero from the result.
pub open spec fn add_hl_spec(s: CpuState, t1: ArithmeticTarget, t2: ArithmeticTarget) -> CpuState {
    let hl = s.regs.hl();
    let v = pair16(s.regs, t1, t2);
    let res = wrap16(hl + v);
    s.with_regs(with_flags(with_pair16(s.regs, ArithmeticTarget::H, ArithmeticTarget::L, res), res == 0, false, hl % 4096 + v % 4096 > 4095, hl + v > 65535))
}

/// SP plus a signed displacement, wrapping.
pub open spec fn sp_plus(s: CpuState, e: i8) -> u16 {
    wrap16(s.regs.sp + e)
}

/// Flags of SP plus a signed displacement: zero and subtract cleared, half-carry
/// and carry from the unsigned addition of the low bytes.
pub open spec fn sp_offset_flags(r: RegisterState, sp: u16, e: i8) -> RegisterState {
    let ue = (e as int) % 256;
    with_flags(r, false, false, sp % 16 + ue % 16 > 15, sp % 256 + ue > 255)
}

pub open spec fn inc_sp_spec(s: CpuState, e: i8) -> CpuState {
    s.with_regs(sp_offset_flags(RegisterState { sp: sp_plus(s, e), ..s.regs }, s.regs.sp, e))
}

pub open spec fn ld_hl_sp_spec(s: CpuState, e: i8) -> CpuState {
    s.with_regs(sp_offset_flags(with_pair16(s.regs, ArithmeticTarget::H, ArithmeticTarget::L, sp_plus(s, e)), s.regs.sp, e))
}

// ---- loads ----

/// A loaded from (`load`) or stored to (`!load`) the given address.
pub open spec fn transfer_a(s: CpuState, address: u16, load: bool) -> CpuState {
    if load {
        s.with_regs(RegisterState { a: s.byte(address), ..s.regs })
    } else {
        s.with_mem(address, s.regs.a)
    }
}

pub open spec fn ld_mem_inc_spec(s: CpuState, increment: bool, load: bool) -> CpuState {
    let address = s.regs.hl();
    let next = if increment { wrap16(address + 1) } else { wrap16(address - 1) };
    transfer_a(s.with_regs(with_pair16(s.regs, ArithmeticTarget::H, ArithmeticTarget::L, next)), address, load)
}

pub open spec fn store_sp_spec(s: CpuState, address: u16) -> CpuState {
    s.with_mem(address, (s.regs.sp % 256) as u8).with_mem(wrap16(address + 1), (s.regs.sp / 256) as u8)
}

// ---- stack and control transfer ----

/// Push: SP drops by two; the high byte goes to SP-1, the low byte to SP-2.
pub open spec fn push_spec(s: CpuState, v: u16) -> CpuState {
    let sp1 = wrap16(s.regs.sp - 1);
    let sp2 = wrap16(s.regs.sp - 2);
    CpuState {
        regs: RegisterState { sp: sp2, ..s.regs },
        mem: s.mem.update(sp1 as int, (v / 256) as u8).update(sp2 as int, (v % 256) as u8),
        ..s
    }
}

/// The value a pop reads: low byte at SP, high byte at SP+1.
pub open spec fn popped(s: CpuState) -> u16 {
    pair(s.byte(wrap16(s.regs.sp + 1)), s.byte(s.regs.sp))
}

pub open spec fn pop_pair_spec(s: CpuState, t1: ArithmeticTarget, t2: ArithmeticTarget) -> CpuState {
    s.with_regs(with_pair16(RegisterState { sp: wrap16(s.regs.sp + 2), ..s.regs }, t1, t2, popped(s)))
}

/// Whether a transfer with selectors `(carry, zero, negate)` is taken under flags `f`.
pub open spec fn condition(f: u8, carry: bool, zero: bool, negate: bool) -> bool {
    if !carry && !zero {
        true
    } else {
        (carry && (flag_c(f) != negate)) || (zero && (flag_z(f) != negate))
    }
}

pub open spec fn with_pc(s: CpuState, pc: u16) -> CpuState {
    s.with_regs(RegisterState { pc, ..s.regs })
}

pub open spec fn jp_spec(s: CpuState, carry: bool, zero: bool, negate: bool, target: u16) -> CpuState {
    if condition(s.regs.f, carry, zero, negate) { with_pc(s, target) } else { s }
}

/// Relative jump, measured from the address of the jump instruction itself.
pub open spec fn jr_spec(s: CpuState, carry: bool, zero: bool, negate: bool, offset: i8) -> CpuState {
    if condition(s.regs.f, carry, zero, negate) { with_pc(s, wrap16(s.regs.pc + offset)) } else { s }
}

/// Call: pushes the address after the three-byte instruction, then jumps.
pub open spec fn call_spec(s: CpuState, target: u16, carry: bool, zero: bool, negate: bool) -> CpuState {
    if condition(s.regs.f, carry, zero, negate) {
        with_pc(push_spec(s, wrap16(s.regs.pc + 3)), target)
    } else {
        s
    }
}

pub open spec fn ret_spec(s: CpuState, carry: bool, zero: bool, negate: bool) -> CpuState {
    if condition(s.regs.f, carry, zero, negate) {
        s.with_regs(RegisterState { pc: popped(s), sp: wrap16(s.regs.sp + 2), ..s.regs })
    } else {
        s
    }
}

/// Return from interrupt: an unconditional return that swaps the
/// interrupt-master-enable flag with its saved copy.
pub open spec fn reti_spec(s: CpuState) -> CpuState {
    CpuState {
        regs: RegisterState { pc: popped(s), sp: wrap16(s.regs.sp + 2), ..s.regs },
        ime: s.saved_ime,
        saved_ime: s.ime,
        ..s
    }
}

/// Restart: pushes the address after the one-byte instruction, then jumps to the vector.
pub open spec fn rst_spec(s: CpuState, vector: u8) -> CpuState {
    with_pc(push_spec(s, wrap16(s.regs.pc + 1)), vector as u16)
}

// ---- rotates and miscellaneous ----

pub open spec fn rl_spec(s: CpuState, circular: bool) -> CpuState {
    let a = s.regs.a;
    let fed = if circular { a as int / 128 } else { b2i(flag_c(s.regs.f)) };
    s.with_regs(with_flags(RegisterState { a: wrap8(a * 2 + fed), ..s.regs }, false, false, false, a >= 128))
}

pub open spec fn rr_spec(s: CpuState, circular: bool) -> CpuState {
    let a = s.regs.a;
    let fed = if circular { a as int % 2 } else { b2i(flag_c(s.regs.f)) };
    s.with_regs(with_flags(RegisterState { a: (a / 2 + 128 * fed) as u8, ..s.regs }, false, false, false, a % 2 == 1))
}

pub open spec fn daa_adjust(a: u8, f: u8) -> int {
    (if a % 16 > 9 || flag_h(f) { 0x06int } else { 0 }) + (if a / 16 > 9 || flag_c(f) { 0x60int } else { 0 })
}

/// Decimal adjust of A after a BCD addition or subtraction.
pub open spec fn daa_spec(s: CpuState) -> CpuState {
    let a = s.regs.a;
    let f = s.regs.f;
    let adjust = daa_adjust(a, f);
    let res = if flag_n(f) { wrap8(a - adjust) } else { wrap8(a + adjust) };
    s.with_regs(with_flags(RegisterState { a: res, ..s.regs }, res == 0, flag_n(f), res % 16 < adjust % 16, a / 16 > 9 || flag_c(f)))
}

pub open spec fn scf_spec(s: CpuState) -> CpuState {
    s.with_regs(with_flags(s.regs, flag_z(s.regs.f), false, false, true))
}

pub open spec fn ccf_spec(s: CpuState) -> CpuState {
    s.with_regs(with_flags(s.regs, flag_z(s.regs.f), false, false, !flag_c(s.regs.f)))
}

pub open spec fn cpl_spec(s: CpuState) -> CpuState {
    s.with_regs(with_flags(RegisterState { a: (255 - s.regs.a) as u8, ..s.regs }, flag_z(s.regs.f), true, true, flag_c(s.regs.f)))
}

/// The state after executing one instruction (the program counter moves only
/// through control transfers).
pub open spec fn execute_spec(s: CpuState, i: Instruction) -> CpuState {
    let carry = flag_c(s.regs.f);
    match i {
        Instruction::ADD(t) => add_spec(s, reg8(s.regs, t), false),
        Instruction::ADC(t) => add_spec(s, reg8(s.regs, t), carry),
        Instruction::SUB(t) => sub_spec(s, reg8(s.regs, t), false, true),
        Instruction::SBC(t) => sub_spec(s, reg8(s.regs, t), carry, true),
        Instruction::AND(t) => and_spec(s, reg8(s.regs, t)),
        Instruction::OR(t) => or_spec(s, reg8(s.regs, t)),
        Instruction::XOR(t) => xor_spec(s, reg8(s.regs, t)),
        Instruction::CP(t) => sub_spec(s, reg8(s.regs, t), false, false),
        Instruction::RL(circular) => rl_spec(s, circular),
        Instruction::RR(circular) => rr_spec(s, circular),
        Instruction::DAA => daa_spec(s),
        Instruction::ADD_IMM(v) => add_spec(s, v, false),
        Instruction::ADC_IMM(v) => add_spec(s, v, carry),
        Instruction::SUB_IMM(v) => sub_spec(s, v, false, true),
        Instruction::SBC_IMM(v) => sub_spec(s, v, carry, true),
        Instruction::AND_IMM(v) => and_spec(s, v),
        Instruction::OR_IMM(v) => or_spec(s, v),
        Instruction::XOR_IMM(v) => xor_spec(s, v),
        Instruction::CP_IMM(v) => sub_spec(s, v, false, false),
        Instruction::ADD_MEM => add_spec(s, hl_byte(s), false),
        Instruction::ADC_MEM => add_spec(s, hl_byte(s), carry),
        Instruction::SUB_MEM => sub_spec(s, hl_byte(s), false, true),
        Instruction::SBC_MEM => sub_spec(s, hl_byte(s), carry, true),
        Instruction::AND_MEM => and_spec(s, hl_byte(s)),
        Instruction::OR_MEM => or_spec(s, hl_byte(s)),
        Instruction::XOR_MEM => xor_spec(s, hl_byte(s)),
        Instruction::CP_MEM => sub_spec(s, hl_byte(s), false, false),
        Instruction::ADD_HL(t1, t2) => add_hl_spec(s, t1, t2),
        Instruction::NOP => s,
        Instruction::INC(t) => inc_spec(s, t),
        Instruction::DEC(t) => dec_spec(s, t),
        Instruction::INC_16(t1, t2) => inc16_spec(s, t1, t2),
        Instruction::DEC_16(t1, t2) => dec16_spec(s, t1, t2),
        Instruction::EI => CpuState { ime: true, ..s },
        Instruction::DI => CpuState { ime: false, ..s },
        Instruction::PUSH(t1, t2) => push_spec(s, pair16(s.regs, t1, t2)),
        Instruction::POP(t1, t2) => pop_pair_spec(s, t1, t2),
        Instruction::RET(c, z, n) => ret_spec(s, c, z, n),
        Instruction::RETI => reti_spec(s),
        Instruction::RST(v) => rst_spec(s, v),
        Instruction::CALL(target, c, z, n) => call_spec(s, target, c, z, n),
        Instruction::JR(c, z, n, offset) => jr_spec(s, c, z, n, offset),
        Instruction::JP(c, z, n, target) => jp_spec(s, c, z, n, target),
        Instruction::JP_HL => with_pc(s, s.regs.hl()),
        Instruction::LD_RR(dst, src) => s.with_regs(with_reg8(s.regs, dst, reg8(s.regs, src))),
        Instruction::LD_MEM_REG(src) => s.with_mem(s.regs.hl(), reg8(s.regs, src)),
        Instruction::LD_REG_MEM(dst) => s.with_regs(with_reg8(s.regs, dst, hl_byte(s))),
        Instruction::LD_MEM_IMM(v) => s.with_mem(s.regs.hl(), v),
        Instruction::LD_REG_IMM(dst, v) => s.with_regs(with_reg8(s.regs, dst, v)),
        Instruction::LD_MEM_INC(increment, load) => ld_mem_inc_spec(s, increment, load),
        Instruction::LD_BCDE(t1, t2, load) => transfer_a(s, pair16(s.regs, t1, t2), load),
        Instruction::LD_IMM_16(address, load) => transfer_a(s, address, load),
        Instruction::LD_IMM_8(offset, load) => transfer_a(s, (0xFF00 + offset) as u16, load),
        Instruction::LD_AC(load) => transfer_a(s, (0xFF00 + s.regs.c) as u16, load),
        Instruction::LD_REG_IMM_16(t1, t2, v) => s.with_regs(with_pair16(s.regs, t1, t2, v)),
        Instruction::MOD_MEM(increment) => mod_mem_spec(s, increment),
        Instruction::STORE_SP(address) => store_sp_spec(s, address),
        Instruction::INC_SP(e) => inc_sp_spec(s, e),
        Instruction::LD_SP_HL => s.with_regs(RegisterState { sp: s.regs.hl(), ..s.regs }),
        Instruction::LD_HL_SP(e) => ld_hl_sp_spec(s, e),
        Instruction::SCF => scf_spec(s),
        Instruction::CCF => ccf_spec(s),
        Instruction::CPL => cpl_spec(s),
    }
}

/// The instruction at the program counter, decoded with the two bytes after it.
pub open spec fn decode_at(s: CpuState) -> Option<Instruction> {
    let pc = s.regs.pc;
    decode_table(s.byte(pc), s.byte(wrap16(pc + 1)), s.byte(wrap16(pc + 2)))
}

/// Whether `i` transfers control in state `s`: a jump, call or return whose
/// condition holds, or an unconditional transfer (RETI, RST, JP (HL)).
pub open spec fn transferred(s: CpuState, i: Instruction) -> bool {
    match i {
        Instruction::JP(c, z, n, _) => condition(s.regs.f, c, z, n),
        Instruction::JR(c, z, n, _) => condition(s.regs.f, c, z, n),
        Instruction::CALL(_, c, z, n) => condition(s.regs.f, c, z, n),
        Instruction::RET(c, z, n) => condition(s.regs.f, c, z, n),
        Instruction::RETI => true,
        Instruction::RST(_) => true,
        Instruction::JP_HL => true,
        _ => false,
    }
}

/// One fetch-decode-execute step: the new state and the cycles it took, or
/// `None` when the opcode at the program counter is not implemented. The
/// program counter advances by the opcode's size unless the instruction
/// transferred control.
pub open spec fn step_spec(s: CpuState) -> Option<(CpuState, u8)> {
    let opcode = s.byte(s.regs.pc);
    match decode_at(s) {
        None => None,
        Some(i) => {
            let s1 = execute_spec(s, i);
            let size = instruction_info(opcode).0;
            let s2 = if transferred(s, i) { s1 } else { with_pc(s1, wrap16(s.regs.pc + size)) };
            Some((s2, instruction_info(opcode).1))
        },
    }
}

/// The interrupt sources, in priority order.
#[derive(Debug, Clone, Copy, PartialEq, Eq, Structural)]
pub enum Interrupt {
    VBLANK,
    LCD_STAT,
    TIMER,
    SERIAL,
    JOYPAD,
}

impl Interrupt {
    /// The source's bit in the interrupt-flags and interrupt-enable registers.
    pub open spec fn bit_mask(self) -> u8 {
        match self {
            Interrupt::VBLANK => 0x01,
            Interrupt::LCD_STAT => 0x02,
            Interrupt::TIMER => 0x04,
            Interrupt::SERIAL => 0x08,
            Interrupt::JOYPAD => 0x10,
        }
    }

    /// The fixed address of the source's handler.
    pub open spec fn handler(self) -> u16 {
        match self {
            Interrupt::VBLANK => 0x40,
            Interrupt::LCD_STAT => 0x48,
            Interrupt::TIMER => 0x50,
            Interrupt::SERIAL => 0x58,
            Interrupt::JOYPAD => 0x60,
        }
    }
}

/// The source to service among those pending in bits 0 to 4 of `pending`
/// (some of which is set): the lowest set bit wins.
pub open spec fn highest_priority(pending: u8) -> Interrupt {
    if pending % 2 == 1 {
        Interrupt::VBLANK
    } else if (pending / 2) % 2 == 1 {
        Interrupt::LCD_STAT
    } else if (pending / 4) % 2 == 1 {
        Interrupt::TIMER
    } else if (pending / 8) % 2 == 1 {
        Interrupt::SERIAL
    } else {
        Interrupt::JOYPAD
    }
}

/// The sources (bits 0 to 4) both requested and enabled.
pub open spec fn pending_interrupts(s: CpuState) -> u8 {
    s.byte(INTERRUPT_FLAGS_ADDRESS) & s.byte(INTERRUPT_ENABLE_ADDRESS) & 0x1F
}

/// Interrupt dispatch: with interrupts enabled and one of the five sources
/// both requested and enabled, save and clear the enable flag, push the
/// program counter, clear the serviced source's request bit and jump to its
/// handler. Otherwise nothing changes.
pub open spec fn interrupt_spec(s: CpuState) -> CpuState {
    let requested = s.byte(INTERRUPT_FLAGS_ADDRESS);
    if s.ime && pending_interrupts(s) != 0 {
        let source = highest_priority(pending_interrupts(s));
        let pushed = push_spec(CpuState { ime: false, saved_ime: s.ime, ..s }, s.regs.pc);
        with_pc(pushed.with_mem(INTERRUPT_FLAGS_ADDRESS, requested & !source.bit_mask()), source.handler())
    } else {
        s
    }
}

/// The byte operand of an 8-bit arithmetic instruction: a register, the
/// immediate, or the byte at (HL).
pub open spec fn alu_operand(s: CpuState, i: Instruction) -> u8 {
    match i {
        Instruction::ADD(t) => reg8(s.regs, t),
        Instruction::ADC(t) => reg8(s.regs, t),
        Instruction::SUB(t) => reg8(s.regs, t),
        Instruction::SBC(t) => reg8(s.regs, t),
        Instruction::CP(t) => reg8(s.regs, t),
        Instruction::ADD_IMM(v) => v,
        Instruction::ADC_IMM(v) => v,
        Instruction::SUB_IMM(v) => v,
        Instruction::SBC_IMM(v) => v,
        Instruction::CP_IMM(v) => v,
        _ => hl_byte(s),
    }
}

/// 1 when the instruction takes the carry flag in (ADC, SBC) and it is set, else 0.
pub open spec fn alu_carry_in(s: CpuState, i: Instruction) -> int {
    if i is ADC || i is ADC_IMM || i is ADC_MEM || i is SBC || i is SBC_IMM || i is SBC_MEM {
        b2i(flag_c(s.regs.f))
    } else {
        0
    }
}

/// Addition (ADD, ADC, in every operand form): half-carry is set exactly when
/// the low nibbles (with the carry in) sum past 0xF, carry exactly when the
/// bytes sum past 0xFF, and zero exactly when the result byte is 0.
pub proof fn lemma_addition_flags(s: CpuState, i: Instruction)
    requires
        i.valid(),
        i is ADD || i is ADC || i is ADD_IMM || i is ADC_IMM || i is ADD_MEM || i is ADC_MEM,
    ensures
        ({
            let r = execute_spec(s, i);
            let a = s.regs.a;
            let v = alu_operand(s, i);
            let cin = alu_carry_in(s, i);
            &&& r.regs.a == wrap8(a + v + cin)
            &&& flag_h(r.regs.f) == (a % 16 + v % 16 + cin > 0xF)
            &&& flag_c(r.regs.f) == (a + v + cin > 0xFF)
            &&& flag_z(r.regs.f) == (r.regs.a == 0)
            &&& !flag_n(r.regs.f)
        }),
{
    let a = s.regs.a;
    let v = alu_operand(s, i);
    let cin = alu_carry_in(s, i);
    let res = wrap8(a + v + cin);
    lemma_flags_byte_bits(res == 0, false, a % 16 + v % 16 + cin > 15, a + v + cin > 255);
}

/// Subtraction (SUB, SBC, CP, in every operand form): half-carry is set exactly
/// when the low nibble of A is below that of the operand plus the carry in (a
/// borrow from bit 4), carry exactly when A is below the operand plus the carry
/// in, and zero exactly when the difference byte is 0. CP leaves A as it was.
pub proof fn lemma_subtraction_flags(s: CpuState, i: Instruction)
    requires
        i.valid(),
        i is SUB || i is SBC || i is CP || i is SUB_IMM || i is SBC_IMM || i is CP_IMM || i is SUB_MEM
            || i is SBC_MEM || i is CP_MEM,
    ensures
        ({
            let r = execute_spec(s, i);
            let a = s.regs.a;
            let v = alu_operand(s, i);
            let cin = alu_carry_in(s, i);
            let diff = wrap8(a - v - cin);
            &&& r.regs.a == (if i is CP || i is CP_IMM || i is CP_MEM { a } else { diff })
            &&& flag_h(r.regs.f) == (a % 16 < v % 16 + cin)
            &&& flag_c(r.regs.f) == (a < v + cin)
            &&& flag_z(r.regs.f) == (diff == 0)
            &&& flag_n(r.regs.f)
        }),
{
    let a = s.regs.a;
    let v = alu_operand(s, i);
    let cin = alu_carry_in(s, i);
    let res = wrap8(a - v - cin);
    lemma_flags_byte_bits(res == 0, true, a % 16 < v % 16 + cin, a < v + cin);
}

/// Pushing a register pair and popping it back restores every register,
/// stack pointer included.
pub proof fn lemma_push_pop_round_trip(s: CpuState, t1: ArithmeticTarget, t2: ArithmeticTarget)
    requires
        s.wf(),
        is_stack_pair(t1, t2),
    ensures
        execute_spec(execute_spec(s, Instruction::PUSH(t1, t2)), Instruction::POP(t1, t2)).regs == s.regs,
{
    let v = pair16(s.regs, t1, t2);
    let pushed = execute_spec(s, Instruction::PUSH(t1, t2));
    let sp1 = wrap16(s.regs.sp - 1);
    let sp2 = wrap16(s.regs.sp - 2);
    assert(wrap16(sp2 + 1) == sp1);
    assert(wrap16(sp2 + 2) == s.regs.sp);
    assert(pushed.byte(sp2) == (v % 256) as u8);
    assert(pushed.byte(sp1) == (v / 256) as u8);
    assert(popped(pushed) == v);
    lemma_canonical_f(s.regs.f);
}

/// 8-bit increment and decrement: half-carry is the carry out of the low
/// nibble (the borrow into it for a decrement), and zero is set exactly when
/// the result byte is 0.
pub proof fn lemma_narrow_step_flags(s: CpuState, t: ArithmeticTarget)
    requires
        is_r8(t),
    ensures
        ({
            let v = reg8(s.regs, t);
            let r = execute_spec(s, Instruction::INC(t));
            &&& reg8(r.regs, t) == wrap8(v + 1)
            &&& flag_h(r.regs.f) == (v % 16 + 1 > 0xF)
            &&& flag_z(r.regs.f) == (reg8(r.regs, t) == 0)
            &&& !flag_n(r.regs.f)
        }),
        ({
            let v = reg8(s.regs, t);
            let r = execute_spec(s, Instruction::DEC(t));
            &&& reg8(r.regs, t) == wrap8(v - 1)
            &&& flag_h(r.regs.f) == (v % 16 < 1)
            &&& flag_z(r.regs.f) == (reg8(r.regs, t) == 0)
            &&& flag_n(r.regs.f)
        }),
{
    let v = reg8(s.regs, t);
    lemma_flags_byte_bits(wrap8(v + 1) == 0, false, v % 16 == 15, flag_c(s.regs.f));
    lemma_flags_byte_bits(wrap8(v - 1) == 0, true, v % 16 == 0, flag_c(s.regs.f));
}

/// A 16-bit increment or decrement never changes the flags.
pub proof fn lemma_wide_step_keeps_flags(s: CpuState, t1: ArithmeticTarget, t2: ArithmeticTarget)
    requires
        is_wide_pair(t1, t2),
    ensures
        execute_spec(s, Instruction::INC_16(t1, t2)).regs.f == s.regs.f,
        execute_spec(s, Instruction::DEC_16(t1, t2)).regs.f == s.regs.f,
{
}

/// An 8-bit increment or decrement keeps the carry flag as it was.
pub proof fn lemma_narrow_step_keeps_carry(s: CpuState, t: ArithmeticTarget)
    requires
        is_r8(t),
    ensures
        flag_c(execute_spec(s, Instruction::INC(t)).regs.f) == flag_c(s.regs.f),
        flag_c(execute_spec(s, Instruction::DEC(t)).regs.f) == flag_c(s.regs.f),
{
    let v = reg8(s.regs, t);
    lemma_flags_byte_bits(wrap8(v + 1) == 0, false, v % 16 == 15, flag_c(s.regs.f));
    lemma_flags_byte_bits(wrap8(v - 1) == 0, true, v % 16 == 0, flag_c(s.regs.f));
}

} // verus!
