use vstd::prelude::*;
use crate::instruction::{ArithmeticTarget, Instruction, decode, get_instruction_info, is_r8, is_wide_pair, is_stack_pair};
use crate::ram::{RAM, INTERRUPT_ENABLE_ADDRESS, INTERRUPT_FLAGS_ADDRESS};
use crate::register::{Flags, Registers, RegisterState, flag_c, flag_h, flag_n, flag_z, lemma_canonical_f, lemma_flags_byte_bits};
use crate::semantics::{
    CpuState, Interrupt, add_hl_spec, add_spec, and_spec, call_spec, ccf_spec, cpl_spec, daa_adjust, daa_spec,
    dec16_spec, dec_spec, decode_at, execute_spec, highest_priority, pending_interrupts, inc16_spec, inc_sp_spec, inc_spec,
    interrupt_spec, jp_spec, jr_spec, ld_hl_sp_spec, ld_mem_inc_spec, mod_mem_spec, or_spec, pair16, pop_pair_spec,
    popped, push_spec, reg8, ret_spec, reti_spec, rl_spec, rr_spec, rst_spec, scf_spec, sp_offset_flags, step_spec,
    store_sp_spec, sub_spec, transfer_a, transferred, with_flags, with_pair16, with_pc, with_reg8, wrap8, wrap16, xor_spec,
};

verus! {

/// Why the engine could not execute the next instruction.
#[derive(Debug, Clone, Copy, PartialEq, Eq, Structural)]
pub enum CpuError {
    /// The opcode at `address` is not implemented; the engine cannot go on.
    UnimplementedOpcode { opcode: u8, address: u16 },
}

/// The processor: registers, interrupt state and a cycle counter, working on
/// a borrowed memory.
pub struct CPU<'a> {
    pub registers: Registers,
    pub flags: Flags,
    pub ram: &'a mut RAM,
    pub interrupt_master_enable: bool,
    /// The interrupt-master-enable value saved by the last interrupt dispatch
    /// or return from interrupt.
    pub previous_ime: bool,
    pub halted: bool,
    pub stopped: bool,
    pub clock_cycles: u64,
}

impl<'a> CPU<'a> {
    pub open spec fn wf(&self) -> bool {
        self.ram.wf() && self.registers.wf()
    }

    pub open spec fn state(&self) -> CpuState {
        CpuState {
            regs: self.registers@,
            mem: self.ram.bytes(),
            ime: self.interrupt_master_enable,
            saved_ime: self.previous_ime,
        }
    }

    /// `next` is this processor with its state replaced by `s`, the counters kept.
    pub open spec fn moved_to(self, next: Self, s: CpuState) -> bool {
        &&& next.wf()
        &&& next.state() == s
        &&& next.clock_cycles == self.clock_cycles
        &&& next.halted == self.halted
        &&& next.stopped == self.stopped
        &&& next.flags == self.flags
    }

    pub fn new(ram: &'a mut RAM) -> (r: Self)
        requires
            old(ram).wf(),
        ensures
            r.wf(),
            r.state() == (CpuState {
                regs: RegisterState { a: 0, b: 0, c: 0, d: 0, e: 0, f: 0, h: 0, l: 0, sp: 0, pc: 0 },
                mem: old(ram).bytes(),
                ime: false,
                saved_ime: false,
            }),
            r.clock_cycles == 0,
            !r.halted,
            !r.stopped,
    {
        CPU {
            registers: Registers::new(),
            flags: Flags::new(),
            ram: ram,
            interrupt_master_enable: false,
            previous_ime: false,
            halted: false,
            stopped: false,
            clock_cycles: 0,
        }
    }

    fn ei(&mut self)
        requires
            old(self).wf(),
        ensures
            (*old(self)).moved_to(*final(self), CpuState { ime: true, ..old(self).state() }),
    {
        self.interrupt_master_enable = true;
    }

    fn di(&mut self)
        requires
            old(self).wf(),
        ensures
            (*old(self)).moved_to(*final(self), CpuState { ime: false, ..old(self).state() }),
    {
        self.interrupt_master_enable = false;
    }

    fn set_flags(&mut self, zero: bool, subtract: bool, half_carry: bool, carry: bool)
        requires
            old(self).wf(),
        ensures
            (*old(self)).moved_to(*final(self), old(self).state().with_regs(with_flags(old(self).registers@, zero, subtract, half_carry, carry))),
    {
        let flags = Flags { zero, subtract, half_carry, carry };
        let value = flags.to_u8();
        proof {
            lemma_flags_byte_bits(zero, subtract, half_carry, carry);
            lemma_canonical_f(value);
        }
        self.registers.set_f(value);
    }

    fn get_flags(&self) -> (r: Flags)
        ensures
            r.zero == flag_z(self.registers@.f),
            r.subtract == flag_n(self.registers@.f),
            r.half_carry == flag_h(self.registers@.f),
            r.carry == flag_c(self.registers@.f),
    {
        Flags::from_u8(self.registers.get_f())
    }

    fn carry_flag(&self) -> (r: bool)
        ensures
            r == flag_c(self.registers@.f),
    {
        self.get_flags().carry
    }

    fn read_reg8(&self, target: ArithmeticTarget) -> (r: u8)
        requires
            is_r8(target),
        ensures
            r == reg8(self.registers@, target),
    {
        match target {
            ArithmeticTarget::A => self.registers.get_a(),
            ArithmeticTarget::B => self.registers.get_b(),
            ArithmeticTarget::C => self.registers.get_c(),
            ArithmeticTarget::D => self.registers.get_d(),
            ArithmeticTarget::E => self.registers.get_e(),
            ArithmeticTarget::H => self.registers.get_h(),
            _ => self.registers.get_l(),
        }
    }

    fn write_reg8(&mut self, target: ArithmeticTarget, value: u8)
        requires
            old(self).wf(),
            is_r8(target),
        ensures
            (*old(self)).moved_to(*final(self), old(self).state().with_regs(with_reg8(old(self).registers@, target, value))),
    {
        match target {
            ArithmeticTarget::A => self.registers.set_a(value),
            ArithmeticTarget::B => self.registers.set_b(value),
            ArithmeticTarget::C => self.registers.set_c(value),
            ArithmeticTarget::D => self.registers.set_d(value),
            ArithmeticTarget::E => self.registers.set_e(value),
            ArithmeticTarget::H => self.registers.set_h(value),
            _ => self.registers.set_l(value),
        }
    }

    fn read_pair(&self, t1: ArithmeticTarget, t2: ArithmeticTarget) -> (r: u16)
        requires
            is_wide_pair(t1, t2) || is_stack_pair(t1, t2),
        ensures
            r == pair16(self.registers@, t1, t2),
    {
        match (t1, t2) {
            (ArithmeticTarget::B, ArithmeticTarget::C) => self.registers.get_bc(),
            (ArithmeticTarget::D, ArithmeticTarget::E) => self.registers.get_de(),
            (ArithmeticTarget::H, ArithmeticTarget::L) => self.registers.get_hl(),
            (ArithmeticTarget::A, ArithmeticTarget::F) => self.registers.get_af(),
            _ => self.registers.get_sp(),
        }
    }

    fn write_pair(&mut self, t1: ArithmeticTarget, t2: ArithmeticTarget, value: u16)
        requires
            old(self).wf(),
            is_wide_pair(t1, t2) || is_stack_pair(t1, t2),
        ensures
            (*old(self)).moved_to(*final(self), old(self).state().with_regs(with_pair16(old(self).registers@, t1, t2, value))),
    {
        proof {
            lemma_canonical_f((value % 256) as u8);
        }
        match (t1, t2) {
            (ArithmeticTarget::B, ArithmeticTarget::C) => self.registers.set_bc(value),
            (ArithmeticTarget::D, ArithmeticTarget::E) => self.registers.set_de(value),
            (ArithmeticTarget::H, ArithmeticTarget::L) => self.registers.set_hl(value),
            (ArithmeticTarget::A, ArithmeticTarget::F) => self.registers.set_af(value),
            _ => self.registers.set_sp(value),
        }
    }

    fn hl_byte(&self) -> (r: u8)
        requires
            self.wf(),
        ensures
            r == self.state().byte(self.registers@.hl()),
    {
        let address = self.registers.get_hl();
        self.ram.read(address)
    }

    fn ld_rr(&mut self, destination: ArithmeticTarget, source: ArithmeticTarget)
        requires
            old(self).wf(),
            is_r8(destination),
            is_r8(source),
        ensures
            (*old(self)).moved_to(*final(self), execute_spec(old(self).state(), Instruction::LD_RR(destination, source))),
    {
        let value = self.read_reg8(source);
        self.write_reg8(destination, value);
    }

    fn ld_reg_mem(&mut self, target: ArithmeticTarget)
        requires
            old(self).wf(),
            is_r8(target),
        ensures
            (*old(self)).moved_to(*final(self), execute_spec(old(self).state(), Instruction::LD_REG_MEM(target))),
    {
        let value = self.hl_byte();
        self.write_reg8(target, value);
    }

    fn ld_mem_imm(&mut self, value: u8)
        requires
            old(self).wf(),
        ensures
            (*old(self)).moved_to(*final(self), execute_spec(old(self).state(), Instruction::LD_MEM_IMM(value))),
    {
        let address = self.registers.get_hl();
        self.ram.write(address, value);
    }

    fn ld_reg_imm(&mut self, target: ArithmeticTarget, value: u8)
        requires
            old(self).wf(),
            is_r8(target),
        ensures
            (*old(self)).moved_to(*final(self), execute_spec(old(self).state(), Instruction::LD_REG_IMM(target, value))),
    {
        self.write_reg8(target, value);
    }

    /// A to or from the given address.
    fn transfer_a(&mut self, address: u16, load: bool)
        requires
            old(self).wf(),
        ensures
            (*old(self)).moved_to(*final(self), transfer_a(old(self).state(), address, load)),
    {
        if load {
            let value = self.ram.read(address);
            self.registers.set_a(value);
        } else {
            let a = self.registers.get_a();
            self.ram.write(address, a);
        }
    }

    fn ld_mem_inc(&mut self, increment: bool, load: bool)
        requires
            old(self).wf(),
        ensures
            (*old(self)).moved_to(*final(self), ld_mem_inc_spec(old(self).state(), increment, load)),
    {
        let address = self.registers.get_hl();
        let next = if increment { address.wrapping_add(1) } else { address.wrapping_sub(1) };
        self.registers.set_hl(next);
        self.transfer_a(address, load);
    }

    fn mod_mem(&mut self, increment: bool)
        requires
            old(self).wf(),
        ensures
            (*old(self)).moved_to(*final(self), mod_mem_spec(old(self).state(), increment)),
    {
        let address = self.registers.get_hl();
        let value = self.ram.read(address);
        let carry = self.carry_flag();
        if increment {
            let result = value.wrapping_add(1);
            self.ram.write(address, result);
            self.set_flags(result == 0, false, value % 16 == 15, carry);
        } else {
            let result = value.wrapping_sub(1);
            self.ram.write(address, result);
            self.set_flags(result == 0, true, value % 16 == 0, carry);
        }
    }

    fn ld_bcde(&mut self, target1: ArithmeticTarget, target2: ArithmeticTarget, load: bool)
        requires
            old(self).wf(),
            (target1 is B && target2 is C) || (target1 is D && target2 is E),
        ensures
            (*old(self)).moved_to(*final(self), execute_spec(old(self).state(), Instruction::LD_BCDE(target1, target2, load))),
    {
        let address = self.read_pair(target1, target2);
        self.transfer_a(address, load);
    }

    fn ld_imm_16(&mut self, address: u16, load: bool)
        requires
            old(self).wf(),
        ensures
            (*old(self)).moved_to(*final(self), execute_spec(old(self).state(), Instruction::LD_IMM_16(address, load))),
    {
        self.transfer_a(address, load);
    }

    fn ld_imm_8(&mut self, value: u8, load: bool)
        requires
            old(self).wf(),
        ensures
            (*old(self)).moved_to(*final(self), execute_spec(old(self).state(), Instruction::LD_IMM_8(value, load))),
    {
        self.transfer_a(0xFF00 + value as u16, load);
    }

    fn ld_ac(&mut self, load: bool)
        requires
            old(self).wf(),
        ensures
            (*old(self)).moved_to(*final(self), execute_spec(old(self).state(), Instruction::LD_AC(load))),
    {
        let c = self.registers.get_c();
        self.transfer_a(0xFF00 + c as u16, load);
    }

    fn ld_reg_imm_16(&mut self, target1: ArithmeticTarget, target2: ArithmeticTarget, value: u16)
        requires
            old(self).wf(),
            is_wide_pair(target1, target2),
        ensures
            (*old(self)).moved_to(*final(self), execute_spec(old(self).state(), Instruction::LD_REG_IMM_16(target1, target2, value))),
    {
        self.write_pair(target1, target2, value);
    }

    fn store_sp(&mut self, address: u16)
        requires
            old(self).wf(),
        ensures
            (*old(self)).moved_to(*final(self), store_sp_spec(old(self).state(), address)),
    {
        let sp = self.registers.get_sp();
        self.ram.write(address, (sp % 256) as u8);
        self.ram.write(address.wrapping_add(1), (sp / 256) as u8);
    }

    /// SP plus a signed displacement, and the flags that addition sets.
    fn sp_offset(&mut self, value: i8) -> (r: u16)
        requires
            old(self).wf(),
        ensures
            r == wrap16(old(self).registers@.sp + value),
            (*old(self)).moved_to(*final(self), old(self).state().with_regs(sp_offset_flags(old(self).registers@, old(self).registers@.sp, value))),
    {
        let sp = self.registers.get_sp();
        let unsigned: u8 = if value >= 0 { value as u8 } else { (value as i16 + 256) as u8 };
        let result: u16 = if value >= 0 { sp.wrapping_add(value as u16) } else { sp.wrapping_sub((-(value as i16)) as u16) };
        let half_carry = sp % 16 + (unsigned % 16) as u16 > 15;
        let carry = sp % 256 + unsigned as u16 > 255;
        self.set_flags(false, false, half_carry, carry);
        result
    }

    fn inc_sp(&mut self, value: i8)
        requires
            old(self).wf(),
        ensures
            (*old(self)).moved_to(*final(self), inc_sp_spec(old(self).state(), value)),
    {
        let result = self.sp_offset(value);
        self.registers.set_sp(result);
    }

    fn ld_sp_hl(&mut self)
        requires
            old(self).wf(),
        ensures
            (*old(self)).moved_to(*final(self), execute_spec(old(self).state(), Instruction::LD_SP_HL)),
    {
        let hl = self.registers.get_hl();
        self.registers.set_sp(hl);
    }

    fn ld_hl_sp(&mut self, value: i8)
        requires
            old(self).wf(),
        ensures
            (*old(self)).moved_to(*final(self), ld_hl_sp_spec(old(self).state(), value)),
    {
        let result = self.sp_offset(value);
        self.registers.set_hl(result);
    }

    /// Whether a transfer with these condition selectors is taken.
    fn condition(&self, carry: bool, zero: bool, negate: bool) -> (r: bool)
        ensures
            r == crate::semantics::condition(self.registers@.f, carry, zero, negate),
    {
        let flags = self.get_flags();
        if !carry && !zero {
            true
        } else {
            (carry && (flags.carry != negate)) || (zero && (flags.zero != negate))
        }
    }

    fn push_value(&mut self, value: u16)
        requires
            old(self).wf(),
        ensures
            (*old(self)).moved_to(*final(self), push_spec(old(self).state(), value)),
    {
        let sp = self.registers.get_sp();
        let sp1 = sp.wrapping_sub(1);
        self.ram.write(sp1, (value / 256) as u8);
        let sp2 = sp.wrapping_sub(2);
        self.ram.write(sp2, (value % 256) as u8);
        self.registers.set_sp(sp2);
    }

    /// Reads the 16-bit value at SP (low byte first) and drops it from the stack.
    fn pop_value(&mut self) -> (r: u16)
        requires
            old(self).wf(),
        ensures
            r == popped(old(self).state()),
            (*old(self)).moved_to(*final(self), old(self).state().with_regs(RegisterState { sp: wrap16(old(self).registers@.sp + 2), ..old(self).registers@ })),
    {
        let sp = self.registers.get_sp();
        let lower = self.ram.read(sp);
        let upper = self.ram.read(sp.wrapping_add(1));
        self.registers.set_sp(sp.wrapping_add(2));
        (upper as u16) * 256 + lower as u16
    }

    fn ret(&mut self, carry: bool, zero: bool, negate: bool)
        requires
            old(self).wf(),
        ensures
            (*old(self)).moved_to(*final(self), ret_spec(old(self).state(), carry, zero, negate)),
    {
        if self.condition(carry, zero, negate) {
            let target = self.pop_value();
            self.registers.set_pc(target);
        }
    }

    fn reti(&mut self)
        requires
            old(self).wf(),
        ensures
            (*old(self)).moved_to(*final(self), reti_spec(old(self).state())),
    {
        let target = self.pop_value();
        self.registers.set_pc(target);
        let saved = self.previous_ime;
        self.previous_ime = self.interrupt_master_enable;
        self.interrupt_master_enable = saved;
    }

    fn rst(&mut self, vector: u8)
        requires
            old(self).wf(),
        ensures
            (*old(self)).moved_to(*final(self), rst_spec(old(self).state(), vector)),
    {
        let pc = self.registers.get_pc();
        self.push_value(pc.wrapping_add(1));
        self.registers.set_pc(vector as u16);
    }

    fn call(&mut self, address: u16, carry: bool, zero: bool, negative: bool)
        requires
            old(self).wf(),
        ensures
            (*old(self)).moved_to(*final(self), call_spec(old(self).state(), address, carry, zero, negative)),
    {
        if self.condition(carry, zero, negative) {
            let pc = self.registers.get_pc();
            self.push_value(pc.wrapping_add(3));
            self.registers.set_pc(address);
        }
    }

    fn jr(&mut self, carry: bool, zero: bool, negative: bool, jump_value: i8)
        requires
            old(self).wf(),
        ensures
            (*old(self)).moved_to(*final(self), jr_spec(old(self).state(), carry, zero, negative, jump_value)),
    {
        if self.condition(carry, zero, negative) {
            let pc = self.registers.get_pc();
            let result = if jump_value >= 0 {
                pc.wrapping_add(jump_value as u16)
            } else {
                pc.wrapping_sub((-(jump_value as i16)) as u16)
            };
            self.registers.set_pc(result);
        }
    }

    fn jp(&mut self, carry: bool, zero: bool, negative: bool, jump_value: u16)
        requires
            old(self).wf(),
        ensures
            (*old(self)).moved_to(*final(self), jp_spec(old(self).state(), carry, zero, negative, jump_value)),
    {
        if self.condition(carry, zero, negative) {
            self.registers.set_pc(jump_value);
        }
    }

    fn jp_hl(&mut self)
        requires
            old(self).wf(),
        ensures
            (*old(self)).moved_to(*final(self), with_pc(old(self).state(), old(self).registers@.hl())),
    {
        let hl = self.registers.get_hl();
        self.registers.set_pc(hl);
    }

    fn pop(&mut self, target: ArithmeticTarget, target2: ArithmeticTarget)
        requires
            old(self).wf(),
            is_stack_pair(target, target2),
        ensures
            (*old(self)).moved_to(*final(self), pop_pair_spec(old(self).state(), target, target2)),
    {
        let value = self.pop_value();
        self.write_pair(target, target2, value);
    }

    fn push(&mut self, target: ArithmeticTarget, target2: ArithmeticTarget)
        requires
            old(self).wf(),
            is_stack_pair(target, target2),
        ensures
            (*old(self)).moved_to(*final(self), push_spec(old(self).state(), pair16(old(self).registers@, target, target2))),
    {
        let value = self.read_pair(target, target2);
        self.push_value(value);
    }

    #[verifier::rlimit(30)]
    fn add_hl(&mut self, target1: ArithmeticTarget, target2: ArithmeticTarget)
        requires
            old(self).wf(),
            is_wide_pair(target1, target2),
        ensures
            (*old(self)).moved_to(*final(self), add_hl_spec(old(self).state(), target1, target2)),
    {
        let value = self.registers.get_hl();
        let add_value = self.read_pair(target1, target2);
        let result = value.wrapping_add(add_value);
        assert(result == wrap16(value + add_value));
        let half_carry = value % 4096 + add_value % 4096 > 4095;
        let carry = value as u32 + add_value as u32 > 65535;
        let ghost s0 = old(self).state();
        self.registers.set_hl(result);
        assert(self.registers@ == with_pair16(s0.regs, ArithmeticTarget::H, ArithmeticTarget::L, result));
        self.set_flags(result == 0, false, half_carry, carry);
    }

    fn inc(&mut self, target: ArithmeticTarget)
        requires
            old(self).wf(),
            is_r8(target) || target is SP,
        ensures
            (*old(self)).moved_to(*final(self), inc_spec(old(self).state(), target)),
    {
        match target {
            ArithmeticTarget::SP => {
                let sp = self.registers.get_sp();
                self.registers.set_sp(sp.wrapping_add(1));
            },
            _ => {
                let value = self.read_reg8(target);
                let carry = self.carry_flag();
                let result = value.wrapping_add(1);
                self.write_reg8(target, result);
                self.set_flags(result == 0, false, value % 16 == 15, carry);
            },
        }
    }

    fn dec(&mut self, target: ArithmeticTarget)
        requires
            old(self).wf(),
            is_r8(target) || target is SP,
        ensures
            (*old(self)).moved_to(*final(self), dec_spec(old(self).state(), target)),
    {
        match target {
            ArithmeticTarget::SP => {
                let sp = self.registers.get_sp();
                self.registers.set_sp(sp.wrapping_sub(1));
            },
            _ => {
                let value = self.read_reg8(target);
                let carry = self.carry_flag();
                let result = value.wrapping_sub(1);
                self.write_reg8(target, result);
                self.set_flags(result == 0, true, value % 16 == 0, carry);
            },
        }
    }

    fn inc_16(&mut self, target1: ArithmeticTarget, target2: ArithmeticTarget)
        requires
            old(self).wf(),
            is_wide_pair(target1, target2),
        ensures
            (*old(self)).moved_to(*final(self), inc16_spec(old(self).state(), target1, target2)),
    {
        let value = self.read_pair(target1, target2);
        self.write_pair(target1, target2, value.wrapping_add(1));
    }

    fn dec_16(&mut self, target1: ArithmeticTarget, target2: ArithmeticTarget)
        requires
            old(self).wf(),
            is_wide_pair(target1, target2),
        ensures
            (*old(self)).moved_to(*final(self), dec16_spec(old(self).state(), target1, target2)),
    {
        let value = self.read_pair(target1, target2);
        self.write_pair(target1, target2, value.wrapping_sub(1));
    }

    /// Does nothing: the program counter moves on in `step`.
    fn nop(&mut self)
        ensures
            *final(self) == *old(self),
    {
    }

    fn add(&mut self, value: u8, carry_in: bool)
        requires
            old(self).wf(),
        ensures
            (*old(self)).moved_to(*final(self), add_spec(old(self).state(), value, carry_in)),
    {
        let a = self.registers.get_a();
        let cin: u16 = if carry_in { 1 } else { 0 };
        let sum: u16 = a as u16 + value as u16 + cin;
        let result = (sum % 256) as u8;
        let half_carry = (a % 16) as u16 + (value % 16) as u16 + cin > 15;
        self.registers.set_a(result);
        self.set_flags(result == 0, false, half_carry, sum > 255);
    }

    /// A minus value and the borrow; `keep` stores the difference in A.
    fn sub(&mut self, value: u8, carry_in: bool, keep: bool)
        requires
            old(self).wf(),
        ensures
            (*old(self)).moved_to(*final(self), sub_spec(old(self).state(), value, carry_in, keep)),
    {
        let a = self.registers.get_a();
        let cin: u16 = if carry_in { 1 } else { 0 };
        let subtrahend: u16 = value as u16 + cin;
        let result = ((a as u16 + 256 - subtrahend) % 256) as u8;
        let half_carry = ((a % 16) as u16) < (value % 16) as u16 + cin;
        let carry = (a as u16) < subtrahend;
        if keep {
            self.registers.set_a(result);
        }
        self.set_flags(result == 0, true, half_carry, carry);
    }

    fn and(&mut self, value: u8)
        requires
            old(self).wf(),
        ensures
            (*old(self)).moved_to(*final(self), and_spec(old(self).state(), value)),
    {
        let result = self.registers.get_a() & value;
        self.registers.set_a(result);
        self.set_flags(result == 0, false, true, false);
    }

    fn or(&mut self, value: u8)
        requires
            old(self).wf(),
        ensures
            (*old(self)).moved_to(*final(self), or_spec(old(self).state(), value)),
    {
        let result = self.registers.get_a() | value;
        self.registers.set_a(result);
        self.set_flags(result == 0, false, false, false);
    }

    fn xor(&mut self, value: u8)
        requires
            old(self).wf(),
        ensures
            (*old(self)).moved_to(*final(self), xor_spec(old(self).state(), value)),
    {
        let result = self.registers.get_a() ^ value;
        self.registers.set_a(result);
        self.set_flags(result == 0, false, false, false);
    }

    fn cp(&mut self, value: u8)
        requires
            old(self).wf(),
        ensures
            (*old(self)).moved_to(*final(self), sub_spec(old(self).state(), value, false, false)),
    {
        self.sub(value, false, false);
    }

    fn rl(&mut self, circular: bool)
        requires
            old(self).wf(),
        ensures
            (*old(self)).moved_to(*final(self), rl_spec(old(self).state(), circular)),
    {
        let value = self.registers.get_a();
        let overflow = value >= 128;
        let fed: u8 = if circular {
            if overflow { 1 } else { 0 }
        } else {
            if self.carry_flag() { 1 } else { 0 }
        };
        let result = ((value as u16 * 2 + fed as u16) % 256) as u8;
        self.registers.set_a(result);
        self.set_flags(false, false, false, overflow);
    }

    fn rr(&mut self, circular: bool)
        requires
            old(self).wf(),
        ensures
            (*old(self)).moved_to(*final(self), rr_spec(old(self).state(), circular)),
    {
        let value = self.registers.get_a();
        let overflow = value % 2 == 1;
        let fed: u8 = if circular {
            if overflow { 1 } else { 0 }
        } else {
            if self.carry_flag() { 1 } else { 0 }
        };
        let result = value / 2 + 128 * fed;
        self.registers.set_a(result);
        self.set_flags(false, false, false, overflow);
    }

    #[verifier::rlimit(30)]
    fn daa(&mut self)
        requires
            old(self).wf(),
        ensures
            (*old(self)).moved_to(*final(self), daa_spec(old(self).state())),
    {
        let a = self.registers.get_a();
        let flags = self.get_flags();
        let mut adjust: u8 = 0;
        let mut carry = false;
        if a % 16 > 9 || flags.half_carry {
            adjust = adjust + 0x06;
        }
        if a / 16 > 9 || flags.carry {
            adjust = adjust + 0x60;
            carry = true;
        }
        assert(adjust == daa_adjust(a, old(self).registers@.f));
        let result = if flags.subtract { a.wrapping_sub(adjust) } else { a.wrapping_add(adjust) };
        assert(result == if flags.subtract { wrap8(a - adjust) } else { wrap8(a + adjust) });
        let half_carry = result % 16 < adjust % 16;
        self.registers.set_a(result);
        self.set_flags(result == 0, flags.subtract, half_carry, carry);
    }

    fn scf(&mut self)
        requires
            old(self).wf(),
        ensures
            (*old(self)).moved_to(*final(self), scf_spec(old(self).state())),
    {
        let flags = self.get_flags();
        self.set_flags(flags.zero, false, false, true);
    }

    fn ccf(&mut self)
        requires
            old(self).wf(),
        ensures
            (*old(self)).moved_to(*final(self), ccf_spec(old(self).state())),
    {
        let flags = self.get_flags();
        self.set_flags(flags.zero, false, false, !flags.carry);
    }

    fn cpl(&mut self)
        requires
            old(self).wf(),
        ensures
            (*old(self)).moved_to(*final(self), cpl_spec(old(self).state())),
    {
        let a = self.registers.get_a();
        let flags = self.get_flags();
        self.registers.set_a(255 - a);
        self.set_flags(flags.zero, true, true, flags.carry);
    }

    /// Arithmetic, logic, rotates and flag operations on A.
    #[verifier::rlimit(40)]
    fn execute_alu(&mut self, instruction: Instruction)
        requires
            old(self).wf(),
            instruction.valid(),
            instruction.is_alu(),
        ensures
            (*old(self)).moved_to(*final(self), execute_spec(old(self).state(), instruction)),
    {
        match instruction {
            Instruction::ADD(target) => {
                let v = self.read_reg8(target);
                self.add(v, false);
            },
            Instruction::ADC(target) => {
                let v = self.read_reg8(target);
                let c = self.carry_flag();
                self.add(v, c);
            },
            Instruction::SUB(target) => {
                let v = self.read_reg8(target);
                self.sub(v, false, true);
            },
            Instruction::SBC(target) => {
                let v = self.read_reg8(target);
                let c = self.carry_flag();
                self.sub(v, c, true);
            },
            Instruction::AND(target) => {
                let v = self.read_reg8(target);
                self.and(v);
            },
            Instruction::OR(target) => {
                let v = self.read_reg8(target);
                self.or(v);
            },
            Instruction::XOR(target) => {
                let v = self.read_reg8(target);
                self.xor(v);
            },
            Instruction::CP(target) => {
                let v = self.read_reg8(target);
                self.cp(v);
            },
            Instruction::RL(circular) => self.rl(circular),
            Instruction::RR(circular) => self.rr(circular),
            Instruction::DAA => self.daa(),
            Instruction::ADD_IMM(v) => self.add(v, false),
            Instruction::ADC_IMM(v) => {
                let c = self.carry_flag();
                self.add(v, c);
            },
            Instruction::SUB_IMM(v) => self.sub(v, false, true),
            Instruction::SBC_IMM(v) => {
                let c = self.carry_flag();
                self.sub(v, c, true);
            },
            Instruction::AND_IMM(v) => self.and(v),
            Instruction::OR_IMM(v) => self.or(v),
            Instruction::XOR_IMM(v) => self.xor(v),
            Instruction::CP_IMM(v) => self.cp(v),
            Instruction::ADD_MEM => {
                let v = self.hl_byte();
                self.add(v, false);
            },
            Instruction::ADC_MEM => {
                let v = self.hl_byte();
                let c = self.carry_flag();
                self.add(v, c);
            },
            Instruction::SUB_MEM => {
                let v = self.hl_byte();
                self.sub(v, false, true);
            },
            Instruction::SBC_MEM => {
                let v = self.hl_byte();
                let c = self.carry_flag();
                self.sub(v, c, true);
            },
            Instruction::AND_MEM => {
                let v = self.hl_byte();
                self.and(v);
            },
            Instruction::OR_MEM => {
                let v = self.hl_byte();
                self.or(v);
            },
            Instruction::XOR_MEM => {
                let v = self.hl_byte();
                self.xor(v);
            },
            Instruction::CP_MEM => {
                let v = self.hl_byte();
                self.cp(v);
            },
            Instruction::SCF => self.scf(),
            Instruction::CCF => self.ccf(),
            Instruction::CPL => self.cpl(),
            _ => {},
        }
    }

    /// Increments, decrements and 16-bit arithmetic.
    #[verifier::rlimit(40)]
    fn execute_counter(&mut self, instruction: Instruction)
        requires
            old(self).wf(),
            instruction.valid(),
            instruction.is_counter(),
        ensures
            (*old(self)).moved_to(*final(self), execute_spec(old(self).state(), instruction)),
    {
        match instruction {
            Instruction::ADD_HL(t1, t2) => self.add_hl(t1, t2),
            Instruction::INC(target) => self.inc(target),
            Instruction::DEC(target) => self.dec(target),
            Instruction::INC_16(t1, t2) => self.inc_16(t1, t2),
            Instruction::DEC_16(t1, t2) => self.dec_16(t1, t2),
            Instruction::MOD_MEM(increment) => self.mod_mem(increment),
            Instruction::INC_SP(e) => self.inc_sp(e),
            Instruction::LD_SP_HL => self.ld_sp_hl(),
            Instruction::LD_HL_SP(e) => self.ld_hl_sp(e),
            _ => {},
        }
    }

    /// Stack operations, jumps, calls, returns and interrupt-enable changes.
    #[verifier::rlimit(40)]
    fn execute_control(&mut self, instruction: Instruction)
        requires
            old(self).wf(),
            instruction.valid(),
            instruction.is_control(),
        ensures
            (*old(self)).moved_to(*final(self), execute_spec(old(self).state(), instruction)),
    {
        match instruction {
            Instruction::NOP => self.nop(),
            Instruction::EI => self.ei(),
            Instruction::DI => self.di(),
            Instruction::PUSH(t1, t2) => self.push(t1, t2),
            Instruction::POP(t1, t2) => self.pop(t1, t2),
            Instruction::RET(carry, zero, negate) => self.ret(carry, zero, negate),
            Instruction::RETI => self.reti(),
            Instruction::RST(vector) => self.rst(vector),
            Instruction::CALL(address, carry, zero, negate) => self.call(address, carry, zero, negate),
            Instruction::JR(carry, zero, negate, offset) => self.jr(carry, zero, negate, offset),
            Instruction::JP(carry, zero, negate, address) => self.jp(carry, zero, negate, address),
            Instruction::JP_HL => self.jp_hl(),
            _ => {},
        }
    }

    /// Loads and stores.
    #[verifier::rlimit(40)]
    fn execute_load(&mut self, instruction: Instruction)
        requires
            old(self).wf(),
            instruction.valid(),
            !instruction.is_alu() && !instruction.is_counter() && !instruction.is_control(),
        ensures
            (*old(self)).moved_to(*final(self), execute_spec(old(self).state(), instruction)),
    {
        match instruction {
            Instruction::LD_RR(destination, source) => self.ld_rr(destination, source),
            Instruction::LD_MEM_REG(source) => {
                let v = self.read_reg8(source);
                self.ld_mem_imm(v);
            },
            Instruction::LD_REG_MEM(target) => self.ld_reg_mem(target),
            Instruction::LD_MEM_IMM(v) => self.ld_mem_imm(v),
            Instruction::LD_REG_IMM(target, v) => self.ld_reg_imm(target, v),
            Instruction::LD_MEM_INC(increment, load) => self.ld_mem_inc(increment, load),
            Instruction::LD_BCDE(t1, t2, load) => self.ld_bcde(t1, t2, load),
            Instruction::LD_IMM_16(address, load) => self.ld_imm_16(address, load),
            Instruction::LD_IMM_8(offset, load) => self.ld_imm_8(offset, load),
            Instruction::LD_AC(load) => self.ld_ac(load),
            Instruction::LD_REG_IMM_16(t1, t2, v) => self.ld_reg_imm_16(t1, t2, v),
            Instruction::STORE_SP(address) => self.store_sp(address),
            _ => {},
        }
    }

    /// Executes one decoded instruction. The program counter changes only
    /// through control transfers.
    pub fn execute(&mut self, instruction: Instruction)
        requires
            old(self).wf(),
            instruction.valid(),
        ensures
            (*old(self)).moved_to(*final(self), execute_spec(old(self).state(), instruction)),
    {
        match instruction {
            Instruction::ADD(_)
            | Instruction::ADC(_)
            | Instruction::SUB(_)
            | Instruction::SBC(_)
            | Instruction::AND(_)
            | Instruction::OR(_)
            | Instruction::XOR(_)
            | Instruction::CP(_)
            | Instruction::ADD_IMM(_)
            | Instruction::ADC_IMM(_)
            | Instruction::SUB_IMM(_)
            | Instruction::SBC_IMM(_)
            | Instruction::AND_IMM(_)
            | Instruction::OR_IMM(_)
            | Instruction::XOR_IMM(_)
            | Instruction::CP_IMM(_)
            | Instruction::ADD_MEM
            | Instruction::ADC_MEM
            | Instruction::SUB_MEM
            | Instruction::SBC_MEM
            | Instruction::AND_MEM
            | Instruction::OR_MEM
            | Instruction::XOR_MEM
            | Instruction::CP_MEM
            | Instruction::RL(_)
            | Instruction::RR(_)
            | Instruction::DAA
            | Instruction::SCF
            | Instruction::CCF
            | Instruction::CPL => self.execute_alu(instruction),
            Instruction::ADD_HL(..)
            | Instruction::INC(_)
            | Instruction::DEC(_)
            | Instruction::INC_16(..)
            | Instruction::DEC_16(..)
            | Instruction::MOD_MEM(_)
            | Instruction::INC_SP(_)
            | Instruction::LD_HL_SP(_)
            | Instruction::LD_SP_HL => self.execute_counter(instruction),
            Instruction::NOP
            | Instruction::EI
            | Instruction::DI
            | Instruction::PUSH(..)
            | Instruction::POP(..)
            | Instruction::RET(..)
            | Instruction::RETI
            | Instruction::RST(_)
            | Instruction::CALL(..)
            | Instruction::JR(..)
            | Instruction::JP(..)
            | Instruction::JP_HL => self.execute_control(instruction),
            _ => self.execute_load(instruction),
        }
    }

    /// Decodes `opcode` with the two bytes after the program counter as its
    /// immediates.
    fn decode_instruction(&self, opcode: u8) -> (r: Option<Instruction>)
        requires
            self.wf(),
            opcode == self.state().byte(self.registers@.pc),
        ensures
            r == decode_at(self.state()),
            r matches Some(i) ==> i.valid(),
    {
        let pc = self.registers.get_pc();
        let immediate1 = self.ram.read(pc.wrapping_add(1));
        let immediate2 = self.ram.read(pc.wrapping_add(2));
        decode(opcode, immediate1, immediate2)
    }

    /// Whether executing `instruction` now would transfer control.
    fn transfer_taken(&self, instruction: Instruction) -> (r: bool)
        ensures
            r == transferred(self.state(), instruction),
    {
        match instruction {
            Instruction::JP(c, z, n, _) => self.condition(c, z, n),
            Instruction::JR(c, z, n, _) => self.condition(c, z, n),
            Instruction::CALL(_, c, z, n) => self.condition(c, z, n),
            Instruction::RET(c, z, n) => self.condition(c, z, n),
            Instruction::RETI | Instruction::RST(_) | Instruction::JP_HL => true,
            _ => false,
        }
    }

    /// Fetches, decodes and executes the instruction at the program counter,
    /// then advances the program counter by the instruction's size unless the
    /// instruction transferred control. Returns the base cycle count, also added to
    /// `clock_cycles`. An unimplemented opcode changes nothing and is reported
    /// with its address.
    #[verifier::rlimit(80)]
    pub fn step(&mut self) -> (r: Result<u8, CpuError>)
        requires
            old(self).wf(),
            old(self).clock_cycles <= u64::MAX - 20,
        ensures
            final(self).wf(),
            final(self).halted == old(self).halted,
            final(self).stopped == old(self).stopped,
            final(self).flags == old(self).flags,
            match step_spec(old(self).state()) {
                Some((next, cycles)) => {
                    &&& r == Ok::<u8, CpuError>(cycles)
                    &&& final(self).state() == next
                    &&& final(self).clock_cycles == old(self).clock_cycles + cycles
                },
                None => {
                    &&& r == Err::<u8, CpuError>(CpuError::UnimplementedOpcode {
                        opcode: old(self).state().byte(old(self).registers@.pc),
                        address: old(self).registers@.pc,
                    })
                    &&& final(self).state() == old(self).state()
                    &&& final(self).clock_cycles == old(self).clock_cycles
                },
            },
    {
        let pc = self.registers.get_pc();
        let opcode = self.ram.read(pc);
        let (size, cycles) = get_instruction_info(opcode);
        match self.decode_instruction(opcode) {
            None => Err(CpuError::UnimplementedOpcode { opcode, address: pc }),
            Some(instruction) => {
                let taken = self.transfer_taken(instruction);
                self.execute(instruction);
                if !taken {
                    self.registers.set_pc(pc.wrapping_add(size as u16));
                }
                self.clock_cycles = self.clock_cycles + cycles as u64;
                Ok(cycles)
            },
        }
    }

    /// The pending source with the highest priority.
    fn get_interrupt_vector(&self, pending: u8) -> (r: Interrupt)
        ensures
            r == highest_priority(pending),
    {
        if pending % 2 == 1 {
            Interrupt::VBLANK
        } else if (pending / 2) % 2 == 1 {
            Interrupt::LCD_STAT
        } else if (pending / 4) % 2 == 1 {
            Interrupt::TIMER
        } else if (pending / 8) % 2 == 1 {
            Interrupt::SERIAL
        } else {
            Interrupt::JOYPAD
        }
    }

    /// The source's request bit and handler address.
    fn get_interrupt_handler(&self, interrupt: &Interrupt) -> (r: (u8, u16))
        ensures
            r == (interrupt.bit_mask(), interrupt.handler()),
    {
        match interrupt {
            Interrupt::VBLANK => (0x01, 0x40),
            Interrupt::LCD_STAT => (0x02, 0x48),
            Interrupt::TIMER => (0x04, 0x50),
            Interrupt::SERIAL => (0x08, 0x58),
            Interrupt::JOYPAD => (0x10, 0x60),
        }
    }

    /// Dispatches the highest-priority interrupt among the five sources that
    /// is both requested and enabled, when interrupts are enabled at all;
    /// otherwise does nothing.
    pub fn handle_interrupts(&mut self)
        requires
            old(self).wf(),
        ensures
            (*old(self)).moved_to(*final(self), interrupt_spec(old(self).state())),
            !old(self).interrupt_master_enable || pending_interrupts(old(self).state()) == 0 ==> final(self).state()
                == old(self).state(),
    {
        if self.interrupt_master_enable {
            let requested = self.ram.read(INTERRUPT_FLAGS_ADDRESS);
            let enabled = self.ram.read(INTERRUPT_ENABLE_ADDRESS);
            let pending = requested & enabled & 0x1F;
            if pending != 0 {
                self.previous_ime = self.interrupt_master_enable;
                self.interrupt_master_enable = false;
                let pc = self.registers.get_pc();
                self.push_value(pc);
                let source = self.get_interrupt_vector(pending);
                let (mask, handler) = self.get_interrupt_handler(&source);
                self.ram.write(INTERRUPT_FLAGS_ADDRESS, requested & !mask);
                self.registers.set_pc(handler);
            }
        }
    }
}

} // verus!
