use vstd::prelude::*;

verus! {

/// The flag bits of the F register.
#[derive(Debug, Clone, Copy)]
pub enum FlagMasks {
    ZERO,
    SUBTRACT,
    HALF_CARRY,
    CARRY,
}

impl FlagMasks {
    /// The bit this flag occupies in the F register.
    pub fn mask(self) -> (r: u8)
        ensures
            r == match self {
                FlagMasks::ZERO => 0x80u8,
                FlagMasks::SUBTRACT => 0x40u8,
                FlagMasks::HALF_CARRY => 0x20u8,
                FlagMasks::CARRY => 0x10u8,
            },
    {
        match self {
            FlagMasks::ZERO => 0x80,
            FlagMasks::SUBTRACT => 0x40,
            FlagMasks::HALF_CARRY => 0x20,
            FlagMasks::CARRY => 0x10,
        }
    }
}

pub open spec fn flag_z(f: u8) -> bool {
    (f as int / 128) % 2 == 1
}

pub open spec fn flag_n(f: u8) -> bool {
    (f as int / 64) % 2 == 1
}

pub open spec fn flag_h(f: u8) -> bool {
    (f as int / 32) % 2 == 1
}

pub open spec fn flag_c(f: u8) -> bool {
    (f as int / 16) % 2 == 1
}

pub open spec fn b2i(b: bool) -> int {
    if b { 1 } else { 0 }
}

/// The F byte that encodes four flags: zero in bit 7, subtract in bit 6,
/// half-carry in bit 5, carry in bit 4, and a zero low nibble.
pub open spec fn flags_byte(zero: bool, subtract: bool, half_carry: bool, carry: bool) -> u8 {
    (128 * b2i(zero) + 64 * b2i(subtract) + 32 * b2i(half_carry) + 16 * b2i(carry)) as u8
}

/// A byte with its low nibble cleared: what the F register keeps of a written value.
pub open spec fn canonical_f(v: u8) -> u8 {
    flags_byte(flag_z(v), flag_n(v), flag_h(v), flag_c(v))
}

pub proof fn lemma_flags_byte_bits(z: bool, n: bool, h: bool, c: bool)
    ensures
        flag_z(flags_byte(z, n, h, c)) == z,
        flag_n(flags_byte(z, n, h, c)) == n,
        flag_h(flags_byte(z, n, h, c)) == h,
        flag_c(flags_byte(z, n, h, c)) == c,
        flags_byte(z, n, h, c) % 16 == 0,
{
}

pub proof fn lemma_canonical_f(v: u8)
    ensures
        canonical_f(v) == v - v % 16,
        v % 16 == 0 ==> canonical_f(v) == v,
{
}

/// The four CPU flags as separate booleans.
pub struct Flags {
    pub zero: bool,
    pub subtract: bool,
    pub half_carry: bool,
    pub carry: bool,
}

impl Flags {
    pub fn new() -> (r: Flags)
        ensures
            !r.zero && !r.subtract && !r.half_carry && !r.carry,
    {
        Flags { zero: false, subtract: false, half_carry: false, carry: false }
    }

    /// Packs the flags into the F register's layout.
    pub fn to_u8(&self) -> (r: u8)
        ensures
            r == flags_byte(self.zero, self.subtract, self.half_carry, self.carry),
    {
        let z: u8 = if self.zero { 128 } else { 0 };
        let n: u8 = if self.subtract { 64 } else { 0 };
        let h: u8 = if self.half_carry { 32 } else { 0 };
        let c: u8 = if self.carry { 16 } else { 0 };
        z + n + h + c
    }

    /// Reads the four flag bits of a byte; the low nibble is ignored.
    pub fn from_u8(value: u8) -> (r: Flags)
        ensures
            r.zero == flag_z(value),
            r.subtract == flag_n(value),
            r.half_carry == flag_h(value),
            r.carry == flag_c(value),
    {
        Flags {
            zero: (value / 128) % 2 == 1,
            subtract: (value / 64) % 2 == 1,
            half_carry: (value / 32) % 2 == 1,
            carry: (value / 16) % 2 == 1,
        }
    }
}

/// The values held by the register file.
#[derive(Debug, Clone, Copy, PartialEq, Eq, Structural)]
pub struct RegisterState {
    pub a: u8,
    pub b: u8,
    pub c: u8,
    pub d: u8,
    pub e: u8,
    pub f: u8,
    pub h: u8,
    pub l: u8,
    pub sp: u16,
    pub pc: u16,
}

pub open spec fn pair(hi: u8, lo: u8) -> u16 {
    (hi as int * 256 + lo as int) as u16
}

impl RegisterState {
    pub open spec fn af(self) -> u16 {
        pair(self.a, self.f)
    }

    pub open spec fn bc(self) -> u16 {
        pair(self.b, self.c)
    }

    pub open spec fn de(self) -> u16 {
        pair(self.d, self.e)
    }

    pub open spec fn hl(self) -> u16 {
        pair(self.h, self.l)
    }

    /// The F register never holds anything in its low nibble.
    pub open spec fn wf(self) -> bool {
        self.f % 16 == 0
    }
}

/// Eight 8-bit registers, the stack pointer and the program counter.
pub struct Registers {
    a: u8,
    b: u8,
    c: u8,
    d: u8,
    e: u8,
    f: u8,
    h: u8,
    l: u8,
    sp: u16,
    pc: u16,
}

impl View for Registers {
    type V = RegisterState;

    closed spec fn view(&self) -> RegisterState {
        RegisterState {
            a: self.a,
            b: self.b,
            c: self.c,
            d: self.d,
            e: self.e,
            f: self.f,
            h: self.h,
            l: self.l,
            sp: self.sp,
            pc: self.pc,
        }
    }
}

impl Registers {
    pub open spec fn wf(&self) -> bool {
        self@.wf()
    }

    pub fn new() -> (r: Self)
        ensures
            r@ == (RegisterState { a: 0, b: 0, c: 0, d: 0, e: 0, f: 0, h: 0, l: 0, sp: 0, pc: 0 }),
    {
        Registers { a: 0, b: 0, c: 0, d: 0, e: 0, f: 0, h: 0, l: 0, sp: 0, pc: 0 }
    }

    pub fn get_a(&self) -> (r: u8)
        ensures
            r == self@.a,
    {
        self.a
    }

    pub fn get_b(&self) -> (r: u8)
        ensures
            r == self@.b,
    {
        self.b
    }

    pub fn get_c(&self) -> (r: u8)
        ensures
            r == self@.c,
    {
        self.c
    }

    pub fn get_d(&self) -> (r: u8)
        ensures
            r == self@.d,
    {
        self.d
    }

    pub fn get_e(&self) -> (r: u8)
        ensures
            r == self@.e,
    {
        self.e
    }

    pub fn get_h(&self) -> (r: u8)
        ensures
            r == self@.h,
    {
        self.h
    }

    pub fn get_l(&self) -> (r: u8)
        ensures
            r == self@.l,
    {
        self.l
    }

    pub fn get_sp(&self) -> (r: u16)
        ensures
            r == self@.sp,
    {
        self.sp
    }

    pub fn get_pc(&self) -> (r: u16)
        ensures
            r == self@.pc,
    {
        self.pc
    }

    pub fn get_f(&self) -> (r: u8)
        ensures
            r == self@.f,
    {
        self.f
    }

    pub fn set_a(&mut self, val: u8)
        ensures
            final(self)@ == (RegisterState { a: val, ..old(self)@ }),
    {
        self.a = val;
    }

    pub fn set_b(&mut self, val: u8)
        ensures
            final(self)@ == (RegisterState { b: val, ..old(self)@ }),
    {
        self.b = val;
    }

    pub fn set_c(&mut self, val: u8)
        ensures
            final(self)@ == (RegisterState { c: val, ..old(self)@ }),
    {
        self.c = val;
    }

    pub fn set_d(&mut self, val: u8)
        ensures
            final(self)@ == (RegisterState { d: val, ..old(self)@ }),
    {
        self.d = val;
    }

    pub fn set_e(&mut self, val: u8)
        ensures
            final(self)@ == (RegisterState { e: val, ..old(self)@ }),
    {
        self.e = val;
    }

    pub fn set_h(&mut self, val: u8)
        ensures
            final(self)@ == (RegisterState { h: val, ..old(self)@ }),
    {
        self.h = val;
    }

    pub fn set_l(&mut self, val: u8)
        ensures
            final(self)@ == (RegisterState { l: val, ..old(self)@ }),
    {
        self.l = val;
    }

    pub fn set_sp(&mut self, val: u16)
        ensures
            final(self)@ == (RegisterState { sp: val, ..old(self)@ }),
    {
        self.sp = val;
    }

    pub fn set_pc(&mut self, val: u16)
        ensures
            final(self)@ == (RegisterState { pc: val, ..old(self)@ }),
    {
        self.pc = val;
    }

    /// Writes F; only the four flag bits are kept.
    pub fn set_f(&mut self, value: u8)
        ensures
            final(self)@ == (RegisterState { f: canonical_f(value), ..old(self)@ }),
    {
        let flags = Flags::from_u8(value);
        self.f = flags.to_u8();
    }

    pub fn get_af(&self) -> (r: u16)
        ensures
            r == self@.af(),
    {
        (self.a as u16) * 256 + (self.f as u16)
    }

    pub fn get_bc(&self) -> (r: u16)
        ensures
            r == self@.bc(),
    {
        (self.b as u16) * 256 + (self.c as u16)
    }

    pub fn get_de(&self) -> (r: u16)
        ensures
            r == self@.de(),
    {
        (self.d as u16) * 256 + (self.e as u16)
    }

    pub fn get_hl(&self) -> (r: u16)
        ensures
            r == self@.hl(),
    {
        (self.h as u16) * 256 + (self.l as u16)
    }

    /// Writes A and F from a 16-bit value, A taking the high byte; F keeps
    /// only its flag bits.
    pub fn set_af(&mut self, val: u16)
        ensures
            final(self)@ == (RegisterState {
                a: (val / 256) as u8,
                f: canonical_f((val % 256) as u8),
                ..old(self)@
            }),
    {
        self.a = (val / 256) as u8;
        self.set_f((val % 256) as u8);
    }

    pub fn set_bc(&mut self, val: u16)
        ensures
            final(self)@ == (RegisterState { b: (val / 256) as u8, c: (val % 256) as u8, ..old(self)@ }),
    {
        self.b = (val / 256) as u8;
        self.c = (val % 256) as u8;
    }

    pub fn set_de(&mut self, val: u16)
        ensures
            final(self)@ == (RegisterState { d: (val / 256) as u8, e: (val % 256) as u8, ..old(self)@ }),
    {
        self.d = (val / 256) as u8;
        self.e = (val % 256) as u8;
    }

    pub fn set_hl(&mut self, val: u16)
        ensures
            final(self)@ == (RegisterState { h: (val / 256) as u8, l: (val % 256) as u8, ..old(self)@ }),
    {
        self.h = (val / 256) as u8;
        self.l = (val % 256) as u8;
    }

    /// Returns the program counter, then advances it by one (wrapping).
    pub fn get_and_increment_pc(&mut self) -> (r: u16)
        ensures
            r == old(self)@.pc,
            final(self)@ == (RegisterState { pc: old(self)@.pc.wrapping_add(1), ..old(self)@ }),
    {
        let pc = self.pc;
        self.pc = self.pc.wrapping_add(1);
        pc
    }

    /// Advances the program counter by one (wrapping) and returns the new value.
    pub fn increment_pc(&mut self) -> (r: u16)
        ensures
            r == old(self)@.pc.wrapping_add(1),
            final(self)@ == (RegisterState { pc: r, ..old(self)@ }),
    {
        self.pc = self.pc.wrapping_add(1);
        self.pc
    }
}

} // verus!
