//! The CPU's register file: eight 8-bit registers that pair into four
//! 16-bit views, the flag bits held in register `f`, and the 16-bit
//! program counter and stack pointer.

use vstd::prelude::*;

verus! {

/// Bit of `f` holding the zero flag.
pub const FLAG_Z_BIT: u8 = 0x80;

/// Bit of `f` holding the subtract flag.
pub const FLAG_N_BIT: u8 = 0x40;

/// Bit of `f` holding the half-carry flag.
pub const FLAG_H_BIT: u8 = 0x20;

/// Bit of `f` holding the carry flag.
pub const FLAG_C_BIT: u8 = 0x10;

/// The zero flag of a flag-register value.
pub open spec fn flag_z(f: u8) -> bool {
    f & FLAG_Z_BIT != 0
}

/// The subtract flag of a flag-register value.
pub open spec fn flag_n(f: u8) -> bool {
    f & FLAG_N_BIT != 0
}

/// The half-carry flag of a flag-register value.
pub open spec fn flag_h(f: u8) -> bool {
    f & FLAG_H_BIT != 0
}

/// The carry flag of a flag-register value.
pub open spec fn flag_c(f: u8) -> bool {
    f & FLAG_C_BIT != 0
}

/// The 16-bit value a register pair holds: high byte first.
pub open spec fn pair(hi: u8, lo: u8) -> int {
    hi * 256 + lo
}

/// The CPU's registers. `a` is the accumulator, `f` the flag register;
/// `b`/`c`, `d`/`e` and `h`/`l` pair into 16-bit views, as do `a`/`f`.
pub struct Registers {
    pub a: u8,
    pub b: u8,
    pub c: u8,
    pub d: u8,
    pub e: u8,
    pub f: u8,
    pub h: u8,
    pub l: u8,
    pub pc: u16,
    pub sp: u16,
}

/// Everything but the flag register is the same in both states.
pub open spec fn only_f_changed(pre: Registers, post: Registers) -> bool {
    &&& post.a == pre.a
    &&& post.b == pre.b
    &&& post.c == pre.c
    &&& post.d == pre.d
    &&& post.e == pre.e
    &&& post.h == pre.h
    &&& post.l == pre.l
    &&& post.pc == pre.pc
    &&& post.sp == pre.sp
}

impl Registers {
    /// A power-on register file: every register cleared.
    pub fn new() -> (r: Registers)
        ensures
            r.a == 0 && r.b == 0 && r.c == 0 && r.d == 0 && r.e == 0,
            r.f == 0 && r.h == 0 && r.l == 0,
            r.pc == 0 && r.sp == 0,
    {
        Registers { a: 0, b: 0, c: 0, d: 0, e: 0, f: 0, h: 0, l: 0, pc: 0, sp: 0 }
    }

    pub fn get_flag_z(&self) -> (r: bool)
        ensures
            r == flag_z(self.f),
    {
        self.f & FLAG_Z_BIT != 0
    }

    pub fn get_flag_n(&self) -> (r: bool)
        ensures
            r == flag_n(self.f),
    {
        self.f & FLAG_N_BIT != 0
    }

    pub fn get_flag_h(&self) -> (r: bool)
        ensures
            r == flag_h(self.f),
    {
        self.f & FLAG_H_BIT != 0
    }

    pub fn get_flag_c(&self) -> (r: bool)
        ensures
            r == flag_c(self.f),
    {
        self.f & FLAG_C_BIT != 0
    }

    pub fn set_flag_z(&mut self, v: bool)
        ensures
            flag_z(final(self).f) == v,
            flag_n(final(self).f) == flag_n(old(self).f),
            flag_h(final(self).f) == flag_h(old(self).f),
            flag_c(final(self).f) == flag_c(old(self).f),
            final(self).f & 0x0F == old(self).f & 0x0F,
            only_f_changed(*old(self), *final(self)),
    {
        let f0: u8 = self.f;
        if v {
            self.f = f0 | FLAG_Z_BIT;
            proof {
                assert((f0 | 0x80u8) & 0x80u8 != 0 && ((f0 | 0x80u8) & 0x40u8) == (f0 & 0x40u8)
                    && ((f0 | 0x80u8) & 0x20u8) == (f0 & 0x20u8)
                    && ((f0 | 0x80u8) & 0x10u8) == (f0 & 0x10u8)
                    && ((f0 | 0x80u8) & 0x0Fu8) == (f0 & 0x0Fu8)) by (bit_vector);
            }
        } else {
            self.f = f0 & !FLAG_Z_BIT;
            proof {
                assert((f0 & !0x80u8) & 0x80u8 == 0 && ((f0 & !0x80u8) & 0x40u8) == (f0 & 0x40u8)
                    && ((f0 & !0x80u8) & 0x20u8) == (f0 & 0x20u8)
                    && ((f0 & !0x80u8) & 0x10u8) == (f0 & 0x10u8)
                    && ((f0 & !0x80u8) & 0x0Fu8) == (f0 & 0x0Fu8)) by (bit_vector);
            }
        }
    }

    pub fn set_flag_n(&mut self, v: bool)
        ensures
            flag_z(final(self).f) == flag_z(old(self).f),
            flag_n(final(self).f) == v,
            flag_h(final(self).f) == flag_h(old(self).f),
            flag_c(final(self).f) == flag_c(old(self).f),
            final(self).f & 0x0F == old(self).f & 0x0F,
            only_f_changed(*old(self), *final(self)),
    {
        let f0: u8 = self.f;
        if v {
            self.f = f0 | FLAG_N_BIT;
            proof {
                assert((f0 | 0x40u8) & 0x40u8 != 0 && ((f0 | 0x40u8) & 0x80u8) == (f0 & 0x80u8)
                    && ((f0 | 0x40u8) & 0x20u8) == (f0 & 0x20u8)
                    && ((f0 | 0x40u8) & 0x10u8) == (f0 & 0x10u8)
                    && ((f0 | 0x40u8) & 0x0Fu8) == (f0 & 0x0Fu8)) by (bit_vector);
            }
        } else {
            self.f = f0 & !FLAG_N_BIT;
            proof {
                assert((f0 & !0x40u8) & 0x40u8 == 0 && ((f0 & !0x40u8) & 0x80u8) == (f0 & 0x80u8)
                    && ((f0 & !0x40u8) & 0x20u8) == (f0 & 0x20u8)
                    && ((f0 & !0x40u8) & 0x10u8) == (f0 & 0x10u8)
                    && ((f0 & !0x40u8) & 0x0Fu8) == (f0 & 0x0Fu8)) by (bit_vector);
            }
        }
    }

    pub fn set_flag_h(&mut self, v: bool)
        ensures
            flag_z(final(self).f) == flag_z(old(self).f),
            flag_n(final(self).f) == flag_n(old(self).f),
            flag_h(final(self).f) == v,
            flag_c(final(self).f) == flag_c(old(self).f),
            final(self).f & 0x0F == old(self).f & 0x0F,
            only_f_changed(*old(self), *final(self)),
    {
        let f0: u8 = self.f;
        if v {
            self.f = f0 | FLAG_H_BIT;
            proof {
                assert((f0 | 0x20u8) & 0x20u8 != 0 && ((f0 | 0x20u8) & 0x80u8) == (f0 & 0x80u8)
                    && ((f0 | 0x20u8) & 0x40u8) == (f0 & 0x40u8)
                    && ((f0 | 0x20u8) & 0x10u8) == (f0 & 0x10u8)
                    && ((f0 | 0x20u8) & 0x0Fu8) == (f0 & 0x0Fu8)) by (bit_vector);
            }
        } else {
            self.f = f0 & !FLAG_H_BIT;
            proof {
                assert((f0 & !0x20u8) & 0x20u8 == 0 && ((f0 & !0x20u8) & 0x80u8) == (f0 & 0x80u8)
                    && ((f0 & !0x20u8) & 0x40u8) == (f0 & 0x40u8)
                    && ((f0 & !0x20u8) & 0x10u8) == (f0 & 0x10u8)
                    && ((f0 & !0x20u8) & 0x0Fu8) == (f0 & 0x0Fu8)) by (bit_vector);
            }
        }
    }

    pub fn set_flag_c(&mut self, v: bool)
        ensures
            flag_z(final(self).f) == flag_z(old(self).f),
            flag_n(final(self).f) == flag_n(old(self).f),
            flag_h(final(self).f) == flag_h(old(self).f),
            flag_c(final(self).f) == v,
            final(self).f & 0x0F == old(self).f & 0x0F,
            only_f_changed(*old(self), *final(self)),
    {
        let f0: u8 = self.f;
        if v {
            self.f = f0 | FLAG_C_BIT;
            proof {
                assert((f0 | 0x10u8) & 0x10u8 != 0 && ((f0 | 0x10u8) & 0x80u8) == (f0 & 0x80u8)
                    && ((f0 | 0x10u8) & 0x40u8) == (f0 & 0x40u8)
                    && ((f0 | 0x10u8) & 0x20u8) == (f0 & 0x20u8)
                    && ((f0 | 0x10u8) & 0x0Fu8) == (f0 & 0x0Fu8)) by (bit_vector);
            }
        } else {
            self.f = f0 & !FLAG_C_BIT;
            proof {
                assert((f0 & !0x10u8) & 0x10u8 == 0 && ((f0 & !0x10u8) & 0x80u8) == (f0 & 0x80u8)
                    && ((f0 & !0x10u8) & 0x40u8) == (f0 & 0x40u8)
                    && ((f0 & !0x10u8) & 0x20u8) == (f0 & 0x20u8)
                    && ((f0 & !0x10u8) & 0x0Fu8) == (f0 & 0x0Fu8)) by (bit_vector);
            }
        }
    }

    pub fn get_af(&self) -> (r: u16)
        ensures
            r == pair(self.a, self.f),
    {
        (self.a as u16) * 256 + (self.f as u16)
    }

    pub fn get_bc(&self) -> (r: u16)
        ensures
            r == pair(self.b, self.c),
    {
        (self.b as u16) * 256 + (self.c as u16)
    }

    pub fn get_de(&self) -> (r: u16)
        ensures
            r == pair(self.d, self.e),
    {
        (self.d as u16) * 256 + (self.e as u16)
    }

    pub fn get_hl(&self) -> (r: u16)
        ensures
            r == pair(self.h, self.l),
    {
        (self.h as u16) * 256 + (self.l as u16)
    }

    pub fn set_af(&mut self, v: u16)
        ensures
            final(self).a == v / 256,
            final(self).f == v % 256,
            pair(final(self).a, final(self).f) == v,
            final(self).b == old(self).b && final(self).c == old(self).c,
            final(self).d == old(self).d && final(self).e == old(self).e,
            final(self).h == old(self).h && final(self).l == old(self).l,
            final(self).pc == old(self).pc && final(self).sp == old(self).sp,
    {
        self.a = (v / 256) as u8;
        self.f = (v % 256) as u8;
    }

    pub fn set_bc(&mut self, v: u16)
        ensures
            final(self).b == v / 256,
            final(self).c == v % 256,
            pair(final(self).b, final(self).c) == v,
            final(self).a == old(self).a && final(self).f == old(self).f,
            final(self).d == old(self).d && final(self).e == old(self).e,
            final(self).h == old(self).h && final(self).l == old(self).l,
            final(self).pc == old(self).pc && final(self).sp == old(self).sp,
    {
        self.b = (v / 256) as u8;
        self.c = (v % 256) as u8;
    }

    pub fn set_de(&mut self, v: u16)
        ensures
            final(self).d == v / 256,
            final(self).e == v % 256,
            pair(final(self).d, final(self).e) == v,
            final(self).a == old(self).a && final(self).f == old(self).f,
            final(self).b == old(self).b && final(self).c == old(self).c,
            final(self).h == old(self).h && final(self).l == old(self).l,
            final(self).pc == old(self).pc && final(self).sp == old(self).sp,
    {
        self.d = (v / 256) as u8;
        self.e = (v % 256) as u8;
    }

    pub fn set_hl(&mut self, v: u16)
        ensures
            final(self).h == v / 256,
            final(self).l == v % 256,
            pair(final(self).h, final(self).l) == v,
            final(self).a == old(self).a && final(self).f == old(self).f,
            final(self).b == old(self).b && final(self).c == old(self).c,
            final(self).d == old(self).d && final(self).e == old(self).e,
            final(self).pc == old(self).pc && final(self).sp == old(self).sp,
    {
        self.h = (v / 256) as u8;
        self.l = (v % 256) as u8;
    }
}

} // verus!
