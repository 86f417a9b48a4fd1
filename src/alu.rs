//! The arithmetic and logic unit: each operation as a change of the register file.
use crate::registers::{
    carry_of, flag_bits, make_flags, wrap16, wrap8, zero_of, Flag, Registers,
};
use vstd::prelude::*;

verus! {

/// The signed value of an 8-bit two's complement offset.
pub open spec fn signed8(e: u8) -> int {
    if e < 128 {
        e as int
    } else {
        e as int - 256
    }
}

pub open spec fn rlc_of(v: u8) -> u8 {
    ((v * 2) % 256 + v / 128) as u8
}

pub open spec fn rl_of(v: u8, carry_in: bool) -> u8 {
    ((v * 2) % 256 + (if carry_in { 1int } else { 0 })) as u8
}

pub open spec fn rrc_of(v: u8) -> u8 {
    (v / 2 + (v % 2) * 128) as u8
}

pub open spec fn rr_of(v: u8, carry_in: bool) -> u8 {
    (v / 2 + (if carry_in { 128int } else { 0 })) as u8
}

pub open spec fn sla_of(v: u8) -> u8 {
    ((v * 2) % 256) as u8
}

pub open spec fn sra_of(v: u8) -> u8 {
    (v / 2 + (v / 128) * 128) as u8
}

pub open spec fn srl_of(v: u8) -> u8 {
    (v / 2) as u8
}

/// The two nibbles of `v` exchanged.
pub open spec fn swap_of(v: u8) -> u8 {
    ((v % 16) * 16 + v / 16) as u8
}

pub open spec fn set_bit_of(v: u8, n: u8) -> u8 {
    v | (1u8 << n)
}

pub open spec fn res_bit_of(v: u8, n: u8) -> u8 {
    v & !(1u8 << n)
}

pub open spec fn bit_is_clear(v: u8, n: u8) -> bool {
    v & (1u8 << n) == 0
}

/// F after a rotate or shift that produced `r` and shifted out `c`.
pub open spec fn shift_flags(r: u8, c: bool) -> u8 {
    flag_bits(r == 0, false, false, c)
}

impl Registers {
    pub open spec fn carry_in(self, use_carry: bool) -> int {
        if use_carry && carry_of(self.f) {
            1
        } else {
            0
        }
    }

    /// ADD / ADC: A + b (+ carry).
    pub open spec fn spec_add(self, b: u8, use_carry: bool) -> Registers {
        let c = self.carry_in(use_carry);
        let r = wrap8(self.a + b + c);
        Registers {
            a: r,
            f: flag_bits(r == 0, false, self.a % 16 + b % 16 + c > 15, self.a + b + c > 255),
            ..self
        }
    }

    /// F after SUB / SBC / CP of `b` from A.
    pub open spec fn sub_flags(self, b: u8, use_carry: bool) -> u8 {
        let c = self.carry_in(use_carry);
        flag_bits(wrap8(self.a - b - c) == 0, true, self.a % 16 < b % 16 + c, self.a < b + c)
    }

    /// SUB / SBC: A - b (- carry).
    pub open spec fn spec_sub(self, b: u8, use_carry: bool) -> Registers {
        Registers {
            a: wrap8(self.a - b - self.carry_in(use_carry)),
            f: self.sub_flags(b, use_carry),
            ..self
        }
    }

    /// CP: the flags of SUB, A kept.
    pub open spec fn spec_cp(self, b: u8) -> Registers {
        Registers { f: self.sub_flags(b, false), ..self }
    }

    pub open spec fn spec_and(self, b: u8) -> Registers {
        Registers { a: self.a & b, f: flag_bits(self.a & b == 0, false, true, false), ..self }
    }

    pub open spec fn spec_or(self, b: u8) -> Registers {
        Registers { a: self.a | b, f: flag_bits(self.a | b == 0, false, false, false), ..self }
    }

    pub open spec fn spec_xor(self, b: u8) -> Registers {
        Registers { a: self.a ^ b, f: flag_bits(self.a ^ b == 0, false, false, false), ..self }
    }

    /// F after INC of `v`; the carry is kept.
    pub open spec fn inc_flags(self, v: u8) -> u8 {
        flag_bits(wrap8(v + 1) == 0, false, v % 16 == 15, carry_of(self.f))
    }

    /// F after DEC of `v`; the carry is kept.
    pub open spec fn dec_flags(self, v: u8) -> u8 {
        flag_bits(wrap8(v - 1) == 0, true, v % 16 == 0, carry_of(self.f))
    }

    /// ADD HL,rr: zero kept, carries out of bit 11 and bit 15.
    pub open spec fn spec_add16(self, b: u16) -> Registers {
        let hl = self.spec_hl();
        Registers {
            f: flag_bits(zero_of(self.f), false, hl % 4096 + b % 4096 > 4095, hl + b > 65535),
            ..self
        }.with_hl(wrap16(hl + b))
    }

    /// F after adding the signed byte `e` to the word `a` (ADD SP,e and LD HL,SP+e).
    pub open spec fn offset_flags(a: u16, e: u8) -> u8 {
        flag_bits(false, false, a % 16 + e % 16 > 15, a % 256 + e > 255)
    }

    /// F after BIT n of `v`; the carry is kept.
    pub open spec fn bit_flags(self, v: u8, n: u8) -> u8 {
        flag_bits(bit_is_clear(v, n), false, true, carry_of(self.f))
    }

    /// DAA: A adjusted to packed decimal after an addition or a subtraction.
    pub open spec fn spec_daa(self) -> Registers {
        let a = self.a;
        let sub = self.f & 0x40 != 0;
        let low = self.f & 0x20 != 0 || (!sub && a % 16 > 9);
        let high = carry_of(self.f) || (!sub && a > 0x99);
        let adjust = (if high { 0x60int } else { 0 }) + (if low { 0x06int } else { 0 });
        let r = if sub {
            wrap8(a - adjust)
        } else {
            wrap8(a + adjust)
        };
        Registers { a: r, f: flag_bits(r == 0, sub, false, high), ..self }
    }

    pub fn alu_add(&mut self, b: u8, is_adc: bool)
        ensures
            *final(self) == old(self).spec_add(b, is_adc),
    {
        let c: u8 = if is_adc && self.get_flag(Flag::Carry) {
            1
        } else {
            0
        };
        let a = self.a;
        let sum: u16 = a as u16 + b as u16 + c as u16;
        let r = (sum % 256) as u8;
        self.f = make_flags(r == 0, false, (a % 16) + (b % 16) + c > 15, sum > 255);
        self.a = r;
    }

    pub fn alu_sub(&mut self, b: u8, is_sbc: bool)
        ensures
            *final(self) == old(self).spec_sub(b, is_sbc),
    {
        let c: u8 = if is_sbc && self.get_flag(Flag::Carry) {
            1
        } else {
            0
        };
        let a = self.a;
        let r = a.wrapping_sub(b).wrapping_sub(c);
        self.f = make_flags(r == 0, true, (a % 16) < (b % 16) + c, (a as u16) < (b as u16) + (
        c as u16));
        self.a = r;
    }

    pub fn alu_and(&mut self, b: u8)
        ensures
            *final(self) == old(self).spec_and(b),
    {
        let r = self.a & b;
        self.f = make_flags(r == 0, false, true, false);
        self.a = r;
    }

    pub fn alu_or(&mut self, b: u8)
        ensures
            *final(self) == old(self).spec_or(b),
    {
        let r = self.a | b;
        self.f = make_flags(r == 0, false, false, false);
        self.a = r;
    }

    pub fn alu_xor(&mut self, b: u8)
        ensures
            *final(self) == old(self).spec_xor(b),
    {
        let r = self.a ^ b;
        self.f = make_flags(r == 0, false, false, false);
        self.a = r;
    }

    pub fn alu_cp(&mut self, b: u8)
        ensures
            *final(self) == old(self).spec_cp(b),
    {
        let a = self.a;
        self.alu_sub(b, false);
        self.a = a;
    }

    pub fn alu_inc(&mut self, v: u8) -> (r: u8)
        ensures
            r == wrap8(v + 1),
            *final(self) == (Registers { f: old(self).inc_flags(v), ..*old(self) }),
    {
        let r = v.wrapping_add(1);
        let c = self.get_flag(Flag::Carry);
        self.f = make_flags(r == 0, false, v % 16 == 15, c);
        r
    }

    pub fn alu_dec(&mut self, v: u8) -> (r: u8)
        ensures
            r == wrap8(v - 1),
            *final(self) == (Registers { f: old(self).dec_flags(v), ..*old(self) }),
    {
        let r = v.wrapping_sub(1);
        let c = self.get_flag(Flag::Carry);
        self.f = make_flags(r == 0, true, v % 16 == 0, c);
        r
    }

    pub fn alu_add16(&mut self, b: u16)
        ensures
            *final(self) == old(self).spec_add16(b),
    {
        let hl = self.hl();
        let z = self.get_flag(Flag::Zero);
        self.f = make_flags(z, false, hl % 4096 + b % 4096 > 4095, hl as u32 + b as u32 > 65535);
        self.set_hl(hl.wrapping_add(b));
    }

    /// Adds the signed byte `e` to `a`, setting the flags; returns the sum.
    pub fn alu_add16imm(&mut self, a: u16, e: u8) -> (r: u16)
        ensures
            r == wrap16(a + signed8(e)),
            *final(self) == (Registers { f: Registers::offset_flags(a, e), ..*old(self) }),
    {
        self.f = make_flags(false, false, a % 16 + (e as u16) % 16 > 15, a % 256 + e as u16 > 255);
        if e < 128 {
            a.wrapping_add(e as u16)
        } else {
            a.wrapping_sub(256 - e as u16)
        }
    }

    pub fn alu_swap(&mut self, v: u8) -> (r: u8)
        ensures
            r == swap_of(v),
            *final(self) == (Registers { f: flag_bits(v == 0, false, false, false), ..*old(self) }),
    {
        self.f = make_flags(v == 0, false, false, false);
        (v % 16) * 16 + v / 16
    }

    /// Sets the flags of a rotate or shift.
    pub fn alu_srflagupdate(&mut self, r: u8, c: bool)
        ensures
            *final(self) == (Registers { f: shift_flags(r, c), ..*old(self) }),
    {
        self.f = make_flags(r == 0, false, false, c);
    }

    pub fn alu_rlc(&mut self, v: u8) -> (r: u8)
        ensures
            r == rlc_of(v),
            *final(self) == (Registers { f: shift_flags(r, v >= 128), ..*old(self) }),
    {
        let r = ((v as u16 * 2) % 256 + (v / 128) as u16) as u8;
        self.alu_srflagupdate(r, v >= 128);
        r
    }

    pub fn alu_rl(&mut self, v: u8) -> (r: u8)
        ensures
            r == rl_of(v, carry_of(old(self).f)),
            *final(self) == (Registers { f: shift_flags(r, v >= 128), ..*old(self) }),
    {
        let cin: u16 = if self.get_flag(Flag::Carry) {
            1
        } else {
            0
        };
        let r = ((v as u16 * 2) % 256 + cin) as u8;
        self.alu_srflagupdate(r, v >= 128);
        r
    }

    pub fn alu_rrc(&mut self, v: u8) -> (r: u8)
        ensures
            r == rrc_of(v),
            *final(self) == (Registers { f: shift_flags(r, v % 2 == 1), ..*old(self) }),
    {
        let r = v / 2 + (v % 2) * 128;
        self.alu_srflagupdate(r, v % 2 == 1);
        r
    }

    pub fn alu_rr(&mut self, v: u8) -> (r: u8)
        ensures
            r == rr_of(v, carry_of(old(self).f)),
            *final(self) == (Registers { f: shift_flags(r, v % 2 == 1), ..*old(self) }),
    {
        let cin: u8 = if self.get_flag(Flag::Carry) {
            128
        } else {
            0
        };
        let r = v / 2 + cin;
        self.alu_srflagupdate(r, v % 2 == 1);
        r
    }

    pub fn alu_sla(&mut self, v: u8) -> (r: u8)
        ensures
            r == sla_of(v),
            *final(self) == (Registers { f: shift_flags(r, v >= 128), ..*old(self) }),
    {
        let r = ((v as u16 * 2) % 256) as u8;
        self.alu_srflagupdate(r, v >= 128);
        r
    }

    pub fn alu_sra(&mut self, v: u8) -> (r: u8)
        ensures
            r == sra_of(v),
            *final(self) == (Registers { f: shift_flags(r, v % 2 == 1), ..*old(self) }),
    {
        let r = v / 2 + (v / 128) * 128;
        self.alu_srflagupdate(r, v % 2 == 1);
        r
    }

    pub fn alu_srl(&mut self, v: u8) -> (r: u8)
        ensures
            r == srl_of(v),
            *final(self) == (Registers { f: shift_flags(r, v % 2 == 1), ..*old(self) }),
    {
        let r = v / 2;
        self.alu_srflagupdate(r, v % 2 == 1);
        r
    }

    /// BIT n,v: zero is set when bit `n` of `v` is clear.
    pub fn alu_bit(&mut self, v: u8, n: u8)
        requires
            n < 8,
        ensures
            *final(self) == (Registers { f: old(self).bit_flags(v, n), ..*old(self) }),
    {
        let c = self.get_flag(Flag::Carry);
        self.f = make_flags(v & (1u8 << n) == 0, false, true, c);
    }

    pub fn alu_daa(&mut self)
        ensures
            *final(self) == old(self).spec_daa(),
    {
        let a = self.a;
        let sub = self.get_flag(Flag::Sub);
        let low = self.get_flag(Flag::HalfCarry) || (!sub && a % 16 > 9);
        let high = self.get_flag(Flag::Carry) || (!sub && a > 0x99);
        let adjust: u8 = (if high {
            0x60u8
        } else {
            0
        }) + (if low {
            0x06u8
        } else {
            0
        });
        let r = if sub {
            a.wrapping_sub(adjust)
        } else {
            a.wrapping_add(adjust)
        };
        self.f = make_flags(r == 0, sub, false, high);
        self.a = r;
    }
}

/// SET n then RES n gives back a byte whose bit `n` was clear.
pub proof fn lemma_set_then_res(x: u8, n: u8)
    requires
        n < 8,
        bit_is_clear(x, n),
    ensures
        res_bit_of(set_bit_of(x, n), n) == x,
{
    assert(n < 8 && x & (1u8 << n) == 0 ==> (x | (1u8 << n)) & !(1u8 << n) == x) by (bit_vector);
}

/// SWAP undoes itself.
pub proof fn lemma_swap_involutive(x: u8)
    ensures
        swap_of(swap_of(x)) == x,
{
    let y = swap_of(x);
    assert(y == ((x % 16) * 16 + x / 16) as u8);
    assert(((x % 16) * 16 + x / 16) < 256) by (nonlinear_arith);
    assert(((((x % 16) * 16 + x / 16) as u8) % 16) * 16 + (((x % 16) * 16 + x / 16) as u8) / 16
        == x) by (nonlinear_arith);
}

/// INC then DEC gives back the byte.
pub proof fn lemma_inc_dec(x: u8)
    ensures
        wrap8(wrap8(x + 1) - 1) == x,
{
}

} // verus!
