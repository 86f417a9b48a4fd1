use vstd::prelude::*;

verus! {

/// The four named bits of the flag register F.
#[derive(Debug, Copy, Clone, PartialEq, Eq, Structural)]
pub enum Flag {
    Zero,
    Sub,
    HalfCarry,
    Carry,
}

impl Flag {
    pub open spec fn spec_mask(self) -> u8 {
        match self {
            Flag::Zero => 0x80,
            Flag::Sub => 0x40,
            Flag::HalfCarry => 0x20,
            Flag::Carry => 0x10,
        }
    }

    /// The bit of F that this flag occupies.
    #[verifier::when_used_as_spec(spec_mask)]
    pub fn mask(self) -> (r: u8)
        ensures
            r == self.spec_mask(),
    {
        match self {
            Flag::Zero => 0x80,
            Flag::Sub => 0x40,
            Flag::HalfCarry => 0x20,
            Flag::Carry => 0x10,
        }
    }
}

/// The value of F with exactly the given flags raised and the low nibble clear.
pub open spec fn flag_bits(z: bool, n: bool, h: bool, c: bool) -> u8 {
    (if z { 0x80u8 } else { 0u8 }) | (if n { 0x40u8 } else { 0u8 }) | (if h { 0x20u8 } else { 0u8 })
        | (if c { 0x10u8 } else { 0u8 })
}

pub open spec fn zero_of(f: u8) -> bool {
    f & 0x80 != 0
}

pub open spec fn sub_of(f: u8) -> bool {
    f & 0x40 != 0
}

pub open spec fn half_of(f: u8) -> bool {
    f & 0x20 != 0
}

pub open spec fn carry_of(f: u8) -> bool {
    f & 0x10 != 0
}

/// Reading a flag back out of `flag_bits` gives the value put in; the low nibble is zero.
pub broadcast proof fn lemma_flag_bits(z: bool, n: bool, h: bool, c: bool)
    ensures
        #![trigger flag_bits(z, n, h, c)]
        zero_of(flag_bits(z, n, h, c)) == z,
        sub_of(flag_bits(z, n, h, c)) == n,
        half_of(flag_bits(z, n, h, c)) == h,
        carry_of(flag_bits(z, n, h, c)) == c,
        flag_bits(z, n, h, c) & 0x0F == 0,
{
    let f = flag_bits(z, n, h, c);
    assert(zero_of(f) == z && sub_of(f) == n && half_of(f) == h && carry_of(f) == c && f & 0x0F
        == 0) by (bit_vector)
        requires
            f == (if z { 0x80u8 } else { 0u8 }) | (if n { 0x40u8 } else { 0u8 }) | (if h {
                0x20u8
            } else {
                0u8
            }) | (if c { 0x10u8 } else { 0u8 }),
    ;
}

pub fn make_flags(z: bool, n: bool, h: bool, c: bool) -> (r: u8)
    ensures
        r == flag_bits(z, n, h, c),
        zero_of(r) == z,
        sub_of(r) == n,
        half_of(r) == h,
        carry_of(r) == c,
        r & 0x0F == 0,
{
    proof {
        lemma_flag_bits(z, n, h, c);
    }
    (if z { 0x80u8 } else { 0u8 }) | (if n { 0x40u8 } else { 0u8 }) | (if h { 0x20u8 } else { 0u8 })
        | (if c { 0x10u8 } else { 0u8 })
}

/// `x` reduced into the range of a byte.
pub open spec fn wrap8(x: int) -> u8 {
    (x % 0x100) as u8
}

/// `x` reduced into the range of a 16-bit word.
pub open spec fn wrap16(x: int) -> u16 {
    (x % 0x10000) as u16
}

/// A 16-bit register pair from its high and low bytes.
pub open spec fn pair(hi: u8, lo: u8) -> u16 {
    (hi as int * 256 + lo as int) as u16
}

pub open spec fn high_of(v: u16) -> u8 {
    (v / 256) as u8
}

pub open spec fn low_of(v: u16) -> u8 {
    (v % 256) as u8
}

/// The CPU register file.
#[derive(Debug, Copy, Clone, PartialEq, Eq, Structural)]
pub struct Registers {
    pub a: u8,
    pub b: u8,
    pub c: u8,
    pub d: u8,
    pub e: u8,
    pub h: u8,
    pub l: u8,
    pub f: u8,
    pub sp: u16,
    pub pc: u16,
}

impl Registers {
    pub open spec fn spec_bc(self) -> u16 {
        pair(self.b, self.c)
    }

    pub open spec fn spec_de(self) -> u16 {
        pair(self.d, self.e)
    }

    pub open spec fn spec_hl(self) -> u16 {
        pair(self.h, self.l)
    }

    pub open spec fn spec_af(self) -> u16 {
        pair(self.a, self.f)
    }

    pub open spec fn with_bc(self, v: u16) -> Registers {
        Registers { b: high_of(v), c: low_of(v), ..self }
    }

    pub open spec fn with_de(self, v: u16) -> Registers {
        Registers { d: high_of(v), e: low_of(v), ..self }
    }

    pub open spec fn with_hl(self, v: u16) -> Registers {
        Registers { h: high_of(v), l: low_of(v), ..self }
    }

    /// A and F from a word; F keeps only its four flag bits.
    pub open spec fn with_af(self, v: u16) -> Registers {
        Registers { a: high_of(v), f: low_of(v) & 0xF0, ..self }
    }

    pub open spec fn spec_flag(self, flag: Flag) -> bool {
        self.f & flag.spec_mask() != 0
    }

    /// The register file as the boot ROM leaves it.
    pub open spec fn boot() -> Registers {
        Registers {
            a: 0x01,
            f: 0xb0,
            b: 0x00,
            c: 0x13,
            d: 0x00,
            e: 0xd8,
            h: 0x01,
            l: 0x4d,
            sp: 0xfffe,
            pc: 0x0100,
        }
    }

    pub fn new() -> (r: Registers)
        ensures
            r == Registers::boot(),
    {
        Registers {
            a: 0x01,
            f: 0xb0,
            b: 0x00,
            c: 0x13,
            d: 0x00,
            e: 0xd8,
            h: 0x01,
            l: 0x4d,
            sp: 0xfffe,
            pc: 0x0100,
        }
    }

    pub fn bc(&self) -> (r: u16)
        ensures
            r == self.spec_bc(),
    {
        self.b as u16 * 256 + self.c as u16
    }

    pub fn de(&self) -> (r: u16)
        ensures
            r == self.spec_de(),
    {
        self.d as u16 * 256 + self.e as u16
    }

    pub fn hl(&self) -> (r: u16)
        ensures
            r == self.spec_hl(),
    {
        self.h as u16 * 256 + self.l as u16
    }

    pub fn af(&self) -> (r: u16)
        ensures
            r == self.spec_af(),
    {
        self.a as u16 * 256 + self.f as u16
    }

    /// Returns HL, then increments it.
    pub fn hli(&mut self) -> (r: u16)
        ensures
            r == old(self).spec_hl(),
            *final(self) == old(self).with_hl(wrap16(r + 1)),
    {
        let value = self.hl();
        self.set_hl(value.wrapping_add(1));
        value
    }

    /// Returns HL, then decrements it.
    pub fn hld(&mut self) -> (r: u16)
        ensures
            r == old(self).spec_hl(),
            *final(self) == old(self).with_hl(wrap16(r - 1)),
    {
        let value = self.hl();
        self.set_hl(value.wrapping_sub(1));
        value
    }

    pub fn set_bc(&mut self, value: u16)
        ensures
            *final(self) == old(self).with_bc(value),
    {
        self.b = (value / 256) as u8;
        self.c = (value % 256) as u8;
    }

    pub fn set_de(&mut self, value: u16)
        ensures
            *final(self) == old(self).with_de(value),
    {
        self.d = (value / 256) as u8;
        self.e = (value % 256) as u8;
    }

    pub fn set_hl(&mut self, value: u16)
        ensures
            *final(self) == old(self).with_hl(value),
    {
        self.h = (value / 256) as u8;
        self.l = (value % 256) as u8;
    }

    /// Writes A and F; the low nibble of F is cleared.
    pub fn set_af(&mut self, value: u16)
        ensures
            *final(self) == old(self).with_af(value),
            final(self).f & 0x0F == 0,
    {
        self.a = (value / 256) as u8;
        let f = ((value % 256) as u8) & 0xF0;
        assert(f & 0x0F == 0) by (bit_vector)
            requires
                f == ((value % 256) as u8) & 0xF0,
        ;
        self.f = f;
    }

    pub fn up_flag(&mut self, flag: Flag)
        ensures
            *final(self) == (Registers { f: old(self).f | flag.spec_mask(), ..*old(self) }),
    {
        self.f = self.f | flag.mask();
    }

    pub fn down_flag(&mut self, flag: Flag)
        ensures
            *final(self) == (Registers { f: old(self).f & !flag.spec_mask(), ..*old(self) }),
    {
        self.f = self.f & !flag.mask();
    }

    pub fn set_flag(&mut self, flag: Flag, value: bool)
        ensures
            *final(self) == (Registers {
                f: if value {
                    old(self).f | flag.spec_mask()
                } else {
                    old(self).f & !flag.spec_mask()
                },
                ..*old(self)
            }),
    {
        if value {
            self.up_flag(flag);
        } else {
            self.down_flag(flag);
        }
    }

    pub fn get_flag(&self, flag: Flag) -> (r: bool)
        ensures
            r == self.spec_flag(flag),
    {
        self.f & flag.mask() != 0
    }
}

} // verus!
