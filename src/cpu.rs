//! The LR35902 processor: instruction semantics, interrupt servicing and HALT.
use crate::alu::{
    bit_is_clear, res_bit_of, rl_of, rlc_of, rr_of, rrc_of, set_bit_of, shift_flags, signed8,
    sla_of, sra_of, srl_of, swap_of,
};
use crate::error::Fault;
use crate::mbc::{Cartridge, MBC};
use crate::memory::{MemView, Memory};
use crate::registers::{
    carry_of, flag_bits, lemma_flag_bits, make_flags, wrap16, wrap8, zero_of, Flag, Registers,
};
use vstd::prelude::*;

verus! {

broadcast use lemma_flag_bits;

/// The processor as its instructions see it.
pub ghost struct CpuView {
    pub registers: Registers,
    pub memory: MemView,
    pub ime: bool,
    pub halt: bool,
}

/// The opcodes that the instruction set leaves undefined.
pub open spec fn is_unknown_opcode(op: u8) -> bool {
    op == 0xD3 || op == 0xDB || op == 0xDD || op == 0xE3 || op == 0xE4 || op == 0xEB || op == 0xEC
        || op == 0xED || op == 0xF4 || op == 0xFC || op == 0xFD
}

/// The lowest set bit of a nonzero byte.
pub open spec fn lowest_bit(p: u8) -> u8 {
    if p & 0x01 != 0 {
        0
    } else if p & 0x02 != 0 {
        1
    } else if p & 0x04 != 0 {
        2
    } else if p & 0x08 != 0 {
        3
    } else if p & 0x10 != 0 {
        4
    } else {
        5
    }
}

/// The bit of IF that line `n` uses.
pub open spec fn line_mask(n: u8) -> u8 {
    if n == 0 {
        0x01
    } else if n == 1 {
        0x02
    } else if n == 2 {
        0x04
    } else if n == 3 {
        0x08
    } else {
        0x10
    }
}

/// Whether servicing interrupts now would meet a pending, enabled line with no vector.
pub open spec fn interrupt_fault(ime: bool, if_: u8, ie: u8) -> bool {
    ime && if_ & ie != 0 && lowest_bit(if_ & ie) >= 5
}

impl CpuView {
    pub open spec fn with_regs(self, r: Registers) -> CpuView {
        CpuView { registers: r, ..self }
    }

    pub open spec fn with_mem(self, m: MemView) -> CpuView {
        CpuView { memory: m, ..self }
    }

    pub open spec fn with_f(self, f: u8) -> CpuView {
        self.with_regs(Registers { f: f, ..self.registers })
    }

    pub open spec fn jump(self, pc: u16) -> CpuView {
        self.with_regs(Registers { pc: pc, ..self.registers })
    }

    pub open spec fn advance(self, n: int) -> CpuView {
        self.jump(wrap16(self.registers.pc + n))
    }

    /// The byte after the opcode.
    pub open spec fn imm8(self) -> u8 {
        self.memory.read(self.registers.pc)
    }

    /// The little-endian word after the opcode.
    pub open spec fn imm16(self) -> u16 {
        self.memory.read_word(self.registers.pc)
    }

    /// Operand `i` of the eight-register encoding: B, C, D, E, H, L, (HL), A.
    pub open spec fn r8(self, i: u8) -> u8 {
        let r = self.registers;
        if i == 0 {
            r.b
        } else if i == 1 {
            r.c
        } else if i == 2 {
            r.d
        } else if i == 3 {
            r.e
        } else if i == 4 {
            r.h
        } else if i == 5 {
            r.l
        } else if i == 6 {
            self.memory.read(r.spec_hl())
        } else {
            r.a
        }
    }

    pub open spec fn set_r8(self, i: u8, v: u8) -> CpuView {
        let r = self.registers;
        if i == 0 {
            self.with_regs(Registers { b: v, ..r })
        } else if i == 1 {
            self.with_regs(Registers { c: v, ..r })
        } else if i == 2 {
            self.with_regs(Registers { d: v, ..r })
        } else if i == 3 {
            self.with_regs(Registers { e: v, ..r })
        } else if i == 4 {
            self.with_regs(Registers { h: v, ..r })
        } else if i == 5 {
            self.with_regs(Registers { l: v, ..r })
        } else if i == 6 {
            self.with_mem(self.memory.write(r.spec_hl(), v))
        } else {
            self.with_regs(Registers { a: v, ..r })
        }
    }

    /// Pair `i` of the encoding BC, DE, HL, SP.
    pub open spec fn rr(self, i: u8) -> u16 {
        if i == 0 {
            self.registers.spec_bc()
        } else if i == 1 {
            self.registers.spec_de()
        } else if i == 2 {
            self.registers.spec_hl()
        } else {
            self.registers.sp
        }
    }

    pub open spec fn set_rr(self, i: u8, v: u16) -> CpuView {
        if i == 0 {
            self.with_regs(self.registers.with_bc(v))
        } else if i == 1 {
            self.with_regs(self.registers.with_de(v))
        } else if i == 2 {
            self.with_regs(self.registers.with_hl(v))
        } else {
            self.with_regs(Registers { sp: v, ..self.registers })
        }
    }

    /// Pair `i` of the encoding BC, DE, HL, AF used by PUSH and POP.
    pub open spec fn rr_stack(self, i: u8) -> u16 {
        if i == 3 {
            self.registers.spec_af()
        } else {
            self.rr(i)
        }
    }

    /// POP into pair `i`; the low nibble of F stays clear.
    pub open spec fn set_rr_stack(self, i: u8, v: u16) -> CpuView {
        if i == 3 {
            self.with_regs(self.registers.with_af(v & 0xFFF0))
        } else {
            self.set_rr(i, v)
        }
    }

    pub open spec fn push(self, v: u16) -> CpuView {
        let sp = wrap16(self.registers.sp - 2);
        CpuView {
            registers: Registers { sp: sp, ..self.registers },
            memory: self.memory.write_word(sp, v),
            ..self
        }
    }

    pub open spec fn pop_value(self) -> u16 {
        self.memory.read_word(self.registers.sp)
    }

    pub open spec fn popped(self) -> CpuView {
        self.with_regs(Registers { sp: wrap16(self.registers.sp + 2), ..self.registers })
    }

    /// Condition `cc` of the encoding NZ, Z, NC, C.
    pub open spec fn cond(self, cc: u8) -> bool {
        let f = self.registers.f;
        if cc == 0 {
            !zero_of(f)
        } else if cc == 1 {
            zero_of(f)
        } else if cc == 2 {
            !carry_of(f)
        } else {
            carry_of(f)
        }
    }

    /// Operation `y` of the encoding ADD, ADC, SUB, SBC, AND, XOR, OR, CP on A and `v`.
    pub open spec fn alu8(self, y: u8, v: u8) -> CpuView {
        let r = self.registers;
        self.with_regs(
            if y == 0 {
                r.spec_add(v, false)
            } else if y == 1 {
                r.spec_add(v, true)
            } else if y == 2 {
                r.spec_sub(v, false)
            } else if y == 3 {
                r.spec_sub(v, true)
            } else if y == 4 {
                r.spec_and(v)
            } else if y == 5 {
                r.spec_xor(v)
            } else if y == 6 {
                r.spec_or(v)
            } else {
                r.spec_cp(v)
            },
        )
    }

    /// JR: the offset byte is consumed, then added to PC.
    pub open spec fn jr(self) -> CpuView {
        let e = self.imm8();
        self.jump(wrap16(self.registers.pc + 1 + signed8(e)))
    }

    /// CALL to the word after the opcode, pushing the address after the operand.
    pub open spec fn call(self) -> CpuView {
        let target = self.imm16();
        let next = self.advance(2);
        next.push(next.registers.pc).jump(target)
    }

    pub open spec fn ret(self) -> CpuView {
        self.popped().jump(self.pop_value())
    }

    /// The rotate and shift page of CB: result and F for operation `y` on `v`.
    pub open spec fn rot(self, y: u8, v: u8) -> (u8, u8) {
        let cin = carry_of(self.registers.f);
        if y == 0 {
            (rlc_of(v), shift_flags(rlc_of(v), v >= 128))
        } else if y == 1 {
            (rrc_of(v), shift_flags(rrc_of(v), v % 2 == 1))
        } else if y == 2 {
            (rl_of(v, cin), shift_flags(rl_of(v, cin), v >= 128))
        } else if y == 3 {
            (rr_of(v, cin), shift_flags(rr_of(v, cin), v % 2 == 1))
        } else if y == 4 {
            (sla_of(v), shift_flags(sla_of(v), v >= 128))
        } else if y == 5 {
            (sra_of(v), shift_flags(sra_of(v), v % 2 == 1))
        } else if y == 6 {
            (swap_of(v), flag_bits(v == 0, false, false, false))
        } else {
            (srl_of(v), shift_flags(srl_of(v), v % 2 == 1))
        }
    }

    /// A CB-prefixed instruction, PC at its second byte; with its machine cycles.
    pub open spec fn cb_op(self) -> (CpuView, u8) {
        let op = self.imm8();
        let c = self.advance(1);
        let y = (op / 8) % 8;
        let z = op % 8;
        let v = c.r8(z);
        if op < 0x40 {
            let (r, f) = c.rot(y, v);
            (
                c.with_f(f).set_r8(z, r),
                if z == 6 {
                    4
                } else {
                    2
                },
            )
        } else if op < 0x80 {
            (
                c.with_f(flag_bits(bit_is_clear(v, y), false, true, carry_of(c.registers.f))),
                if z == 6 {
                    3
                } else {
                    2
                },
            )
        } else if op < 0xC0 {
            (
                c.set_r8(z, res_bit_of(v, y)),
                if z == 6 {
                    4
                } else {
                    2
                },
            )
        } else {
            (
                c.set_r8(z, set_bit_of(v, y)),
                if z == 6 {
                    4
                } else {
                    2
                },
            )
        }
    }

    /// LD r,r' and HALT (0x40-0x7F).
    pub open spec fn ld_op(self, op: u8) -> (CpuView, u8) {
        let y = ((op - 0x40) / 8) as u8;
        let z = op % 8;
        if op == 0x76 {
            (CpuView { halt: true, ..self }, 1)
        } else {
            (
                self.set_r8(y, self.r8(z)),
                if y == 6 || z == 6 {
                    2
                } else {
                    1
                },
            )
        }
    }

    /// Arithmetic on A with a register or (HL) (0x80-0xBF).
    pub open spec fn alu_op(self, op: u8) -> (CpuView, u8) {
        let y = ((op - 0x80) / 8) as u8;
        let z = op % 8;
        (
            self.alu8(y, self.r8(z)),
            if z == 6 {
                2
            } else {
                1
            },
        )
    }

    /// 0x00-0x3F.
    pub open spec fn low_op(self, op: u8) -> (CpuView, u8) {
        let y = op / 8;
        let z = op % 8;
        let r = self.registers;
        if z == 0 {
            if op == 0x00 {
                (self, 1)
            } else if op == 0x08 {
                (self.advance(2).with_mem(self.memory.write_word(self.imm16(), r.sp)), 5)
            } else if op == 0x10 {
                (self.advance(1), 1)
            } else if op == 0x18 {
                (self.jr(), 3)
            } else if self.cond((y - 4) as u8) {
                (self.jr(), 3)
            } else {
                (self.advance(1), 2)
            }
        } else if z == 1 {
            if y % 2 == 0 {
                (self.advance(2).set_rr(y / 2, self.imm16()), 3)
            } else {
                (self.with_regs(r.spec_add16(self.rr(y / 2))), 2)
            }
        } else if z == 2 {
            let hl = r.spec_hl();
            if op == 0x02 {
                (self.with_mem(self.memory.write(r.spec_bc(), r.a)), 2)
            } else if op == 0x12 {
                (self.with_mem(self.memory.write(r.spec_de(), r.a)), 2)
            } else if op == 0x22 {
                (self.with_regs(r.with_hl(wrap16(hl + 1))).with_mem(self.memory.write(hl, r.a)), 2)
            } else if op == 0x32 {
                (self.with_regs(r.with_hl(wrap16(hl - 1))).with_mem(self.memory.write(hl, r.a)), 2)
            } else if op == 0x0A {
                (self.with_regs(Registers { a: self.memory.read(r.spec_bc()), ..r }), 2)
            } else if op == 0x1A {
                (self.with_regs(Registers { a: self.memory.read(r.spec_de()), ..r }), 2)
            } else if op == 0x2A {
                (
                    self.with_regs(
                        Registers { a: self.memory.read(hl), ..r.with_hl(wrap16(hl + 1)) },
                    ),
                    2,
                )
            } else {
                (
                    self.with_regs(
                        Registers { a: self.memory.read(hl), ..r.with_hl(wrap16(hl - 1)) },
                    ),
                    2,
                )
            }
        } else if z == 3 {
            if y % 2 == 0 {
                (self.set_rr(y / 2, wrap16(self.rr(y / 2) + 1)), 2)
            } else {
                (self.set_rr(y / 2, wrap16(self.rr(y / 2) - 1)), 2)
            }
        } else if z == 4 {
            let v = self.r8(y);
            (
                self.with_f(r.inc_flags(v)).set_r8(y, wrap8(v + 1)),
                if y == 6 {
                    3
                } else {
                    1
                },
            )
        } else if z == 5 {
            let v = self.r8(y);
            (
                self.with_f(r.dec_flags(v)).set_r8(y, wrap8(v - 1)),
                if y == 6 {
                    3
                } else {
                    1
                },
            )
        } else if z == 6 {
            (
                self.advance(1).set_r8(y, self.imm8()),
                if y == 6 {
                    3
                } else {
                    2
                },
            )
        } else {
            let c = carry_of(r.f);
            let z_ = zero_of(r.f);
            if y == 0 {
                (self.with_regs(Registers { a: rlc_of(r.a), f: flag_bits(false, false, false, r.a >= 128), ..r }), 1)
            } else if y == 1 {
                (self.with_regs(Registers { a: rrc_of(r.a), f: flag_bits(false, false, false, r.a % 2 == 1), ..r }), 1)
            } else if y == 2 {
                (self.with_regs(Registers { a: rl_of(r.a, c), f: flag_bits(false, false, false, r.a >= 128), ..r }), 1)
            } else if y == 3 {
                (self.with_regs(Registers { a: rr_of(r.a, c), f: flag_bits(false, false, false, r.a % 2 == 1), ..r }), 1)
            } else if y == 4 {
                (self.with_regs(r.spec_daa()), 1)
            } else if y == 5 {
                (self.with_regs(Registers { a: !r.a, f: flag_bits(z_, true, true, c), ..r }), 1)
            } else if y == 6 {
                (self.with_f(flag_bits(z_, false, false, true)), 1)
            } else {
                (self.with_f(flag_bits(z_, false, false, !c)), 1)
            }
        }
    }

    /// 0xC0-0xFF, but for the CB prefix and the undefined opcodes.
    pub open spec fn high_op(self, op: u8) -> (CpuView, u8) {
        let y = (op / 8) % 8;
        let z = op % 8;
        let r = self.registers;
        if z == 0 {
            if y < 4 {
                if self.cond(y) {
                    (self.ret(), 5)
                } else {
                    (self, 2)
                }
            } else if y == 4 {
                (self.advance(1).with_mem(self.memory.write((0xFF00 + self.imm8()) as u16, r.a)), 3)
            } else if y == 5 {
                let e = self.imm8();
                (
                    self.advance(1).with_regs(
                        Registers {
                            sp: wrap16(r.sp + signed8(e)),
                            f: Registers::offset_flags(r.sp, e),
                            pc: wrap16(r.pc + 1),
                            ..r
                        },
                    ),
                    4,
                )
            } else if y == 6 {
                (
                    self.advance(1).with_regs(
                        Registers {
                            a: self.memory.read((0xFF00 + self.imm8()) as u16),
                            pc: wrap16(r.pc + 1),
                            ..r
                        },
                    ),
                    3,
                )
            } else {
                let e = self.imm8();
                (
                    self.with_regs(
                        Registers {
                            f: Registers::offset_flags(r.sp, e),
                            pc: wrap16(r.pc + 1),
                            ..r
                        }.with_hl(wrap16(r.sp + signed8(e))),
                    ),
                    3,
                )
            }
        } else if z == 1 {
            if y % 2 == 0 {
                (self.popped().set_rr_stack(y / 2, self.pop_value()), 3)
            } else if y == 1 {
                (self.ret(), 4)
            } else if y == 3 {
                (CpuView { ime: true, ..self.ret() }, 4)
            } else if y == 5 {
                (self.jump(r.spec_hl()), 1)
            } else {
                (self.with_regs(Registers { sp: r.spec_hl(), ..r }), 2)
            }
        } else if z == 2 {
            if y < 4 {
                if self.cond(y) {
                    (self.jump(self.imm16()), 4)
                } else {
                    (self.advance(2), 3)
                }
            } else if y == 4 {
                (self.with_mem(self.memory.write((0xFF00 + r.c) as u16, r.a)), 2)
            } else if y == 5 {
                (self.advance(2).with_mem(self.memory.write(self.imm16(), r.a)), 4)
            } else if y == 6 {
                (self.with_regs(Registers { a: self.memory.read((0xFF00 + r.c) as u16), ..r }), 2)
            } else {
                (
                    self.with_regs(
                        Registers { a: self.memory.read(self.imm16()), pc: wrap16(r.pc + 2), ..r },
                    ),
                    4,
                )
            }
        } else if z == 3 {
            if y == 0 {
                (self.jump(self.imm16()), 4)
            } else if y == 6 {
                (CpuView { ime: false, ..self }, 1)
            } else {
                (CpuView { ime: true, ..self }, 1)
            }
        } else if z == 4 {
            if self.cond(y) {
                (self.call(), 6)
            } else {
                (self.advance(2), 3)
            }
        } else if z == 5 {
            if y % 2 == 0 {
                (self.push(self.rr_stack(y / 2)), 4)
            } else {
                (self.call(), 6)
            }
        } else if z == 6 {
            (self.advance(1).alu8(y, self.imm8()), 2)
        } else {
            (self.push(r.pc).jump((y * 8) as u16), 4)
        }
    }

    /// One instruction whose opcode `op` has been fetched (PC past it), with its machine
    /// cycles; an undefined opcode is a fault.
    pub open spec fn execute(self, op: u8) -> Result<(CpuView, u8), Fault> {
        if is_unknown_opcode(op) {
            Err(Fault::UnknownOpcode(op))
        } else if op < 0x40 {
            Ok(self.low_op(op))
        } else if op < 0x80 {
            Ok(self.ld_op(op))
        } else if op < 0xC0 {
            Ok(self.alu_op(op))
        } else if op == 0xCB {
            Ok(self.cb_op())
        } else {
            Ok(self.high_op(op))
        }
    }

    /// Interrupt servicing before an instruction: a pending enabled interrupt ends HALT;
    /// with IME set, the lowest one is acknowledged and its vector called.
    pub open spec fn interrupted(self) -> Result<CpuView, Fault> {
        let pending = self.memory.interrupt_flags & self.memory.interrupt_enable;
        if (self.ime || self.halt) && pending != 0 {
            let c = CpuView { halt: false, ..self };
            if self.ime {
                let n = lowest_bit(pending);
                if n >= 5 {
                    Err(Fault::UnknownInterrupt)
                } else {
                    let pushed = c.push(c.registers.pc);
                    Ok(
                        CpuView {
                            ime: false,
                            memory: MemView {
                                interrupt_flags: pushed.memory.interrupt_flags & !line_mask(n),
                                ..pushed.memory
                            },
                            ..pushed
                        }.jump((0x40 + 8 * n) as u16),
                    )
                }
            } else {
                Ok(c)
            }
        } else {
            Ok(self)
        }
    }

    /// One step: interrupts, then one instruction (or four idle cycles while halted), then
    /// the peripherals advance by its cycles. The result carries the cycles charged.
    #[verifier::opaque]
    pub open spec fn step(self) -> Result<(CpuView, u8), Fault> {
        match self.interrupted() {
            Err(e) => Err(e),
            Ok(c) => if c.halt {
                Ok((c.with_mem(c.memory.step(4)), 4))
            } else {
                let op = c.imm8();
                match c.advance(1).execute(op) {
                    Err(e) => Err(e),
                    Ok((d, n)) => Ok((d.with_mem(d.memory.step((n * 4) as u8)), (n * 4) as u8)),
                }
            },
        }
    }
}

pub struct CPU {
    pub registers: Registers,
    pub memory: Memory,
    pub ime: bool,
    pub halt: bool,
}

impl View for CPU {
    type V = CpuView;

    open spec fn view(&self) -> CpuView {
        CpuView { registers: self.registers, memory: self.memory@, ime: self.ime, halt: self.halt }
    }
}

/// The low nibble of F is clear.
pub open spec fn flags_clean(r: Registers) -> bool {
    r.f & 0x0F == 0
}

impl CPU {
    pub open spec fn wf(&self) -> bool {
        self.memory.wf()
    }

    pub fn new(mbc: Cartridge) -> (r: CPU)
        requires
            mbc.wf(),
        ensures
            r.wf(),
            r@ == (CpuView {
                registers: Registers::boot(),
                memory: MemView::initial(mbc.cart()).with_boot_defaults(),
                ime: false,
                halt: false,
            }),
            forall|i: int|
                0 <= i < crate::gpu::SCREEN_SIZE_RGB ==> r.memory.gpu.data[i] == 255,
    {
        CPU { registers: Registers::new(), memory: Memory::new(mbc), ime: false, halt: false }
    }

    fn read_byte(&self, address: u16) -> (r: u8)
        requires
            self.wf(),
        ensures
            r == self@.memory.read(address),
    {
        self.memory.read(address)
    }

    /// The word at PC.
    fn read_word(&self) -> (r: u16)
        requires
            self.wf(),
        ensures
            r == self@.imm16(),
    {
        self.memory.read_word(self.registers.pc)
    }

    fn fetch_byte(&mut self) -> (r: u8)
        requires
            old(self).wf(),
        ensures
            final(self).wf(),
            r == old(self)@.imm8(),
            final(self)@ == old(self)@.advance(1),
            final(self).memory.gpu.data == old(self).memory.gpu.data,
    {
        let value = self.memory.read(self.registers.pc);
        self.registers.pc = self.registers.pc.wrapping_add(1);
        value
    }

    fn fetch_word(&mut self) -> (r: u16)
        requires
            old(self).wf(),
        ensures
            final(self).wf(),
            r == old(self)@.imm16(),
            final(self)@ == old(self)@.advance(2),
    {
        let value = self.read_word();
        self.registers.pc = self.registers.pc.wrapping_add(2);
        value
    }

    fn write_byte(&mut self, address: u16, value: u8)
        requires
            old(self).wf(),
        ensures
            final(self).wf(),
            final(self)@ == old(self)@.with_mem(old(self)@.memory.write(address, value)),
    {
        self.memory.write(address, value);
    }

    fn write_word(&mut self, address: u16, value: u16)
        requires
            old(self).wf(),
        ensures
            final(self).wf(),
            final(self)@ == old(self)@.with_mem(old(self)@.memory.write_word(address, value)),
    {
        self.memory.write_word(address, value);
    }

    fn push_stack(&mut self, value: u16)
        requires
            old(self).wf(),
        ensures
            final(self).wf(),
            final(self)@ == old(self)@.push(value),
    {
        self.registers.sp = self.registers.sp.wrapping_sub(2);
        self.write_word(self.registers.sp, value);
    }

    fn pop_stack(&mut self) -> (r: u16)
        requires
            old(self).wf(),
        ensures
            final(self).wf(),
            r == old(self)@.pop_value(),
            final(self)@ == old(self)@.popped(),
    {
        let res = self.memory.read_word(self.registers.sp);
        self.registers.sp = self.registers.sp.wrapping_add(2);
        res
    }

    fn read_r8(&self, i: u8) -> (r: u8)
        requires
            self.wf(),
        ensures
            r == self@.r8(i),
    {
        match i {
            0 => self.registers.b,
            1 => self.registers.c,
            2 => self.registers.d,
            3 => self.registers.e,
            4 => self.registers.h,
            5 => self.registers.l,
            6 => self.memory.read(self.registers.hl()),
            _ => self.registers.a,
        }
    }

    fn write_r8(&mut self, i: u8, v: u8)
        requires
            old(self).wf(),
        ensures
            final(self).wf(),
            final(self)@ == old(self)@.set_r8(i, v),
    {
        match i {
            0 => self.registers.b = v,
            1 => self.registers.c = v,
            2 => self.registers.d = v,
            3 => self.registers.e = v,
            4 => self.registers.h = v,
            5 => self.registers.l = v,
            6 => {
                let a = self.registers.hl();
                self.memory.write(a, v);
            },
            _ => self.registers.a = v,
        }
    }

    fn read_rr(&self, i: u8) -> (r: u16)
        ensures
            r == self@.rr(i),
    {
        match i {
            0 => self.registers.bc(),
            1 => self.registers.de(),
            2 => self.registers.hl(),
            _ => self.registers.sp,
        }
    }

    fn write_rr(&mut self, i: u8, v: u16)
        requires
            old(self).wf(),
        ensures
            final(self).wf(),
            final(self)@ == old(self)@.set_rr(i, v),
    {
        match i {
            0 => self.registers.set_bc(v),
            1 => self.registers.set_de(v),
            2 => self.registers.set_hl(v),
            _ => self.registers.sp = v,
        }
    }

    fn cond(&self, cc: u8) -> (r: bool)
        ensures
            r == self@.cond(cc),
    {
        match cc {
            0 => !self.registers.get_flag(Flag::Zero),
            1 => self.registers.get_flag(Flag::Zero),
            2 => !self.registers.get_flag(Flag::Carry),
            _ => self.registers.get_flag(Flag::Carry),
        }
    }

    fn alu8(&mut self, y: u8, v: u8)
        requires
            old(self).wf(),
        ensures
            final(self).wf(),
            final(self)@ == old(self)@.alu8(y, v),
    {
        match y {
            0 => self.registers.alu_add(v, false),
            1 => self.registers.alu_add(v, true),
            2 => self.registers.alu_sub(v, false),
            3 => self.registers.alu_sub(v, true),
            4 => self.registers.alu_and(v),
            5 => self.registers.alu_xor(v),
            6 => self.registers.alu_or(v),
            _ => self.registers.alu_cp(v),
        }
    }

    /// JR: adds the signed byte after the opcode to PC.
    fn cpu_jr(&mut self)
        requires
            old(self).wf(),
        ensures
            final(self).wf(),
            final(self)@ == old(self)@.jr(),
    {
        let n = self.fetch_byte();
        let pc = self.registers.pc;
        self.registers.pc = if n < 128 {
            pc.wrapping_add(n as u16)
        } else {
            pc.wrapping_sub(256 - n as u16)
        };
    }

    /// Runs the instruction with opcode `opcode`; returns its machine cycles.
    pub fn call_opcode(&mut self, opcode: u8) -> (r: u8)
        requires
            old(self).wf(),
            !is_unknown_opcode(opcode),
        ensures
            final(self).wf(),
            old(self)@.execute(opcode) == Ok::<(CpuView, u8), Fault>((final(self)@, r)),
            1 <= r <= 6,
            flags_clean(old(self).registers) ==> flags_clean(final(self).registers),
    {
        let op = opcode;
        if op < 0x40 {
            self.low_op(op)
        } else if op < 0x80 {
            self.ld_op(op)
        } else if op < 0xC0 {
            self.alu_op(op)
        } else if op == 0xCB {
            self.call_cb()
        } else {
            self.high_op(op)
        }
    }

    fn ld_op(&mut self, op: u8) -> (r: u8)
        requires
            old(self).wf(),
            0x40 <= op < 0x80,
        ensures
            final(self).wf(),
            (final(self)@, r) == old(self)@.ld_op(op),
            1 <= r <= 6,
            final(self).registers.f == old(self).registers.f,
    {
        if op == 0x76 {
            self.halt = true;
            return 1;
        }
        let y = (op - 0x40) / 8;
        let z = op % 8;
        let v = self.read_r8(z);
        self.write_r8(y, v);
        if y == 6 || z == 6 {
            2
        } else {
            1
        }
    }

    fn alu_op(&mut self, op: u8) -> (r: u8)
        requires
            old(self).wf(),
            0x80 <= op < 0xC0,
        ensures
            final(self).wf(),
            (final(self)@, r) == old(self)@.alu_op(op),
            1 <= r <= 6,
            flags_clean(final(self).registers),
    {
        let y = (op - 0x80) / 8;
        let z = op % 8;
        let v = self.read_r8(z);
        self.alu8(y, v);
        if z == 6 {
            2
        } else {
            1
        }
    }

    /// The CB-prefixed page: rotates and shifts, BIT, RES and SET.
    pub fn call_cb(&mut self) -> (r: u8)
        requires
            old(self).wf(),
        ensures
            final(self).wf(),
            (final(self)@, r) == old(self)@.cb_op(),
            1 <= r <= 6,
            flags_clean(old(self).registers) ==> flags_clean(final(self).registers),
    {
        let op = self.fetch_byte();
        let y = (op / 8) % 8;
        let z = op % 8;
        let v = self.read_r8(z);
        if op < 0x40 {
            let r = match y {
                0 => self.registers.alu_rlc(v),
                1 => self.registers.alu_rrc(v),
                2 => self.registers.alu_rl(v),
                3 => self.registers.alu_rr(v),
                4 => self.registers.alu_sla(v),
                5 => self.registers.alu_sra(v),
                6 => self.registers.alu_swap(v),
                _ => self.registers.alu_srl(v),
            };
            self.write_r8(z, r);
            if z == 6 {
                4
            } else {
                2
            }
        } else if op < 0x80 {
            self.registers.alu_bit(v, y);
            if z == 6 {
                3
            } else {
                2
            }
        } else if op < 0xC0 {
            self.write_r8(z, v & !(1u8 << y));
            if z == 6 {
                4
            } else {
                2
            }
        } else {
            self.write_r8(z, v | (1u8 << y));
            if z == 6 {
                4
            } else {
                2
            }
        }
    }

    /// Opcodes 0x00-0x3F.
    fn low_op(&mut self, op: u8) -> (r: u8)
        requires
            old(self).wf(),
            op < 0x40,
        ensures
            final(self).wf(),
            (final(self)@, r) == old(self)@.low_op(op),
            1 <= r <= 6,
            flags_clean(old(self).registers) ==> flags_clean(final(self).registers),
    {
        let z = op % 8;
        if z == 0 {
            self.low_control(op)
        } else if z <= 3 {
            self.low_pairs(op)
        } else if z <= 6 {
            self.low_r8(op)
        } else {
            self.low_a(op)
        }
    }

    /// NOP, LD (nn),SP, STOP and the relative jumps.
    #[verifier::spinoff_prover]
    #[verifier::rlimit(100)]
    fn low_control(&mut self, op: u8) -> (r: u8)
        requires
            old(self).wf(),
            op < 0x40,
            op % 8 == 0,
        ensures
            final(self).wf(),
            (final(self)@, r) == old(self)@.low_op(op),
            1 <= r <= 6,
            flags_clean(old(self).registers) ==> flags_clean(final(self).registers),
    {
        let y = op / 8;
        let z = op % 8;
        if op == 0x00 {
            1
        } else if op == 0x08 {
            let a = self.fetch_word();
            let sp = self.registers.sp;
            self.write_word(a, sp);
            5
        } else if op == 0x10 {
            // STOP takes a second byte.
            self.fetch_byte();
            1
        } else if op == 0x18 {
            self.cpu_jr();
            3
        } else if self.cond(y - 4) {
            self.cpu_jr();
            3
        } else {
            self.registers.pc = self.registers.pc.wrapping_add(1);
            2
        }
    }

    /// Loads and arithmetic on register pairs; A through (BC), (DE), (HL+), (HL-).
    fn low_pairs(&mut self, op: u8) -> (r: u8)
        requires
            old(self).wf(),
            op < 0x40,
            1 <= op % 8 <= 3,
        ensures
            final(self).wf(),
            (final(self)@, r) == old(self)@.low_op(op),
            1 <= r <= 6,
            flags_clean(old(self).registers) ==> flags_clean(final(self).registers),
    {
        if op % 8 == 2 {
            if op % 16 == 2 {
                self.store_a(op)
            } else {
                self.load_a(op)
            }
        } else {
            self.low_wide(op)
        }
    }

    /// LD rr,nn, ADD HL,rr, INC rr and DEC rr.
    fn low_wide(&mut self, op: u8) -> (r: u8)
        requires
            old(self).wf(),
            op < 0x40,
            op % 8 == 1 || op % 8 == 3,
        ensures
            final(self).wf(),
            (final(self)@, r) == old(self)@.low_op(op),
            1 <= r <= 6,
            flags_clean(old(self).registers) ==> flags_clean(final(self).registers),
    {
        if op % 16 == 1 {
            self.load_pair(op)
        } else if op % 16 == 9 {
            self.add_hl(op)
        } else {
            self.step_pair(op)
        }
    }

    /// LD rr,nn.
    #[verifier::spinoff_prover]
    #[verifier::rlimit(100)]
    fn load_pair(&mut self, op: u8) -> (r: u8)
        requires
            old(self).wf(),
            op == 0x01 || op == 0x11 || op == 0x21 || op == 0x31,
        ensures
            final(self).wf(),
            (final(self)@, r) == old(self)@.low_op(op),
            1 <= r <= 6,
            flags_clean(old(self).registers) ==> flags_clean(final(self).registers),
    {
        let i = op / 16;
        let v = self.fetch_word();
        self.write_rr(i, v);
        3
    }

    /// ADD HL,rr.
    #[verifier::spinoff_prover]
    #[verifier::rlimit(100)]
    fn add_hl(&mut self, op: u8) -> (r: u8)
        requires
            old(self).wf(),
            op == 0x09 || op == 0x19 || op == 0x29 || op == 0x39,
        ensures
            final(self).wf(),
            (final(self)@, r) == old(self)@.low_op(op),
            1 <= r <= 6,
            flags_clean(old(self).registers) ==> flags_clean(final(self).registers),
    {
        let i = op / 16;
        let v = self.read_rr(i);
        self.registers.alu_add16(v);
        2
    }

    /// INC rr and DEC rr.
    fn step_pair(&mut self, op: u8) -> (r: u8)
        requires
            old(self).wf(),
            op < 0x40,
            op % 8 == 3,
        ensures
            final(self).wf(),
            (final(self)@, r) == old(self)@.low_op(op),
            1 <= r <= 6,
            flags_clean(old(self).registers) ==> flags_clean(final(self).registers),
    {
        if op % 16 == 3 {
            proof {
                lemma_inc_pair_op(self@, op);
            }
            self.inc_pair(op)
        } else {
            proof {
                lemma_dec_pair_op(self@, op);
            }
            self.dec_pair(op)
        }
    }

    /// INC rr.
    #[verifier::spinoff_prover]
    #[verifier::rlimit(100)]
    fn inc_pair(&mut self, op: u8) -> (r: u8)
        requires
            old(self).wf(),
            op == 0x03 || op == 0x13 || op == 0x23 || op == 0x33,
        ensures
            final(self).wf(),
            final(self)@ == old(self)@.set_rr(op / 16, wrap16(old(self)@.rr(op / 16) + 1)),
            r == 2,
            1 <= r <= 6,
            flags_clean(old(self).registers) ==> flags_clean(final(self).registers),
    {
        if op == 0x03 {
            let v = self.registers.bc();
            self.registers.set_bc(v.wrapping_add(1));
        } else if op == 0x13 {
            let v = self.registers.de();
            self.registers.set_de(v.wrapping_add(1));
        } else if op == 0x23 {
            let v = self.registers.hl();
            self.registers.set_hl(v.wrapping_add(1));
        } else {
            self.registers.sp = self.registers.sp.wrapping_add(1);
        }
        2
    }

    /// DEC rr.
    #[verifier::spinoff_prover]
    #[verifier::rlimit(100)]
    fn dec_pair(&mut self, op: u8) -> (r: u8)
        requires
            old(self).wf(),
            op == 0x0B || op == 0x1B || op == 0x2B || op == 0x3B,
        ensures
            final(self).wf(),
            final(self)@ == old(self)@.set_rr(op / 16, wrap16(old(self)@.rr(op / 16) - 1)),
            r == 2,
            1 <= r <= 6,
            flags_clean(old(self).registers) ==> flags_clean(final(self).registers),
    {
        if op == 0x0B {
            let v = self.registers.bc();
            self.registers.set_bc(v.wrapping_sub(1));
        } else if op == 0x1B {
            let v = self.registers.de();
            self.registers.set_de(v.wrapping_sub(1));
        } else if op == 0x2B {
            let v = self.registers.hl();
            self.registers.set_hl(v.wrapping_sub(1));
        } else {
            self.registers.sp = self.registers.sp.wrapping_sub(1);
        }
        2
    }

    /// LD (BC),A, LD (DE),A, LD (HL+),A and LD (HL-),A.
    #[verifier::spinoff_prover]
    #[verifier::rlimit(100)]
    fn store_a(&mut self, op: u8) -> (r: u8)
        requires
            old(self).wf(),
            op < 0x40,
            op % 16 == 2,
        ensures
            final(self).wf(),
            (final(self)@, r) == old(self)@.low_op(op),
            1 <= r <= 6,
            flags_clean(old(self).registers) ==> flags_clean(final(self).registers),
    {
        if op == 0x02 {
            let a = self.registers.bc();
            self.write_byte(a, self.registers.a);
        } else if op == 0x12 {
            let a = self.registers.de();
            self.write_byte(a, self.registers.a);
        } else if op == 0x22 {
            let a = self.registers.hli();
            self.write_byte(a, self.registers.a);
        } else {
            let a = self.registers.hld();
            self.write_byte(a, self.registers.a);
        }
        2
    }

    /// LD A,(BC), LD A,(DE), LD A,(HL+) and LD A,(HL-).
    #[verifier::spinoff_prover]
    #[verifier::rlimit(100)]
    fn load_a(&mut self, op: u8) -> (r: u8)
        requires
            old(self).wf(),
            op < 0x40,
            op % 16 == 10,
        ensures
            final(self).wf(),
            (final(self)@, r) == old(self)@.low_op(op),
            1 <= r <= 6,
            flags_clean(old(self).registers) ==> flags_clean(final(self).registers),
    {
        if op == 0x0A {
            self.registers.a = self.read_byte(self.registers.bc());
        } else if op == 0x1A {
            self.registers.a = self.read_byte(self.registers.de());
        } else if op == 0x2A {
            let a = self.registers.hli();
            self.registers.a = self.read_byte(a);
        } else {
            let a = self.registers.hld();
            self.registers.a = self.read_byte(a);
        }
        2
    }

    /// INC, DEC and LD of an 8-bit operand.
    #[verifier::spinoff_prover]
    #[verifier::rlimit(100)]
    fn low_r8(&mut self, op: u8) -> (r: u8)
        requires
            old(self).wf(),
            op < 0x40,
            4 <= op % 8 <= 6,
        ensures
            final(self).wf(),
            (final(self)@, r) == old(self)@.low_op(op),
            1 <= r <= 6,
            flags_clean(old(self).registers) ==> flags_clean(final(self).registers),
    {
        let y = op / 8;
        let z = op % 8;
        if z == 4 {
            let v = self.read_r8(y);
            let r = self.registers.alu_inc(v);
            self.write_r8(y, r);
            if y == 6 {
                3
            } else {
                1
            }
        } else if z == 5 {
            let v = self.read_r8(y);
            let r = self.registers.alu_dec(v);
            self.write_r8(y, r);
            if y == 6 {
                3
            } else {
                1
            }
        } else {
            let v = self.fetch_byte();
            self.write_r8(y, v);
            if y == 6 {
                3
            } else {
                2
            }
        }
    }

    /// Rotates of A, DAA, CPL, SCF and CCF.
    #[verifier::spinoff_prover]
    #[verifier::rlimit(100)]
    fn low_a(&mut self, op: u8) -> (r: u8)
        requires
            old(self).wf(),
            op < 0x40,
            op % 8 == 7,
        ensures
            final(self).wf(),
            (final(self)@, r) == old(self)@.low_op(op),
            1 <= r <= 6,
            flags_clean(old(self).registers) ==> flags_clean(final(self).registers),
    {
        let y = op / 8;
        let z = op % 8;
        let a = self.registers.a;
        let zf = self.registers.get_flag(Flag::Zero);
        let cf = self.registers.get_flag(Flag::Carry);
        if y == 0 {
            let r = self.registers.alu_rlc(a);
            self.registers.f = make_flags(false, false, false, a >= 128);
            self.registers.a = r;
        } else if y == 1 {
            let r = self.registers.alu_rrc(a);
            self.registers.f = make_flags(false, false, false, a % 2 == 1);
            self.registers.a = r;
        } else if y == 2 {
            let r = self.registers.alu_rl(a);
            self.registers.f = make_flags(false, false, false, a >= 128);
            self.registers.a = r;
        } else if y == 3 {
            let r = self.registers.alu_rr(a);
            self.registers.f = make_flags(false, false, false, a % 2 == 1);
            self.registers.a = r;
        } else if y == 4 {
            self.registers.alu_daa();
        } else if y == 5 {
            self.registers.a = !a;
            self.registers.f = make_flags(zf, true, true, cf);
        } else if y == 6 {
            self.registers.f = make_flags(zf, false, false, true);
        } else {
            self.registers.f = make_flags(zf, false, false, !cf);
        }
        1
    }

    /// POP into pair `i` of BC, DE, HL, AF; F keeps its low nibble clear.
    fn write_rr_stack(&mut self, i: u8, v: u16)
        requires
            old(self).wf(),
        ensures
            final(self).wf(),
            final(self)@ == old(self)@.set_rr_stack(i, v),
            i == 3 ==> flags_clean(final(self).registers),
            i != 3 ==> final(self).registers.f == old(self).registers.f,
    {
        if i == 3 {
            let w = v & 0xFFF0;
            self.registers.set_af(w);
        } else {
            self.write_rr(i, v);
        }
    }

    fn read_rr_stack(&self, i: u8) -> (r: u16)
        ensures
            r == self@.rr_stack(i),
    {
        if i == 3 {
            self.registers.af()
        } else {
            self.read_rr(i)
        }
    }

    /// CALL: pushes the address after the operand and jumps to the operand.
    fn call(&mut self)
        requires
            old(self).wf(),
        ensures
            final(self).wf(),
            final(self)@ == old(self)@.call(),
    {
        let target = self.fetch_word();
        let pc = self.registers.pc;
        self.push_stack(pc);
        self.registers.pc = target;
    }

    fn ret(&mut self)
        requires
            old(self).wf(),
        ensures
            final(self).wf(),
            final(self)@ == old(self)@.ret(),
    {
        self.registers.pc = self.pop_stack();
    }

    /// Opcodes 0xC0-0xFF but the CB prefix and the undefined ones.
    #[verifier::spinoff_prover]
    #[verifier::rlimit(100)]
    fn high_op(&mut self, op: u8) -> (r: u8)
        requires
            old(self).wf(),
            op >= 0xC0,
            op != 0xCB,
            !is_unknown_opcode(op),
        ensures
            final(self).wf(),
            (final(self)@, r) == old(self)@.high_op(op),
            1 <= r <= 6,
            flags_clean(old(self).registers) ==> flags_clean(final(self).registers),
    {
        let y = (op / 8) % 8;
        let z = op % 8;
        if z == 0 {
            if y < 4 {
                if self.cond(y) {
                    self.ret();
                    5
                } else {
                    2
                }
            } else if y == 4 {
                let n = self.fetch_byte();
                self.write_byte(0xFF00 + n as u16, self.registers.a);
                3
            } else if y == 5 {
                let e = self.fetch_byte();
                let sp = self.registers.sp;
                self.registers.sp = self.registers.alu_add16imm(sp, e);
                4
            } else if y == 6 {
                let n = self.fetch_byte();
                self.registers.a = self.read_byte(0xFF00 + n as u16);
                3
            } else {
                let e = self.fetch_byte();
                let sp = self.registers.sp;
                let r = self.registers.alu_add16imm(sp, e);
                self.registers.set_hl(r);
                3
            }
        } else if z == 1 {
            if y % 2 == 0 {
                let v = self.pop_stack();
                self.write_rr_stack(y / 2, v);
                3
            } else if y == 1 {
                self.ret();
                4
            } else if y == 3 {
                self.ret();
                self.ime = true;
                4
            } else if y == 5 {
                self.registers.pc = self.registers.hl();
                1
            } else {
                self.registers.sp = self.registers.hl();
                2
            }
        } else if z == 2 {
            if y < 4 {
                if self.cond(y) {
                    self.registers.pc = self.fetch_word();
                    4
                } else {
                    self.registers.pc = self.registers.pc.wrapping_add(2);
                    3
                }
            } else if y == 4 {
                self.write_byte(0xFF00 + self.registers.c as u16, self.registers.a);
                2
            } else if y == 5 {
                let a = self.fetch_word();
                self.write_byte(a, self.registers.a);
                4
            } else if y == 6 {
                self.registers.a = self.read_byte(0xFF00 + self.registers.c as u16);
                2
            } else {
                let a = self.fetch_word();
                self.registers.a = self.read_byte(a);
                4
            }
        } else if z == 3 {
            if y == 0 {
                self.registers.pc = self.fetch_word();
                4
            } else if y == 6 {
                self.ime = false;
                1
            } else {
                self.ime = true;
                1
            }
        } else if z == 4 {
            if self.cond(y) {
                self.call();
                6
            } else {
                self.registers.pc = self.registers.pc.wrapping_add(2);
                3
            }
        } else if z == 5 {
            if y % 2 == 0 {
                let v = self.read_rr_stack(y / 2);
                self.push_stack(v);
                4
            } else {
                self.call();
                6
            }
        } else if z == 6 {
            let v = self.fetch_byte();
            self.alu8(y, v);
            2
        } else {
            let pc = self.registers.pc;
            self.push_stack(pc);
            self.registers.pc = y as u16 * 8;
            4
        }
    }

    /// Services a pending interrupt, or ends HALT.
    pub fn handle_interrupt(&mut self)
        requires
            old(self).wf(),
            !interrupt_fault(
                old(self).ime,
                old(self).memory.interrupt_flags,
                old(self).memory.interrupt_enable,
            ),
        ensures
            final(self).wf(),
            old(self)@.interrupted() == Ok::<CpuView, Fault>(final(self)@),
            final(self).registers.f == old(self).registers.f,
    {
        let pending = self.memory.interrupt_flags & self.memory.interrupt_enable;
        if (self.ime || self.halt) && pending != 0 {
            self.halt = false;
            if self.ime {
                let n: u8 = if pending & 0x01 != 0 {
                    0
                } else if pending & 0x02 != 0 {
                    1
                } else if pending & 0x04 != 0 {
                    2
                } else if pending & 0x08 != 0 {
                    3
                } else if pending & 0x10 != 0 {
                    4
                } else {
                    5
                };
                self.ime = false;
                let pc = self.registers.pc;
                self.push_stack(pc);
                let mask: u8 = if n == 0 {
                    0x01
                } else if n == 1 {
                    0x02
                } else if n == 2 {
                    0x04
                } else if n == 3 {
                    0x08
                } else {
                    0x10
                };
                self.memory.interrupt_flags = self.memory.interrupt_flags & !mask;
                self.registers.pc = 0x40 + 8 * n as u16;
            }
        }
    }

    /// Services interrupts, runs one instruction (or idles four cycles in HALT) and
    /// advances the peripherals; returns the cycles charged.
    pub fn step(&mut self) -> (r: Result<u8, Fault>)
        requires
            old(self).wf(),
        ensures
            final(self).wf(),
            r matches Ok(n) ==> old(self)@.step() == Ok::<(CpuView, u8), Fault>((final(self)@, n)) && 4 <= n <= 24,
            r matches Err(e) ==> old(self)@.step() == Err::<(CpuView, u8), Fault>(e),
            r is Ok && flags_clean(old(self).registers) ==> flags_clean(final(self).registers),
    {
        proof {
            reveal(CpuView::step);
        }
        let pending = self.memory.interrupt_flags & self.memory.interrupt_enable;
        if self.ime && pending != 0 && pending & 0x1F == 0 {
            proof {
                assert(pending != 0 && pending & 0x1F == 0 ==> lowest_bit(pending) >= 5) by (bit_vector);
            }
            return Err(Fault::UnknownInterrupt);
        }
        proof {
            assert(pending & 0x1F != 0 ==> lowest_bit(pending) < 5) by (bit_vector);
        }
        self.handle_interrupt();
        if self.halt {
            self.memory.step(4);
            return Ok(4);
        }
        let opcode = self.fetch_byte();
        if opcode == 0xD3 || opcode == 0xDB || opcode == 0xDD || opcode == 0xE3 || opcode == 0xE4
            || opcode == 0xEB || opcode == 0xEC || opcode == 0xED || opcode == 0xF4 || opcode
            == 0xFC || opcode == 0xFD {
            return Err(Fault::UnknownOpcode(opcode));
        }
        let n = self.call_opcode(opcode);
        let cycles = n * 4;
        self.memory.step(cycles);
        Ok(cycles)
    }
}

} // verus!

verus! {

/// LD r1,r2 followed by LD r2,r1 leaves the state that LD r1,r2 alone leaves: the second
/// load copies back the value that is already there.
pub proof fn lemma_ld_transpose(c: CpuView, r1: u8, r2: u8)
    requires
        r1 < 8,
        r2 < 8,
        r1 != 6,
        r2 != 6,
    ensures
        ({
            let first = (0x40 + r1 * 8 + r2) as u8;
            let second = (0x40 + r2 * 8 + r1) as u8;
            match c.execute(first) {
                Ok((d, n)) => n == 1 && d.execute(second) == Ok::<(CpuView, u8), Fault>((d, 1)),
                Err(_) => false,
            }
        }),
{
    let first = (0x40 + r1 * 8 + r2) as u8;
    let second = (0x40 + r2 * 8 + r1) as u8;
    assert((first - 0x40) / 8 == r1 && first % 8 == r2);
    assert((second - 0x40) / 8 == r2 && second % 8 == r1);
    let d = c.set_r8(r1, c.r8(r2));
    assert(d.r8(r1) == c.r8(r2));
    assert(d.r8(r2) == c.r8(r2));
    assert(d.set_r8(r2, d.r8(r1)) == d);
}

#[verifier::spinoff_prover]
#[verifier::rlimit(100)]
proof fn lemma_pop_af(c: CpuView)
    ensures
        c.high_op(0xF1).0 == c.popped().set_rr_stack(3, c.pop_value()),
{
}

#[verifier::spinoff_prover]
#[verifier::rlimit(100)]
proof fn lemma_push_af(c: CpuView)
    ensures
        c.high_op(0xF5).0 == c.push(c.registers.spec_af()),
{
}

/// POP AF then PUSH AF, with the stack in work RAM, leaves on the stack the popped word
/// with the low nibble of F cleared, and SP where it was.
pub proof fn lemma_pop_push_af(c: CpuView)
    requires
        0xC000 <= c.registers.sp < 0xDFFD,
    ensures
        ({
            let e = c.high_op(0xF1).0.high_op(0xF5).0;
            &&& e.registers.sp == c.registers.sp
            &&& e.memory.read_word(e.registers.sp) == c.pop_value() & 0xFFF0
        }),
{
    let pv = c.pop_value();
    let w = pv & 0xFFF0;
    lemma_pop_af(c);
    let d = c.high_op(0xF1).0;
    assert(d.registers.spec_af() == w) by {
        let hi = (w / 256) as u8;
        let lo = (w % 256) as u8;
        assert(lo & 0xF0 == lo && hi as int * 256 + lo as int == w) by (bit_vector)
            requires
                w == pv & 0xFFF0,
                hi == (w / 256) as u8,
                lo == (w % 256) as u8,
        ;
    }
    lemma_push_af(d);
    crate::memory::lemma_wram_word(d.memory, c.registers.sp, w);
}

/// BIT n,r changes F alone: the operand, the other registers and memory keep their values.
pub proof fn lemma_bit_keeps_operand(c: CpuView)
    requires
        0x40 <= c.imm8() < 0x80,
    ensures
        ({
            let d = c.cb_op().0;
            &&& d.memory == c.memory
            &&& d.registers == (Registers {
                f: d.registers.f,
                pc: wrap16(c.registers.pc + 1),
                ..c.registers
            })
            &&& d.r8(c.imm8() % 8) == c.r8(c.imm8() % 8)
        }),
{
}

#[verifier::spinoff_prover]
#[verifier::rlimit(100)]
proof fn lemma_inc_pair_op(c: CpuView, op: u8)
    requires
        op == 0x03 || op == 0x13 || op == 0x23 || op == 0x33,
    ensures
        c.low_op(op) == (c.set_rr(op / 16, wrap16(c.rr(op / 16) + 1)), 2u8),
{
    assert(op % 8 == 3 && op / 8 / 2 == op / 16);
}

#[verifier::spinoff_prover]
#[verifier::rlimit(100)]
proof fn lemma_dec_pair_op(c: CpuView, op: u8)
    requires
        op == 0x0B || op == 0x1B || op == 0x2B || op == 0x3B,
    ensures
        c.low_op(op) == (c.set_rr(op / 16, wrap16(c.rr(op / 16) - 1)), 2u8),
{
    assert(op % 8 == 3 && op / 8 / 2 == op / 16);
}

/// A step with no interrupt to service and no HALT runs the instruction at PC and then
/// advances the peripherals by its cycles.
pub proof fn lemma_step_runs_instruction(c: CpuView)
    requires
        !c.ime,
        !c.halt,
        !is_unknown_opcode(c.imm8()),
    ensures
        ({
            let (d, n) = c.advance(1).execute(c.imm8())->Ok_0;
            c.step() == Ok::<(CpuView, u8), Fault>(
                (d.with_mem(d.memory.step((n * 4) as u8)), (n * 4) as u8),
            )
        }),
{
    reveal(CpuView::step);
}

#[verifier::spinoff_prover]
#[verifier::rlimit(100)]
proof fn lemma_ld_op(a: CpuView, r1: u8, r2: u8)
    requires
        r1 < 8,
        r2 < 8,
        r1 != 6,
        r2 != 6,
    ensures
        a.execute((0x40 + r1 * 8 + r2) as u8) == Ok::<(CpuView, u8), Fault>(
            (a.set_r8(r1, a.r8(r2)), 1u8),
        ),
{
    let op = (0x40 + r1 * 8 + r2) as u8;
    assert((op - 0x40) / 8 == r1 && op % 8 == r2);
}

/// LD r1,r2 then LD r2,r1 as two steps of the machine (no interrupt enabled): the first
/// copies r2 into r1, the second changes no register but PC.
#[verifier::spinoff_prover]
#[verifier::rlimit(100)]
pub proof fn lemma_ld_transpose_steps(c: CpuView, r1: u8, r2: u8)
    requires
        r1 < 8,
        r2 < 8,
        r1 != 6,
        r2 != 6,
        !c.ime,
        !c.halt,
        c.imm8() == (0x40 + r1 * 8 + r2) as u8,
    ensures
        ({
            match c.step() {
                Ok((d, n)) => {
                    &&& n == 4
                    &&& d.registers == (Registers {
                        pc: wrap16(c.registers.pc + 1),
                        ..c.set_r8(r1, c.r8(r2)).registers
                    })
                    &&& d.imm8() == (0x40 + r2 * 8 + r1) as u8 ==> match d.step() {
                        Ok((e, m)) => m == 4 && e.registers == (Registers {
                            pc: wrap16(d.registers.pc + 1),
                            ..d.registers
                        }),
                        Err(_) => false,
                    }
                },
                Err(_) => false,
            }
        }),
{
    let first = (0x40 + r1 * 8 + r2) as u8;
    let second = (0x40 + r2 * 8 + r1) as u8;
    assert(!is_unknown_opcode(first));
    assert(!is_unknown_opcode(second));
    lemma_step_runs_instruction(c);
    let a = c.advance(1);
    lemma_ld_op(a, r1, r2);
    let d0 = a.set_r8(r1, a.r8(r2));
    let d = d0.with_mem(d0.memory.step(4));
    assert(d.registers == d0.registers);
    if d.imm8() == second {
        lemma_step_runs_instruction(d);
        let b = d.advance(1);
        lemma_ld_op(b, r2, r1);
        assert(b.r8(r1) == b.r8(r2));
        assert(b.set_r8(r2, b.r8(r1)).registers == b.registers);
    }
}

#[verifier::spinoff_prover]
#[verifier::rlimit(100)]
proof fn lemma_execute_af(a: CpuView)
    ensures
        a.execute(0xF1) == Ok::<(CpuView, u8), Fault>((a.high_op(0xF1).0, 3u8)),
        a.execute(0xF5) == Ok::<(CpuView, u8), Fault>((a.high_op(0xF5).0, 4u8)),
{
}

/// POP AF then PUSH AF as two steps of the machine (no interrupt enabled, the stack in
/// work RAM): SP ends where it was, and the stack holds the popped word with F's low
/// nibble cleared.
#[verifier::spinoff_prover]
#[verifier::rlimit(100)]
pub proof fn lemma_pop_push_af_steps(c: CpuView)
    requires
        !c.ime,
        !c.halt,
        c.imm8() == 0xF1,
        0xC000 <= c.registers.sp < 0xDFFD,
    ensures
        ({
            match c.step() {
                Ok((d, n)) => d.imm8() == 0xF5 ==> match d.step() {
                    Ok((e, m)) => {
                        &&& e.registers.sp == c.registers.sp
                        &&& e.memory.read_word(e.registers.sp) == c.pop_value() & 0xFFF0
                    },
                    Err(_) => false,
                },
                Err(_) => false,
            }
        }),
{
    lemma_step_runs_instruction(c);
    let a = c.advance(1);
    lemma_execute_af(a);
    lemma_pop_af(a);
    let d0 = a.high_op(0xF1).0;
    let d = d0.with_mem(d0.memory.step(12));
    if d.imm8() == 0xF5 {
        lemma_step_runs_instruction(d);
        let b = d.advance(1);
        lemma_execute_af(b);
        lemma_push_af(b);
        let pv = c.pop_value();
        let w = pv & 0xFFF0;
        assert(b.registers.spec_af() == w) by {
            let hi = (w / 256) as u8;
            let lo = (w % 256) as u8;
            assert(lo & 0xF0 == lo && hi as int * 256 + lo as int == w) by (bit_vector)
                requires
                    w == pv & 0xFFF0,
                    hi == (w / 256) as u8,
                    lo == (w % 256) as u8,
            ;
        }
        let e0 = b.high_op(0xF5).0;
        crate::memory::lemma_wram_word(b.memory, c.registers.sp, w);
        crate::memory::lemma_step_keeps_wram(e0.memory, 16, c.registers.sp);
    }
}

} // verus!
