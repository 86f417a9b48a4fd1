use rusty_boy_core::gameboy::Gameboy;
use rusty_boy_core::registers::Registers;

fn machine() -> Gameboy {
    let mut rom = vec![0u8; 0x8000];
    rom[0x100] = 0xC3;
    rom[0x101] = 0x00;
    rom[0x102] = 0x01;
    Gameboy::new_from_data(&rom, true).unwrap()
}

fn regs_with(a: u8, f: u8) -> Registers {
    let mut r = Registers::new();
    r.a = a;
    r.f = f;
    r
}

#[test]
fn add_flags_truth_table() {
    for a in 0..=255u8 {
        for b in 0..=255u8 {
            for carry in [false, true] {
                let mut r = regs_with(a, if carry { 0x10 } else { 0 });
                r.alu_add(b, true);
                let c = carry as u16;
                let sum = a as u16 + b as u16 + c;
                assert_eq!(r.a, sum as u8);
                assert_eq!(r.f & 0x80 != 0, sum as u8 == 0);
                assert_eq!(r.f & 0x40, 0);
                assert_eq!(r.f & 0x20 != 0, (a & 0xF) as u16 + (b & 0xF) as u16 + c > 0xF);
                assert_eq!(r.f & 0x10 != 0, sum > 0xFF);
                assert_eq!(r.f & 0x0F, 0);
            }
        }
    }
}

#[test]
fn sub_and_cp_flags_truth_table() {
    for a in 0..=255u8 {
        for b in 0..=255u8 {
            let mut r = regs_with(a, 0x10);
            r.alu_sub(b, true);
            let diff = a as i16 - b as i16 - 1;
            assert_eq!(r.a, diff as u8);
            assert_eq!(r.f & 0x80 != 0, diff as u8 == 0);
            assert_eq!(r.f & 0x40, 0x40);
            assert_eq!(r.f & 0x20 != 0, (a & 0xF) < (b & 0xF) + 1);
            assert_eq!(r.f & 0x10 != 0, diff < 0);
            let mut q = regs_with(a, 0);
            q.alu_cp(b);
            assert_eq!(q.a, a);
            assert_eq!(q.f & 0x80 != 0, a == b);
            assert_eq!(q.f & 0x10 != 0, a < b);
        }
    }
}

#[test]
fn logic_flags() {
    let mut r = regs_with(0xF0, 0xF0);
    r.alu_and(0x0F);
    assert_eq!((r.a, r.f), (0x00, 0xA0));
    let mut r = regs_with(0xF0, 0xF0);
    r.alu_or(0x0F);
    assert_eq!((r.a, r.f), (0xFF, 0x00));
    let mut r = regs_with(0xFF, 0x00);
    r.alu_xor(0xFF);
    assert_eq!((r.a, r.f), (0x00, 0x80));
}

#[test]
fn inc_then_dec_restores() {
    for v in 0..=255u8 {
        let mut r = regs_with(0, 0x10);
        let up = r.alu_inc(v);
        assert_eq!(r.f & 0x20 != 0, v & 0x0F == 0x0F);
        assert_eq!(r.f & 0x10, 0x10);
        let down = r.alu_dec(up);
        assert_eq!(down, v);
        assert_eq!(r.f & 0x40, 0x40);
    }
}

#[test]
fn swap_is_involutive() {
    for v in 0..=255u8 {
        let mut r = regs_with(0, 0);
        let s = r.alu_swap(v);
        assert_eq!(s, (v >> 4) | (v << 4));
        assert_eq!(r.alu_swap(s), v);
    }
}

#[test]
fn rotates_and_shifts() {
    let mut r = regs_with(0, 0);
    assert_eq!(r.alu_rlc(0x85), 0x0B);
    assert_eq!(r.f, 0x10);
    assert_eq!(r.alu_rl(0x80), 0x01);
    assert_eq!(r.f, 0x10);
    assert_eq!(r.alu_rrc(0x01), 0x80);
    assert_eq!(r.alu_rr(0x01), 0x80);
    assert_eq!(r.alu_sla(0x80), 0x00);
    assert_eq!(r.f, 0x90);
    assert_eq!(r.alu_sra(0x81), 0xC0);
    assert_eq!(r.alu_srl(0x81), 0x40);
    assert_eq!(r.f, 0x10);
}

#[test]
fn daa_after_addition_and_subtraction() {
    let mut r = regs_with(0x45, 0);
    r.alu_add(0x38, false);
    r.alu_daa();
    assert_eq!(r.a, 0x83);
    assert_eq!(r.f & 0x10, 0);
    let mut r = regs_with(0x83, 0);
    r.alu_sub(0x38, false);
    r.alu_daa();
    assert_eq!(r.a, 0x45);
    let mut r = regs_with(0x99, 0);
    r.alu_add(0x01, false);
    r.alu_daa();
    assert_eq!(r.a, 0x00);
    assert_eq!(r.f & 0x90, 0x90);
}

#[test]
fn add16_and_offset_flags() {
    let mut r = Registers::new();
    r.f = 0x80;
    r.set_hl(0x0FFF);
    r.alu_add16(0x0001);
    assert_eq!(r.hl(), 0x1000);
    assert_eq!(r.f, 0xA0);
    r.set_hl(0xFFFF);
    r.alu_add16(0x0001);
    assert_eq!(r.hl(), 0x0000);
    assert_eq!(r.f, 0xB0);
    assert_eq!(r.alu_add16imm(0xFFF8, 0x08), 0x0000);
    assert_eq!(r.f, 0x30);
    assert_eq!(r.alu_add16imm(0x0005, 0xFE), 0x0003);
}

#[test]
fn bit_leaves_value_and_set_res_round_trip() {
    let mut gb = machine();
    gb.cpu.registers.b = 0x04;
    gb.cpu.registers.pc = 0xC000;
    // BIT 2,B ; SET 3,B ; RES 3,B
    for (i, byte) in [0xCBu8, 0x50, 0xCB, 0xD8, 0xCB, 0x98].iter().enumerate() {
        gb.cpu.memory.write(0xC000 + i as u16, *byte);
    }
    gb.cpu.step().unwrap();
    assert_eq!(gb.cpu.registers.b, 0x04);
    assert_eq!(gb.cpu.registers.f & 0xE0, 0x20);
    gb.cpu.step().unwrap();
    assert_eq!(gb.cpu.registers.b, 0x0C);
    gb.cpu.step().unwrap();
    assert_eq!(gb.cpu.registers.b, 0x04);
}

#[test]
fn pop_af_push_af_masks_low_nibble() {
    let mut gb = machine();
    gb.cpu.registers.sp = 0xC100;
    gb.cpu.memory.write_word(0xC100, 0x12FF);
    gb.cpu.registers.pc = 0xC000;
    gb.cpu.memory.write(0xC000, 0xF1);
    gb.cpu.memory.write(0xC001, 0xF5);
    assert_eq!(gb.cpu.step(), Ok(12));
    assert_eq!(gb.cpu.registers.af(), 0x12F0);
    assert_eq!(gb.cpu.step(), Ok(16));
    assert_eq!(gb.cpu.registers.sp, 0xC100);
    assert_eq!(gb.cpu.memory.read_word(0xC100), 0x12FF & 0xFFF0);
}

#[test]
fn register_transpose_loads() {
    let mut gb = machine();
    gb.cpu.registers.b = 0x11;
    gb.cpu.registers.c = 0x22;
    // LD B,C then LD C,B
    assert_eq!(gb.cpu.call_opcode(0x41), 1);
    assert_eq!(gb.cpu.call_opcode(0x48), 1);
    assert_eq!(gb.cpu.registers.b, 0x22);
    assert_eq!(gb.cpu.registers.c, 0x22);
    let before = gb.cpu.registers;
    assert_eq!(gb.cpu.call_opcode(0x48), 1);
    assert_eq!(gb.cpu.registers, before);
}

#[test]
fn conditional_branch_cycles() {
    let mut gb = machine();
    gb.cpu.registers.pc = 0xC000;
    gb.cpu.registers.f = 0x80;
    // JR NZ,+2 not taken, JR Z,+2 taken
    for (i, byte) in [0x20u8, 0x02, 0x28, 0x02].iter().enumerate() {
        gb.cpu.memory.write(0xC000 + i as u16, *byte);
    }
    assert_eq!(gb.cpu.step(), Ok(8));
    assert_eq!(gb.cpu.registers.pc, 0xC002);
    assert_eq!(gb.cpu.step(), Ok(12));
    assert_eq!(gb.cpu.registers.pc, 0xC006);
}

#[test]
fn call_and_ret() {
    let mut gb = machine();
    gb.cpu.registers.pc = 0xC000;
    gb.cpu.registers.sp = 0xD000;
    // CALL 0xC010 ; at 0xC010: RET
    for (i, byte) in [0xCDu8, 0x10, 0xC0].iter().enumerate() {
        gb.cpu.memory.write(0xC000 + i as u16, *byte);
    }
    gb.cpu.memory.write(0xC010, 0xC9);
    assert_eq!(gb.cpu.step(), Ok(24));
    assert_eq!(gb.cpu.registers.pc, 0xC010);
    assert_eq!(gb.cpu.memory.read_word(0xCFFE), 0xC003);
    assert_eq!(gb.cpu.step(), Ok(16));
    assert_eq!(gb.cpu.registers.pc, 0xC003);
    assert_eq!(gb.cpu.registers.sp, 0xD000);
}
