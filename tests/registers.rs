use rusty_boy_core::registers::{Flag, Registers};

#[test]
fn test_default_values_registers() {
    let registers = Registers::new();
    assert_eq!(registers.a, 0x01);
    assert_eq!(registers.b, 0x00);
    assert_eq!(registers.c, 0x13);
    assert_eq!(registers.d, 0x00);
    assert_eq!(registers.e, 0xd8);
    assert_eq!(registers.h, 0x01);
    assert_eq!(registers.l, 0x4d);
    assert_eq!(registers.f, 0xb0);
    assert_eq!(registers.sp, 0xfffe);
    assert_eq!(registers.pc, 0x0100);
}

#[test]
fn test_registers_get_bc() {
    let mut registers = Registers::new();
    registers.b = 0x12;
    registers.c = 0x34;
    assert_eq!(registers.bc(), 0x1234);
}

#[test]
fn test_registers_get_de() {
    let mut registers = Registers::new();
    registers.d = 0x12;
    registers.e = 0x34;
    assert_eq!(registers.de(), 0x1234);
}

#[test]
fn test_registers_get_hl() {
    let mut registers = Registers::new();
    registers.h = 0x12;
    registers.l = 0x34;
    assert_eq!(registers.hl(), 0x1234);
}

#[test]
fn test_registers_get_af() {
    let mut registers = Registers::new();
    registers.a = 0x12;
    registers.f = 0x34;
    assert_eq!(registers.af(), 0x1234);
}

#[test]
fn test_registers_fn_hli() {
    let mut registers = Registers::new();
    registers.h = 0x12;
    registers.l = 0x34;
    assert_eq!(registers.hli(), 0x1234);
    assert_eq!(registers.hl(), 0x1235);
}

#[test]
fn test_registers_fn_hld() {
    let mut registers = Registers::new();
    registers.h = 0x12;
    registers.l = 0x34;
    assert_eq!(registers.hld(), 0x1234);
    assert_eq!(registers.hl(), 0x1233);
}

#[test]
fn test_registers_set_bc() {
    let mut registers = Registers::new();
    registers.set_bc(0x1234);
    assert_eq!(registers.b, 0x12);
    assert_eq!(registers.c, 0x34);
}

#[test]
fn test_registers_set_de() {
    let mut registers = Registers::new();
    registers.set_de(0x1234);
    assert_eq!(registers.d, 0x12);
    assert_eq!(registers.e, 0x34);
}

#[test]
fn test_registers_set_hl() {
    let mut registers = Registers::new();
    registers.set_hl(0x1234);
    assert_eq!(registers.h, 0x12);
    assert_eq!(registers.l, 0x34);
}

#[test]
fn test_registers_set_af() {
    let mut registers = Registers::new();
    registers.set_af(0x1234);
    assert_eq!(registers.a, 0x12);
    assert_eq!(registers.f, 0x30);
}

#[test]
fn hl_wraps_at_both_ends() {
    let mut registers = Registers::new();
    registers.set_hl(0xFFFF);
    assert_eq!(registers.hli(), 0xFFFF);
    assert_eq!(registers.hl(), 0x0000);
    assert_eq!(registers.hld(), 0x0000);
    assert_eq!(registers.hl(), 0xFFFF);
}

#[test]
fn flags_set_and_read_back() {
    let mut registers = Registers::new();
    registers.f = 0x00;
    registers.set_flag(Flag::Zero, true);
    assert_eq!(registers.f, 0x80);
    assert!(registers.get_flag(Flag::Zero));
    registers.set_flag(Flag::Zero, false);
    assert_eq!(registers.f, 0x00);
    registers.f = 0xb0;
    assert!(registers.get_flag(Flag::Zero));
    assert!(!registers.get_flag(Flag::Sub));
    assert!(registers.get_flag(Flag::HalfCarry));
    assert!(registers.get_flag(Flag::Carry));
}
