#![allow(non_snake_case)]

use chip8::cpu::Chip8;

// helper function for automating rom loading
fn make_chip8_and_load_rom() -> Chip8 {
    let mut chip8 = Chip8::new();

    // just some arbitrary values for testing
    let rom: [u8; 7] = [0xFF, 0xFF, 0xFF, 0xFF, 0x80, 0x70, 0x10];
    chip8.load_rom(&rom).unwrap();

    chip8
}

#[test]
fn chip8_test_new_chip8() {
    let chip8 = Chip8::new();

    assert_eq!(chip8.i, 0);
    assert_eq!(chip8.stack.len(), 16);
    assert_eq!(chip8.v[0], 0);

    // test that some of the fonts are in the proper location
    assert_eq!(chip8.ram[0], 0xF0);
    assert_eq!(chip8.ram[9], 0x70);
    assert_eq!(chip8.ram[79], 0x80);
}

#[test]
fn chip8_test_load_rom() {
    let chip8 = make_chip8_and_load_rom();

    assert_eq!(chip8.ram[0x200], 0xFF);
    assert_eq!(chip8.ram[0x206], 0x10);
    assert_eq!(chip8.ram[0x207], 0);
}

#[test]
fn chip8_test_get_opcode() {
    let mut chip8 = make_chip8_and_load_rom();

    assert_eq!(chip8.get_opcode(), 0xFFFF);
}

#[test]
fn chip8_test_2nnn_and_00EE() {
    let mut chip8 = Chip8::new();

    // jump to subroutine at 0x205
    chip8.run_opcode(0x2205).unwrap();
    assert_eq!(chip8.pc, 0x205);
    assert_eq!(chip8.stack[1], 0x202);

    chip8.run_opcode(0x00EE).unwrap();
    assert_eq!(chip8.pc, 0x202);
    assert_eq!(chip8.sp, 0);
}

#[test]
fn chip8_test_1nnn() {
    let mut chip8 = Chip8::new();

    chip8.run_opcode(0x1FFF).unwrap();
    assert_eq!(chip8.pc, 0xFFF);
}

#[test]
fn chip8_test_3xkk_and_4xkk() {
    let mut chip8 = Chip8::new();
    chip8.v[0] = 2;

    // not equal
    chip8.run_opcode(0x3003).unwrap();
    // shouldn't skip
    assert_eq!(chip8.pc, 0x202);

    // equal
    chip8.run_opcode(0x3002).unwrap();
    // should skip
    assert_eq!(chip8.pc, 0x206);

    // not equal
    chip8.run_opcode(0x4003).unwrap();
    // should skip
    assert_eq!(chip8.pc, 0x20a);

    // equal
    chip8.run_opcode(0x4002).unwrap();
    // shouldn't skip
    assert_eq!(chip8.pc, 0x20c);
}

#[test]
fn chip8_test_5xy0() {
    let mut chip8 = Chip8::new();
    chip8.v[0] = 5;
    chip8.v[1] = 0;
    chip8.v[2] = 5;

    // not equal
    chip8.run_opcode(0x5010).unwrap();
    // shouldn't skip
    assert_eq!(chip8.pc, 0x202);

    // equal
    chip8.run_opcode(0x5020).unwrap();
    // should skip
    assert_eq!(chip8.pc, 0x206);
}
