use chip8::{Core, ErrorKind};

#[test]
fn jp_sets_program_counter() {
    let mut core = Core::new();
    core.op_jp(0x1ABC);
    assert_eq!(core.pc(), 0xABC);
}

#[test]
fn jp_offset_adds_v0() {
    let mut core = Core::new();
    core.op_ld(0x60FF);
    core.op_jp_offset(0xBFFF);
    assert_eq!(core.pc(), 0x10FE);
    core.op_ld(0x6004);
    core.op_jp_offset(0xB300);
    assert_eq!(core.pc(), 0x304);
}

#[test]
fn call_pushes_and_ret_pops() {
    let mut core = Core::new();
    core.op_jp(0x1246);
    assert_eq!(core.op_call(0x2400), Ok(()));
    assert_eq!(core.pc(), 0x400);
    assert_eq!(core.sp(), 1);
    assert_eq!(core.stack()[1], 0x246);
    assert_eq!(core.op_ret(0x00EE), Ok(()));
    assert_eq!(core.pc(), 0x246);
    assert_eq!(core.sp(), 0);
}

#[test]
fn ret_after_call_resumes_after_the_call() {
    let mut core = Core::new();
    // 0x200: CALL 0x206; 0x202: LD V1, 7; 0x206: RET
    let rom = vec![0x22, 0x06, 0x61, 0x07, 0x00, 0x00, 0x00, 0xEE];
    assert_eq!(core.load_rom(&rom), Ok(()));
    core.tick();
    assert_eq!(core.pc(), 0x206);
    assert_eq!(core.sp(), 1);
    core.tick();
    assert_eq!(core.pc(), 0x202);
    assert_eq!(core.sp(), 0);
    core.tick();
    assert_eq!(core.registers()[1], 7);
}

#[test]
fn ret_on_empty_stack_is_underflow() {
    let mut core = Core::new();
    assert_eq!(core.op_ret(0x00EE), Err(ErrorKind::StackUnderflow));
    assert_eq!(core.pc(), 0x200);
    assert_eq!(core.sp(), 0);
    assert_eq!(core.execute(0x00EE), Err(ErrorKind::StackUnderflow));
}

#[test]
fn sixteenth_nested_call_is_overflow() {
    let mut core = Core::new();
    for depth in 1..=15u16 {
        assert_eq!(core.op_call(0x2300 + depth), Ok(()));
        assert_eq!(core.sp() as u16, depth);
    }
    let stack_before = *core.stack();
    assert_eq!(core.op_call(0x2444), Err(ErrorKind::StackOverflow));
    assert_eq!(core.sp(), 15);
    assert_eq!(core.pc(), 0x30F);
    assert_eq!(*core.stack(), stack_before);
    // the return addresses come back in reverse order
    for depth in (1..=15u16).rev() {
        assert_eq!(core.op_ret(0x00EE), Ok(()));
        let expected = if depth == 1 { 0x200 } else { 0x300 + depth - 1 };
        assert_eq!(core.pc(), expected);
    }
    assert_eq!(core.op_ret(0x00EE), Err(ErrorKind::StackUnderflow));
}

#[test]
fn se_skips_on_equal_immediate() {
    let mut core = Core::new();
    core.op_ld(0x6133);
    assert_eq!(core.op_se(0x3133), Ok(()));
    assert_eq!(core.pc(), 0x202);
    assert_eq!(core.op_se(0x3134), Ok(()));
    assert_eq!(core.pc(), 0x202);
}

#[test]
fn sne_skips_on_different_immediate() {
    let mut core = Core::new();
    core.op_ld(0x6133);
    assert_eq!(core.op_sne(0x4133), Ok(()));
    assert_eq!(core.pc(), 0x200);
    assert_eq!(core.op_sne(0x4134), Ok(()));
    assert_eq!(core.pc(), 0x202);
}

#[test]
fn sereg_and_snereg_compare_registers() {
    let mut core = Core::new();
    core.op_ld(0x6105);
    core.op_ld(0x6205);
    core.op_ld(0x6306);
    assert_eq!(core.op_sereg(0x5120), Ok(()));
    assert_eq!(core.pc(), 0x202);
    assert_eq!(core.op_sereg(0x5130), Ok(()));
    assert_eq!(core.pc(), 0x202);
    assert_eq!(core.op_snereg(0x9120), Ok(()));
    assert_eq!(core.pc(), 0x202);
    assert_eq!(core.op_snereg(0x9130), Ok(()));
    assert_eq!(core.pc(), 0x204);
}

#[test]
fn skip_beyond_sixteen_bits_is_refused() {
    let mut core = Core::new();
    core.op_ld(0x60FF);
    core.op_jp_offset(0xBFFF);
    assert_eq!(core.pc(), 0x10FE);
    let mut steps = 0;
    while core.pc() <= 0xFFFD {
        assert_eq!(core.skip_if(true), Ok(()));
        steps += 1;
    }
    assert_eq!(steps, (0xFFFE - 0x10FE) / 2);
    assert_eq!(core.pc(), 0xFFFE);
    assert_eq!(core.skip_if(false), Ok(()));
    assert_eq!(core.skip_if(true), Err(ErrorKind::OutOfBoundsAccess));
    assert_eq!(core.op_se(0x3000), Ok(()));
    assert_eq!(core.op_sne(0x4000), Err(ErrorKind::OutOfBoundsAccess));
    assert_eq!(core.pc(), 0xFFFE);
}

#[test]
fn skp_and_sknp_follow_the_key_state() {
    let mut core = Core::new();
    core.op_ld(0x6A07);
    assert!(!core.key_is_down(7));
    assert_eq!(core.op_skp(0xEA9E), Ok(()));
    assert_eq!(core.pc(), 0x200);
    assert_eq!(core.op_sknp(0xEAA1), Ok(()));
    assert_eq!(core.pc(), 0x202);

    core.set_key(7);
    assert!(core.key_is_down(7));
    assert_eq!(core.key_state(), 0x0080);
    assert_eq!(core.op_skp(0xEA9E), Ok(()));
    assert_eq!(core.pc(), 0x204);
    assert_eq!(core.op_sknp(0xEAA1), Ok(()));
    assert_eq!(core.pc(), 0x204);

    core.clear_key(7);
    assert_eq!(core.key_state(), 0);
    assert_eq!(core.op_skp(0xEA9E), Ok(()));
    assert_eq!(core.pc(), 0x204);
}

#[test]
fn key_numbers_above_fifteen_are_never_down() {
    let mut core = Core::new();
    for key in 0..16 {
        core.set_key(key);
    }
    assert_eq!(core.key_state(), 0xFFFF);
    core.op_ld(0x6310);
    assert!(!core.key_is_down(16));
    assert!(!core.key_is_down(255));
    assert_eq!(core.op_skp(0xE39E), Ok(()));
    assert_eq!(core.pc(), 0x200);
    assert_eq!(core.op_sknp(0xE3A1), Ok(()));
    assert_eq!(core.pc(), 0x202);
}
