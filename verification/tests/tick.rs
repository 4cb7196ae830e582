use chip8::{Core, ErrorKind, Fault, Status};

fn loaded(rom: &[u8]) -> Core {
    let mut core = Core::new();
    assert_eq!(core.load_rom(&rom.to_vec()), Ok(()));
    core
}

#[test]
fn fetch_reads_big_endian_and_advances() {
    let mut core = loaded(&[0x12, 0x34, 0xAB, 0xCD]);
    assert_eq!(core.fetch(), Ok(0x1234));
    assert_eq!(core.pc(), 0x202);
    assert_eq!(core.fetch(), Ok(0xABCD));
    assert_eq!(core.pc(), 0x204);
    assert_eq!(core.fetch(), Ok(0x0000));
}

#[test]
fn fetch_at_the_end_of_memory() {
    let mut core = Core::new();
    let mut rom = vec![0u8; 0xE00];
    rom[0xDFE] = 0x6A;
    rom[0xDFF] = 0xBC;
    assert_eq!(core.load_rom(&rom), Ok(()));
    core.op_jp(0x1FFE);
    assert_eq!(core.fetch(), Ok(0x6ABC));
    assert_eq!(core.pc(), 0x1000);
    assert_eq!(core.fetch(), Err(ErrorKind::OutOfBoundsAccess));
    assert_eq!(core.pc(), 0x1000);
    core.op_jp(0x1FFF);
    assert_eq!(core.fetch(), Err(ErrorKind::OutOfBoundsAccess));
    assert_eq!(core.pc(), 0xFFF);
}

#[test]
fn tick_executes_one_instruction() {
    let mut core = loaded(&[0x60, 0x05, 0x61, 0x0A, 0x80, 0x14]);
    core.tick();
    assert_eq!(core.pc(), 0x202);
    assert_eq!(core.registers()[0], 5);
    assert_eq!(core.registers()[1], 0);
    core.tick();
    core.tick();
    assert_eq!(core.pc(), 0x206);
    assert_eq!(core.registers()[0], 15);
    assert_eq!(core.registers()[0xF], 0);
    assert_eq!(core.status(), Status::Running);
}

#[test]
fn tick_with_delay_timer_at_zero_leaves_it_at_zero() {
    let mut core = loaded(&[0x12, 0x00]);
    assert_eq!(core.dt(), 0);
    core.tick();
    assert_eq!(core.dt(), 0);
    assert_eq!(core.st(), 0);
    assert_eq!(core.status(), Status::Running);
}

#[test]
fn tick_with_delay_timer_at_one_brings_it_to_zero() {
    let mut core = loaded(&[0x12, 0x00]);
    core.op_ld(0x6001);
    core.op_lddt_reg(0xF015);
    assert_eq!(core.dt(), 1);
    core.tick();
    assert_eq!(core.dt(), 0);
    core.tick();
    assert_eq!(core.dt(), 0);
}

#[test]
fn both_timers_count_down_once_per_tick() {
    let mut core = loaded(&[0x12, 0x00]);
    core.op_ld(0x6003);
    core.op_lddt_reg(0xF015);
    core.op_ld(0x6002);
    core.op_ldst_reg(0xF018);
    core.tick();
    assert_eq!((core.dt(), core.st()), (2, 1));
    core.tick();
    assert_eq!((core.dt(), core.st()), (1, 0));
    core.tick();
    assert_eq!((core.dt(), core.st()), (0, 0));
    core.tick();
    assert_eq!((core.dt(), core.st()), (0, 0));
}

#[test]
fn timer_set_by_the_instruction_counts_down_in_the_same_tick() {
    let mut core = loaded(&[0x60, 0x09, 0xF0, 0x15, 0xF1, 0x07]);
    core.tick();
    core.tick();
    assert_eq!(core.dt(), 8);
    core.tick();
    assert_eq!(core.registers()[1], 8);
    assert_eq!(core.dt(), 7);
}

#[test]
fn tick_timers_alone() {
    let mut core = Core::new();
    core.op_ld(0x60FF);
    core.op_lddt_reg(0xF015);
    core.tick_timers();
    assert_eq!((core.dt(), core.st()), (254, 0));
    assert_eq!(core.pc(), 0x200);
}

#[test]
fn unknown_instruction_halts_with_a_report() {
    let mut core = loaded(&[0x60, 0x05, 0xFF, 0xFF]);
    core.op_ld(0x6104);
    core.op_lddt_reg(0xF115);
    core.tick();
    assert_eq!(core.dt(), 3);
    core.tick();
    let fault = Fault { kind: ErrorKind::DecodeFailure, address: 0x202, opcode: Some(0xFFFF) };
    assert_eq!(core.status(), Status::Halted { fault });
    assert_eq!(core.pc(), 0x202);
    assert_eq!(core.dt(), 3);
    let registers = *core.registers();
    core.tick();
    core.tick();
    assert_eq!(core.status(), Status::Halted { fault });
    assert_eq!(core.pc(), 0x202);
    assert_eq!(core.dt(), 3);
    assert_eq!(*core.registers(), registers);
}

#[test]
fn zero_word_is_no_instruction() {
    let mut core = Core::new();
    core.tick();
    let fault = Fault { kind: ErrorKind::DecodeFailure, address: 0x200, opcode: Some(0x0000) };
    assert_eq!(core.status(), Status::Halted { fault });
}

#[test]
fn stack_faults_halt_the_machine() {
    let mut core = loaded(&[0x00, 0xEE]);
    core.tick();
    let fault = Fault { kind: ErrorKind::StackUnderflow, address: 0x200, opcode: Some(0x00EE) };
    assert_eq!(core.status(), Status::Halted { fault });

    // a subroutine that calls itself
    let mut core = loaded(&[0x22, 0x00]);
    for _ in 0..15 {
        core.tick();
        assert_eq!(core.status(), Status::Running);
    }
    assert_eq!(core.sp(), 15);
    core.tick();
    let fault = Fault { kind: ErrorKind::StackOverflow, address: 0x200, opcode: Some(0x2200) };
    assert_eq!(core.status(), Status::Halted { fault });
    assert_eq!(core.sp(), 15);
    assert_eq!(core.pc(), 0x200);
}

#[test]
fn running_off_the_end_of_memory_halts() {
    let mut core = loaded(&[0x1F, 0xFF]);
    core.tick();
    assert_eq!(core.pc(), 0xFFF);
    core.tick();
    let fault = Fault { kind: ErrorKind::OutOfBoundsAccess, address: 0xFFF, opcode: None };
    assert_eq!(core.status(), Status::Halted { fault });
    assert_eq!(core.pc(), 0xFFF);
}

#[test]
fn out_of_bounds_draw_halts_with_display_untouched() {
    // V1 = 31; I = 0; draw two rows at (V0, V1)
    let mut core = loaded(&[0x61, 0x1F, 0xA0, 0x00, 0xD0, 0x12]);
    core.tick();
    core.tick();
    core.tick();
    let fault = Fault { kind: ErrorKind::OutOfBoundsAccess, address: 0x204, opcode: Some(0xD012) };
    assert_eq!(core.status(), Status::Halted { fault });
    assert_eq!(*core.frame_buffer(), [0u8; 256]);
}

#[test]
fn key_wait_suspends_until_a_key_is_pressed() {
    let mut core = loaded(&[0xF3, 0x0A, 0x60, 0x01]);
    core.op_ld(0x6505);
    core.op_lddt_reg(0xF515);
    core.tick();
    assert_eq!(core.status(), Status::AwaitingKey { register: 3 });
    assert_eq!(core.pc(), 0x202);
    assert_eq!(core.dt(), 4);
    core.tick();
    core.tick();
    assert_eq!(core.status(), Status::AwaitingKey { register: 3 });
    assert_eq!(core.pc(), 0x202);
    assert_eq!(core.registers()[0], 0);
    assert_eq!(core.dt(), 2);

    core.clear_key(4);
    assert_eq!(core.status(), Status::AwaitingKey { register: 3 });
    core.set_key(0xB);
    assert_eq!(core.status(), Status::Running);
    assert_eq!(core.registers()[3], 0xB);
    assert_eq!(core.key_state(), 0x0800);
    core.tick();
    assert_eq!(core.registers()[0], 1);
    assert_eq!(core.pc(), 0x204);
}

#[test]
fn a_key_held_before_the_wait_is_no_press() {
    let mut core = loaded(&[0xF3, 0x0A]);
    core.set_key(9);
    core.tick();
    assert_eq!(core.status(), Status::AwaitingKey { register: 3 });
    core.set_key(9);
    assert_eq!(core.status(), Status::AwaitingKey { register: 3 });
    assert_eq!(core.registers()[3], 0);
    core.clear_key(9);
    assert_eq!(core.status(), Status::AwaitingKey { register: 3 });
    core.set_key(9);
    assert_eq!(core.status(), Status::Running);
    assert_eq!(core.registers()[3], 9);
}

#[test]
fn key_zero_ends_a_wait_too() {
    let mut core = Core::new();
    core.op_ld(0x6C77);
    core.op_ldreg_key(0xFC0A);
    assert_eq!(core.status(), Status::AwaitingKey { register: 0xC });
    core.set_key(0);
    assert_eq!(core.status(), Status::Running);
    assert_eq!(core.registers()[0xC], 0);
    assert_eq!(core.key_state(), 1);
}

#[test]
fn set_and_clear_key_change_one_bit() {
    let mut core = Core::new();
    core.set_key(0);
    core.set_key(15);
    core.set_key(4);
    assert_eq!(core.key_state(), 0x8011);
    core.set_key(4);
    assert_eq!(core.key_state(), 0x8011);
    core.clear_key(15);
    assert_eq!(core.key_state(), 0x0011);
    core.clear_key(15);
    core.clear_key(3);
    assert_eq!(core.key_state(), 0x0011);
    assert_eq!(*core.registers(), [0u8; 16]);
}

#[test]
fn soft_reset_restarts_and_keeps_the_program() {
    let mut core = loaded(&[0x6A, 0x11, 0xAF, 0x00, 0x22, 0x08, 0x00, 0x00, 0xD0, 0x05, 0xFF, 0xFF]);
    core.op_ld(0x6B07);
    core.op_lddt_reg(0xFB15);
    core.set_key(2);
    core.tick();
    core.tick();
    core.tick();
    core.op_ldi(0xA000);
    core.tick();
    core.tick();
    assert!(matches!(core.status(), Status::Halted { .. }));
    assert_eq!(core.sp(), 1);
    assert!(core.frame_buffer().iter().any(|b| *b != 0));
    let memory = *core.memory();
    let registers = *core.registers();
    let dt = core.dt();

    core.soft_reset();
    assert_eq!(core.pc(), 0x200);
    assert_eq!(core.i(), 0);
    assert_eq!(core.sp(), 0);
    assert_eq!(*core.frame_buffer(), [0u8; 256]);
    assert_eq!(core.status(), Status::Running);
    assert_eq!(*core.memory(), memory);
    assert_eq!(*core.registers(), registers);
    assert_eq!(core.dt(), dt);
    assert_eq!(core.key_state(), 0x0004);
    core.tick();
    assert_eq!(core.pc(), 0x202);
}

#[test]
fn execute_refuses_words_outside_the_table() {
    let mut core = Core::new();
    for word in [
        0x0000u16, 0x00E1, 0x00EF, 0x01E0, 0x0123, 0x5001, 0x512F, 0x8008, 0x812D, 0x812F, 0x9001,
        0x912E, 0xE000, 0xE19F, 0xE1A0, 0xF000, 0xF108, 0xF10B, 0xF134, 0xF156, 0xF166, 0xFFFF,
    ] {
        assert_eq!(core.execute(word), Err(ErrorKind::DecodeFailure));
    }
    assert_eq!(core.pc(), 0x200);
    assert_eq!(*core.registers(), [0u8; 16]);
    assert_eq!(core.status(), Status::Running);
}
