use chip8::Core;

fn with_registers(values: &[(u16, u16)]) -> Core {
    let mut core = Core::new();
    for &(reg, value) in values {
        core.op_ld(0x6000 | (reg << 8) | value);
    }
    core
}

#[test]
fn ld_sets_register_to_immediate() {
    let mut core = Core::new();
    core.op_ld(0x6A42);
    assert_eq!(core.registers()[0xA], 0x42);
    for reg in 0..16 {
        if reg != 0xA {
            assert_eq!(core.registers()[reg], 0);
        }
    }
}

#[test]
fn add_immediate_wraps_without_touching_flag() {
    let mut core = with_registers(&[(3, 0xFE), (0xF, 0x77)]);
    core.op_add(0x7305);
    assert_eq!(core.registers()[3], 0x03);
    assert_eq!(core.registers()[0xF], 0x77);
    core.op_add(0x7310);
    assert_eq!(core.registers()[3], 0x13);
}

#[test]
fn ldreg_copies_vy_into_vx() {
    let mut core = with_registers(&[(1, 0x11), (2, 0x22)]);
    core.op_ldreg(0x8120);
    assert_eq!(core.registers()[1], 0x22);
    assert_eq!(core.registers()[2], 0x22);
}

#[test]
fn or_and_xor_combine_bits() {
    let mut core = with_registers(&[(1, 0xF0), (2, 0x3C)]);
    core.op_or(0x8121);
    assert_eq!(core.registers()[1], 0xFC);

    let mut core = with_registers(&[(1, 0xF0), (2, 0x3C)]);
    core.op_and(0x8122);
    assert_eq!(core.registers()[1], 0x30);

    let mut core = with_registers(&[(1, 0xF0), (2, 0x3C)]);
    core.op_xor(0x8123);
    assert_eq!(core.registers()[1], 0xCC);
    assert_eq!(core.registers()[2], 0x3C);
}

#[test]
fn add_carry_scenario() {
    let mut core = with_registers(&[(0, 5), (1, 10)]);
    assert!(core.execute(0x8014).is_ok());
    assert_eq!(core.registers()[0], 15);
    assert_eq!(core.registers()[0xF], 0);

    let mut core = with_registers(&[(0, 250), (1, 10)]);
    assert!(core.execute(0x8014).is_ok());
    assert_eq!(core.registers()[0], 4);
    assert_eq!(core.registers()[0xF], 1);
}

#[test]
fn add_carry_flag_for_every_pair_of_operands() {
    for vx in 0..=255u16 {
        for vy in [0u16, 1, 2, 127, 128, 254, 255] {
            let mut core = with_registers(&[(4, vx), (5, vy)]);
            core.op_addcarry(0x8454);
            assert_eq!(core.registers()[4] as u16, (vx + vy) % 256);
            assert_eq!(core.registers()[0xF] == 1, vx + vy > 255);
            assert!(core.registers()[0xF] <= 1);
        }
    }
}

#[test]
fn add_carry_into_vf_keeps_the_flag() {
    let mut core = with_registers(&[(0xF, 200), (1, 100)]);
    core.op_addcarry(0x8F14);
    assert_eq!(core.registers()[0xF], 1);

    let mut core = with_registers(&[(0xF, 20), (1, 100)]);
    core.op_addcarry(0x8F14);
    assert_eq!(core.registers()[0xF], 0);
}

#[test]
fn sub_sets_flag_when_no_borrow() {
    let mut core = with_registers(&[(0, 10), (1, 3)]);
    core.op_sub(0x8015);
    assert_eq!(core.registers()[0], 7);
    assert_eq!(core.registers()[0xF], 1);

    let mut core = with_registers(&[(0, 3), (1, 10)]);
    core.op_sub(0x8015);
    assert_eq!(core.registers()[0], 249);
    assert_eq!(core.registers()[0xF], 0);

    let mut core = with_registers(&[(0, 9), (1, 9)]);
    core.op_sub(0x8015);
    assert_eq!(core.registers()[0], 0);
    assert_eq!(core.registers()[0xF], 1);
}

#[test]
fn sub_flag_for_every_pair_of_operands() {
    for vx in 0..=255u16 {
        for vy in [0u16, 1, 100, 128, 255] {
            let mut core = with_registers(&[(2, vx), (3, vy)]);
            core.op_sub(0x8235);
            assert_eq!(core.registers()[0xF] == 1, vx >= vy);
            assert_eq!(core.registers()[2], (vx as u8).wrapping_sub(vy as u8));
        }
    }
}

#[test]
fn sub_with_vf_as_operand_judges_old_values() {
    // X names VF: the flag is taken from the operands as they were.
    let mut core = with_registers(&[(0xF, 5), (1, 9)]);
    core.op_sub(0x8F15);
    assert_eq!(core.registers()[0xF], 0);

    let mut core = with_registers(&[(0xF, 9), (1, 5)]);
    core.op_sub(0x8F15);
    assert_eq!(core.registers()[0xF], 1);

    // Y names VF.
    let mut core = with_registers(&[(0, 9), (0xF, 5)]);
    core.op_sub(0x80F5);
    assert_eq!(core.registers()[0], 4);
    assert_eq!(core.registers()[0xF], 1);
}

#[test]
fn subn_subtracts_vx_from_vy() {
    let mut core = with_registers(&[(0, 3), (1, 10)]);
    core.op_subn(0x8017);
    assert_eq!(core.registers()[0], 7);
    assert_eq!(core.registers()[0xF], 1);

    let mut core = with_registers(&[(0, 10), (1, 3)]);
    core.op_subn(0x8017);
    assert_eq!(core.registers()[0], 249);
    assert_eq!(core.registers()[0xF], 0);

    let mut core = with_registers(&[(0, 6), (1, 6)]);
    core.op_subn(0x8017);
    assert_eq!(core.registers()[0], 0);
    assert_eq!(core.registers()[0xF], 1);
}

#[test]
fn shr_moves_low_bit_into_flag() {
    let mut core = with_registers(&[(6, 0b1000_0101)]);
    core.op_shr(0x8606);
    assert_eq!(core.registers()[6], 0b0100_0010);
    assert_eq!(core.registers()[0xF], 1);

    let mut core = with_registers(&[(6, 0b1000_0100)]);
    core.op_shr(0x8606);
    assert_eq!(core.registers()[6], 0b0100_0010);
    assert_eq!(core.registers()[0xF], 0);
}

#[test]
fn shl_moves_high_bit_into_flag() {
    let mut core = with_registers(&[(6, 0b1000_0101)]);
    core.op_shl(0x860E);
    assert_eq!(core.registers()[6], 0b0000_1010);
    assert_eq!(core.registers()[0xF], 1);

    let mut core = with_registers(&[(6, 0b0100_0101)]);
    core.op_shl(0x860E);
    assert_eq!(core.registers()[6], 0b1000_1010);
    assert_eq!(core.registers()[0xF], 0);
}

#[test]
fn shift_flags_for_every_value() {
    for vx in 0..=255u16 {
        let mut core = with_registers(&[(1, vx)]);
        core.op_shr(0x8106);
        assert_eq!(core.registers()[0xF] as u16, vx & 1);
        assert_eq!(core.registers()[1] as u16, vx >> 1);

        let mut core = with_registers(&[(1, vx)]);
        core.op_shl(0x810E);
        assert_eq!(core.registers()[0xF] as u16, (vx >> 7) & 1);
        assert_eq!(core.registers()[1] as u16, (vx << 1) & 0xFF);
    }
}

#[test]
fn shift_of_vf_itself_leaves_the_flag() {
    let mut core = with_registers(&[(0xF, 0b0000_0110)]);
    core.op_shr(0x8F06);
    assert_eq!(core.registers()[0xF], 0);

    let mut core = with_registers(&[(0xF, 0b1000_0000)]);
    core.op_shl(0x8F0E);
    assert_eq!(core.registers()[0xF], 1);
}

#[test]
fn rnd_with_given_byte_masks_it() {
    let mut core = Core::new();
    core.op_rnd_with(0xC2F0, 0xAB);
    assert_eq!(core.registers()[2], 0xA0);
    core.op_rnd_with(0xC20F, 0xAB);
    assert_eq!(core.registers()[2], 0x0B);
}

#[test]
fn rnd_stays_within_mask() {
    let mut core = Core::new();
    for _ in 0..200 {
        core.op_rnd(0xC50F);
        assert_eq!(core.registers()[5] & 0xF0, 0);
        core.op_rnd(0xC500);
        assert_eq!(core.registers()[5], 0);
    }
    for reg in 0..16 {
        if reg != 5 {
            assert_eq!(core.registers()[reg], 0);
        }
    }
}

#[test]
fn rnd_draws_more_than_one_value() {
    let mut core = Core::new();
    let mut seen = [false; 256];
    for _ in 0..2000 {
        assert!(core.execute(0xC0FF).is_ok());
        seen[core.registers()[0] as usize] = true;
    }
    assert!(seen.iter().filter(|s| **s).count() > 16);
}
