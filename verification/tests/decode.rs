use chip8::decode::{addr, decode, family, imm4, imm8, reg_x, reg_y, Opcode};
use chip8::keypad::{key_for_letter, KEY_LETTERS};

#[test]
fn operand_fields() {
    assert_eq!(family(0xD7A3), 0xD);
    assert_eq!(reg_x(0xD7A3), 0x7);
    assert_eq!(reg_y(0xD7A3), 0xA);
    assert_eq!(imm4(0xD7A3), 0x3);
    assert_eq!(imm8(0xD7A3), 0xA3);
    assert_eq!(addr(0xD7A3), 0x7A3);
    assert_eq!(addr(0xFFFF), 0xFFF);
    assert_eq!(family(0x0FFF), 0);
}

#[test]
fn every_pattern_decodes_to_its_operation() {
    let table = [
        (0x00E0u16, Opcode::Cls),
        (0x00EE, Opcode::Ret),
        (0x1234, Opcode::Jp),
        (0x2234, Opcode::Call),
        (0x3A12, Opcode::Se),
        (0x4A12, Opcode::Sne),
        (0x5AB0, Opcode::SeReg),
        (0x6A12, Opcode::Ld),
        (0x7A12, Opcode::Add),
        (0x8AB0, Opcode::LdReg),
        (0x8AB1, Opcode::Or),
        (0x8AB2, Opcode::And),
        (0x8AB3, Opcode::Xor),
        (0x8AB4, Opcode::AddCarry),
        (0x8AB5, Opcode::Sub),
        (0x8AB6, Opcode::Shr),
        (0x8AB7, Opcode::Subn),
        (0x8ABE, Opcode::Shl),
        (0x9AB0, Opcode::SneReg),
        (0xA123, Opcode::LdI),
        (0xB123, Opcode::JpOffset),
        (0xCA12, Opcode::Rnd),
        (0xDAB5, Opcode::Drw),
        (0xEA9E, Opcode::Skp),
        (0xEAA1, Opcode::Sknp),
        (0xFA07, Opcode::LdRegDt),
        (0xFA0A, Opcode::LdRegKey),
        (0xFA15, Opcode::LdDtReg),
        (0xFA18, Opcode::LdStReg),
        (0xFA1E, Opcode::AddIReg),
        (0xFA29, Opcode::LdF),
        (0xFA33, Opcode::LdB),
        (0xFA55, Opcode::LdRegMem),
        (0xFA65, Opcode::LdMemReg),
    ];
    for (word, op) in table {
        assert_eq!(decode(word), Some(op));
    }
}

#[test]
fn words_outside_the_table_do_not_decode() {
    for word in [
        0x0000u16, 0x00E1, 0x00ED, 0x00EF, 0x01E0, 0x01EE, 0x0FFF, 0x5AB1, 0x5ABF, 0x8AB8, 0x8AB9,
        0x8ABA, 0x8ABD, 0x8ABF, 0x9AB1, 0x9ABF, 0xEA9D, 0xEA9F, 0xEAA0, 0xEAA2, 0xE09F, 0xFA00,
        0xFA08, 0xFA14, 0xFA1F, 0xFA30, 0xFA56, 0xFA64, 0xFAFF,
    ] {
        assert_eq!(decode(word), None);
    }
}

#[test]
fn decoding_counts_over_all_words() {
    let mut valid = 0u32;
    for word in 0..=0xFFFFu16 {
        if decode(word).is_some() {
            valid += 1;
        }
    }
    // two exact words, ten whole families, eleven patterns with two free
    // digits, and eleven patterns with one free digit
    assert_eq!(valid, 2 + 10 * 4096 + 11 * 256 + 11 * 16);
}

#[test]
fn keyboard_letters_map_to_keys() {
    let letters = ['q', 'w', 'e', 'r', 'a', 's', 'd', 'f', 'z', 'x', 'c', 'v', 'u', 'i', 'o', 'p'];
    assert_eq!(KEY_LETTERS, letters);
    for (key, letter) in letters.iter().enumerate() {
        assert_eq!(key_for_letter(*letter), Some(key as u8));
    }
    for other in ['Q', 'b', 'g', 'h', 'j', 'k', 'l', 'm', 'n', 't', 'y', '1', ' ', '\u{1b}'] {
        assert_eq!(key_for_letter(other), None);
    }
}
