use mips_decoder::fields::{
    destination_register, function_code, immediate, opcode, shift_amount, source_register,
    target_address, target_register,
};

#[test]
fn opcode_is_top_six_bits() {
    assert_eq!(opcode(0x0000_0000), 0);
    assert_eq!(opcode(0xFFFF_FFFF), 63);
    assert_eq!(opcode(0xFC00_0000), 63);
    assert_eq!(opcode(0x03FF_FFFF), 0);
    assert_eq!(opcode(0x0400_0000), 1);
    assert_eq!(opcode(0x20A5_0014), 0x08);
    assert_eq!(opcode(0x8C00_0000), 0x23);
}

#[test]
fn source_register_is_bits_25_to_21() {
    assert_eq!(source_register(0x03E0_0000), 31);
    assert_eq!(source_register(0xFC1F_FFFF), 0);
    assert_eq!(source_register(0x0020_0000), 1);
    assert_eq!(source_register(0x0200_0000), 16);
    assert_eq!(source_register(0x20A5_0014), 5);
    assert_eq!(source_register(0xFFFF_FFFF), 31);
}

#[test]
fn target_register_is_bits_20_to_16() {
    assert_eq!(target_register(0x001F_0000), 31);
    assert_eq!(target_register(0xFFE0_FFFF), 0);
    assert_eq!(target_register(0x0001_0000), 1);
    assert_eq!(target_register(0x0010_0000), 16);
    assert_eq!(target_register(0x0085_1820), 5);
    assert_eq!(target_register(0xFFFF_FFFF), 31);
}

#[test]
fn destination_register_is_bits_15_to_11() {
    assert_eq!(destination_register(0x0000_F800), 31);
    assert_eq!(destination_register(0xFFFF_07FF), 0);
    assert_eq!(destination_register(0x0000_0800), 1);
    assert_eq!(destination_register(0x0000_8000), 16);
    assert_eq!(destination_register(0x0085_1820), 3);
    assert_eq!(destination_register(0xFFFF_FFFF), 31);
}

#[test]
fn shift_amount_is_bits_10_to_6() {
    assert_eq!(shift_amount(0x0000_07C0), 31);
    assert_eq!(shift_amount(0xFFFF_F83F), 0);
    assert_eq!(shift_amount(0x0000_0040), 1);
    assert_eq!(shift_amount(0x0000_0400), 16);
    assert_eq!(shift_amount(0x0085_1820), 0);
    assert_eq!(shift_amount(0xFFFF_FFFF), 31);
}

#[test]
fn function_code_is_low_six_bits() {
    assert_eq!(function_code(0x0000_003F), 63);
    assert_eq!(function_code(0xFFFF_FFC0), 0);
    assert_eq!(function_code(0x0000_0040), 0);
    assert_eq!(function_code(0x0085_1820), 0x20);
    assert_eq!(function_code(0xFFFF_FFFF), 63);
}

#[test]
fn immediate_is_low_half_sign_extended() {
    assert_eq!(immediate(0x0000_0000), 0);
    assert_eq!(immediate(0x0000_0001), 1);
    assert_eq!(immediate(0x0000_0014), 20);
    assert_eq!(immediate(0x0000_7FFF), 32767);
    assert_eq!(immediate(0x0000_8000), -32768);
    assert_eq!(immediate(0x0000_8001), -32767);
    assert_eq!(immediate(0x0000_FFFE), -2);
    assert_eq!(immediate(0x0000_FFFF), -1);
}

#[test]
fn immediate_ignores_the_high_half() {
    assert_eq!(immediate(0xFFFF_0000), 0);
    assert_eq!(immediate(0xFFFF_7FFF), 32767);
    assert_eq!(immediate(0x1234_8000), -32768);
    assert_eq!(immediate(0xFFFF_FFFF), -1);
    assert_eq!(immediate(0x0001_0000), 0);
}

#[test]
fn immediate_sign_follows_bit_15() {
    let highs: [u32; 4] = [0x0000_0000, 0x2000_0000, 0x8C1F_0000, 0xFFFF_0000];
    for high in highs {
        let mut low: u32 = 0;
        while low <= 0xFFFF {
            let word = high | low;
            let value = immediate(word);
            if word & 0x8000 != 0 {
                assert!(value < 0);
                assert_eq!(value as i32, low as i32 - 0x1_0000);
            } else {
                assert!(value >= 0);
                assert_eq!(value as u32, low);
            }
            low += 1;
        }
    }
}

#[test]
fn target_address_is_low_twenty_six_bits() {
    assert_eq!(target_address(0x0000_0000), 0);
    assert_eq!(target_address(0x0800_0010), 0x10);
    assert_eq!(target_address(0x03FF_FFFF), 0x03FF_FFFF);
    assert_eq!(target_address(0xFC00_0000), 0);
    assert_eq!(target_address(0x0400_0000), 0);
    assert_eq!(target_address(0xFFFF_FFFF), 0x03FF_FFFF);
}

#[test]
fn target_address_is_zero_extended() {
    assert_eq!(target_address(0x0200_0000), 0x0200_0000);
    assert_eq!(target_address(0x0A00_0000), 33_554_432);
    assert!(target_address(0x0BFF_FFFF) > 0);
    assert_eq!(target_address(0x0BFF_FFFF), 67_108_863);
}

#[test]
fn fields_tile_the_word() {
    let words: [u32; 6] =
        [0x0000_0000, 0xFFFF_FFFF, 0x20A5_0014, 0x0085_1820, 0x0800_0010, 0xDEAD_BEEF];
    for word in words {
        let register_layout = (opcode(word) << 26)
            | ((source_register(word) as u32) << 21)
            | ((target_register(word) as u32) << 16)
            | ((destination_register(word) as u32) << 11)
            | ((shift_amount(word) as u32) << 6)
            | function_code(word);
        assert_eq!(register_layout, word);
        let immediate_layout = (opcode(word) << 26)
            | ((source_register(word) as u32) << 21)
            | ((target_register(word) as u32) << 16)
            | (immediate(word) as u16 as u32);
        assert_eq!(immediate_layout, word);
        let jump_layout = (opcode(word) << 26) | (target_address(word) as u32);
        assert_eq!(jump_layout, word);
    }
}
