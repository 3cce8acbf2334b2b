use pixel_sampler::hex::convert_to_hex;

#[test]
fn black_is_all_zeros() {
    assert_eq!(convert_to_hex(0, 0, 0), "000000");
}

#[test]
fn pure_red() {
    assert_eq!(convert_to_hex(255, 0, 0), "FF0000");
}

#[test]
fn mixed_channels_keep_order_and_padding() {
    assert_eq!(convert_to_hex(16, 32, 48), "102030");
}

#[test]
fn white_is_all_f() {
    assert_eq!(convert_to_hex(255, 255, 255), "FFFFFF");
}

#[test]
fn small_values_are_zero_padded() {
    assert_eq!(convert_to_hex(1, 2, 3), "010203");
}

#[test]
fn letter_digits_are_uppercase() {
    assert_eq!(convert_to_hex(0xAB, 0xCD, 0xEF), "ABCDEF");
}

#[test]
fn every_byte_encodes_to_two_upper_hex_digits() {
    let mut v: u16 = 0;
    while v <= 255 {
        let s = convert_to_hex(v as u8, 0, 0);
        assert_eq!(s.len(), 6);
        for c in s.chars() {
            assert!(c.is_ascii_digit() || ('A'..='F').contains(&c));
        }
        assert_eq!(&s[2..], "0000");
        v += 1;
    }
}
