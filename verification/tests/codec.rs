//! Tests for the key-code index codec and the key-length/size codec.

use lpc55_puf::errors::PufError;
use lpc55_puf::fields::index_from_keycode;
use lpc55_puf::sizes::key_size_encoding;
use lpc55_puf::sizes::key_to_keycode_len;

#[test]
fn index_from_kc1() {
    assert_eq!(index_from_keycode(&[0x4000101_u32]), Ok(1));
}

#[test]
fn index_from_kc3() {
    assert_eq!(index_from_keycode(&[0x4000301_u32]), Ok(3));
}

#[test]
fn index_from_kc9() {
    assert_eq!(index_from_keycode(&[0x4000901_u32]), Ok(9));
}

#[test]
fn index_from_empty_keycode() {
    assert_eq!(index_from_keycode(&[]), Err(PufError::InvalidKeycode));
}

#[test]
fn index_uses_only_bits_8_to_11() {
    assert_eq!(index_from_keycode(&[0xffff_ffff_u32]), Ok(15));
    assert_eq!(index_from_keycode(&[0xffff_f0ff_u32]), Ok(0));
    assert_eq!(index_from_keycode(&[0x0000_0f00_u32, 0x0000_0100]), Ok(15));
}

#[test]
fn key_8_bytes() {
    assert_eq!(key_to_keycode_len(8), Ok(52))
}

#[test]
fn key_32_bytes() {
    assert_eq!(key_to_keycode_len(32), Ok(52))
}

#[test]
fn key_40_bytes() {
    assert_eq!(key_to_keycode_len(40), Ok(84))
}

#[test]
fn key_64_bytes() {
    assert_eq!(key_to_keycode_len(64), Ok(84))
}

#[test]
fn key_72_bytes() {
    assert_eq!(key_to_keycode_len(72), Ok(116))
}

#[test]
fn key_96_bytes() {
    assert_eq!(key_to_keycode_len(96), Ok(116))
}

#[test]
fn key_length_must_be_multiple_of_8() {
    for len in [1usize, 2, 3, 4, 5, 6, 7, 12, 20, 33, 255] {
        assert_eq!(key_to_keycode_len(len), Err(PufError::InvalidKeyLength));
    }
}

#[test]
fn keycode_len_grows_in_32_byte_steps() {
    let mut prev = key_to_keycode_len(0).unwrap();
    let mut len = 8usize;
    while len <= 248 {
        let cur = key_to_keycode_len(len).unwrap();
        assert!(cur >= prev);
        assert_eq!((cur - prev) % 32, 0);
        prev = cur;
        len += 8;
    }
}

#[test]
fn size_encoding_values() {
    assert_eq!(key_size_encoding(0), Ok(0));
    assert_eq!(key_size_encoding(8), Ok(1));
    assert_eq!(key_size_encoding(32), Ok(4));
    assert_eq!(key_size_encoding(248), Ok(31));
    assert_eq!(key_size_encoding(255), Ok(31));
}

#[test]
fn size_encoding_caps_at_255_bytes() {
    assert_eq!(key_size_encoding(256), Err(PufError::UnsupportedSize));
    assert_eq!(key_size_encoding(1024), Err(PufError::UnsupportedSize));
}
