use blockchain::{block_preimage, hash_block, push_decimal, to_hex, zero_hash, DIGEST_LEN};

fn decimal_text(n: u64) -> String {
    let mut out = Vec::new();
    push_decimal(&mut out, n);
    String::from_utf8(out).unwrap()
}

#[test]
fn decimal_of_zero_is_one_digit() {
    assert_eq!(decimal_text(0), "0");
}

#[test]
fn decimal_of_single_digits() {
    assert_eq!(decimal_text(7), "7");
    assert_eq!(decimal_text(9), "9");
}

#[test]
fn decimal_at_powers_of_ten() {
    assert_eq!(decimal_text(10), "10");
    assert_eq!(decimal_text(99), "99");
    assert_eq!(decimal_text(100), "100");
    assert_eq!(decimal_text(1_000_000), "1000000");
}

#[test]
fn decimal_of_largest_number() {
    assert_eq!(decimal_text(u64::MAX), "18446744073709551615");
}

#[test]
fn decimal_agrees_with_std_formatting() {
    let samples = [0u64, 1, 12, 123, 1_700_000_000, 4_294_967_296, u64::MAX - 1];
    for n in samples {
        assert_eq!(decimal_text(n), format!("{}", n));
    }
}

#[test]
fn push_decimal_appends_and_keeps_what_was_there() {
    let mut out = vec![b'x', b'y'];
    push_decimal(&mut out, 305);
    assert_eq!(out, vec![b'x', b'y', b'3', b'0', b'5']);
}

#[test]
fn hex_of_empty_is_empty() {
    assert_eq!(to_hex(&Vec::new()), "");
}

#[test]
fn hex_puts_high_half_first() {
    assert_eq!(to_hex(&vec![0x0a, 0x14, 0x1e]), "0a141e");
    assert_eq!(to_hex(&vec![0x00, 0xff, 0xa0, 0x0b]), "00ffa00b");
}

#[test]
fn hex_is_lowercase_and_two_digits_per_byte() {
    let all: Vec<u8> = (0..=255u8).collect();
    let text = to_hex(&all);
    assert_eq!(text.len(), 512);
    for (i, b) in all.iter().enumerate() {
        assert_eq!(&text[2 * i..2 * i + 2], format!("{:02x}", b));
    }
}

#[test]
fn preimage_is_the_fields_in_order() {
    let input = block_preimage(7, 42, "abc", "def", 9);
    assert_eq!(input, b"742abcdef9".to_vec());
}

#[test]
fn preimage_writes_text_as_utf8() {
    let input = block_preimage(1, 2, "h\u{e9}", "\u{2713}", 3);
    assert_eq!(input, vec![b'1', b'2', b'h', 0xc3, 0xa9, 0xe2, 0x9c, 0x93, b'3']);
}

#[test]
fn preimage_of_empty_texts_is_three_numerals() {
    assert_eq!(block_preimage(0, 0, "", "", 0), b"000".to_vec());
}

#[test]
fn digest_of_known_fields() {
    let zeros = zero_hash();
    assert_eq!(
        hash_block(1, 1_700_000_000, "Block 1", &zeros, 0),
        "40a9b65af091ec762d06a82da50aa8f45e21ac8bec6a260c0d2c3a778f339a66"
    );
    assert_eq!(
        hash_block(7, 42, "abc", "def", 9),
        "73c2502d06aad64b6c37d02cfec92ec0396369dee5be06bff7ad3a8cb44833f7"
    );
}

#[test]
fn digest_of_empty_texts() {
    assert_eq!(
        hash_block(0, 0, "", "", 0),
        "2ac9a6746aca543af8dff39894cfe8173afba21eb01c6fae33d52947222855ef"
    );
}

#[test]
fn digest_of_largest_numbers_and_wide_characters() {
    let zeros = zero_hash();
    assert_eq!(
        hash_block(u64::MAX, u64::MAX, "h\u{e9}llo \u{2713}", &zeros, u64::MAX),
        "ffb57868cf2cf60489d9166e1a646d41281e090b8f2a1f6268b234c268a9a5a7"
    );
}

#[test]
fn digest_is_not_its_input() {
    let input = block_preimage(7, 42, "abc", "def", 9);
    let digest = hash_block(7, 42, "abc", "def", 9);
    assert_ne!(digest.as_bytes(), input.as_slice());
    assert_ne!(digest, to_hex(&input));
}

#[test]
fn digest_is_sixty_four_lowercase_hex_characters() {
    let digest = hash_block(3, 99, "payload", "prev", 12345);
    assert_eq!(digest.len(), DIGEST_LEN);
    assert!(digest.chars().all(|c| matches!(c, '0'..='9' | 'a'..='f')));
}

#[test]
fn digest_is_the_same_on_every_call() {
    let zeros = zero_hash();
    let first = hash_block(5, 1_700_000_123, "Block 5", &zeros, 77);
    for _ in 0..10 {
        assert_eq!(hash_block(5, 1_700_000_123, "Block 5", &zeros, 77), first);
    }
}

#[test]
fn digest_changes_with_each_field() {
    let base = hash_block(1, 2, "a", "b", 3);
    assert_ne!(hash_block(2, 2, "a", "b", 3), base);
    assert_ne!(hash_block(1, 3, "a", "b", 3), base);
    assert_ne!(hash_block(1, 2, "c", "b", 3), base);
    assert_ne!(hash_block(1, 2, "a", "c", 3), base);
    assert_ne!(hash_block(1, 2, "a", "b", 4), base);
}

#[test]
fn digest_sees_only_the_concatenation() {
    assert_eq!(hash_block(1, 23, "", "", 4), hash_block(12, 3, "", "", 4));
    assert_eq!(hash_block(1, 2, "ab", "c", 3), hash_block(1, 2, "a", "bc", 3));
}

#[test]
fn zero_hash_is_sixty_four_zeros() {
    assert_eq!(zero_hash(), "0".repeat(64));
}
