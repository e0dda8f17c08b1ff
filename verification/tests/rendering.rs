use bip32::hex::push_hex_byte;
use bip32::primitives::KeyFingerprint;

#[test]
fn debug_string_exact_text() {
    assert_eq!(KeyFingerprint([0, 0, 0, 0]).debug_string(), "KeyFingerprint [0, 0, 0, 0]");
    assert_eq!(
        KeyFingerprint([0xde, 0xad, 0xbe, 0xef]).debug_string(),
        "KeyFingerprint [de, ad, be, ef]"
    );
    assert_eq!(KeyFingerprint([1, 10, 15, 16]).debug_string(), "KeyFingerprint [1, a, f, 10]");
    assert_eq!(KeyFingerprint([9, 255, 100, 160]).debug_string(), "KeyFingerprint [9, ff, 64, a0]");
}

#[test]
fn debug_string_agrees_with_hex_debug_formatting() {
    let samples: [[u8; 4]; 6] = [
        [0, 0, 0, 0],
        [1, 2, 3, 4],
        [15, 16, 17, 255],
        [0x7f, 0x80, 0x09, 0x0a],
        [0xab, 0xcd, 0xef, 0x01],
        [200, 100, 50, 25],
    ];
    for b in samples.iter() {
        assert_eq!(KeyFingerprint(*b).debug_string(), format!("KeyFingerprint {:x?}", b));
    }
}

#[test]
fn push_hex_byte_every_value() {
    for v in 0..=255u8 {
        let mut s = String::from("x");
        push_hex_byte(&mut s, v);
        assert_eq!(s, format!("x{:x}", v));
    }
}

#[test]
fn push_hex_byte_appends() {
    let mut s = String::new();
    push_hex_byte(&mut s, 0);
    push_hex_byte(&mut s, 0x0f);
    push_hex_byte(&mut s, 0x10);
    push_hex_byte(&mut s, 0xff);
    assert_eq!(s, "0f10ff");
}
