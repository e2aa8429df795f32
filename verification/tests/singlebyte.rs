use encoding_index_singlebyte::iso_8859_16;
use encoding_index_singlebyte::windows_1256;

#[test]
fn iso_8859_16_literal_values() {
    assert_eq!(iso_8859_16::forward(0x80), 128);
    // Pointer 0x21 (byte 0xA1) decodes to U+0104 LATIN CAPITAL LETTER A WITH OGONEK.
    assert_eq!(iso_8859_16::forward(0xA1), 260);
    assert_eq!(iso_8859_16::backward(0x104), 0xA1);
    // Byte 0xA4 is the euro sign in ISO-8859-16.
    assert_eq!(iso_8859_16::forward(0xA4), 8364);
    assert_eq!(iso_8859_16::backward(8364), 0xA4);
    assert_eq!(iso_8859_16::forward(0xFF), 255);
}

#[test]
fn windows_1256_literal_values() {
    // Byte 0x80 decodes to U+20AC EURO SIGN.
    assert_eq!(windows_1256::forward(0x80), 8364);
    assert_eq!(windows_1256::backward(8364), 0x80);
    // Byte 0xC8 decodes to U+0628 ARABIC LETTER BEH.
    assert_eq!(windows_1256::forward(0xC8), 1576);
    assert_eq!(windows_1256::backward(1576), 0xC8);
    assert_eq!(windows_1256::forward(0xFF), 1746);
    assert_eq!(windows_1256::backward(1746), 0xFF);
}

#[test]
fn iso_8859_16_round_trip_all_bytes() {
    for b in 0x80..=0xFFu8 {
        let cp = iso_8859_16::forward(b);
        assert_eq!(iso_8859_16::backward(cp as u32), b);
    }
}

#[test]
fn windows_1256_round_trip_all_bytes() {
    for b in 0x80..=0xFFu8 {
        let cp = windows_1256::forward(b);
        assert_eq!(windows_1256::backward(cp as u32), b);
    }
}

#[test]
fn forward_is_total_and_never_the_sentinel() {
    for b in 0x80..=0xFFu8 {
        assert!(iso_8859_16::forward(b) >= 0x80);
        assert!(windows_1256::forward(b) >= 0x80);
    }
}

#[test]
fn backward_sentinel_for_unmapped_code_points() {
    // U+00C3 is displaced by U+0102 in ISO-8859-16, so it has no byte.
    assert_eq!(iso_8859_16::backward(0xC3), 0);
    // ASCII never appears in the table of either encoding.
    assert_eq!(iso_8859_16::backward(0x41), 0);
    assert_eq!(windows_1256::backward(0x41), 0);
    // U+00A1 INVERTED EXCLAMATION MARK has no byte in either encoding: its
    // bucket is live in both tables but its own slot is empty.
    assert_eq!(windows_1256::backward(0xA1), 0);
    assert_eq!(iso_8859_16::backward(0xA1), 0);
}

#[test]
fn backward_sound_over_every_probed_code_point() {
    for cp in 0..=0x3000u32 {
        let iso = iso_8859_16::backward(cp);
        if iso != 0 {
            assert!(iso >= 0x80);
            assert_eq!(iso_8859_16::forward(iso) as u32, cp);
        }
        let win = windows_1256::backward(cp);
        if win != 0 {
            assert!(win >= 0x80);
            assert_eq!(windows_1256::forward(win) as u32, cp);
        }
    }
}

#[test]
fn backward_never_faults_on_large_inputs() {
    let probes: [u32; 7] = [
        8365,
        0x3000,
        0xFFFF,
        (1 << 21) - 1,
        1 << 21,
        0x10FFFF,
        u32::MAX,
    ];
    for &cp in probes.iter() {
        assert_eq!(iso_8859_16::backward(cp), 0);
        assert_eq!(windows_1256::backward(cp), 0);
    }
}

#[test]
fn repeated_calls_return_identical_results() {
    for b in 0x80..=0xFFu8 {
        assert_eq!(iso_8859_16::forward(b), iso_8859_16::forward(b));
        assert_eq!(windows_1256::forward(b), windows_1256::forward(b));
    }
    for cp in [0u32, 128, 260, 8364, 0xFFFF] {
        assert_eq!(iso_8859_16::backward(cp), iso_8859_16::backward(cp));
        assert_eq!(windows_1256::backward(cp), windows_1256::backward(cp));
    }
}
