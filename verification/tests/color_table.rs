use vkot_client::color_table::{byte2hex, byte2num, pack_rgb, ColorTable, OPAQUE_BLACK, PALETTE_TEXT};

#[test]
fn byte2num_reads_hex_digits_of_both_cases() {
    assert_eq!(byte2num(b'0'), 0);
    assert_eq!(byte2num(b'9'), 9);
    assert_eq!(byte2num(b'a'), 10);
    assert_eq!(byte2num(b'f'), 15);
    assert_eq!(byte2num(b'A'), 10);
    assert_eq!(byte2num(b'F'), 15);
}

#[test]
fn byte2hex_takes_the_first_digit_as_the_higher() {
    assert_eq!(byte2hex(b'0', b'0'), 0);
    assert_eq!(byte2hex(b'1', b'0'), 16);
    assert_eq!(byte2hex(b'c', b'0'), 0xC0);
    assert_eq!(byte2hex(b'F', b'f'), 255);
    assert_eq!(byte2hex(b'5', b'F'), 0x5F);
}

#[test]
fn pack_rgb_puts_red_highest_and_alpha_lowest() {
    assert_eq!(pack_rgb(0x12, 0x34, 0x56), 0x123456FF);
    assert_eq!(pack_rgb(0, 0, 0), 0x000000FF);
    assert_eq!(pack_rgb(255, 255, 255), 0xFFFFFFFF);
    assert_eq!(pack_rgb(0x12, 0x34, 0x56), (0x12 << 24) | (0x34 << 16) | (0x56 << 8) | 0xFF);
}

#[test]
fn palette_text_has_256_entries() {
    let lines: Vec<&str> = PALETTE_TEXT.split('\n').filter(|l| !l.trim_end().is_empty()).collect();
    assert_eq!(lines.len(), 256);
    assert!(lines.iter().all(|l| l.len() == 6 && l.bytes().all(|b| b.is_ascii_hexdigit())));
}

#[test]
fn default_table_has_the_five_fixed_entries() {
    let t = ColorTable::default();
    assert_eq!(t.rgb_from_256color(0), 0x303030FF);
    assert_eq!(t.rgb_from_256color(4), 0x3030C0FF);
    assert_eq!(t.rgb_from_256color(7), 0xA0A0A0FF);
    assert_eq!(t.rgb_from_256color(8), 0x707070FF);
    assert_eq!(t.rgb_from_256color(15), 0xE0E0E0FF);
}

#[test]
fn default_table_maps_text_entries_to_rgba() {
    let t = ColorTable::default();
    assert_eq!(t.rgb_from_256color(1), 0x800000FF);
    assert_eq!(t.rgb_from_256color(2), 0x008000FF);
    assert_eq!(t.rgb_from_256color(9), 0xFF0000FF);
    assert_eq!(t.rgb_from_256color(16), 0x000000FF);
    assert_eq!(t.rgb_from_256color(21), 0x0000FFFF);
    assert_eq!(t.rgb_from_256color(196), 0xFF0000FF);
    assert_eq!(t.rgb_from_256color(231), 0xFFFFFFFF);
    assert_eq!(t.rgb_from_256color(232), 0x080808FF);
    assert_eq!(t.rgb_from_256color(255), 0xEEEEEEFF);
}

#[test]
fn default_table_agrees_with_its_text_everywhere() {
    let t = ColorTable::default();
    let lines: Vec<&str> = PALETTE_TEXT.split('\n').filter(|l| !l.is_empty()).collect();
    for n in 0..=255u8 {
        if [0u8, 4, 7, 8, 15].contains(&n) {
            continue;
        }
        let rgb = u32::from_str_radix(lines[n as usize], 16).unwrap();
        assert_eq!(t.rgb_from_256color(n), (rgb << 8) | 0xFF);
    }
}

#[test]
fn from_text_skips_blank_lines_and_ignores_case() {
    let t = ColorTable::from_text(b"\n112233\n  \r\nAaBbCc\r\n\nddEEff");
    assert_eq!(t.rgb_from_256color(0), 0x303030FF);
    assert_eq!(t.rgb_from_256color(1), 0xAABBCCFF);
    assert_eq!(t.rgb_from_256color(2), 0xDDEEFFFF);
    assert_eq!(t.rgb_from_256color(3), OPAQUE_BLACK);
    assert_eq!(t.rgb_from_256color(255), OPAQUE_BLACK);
}

#[test]
fn from_text_stops_at_the_first_bad_line() {
    let t = ColorTable::from_text(b"000000\n111111\n22222\n333333\n");
    assert_eq!(t.rgb_from_256color(1), 0x111111FF);
    assert_eq!(t.rgb_from_256color(2), OPAQUE_BLACK);
    assert_eq!(t.rgb_from_256color(3), OPAQUE_BLACK);
    let t = ColorTable::from_text(b"000000\n11111g\n222222\n");
    assert_eq!(t.rgb_from_256color(1), OPAQUE_BLACK);
    assert_eq!(t.rgb_from_256color(2), OPAQUE_BLACK);
}

#[test]
fn from_text_of_nothing_is_black_but_for_the_fixed_entries() {
    let t = ColorTable::from_text(b"");
    assert_eq!(t.rgb_from_256color(0), 0x303030FF);
    assert_eq!(t.rgb_from_256color(1), OPAQUE_BLACK);
    assert_eq!(t.rgb_from_256color(15), 0xE0E0E0FF);
    assert_eq!(t.rgb_from_256color(200), OPAQUE_BLACK);
}

#[test]
fn from_text_keeps_only_the_first_256_entries() {
    let mut text = Vec::new();
    for _ in 0..300 {
        text.extend_from_slice(b"010203\n");
    }
    let t = ColorTable::from_text(&text);
    assert_eq!(t.rgb_from_256color(255), 0x010203FF);
    assert_eq!(t.rgb_from_256color(1), 0x010203FF);
}
