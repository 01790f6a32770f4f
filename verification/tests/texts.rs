use lite_notes::size::megabytes_text;
use lite_notes::text::{
    chars_of, decimal_text, is_white_space, read_byte, same_text, strip_prefix,
    trim_prefixes, trim_range,
};

#[test]
fn white_space_is_that_of_unicode() {
    for code in 0..=0x10ffffu32 {
        if let Some(c) = char::from_u32(code) {
            assert_eq!(is_white_space(c), c.is_whitespace());
        }
    }
}

#[test]
fn numbers_are_written_in_decimal() {
    assert_eq!(decimal_text(0), "0");
    assert_eq!(decimal_text(9), "9");
    assert_eq!(decimal_text(10), "10");
    assert_eq!(decimal_text(255), "255");
    assert_eq!(decimal_text(u64::MAX), u64::MAX.to_string());
}

#[test]
fn bytes_are_read_like_numerals() {
    let texts = [
        "", "+", "0", "1", "2", "+2", "++2", "-1", "255", "256", "0255", "00000000001", "9f", "FF",
        "ff", "fff", "1 ", "é1", "٣",
    ];
    for text in texts {
        let chars = chars_of(text);
        assert_eq!(read_byte(&chars, 0, chars.len(), 10), text.parse::<u8>().ok());
        assert_eq!(read_byte(&chars, 0, chars.len(), 16), u8::from_str_radix(text, 16).ok());
    }
}

#[test]
fn prefixes_are_taken_off() {
    assert_eq!(strip_prefix("note-1", "note-"), Some("1".to_string()));
    assert_eq!(strip_prefix("note", "note-"), None);
    assert_eq!(trim_prefixes(r"\\?\C:\a.md", r"\\?\"), r"C:\a.md");
    assert_eq!(trim_prefixes(r"\\?\\\?\x", r"\\?\"), "x");
    assert_eq!(trim_prefixes("/home/a.md", r"\\?\"), "/home/a.md");
    assert!(same_text("ab", "ab"));
    assert!(!same_text("ab", "aB"));
}

#[test]
fn trimming_agrees_with_str_trim() {
    for text in ["", " ", "a", " a ", "\u{2003}a b\u{85}\n", "\u{200b}a"] {
        let chars = chars_of(text);
        let (from, to) = trim_range(&chars);
        let left: String = chars[from..to].iter().collect();
        assert_eq!(left, text.trim());
    }
}

#[test]
fn sizes_agree_with_formatted_numbers() {
    let mut sizes: Vec<u64> = vec![
        0,
        1,
        5_242_880,
        5_242_881,
        5_505_024,
        6_029_312,
        u64::MAX,
        u64::MAX - 1023,
        u64::MAX - 1024,
        u64::MAX - 1025,
        (1 << 53) + 1,
        (1 << 53) + 3,
        (1 << 60) + 129,
    ];
    let mut x: u64 = 88172645463325252;
    for step in 0..20_000u32 {
        x ^= x << 13;
        x ^= x >> 7;
        x ^= x << 17;
        sizes.push(x >> (step % 64));
        sizes.push((x % 4000) * 26_214 + x % 3);
        sizes.push((x % 400_000) * 52_429 / 2);
        sizes.push((x % 4_000_000) * 262_144);
    }
    for bytes in sizes {
        assert_eq!(megabytes_text(bytes), format!("{:.1}", bytes as f64 / 1_048_576.0));
    }
}

#[test]
fn sizes_in_halves_go_to_the_even_tenth() {
    assert_eq!(megabytes_text(5_505_024), "5.2");
    assert_eq!(megabytes_text(6_029_312), "5.8");
    assert_eq!(megabytes_text(5_242_881), "5.0");
    assert_eq!(megabytes_text(104_857_600), "100.0");
}
