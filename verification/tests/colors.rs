use lite_notes::color::{color_dist, hex_to_rgb, is_readable_color, MIN_COLOR_DIST};
use lite_notes::data::{slot_color, AppData};
use lite_notes::effect::Effect;
use lite_notes::recolor::{handle_set_color, recolor, Recolor};

fn fresh() -> AppData {
    AppData::new(["n/slot-1.md".to_string(), "n/slot-2.md".to_string()], 0)
}

#[test]
fn reads_default_colors() {
    assert_eq!(hex_to_rgb("#22D3EE"), Some((0x22, 0xd3, 0xee)));
    assert_eq!(hex_to_rgb("#F59E0B"), Some((0xf5, 0x9e, 0x0b)));
}

#[test]
fn reads_colors_in_either_case_and_without_sign() {
    assert_eq!(hex_to_rgb("22d3ee"), Some((0x22, 0xd3, 0xee)));
    assert_eq!(hex_to_rgb("  ##22D3ee\t"), Some((0x22, 0xd3, 0xee)));
    assert_eq!(hex_to_rgb("\u{3000}#000000\u{a0}"), Some((0, 0, 0)));
}

#[test]
fn trimmings_make_no_difference() {
    for text in ["#22D3EE", "22d3ee", "#12345", "", "##AbCdEf"] {
        let read = hex_to_rgb(text);
        assert_eq!(hex_to_rgb(&text.to_ascii_lowercase()), read);
        assert_eq!(hex_to_rgb(&text.to_ascii_uppercase()), read);
        assert_eq!(hex_to_rgb(&format!("#{}", text)), read);
        assert_eq!(hex_to_rgb(&format!("\u{2003} {}\t", text)), read);
    }
}

#[test]
fn a_plus_sign_counts_inside_a_pair() {
    assert_eq!(hex_to_rgb("#+A+B+C"), Some((10, 11, 12)));
    assert_eq!(hex_to_rgb("#++++++"), None);
}

#[test]
fn refuses_what_is_no_color() {
    assert_eq!(hex_to_rgb(""), None);
    assert_eq!(hex_to_rgb("#"), None);
    assert_eq!(hex_to_rgb("#12345"), None);
    assert_eq!(hex_to_rgb("#1234567"), None);
    assert_eq!(hex_to_rgb("#12345G"), None);
    assert_eq!(hex_to_rgb("# 12345"), None);
    assert_eq!(hex_to_rgb("-1-1-1"), None);
    assert_eq!(hex_to_rgb("red"), None);
}

#[test]
fn tells_which_texts_can_be_cut() {
    assert!(is_readable_color("#22D3EE"));
    assert!(is_readable_color("éaaaa"));
    assert!(is_readable_color("aaaaé"));
    assert!(!is_readable_color("aéabc"));
    assert!(!is_readable_color("#aa€a"));
    assert!(is_readable_color("zz€a"));
    assert_eq!(hex_to_rgb("éaaaa"), None);
    assert_eq!(hex_to_rgb("aaaaé"), None);
    assert_eq!(hex_to_rgb("zz€a"), None);
}

#[test]
fn measures_distances() {
    assert_eq!(color_dist("#000000", "#000000"), Some(0));
    assert_eq!(color_dist("#010203", "#030201"), Some(8));
    assert_eq!(color_dist("#FFFFFF", "#000000"), Some(195075));
    assert_eq!(color_dist("#22D3EE", "#F59E0B"), Some(98859));
    assert_eq!(color_dist("#F59E0B", "#22D3EE"), Some(98859));
    assert_eq!(color_dist("#F59E0B", "orange"), None);
}

#[test]
fn squares_agree_with_real_distances() {
    for step in 0..=255u32 {
        let text = format!("#{:02X}{:02X}{:02X}", step, 255 - step, step / 2);
        let (r, g, b) = (step as f64, (255 - step) as f64, (step / 2) as f64);
        let real = ((r - 34.0).powi(2) + (g - 211.0).powi(2) + (b - 238.0).powi(2)).sqrt();
        let close = match color_dist(&text, "#22D3EE") {
            Some(d) => d < MIN_COLOR_DIST * MIN_COLOR_DIST,
            None => false,
        };
        assert_eq!(close, real < 60.0);
    }
}

#[test]
fn a_color_is_taken_in_upper_case() {
    let mut data = fresh();
    let done = handle_set_color(&mut data, 1, "#00ff7f");
    assert_eq!(
        done,
        Recolor::Done(vec![
            Effect::SaveSettings,
            Effect::WriteState,
            Effect::EmitColor { slot: 1, color: "#00FF7F".to_string() },
        ])
    );
    assert_eq!(slot_color(&data, 1), "#00FF7F");
    assert_eq!(data.slots[0].color, "#00FF7F");
    assert_eq!(slot_color(&data, 2), "#F59E0B");
    assert_eq!(data.slots[1].color, "");
}

#[test]
fn a_color_close_to_the_other_is_refused() {
    let mut data = fresh();
    assert_eq!(handle_set_color(&mut data, 1, "#F59E0B"), Recolor::Refused);
    assert_eq!(handle_set_color(&mut data, 1, "#f59e0b"), Recolor::Refused);
    // sixty exactly is far enough, anything less is not
    assert_eq!(handle_set_color(&mut data, 1, "#F59E46"), Recolor::Refused);
    assert!(matches!(handle_set_color(&mut data, 1, "#F59E47"), Recolor::Done(_)));
    assert_eq!(slot_color(&data, 1), "#F59E47");
}

#[test]
fn a_color_of_no_slot_or_no_color_is_refused() {
    let mut data = fresh();
    assert_eq!(handle_set_color(&mut data, 0, "#000000"), Recolor::Refused);
    assert_eq!(handle_set_color(&mut data, 3, "#000000"), Recolor::Refused);
    assert_eq!(handle_set_color(&mut data, 2, "black"), Recolor::Refused);
    assert_eq!(handle_set_color(&mut data, 2, ""), Recolor::Refused);
    assert_eq!(slot_color(&data, 2), "#F59E0B");
}

#[test]
fn a_color_that_cannot_be_cut_is_told() {
    let mut data = fresh();
    assert_eq!(recolor(&mut data, 1, "aéabc".to_string()), Recolor::Unreadable);
    assert_eq!(handle_set_color(&mut data, 1, "aéabc"), Recolor::Unreadable);
    data.settings.colors.insert("2", "aéabc".to_string());
    assert_eq!(handle_set_color(&mut data, 1, "#000000"), Recolor::Unreadable);
    assert_eq!(handle_set_color(&mut data, 9, "aéabc"), Recolor::Refused);
    assert_eq!(slot_color(&data, 1), "#22D3EE");
}

#[test]
fn upper_case_goes_beyond_ascii() {
    let mut data = fresh();
    // the ligature stands for two letters in upper case
    assert!(matches!(handle_set_color(&mut data, 1, "#0000ﬀ"), Recolor::Done(_)));
    assert_eq!(slot_color(&data, 1), "#0000FF");
    assert_eq!(handle_set_color(&mut data, 1, "#1234ß"), Recolor::Refused);
}

#[test]
fn borders_stay_apart_over_many_choices() {
    let mut data = fresh();
    for step in 0..64u32 {
        let slot = if step % 3 == 0 { 1 } else { 2 };
        let text = format!("#{:02x}{:02x}{:02x}", step * 4, (step * 37) % 256, (step * 91) % 256);
        handle_set_color(&mut data, slot, &text);
        let distance = color_dist(&slot_color(&data, 1), &slot_color(&data, 2));
        assert!(distance.unwrap() >= 3600);
    }
}
