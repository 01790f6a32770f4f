use lite_notes::binary64::Binary64;
use lite_notes::data::AppData;
use lite_notes::effect::{Effect, Tint};
use lite_notes::prefs::{
    frontend_ready, frontend_state, resolve_theme, set_opacity, set_theme, set_zoom, theme_tint,
    ZOOM_SAVE_AFTER,
};
use lite_notes::settings::Settings;
use lite_notes::slot::slot_key_text;

const LIGHT: Tint = Tint { red: 245, green: 245, blue: 245, alpha: 160 };
const DARK: Tint = Tint { red: 16, green: 16, blue: 16, alpha: 160 };

fn b(x: f64) -> Binary64 {
    Binary64 { bits: x.to_bits() }
}

fn fresh() -> AppData {
    AppData::new(["n/slot-1.md".to_string(), "n/slot-2.md".to_string()], 1_000)
}

#[test]
fn preferences_before_any_choice() {
    let settings = Settings::default();
    assert_eq!(settings.theme, "");
    assert_eq!(settings.shown_theme(), "dark");
    assert_eq!(settings.opacity, b(0.92));
    assert_eq!(settings.zoom_of("1"), b(1.0));
    assert_eq!(settings.zoom.len() + settings.colors.len() + settings.bounds.len(), 0);
}

#[test]
fn read_preferences_are_taken_over() {
    let mut data = fresh();
    let mut settings = Settings::default();
    settings.theme = "light".to_string();
    settings.zoom.insert("2", b(1.5));
    data.install_settings(settings);
    assert_eq!(data.settings.theme, "light");
    assert_eq!(data.settings.zoom_of(&slot_key_text(2)), b(1.5));
    assert_eq!(data.last_settings_save, 1_000);
}

#[test]
fn tints_of_the_themes() {
    assert_eq!(theme_tint("light"), LIGHT);
    assert_eq!(theme_tint("dark"), DARK);
    assert_eq!(theme_tint(""), DARK);
    assert_eq!(theme_tint("Light"), DARK);
}

#[test]
fn a_saved_theme_is_kept() {
    assert_eq!(resolve_theme("light", &vec![Some(false)]), "light");
    assert_eq!(resolve_theme("dark", &vec![Some(true)]), "dark");
}

#[test]
fn the_first_window_tells_the_theme_of_the_system() {
    assert_eq!(resolve_theme("", &vec![Some(true), Some(false)]), "light");
    assert_eq!(resolve_theme("", &vec![Some(false), Some(true)]), "dark");
    assert_eq!(resolve_theme("", &vec![None, Some(true)]), "dark");
    assert_eq!(resolve_theme("", &vec![]), "dark");
    assert_eq!(resolve_theme("blue", &vec![Some(true)]), "light");
}

#[test]
fn opacity_is_held_to_its_range() {
    for (wanted, got) in [(0.0, 0.3), (0.3, 0.3), (0.5, 0.5), (1.0, 1.0), (9.0, 1.0)] {
        let mut data = fresh();
        let done = set_opacity(&mut data, b(wanted));
        assert_eq!(data.settings.opacity, b(got));
        assert_eq!(
            done,
            vec![Effect::SaveSettings, Effect::WriteState, Effect::EmitOpacity(b(got))]
        );
    }
}

#[test]
fn a_theme_is_light_or_dark() {
    for (wanted, got, tint) in [("light", "light", LIGHT), ("dark", "dark", DARK), ("x", "dark", DARK)] {
        let mut data = fresh();
        let done = set_theme(&mut data, wanted);
        assert_eq!(data.settings.theme, got);
        assert_eq!(
            done,
            vec![
                Effect::SaveSettings,
                Effect::WriteState,
                Effect::TintWindow { slot: 1, tint },
                Effect::TintWindow { slot: 2, tint },
                Effect::EmitTheme(got.to_string()),
            ]
        );
    }
}

#[test]
fn zoom_is_held_to_its_range() {
    for (wanted, got) in [(0.1, 0.6), (0.6, 0.6), (1.1, 1.1), (2.0, 2.0), (3.0, 2.0)] {
        let mut data = fresh();
        let done = set_zoom(&mut data, 2, b(wanted), 1_000);
        assert_eq!(done, vec![Effect::ZoomWindow { slot: 2, factor: b(got) }]);
        assert_eq!(data.settings.zoom_of("2"), b(got));
        assert_eq!(data.settings.zoom_of("1"), b(1.0));
    }
}

#[test]
fn zooming_in_a_burst_is_written_once() {
    let mut data = fresh();
    assert_eq!(ZOOM_SAVE_AFTER, 300_000_000);
    let at_limit = 1_000 + ZOOM_SAVE_AFTER;
    assert_eq!(set_zoom(&mut data, 1, b(1.1), at_limit).len(), 1);
    assert_eq!(data.last_settings_save, 1_000);
    let done = set_zoom(&mut data, 1, b(1.2), at_limit + 1);
    assert_eq!(
        done,
        vec![Effect::ZoomWindow { slot: 1, factor: b(1.2) }, Effect::SaveSettings]
    );
    assert_eq!(data.last_settings_save, at_limit + 1);
    assert_eq!(set_zoom(&mut data, 1, b(1.3), at_limit + 2).len(), 1);
    assert_eq!(data.settings.zoom_of("1"), b(1.3));
}

#[test]
fn zooming_no_slot_does_nothing() {
    let mut data = fresh();
    assert_eq!(set_zoom(&mut data, 3, b(1.1), u128::MAX), vec![]);
    assert_eq!(data.settings.zoom.len(), 0);
}

#[test]
fn a_loaded_page_settles_the_theme() {
    let mut data = fresh();
    let done = frontend_ready(&mut data, 1, &vec![Some(true)]);
    assert_eq!(
        done,
        Ok(vec![
            Effect::SaveSettings,
            Effect::WriteState,
            Effect::TintWindow { slot: 1, tint: LIGHT },
        ])
    );
    assert_eq!(data.settings.theme, "light");
    let again = frontend_ready(&mut data, 2, &vec![Some(false)]);
    assert_eq!(again, Ok(vec![Effect::TintWindow { slot: 2, tint: LIGHT }]));
    assert_eq!(data.settings.theme, "light");
}

#[test]
fn a_page_of_no_slot_is_told_so() {
    let mut data = fresh();
    let windows = vec![Some(true)];
    assert_eq!(frontend_ready(&mut data, 0, &windows), Err("invalid slot".to_string()));
    assert_eq!(frontend_ready(&mut data, 3, &windows), Err("invalid slot".to_string()));
    assert_eq!(data.settings.theme, "");
}

#[test]
fn a_loaded_page_is_told_everything() {
    let mut data = fresh();
    data.slots[1].title = "T".to_string();
    data.slots[1].state = "docked".to_string();
    data.settings.theme = "light".to_string();
    set_zoom(&mut data, 2, b(1.5), 0);
    let told = frontend_state(&data, 2, "text".to_string(), false);
    assert_eq!(told.slot, 2);
    assert_eq!(told.content, "text");
    assert!(!told.missing);
    assert_eq!(told.title, "T");
    assert_eq!(told.state, "docked");
    assert_eq!(told.color, "#F59E0B");
    assert_eq!(told.theme, "light");
    assert_eq!(told.opacity, b(0.92));
    assert_eq!(told.zoom, b(1.5));
    assert_eq!(frontend_state(&data, 1, String::new(), true).zoom, b(1.0));
}
