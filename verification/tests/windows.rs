use lite_notes::binary64::Binary64;
use lite_notes::data::AppData;
use lite_notes::dock::{
    dock_slot, finish_undock, restore_dock_geometry, tracks_bounds, undock_slot, window_moved,
    MOVE_SAVE_AFTER,
};
use lite_notes::effect::{Effect, Frame, Place, Size, Tint};
use lite_notes::notes::close_slot;
use lite_notes::prefs::{set_theme, set_zoom};
use lite_notes::settings::Bounds;
use lite_notes::window::{
    allows_navigation, ensure_window, window_event, WindowAction, WindowEvent, WindowPlan,
    WindowReaction,
};

fn b(x: f64) -> Binary64 {
    Binary64 { bits: x.to_bits() }
}

fn at(x: f64, y: f64, width: f64, height: f64) -> Bounds {
    Bounds { x: b(x), y: b(y), width: b(width), height: b(height) }
}

fn restored(x: f64, y: f64, width: f64, height: f64) -> Frame {
    Frame {
        resizable: true,
        least: Some(Size { width: b(240.0), height: b(180.0) }),
        size: Size { width: b(width), height: b(height) },
        place: Place::At { x: b(x), y: b(y) },
    }
}

fn strip() -> Frame {
    Frame {
        resizable: false,
        least: None,
        size: Size { width: b(3.5), height: b(40.0) },
        place: Place::LeftEdge,
    }
}

fn fresh() -> AppData {
    let mut data = AppData::new(["n/slot-1.md".to_string(), "n/slot-2.md".to_string()], 0);
    data.slots[0].state = "open".to_string();
    data.slots[1].state = "open".to_string();
    data
}

fn plan(action: WindowAction) -> WindowPlan {
    match action {
        WindowAction::Create(plan) => plan,
        WindowAction::Focus(_) => panic!("there is no window yet"),
    }
}

#[test]
fn docking_keeps_where_the_window_was() {
    let mut data = fresh();
    let done = dock_slot(&mut data, 1, true, Some(at(10.0, 20.0, 300.0, 200.0)));
    assert_eq!(
        done,
        vec![
            Effect::WriteState,
            Effect::CollapseWindow { slot: 1, frame: strip() },
            Effect::EmitDock { slot: 1, docked: true },
        ]
    );
    assert_eq!(data.slots[0].state, "docked");
    assert_eq!(data.slots[1].state, "open");
    assert_eq!(restore_dock_geometry(&data, 1), restored(10.0, 20.0, 300.0, 200.0));
    let frame = restored(10.0, 20.0, 300.0, 200.0);
    assert_eq!(undock_slot(&data, 1), vec![Effect::RestoreGeometry { slot: 1, frame }]);
    assert_eq!(data.slots[0].state, "docked");
    let done = finish_undock(&mut data, 1);
    assert_eq!(done, vec![Effect::WriteState, Effect::EmitDock { slot: 1, docked: false }]);
    assert_eq!(data.slots[0].state, "open");
}

#[test]
fn docking_without_a_window_does_nothing() {
    let mut data = fresh();
    assert_eq!(dock_slot(&mut data, 1, false, None), vec![]);
    assert_eq!(dock_slot(&mut data, 3, true, None), vec![]);
    assert_eq!(dock_slot(&mut data, 0, true, None), vec![]);
    assert_eq!(data.slots[0].state, "open");
}

#[test]
fn docking_with_an_unknown_place_keeps_the_last_one() {
    let mut data = fresh();
    assert_eq!(restore_dock_geometry(&data, 2), restored(100.0, 100.0, 320.0, 240.0));
    dock_slot(&mut data, 2, true, None);
    assert_eq!(restore_dock_geometry(&data, 2), restored(100.0, 100.0, 320.0, 240.0));
    dock_slot(&mut data, 2, true, Some(at(1.0, 2.0, 3.0, 4.0)));
    dock_slot(&mut data, 2, true, None);
    assert_eq!(restore_dock_geometry(&data, 2), restored(1.0, 2.0, 3.0, 4.0));
}

#[test]
fn undocking_opens_only_what_is_docked() {
    let mut data = fresh();
    data.slots[0].state = "empty".to_string();
    let frame = restored(100.0, 100.0, 320.0, 240.0);
    assert_eq!(undock_slot(&data, 1), vec![Effect::RestoreGeometry { slot: 1, frame }]);
    let done = finish_undock(&mut data, 1);
    assert_eq!(done, vec![Effect::WriteState, Effect::EmitDock { slot: 1, docked: false }]);
    assert_eq!(data.slots[0].state, "empty");
    assert_eq!(undock_slot(&data, 0), vec![]);
    assert_eq!(finish_undock(&mut data, 3), vec![]);
}

#[test]
fn nothing_on_the_way_back_is_the_place_of_a_window() {
    let mut data = fresh();
    dock_slot(&mut data, 1, true, Some(at(10.0, 20.0, 300.0, 200.0)));
    undock_slot(&data, 1);
    let moved = window_event(&mut data, "note-1", WindowEvent::Moved);
    assert_eq!(moved, WindowReaction::Nothing);
    assert_eq!(window_moved(&mut data, 1, at(0.0, 20.0, 300.0, 200.0), u128::MAX), vec![]);
    assert_eq!(data.settings.bounds.get("1"), None);
    finish_undock(&mut data, 1);
    let moved = window_event(&mut data, "note-1", WindowEvent::Moved);
    assert_eq!(moved, WindowReaction::Measure(1));
}

#[test]
fn no_slot_falls_back_to_the_default_place() {
    let mut data = fresh();
    dock_slot(&mut data, 1, true, Some(at(1.0, 2.0, 3.0, 4.0)));
    for slot in [0, 2, 3, 255] {
        assert_eq!(restore_dock_geometry(&data, slot), restored(100.0, 100.0, 320.0, 240.0));
    }
}

#[test]
fn moving_in_a_burst_is_written_once() {
    let mut data = fresh();
    assert_eq!(MOVE_SAVE_AFTER, 500_000_000);
    assert_eq!(window_moved(&mut data, 1, at(1.0, 1.0, 300.0, 200.0), MOVE_SAVE_AFTER), vec![]);
    let done = window_moved(&mut data, 1, at(2.0, 1.0, 300.0, 200.0), MOVE_SAVE_AFTER + 1);
    assert_eq!(done, vec![Effect::SaveSettings]);
    assert_eq!(data.last_settings_save, MOVE_SAVE_AFTER + 1);
    assert_eq!(data.settings.bounds.get("1"), Some(&at(2.0, 1.0, 300.0, 200.0)));
    assert_eq!(data.settings.bounds.get("2"), None);
}

#[test]
fn a_strip_is_not_the_place_of_a_window() {
    let mut data = fresh();
    dock_slot(&mut data, 1, true, None);
    assert!(!tracks_bounds(&data, 1));
    assert!(tracks_bounds(&data, 2));
    assert_eq!(window_moved(&mut data, 1, at(0.0, 0.0, 3.5, 40.0), u128::MAX), vec![]);
    assert_eq!(data.settings.bounds.get("1"), None);
    close_slot(&mut data, 2);
    assert!(!tracks_bounds(&data, 2));
    assert_eq!(window_moved(&mut data, 2, at(0.0, 0.0, 9.0, 9.0), u128::MAX), vec![]);
    assert_eq!(data.settings.bounds.get("2"), None);
}

#[test]
fn a_window_that_is_there_gets_the_focus() {
    let data = fresh();
    assert_eq!(ensure_window(&data, 2, true), WindowAction::Focus("note-2".to_string()));
}

#[test]
fn a_first_window_has_the_default_size() {
    let data = fresh();
    let window = plan(ensure_window(&data, 1, false));
    assert_eq!(window.label, "note-1");
    assert_eq!(window.url, "index.html?slot=1");
    assert_eq!(window.title, "lite-notes 1");
    assert_eq!((window.width, window.height), (b(320.0), b(240.0)));
    assert_eq!(window.least, Size { width: b(240.0), height: b(180.0) });
    assert!(window.resizable && !window.decorations && window.always_on_top);
    assert!(window.transparent && window.skip_taskbar && window.visible);
    assert_eq!(window.bounds, None);
    assert_eq!(window.tint, Tint { red: 16, green: 16, blue: 16, alpha: 160 });
    assert_eq!(window.zoom, b(1.0));
}

#[test]
fn a_window_comes_back_as_it_was_left() {
    let mut data = fresh();
    window_moved(&mut data, 2, at(5.0, 6.0, 400.0, 350.0), 1);
    set_zoom(&mut data, 2, b(1.75), 1);
    set_theme(&mut data, "light");
    close_slot(&mut data, 2);
    let window = plan(ensure_window(&data, 2, false));
    assert_eq!(window.bounds, Some(at(5.0, 6.0, 400.0, 350.0)));
    assert_eq!((window.width, window.height), (b(400.0), b(350.0)));
    assert_eq!(window.zoom, b(1.75));
    assert_eq!(window.tint, Tint { red: 245, green: 245, blue: 245, alpha: 160 });
}

#[test]
fn pages_stay_with_the_application() {
    for (scheme, host) in
        [("tauri", "localhost"), ("http", "tauri.localhost"), ("https", "tauri.localhost")]
    {
        assert!(allows_navigation(scheme, host));
    }
    for (scheme, host) in [
        ("https", "example.com"),
        ("http", "notlocalhost"),
        ("http", "localhost"),
        ("http", "evil.localhost"),
        ("http", ".localhost"),
        ("http", "tauri.localhost:8080"),
        ("tauri", "tauri.localhost"),
        ("file", "tauri.localhost"),
        ("ftp", "localhost"),
        ("data", ""),
        ("about", ""),
        ("file", ""),
        ("http", ""),
        ("tauri", ""),
        ("", ""),
    ] {
        assert!(!allows_navigation(scheme, host));
    }
}

#[test]
fn window_events_reach_their_slots() {
    let mut data = fresh();
    let moved = window_event(&mut data, "note-2", WindowEvent::Moved);
    assert_eq!(moved, WindowReaction::Measure(2));
    let closed = window_event(&mut data, "note-2", WindowEvent::CloseRequested);
    assert_eq!(closed, WindowReaction::Do(vec![Effect::WriteState, Effect::SyncWatches]));
    assert_eq!(data.closing, [false, true]);
    assert_eq!(data.slots[1].state, "empty");
    let moved = window_event(&mut data, "note-2", WindowEvent::Moved);
    assert_eq!(moved, WindowReaction::Nothing);
    let gone = window_event(&mut data, "note-2", WindowEvent::Destroyed);
    assert_eq!(gone, WindowReaction::Nothing);
    assert_eq!(data.closing, [false, false]);
}

#[test]
fn foreign_windows_do_not_count() {
    let mut data = fresh();
    for label in ["main", "note-3", "note-", ""] {
        let r = window_event(&mut data, label, WindowEvent::CloseRequested);
        assert_eq!(r, WindowReaction::Nothing);
        let r = window_event(&mut data, label, WindowEvent::Moved);
        assert_eq!(r, WindowReaction::Nothing);
    }
    assert_eq!(data.closing, [false, false]);
    assert_eq!(data.slots[0].state, "open");
}
