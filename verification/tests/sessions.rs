use lite_notes::binary64::Binary64;
use lite_notes::color::color_dist;
use lite_notes::command::{route, CommandFields};
use lite_notes::data::{slot_color, write_state, AppData};
use lite_notes::dock::{dock_slot, finish_undock, window_moved};
use lite_notes::effect::Effect;
use lite_notes::inbox::{obey, InboxStep};
use lite_notes::notes::{
    close_slot, final_cleanup, read_note_content, window_gone, NoteEvent, NoteStep,
};
use lite_notes::prefs::{frontend_ready, set_opacity, set_theme, set_zoom};
use lite_notes::push::{finish_push, handle_push, PushRequest, PushStep};
use lite_notes::settings::Bounds;

fn b(x: f64) -> Binary64 {
    Binary64 { bits: x.to_bits() }
}

fn fresh() -> AppData {
    AppData::new(["n/slot-1.md".to_string(), "n/slot-2.md".to_string()], 0)
}

fn push(data: &mut AppData, slot: u8, mode: &str, path: &str) -> Vec<Effect> {
    let request = PushRequest {
        slot,
        mode: mode.to_string(),
        path: path.to_string(),
        content: String::new(),
        title: String::new(),
    };
    finish_push(data, &request, &None, &None, None, 1)
}

fn color(data: &mut AppData, slot: u64, color: String) -> Vec<Effect> {
    let fields = CommandFields {
        cmd: Some("set_color".to_string()),
        slot: Some(slot),
        mode: None,
        path: None,
        content: None,
        title: None,
        color: Some(color),
    };
    match obey(data, route(fields)) {
        InboxStep::Do(effects) => effects,
        _ => Vec::new(),
    }
}

fn reported(data: &AppData) -> String {
    let report = write_state(data, 0);
    format!(
        "{:?} {:?} {:?} {:?} {} {:?}",
        report.slots.get("1"),
        report.slots.get("2"),
        report.colors.get("1"),
        report.colors.get("2"),
        report.theme,
        report.opacity
    )
}

fn step(data: &mut AppData, n: u32) -> Vec<Effect> {
    let slot = (n / 3 % 2 + 1) as u8;
    let place = Bounds { x: b(n as f64), y: b(1.0), width: b(300.0), height: b(200.0) };
    match n % 11 {
        0 => push(data, slot, "content", ""),
        1 => push(data, slot, "path", "/home/a.md"),
        2 => push(data, slot, "other", "/home/b.md"),
        3 => close_slot(data, slot),
        4 => dock_slot(data, slot, true, Some(place)),
        5 => finish_undock(data, slot),
        6 => color(data, slot as u64, format!("#{:06x}", (n * 7919) % 0x1000000)),
        7 => set_theme(data, if n % 2 == 0 { "light" } else { "dark" }),
        8 => set_opacity(data, b(n as f64 / 100.0)),
        9 => {
            window_gone(data, slot);
            set_zoom(data, slot, b(n as f64 / 50.0), n as u128 * 1_000_000)
        }
        _ => window_moved(data, slot, place, n as u128 * 1_000_000),
    }
}

#[test]
fn sessions_delete_their_own_copies_only() {
    let mut data = fresh();
    for n in 0..2_000u32 {
        for effect in step(&mut data, n * 13 + n / 7) {
            if let Effect::DeleteFile(path) = effect {
                assert!(path == "n/slot-1.md" || path == "n/slot-2.md");
            }
        }
        for (i, info) in data.slots.iter().enumerate() {
            if info.mode != "path" && !info.path.is_empty() {
                assert_eq!(info.path, data.note_files[i]);
            }
            assert!(["empty", "open", "docked"].contains(&info.state.as_str()));
            if !info.color.is_empty() {
                assert_eq!(info.color, slot_color(&data, i as u8 + 1));
            }
        }
        let distance = color_dist(&slot_color(&data, 1), &slot_color(&data, 2));
        assert!(distance.unwrap() >= 3600);
    }
}

#[test]
fn reports_are_current_all_along() {
    let mut data = fresh();
    for n in 0..2_000u32 {
        let before = reported(&data);
        let effects = step(&mut data, n * 17 + n / 5);
        if !effects.contains(&Effect::WriteState) {
            assert_eq!(reported(&data), before);
        }
    }
}

#[test]
fn preferences_are_written_when_chosen() {
    let mut data = fresh();
    assert!(set_theme(&mut data, "light").contains(&Effect::SaveSettings));
    assert!(set_opacity(&mut data, b(0.5)).contains(&Effect::SaveSettings));
    assert!(color(&mut data, 1, "#00ff00".to_string()).contains(&Effect::SaveSettings));
    assert!(final_cleanup(&mut data).contains(&Effect::SaveSettings));
    assert_eq!(data.settings.theme, "light");
    assert_eq!(data.settings.opacity, b(0.5));
}

#[test]
fn both_slots_are_empty_when_a_session_has_ended() {
    let mut data = fresh();
    push(&mut data, 1, "content", "");
    push(&mut data, 2, "path", "/home/a.md");
    dock_slot(&mut data, 2, true, None);
    let effects = final_cleanup(&mut data);
    assert_eq!(effects[0], Effect::DeleteFile("n/slot-1.md".to_string()));
    for info in &data.slots {
        assert_eq!(info.state, "empty");
        assert_eq!(info.path, "");
    }
}

#[test]
fn no_copy_is_left_when_a_session_has_ended() {
    for seed in 0..50u32 {
        let mut data = fresh();
        let mut copies = [false, false];
        for n in 0..seed {
            let k = n * 29 + seed;
            if k % 11 == 0 || k % 11 == 2 {
                copies[(k / 3 % 2) as usize] = true;
            }
            for effect in step(&mut data, k) {
                if let Effect::DeleteFile(path) = effect {
                    copies[if path == "n/slot-1.md" { 0 } else { 1 }] = false;
                }
            }
        }
        for effect in final_cleanup(&mut data) {
            if let Effect::DeleteFile(path) = effect {
                copies[if path == "n/slot-1.md" { 0 } else { 1 }] = false;
            }
        }
        assert_eq!(copies, [false, false]);
    }
}

#[test]
fn a_copy_does_not_outlive_a_file_opened_in_its_place() {
    let mut data = fresh();
    push(&mut data, 1, "content", "");
    let effects = push(&mut data, 1, "path", "/home/a.md");
    assert_eq!(effects[0], Effect::DeleteFile("n/slot-1.md".to_string()));
    assert_eq!(final_cleanup(&mut data), vec![Effect::WriteState, Effect::SaveSettings]);
}

#[test]
fn pushed_content_is_shown() {
    let mut data = fresh();
    let request = PushRequest {
        slot: 2,
        mode: "content".to_string(),
        path: String::new(),
        content: "# hi".to_string(),
        title: String::new(),
    };
    let step = handle_push(&data, &request, 0);
    assert_eq!(step, PushStep::WriteNote { slot: 2, content: "# hi".to_string() });
    finish_push(&mut data, &request, &None, &None, Some("slot-2.md".to_string()), 1);
    assert_eq!(data.slots[1].path, data.note_files[1]);
    let info = &data.slots[1];
    assert_eq!(read_note_content(info, NoteEvent::Start), NoteStep::Look);
    assert_eq!(
        read_note_content(info, NoteEvent::Read(Some("# hi".to_string()))),
        NoteStep::Show { content: "# hi".to_string(), missing: false }
    );
}

#[test]
fn a_note_goes_through_its_life() {
    let mut data = fresh();
    frontend_ready(&mut data, 1, &vec![None]).unwrap();
    assert_eq!(data.settings.theme, "dark");
    push(&mut data, 1, "path", "/home/a.md");
    assert_eq!(data.slots[0].title, "note 1");
    dock_slot(&mut data, 1, true, None);
    let effects = push(&mut data, 1, "content", "");
    assert!(effects.iter().any(|e| matches!(e, Effect::RestoreGeometry { slot: 1, .. })));
    let effects = close_slot(&mut data, 1);
    assert_eq!(effects[0], Effect::DeleteFile("n/slot-1.md".to_string()));
    assert_eq!(data.closing[0], true);
    window_gone(&mut data, 1);
    assert_eq!(data.closing[0], false);
}
