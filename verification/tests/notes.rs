use lite_notes::data::{finish_start, has_open, write_state, AppData};
use lite_notes::effect::Effect;
use lite_notes::notes::{
    cleanup_slot, close_requested, close_slot, close_window, emit_note, final_cleanup,
    note_updated, read_note_content, window_gone, FileStat, NoteEvent, NoteStep, MAX_NOTE_BYTES, WELCOME_MD,
};
use lite_notes::slot::SlotInfo;

fn fresh() -> AppData {
    AppData::new(["n/slot-1.md".to_string(), "n/slot-2.md".to_string()], 0)
}

fn shown(state: &str, mode: &str, path: &str) -> SlotInfo {
    SlotInfo {
        state: state.to_string(),
        mode: mode.to_string(),
        path: path.to_string(),
        title: "T".to_string(),
        color: String::new(),
        last_updated: 7,
    }
}

fn found(is_file: bool, len: u64) -> NoteEvent {
    NoteEvent::Looked(Some(FileStat { is_file, len }))
}

fn text(content: &str, missing: bool) -> NoteStep {
    NoteStep::Show { content: content.to_string(), missing }
}

#[test]
fn a_slot_without_a_path_shows_the_welcome_text() {
    let info = SlotInfo::default();
    assert_eq!(read_note_content(&info, NoteEvent::Start), text(WELCOME_MD, false));
    assert!(WELCOME_MD.starts_with("# lite-notes\n\n"));
    assert!(WELCOME_MD.ends_with("- ☰ button: dock to edge\n"));
}

#[test]
fn a_path_is_looked_up_before_it_is_read() {
    let info = shown("open", "path", "/a.md");
    assert_eq!(read_note_content(&info, NoteEvent::Start), NoteStep::Look);
    assert_eq!(read_note_content(&info, found(true, 0)), NoteStep::Read);
    assert_eq!(read_note_content(&info, found(true, MAX_NOTE_BYTES)), NoteStep::Read);
    assert_eq!(
        read_note_content(&info, NoteEvent::Read(Some("# hi".to_string()))),
        text("# hi", false)
    );
}

#[test]
fn what_cannot_be_read_is_missing() {
    let info = shown("open", "path", "/a.md");
    assert_eq!(read_note_content(&info, NoteEvent::Looked(None)), text("", true));
    assert_eq!(read_note_content(&info, found(false, 10)), text("", true));
    assert_eq!(read_note_content(&info, found(false, u64::MAX)), text("", true));
    assert_eq!(read_note_content(&info, NoteEvent::Read(None)), text("", true));
}

#[test]
fn an_oversized_file_is_not_read() {
    let info = shown("open", "path", "/a.md");
    assert_eq!(MAX_NOTE_BYTES, 5 * 1024 * 1024);
    for len in [MAX_NOTE_BYTES + 1, 5_505_024, 104_857_600, u64::MAX] {
        let told = format!(
            "> **File too large to display** — {:.1} MB, limit is {} MB.",
            len as f64 / 1_048_576.0,
            MAX_NOTE_BYTES / 1_048_576
        );
        assert_eq!(read_note_content(&info, found(true, len)), text(&told, false));
    }
}

#[test]
fn windows_are_told_about_a_note() {
    let mut data = fresh();
    data.slots[1] = shown("open", "path", "/b.md");
    data.settings.colors.insert("2", "#101010".to_string());
    let header = emit_note(&data, 2).unwrap();
    assert_eq!(header.info, data.slots[1]);
    let told = note_updated(header, "text".to_string(), true);
    assert_eq!(told.slot, 2);
    assert_eq!(told.content, "text");
    assert!(told.missing);
    assert_eq!(told.title, "T");
    assert_eq!(told.color, "#101010");
    assert!(emit_note(&data, 0).is_none());
    assert!(emit_note(&data, 3).is_none());
}

#[test]
fn closing_deletes_the_own_copy() {
    let mut data = fresh();
    data.slots[0] = shown("open", "content", "n/slot-1.md");
    data.slots[1] = shown("docked", "path", "/b.md");
    let done = close_slot(&mut data, 1);
    assert_eq!(
        done,
        vec![
            Effect::DeleteFile("n/slot-1.md".to_string()),
            Effect::WriteState,
            Effect::SyncWatches,
            Effect::CloseWindow(1),
        ]
    );
    assert_eq!(data.closing, [true, false]);
    let mut empty = SlotInfo::default();
    empty.color = "#22D3EE".to_string();
    assert_eq!(data.slots[0], empty);
    assert_eq!(data.slots[1], shown("docked", "path", "/b.md"));
    window_gone(&mut data, 1);
    assert_eq!(data.closing, [false, false]);
}

#[test]
fn closing_keeps_an_opened_file() {
    let mut data = fresh();
    data.slots[1] = shown("open", "path", "/b.md");
    let done = cleanup_slot(&mut data, 2, false);
    assert_eq!(done, vec![Effect::WriteState, Effect::SyncWatches]);
    assert_eq!(data.slots[1].path, "");
    assert_eq!(data.closing, [false, false]);
}

#[test]
fn closing_no_slot_does_nothing() {
    let mut data = fresh();
    data.slots[0] = shown("open", "content", "n/slot-1.md");
    for slot in [0, 3, 255] {
        assert_eq!(close_slot(&mut data, slot), vec![]);
    }
    assert_eq!(data.slots[0], shown("open", "content", "n/slot-1.md"));
    assert_eq!(data.closing, [false, false]);
}

#[test]
fn closing_twice_deletes_once() {
    let mut data = fresh();
    data.slots[0] = shown("open", "content", "n/slot-1.md");
    close_slot(&mut data, 1);
    let again = close_requested(&mut data, 1);
    assert_eq!(again, vec![Effect::WriteState, Effect::SyncWatches]);
    assert_eq!(data.closing, [true, false]);
}

#[test]
fn a_window_closed_from_outside_clears_its_slot() {
    let mut data = fresh();
    data.slots[1] = shown("open", "content", "n/slot-2.md");
    let done = close_requested(&mut data, 2);
    assert_eq!(
        done,
        vec![
            Effect::DeleteFile("n/slot-2.md".to_string()),
            Effect::WriteState,
            Effect::SyncWatches,
        ]
    );
    assert_eq!(data.slots[1].state, "empty");
    assert_eq!(data.closing, [false, true]);
}

#[test]
fn ending_clears_both_slots() {
    let mut data = fresh();
    data.slots[0] = shown("open", "content", "n/slot-1.md");
    data.slots[1] = shown("docked", "content", "n/slot-2.md");
    data.slots[1].color = "#F59E0B".to_string();
    let done = final_cleanup(&mut data);
    assert_eq!(
        done,
        vec![
            Effect::DeleteFile("n/slot-1.md".to_string()),
            Effect::DeleteFile("n/slot-2.md".to_string()),
            Effect::WriteState,
            Effect::SaveSettings,
        ]
    );
    for info in &data.slots {
        assert_eq!((info.state.as_str(), info.mode.as_str()), ("empty", ""));
        assert_eq!((info.path.as_str(), info.title.as_str()), ("", ""));
        assert_eq!(info.last_updated, 7);
    }
    assert_eq!(data.slots[1].color, "#F59E0B");
}

#[test]
fn ending_keeps_opened_files() {
    let mut data = fresh();
    data.slots[0] = shown("open", "path", "/a.md");
    data.slots[1] = shown("docked", "path", "/b.md");
    assert_eq!(final_cleanup(&mut data), vec![Effect::WriteState, Effect::SaveSettings]);
}

#[test]
fn every_copy_goes_whatever_its_mode() {
    for mode in ["content", "note", ""] {
        let mut data = fresh();
        data.slots[1] = shown("open", mode, "n/slot-2.md");
        let gone = Effect::DeleteFile("n/slot-2.md".to_string());
        assert_eq!(final_cleanup(&mut data)[0], gone);
        data.slots[1] = shown("open", mode, "n/slot-2.md");
        assert_eq!(close_slot(&mut data, 2)[0], gone);
    }
}

#[test]
fn the_first_report_says_empty() {
    let report = write_state(&fresh(), 1);
    assert_eq!(report.slots.get("1").unwrap().state, "empty");
    assert_eq!(report.slots.get("2").unwrap().state, "empty");
}

#[test]
fn a_label_is_free_at_once_without_a_window() {
    let mut data = fresh();
    close_slot(&mut data, 1);
    close_slot(&mut data, 2);
    assert!(close_window(&mut data, 1, true));
    assert!(!close_window(&mut data, 2, false));
    assert_eq!(data.closing, [true, false]);
}

#[test]
fn the_report_tells_both_slots() {
    let mut data = fresh();
    data.slots[0] = shown("open", "path", "/a.md");
    data.settings.colors.insert("1", "#00FF00".to_string());
    let report = write_state(&data, 99);
    assert_eq!(report.slots.len(), 2);
    assert_eq!(report.slots.get("1"), Some(&shown("open", "path", "/a.md")));
    assert_eq!(report.slots.get("2"), Some(&SlotInfo::default()));
    assert_eq!(report.colors.get("1"), Some(&"#00FF00".to_string()));
    assert_eq!(report.colors.get("2"), Some(&"#F59E0B".to_string()));
    assert_eq!(report.theme, "dark");
    assert_eq!(f64::from_bits(report.opacity.bits), 0.92);
    assert_eq!(report.updated, 99);
    data.settings.theme = "light".to_string();
    assert_eq!(write_state(&data, 0).theme, "light");
}

#[test]
fn the_welcome_window_comes_up_when_nothing_is_open() {
    let mut data = fresh();
    assert!(!has_open(&data));
    assert_eq!(finish_start(&data), vec![Effect::EnsureWindow(1), Effect::WriteState]);
    data.slots[1] = shown("docked", "path", "/b.md");
    assert!(has_open(&data));
    assert_eq!(finish_start(&data), vec![Effect::WriteState]);
    data.slots[1].state = "empty".to_string();
    assert!(!has_open(&data));
    data.slots[0].state = "open".to_string();
    assert!(has_open(&data));
}
