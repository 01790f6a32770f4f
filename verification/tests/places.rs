use lite_notes::paths::{
    commands_dir, data_dir, note_file, notes_dir, settings_file, state_file, DataPath,
};
use lite_notes::runtime::{lockd, now_ts};
use lite_notes::slot::{slot_key_text, valid_slot, window_label, window_slot, SlotInfo};

fn place(base: &str, names: &[&str]) -> DataPath {
    DataPath { base: base.to_string(), names: names.iter().map(|n| n.to_string()).collect() }
}

#[test]
fn files_are_inside_the_local_application_data() {
    let dir = data_dir(Some("L".to_string()), "T".to_string());
    assert_eq!(dir, place("L", &["lite-notes"]));
    assert_eq!(notes_dir(&dir), place("L", &["lite-notes", "notes"]));
    assert_eq!(commands_dir(&dir), place("L", &["lite-notes", "commands"]));
    assert_eq!(state_file(&dir), place("L", &["lite-notes", "state.json"]));
    assert_eq!(settings_file(&dir), place("L", &["lite-notes", "settings.json"]));
    assert_eq!(note_file(&dir, 2), place("L", &["lite-notes", "notes", "slot-2.md"]));
}

#[test]
fn files_are_temporary_without_local_application_data() {
    assert_eq!(data_dir(None, "T".to_string()), place("T", &["lite-notes"]));
    assert_eq!(data_dir(Some(String::new()), "T".to_string()), place("", &["lite-notes"]));
}

#[test]
fn there_are_two_slots() {
    let valid: Vec<u8> = (0..=255u8).filter(|&slot| valid_slot(slot)).collect();
    assert_eq!(valid, vec![1, 2]);
}

#[test]
fn labels_name_their_slots() {
    assert_eq!(window_label(1), "note-1");
    assert_eq!(window_label(2), "note-2");
    assert_eq!(window_slot("note-1"), Some(1));
    assert_eq!(window_slot("note-2"), Some(2));
    assert_eq!(window_slot("note-+2"), Some(2));
    assert_eq!(window_slot("note-02"), Some(2));
    for label in ["", "note-", "note-0", "note-3", "note-258", "note--1", "main", "Note-1", "1"] {
        assert_eq!(window_slot(label), None);
    }
    for slot in 0..=255u8 {
        assert_eq!(window_slot(&window_label(slot)).is_some(), valid_slot(slot));
    }
}

#[test]
fn keys_are_the_numbers_of_the_slots() {
    assert_eq!(slot_key_text(1), "1");
    assert_eq!(slot_key_text(255), "255");
}

#[test]
fn a_blank_slot_is_empty() {
    let info = SlotInfo::default();
    assert_eq!(info.state, "empty");
    assert_eq!(info.mode, "");
    assert_eq!(info.path, "");
    assert_eq!(info.last_updated, 0);
    assert_eq!(info.clone(), info);
}

#[test]
fn a_failed_holder_does_not_keep_the_lock() {
    let fine: Result<u8, u8> = Ok(1);
    let failed: Result<u8, u8> = Err(2);
    assert_eq!(lockd(fine), 1);
    assert_eq!(lockd(failed), 2);
}

#[test]
fn a_clock_before_the_epoch_reads_zero() {
    assert_eq!(now_ts(Some(1_700_000_000)), 1_700_000_000);
    assert_eq!(now_ts(None), 0);
}
