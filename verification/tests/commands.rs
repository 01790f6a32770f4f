use lite_notes::command::{read_command, read_fields, route, Command, CommandFields};
use lite_notes::data::{slot_color, AppData};
use lite_notes::dock::restore_dock_geometry;
use lite_notes::effect::Effect;
use lite_notes::inbox::{
    inbox_order, inbox_schedule, is_command_name, obey, process_inbox, InboxAction, InboxStep,
};
use lite_notes::push::{
    finish_push, handle_push, push_path, push_title, PushRequest, PushStep, PUSH_RETRIES,
};

fn fresh() -> AppData {
    AppData::new(["n/slot-1.md".to_string(), "n/slot-2.md".to_string()], 0)
}

fn request(slot: u8, mode: &str, path: &str, content: &str, title: &str) -> PushRequest {
    PushRequest {
        slot,
        mode: mode.to_string(),
        path: path.to_string(),
        content: content.to_string(),
        title: title.to_string(),
    }
}

fn no_fields() -> CommandFields {
    CommandFields {
        cmd: None,
        slot: None,
        mode: None,
        path: None,
        content: None,
        title: None,
        color: None,
    }
}

fn text(s: &str) -> Option<String> {
    Some(s.to_string())
}

#[test]
fn reads_a_push() {
    let got = read_command(
        r##"{"cmd":"push","slot":2,"mode":"path","path":"C:\\a.md","title":"A \u00e9"}"##,
    );
    assert_eq!(got, Some(Command::Push(request(2, "path", "C:\\a.md", "", "A é"))));
}

#[test]
fn reads_a_push_with_nothing_said() {
    let got = read_command(r#" { "cmd" : "push" } "#);
    assert_eq!(got, Some(Command::Push(request(1, "content", "", "", ""))));
}

#[test]
fn reads_content() {
    let got = read_command("{\"cmd\":\"push\",\"content\":\"# hi\\nthere\",\"slot\":1}");
    assert_eq!(got, Some(Command::Push(request(1, "content", "", "# hi\nthere", ""))));
}

#[test]
fn reads_close_and_color() {
    assert_eq!(read_command(r#"{"cmd":"close","slot":2}"#), Some(Command::Close(2)));
    assert_eq!(read_command(r#"{"cmd":"close"}"#), Some(Command::Close(0)));
    assert_eq!(
        read_command(r##"{"cmd":"set_color","slot":1,"color":"#0f0f0f"}"##),
        Some(Command::SetColor { slot: 1, color: "#0f0f0f".to_string() })
    );
    assert_eq!(
        read_command(r#"{"cmd":"set_color"}"#),
        Some(Command::SetColor { slot: 0, color: String::new() })
    );
}

#[test]
fn members_of_the_wrong_kind_do_not_count() {
    let got = read_command(r#"{"cmd":"push","slot":"2","mode":7,"path":null,"content":["x"]}"#);
    assert_eq!(got, Some(Command::Push(request(1, "content", "", "", ""))));
    for slot in ["-2", "2.0", "true", "1e0", "18446744073709551616"] {
        let got = read_command(&format!("{{\"cmd\":\"close\",\"slot\":{}}}", slot));
        assert_eq!(got, Some(Command::Close(0)));
    }
}

#[test]
fn a_large_slot_counts_by_its_last_byte() {
    assert_eq!(read_command(r#"{"cmd":"close","slot":257}"#), Some(Command::Close(1)));
    assert_eq!(read_command(r#"{"cmd":"close","slot":256}"#), Some(Command::Close(0)));
    assert_eq!(
        read_command(r#"{"cmd":"close","slot":18446744073709551615}"#),
        Some(Command::Close(255))
    );
}

#[test]
fn other_commands_and_documents_are_unknown() {
    for held in [
        "{}",
        "[]",
        "null",
        "3",
        "\"push\"",
        r#"{"cmd":"Push"}"#,
        r#"{"cmd":3}"#,
        r#"{"x":{"cmd":"push"}}"#,
    ] {
        assert_eq!(read_command(held), Some(Command::Unknown));
    }
}

#[test]
fn what_is_no_document_is_no_command() {
    for held in ["", "{", "push", "{\"cmd\":\"push\"} x", "{\"cmd\":\"push\",}", "\u{feff}{}"] {
        assert_eq!(read_command(held), None);
    }
}

#[test]
fn the_last_of_equal_members_counts() {
    assert_eq!(
        read_command(r#"{"cmd":"close","slot":1,"slot":2}"#),
        Some(Command::Close(2))
    );
}

#[test]
fn fields_of_a_value_are_read() {
    let value: serde_json::Value =
        serde_json::from_str(r##"{"cmd":"set_color","slot":2,"color":"#111111"}"##).unwrap();
    let fields = read_fields(&value);
    assert_eq!(fields.cmd, text("set_color"));
    assert_eq!(fields.slot, Some(2));
    assert_eq!(fields.color, text("#111111"));
    assert_eq!(fields.mode, None);
    assert_eq!(fields.path, None);
    assert_eq!(fields.content, None);
    assert_eq!(fields.title, None);
}

#[test]
fn routing_goes_by_the_name() {
    assert_eq!(route(no_fields()), Command::Unknown);
    let mut fields = no_fields();
    fields.cmd = text("push");
    fields.mode = text("");
    fields.slot = Some(2);
    assert_eq!(route(fields), Command::Push(request(2, "", "", "", "")));
}

#[test]
fn a_push_waits_for_a_closing_window() {
    let mut data = fresh();
    data.closing = [true, false];
    let note = request(1, "content", "", "x", "");
    assert_eq!(PUSH_RETRIES, 15);
    assert_eq!(handle_push(&data, &note, 0), PushStep::Retry { after: 150, retries: 1 });
    assert_eq!(handle_push(&data, &note, 14), PushStep::Retry { after: 150, retries: 15 });
    assert_eq!(handle_push(&data, &note, 15), PushStep::Ignore);
    assert_eq!(handle_push(&data, &note, 255), PushStep::Ignore);
    let other = request(2, "content", "", "x", "");
    assert_eq!(
        handle_push(&data, &other, 0),
        PushStep::WriteNote { slot: 2, content: "x".to_string() }
    );
}

#[test]
fn a_push_into_no_slot_is_dropped() {
    let data = fresh();
    assert_eq!(handle_push(&data, &request(0, "path", "a", "", ""), 0), PushStep::Ignore);
    assert_eq!(handle_push(&data, &request(3, "content", "", "a", ""), 0), PushStep::Ignore);
}

#[test]
fn an_opened_file_is_not_written() {
    let data = fresh();
    assert_eq!(
        handle_push(&data, &request(1, "path", "/a.md", "x", ""), 0),
        PushStep::Canonicalize("/a.md".to_string())
    );
}

#[test]
fn an_opened_file_is_shown_by_its_canonical_path() {
    let data = fresh();
    let note = request(1, "path", "a.md", "", "");
    assert_eq!(push_path(&data, &note, &text(r"\\?\C:\n\a.md")), r"C:\n\a.md");
    assert_eq!(push_path(&data, &note, &text("/n/a.md")), "/n/a.md");
    assert_eq!(push_path(&data, &note, &None), "a.md");
    let content = request(2, "content", "a.md", "", "");
    assert_eq!(push_path(&data, &content, &text("/n/a.md")), "n/slot-2.md");
}

#[test]
fn a_note_has_a_title() {
    let named = request(1, "path", "a.md", "", "Mine");
    let plain = request(2, "path", "a.md", "", "");
    assert_eq!(push_title(&named, text("a.md")), "Mine");
    assert_eq!(push_title(&plain, text("a.md")), "a.md");
    assert_eq!(push_title(&plain, None), "note 2");
}

#[test]
fn a_push_opens_its_slot() {
    let mut data = fresh();
    data.settings.colors.insert("2", "#123456".to_string());
    let note = request(2, "path", "a.md", "", "");
    let done = finish_push(&mut data, &note, &text("/n/a.md"), &None, text("a.md"), 77);
    assert_eq!(
        done,
        vec![
            Effect::WriteState,
            Effect::SyncWatches,
            Effect::EnsureWindow(2),
            Effect::EmitNote(2),
        ]
    );
    let info = &data.slots[1];
    assert_eq!((info.state.as_str(), info.mode.as_str()), ("open", "path"));
    assert_eq!((info.path.as_str(), info.title.as_str()), ("/n/a.md", "a.md"));
    assert_eq!((info.color.as_str(), info.last_updated), ("#123456", 77));
    assert_eq!(data.slots[0].state, "empty");
}

#[test]
fn a_push_brings_a_docked_window_back() {
    let mut data = fresh();
    data.slots[0].state = "docked".to_string();
    let note = request(1, "content", "", "x", "T");
    let done = finish_push(&mut data, &note, &None, &None, text("slot-1.md"), 1);
    assert_eq!(
        done,
        vec![
            Effect::WriteState,
            Effect::SyncWatches,
            Effect::EnsureWindow(1),
            Effect::RestoreGeometry { slot: 1, frame: restore_dock_geometry(&data, 1) },
            Effect::EmitDock { slot: 1, docked: false },
            Effect::EmitNote(1),
        ]
    );
    assert_eq!(data.slots[0].path, "n/slot-1.md");
    assert_eq!(data.slots[0].state, "open");
}

fn opened(data: &mut AppData, path: &str, canonical: Option<String>, own: Option<String>) -> bool {
    let note = request(1, "path", path, "", "");
    let done = finish_push(data, &note, &canonical, &own, None, 1);
    assert!(!done[1..].iter().any(|e| matches!(e, Effect::DeleteFile(_))));
    done[0] == Effect::DeleteFile("n/slot-1.md".to_string())
}

fn with_copy(mode: &str) -> AppData {
    let mut data = fresh();
    finish_push(&mut data, &request(1, mode, "", "x", ""), &None, &None, None, 1);
    data
}

#[test]
fn opening_a_file_deletes_the_copy_that_it_replaces() {
    for mode in ["content", "other", ""] {
        let mut data = with_copy(mode);
        assert!(opened(&mut data, "/a.md", text("/a.md"), text("/r/n/slot-1.md")));
        assert_eq!(data.slots[0].path, "/a.md");
        // the copy is gone already
        assert!(!opened(&mut data, "/b.md", text("/b.md"), None));
    }
}

#[test]
fn content_in_place_of_content_is_not_deleted() {
    let mut data = with_copy("content");
    let done = finish_push(&mut data, &request(1, "content", "", "y", ""), &None, &None, None, 2);
    assert_eq!(done[0], Effect::WriteState);
    let done = finish_push(&mut data, &request(2, "path", "/a.md", "", ""), &None, &None, None, 2);
    assert_eq!(done[0], Effect::WriteState);
    assert_eq!(data.slots[0].path, "n/slot-1.md");
}

#[test]
fn the_own_file_opened_by_its_path_is_kept() {
    let mut data = with_copy("content");
    assert!(!opened(&mut data, "n/slot-1.md", None, None));
    let mut data = with_copy("content");
    assert!(!opened(&mut data, "../n/slot-1.md", text("/r/n/slot-1.md"), text("/r/n/slot-1.md")));
    let mut data = with_copy("content");
    assert!(!opened(&mut data, "x", text(r"\\?\n/slot-1.md"), None));
}

#[test]
fn files_are_removed_before_they_are_obeyed() {
    let list = ["b.json", "x.tmp", "a.json", "a.JSON"];
    let order = inbox_order(&names(&list));
    assert_eq!(
        inbox_schedule(&order),
        vec![
            InboxAction::Read(2),
            InboxAction::Remove(2),
            InboxAction::Obey(2),
            InboxAction::Read(0),
            InboxAction::Remove(0),
            InboxAction::Obey(0),
        ]
    );
    assert_eq!(inbox_schedule(&inbox_order(&names(&["x.tmp", ".json"]))), vec![]);
}

fn names(list: &[&str]) -> Vec<Vec<u8>> {
    list.iter().map(|n| n.as_bytes().to_vec()).collect()
}

#[test]
fn commands_are_files_with_the_extension() {
    for name in ["a.json", "a.b.json", "a..json", "..json", " .json"] {
        assert!(is_command_name(&name.as_bytes().to_vec()));
    }
    for name in ["", ".json", "json", "a.JSON", "a.jsonx", "a.json.tmp", "ajson", "a."] {
        assert!(!is_command_name(&name.as_bytes().to_vec()));
    }
}

#[test]
fn extensions_agree_with_paths() {
    for name in ["a.json", ".json", "..json", "a.b.json", "json", "a.json.tmp", "a.jsonx", "x..json"] {
        let path = std::path::Path::new("/inbox").join(name);
        let is_json = path.extension().map(|e| e == "json").unwrap_or(false);
        assert_eq!(is_command_name(&name.as_bytes().to_vec()), is_json);
    }
}

#[test]
fn commands_are_taken_by_name() {
    let list = ["b.json", "x.tmp", "a.json", "10.json", "9.json", ".json", "a.jso", "é.json"];
    assert_eq!(inbox_order(&names(&list)), vec![3, 4, 2, 0, 7]);
    let mut sorted: Vec<&str> = list
        .iter()
        .copied()
        .filter(|n| is_command_name(&n.as_bytes().to_vec()))
        .collect();
    sorted.sort();
    let taken: Vec<&str> = inbox_order(&names(&list)).iter().map(|&i| list[i]).collect();
    assert_eq!(taken, sorted);
    assert_eq!(inbox_order(&Vec::new()), Vec::<usize>::new());
}

#[test]
fn every_command_is_taken_once() {
    let list: Vec<String> = (0..50u32).map(|n| format!("{}.json", (n * 37) % 50)).collect();
    let bytes: Vec<Vec<u8>> = list.iter().map(|n| n.as_bytes().to_vec()).collect();
    let order = inbox_order(&bytes);
    let mut seen = vec![false; 50];
    for &i in &order {
        assert!(!seen[i]);
        seen[i] = true;
    }
    assert!(seen.iter().all(|&s| s));
    for pair in order.windows(2) {
        assert!(list[pair[0]] < list[pair[1]]);
    }
}

#[test]
fn a_close_command_closes_its_slot() {
    let mut data = fresh();
    let step = process_inbox(&mut data, &text(r#"{"cmd":"close","slot":2}"#));
    assert_eq!(
        step,
        InboxStep::Do(vec![Effect::WriteState, Effect::SyncWatches, Effect::CloseWindow(2)])
    );
    assert_eq!(data.closing, [false, true]);
    assert_eq!(data.slots[1].state, "empty");
    let step = process_inbox(&mut data, &text(r#"{"cmd":"close"}"#));
    assert_eq!(step, InboxStep::Do(vec![]));
    assert_eq!(data.closing, [false, true]);
}

#[test]
fn a_color_command_colors_its_border() {
    let mut data = fresh();
    let held = text(r##"{"cmd":"set_color","slot":2,"color":"#00ff00"}"##);
    let step = process_inbox(&mut data, &held);
    assert_eq!(
        step,
        InboxStep::Do(vec![
            Effect::SaveSettings,
            Effect::WriteState,
            Effect::EmitColor { slot: 2, color: "#00FF00".to_string() },
        ])
    );
    assert_eq!(slot_color(&data, 2), "#00FF00");
    let held = text(r##"{"cmd":"set_color","slot":1,"color":"#00f000"}"##);
    assert_eq!(process_inbox(&mut data, &held), InboxStep::Nothing);
    assert_eq!(slot_color(&data, 1), "#22D3EE");
    let held = text(r##"{"cmd":"set_color","slot":1,"color":"aéabc"}"##);
    assert_eq!(process_inbox(&mut data, &held), InboxStep::Unreadable);
}

#[test]
fn a_push_command_is_handed_on() {
    let mut data = fresh();
    let step = process_inbox(&mut data, &text(r#"{"cmd":"push","content":"x"}"#));
    assert_eq!(step, InboxStep::Push(request(1, "content", "", "x", "")));
    assert_eq!(data.slots[0].state, "empty");
}

#[test]
fn unreadable_and_unknown_files_are_passed_over() {
    let mut data = fresh();
    assert_eq!(process_inbox(&mut data, &None), InboxStep::Nothing);
    assert_eq!(process_inbox(&mut data, &text("not json")), InboxStep::Nothing);
    assert_eq!(process_inbox(&mut data, &text(r#"{"cmd":"open"}"#)), InboxStep::Nothing);
    assert_eq!(obey(&mut data, Command::Unknown), InboxStep::Nothing);
    assert_eq!(data.closing, [false, false]);
}
