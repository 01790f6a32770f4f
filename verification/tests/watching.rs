use lite_notes::data::AppData;
use lite_notes::watch::{
    canon, classify_change, is_newest, needed_dirs, next_generation, shown_files, sync_watches,
    Touched, TouchedPath, WatchPlan,
};

fn rows(list: &[&str]) -> Vec<String> {
    list.iter().map(|n| n.to_string()).collect()
}

fn showing(first: &str, second: &str) -> AppData {
    let mut data = AppData::new(["n/slot-1.md".to_string(), "n/slot-2.md".to_string()], 0);
    data.slots[0].path = first.to_string();
    data.slots[1].path = second.to_string();
    data
}

fn touched(parent: Option<&str>, key: &str) -> TouchedPath {
    TouchedPath { parent: parent.map(|p| p.to_string()), key: key.to_string() }
}

#[test]
fn paths_are_compared_without_regard_to_case() {
    assert_eq!(canon(&None, r"C:\Users\Me\A.MD"), r"c:\users\me\a.md");
    assert_eq!(canon(&Some("/Real/Place".to_string()), "link"), "/real/place");
    assert_eq!(canon(&None, "ÉTÉ"), "été");
    assert_eq!(canon(&None, ""), "");
}

#[test]
fn ascii_case_makes_no_difference_among_other_letters() {
    for (a, b) in [("ÉTAGE/A", "Étage/a"), ("AΣ", "aΣ"), ("ΣA", "Σa"), ("AΣ.MD", "aΣ.md"), ("İX", "İx")]
    {
        assert_eq!(canon(&None, a), canon(&None, b));
        assert_eq!(canon(&Some(a.to_string()), "p"), canon(&Some(b.to_string()), "q"));
    }
    assert_eq!(canon(&None, "OΣ"), "oς");
}

#[test]
fn the_files_of_the_slots_are_watched() {
    assert_eq!(shown_files(&showing("", "")), rows(&[]));
    assert_eq!(shown_files(&showing("a", "")), rows(&["a"]));
    assert_eq!(shown_files(&showing("", "b")), rows(&["b"]));
    assert_eq!(shown_files(&showing("a", "b")), rows(&["a", "b"]));
}

#[test]
fn directories_are_watched_once() {
    assert_eq!(needed_dirs(&rows(&["c", "n"]), 2), vec![0, 1]);
    assert_eq!(needed_dirs(&rows(&["c", "n", "x", "y"]), 2), vec![0, 1, 2, 3]);
    assert_eq!(needed_dirs(&rows(&["c", "n", "x", "x"]), 2), vec![0, 1, 2]);
    assert_eq!(needed_dirs(&rows(&["c", "n", "n", "c"]), 2), vec![0, 1]);
    assert_eq!(needed_dirs(&rows(&["c", "c", "c"]), 2), vec![0, 1]);
    assert_eq!(needed_dirs(&rows(&[]), 2), Vec::<usize>::new());
}

#[test]
fn watches_follow_what_is_needed() {
    let plan = sync_watches(&rows(&["c", "n", "x"]), &rows(&["c", "n", "y"]));
    assert_eq!(plan, WatchPlan { unwatch: vec![2], watch: vec![2] });
    let plan = sync_watches(&rows(&[]), &rows(&["c", "n"]));
    assert_eq!(plan, WatchPlan { unwatch: vec![], watch: vec![0, 1] });
    let plan = sync_watches(&rows(&["x", "c", "y"]), &rows(&[]));
    assert_eq!(plan, WatchPlan { unwatch: vec![0, 1, 2], watch: vec![] });
    let plan = sync_watches(&rows(&["c", "n"]), &rows(&["c", "n"]));
    assert_eq!(plan, WatchPlan { unwatch: vec![], watch: vec![] });
}

#[test]
fn watches_are_in_line_afterwards() {
    let sets = [vec![], vec!["c"], vec!["c", "n"], vec!["n", "x", "x"], vec!["y", "c"]];
    for current in &sets {
        for needed in &sets {
            let plan = sync_watches(&rows(current), &rows(needed));
            let mut now: Vec<&str> = Vec::new();
            for (i, dir) in current.iter().enumerate() {
                if !plan.unwatch.contains(&i) {
                    now.push(dir);
                }
            }
            for i in plan.watch {
                now.push(needed[i]);
            }
            for dir in ["c", "n", "x", "y"] {
                assert_eq!(now.contains(&dir), needed.contains(&dir));
            }
        }
    }
}

#[test]
fn a_change_is_sorted_out() {
    let data = showing("A", "B");
    let keys = ["a".to_string(), "b".to_string()];
    let paths = vec![
        touched(Some("d"), "z"),
        touched(Some("d"), "b"),
        touched(None, "a"),
        touched(Some("d"), "b"),
    ];
    assert_eq!(
        classify_change(&data, &paths, "inbox", &keys),
        Touched { commands: false, slots: vec![2, 1] }
    );
    let paths = vec![touched(Some("inbox"), "1.json"), touched(Some("d"), "q")];
    assert_eq!(
        classify_change(&data, &paths, "inbox", &keys),
        Touched { commands: true, slots: vec![] }
    );
    assert_eq!(
        classify_change(&data, &vec![], "inbox", &keys),
        Touched { commands: false, slots: vec![] }
    );
}

#[test]
fn one_file_can_be_in_both_slots() {
    let data = showing("A", "a");
    let keys = ["a".to_string(), "a".to_string()];
    let paths = vec![touched(Some("inbox"), "a")];
    assert_eq!(
        classify_change(&data, &paths, "inbox", &keys),
        Touched { commands: true, slots: vec![1, 2] }
    );
}

#[test]
fn a_slot_without_a_file_is_not_touched() {
    let data = showing("", "B");
    let keys = ["".to_string(), "b".to_string()];
    let paths = vec![touched(None, ""), touched(None, "b")];
    assert_eq!(
        classify_change(&data, &paths, "inbox", &keys),
        Touched { commands: false, slots: vec![2] }
    );
}

#[test]
fn a_burst_of_changes_is_shown_once() {
    let mut last = 0;
    let mut burst = Vec::new();
    for _ in 0..5 {
        last = next_generation(last);
        burst.push(last);
    }
    let shown: Vec<u64> = burst.into_iter().filter(|&g| is_newest(g, last)).collect();
    assert_eq!(shown, vec![5]);
}
