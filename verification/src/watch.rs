//! Watching directories: which ones, what a change there touches, and when to show it.

use vstd::prelude::*;
use vstd::utf8::is_ascii_chars;

use crate::case::{ascii_lower, lowercase, lowered};
use crate::data::{AppData, AppModel};
use crate::push::{resolve, resolved_path, text_seen};
use crate::slot::is_slot;
use crate::text::same_text;

verus! {

/// The form in which a path is compared, whatever the case of its letters.
pub open spec fn path_key(path: Seq<char>) -> Seq<char> {
    lowercase(lowered(path))
}

/// Paths that differ at most in the case of ASCII letters are compared as equal.
pub proof fn law_case_of_paths_does_not_matter(a: Seq<char>, b: Seq<char>)
    requires
        a.len() == b.len(),
        forall|i: int| 0 <= i < a.len() ==> ascii_lower(#[trigger] a[i]) == ascii_lower(b[i]),
    ensures
        path_key(a) == path_key(b),
{
    assert(lowered(a) =~= lowered(b));
}

/// A path in the form in which paths are compared: canonical where the system can tell, and
/// without regard to case.
pub fn canon(canonical: &Option<String>, path: &str) -> (r: String)
    ensures
        r@ == lowercase(resolved_path(text_seen(*canonical), path@)),
        r@ == path_key(resolved_path(text_seen(*canonical), path@)),
        is_ascii_chars(resolved_path(text_seen(*canonical), path@)) ==> r@ == lowered(
            resolved_path(text_seen(*canonical), path@),
        ),
{
    resolve(canonical, path).to_lowercase()
}

/// What a row of texts stands for.
pub open spec fn texts(row: Seq<String>) -> Seq<Seq<char>> {
    row.map_values(|text: String| text@)
}

impl AppModel {
    /// The file of a slot, if it shows one.
    pub open spec fn shown_file(self, slot: u8) -> Seq<Seq<char>> {
        if self.slot(slot).path.len() > 0 {
            seq![self.slot(slot).path]
        } else {
            seq![]
        }
    }

    /// The files that the slots show, in the order of the slots.
    pub open spec fn shown_files(self) -> Seq<Seq<char>> {
        self.shown_file(1) + self.shown_file(2)
    }
}

/// The files that the slots show; the directories that they are in need watching.
pub fn shown_files(data: &AppData) -> (r: Vec<String>)
    ensures
        texts(r@) == data@.shown_files(),
{
    let mut files: Vec<String> = Vec::new();
    if !data.slots[0].path.as_str().is_empty() {
        files.push(data.slots[0].path.clone());
    }
    if !data.slots[1].path.as_str().is_empty() {
        files.push(data.slots[1].path.clone());
    }
    proof {
        assert(data@.slot(1).path == data.slots@[0].path@);
        assert(data@.slot(2).path == data.slots@[1].path@);
        assert(texts(files@) =~= data@.shown_files());
    }
    files
}

fn contains_text(row: &Vec<String>, text: &str) -> (r: bool)
    ensures
        r == texts(row@).contains(text@),
{
    let mut i: usize = 0;
    while i < row.len()
        invariant
            i <= row@.len(),
            forall|k: int| 0 <= k < i ==> (#[trigger] row@[k])@ != text@,
        decreases row@.len() - i,
    {
        if same_text(row[i].as_str(), text) {
            assert(texts(row@)[i as int] == text@);
            return true;
        }
        i = i + 1;
    }
    assert forall|k: int| 0 <= k < texts(row@).len() implies texts(row@)[k] != text@ by {
        assert(texts(row@)[k] == row@[k]@);
    }
    false
}

/// One of the directories in `chosen` has this key.
pub open spec fn covered(keys: Seq<Seq<char>>, chosen: Seq<usize>, key: Seq<char>) -> bool {
    exists|i: int| 0 <= i < chosen.len() && keys[(#[trigger] chosen[i]) as int] == key
}

/// The directories to watch, among the first `n` that are asked for: the first `fixed`
/// always, and of the others those that are not covered yet.
pub open spec fn needed(keys: Seq<Seq<char>>, fixed: nat, n: nat) -> Seq<usize>
    decreases n,
{
    if n == 0 {
        seq![]
    } else {
        let before = needed(keys, fixed, (n - 1) as nat);
        if n - 1 < fixed || !covered(keys, before, keys[n - 1]) {
            before.push((n - 1) as usize)
        } else {
            before
        }
    }
}

/// The directories to watch, by their places in `keys`: the first `fixed` are watched
/// whatever the slots show, the others where no directory with the same key came before.
pub fn needed_dirs(keys: &Vec<String>, fixed: usize) -> (r: Vec<usize>)
    ensures
        r@ == needed(texts(keys@), fixed as nat, keys@.len()),
{
    let mut chosen: Vec<usize> = Vec::new();
    let mut n: usize = 0;
    while n < keys.len()
        invariant
            n <= keys@.len(),
            chosen@ == needed(texts(keys@), fixed as nat, n as nat),
            forall|i: int| 0 <= i < chosen@.len() ==> (#[trigger] chosen@[i]) < n,
        decreases keys@.len() - n,
    {
        let mut found: bool = false;
        let mut i: usize = 0;
        while i < chosen.len()
            invariant
                n < keys@.len(),
                i <= chosen@.len(),
                forall|k: int| 0 <= k < chosen@.len() ==> (#[trigger] chosen@[k]) < n,
                found <==> (exists|k: int|
                    0 <= k < i && texts(keys@)[(#[trigger] chosen@[k]) as int] == texts(
                        keys@,
                    )[n as int]),
            decreases chosen@.len() - i,
        {
            if same_text(keys[chosen[i]].as_str(), keys[n].as_str()) {
                assert(texts(keys@)[chosen@[i as int] as int] == texts(keys@)[n as int]);
                found = true;
            }
            i = i + 1;
        }
        assert(found == covered(texts(keys@), chosen@, texts(keys@)[n as int]));
        if n < fixed || !found {
            chosen.push(n);
        }
        n = n + 1;
    }
    chosen
}

/// Every directory that is asked for is watched, itself or one with the same key, and the
/// fixed ones are among them.
pub proof fn law_every_directory_is_covered(keys: Seq<Seq<char>>, fixed: nat, n: nat, k: int)
    requires
        0 <= k < n <= keys.len() <= usize::MAX,
    ensures
        covered(keys, needed(keys, fixed, n), keys[k]),
        k < fixed ==> needed(keys, fixed, n).contains(k as usize),
    decreases n,
{
    let before = needed(keys, fixed, (n - 1) as nat);
    let now = needed(keys, fixed, n);
    if k == n - 1 {
        if n - 1 < fixed || !covered(keys, before, keys[n - 1]) {
            assert(now[before.len() as int] == (n - 1) as usize);
            assert(keys[now[before.len() as int] as int] == keys[k]);
        }
    } else {
        law_every_directory_is_covered(keys, fixed, (n - 1) as nat, k);
        let i = choose|i: int|
            0 <= i < before.len() && keys[(#[trigger] before[i]) as int] == keys[k];
        assert(now[i] == before[i]);
        if k < fixed {
            let j = choose|j: int| 0 <= j < before.len() && before[j] == k as usize;
            assert(now[j] == k as usize);
        }
    }
}

/// No directory is watched twice for what the slots show: what comes behind the fixed ones
/// has a key of its own.
pub proof fn law_watched_directories_differ(
    keys: Seq<Seq<char>>,
    fixed: nat,
    n: nat,
    i: int,
    j: int,
)
    requires
        n <= keys.len() <= usize::MAX,
        0 <= i < j < needed(keys, fixed, n).len(),
        needed(keys, fixed, n)[j] >= fixed,
    ensures
        needed(keys, fixed, n)[i] < needed(keys, fixed, n)[j] < n,
        keys[needed(keys, fixed, n)[i] as int] != keys[needed(keys, fixed, n)[j] as int],
    decreases n,
{
    lemma_needed_ascends(keys, fixed, n, i, j);
    let before = needed(keys, fixed, (n - 1) as nat);
    if j < before.len() {
        law_watched_directories_differ(keys, fixed, (n - 1) as nat, i, j);
    } else {
        assert(!covered(keys, before, keys[n - 1]));
        assert(needed(keys, fixed, n)[i] == before[i]);
        if keys[before[i] as int] == keys[n - 1] {
            assert(covered(keys, before, keys[n - 1]));
        }
    }
}

proof fn lemma_needed_ascends(keys: Seq<Seq<char>>, fixed: nat, n: nat, i: int, j: int)
    requires
        n <= keys.len() <= usize::MAX,
        0 <= i <= j < needed(keys, fixed, n).len(),
    ensures
        i < j ==> needed(keys, fixed, n)[i] < needed(keys, fixed, n)[j],
        needed(keys, fixed, n)[j] < n,
    decreases n,
{
    let before = needed(keys, fixed, (n - 1) as nat);
    if j < before.len() {
        lemma_needed_ascends(keys, fixed, (n - 1) as nat, i, j);
    } else if i < j {
        lemma_needed_ascends(keys, fixed, (n - 1) as nat, i, i);
    }
}

/// `places` are those in `keys` whose key is not among `others`, in ascending order.
pub open spec fn lists_absent(
    places: Seq<usize>,
    keys: Seq<Seq<char>>,
    others: Seq<Seq<char>>,
) -> bool {
    &&& forall|i: int, j: int| 0 <= i < j < places.len() ==> places[i] < places[j]
    &&& forall|i: int|
        0 <= i < places.len() ==> (#[trigger] places[i]) < keys.len() && !others.contains(
            keys[places[i] as int],
        )
    &&& forall|k: int|
        0 <= k < keys.len() && !others.contains(#[trigger] keys[k]) ==> places.contains(k as usize)
}

fn absent(keys: &Vec<String>, others: &Vec<String>) -> (r: Vec<usize>)
    ensures
        lists_absent(r@, texts(keys@), texts(others@)),
{
    let mut places: Vec<usize> = Vec::new();
    let mut k: usize = 0;
    while k < keys.len()
        invariant
            k <= keys@.len(),
            forall|i: int, j: int| 0 <= i < j < places@.len() ==> places@[i] < places@[j],
            forall|i: int|
                0 <= i < places@.len() ==> (#[trigger] places@[i]) < k && !texts(others@).contains(
                    texts(keys@)[places@[i] as int],
                ),
            forall|m: int|
                0 <= m < k && !texts(others@).contains(#[trigger] texts(keys@)[m])
                    ==> places@.contains(m as usize),
        decreases keys@.len() - k,
    {
        let ghost before = places@;
        assert(texts(keys@)[k as int] == keys@[k as int]@);
        if !contains_text(others, keys[k].as_str()) {
            places.push(k);
            assert(places@[before.len() as int] == k);
            assert forall|m: int|
                0 <= m < k + 1 && !texts(others@).contains(
                    #[trigger] texts(keys@)[m],
                ) implies places@.contains(m as usize) by {
                if m < k {
                    let i = choose|i: int| 0 <= i < before.len() && before[i] == m as usize;
                    assert(places@[i] == m as usize);
                }
            }
        }
        k = k + 1;
    }
    places
}

/// How to bring the watches in line: which of the current directories to drop, and which of
/// the needed ones to add.
#[derive(Debug, PartialEq, Eq)]
pub struct WatchPlan {
    pub unwatch: Vec<usize>,
    pub watch: Vec<usize>,
}

/// Compares the directories that are watched with those that need to be, by their keys.
pub fn sync_watches(current: &Vec<String>, needed: &Vec<String>) -> (r: WatchPlan)
    ensures
        lists_absent(r.unwatch@, texts(current@), texts(needed@)),
        lists_absent(r.watch@, texts(needed@), texts(current@)),
{
    WatchPlan { unwatch: absent(current, needed), watch: absent(needed, current) }
}

/// Once the watches are in line, a directory is watched if and only if it needs to be: it
/// was watched before and has been kept, or it has been added.
pub proof fn law_watches_are_in_line(
    current: Seq<Seq<char>>,
    needed: Seq<Seq<char>>,
    unwatch: Seq<usize>,
    watch: Seq<usize>,
    key: Seq<char>,
)
    requires
        current.len() <= usize::MAX,
        needed.len() <= usize::MAX,
        lists_absent(unwatch, current, needed),
        lists_absent(watch, needed, current),
    ensures
        needed.contains(key) <==> {
            ||| exists|i: int|
                0 <= i < current.len() && #[trigger] current[i] == key && !unwatch.contains(
                    i as usize,
                )
            ||| exists|j: int|
                0 <= j < needed.len() && #[trigger] needed[j] == key && watch.contains(j as usize)
        },
{
    if needed.contains(key) {
        if current.contains(key) {
            let i = choose|i: int| 0 <= i < current.len() && current[i] == key;
            assert(current[i] == key);
            if unwatch.contains(i as usize) {
                let m = choose|m: int| 0 <= m < unwatch.len() && unwatch[m] == i as usize;
                assert(!needed.contains(current[unwatch[m] as int]));
            }
        } else {
            let j = choose|j: int| 0 <= j < needed.len() && needed[j] == key;
            assert(needed[j] == key && !current.contains(needed[j]));
        }
    }
    if exists|i: int|
        0 <= i < current.len() && #[trigger] current[i] == key && !unwatch.contains(i as usize) {
        let i = choose|i: int|
            0 <= i < current.len() && #[trigger] current[i] == key && !unwatch.contains(
                i as usize,
            );
        if !needed.contains(current[i]) {
            assert(unwatch.contains(i as usize));
        }
    }
}

/// A path that has changed, in the form in which paths are compared.
pub struct TouchedPath {
    /// The directory that it is in, if it is in one.
    pub parent: Option<String>,
    pub key: String,
}

/// What a change touches.
#[derive(Debug, PartialEq, Eq)]
pub struct Touched {
    /// The inbox.
    pub commands: bool,
    /// The slots whose files have changed.
    pub slots: Vec<u8>,
}

impl AppModel {
    /// A slot shows the file with this key. `keys` are those of the files that the slots
    /// show.
    pub open spec fn shows(self, keys: Seq<Seq<char>>, slot: u8, key: Seq<char>) -> bool {
        self.slot(slot).path.len() > 0 && keys[slot - 1] == key
    }
}

/// A row of slots with one more at its end, unless it is there already or does not count.
pub open spec fn with_touched(slots: Seq<u8>, slot: u8, counts: bool) -> Seq<u8> {
    if counts && !slots.contains(slot) {
        slots.push(slot)
    } else {
        slots
    }
}

/// The slots whose files are among the first `n` paths, in the order in which they came up.
pub open spec fn touched_slots(
    data: AppModel,
    keys: Seq<Seq<char>>,
    paths: Seq<TouchedPath>,
    n: nat,
) -> Seq<u8>
    decreases n,
{
    if n == 0 {
        seq![]
    } else {
        let key = paths[n - 1].key@;
        let before = touched_slots(data, keys, paths, (n - 1) as nat);
        let first = with_touched(before, 1, data.shows(keys, 1, key));
        with_touched(first, 2, data.shows(keys, 2, key))
    }
}

/// One of the paths lies directly inside the inbox.
pub open spec fn touches_commands(paths: Seq<TouchedPath>, commands: Seq<char>) -> bool {
    exists|i: int| 0 <= i < paths.len() && text_seen((#[trigger] paths[i]).parent) == Some(commands)
}

fn contains_slot(slots: &Vec<u8>, slot: u8) -> (r: bool)
    ensures
        r == slots@.contains(slot),
{
    let mut i: usize = 0;
    while i < slots.len()
        invariant
            i <= slots@.len(),
            forall|k: int| 0 <= k < i ==> slots@[k] != slot,
        decreases slots@.len() - i,
    {
        if slots[i] == slot {
            return true;
        }
        i = i + 1;
    }
    false
}

fn touch(slots: &mut Vec<u8>, slot: u8, counts: bool)
    ensures
        final(slots)@ == with_touched(old(slots)@, slot, counts),
{
    if counts && !contains_slot(slots, slot) {
        slots.push(slot);
    }
}

fn is_shown(data: &AppData, keys: &[String; 2], slot: u8, key: &str) -> (r: bool)
    requires
        is_slot(slot),
    ensures
        r == data@.shows(texts(keys@), slot, key@),
{
    let i: usize = (slot - 1) as usize;
    assert(data@.slot(slot).path == data.slots@[i as int].path@);
    !data.slots[i].path.as_str().is_empty() && same_text(keys[i].as_str(), key)
}

/// Sorts out what a change touches. `commands` is the key of the inbox, `keys` are those of
/// the files that the slots show.
pub fn classify_change(
    data: &AppData,
    paths: &Vec<TouchedPath>,
    commands: &str,
    keys: &[String; 2],
) -> (r: Touched)
    ensures
        r.commands == touches_commands(paths@, commands@),
        r.slots@ == touched_slots(data@, texts(keys@), paths@, paths@.len()),
{
    let mut inbox: bool = false;
    let mut slots: Vec<u8> = Vec::new();
    let mut n: usize = 0;
    while n < paths.len()
        invariant
            n <= paths@.len(),
            inbox <==> (exists|i: int|
                0 <= i < n && text_seen((#[trigger] paths@[i]).parent) == Some(commands@)),
            slots@ == touched_slots(data@, texts(keys@), paths@, n as nat),
        decreases paths@.len() - n,
    {
        let path = &paths[n];
        let inside: bool = match &path.parent {
            Some(parent) => same_text(parent.as_str(), commands),
            None => false,
        };
        assert(inside == (text_seen(paths@[n as int].parent) == Some(commands@)));
        if inside {
            inbox = true;
        }
        let first: bool = is_shown(data, keys, 1, path.key.as_str());
        touch(&mut slots, 1, first);
        let second: bool = is_shown(data, keys, 2, path.key.as_str());
        touch(&mut slots, 2, second);
        n = n + 1;
    }
    Touched { commands: inbox, slots }
}

/// A slot is touched if and only if the file that it shows is among the paths, and then
/// once.
pub proof fn law_changes_reach_their_slots(
    data: AppModel,
    keys: Seq<Seq<char>>,
    paths: Seq<TouchedPath>,
    n: nat,
    slot: u8,
)
    requires
        n <= paths.len(),
    ensures
        touched_slots(data, keys, paths, n).contains(slot) <==> is_slot(slot) && exists|i: int|
            0 <= i < n && data.shows(keys, slot, (#[trigger] paths[i]).key@),
        touched_slots(data, keys, paths, n).no_duplicates(),
    decreases n,
{
    if n > 0 {
        law_changes_reach_their_slots(data, keys, paths, (n - 1) as nat, slot);
        let before = touched_slots(data, keys, paths, (n - 1) as nat);
        let key = paths[n - 1].key@;
        let first = with_touched(before, 1, data.shows(keys, 1, key));
        lemma_touch(before, 1, data.shows(keys, 1, key), slot);
        lemma_touch(first, 2, data.shows(keys, 2, key), slot);
        let after = touched_slots(data, keys, paths, n);
        if after.contains(slot) && !before.contains(slot) {
            assert(data.shows(keys, slot, paths[n - 1].key@));
        }
        if is_slot(slot) && exists|i: int|
            0 <= i < n && data.shows(keys, slot, (#[trigger] paths[i]).key@) {
            let i = choose|i: int|
                0 <= i < n && data.shows(keys, slot, (#[trigger] paths[i]).key@);
            assert(i < n - 1 ==> before.contains(slot));
            assert(slot == 1 || slot == 2);
        }
    }
}

proof fn lemma_touch(slots: Seq<u8>, slot: u8, counts: bool, other: u8)
    requires
        slots.no_duplicates(),
    ensures
        with_touched(slots, slot, counts).no_duplicates(),
        with_touched(slots, slot, counts).contains(other) <==> slots.contains(other) || (counts
            && other == slot),
{
    let after = with_touched(slots, slot, counts);
    if counts && !slots.contains(slot) {
        assert(after[slots.len() as int] == slot);
        if slots.contains(other) {
            let i = choose|i: int| 0 <= i < slots.len() && slots[i] == other;
            assert(after[i] == other);
        }
    }
}

/// The number of the change that has come last, given that of the one before.
pub fn next_generation(previous: u64) -> (r: u64)
    requires
        previous < u64::MAX,
    ensures
        r == previous + 1,
{
    previous + 1
}

/// A change is still the last one of its slot.
pub open spec fn newest(generation: u64, last: u64) -> bool {
    generation == last
}

/// Whether a change is still the last one of its slot, so that it is the one to show.
pub fn is_newest(generation: u64, last: u64) -> (r: bool)
    ensures
        r == newest(generation, last),
{
    generation == last
}

/// A burst of changes is shown once: of changes numbered on from `start`, each the one
/// before plus one, only the last is still the last when the burst has gone by.
pub proof fn law_bursts_are_shown_once(start: u64, count: nat, k: nat)
    requires
        1 <= k <= count,
        start + count <= u64::MAX,
    ensures
        newest((start + k) as u64, (start + count) as u64) <==> k == count,
{
}

/// A row of texts is seen text by text.
pub proof fn law_texts_are_seen_one_by_one(row: Seq<String>, i: int)
    requires
        0 <= i < row.len(),
    ensures
        texts(row).len() == row.len(),
        texts(row)[i] == row[i]@,
{
}

/// The directory of every slot with a path needs watching, however the path came there: the
/// files are the paths of both slots in order, as far as there are any.
pub proof fn law_every_shown_file_is_watched(data: AppModel)
    ensures
        data.slots[0].path.len() > 0 && data.slots[1].path.len() > 0 ==> data.shown_files()
            == seq![data.slots[0].path, data.slots[1].path],
        data.slots[0].path.len() > 0 && data.slots[1].path.len() == 0 ==> data.shown_files()
            == seq![data.slots[0].path],
        data.slots[0].path.len() == 0 && data.slots[1].path.len() > 0 ==> data.shown_files()
            == seq![data.slots[1].path],
        data.slots[0].path.len() == 0 && data.slots[1].path.len() == 0 ==> data.shown_files().len()
            == 0,
{
    let files = data.shown_files();
    if data.slots[0].path.len() > 0 && data.slots[1].path.len() > 0 {
        assert(files =~= seq![data.slots[0].path, data.slots[1].path]);
    } else if data.slots[0].path.len() > 0 {
        assert(files =~= seq![data.slots[0].path]);
    } else if data.slots[1].path.len() > 0 {
        assert(files =~= seq![data.slots[1].path]);
    }
}

/// A directory is watched exactly where it is one of the fixed ones, or the first with its key.
pub proof fn law_first_directories_are_watched(keys: Seq<Seq<char>>, fixed: nat, n: nat, k: usize)
    requires
        n <= keys.len() <= usize::MAX,
    ensures
        needed(keys, fixed, n).contains(k) <==> k < n && (k < fixed || forall|m: int|
            0 <= m < k ==> #[trigger] keys[m] != keys[k as int]),
    decreases n,
{
    if n > 0 {
        let before = needed(keys, fixed, (n - 1) as nat);
        let now = needed(keys, fixed, n);
        law_first_directories_are_watched(keys, fixed, (n - 1) as nat, k);
        lemma_needed_is_below(keys, fixed, (n - 1) as nat);
        if now.len() > before.len() {
            assert(now[before.len() as int] == (n - 1) as usize);
            if before.contains(k) {
                let i = choose|i: int| 0 <= i < before.len() && before[i] == k;
                assert(now[i] == k);
            }
        }
        if k == n - 1 && k >= fixed {
            if covered(keys, before, keys[n - 1]) {
                let i = choose|i: int|
                    0 <= i < before.len() && keys[(#[trigger] before[i]) as int] == keys[n - 1];
                assert(before[i] < n - 1);
                assert(keys[before[i] as int] == keys[k as int]);
            } else {
                assert forall|m: int| 0 <= m < k implies #[trigger] keys[m] != keys[k as int] by {
                    law_every_directory_is_covered(keys, fixed, (n - 1) as nat, m);
                    if keys[m] == keys[k as int] {
                        assert(covered(keys, before, keys[n - 1]));
                    }
                }
            }
        }
    }
}

proof fn lemma_needed_is_below(keys: Seq<Seq<char>>, fixed: nat, n: nat)
    requires
        n <= keys.len() <= usize::MAX,
    ensures
        forall|i: int| 0 <= i < needed(keys, fixed, n).len() ==> (#[trigger] needed(
            keys,
            fixed,
            n,
        )[i]) < n,
    decreases n,
{
    if n > 0 {
        lemma_needed_is_below(keys, fixed, (n - 1) as nat);
        let before = needed(keys, fixed, (n - 1) as nat);
        let now = needed(keys, fixed, n);
        assert forall|i: int| 0 <= i < now.len() implies (#[trigger] now[i]) < n by {
            if i < before.len() {
                assert(now[i] == before[i]);
            }
        }
    }
}

/// Directories are watched in the order in which they are asked for.
pub proof fn law_watched_directories_keep_their_order(
    keys: Seq<Seq<char>>,
    fixed: nat,
    n: nat,
    i: int,
    j: int,
)
    requires
        n <= keys.len() <= usize::MAX,
        0 <= i < j < needed(keys, fixed, n).len(),
    ensures
        needed(keys, fixed, n)[i] < needed(keys, fixed, n)[j],
{
    lemma_needed_ascends(keys, fixed, n, i, j);
}

/// The directories to drop, or to add, are exactly those whose keys are not among the others,
/// each once and in order.
pub proof fn law_absent_keys_are_listed(
    places: Seq<usize>,
    keys: Seq<Seq<char>>,
    others: Seq<Seq<char>>,
    k: usize,
    i: int,
    j: int,
)
    requires
        lists_absent(places, keys, others),
        keys.len() <= usize::MAX,
    ensures
        places.contains(k) <==> k < keys.len() && forall|m: int|
            0 <= m < others.len() ==> #[trigger] others[m] != keys[k as int],
        0 <= i < j < places.len() ==> places[i] < places[j],
{
    if places.contains(k) {
        let at = choose|at: int| 0 <= at < places.len() && places[at] == k;
        assert(!others.contains(keys[places[at] as int]));
        assert forall|m: int| 0 <= m < others.len() implies #[trigger] others[m] != keys[k as int] by {
            if others[m] == keys[k as int] {
                assert(others.contains(keys[k as int]));
            }
        }
    }
    if k < keys.len() && forall|m: int|
        0 <= m < others.len() ==> #[trigger] others[m] != keys[k as int] {
        assert(!others.contains(keys[k as int]));
    }
}

/// A slot is to be shown anew exactly where it has a path and the key of its file is that of
/// one of the paths that have changed. It does not matter how the file came into the slot, nor
/// whether it is docked, nor what it is called.
pub proof fn law_changed_files_are_shown_anew(
    data: AppModel,
    keys: Seq<Seq<char>>,
    paths: Seq<TouchedPath>,
    slot: u8,
)
    ensures
        touched_slots(data, keys, paths, paths.len()).contains(slot) <==> (slot == 1 || slot == 2)
            && data.slots[slot - 1].path.len() > 0 && exists|i: int|
            0 <= i < paths.len() && (#[trigger] paths[i]).key@ == keys[slot - 1],
{
    law_changes_reach_their_slots(data, keys, paths, paths.len(), slot);
    if is_slot(slot) {
        assert forall|i: int| 0 <= i < paths.len() implies data.shows(
            keys,
            slot,
            (#[trigger] paths[i]).key@,
        ) == (data.slots[slot - 1].path.len() > 0 && paths[i].key@ == keys[slot - 1]) by {}
    }
}

/// Slots are shown anew in the order in which their files come up among the changes: a further
/// change adds at the end alone, and the first slot before the second.
pub proof fn law_changes_are_shown_in_order(
    data: AppModel,
    keys: Seq<Seq<char>>,
    paths: Seq<TouchedPath>,
    n: nat,
)
    requires
        n < paths.len(),
    ensures
        touched_slots(data, keys, paths, 0).len() == 0,
        touched_slots(data, keys, paths, n).len() <= touched_slots(data, keys, paths, n + 1).len(),
        touched_slots(data, keys, paths, n + 1).subrange(
            0,
            touched_slots(data, keys, paths, n).len() as int,
        ) == touched_slots(data, keys, paths, n),
        touched_slots(data, keys, paths, n + 1).len() == touched_slots(data, keys, paths, n).len()
            + 2 ==> touched_slots(data, keys, paths, n + 1).last() == 2,
{
    let before = touched_slots(data, keys, paths, n);
    let after = touched_slots(data, keys, paths, n + 1);
    assert(after.subrange(0, before.len() as int) =~= before);
}

/// The inbox is to be worked off exactly where one of the paths that have changed lies directly
/// inside it.
pub proof fn law_changes_in_the_inbox_are_noticed(
    paths: Seq<TouchedPath>,
    commands: Seq<char>,
)
    ensures
        touches_commands(paths, commands) <==> exists|i: int|
            0 <= i < paths.len() && ((#[trigger] paths[i]).parent matches Some(parent) && parent@
                == commands),
{
    if touches_commands(paths, commands) {
        let i = choose|i: int|
            0 <= i < paths.len() && text_seen((#[trigger] paths[i]).parent) == Some(commands);
        assert(paths[i].parent matches Some(parent) && parent@ == commands);
    }
    if exists|i: int|
        0 <= i < paths.len() && ((#[trigger] paths[i]).parent matches Some(parent) && parent@
            == commands) {
        let i = choose|i: int|
            0 <= i < paths.len() && ((#[trigger] paths[i]).parent matches Some(parent) && parent@
                == commands);
        assert(text_seen(paths[i].parent) == Some(commands));
    }
}

/// The key of a path is its lower case, with the ASCII letters lowered first.
pub proof fn law_keys_are_in_lower_case(path: Seq<char>)
    ensures
        path_key(path) == lowercase(lowered(path)),
{
}

} // verus!
