//! Notes: what to show for a slot, and what to clear away when it is closed.

use vstd::prelude::*;

use crate::data::{slot_color, AppData, AppModel};
use crate::effect::{deletes, seen, Effect, EffectModel};
use crate::size::{megabytes, megabytes_text};
use crate::slot::{is_slot, valid_slot, SlotInfo, SlotModel};
use crate::text::same_text;

verus! {

/// The largest file that is shown, in bytes.
pub const MAX_NOTE_BYTES: u64 = 5_242_880;

/// What a window shows before any note has come.
pub const WELCOME_MD: &'static str = "# lite-notes\n\nAbhi koi note push nahi hua.\n\nClaude se bolo:\n\n> *\"is md file ko lite-notes me dikhao\"*\n\n- Drag: khali jagah pakad ke kheencho\n- `Ctrl` + scroll: zoom\n- ☰ button: dock to edge\n";

/// What the file system says about a path.
#[derive(Debug, PartialEq, Eq)]
pub struct FileStat {
    pub is_file: bool,
    pub len: u64,
}

/// What has come of the last step towards the text of a note.
pub enum NoteEvent {
    /// Nothing has been done yet.
    Start,
    /// The path of the note has been looked up; there may be nothing there.
    Looked(Option<FileStat>),
    /// The file has been read, or could not be read as text.
    Read(Option<String>),
}

/// The next step towards the text of a note.
#[derive(Debug, PartialEq, Eq)]
pub enum NoteStep {
    /// Look up the path of the note.
    Look,
    /// Read the file as text.
    Read,
    /// Show this text; `missing` tells that the file is not there.
    Show { content: String, missing: bool },
}

/// What a `NoteStep` stands for.
pub enum NoteStepModel {
    Look,
    Read,
    Show { content: Seq<char>, missing: bool },
}

impl View for NoteStep {
    type V = NoteStepModel;

    open spec fn view(&self) -> NoteStepModel {
        match *self {
            NoteStep::Look => NoteStepModel::Look,
            NoteStep::Read => NoteStepModel::Read,
            NoteStep::Show { content, missing } => NoteStepModel::Show {
                content: content@,
                missing,
            },
        }
    }
}

/// What is shown in place of a file that is too large.
pub open spec fn too_large(bytes: u64) -> Seq<char> {
    "> **File too large to display** — "@ + megabytes(bytes) + " MB, limit is "@ + "5"@ + " MB."@
}

/// The step that follows on `event` for a slot.
pub open spec fn note_step(slot: SlotModel, event: NoteEvent) -> NoteStepModel {
    let gone = NoteStepModel::Show { content: Seq::empty(), missing: true };
    match event {
        NoteEvent::Start => if slot.path.len() == 0 {
            NoteStepModel::Show { content: WELCOME_MD@, missing: false }
        } else {
            NoteStepModel::Look
        },
        NoteEvent::Looked(None) => gone,
        NoteEvent::Looked(Some(stat)) => if !stat.is_file {
            gone
        } else if stat.len > MAX_NOTE_BYTES {
            NoteStepModel::Show { content: too_large(stat.len), missing: false }
        } else {
            NoteStepModel::Read
        },
        NoteEvent::Read(Some(content)) => NoteStepModel::Show { content: content@, missing: false },
        NoteEvent::Read(None) => gone,
    }
}

/// Decides how to get the text to show for a slot. A path is looked up before it is read,
/// so that a directory, a device or an oversized file is never read.
pub fn read_note_content(slot: &SlotInfo, event: NoteEvent) -> (r: NoteStep)
    ensures
        r@ == note_step(slot@, event),
{
    match event {
        NoteEvent::Start => {
            if slot.path.as_str().is_empty() {
                NoteStep::Show { content: WELCOME_MD.to_owned(), missing: false }
            } else {
                NoteStep::Look
            }
        },
        NoteEvent::Looked(found) => {
            match found {
                Some(stat) => {
                    if !stat.is_file {
                        NoteStep::Show { content: String::new(), missing: true }
                    } else if stat.len > MAX_NOTE_BYTES {
                        let content = "> **File too large to display** — ".to_owned().concat(
                            megabytes_text(stat.len).as_str(),
                        ).concat(" MB, limit is ").concat("5").concat(" MB.");
                        NoteStep::Show { content, missing: false }
                    } else {
                        NoteStep::Read
                    }
                },
                None => NoteStep::Show { content: String::new(), missing: true },
            }
        },
        NoteEvent::Read(text) => {
            match text {
                Some(content) => NoteStep::Show { content, missing: false },
                None => NoteStep::Show { content: String::new(), missing: true },
            }
        },
    }
}

/// Only a regular file of at most five megabytes is ever read.
pub proof fn law_only_small_files_are_read(slot: SlotModel, event: NoteEvent)
    requires
        note_step(slot, event) is Read,
    ensures
        event matches NoteEvent::Looked(Some(stat)) && stat.is_file && stat.len <= 5 * 1024 * 1024,
{
}

/// What is not there, is no regular file, or cannot be read is shown as missing; a slot
/// without a path, and a file that could be read, never are.
pub proof fn law_missing_files_are_told(slot: SlotModel, stat: FileStat, text: String)
    ensures
        note_step(slot, NoteEvent::Looked(None)) matches NoteStepModel::Show { missing, .. }
            && missing,
        !stat.is_file ==> (note_step(slot, NoteEvent::Looked(Some(stat))) matches NoteStepModel::Show {
            missing,
            ..
        } && missing),
        note_step(slot, NoteEvent::Read(None)) matches NoteStepModel::Show { missing, .. }
            && missing,
        note_step(slot, NoteEvent::Read(Some(text))) == (NoteStepModel::Show {
            content: text@,
            missing: false,
        }),
        slot.path.len() == 0 ==> note_step(slot, NoteEvent::Start) == (NoteStepModel::Show {
            content: WELCOME_MD@,
            missing: false,
        }),
{
}

/// A slot about to be shown: what it shows, and the border of its window.
pub struct NoteHeader {
    pub slot: u8,
    pub info: SlotInfo,
    pub color: String,
}

/// What the windows are told about a note.
#[derive(Debug, PartialEq, Eq)]
pub struct NoteUpdated {
    pub slot: u8,
    pub content: String,
    pub missing: bool,
    pub title: String,
    pub color: String,
}

/// Takes down what there is to know about a slot before its note is read; nothing where
/// there is no such slot.
pub fn emit_note(data: &AppData, slot: u8) -> (r: Option<NoteHeader>)
    ensures
        r is Some <==> is_slot(slot),
        r matches Some(header) ==> {
            &&& header.slot == slot
            &&& header.info@ == data@.slot(slot)
            &&& header.color@ == data@.color(slot)
        },
{
    if !valid_slot(slot) {
        return None;
    }
    let i: usize = (slot - 1) as usize;
    Some(NoteHeader { slot, info: data.slots[i].clone(), color: slot_color(data, slot) })
}

/// What the windows are told about a note once its text is there.
pub fn note_updated(header: NoteHeader, content: String, missing: bool) -> (r: NoteUpdated)
    ensures
        r.slot == header.slot,
        r.content@ == content@,
        r.missing == missing,
        r.title@ == header.info@.title,
        r.color@ == header.color@,
{
    NoteUpdated { slot: header.slot, content, missing, title: header.info.title, color: header.color }
}

/// The copy that a slot leaves behind, to be deleted.
pub open spec fn leftover(info: SlotModel) -> Seq<EffectModel> {
    if info.owns_copy() {
        seq![EffectModel::DeleteFile(info.path)]
    } else {
        seq![]
    }
}

impl AppModel {
    /// The state after a slot has been cleared.
    pub open spec fn cleaned(self, slot: u8, close_window: bool) -> AppModel {
        if !is_slot(slot) {
            self
        } else if close_window {
            self.with_slot(slot, SlotModel::emptied(self.color(slot))).with_closing(slot, true)
        } else {
            self.with_slot(slot, SlotModel::emptied(self.color(slot)))
        }
    }

    /// What is done when a slot is cleared.
    pub open spec fn cleaning(self, slot: u8, close_window: bool) -> Seq<EffectModel> {
        if !is_slot(slot) {
            seq![]
        } else if close_window {
            leftover(self.slot(slot)) + seq![
                EffectModel::WriteState,
                EffectModel::SyncWatches,
                EffectModel::CloseWindow(slot),
            ]
        } else {
            leftover(self.slot(slot)) + seq![EffectModel::WriteState, EffectModel::SyncWatches]
        }
    }
}

/// Adds the deletion of the copy that a slot leaves behind.
fn push_leftover(effects: &mut Vec<Effect>, info: &SlotInfo)
    ensures
        seen(final(effects)@) == seen(old(effects)@) + leftover(info@),
{
    let ghost before = seen(effects@);
    if !same_text(info.mode.as_str(), "path") && !info.path.as_str().is_empty() {
        effects.push(Effect::DeleteFile(info.path.clone()));
    }
    assert(seen(effects@) =~= before + leftover(info@));
}

/// Clears a slot: its own copy of the note goes, the slot becomes empty, and its window is
/// closed where `close_window` says so.
pub fn cleanup_slot(data: &mut AppData, slot: u8, close_window: bool) -> (r: Vec<Effect>)
    ensures
        final(data)@ == old(data)@.cleaned(slot, close_window),
        seen(r@) == old(data)@.cleaning(slot, close_window),
        old(data)@.inv() ==> final(data)@.inv(),
{
    let mut effects: Vec<Effect> = Vec::new();
    if !valid_slot(slot) {
        assert(seen(effects@) =~= seq![]);
        return effects;
    }
    let i: usize = (slot - 1) as usize;
    let color = slot_color(data, slot);
    assert(seen(effects@) =~= seq![]);
    push_leftover(&mut effects, &data.slots[i]);
    assert(seen(effects@) =~= leftover(data@.slot(slot)));
    data.set_slot(
        slot,
        SlotInfo {
            state: "empty".to_owned(),
            mode: String::new(),
            path: String::new(),
            title: String::new(),
            color,
            last_updated: 0,
        },
    );
    if close_window {
        data.set_closing(slot, true);
    }
    effects.push(Effect::WriteState);
    effects.push(Effect::SyncWatches);
    if close_window {
        effects.push(Effect::CloseWindow(slot));
    }
    proof {
        assert(seen(effects@) =~= old(data)@.cleaning(slot, close_window));
        if old(data)@.inv() {
            law_cleanup_keeps_invariant(old(data)@, slot, close_window);
        }
    }
    effects
}

impl AppModel {
    /// The state after the window of a slot has been asked to close, if there is one: it
    /// keeps its label until it is gone, and where there is none the label is free at once.
    pub open spec fn closed_window(self, slot: u8, has_window: bool) -> AppModel {
        if has_window {
            self
        } else {
            self.with_closing(slot, false)
        }
    }
}

/// Decides whether there is a window to close.
pub fn close_window(data: &mut AppData, slot: u8, has_window: bool) -> (r: bool)
    requires
        is_slot(slot),
    ensures
        r == has_window,
        final(data)@ == old(data)@.closed_window(slot, has_window),
        old(data)@.inv() ==> final(data)@.inv(),
{
    if !has_window {
        window_gone(data, slot);
    }
    has_window
}

/// When a slot has been closed its label is taken if and only if there is a window to close;
/// a slot that is only cleared keeps its label as it was, and so does the other slot in any
/// case.
pub proof fn law_labels_are_taken_by_closing_windows(
    data: AppModel,
    slot: u8,
    has_window: bool,
    other: u8,
)
    requires
        data.two_of_each(),
        is_slot(slot),
        is_slot(other),
        other != slot,
    ensures
        data.cleaning(slot, true).last() == EffectModel::CloseWindow(slot),
        data.cleaned(slot, true).closed_window(slot, has_window).closing[slot - 1] == has_window,
        data.cleaned(slot, true).closed_window(slot, has_window).closing[other - 1]
            == data.closing[other - 1],
        data.cleaned(slot, false).closing == data.closing,
        !data.cleaning(slot, false).contains(EffectModel::CloseWindow(slot)),
{
    let effects = data.cleaning(slot, false);
    assert forall|i: int| 0 <= i < effects.len() implies effects[i] != EffectModel::CloseWindow(
        slot,
    ) by {}
}

/// Closes a slot and its window.
pub fn close_slot(data: &mut AppData, slot: u8) -> (r: Vec<Effect>)
    ensures
        final(data)@ == old(data)@.cleaned(slot, true),
        seen(r@) == old(data)@.cleaning(slot, true),
        old(data)@.inv() ==> final(data)@.inv(),
{
    cleanup_slot(data, slot, true)
}

/// The window of a slot is about to be closed from outside: its slot is cleared, and the
/// label is taken until the window is gone.
pub fn close_requested(data: &mut AppData, slot: u8) -> (r: Vec<Effect>)
    requires
        is_slot(slot),
    ensures
        final(data)@ == old(data)@.cleaned(slot, false).with_closing(slot, true),
        seen(r@) == old(data)@.cleaning(slot, false),
        old(data)@.inv() ==> final(data)@.inv(),
{
    let effects = cleanup_slot(data, slot, false);
    let ghost between = data@;
    data.set_closing(slot, true);
    proof {
        lemma_closing_keeps_invariant(between, slot, true);
    }
    effects
}

/// The window of a slot is gone, or there was none: its label is free again.
pub fn window_gone(data: &mut AppData, slot: u8)
    requires
        is_slot(slot),
    ensures
        final(data)@ == old(data)@.with_closing(slot, false),
        old(data)@.inv() ==> final(data)@.inv(),
{
    data.set_closing(slot, false);
    proof {
        lemma_closing_keeps_invariant(old(data)@, slot, false);
    }
}

proof fn lemma_closing_keeps_invariant(data: AppModel, slot: u8, closing: bool)
    requires
        is_slot(slot),
    ensures
        data.inv() ==> data.with_closing(slot, closing).inv(),
{
    let after = data.with_closing(slot, closing);
    assert forall|n: u8| is_slot(n) implies #[trigger] after.slot(n) == data.slot(n) by {}
    assert forall|n: u8| is_slot(n) implies #[trigger] after.color(n) == data.color(n) by {}
}

/// Clearing a slot keeps the invariant of the state.
pub proof fn law_cleanup_keeps_invariant(data: AppModel, slot: u8, close_window: bool)
    requires
        data.inv(),
    ensures
        data.cleaned(slot, close_window).inv(),
{
    let after = data.cleaned(slot, close_window);
    assert forall|n: u8| is_slot(n) && n != slot implies #[trigger] after.slot(n) == data.slot(
        n,
    ) by {}
    assert forall|n: u8| is_slot(n) implies #[trigger] after.color(n) == data.color(n) by {}
}

impl AppModel {
    /// A slot as it is left when the application ends.
    pub open spec fn at_exit(self, slot: u8) -> SlotModel {
        SlotModel {
            state: "empty"@,
            mode: Seq::empty(),
            path: Seq::empty(),
            title: Seq::empty(),
            ..self.slot(slot)
        }
    }

    /// The state as it is left when the application ends.
    pub open spec fn ended(self) -> AppModel {
        AppModel { slots: seq![self.at_exit(1), self.at_exit(2)], ..self }
    }

    /// What is done when the application ends.
    pub open spec fn ending(self) -> Seq<EffectModel> {
        leftover(self.slot(1)) + leftover(self.slot(2)) + seq![
            EffectModel::WriteState,
            EffectModel::SaveSettings,
        ]
    }
}

/// Clears both slots when the application ends. The preferences are written one last time.
pub fn final_cleanup(data: &mut AppData) -> (r: Vec<Effect>)
    ensures
        final(data)@ == old(data)@.ended(),
        seen(r@) == old(data)@.ending(),
        old(data)@.inv() ==> final(data)@.inv(),
{
    let mut effects: Vec<Effect> = Vec::new();
    assert(seen(effects@) =~= seq![]);
    push_leftover(&mut effects, &data.slots[0]);
    push_leftover(&mut effects, &data.slots[1]);
    let first = SlotInfo {
        state: "empty".to_owned(),
        mode: String::new(),
        path: String::new(),
        title: String::new(),
        color: data.slots[0].color.clone(),
        last_updated: data.slots[0].last_updated,
    };
    let second = SlotInfo {
        state: "empty".to_owned(),
        mode: String::new(),
        path: String::new(),
        title: String::new(),
        color: data.slots[1].color.clone(),
        last_updated: data.slots[1].last_updated,
    };
    data.set_slot(1, first);
    data.set_slot(2, second);
    effects.push(Effect::WriteState);
    effects.push(Effect::SaveSettings);
    proof {
        assert(data@.slots =~= old(data)@.ended().slots);
        assert(seen(effects@) =~= old(data)@.ending());
        if old(data)@.inv() {
            law_ending_keeps_invariant(old(data)@);
        }
    }
    effects
}

/// Clearing both slots at the end keeps the invariant of the state.
pub proof fn law_ending_keeps_invariant(data: AppModel)
    requires
        data.inv(),
    ensures
        data.ended().inv(),
{
    let after = data.ended();
    assert forall|n: u8| is_slot(n) implies #[trigger] after.slot(n) == data.at_exit(n) by {
        assert(n == 1 || n == 2);
    }
    assert forall|n: u8| is_slot(n) implies #[trigger] after.color(n) == data.color(n) by {}
    assert forall|n: u8| #![trigger after.slot(n)] is_slot(n) && after.slot(n).color.len() > 0 implies after.slot(
        n,
    ).color == after.color(n) by {
        assert(data.slot(n).color == after.slot(n).color);
    }
}

/// Clearing a slot, and ending the application, delete nothing but the copies inside the
/// notes directory that the application wrote itself.
pub proof fn law_only_own_copies_are_deleted(
    data: AppModel,
    slot: u8,
    close_window: bool,
    path: Seq<char>,
)
    requires
        data.inv(),
        deletes(data.cleaning(slot, close_window), path) || deletes(data.ending(), path),
    ensures
        path == data.note_file(1) || path == data.note_file(2),
{
    if deletes(data.cleaning(slot, close_window), path) {
        let effects = data.cleaning(slot, close_window);
        let i = choose|i: int|
            0 <= i < effects.len() && effects[i] == EffectModel::DeleteFile(path);
        assert(effects[i] == EffectModel::DeleteFile(path));
        assert(data.slot(slot).owns_copy());
        assert(slot == 1 || slot == 2);
    } else {
        let effects = data.ending();
        let i = choose|i: int|
            0 <= i < effects.len() && effects[i] == EffectModel::DeleteFile(path);
        assert(effects[i] == EffectModel::DeleteFile(path));
        if data.slot(1).owns_copy() && i == 0 {
            assert(effects[0] == EffectModel::DeleteFile(data.slot(1).path));
        } else {
            assert(data.slot(2).owns_copy());
            assert(data.slot(2).path == path);
        }
    }
}

/// A file that was opened by its path is never deleted: clearing its slot only stops
/// watching it.
pub proof fn law_opened_files_are_kept(
    data: AppModel,
    slot: u8,
    close_window: bool,
    path: Seq<char>,
)
    requires
        data.two_of_each(),
        is_slot(slot),
        data.slot(slot).mode == "path"@,
    ensures
        !deletes(data.cleaning(slot, close_window), path),
        data.cleaning(slot, close_window).contains(EffectModel::SyncWatches),
        data.cleaned(slot, close_window).slot(slot).path.len() == 0,
{
    let effects = data.cleaning(slot, close_window);
    assert(leftover(data.slot(slot)).len() == 0);
    assert(effects[1] == EffectModel::SyncWatches);
}

/// The copy of a note that came as content is deleted when the note is closed and when the
/// application ends.
pub proof fn law_copies_go_with_the_note(data: AppModel, slot: u8, close_window: bool)
    requires
        is_slot(slot),
        data.slot(slot).owns_copy(),
    ensures
        deletes(data.cleaning(slot, close_window), data.slot(slot).path),
        deletes(data.ending(), data.slot(slot).path),
{
    let path = data.slot(slot).path;
    assert(data.cleaning(slot, close_window)[0] == EffectModel::DeleteFile(path));
    let effects = data.ending();
    if slot == 1 {
        assert(effects[0] == EffectModel::DeleteFile(path));
    } else {
        assert(effects[leftover(data.slot(1)).len() as int] == EffectModel::DeleteFile(path));
    }
}

/// Only the note is gone when a slot is cleared, or the application ends: the preferences
/// are left as they are, and so is the other slot while the application runs.
pub proof fn law_preferences_outlive_notes(
    data: AppModel,
    slot: u8,
    close_window: bool,
    other: u8,
)
    requires
        data.two_of_each(),
        is_slot(slot),
        is_slot(other),
        other != slot,
    ensures
        data.cleaned(slot, close_window).settings == data.settings,
        data.cleaned(slot, close_window).slot(other) == data.slot(other),
        data.cleaned(slot, close_window).slot(slot).state == "empty"@,
        data.ended().settings == data.settings,
        data.ending().contains(EffectModel::SaveSettings),
{
    let effects = data.ending();
    assert(effects[effects.len() - 1] == EffectModel::SaveSettings);
}

/// Clearing a slot twice does no more to the slots than clearing it once.
pub proof fn law_cleanup_is_idempotent(data: AppModel, slot: u8)
    requires
        data.two_of_each(),
    ensures
        data.cleaned(slot, true).cleaned(slot, false) == data.cleaned(slot, true),
        forall|path: Seq<char>|
            !#[trigger] deletes(data.cleaned(slot, true).cleaning(slot, false), path),
{
    let once = data.cleaned(slot, true);
    if is_slot(slot) {
        assert(once.color(slot) == data.color(slot));
        assert(once.slot(slot) == SlotModel::emptied(data.color(slot)));
        assert(once.cleaned(slot, false).slots =~= once.slots);
        assert(leftover(once.slot(slot)).len() == 0);
    }
}

/// A file is read exactly where it is a regular one of at most five megabytes; what is larger
/// is told by its size, and what is no regular file is missing. None of this depends on what
/// else the slot holds.
pub proof fn law_regular_files_are_read(slot: SlotModel, stat: FileStat)
    ensures
        note_step(slot, NoteEvent::Looked(Some(stat))) is Read <==> stat.is_file && stat.len <= 5
            * 1024 * 1024,
        stat.is_file && stat.len > 5 * 1024 * 1024 ==> note_step(
            slot,
            NoteEvent::Looked(Some(stat)),
        ) == (NoteStepModel::Show {
            content: "> **File too large to display** — "@ + megabytes(stat.len)
                + " MB, limit is "@ + "5"@ + " MB."@,
            missing: false,
        }),
        !stat.is_file ==> note_step(slot, NoteEvent::Looked(Some(stat))) == (NoteStepModel::Show {
            content: Seq::empty(),
            missing: true,
        }),
{
}

/// A slot with a path has it looked up, whatever else it holds; one without shows the welcome
/// text. What has been read is shown as it is, and what could not be found or read is an empty
/// text that is missing.
pub proof fn law_what_is_read_is_shown(slot: SlotModel, text: String)
    ensures
        slot.path.len() > 0 ==> note_step(slot, NoteEvent::Start) is Look,
        slot.path.len() == 0 ==> note_step(slot, NoteEvent::Start) == (NoteStepModel::Show {
            content: "# lite-notes\n\nAbhi koi note push nahi hua.\n\nClaude se bolo:\n\n> *\"is md file ko lite-notes me dikhao\"*\n\n- Drag: khali jagah pakad ke kheencho\n- `Ctrl` + scroll: zoom\n- ☰ button: dock to edge\n"@,
            missing: false,
        }),
        note_step(slot, NoteEvent::Read(Some(text))) == (NoteStepModel::Show {
            content: text@,
            missing: false,
        }),
        note_step(slot, NoteEvent::Looked(None)) == (NoteStepModel::Show {
            content: Seq::empty(),
            missing: true,
        }),
        note_step(slot, NoteEvent::Read(None)) == (NoteStepModel::Show {
            content: Seq::empty(),
            missing: true,
        }),
{
}

/// Steps towards the text of a note are seen as they are.
pub proof fn law_note_steps_are_seen_as_they_are(step: NoteStep)
    ensures
        match step {
            NoteStep::Look => step@ is Look,
            NoteStep::Read => step@ is Read,
            NoteStep::Show { content, missing } => step@ == (NoteStepModel::Show {
                content: content@,
                missing,
            }),
        },
{
}

/// Clearing a slot leaves it empty but for the colour of its border, which it reports from
/// then on, and takes its label if the window is to be closed. Nothing else changes.
pub proof fn law_cleared_slots_are_empty(data: AppModel, slot: u8, close_window: bool, other: u8)
    requires
        data.slots.len() == 2,
        data.closing.len() == 2,
        is_slot(slot),
        is_slot(other),
        other != slot,
    ensures
        data.cleaned(slot, close_window).slots[slot - 1].state == "empty"@,
        data.cleaned(slot, close_window).slots[slot - 1].mode.len() == 0,
        data.cleaned(slot, close_window).slots[slot - 1].path.len() == 0,
        data.cleaned(slot, close_window).slots[slot - 1].title.len() == 0,
        data.cleaned(slot, close_window).slots[slot - 1].color == data.color(slot),
        data.cleaned(slot, close_window).slots[slot - 1].last_updated == 0,
        data.cleaned(slot, close_window).slots[other - 1] == data.slots[other - 1],
        data.cleaned(slot, close_window).slots.len() == 2,
        data.cleaned(slot, close_window).closing.len() == 2,
        data.cleaned(slot, close_window).closing[slot - 1] == (close_window
            || data.closing[slot - 1]),
        data.cleaned(slot, close_window).closing[other - 1] == data.closing[other - 1],
        data.cleaned(slot, close_window).settings == data.settings,
        data.cleaned(slot, close_window).prev_bounds == data.prev_bounds,
        data.cleaned(slot, close_window).last_settings_save == data.last_settings_save,
        data.cleaned(slot, close_window).note_files == data.note_files,
{
}

/// Clearing a slot first deletes the file that it shows, unless there is none or it was opened
/// by its path; then the state is reported and the watches are brought in line, and last of all
/// the slot's own window is closed where that was asked for. What is no slot is left alone.
pub proof fn law_clearing_deletes_reports_and_closes(data: AppModel, slot: u8)
    ensures
        slot != 1 && slot != 2 ==> data.cleaned(slot, true) == data && data.cleaned(slot, false)
            == data && data.cleaning(slot, true).len() == 0 && data.cleaning(slot, false).len()
            == 0,
        (slot == 1 || slot == 2) && data.slots[slot - 1].mode != "path"@ && data.slots[slot
            - 1].path.len() > 0 ==> data.cleaning(slot, false) == seq![
            EffectModel::DeleteFile(data.slots[slot - 1].path),
            EffectModel::WriteState,
            EffectModel::SyncWatches,
        ],
        (slot == 1 || slot == 2) && (data.slots[slot - 1].mode == "path"@ || data.slots[slot
            - 1].path.len() == 0) ==> data.cleaning(slot, false) == seq![
            EffectModel::WriteState,
            EffectModel::SyncWatches,
        ],
        slot == 1 || slot == 2 ==> data.cleaning(slot, true) == data.cleaning(slot, false).push(
            EffectModel::CloseWindow(slot),
        ),
{
    if is_slot(slot) {
        let info = data.slots[slot - 1];
        assert(data.cleaning(slot, true) =~= data.cleaning(slot, false).push(
            EffectModel::CloseWindow(slot),
        ));
        if info.mode != "path"@ && info.path.len() > 0 {
            assert(data.cleaning(slot, false) =~= seq![
                EffectModel::DeleteFile(info.path),
                EffectModel::WriteState,
                EffectModel::SyncWatches,
            ]);
        } else {
            assert(data.cleaning(slot, false) =~= seq![
                EffectModel::WriteState,
                EffectModel::SyncWatches,
            ]);
        }
    }
}

/// At the end both slots are empty, with their colours and times as they were, and nothing
/// else has changed.
pub proof fn law_both_slots_are_empty_at_the_end(data: AppModel, i: int)
    requires
        data.slots.len() == 2,
        0 <= i < 2,
    ensures
        data.ended().slots.len() == 2,
        data.ended().slots[i].state == "empty"@,
        data.ended().slots[i].mode.len() == 0,
        data.ended().slots[i].path.len() == 0,
        data.ended().slots[i].title.len() == 0,
        data.ended().slots[i].color == data.slots[i].color,
        data.ended().slots[i].last_updated == data.slots[i].last_updated,
        data.ended().settings == data.settings,
        data.ended().closing == data.closing,
        data.ended().prev_bounds == data.prev_bounds,
        data.ended().last_settings_save == data.last_settings_save,
        data.ended().note_files == data.note_files,
{
}

/// At the end every slot has the file deleted that it shows, unless there is none or it was
/// opened by its path, and nothing else is deleted; then the state is reported, and last of all
/// the preferences are written.
pub proof fn law_ending_deletes_reports_and_saves(data: AppModel, path: Seq<char>)
    requires
        data.slots.len() == 2,
    ensures
        deletes(data.ending(), path) <==> path.len() > 0 && ((data.slots[0].path == path
            && data.slots[0].mode != "path"@) || (data.slots[1].path == path && data.slots[1].mode
            != "path"@)),
        data.ending().len() >= 2,
        data.ending()[data.ending().len() - 1] == EffectModel::SaveSettings,
        data.ending()[data.ending().len() - 2] == EffectModel::WriteState,
        forall|i: int| 0 <= i < data.ending().len() - 2 ==> (#[trigger] data.ending()[i]) is DeleteFile,
{
    let effects = data.ending();
    let first = leftover(data.slot(1)).len() as int;
    assert(data.slot(1) == data.slots[0] && data.slot(2) == data.slots[1]);
    if data.slots[0].owns_copy() {
        assert(effects[0] == EffectModel::DeleteFile(data.slots[0].path));
    }
    if data.slots[1].owns_copy() {
        assert(effects[first] == EffectModel::DeleteFile(data.slots[1].path));
    }
    if deletes(effects, path) {
        let i = choose|i: int| 0 <= i < effects.len() && effects[i] == EffectModel::DeleteFile(path);
        assert(effects[i] == EffectModel::DeleteFile(path));
    }
}

/// A window that is there keeps its label while it closes, and where there is none the label
/// is free at once; nothing else changes either way.
pub proof fn law_closing_concerns_one_label(data: AppModel, slot: u8, has_window: bool, other: u8)
    requires
        data.closing.len() == 2,
        is_slot(slot),
        is_slot(other),
        other != slot,
    ensures
        data.closed_window(slot, true) == data,
        !data.closed_window(slot, false).closing[slot - 1],
        data.closed_window(slot, has_window).closing.len() == 2,
        data.closed_window(slot, has_window).closing[other - 1] == data.closing[other - 1],
        data.closed_window(slot, has_window).slots == data.slots,
        data.closed_window(slot, has_window).settings == data.settings,
        data.closed_window(slot, has_window).prev_bounds == data.prev_bounds,
        data.closed_window(slot, has_window).note_files == data.note_files,
        data.with_closing(slot, has_window).closing[slot - 1] == has_window,
        data.with_closing(slot, has_window).closing[other - 1] == data.closing[other - 1],
        data.with_closing(slot, has_window).slots == data.slots,
        data.with_closing(slot, has_window).settings == data.settings,
        data.with_closing(slot, has_window).prev_bounds == data.prev_bounds,
        data.with_closing(slot, has_window).note_files == data.note_files,
        data.with_closing(slot, has_window).last_settings_save == data.last_settings_save,
{
}

} // verus!
