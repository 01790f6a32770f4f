//! Pushing a note into a slot.

use vstd::prelude::*;

use crate::data::{slot_color, AppData, AppModel};
use crate::dock::{restore_dock_geometry, restored_frame};
use crate::effect::{deletes, seen, Effect, EffectModel};
use crate::notes::{note_step, NoteEvent, NoteStepModel};
use crate::slot::{is_slot, known_state, valid_slot, SlotInfo, SlotModel};
use crate::text::{decimal, decimal_text, same_text, trim_prefixes, without_prefixes};

verus! {

/// How often a push is put off while the window it needs is being closed.
pub const PUSH_RETRIES: u8 = 15;

/// How long a push is put off each time, in milliseconds.
pub const PUSH_RETRY_AFTER: u64 = 150;

/// The request to show a note: the file at `path` in the mode "path", and `content` in
/// every other mode.
#[derive(Debug, PartialEq, Eq)]
pub struct PushRequest {
    pub slot: u8,
    pub mode: String,
    pub path: String,
    pub content: String,
    pub title: String,
}

/// What a `PushRequest` stands for.
pub struct PushModel {
    pub slot: u8,
    pub mode: Seq<char>,
    pub path: Seq<char>,
    pub content: Seq<char>,
    pub title: Seq<char>,
}

impl View for PushRequest {
    type V = PushModel;

    open spec fn view(&self) -> PushModel {
        PushModel {
            slot: self.slot,
            mode: self.mode@,
            path: self.path@,
            content: self.content@,
            title: self.title@,
        }
    }
}

/// What a push needs from the file system, or that there is nothing to do for now.
#[derive(Debug, PartialEq, Eq)]
pub enum PushStep {
    /// Drop the request.
    Ignore,
    /// Come back with the request after so many milliseconds.
    Retry { after: u64, retries: u8 },
    /// Find the canonical form of this path.
    Canonicalize(String),
    /// Write this into the file for the content of the slot.
    WriteNote { slot: u8, content: String },
}

/// What a `PushStep` stands for.
pub enum PushStepModel {
    Ignore,
    Retry { after: u64, retries: u8 },
    Canonicalize(Seq<char>),
    WriteNote { slot: u8, content: Seq<char> },
}

impl View for PushStep {
    type V = PushStepModel;

    open spec fn view(&self) -> PushStepModel {
        match *self {
            PushStep::Ignore => PushStepModel::Ignore,
            PushStep::Retry { after, retries } => PushStepModel::Retry { after, retries },
            PushStep::Canonicalize(path) => PushStepModel::Canonicalize(path@),
            PushStep::WriteNote { slot, content } => PushStepModel::WriteNote {
                slot,
                content: content@,
            },
        }
    }
}

impl AppModel {
    /// What a request to push needs first, when it has been put off `retries` times.
    pub open spec fn push_step(self, request: PushModel, retries: u8) -> PushStepModel {
        if !is_slot(request.slot) {
            PushStepModel::Ignore
        } else if self.closing[request.slot - 1] {
            if retries < PUSH_RETRIES {
                PushStepModel::Retry { after: PUSH_RETRY_AFTER, retries: (retries + 1) as u8 }
            } else {
                PushStepModel::Ignore
            }
        } else if request.mode == "path"@ {
            PushStepModel::Canonicalize(request.path)
        } else {
            PushStepModel::WriteNote { slot: request.slot, content: request.content }
        }
    }

    /// The file that a slot shows after a push: the one that was asked for, in its canonical
    /// form without the mark of a verbatim path where it has one, or the slot's own.
    pub open spec fn pushed_path(self, request: PushModel, canonical: Option<Seq<char>>) -> Seq<
        char,
    > {
        if request.mode == "path"@ {
            match canonical {
                Some(path) => without_prefixes(path, "\\\\?\\"@),
                None => request.path,
            }
        } else {
            self.note_file(request.slot)
        }
    }

    /// The file that a request opens by its path is the slot's own. `canonical` and `own` are
    /// the canonical forms of the two, each where there is one.
    pub open spec fn opens_own_file(
        self,
        request: PushModel,
        canonical: Option<Seq<char>>,
        own: Option<Seq<char>>,
    ) -> bool {
        ||| self.pushed_path(request, canonical) == self.note_file(request.slot)
        ||| resolved_path(canonical, request.path) == resolved_path(
            own,
            self.note_file(request.slot),
        )
    }

    /// A push takes the place of a note whose copy has to go: the slot shows a copy of its
    /// own, and another file is opened by its path.
    pub open spec fn replaces_copy(
        self,
        request: PushModel,
        canonical: Option<Seq<char>>,
        own: Option<Seq<char>>,
    ) -> bool {
        &&& request.mode == "path"@
        &&& self.slot(request.slot).owns_copy()
        &&& !self.opens_own_file(request, canonical, own)
    }

    /// What a slot shows after a push.
    pub open spec fn pushed_slot(
        self,
        request: PushModel,
        canonical: Option<Seq<char>>,
        file_name: Option<Seq<char>>,
        now: u64,
    ) -> SlotModel {
        SlotModel {
            state: "open"@,
            mode: request.mode,
            path: self.pushed_path(request, canonical),
            title: pushed_title(request, file_name),
            color: self.color(request.slot),
            last_updated: now,
        }
    }

    /// The state after a push.
    pub open spec fn pushed(
        self,
        request: PushModel,
        canonical: Option<Seq<char>>,
        file_name: Option<Seq<char>>,
        now: u64,
    ) -> AppModel {
        self.with_slot(request.slot, self.pushed_slot(request, canonical, file_name, now))
    }

    /// What is done after a push: a copy that has lost its note is deleted, and a docked
    /// window gets its shape back.
    pub open spec fn pushing(
        self,
        request: PushModel,
        canonical: Option<Seq<char>>,
        own: Option<Seq<char>>,
    ) -> Seq<EffectModel> {
        let slot = request.slot;
        let replaced = if self.replaces_copy(request, canonical, own) {
            seq![EffectModel::DeleteFile(self.note_file(slot))]
        } else {
            seq![]
        };
        let shown = replaced + seq![
            EffectModel::WriteState,
            EffectModel::SyncWatches,
            EffectModel::EnsureWindow(slot),
        ];
        if self.slot(slot).state == "docked"@ {
            shown + seq![
                EffectModel::RestoreGeometry {
                    slot,
                    frame: restored_frame(self.restore_bounds(slot)),
                },
                EffectModel::EmitDock { slot, docked: false },
                EffectModel::EmitNote(slot),
            ]
        } else {
            shown + seq![EffectModel::EmitNote(slot)]
        }
    }
}

/// The title of a note: the one that was asked for, or the name of its file, or the number
/// of its slot.
pub open spec fn pushed_title(request: PushModel, file_name: Option<Seq<char>>) -> Seq<char> {
    if request.title.len() > 0 {
        request.title
    } else {
        match file_name {
            Some(name) => name,
            None => "note "@ + decimal(request.slot as nat),
        }
    }
}

/// Decides what a request to push needs first. A window that is being closed keeps its
/// label for a while, so a push for it is put off, though not for ever.
pub fn handle_push(data: &AppData, request: &PushRequest, retries: u8) -> (r: PushStep)
    ensures
        r@ == data@.push_step(request@, retries),
{
    if !valid_slot(request.slot) {
        return PushStep::Ignore;
    }
    let i: usize = (request.slot - 1) as usize;
    if data.closing[i] {
        if retries < PUSH_RETRIES {
            return PushStep::Retry { after: PUSH_RETRY_AFTER, retries: retries + 1 };
        }
        return PushStep::Ignore;
    }
    if same_text(request.mode.as_str(), "path") {
        PushStep::Canonicalize(request.path.clone())
    } else {
        PushStep::WriteNote { slot: request.slot, content: request.content.clone() }
    }
}

/// What an optional text stands for.
pub open spec fn text_seen(text: Option<String>) -> Option<Seq<char>> {
    match text {
        Some(t) => Some(t@),
        None => None,
    }
}

/// The canonical form of a path where the system can tell, and the path itself otherwise.
pub open spec fn resolved_path(canonical: Option<Seq<char>>, path: Seq<char>) -> Seq<char> {
    match canonical {
        Some(full) => full,
        None => path,
    }
}

/// The canonical form of a path where the system can tell, and the path itself otherwise.
pub(crate) fn resolve<'a>(canonical: &'a Option<String>, path: &'a str) -> (r: &'a str)
    ensures
        r@ == resolved_path(text_seen(*canonical), path@),
{
    match canonical {
        Some(full) => full.as_str(),
        None => path,
    }
}

/// The file that a slot shows after a push. `canonical` is the canonical form of the path
/// that was asked for, where there is one.
pub fn push_path(data: &AppData, request: &PushRequest, canonical: &Option<String>) -> (r: String)
    requires
        is_slot(request.slot),
    ensures
        r@ == data@.pushed_path(request@, text_seen(*canonical)),
{
    if same_text(request.mode.as_str(), "path") {
        match canonical {
            Some(path) => {
                proof {
                    reveal_strlit("\\\\?\\");
                }
                trim_prefixes(path.as_str(), "\\\\?\\")
            },
            None => request.path.clone(),
        }
    } else {
        let i: usize = (request.slot - 1) as usize;
        data.note_files[i].clone()
    }
}

/// The title of a note. `file_name` is the name of the file that the slot shows.
pub fn push_title(request: &PushRequest, file_name: Option<String>) -> (r: String)
    ensures
        r@ == pushed_title(request@, text_seen(file_name)),
{
    if !request.title.as_str().is_empty() {
        return request.title.clone();
    }
    match file_name {
        Some(name) => name,
        None => "note ".to_owned().concat(decimal_text(request.slot as u64).as_str()),
    }
}

/// Whether a request to open a file takes the place of a note whose copy has to go.
fn leaves_copy(
    data: &AppData,
    request: &PushRequest,
    canonical: &Option<String>,
    own: &Option<String>,
) -> (r: bool)
    requires
        is_slot(request.slot),
    ensures
        r == data@.replaces_copy(request@, text_seen(*canonical), text_seen(*own)),
{
    let i: usize = (request.slot - 1) as usize;
    if !same_text(request.mode.as_str(), "path") || same_text(data.slots[i].mode.as_str(), "path")
        || data.slots[i].path.as_str().is_empty() {
        return false;
    }
    let file = data.note_files[i].as_str();
    let path = push_path(data, request, canonical);
    !same_text(path.as_str(), file) && !same_text(
        resolve(canonical, request.path.as_str()),
        resolve(own, file),
    )
}

/// Puts a note into its slot, once the file system has done its part: `canonical` is the
/// canonical form of the path that was asked for, `own` that of the slot's own file, and
/// `file_name` the name of the file that the slot shows, each where there is one.
pub fn finish_push(
    data: &mut AppData,
    request: &PushRequest,
    canonical: &Option<String>,
    own: &Option<String>,
    file_name: Option<String>,
    now: u64,
) -> (r: Vec<Effect>)
    requires
        is_slot(request.slot),
    ensures
        final(data)@ == old(data)@.pushed(
            request@,
            text_seen(*canonical),
            text_seen(file_name),
            now,
        ),
        seen(r@) == old(data)@.pushing(request@, text_seen(*canonical), text_seen(*own)),
        old(data)@.inv() ==> final(data)@.inv(),
{
    let slot: u8 = request.slot;
    let i: usize = (slot - 1) as usize;
    let deletes_copy: bool = leaves_copy(data, request, canonical, own);
    let frame = restore_dock_geometry(data, slot);
    let path = push_path(data, request, canonical);
    let title = push_title(request, file_name);
    let was_docked: bool = same_text(data.slots[i].state.as_str(), "docked");
    let color = slot_color(data, slot);
    data.set_slot(
        slot,
        SlotInfo {
            state: "open".to_owned(),
            mode: request.mode.clone(),
            path,
            title,
            color,
            last_updated: now,
        },
    );
    let mut effects: Vec<Effect> = Vec::new();
    if deletes_copy {
        effects.push(Effect::DeleteFile(data.note_files[i].clone()));
    }
    effects.push(Effect::WriteState);
    effects.push(Effect::SyncWatches);
    effects.push(Effect::EnsureWindow(slot));
    if was_docked {
        effects.push(Effect::RestoreGeometry { slot, frame });
        effects.push(Effect::EmitDock { slot, docked: false });
    }
    effects.push(Effect::EmitNote(slot));
    proof {
        assert(seen(effects@) =~= old(data)@.pushing(
            request@,
            text_seen(*canonical),
            text_seen(*own),
        ));
        if old(data)@.inv() {
            law_push_keeps_invariant(
                old(data)@,
                request@,
                text_seen(*canonical),
                text_seen(file_name),
                now,
            );
        }
    }
    effects
}

/// A push keeps the invariant of the state: content only ever goes into the slot's own file.
pub proof fn law_push_keeps_invariant(
    data: AppModel,
    request: PushModel,
    canonical: Option<Seq<char>>,
    file_name: Option<Seq<char>>,
    now: u64,
)
    requires
        data.inv(),
        is_slot(request.slot),
    ensures
        data.pushed(request, canonical, file_name, now).inv(),
        data.pushed(request, canonical, file_name, now).settings == data.settings,
{
    let after = data.pushed(request, canonical, file_name, now);
    assert forall|n: u8| is_slot(n) && n != request.slot implies #[trigger] after.slot(n)
        == data.slot(n) by {}
    assert forall|n: u8| #[trigger] after.color(n) == data.color(n) by {}
    assert forall|n: u8|
        is_slot(n) && (#[trigger] after.slot(n)).owns_copy() implies after.slot(n).path
        == after.note_file(n) by {
        if n != request.slot {
            assert(data.slot(n).owns_copy());
        }
    }
    assert forall|n: u8| is_slot(n) implies known_state((#[trigger] after.slot(n)).state) by {
        if n != request.slot {
            assert(known_state(data.slot(n).state));
        }
    }
    assert forall|n: u8| #![trigger after.slot(n)] is_slot(n) && after.slot(n).color.len() > 0 implies after.slot(
        n,
    ).color == after.color(n) by {
        assert(after.color(n) == data.color(n));
        if n != request.slot {
            assert(data.slot(n).color == after.slot(n).color);
        }
    }
}

/// A push deletes nothing but the copy that it replaces: the slot's own file, where the slot
/// showed it and another file is opened in its place. In particular it never deletes the file
/// that it opens.
pub proof fn law_pushes_delete_replaced_copies_only(
    data: AppModel,
    request: PushModel,
    canonical: Option<Seq<char>>,
    own: Option<Seq<char>>,
    path: Seq<char>,
)
    requires
        deletes(data.pushing(request, canonical, own), path),
    ensures
        path == data.note_file(request.slot),
        data.slot(request.slot).owns_copy(),
        request.mode == "path"@,
        path != data.pushed_path(request, canonical),
{
    let effects = data.pushing(request, canonical, own);
    let i = choose|i: int| 0 <= i < effects.len() && effects[i] == EffectModel::DeleteFile(path);
    assert(effects[i] == EffectModel::DeleteFile(path));
    assert(i == 0 && data.replaces_copy(request, canonical, own));
}

/// A copy goes when another file is opened in the place of its note.
pub proof fn law_replaced_copies_are_deleted(
    data: AppModel,
    request: PushModel,
    canonical: Option<Seq<char>>,
    own: Option<Seq<char>>,
)
    requires
        request.mode == "path"@,
        data.slot(request.slot).owns_copy(),
        !data.opens_own_file(request, canonical, own),
    ensures
        deletes(data.pushing(request, canonical, own), data.note_file(request.slot)),
{
    let effects = data.pushing(request, canonical, own);
    assert(effects[0] == EffectModel::DeleteFile(data.note_file(request.slot)));
}

/// A push into one slot leaves the other alone, opens its own, and brings a docked window
/// back.
pub proof fn law_push_opens_its_slot(
    data: AppModel,
    request: PushModel,
    canonical: Option<Seq<char>>,
    own: Option<Seq<char>>,
    file_name: Option<Seq<char>>,
    now: u64,
    other: u8,
)
    requires
        data.two_of_each(),
        is_slot(request.slot),
        is_slot(other),
        other != request.slot,
    ensures
        data.pushed(request, canonical, file_name, now).slot(request.slot).state == "open"@,
        data.pushed(request, canonical, file_name, now).slot(other) == data.slot(other),
        data.slot(request.slot).state == "docked"@ ==> data.pushing(
            request,
            canonical,
            own,
        ).contains(
            EffectModel::RestoreGeometry {
                slot: request.slot,
                frame: restored_frame(data.restore_bounds(request.slot)),
            },
        ),
        data.pushing(request, canonical, own).last() == EffectModel::EmitNote(request.slot),
{
    let effects = data.pushing(request, canonical, own);
    if data.slot(request.slot).state == "docked"@ {
        assert(effects[effects.len() - 3] is RestoreGeometry);
    }
}

/// A push is put off only while the window of its slot is being closed, and at most fifteen
/// times.
pub proof fn law_pushes_are_not_put_off_for_ever(data: AppModel, request: PushModel, retries: u8)
    ensures
        data.push_step(request, retries) matches PushStepModel::Retry { retries: next, .. } ==> {
            &&& data.closing[request.slot - 1]
            &&& next == retries + 1
            &&& next <= PUSH_RETRIES
        },
        retries >= PUSH_RETRIES ==> !(data.push_step(request, retries) is Retry),
        is_slot(request.slot) && !data.closing[request.slot - 1] ==> (data.push_step(
            request,
            retries,
        ) is Canonicalize || data.push_step(request, retries) is WriteNote),
{
}

/// A note that is opened by its path has nothing written to it: only content is written,
/// and only into the slot's own file.
pub proof fn law_opened_files_are_not_written(data: AppModel, request: PushModel, retries: u8)
    requires
        request.mode == "path"@,
    ensures
        !(data.push_step(request, retries) is WriteNote),
{
}

/// What is pushed as content is what is shown: it is written to the very file that the slot
/// shows afterwards, and the text that is read from there is shown as it is.
pub proof fn law_pushed_content_is_shown(
    data: AppModel,
    request: PushModel,
    retries: u8,
    canonical: Option<Seq<char>>,
    file_name: Option<Seq<char>>,
    now: u64,
    text: String,
)
    requires
        data.two_of_each(),
        is_slot(request.slot),
        !data.closing[request.slot - 1],
        request.mode != "path"@,
        data.note_file(request.slot).len() > 0,
        text@ == request.content,
    ensures
        data.push_step(request, retries) == (PushStepModel::WriteNote {
            slot: request.slot,
            content: request.content,
        }),
        data.pushed(request, canonical, file_name, now).slot(request.slot).path == data.note_file(
            request.slot,
        ),
        note_step(
            data.pushed(request, canonical, file_name, now).slot(request.slot),
            NoteEvent::Start,
        ) is Look,
        note_step(
            data.pushed(request, canonical, file_name, now).slot(request.slot),
            NoteEvent::Read(Some(text)),
        ) == (NoteStepModel::Show { content: request.content, missing: false }),
{
}

/// Requests and steps are seen as they are.
pub proof fn law_pushes_are_seen_as_they_are(request: PushRequest, step: PushStep, text: Option<String>)
    ensures
        request@.slot == request.slot,
        request@.mode == request.mode@,
        request@.path == request.path@,
        request@.content == request.content@,
        request@.title == request.title@,
        match step {
            PushStep::Ignore => step@ is Ignore,
            PushStep::Retry { after, retries } => step@ == (PushStepModel::Retry { after, retries }),
            PushStep::Canonicalize(path) => step@ == PushStepModel::Canonicalize(path@),
            PushStep::WriteNote { slot, content } => step@ == (PushStepModel::WriteNote {
                slot,
                content: content@,
            }),
        },
        text matches Some(t) ==> text_seen(text) == Some(t@),
        text is None ==> text_seen(text) is None,
{
}

/// A file that is opened by its path is shown under its canonical form without the mark of a
/// verbatim path, or under the path that was asked for where there is no such form. It does not
/// matter what the slot showed before, nor what else the request says.
pub proof fn law_opened_files_are_shown(
    data: AppModel,
    request: PushModel,
    full: Seq<char>,
    canonical: Option<Seq<char>>,
    file_name: Option<Seq<char>>,
    now: u64,
)
    requires
        data.slots.len() == 2,
        request.slot == 1 || request.slot == 2,
        request.mode == "path"@,
    ensures
        data.pushed(request, Some(full), file_name, now).slots[request.slot - 1].path
            == without_prefixes(full, seq!['\\', '\\', '?', '\\']),
        data.pushed(request, None, file_name, now).slots[request.slot - 1].path == request.path,
        data.pushed_path(request, Some(full)) == without_prefixes(
            full,
            seq!['\\', '\\', '?', '\\'],
        ),
        data.pushed_path(request, None) == request.path,
        canonical matches Some(path) ==> resolved_path(canonical, request.path) == path,
        canonical is None ==> resolved_path(canonical, request.path) == request.path,
{
    reveal_strlit("\\\\?\\");
    assert("\\\\?\\"@ =~= seq!['\\', '\\', '?', '\\']);
}

/// Content is shown from the slot's own file, whatever the slot showed before and whatever path
/// the request names.
pub proof fn law_content_is_shown_from_the_own_file(
    data: AppModel,
    request: PushModel,
    canonical: Option<Seq<char>>,
    file_name: Option<Seq<char>>,
    now: u64,
)
    requires
        data.slots.len() == 2,
        request.slot == 1 || request.slot == 2,
        request.mode != "path"@,
    ensures
        data.pushed(request, canonical, file_name, now).slots[request.slot - 1].path
            == data.note_files[request.slot - 1],
        data.pushed_path(request, canonical) == data.note_files[request.slot - 1],
{
}

/// A push opens its slot in the mode that was asked for, with the colour of its border and the
/// time of the push. The title is the one that was asked for, or else the name of the file, or
/// else the number of the slot. It does not matter what the slot showed before, and nothing
/// else changes.
pub proof fn law_pushes_replace_what_a_slot_shows(
    data: AppModel,
    request: PushModel,
    canonical: Option<Seq<char>>,
    file_name: Option<Seq<char>>,
    now: u64,
    other: u8,
)
    requires
        data.slots.len() == 2,
        request.slot == 1 || request.slot == 2,
        other == 1 || other == 2,
        other != request.slot,
    ensures
        data.pushed(request, canonical, file_name, now).slots.len() == 2,
        data.pushed(request, canonical, file_name, now).slots[request.slot - 1].state == "open"@,
        data.pushed(request, canonical, file_name, now).slots[request.slot - 1].mode
            == request.mode,
        data.pushed(request, canonical, file_name, now).slots[request.slot - 1].color
            == data.color(request.slot),
        data.pushed(request, canonical, file_name, now).slots[request.slot - 1].last_updated == now,
        request.title.len() > 0 ==> data.pushed(request, canonical, file_name, now).slots[
            request.slot - 1
        ].title == request.title,
        request.title.len() == 0 && file_name is Some ==> data.pushed(
            request,
            canonical,
            file_name,
            now,
        ).slots[request.slot - 1].title == file_name->0,
        request.title.len() == 0 && file_name is None ==> data.pushed(
            request,
            canonical,
            file_name,
            now,
        ).slots[request.slot - 1].title == "note "@ + decimal(request.slot as nat),
        data.pushed(request, canonical, file_name, now).slots[other - 1] == data.slots[other - 1],
        data.pushed(request, canonical, file_name, now).settings == data.settings,
        data.pushed(request, canonical, file_name, now).closing == data.closing,
        data.pushed(request, canonical, file_name, now).prev_bounds == data.prev_bounds,
        data.pushed(request, canonical, file_name, now).note_files == data.note_files,
        data.pushed(request, canonical, file_name, now).last_settings_save
            == data.last_settings_save,
{
}

/// The title of a note depends on what was asked for, on the name of its file, and on the
/// number of its slot, in this order.
pub proof fn law_titles_are_asked_for_or_found(request: PushModel, file_name: Option<Seq<char>>)
    ensures
        request.title.len() > 0 ==> pushed_title(request, file_name) == request.title,
        request.title.len() == 0 && file_name is Some ==> pushed_title(request, file_name)
            == file_name->0,
        request.title.len() == 0 && file_name is None ==> pushed_title(request, file_name)
            == "note "@ + decimal(request.slot as nat),
{
}

/// A push into a slot whose window is being closed comes back after 150 milliseconds, up to
/// fifteen times, and is then dropped; one into no slot is dropped at once. Every other push
/// has the path that was asked for looked up, or the content written to its own slot.
pub proof fn law_pushes_wait_for_closing_windows(data: AppModel, request: PushModel, retries: u8)
    ensures
        request.slot != 1 && request.slot != 2 ==> data.push_step(request, retries) is Ignore,
        (request.slot == 1 || request.slot == 2) && data.closing[request.slot - 1] && retries < 15
            ==> (data.push_step(request, retries) matches PushStepModel::Retry {
            after,
            retries: next,
        } && after == 150 && next == retries + 1),
        (request.slot == 1 || request.slot == 2) && data.closing[request.slot - 1] && retries >= 15
            ==> data.push_step(request, retries) is Ignore,
        (request.slot == 1 || request.slot == 2) && !data.closing[request.slot - 1] && request.mode
            == "path"@ ==> data.push_step(request, retries) == PushStepModel::Canonicalize(
            request.path,
        ),
        (request.slot == 1 || request.slot == 2) && !data.closing[request.slot - 1] && request.mode
            != "path"@ ==> data.push_step(request, retries) == (PushStepModel::WriteNote {
            slot: request.slot,
            content: request.content,
        }),
{
}

/// After a push the state is reported, the watches are brought in line, the slot's own window
/// is shown, and last of all the windows are told about this note. A window that was docked
/// gets its shape back in between, and that is told.
pub proof fn law_pushes_report_watch_and_show(
    data: AppModel,
    request: PushModel,
    canonical: Option<Seq<char>>,
    own: Option<Seq<char>>,
    shown: Seq<EffectModel>,
)
    requires
        request.slot == 1 || request.slot == 2,
        data.slots[request.slot - 1].state != "docked"@ ==> shown == seq![
            EffectModel::WriteState,
            EffectModel::SyncWatches,
            EffectModel::EnsureWindow(request.slot),
            EffectModel::EmitNote(request.slot),
        ],
        data.slots[request.slot - 1].state == "docked"@ ==> shown == seq![
            EffectModel::WriteState,
            EffectModel::SyncWatches,
            EffectModel::EnsureWindow(request.slot),
            EffectModel::RestoreGeometry {
                slot: request.slot,
                frame: restored_frame(data.restore_bounds(request.slot)),
            },
            EffectModel::EmitDock { slot: request.slot, docked: false },
            EffectModel::EmitNote(request.slot),
        ],
    ensures
        data.pushing(request, canonical, own) == shown || data.pushing(request, canonical, own)
            == seq![EffectModel::DeleteFile(data.note_files[request.slot - 1])] + shown,
{
    let effects = data.pushing(request, canonical, own);
    if data.replaces_copy(request, canonical, own) {
        assert(effects =~= seq![EffectModel::DeleteFile(data.note_files[request.slot - 1])]
            + shown);
    } else {
        assert(effects =~= shown);
    }
}

/// A push deletes a file exactly where it opens one by its path in a slot that shows something
/// else than an opened file, and the two are different files, be it by their names or by their
/// canonical forms; and the file is then the slot's own.
pub proof fn law_pushes_delete_what_they_replace(
    data: AppModel,
    request: PushModel,
    canonical: Option<Seq<char>>,
    own: Option<Seq<char>>,
    path: Seq<char>,
)
    requires
        request.slot == 1 || request.slot == 2,
    ensures
        deletes(data.pushing(request, canonical, own), path) <==> {
            &&& path == data.note_files[request.slot - 1]
            &&& request.mode == "path"@
            &&& data.slots[request.slot - 1].mode != "path"@
            &&& data.slots[request.slot - 1].path.len() > 0
            &&& data.pushed_path(request, canonical) != path
            &&& (if canonical is Some {
                canonical->0
            } else {
                request.path
            }) != (if own is Some {
                own->0
            } else {
                path
            })
        },
{
    let effects = data.pushing(request, canonical, own);
    if data.replaces_copy(request, canonical, own) {
        assert(effects[0] == EffectModel::DeleteFile(data.note_files[request.slot - 1]));
        assert forall|i: int| 1 <= i < effects.len() implies !(#[trigger] effects[i] is DeleteFile) by {}
    } else {
        assert forall|i: int| 0 <= i < effects.len() implies !(#[trigger] effects[i] is DeleteFile) by {}
    }
    if deletes(effects, path) {
        let i = choose|i: int| 0 <= i < effects.len() && effects[i] == EffectModel::DeleteFile(path);
        assert(effects[i] is DeleteFile);
    }
}

} // verus!
