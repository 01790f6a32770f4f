//! What the operations do, as their callers see it: how the result of a call, and the state
//! after it, follow from what went in.

use vstd::prelude::*;

use crate::binary64::Binary64;
use crate::case::{lowercase, lowered, raised, uppercase};
use crate::color::{
    color_dist, hex_to_rgb, is_readable_color, law_closeness_is_distance_below_sixty,
    law_colors_are_readable, readable_color, rgb,
};
use crate::command::{
    fields_of, law_commands_go_by_their_names, read_command, read_fields, route, routed, Command,
    CommandFields,
};
use crate::data::{
    finish_start, has_open, law_welcome_comes_up_when_nothing_is_shown, slot_color, write_state,
    AppData, StateReport,
};
use crate::dock::{
    dock_slot, finish_undock, law_docking_collapses_the_own_window, restore_dock_geometry,
    tracks_bounds, undock_slot, window_moved,
};
use crate::effect::{seen, Effect, EffectModel, Frame, Place, Tint};
use crate::inbox::{
    inbox_order, inbox_schedule, is_command_name, law_commands_are_taken_by_name,
    law_commands_end_in_json, name_before, names_command, obey, obeyed, process_inbox,
    InboxAction, InboxStep,
};
use crate::json::{json_document, value_contents};
use crate::notes::{
    cleanup_slot, close_requested, close_slot, close_window, emit_note, final_cleanup,
    law_ending_deletes_reports_and_saves, note_updated, read_note_content, window_gone, NoteEvent,
    NoteHeader, NoteStep, NoteUpdated, WELCOME_MD,
};
use crate::paths::{
    commands_dir, data_dir, note_file, notes_dir, settings_file, state_file, DataPath,
};
use crate::prefs::{
    frontend_ready, frontend_state, resolve_theme, set_opacity, set_theme, set_zoom, theme_tint,
    FrontendState,
};
use crate::push::{
    finish_push, handle_push, push_path, push_title, text_seen, PushRequest, PushStep,
};
use crate::recolor::{handle_set_color, law_colors_are_accepted_by_distance, recolor, Recolor};
use crate::runtime::{lockd, now_ts};
use crate::settings::{Bounds, Settings};
use crate::size::{law_sizes_are_told_in_tenths, megabyte_tenths, megabytes, megabytes_text};
use crate::slot::{
    labelled_slot, law_only_labels_belong_to_slots, law_slot_keys_differ, slot_key, slot_key_text,
    valid_slot, window_label, window_slot, SlotInfo, SlotModel,
};
use crate::text::{
    byte_numeral, chars_of, decimal, decimal_text, is_white_space, read_byte, same_text,
    strip_prefix, trim_prefixes, trim_range, trimmed, white_space, without_prefixes,
};
use crate::watch::{
    canon, classify_change, is_newest, law_absent_keys_are_listed, law_changed_files_are_shown_anew,
    law_changes_in_the_inbox_are_noticed, law_every_shown_file_is_watched,
    law_first_directories_are_watched, needed_dirs, next_generation, shown_files, sync_watches,
    texts, Touched, TouchedPath, WatchPlan,
};
use crate::window::{
    allows_navigation, ensure_window, window_event, WindowAction, WindowEvent, WindowReaction,
};

verus! {

/// A file that is opened by its path is shown under its canonical form without the mark of a
/// verbatim path, or under the path that was asked for, whatever its slot showed before.
pub proof fn law_push_path_is_asked_for(
    data: AppData,
    request: PushRequest,
    canonical: Option<String>,
    r: String,
)
    requires
        call_ensures(push_path, (&data, &request, &canonical), r),
        request.slot == 1 || request.slot == 2,
    ensures
        request.mode@ == "path"@ && canonical is Some ==> r@ == without_prefixes(
            canonical->0@,
            seq!['\\', '\\', '?', '\\'],
        ),
        request.mode@ == "path"@ && canonical is None ==> r@ == request.path@,
        request.mode@ != "path"@ ==> r@ == data.note_files@[request.slot - 1]@,
{
    reveal_strlit("\\\\?\\");
    assert("\\\\?\\"@ =~= seq!['\\', '\\', '?', '\\']);
    assert(data@.note_files[request.slot - 1] == data.note_files@[request.slot - 1]@);
}

/// A note has the title that was asked for, or the name of its file, or the number of its slot.
pub proof fn law_push_title_is_asked_for(
    request: PushRequest,
    file_name: Option<String>,
    r: String,
)
    requires
        call_ensures(push_title, (&request, file_name), r),
    ensures
        request.title@.len() > 0 ==> r@ == request.title@,
        request.title@.len() == 0 && file_name is Some ==> r@ == file_name->0@,
        request.title@.len() == 0 && file_name is None ==> r@ == "note "@ + decimal(
            request.slot as nat,
        ),
{
}

/// A push is dropped where there is no such slot, put off by 150 milliseconds up to fifteen times
/// while the window of the slot is being closed, and otherwise has its path looked up or its
/// content written.
pub proof fn law_handle_push_waits_or_goes_on(
    data: AppData,
    request: PushRequest,
    retries: u8,
    r: PushStep,
)
    requires
        call_ensures(handle_push, (&data, &request, retries), r),
    ensures
        request.slot != 1 && request.slot != 2 ==> r is Ignore,
        (request.slot == 1 || request.slot == 2) && data.closing@[request.slot - 1] && retries < 15
            ==> (r matches PushStep::Retry { after, retries: next } && after == 150 && next
            == retries + 1),
        (request.slot == 1 || request.slot == 2) && data.closing@[request.slot - 1] && retries >= 15
            ==> r is Ignore,
        (request.slot == 1 || request.slot == 2) && !data.closing@[request.slot - 1]
            && request.mode@ == "path"@ ==> (r matches PushStep::Canonicalize(path) && path@
            == request.path@),
        (request.slot == 1 || request.slot == 2) && !data.closing@[request.slot - 1]
            && request.mode@ != "path"@ ==> (r matches PushStep::WriteNote { slot, content }
            && slot == request.slot && content@ == request.content@),
{
}

/// Once pushed, a slot shows what was asked for and nothing of what it showed before; all else
/// is as it was. The windows are told about that very note last of all.
pub proof fn law_finish_push_shows_what_was_asked_for(
    data: &mut AppData,
    request: PushRequest,
    canonical: Option<String>,
    own: Option<String>,
    file_name: Option<String>,
    now: u64,
    r: Vec<Effect>,
    other: u8,
)
    requires
        call_ensures(finish_push, (data, &request, &canonical, &own, file_name, now), r),
        request.slot == 1 || request.slot == 2,
        other == 1 || other == 2,
        other != request.slot,
    ensures
        final(data)@.slots[request.slot - 1].state == "open"@,
        final(data)@.slots[request.slot - 1].mode == request.mode@,
        final(data)@.slots[request.slot - 1].color == old(data)@.color(request.slot),
        final(data)@.slots[request.slot - 1].last_updated == now,
        request.mode@ == "path"@ && canonical is Some ==> final(data)@.slots[request.slot - 1].path
            == without_prefixes(canonical->0@, "\\\\?\\"@),
        request.mode@ == "path"@ && canonical is None ==> final(data)@.slots[request.slot - 1].path
            == request.path@,
        request.mode@ != "path"@ ==> final(data)@.slots[request.slot - 1].path == old(data)@.note_files[request.slot - 1],
        request.title@.len() > 0 ==> final(data)@.slots[request.slot - 1].title == request.title@,
        request.title@.len() == 0 && file_name is Some ==> final(data)@.slots[request.slot
            - 1].title == file_name->0@,
        request.title@.len() == 0 && file_name is None ==> final(data)@.slots[request.slot
            - 1].title == "note "@ + decimal(request.slot as nat),
        final(data)@.slots[other - 1] == old(data)@.slots[other - 1],
        final(data)@.settings == old(data)@.settings,
        final(data)@.closing == old(data)@.closing,
        final(data)@.prev_bounds == old(data)@.prev_bounds,
        final(data)@.note_files == old(data)@.note_files,
        final(data)@.last_settings_save == old(data)@.last_settings_save,
        seen(r@) == old(data)@.pushing(request@, text_seen(canonical), text_seen(own)),
        r@.len() >= 4,
        seen(r@).last() == EffectModel::EmitNote(request.slot),
        seen(r@).contains(EffectModel::WriteState),
        seen(r@).contains(EffectModel::SyncWatches),
        seen(r@).contains(EffectModel::EnsureWindow(request.slot)),
        seen(r@).contains(EffectModel::EmitDock { slot: request.slot, docked: false }) <==> old(data)@.slots[request.slot - 1].state == "docked"@,
{
    let effects = seen(r@);
    let before = old(data)@;
    let k: int = if before.replaces_copy(request@, text_seen(canonical), text_seen(own)) {
        1
    } else {
        0
    };
    assert(effects[k] == EffectModel::WriteState);
    assert(effects[k + 1] == EffectModel::SyncWatches);
    assert(effects[k + 2] == EffectModel::EnsureWindow(request.slot));
    if before.slots[request.slot - 1].state == "docked"@ {
        assert(effects[k + 4] == (EffectModel::EmitDock { slot: request.slot, docked: false }));
    } else {
        assert(effects.len() == k + 4);
        assert forall|i: int| 0 <= i < effects.len() implies !(#[trigger] effects[i] is EmitDock) by {}
    }
}

/// Of a slot with a path the file is looked up; a regular file of at most five megabytes is read
/// and what was read is shown; all else is shown as missing or too large.
pub proof fn law_read_note_content_reads_small_files(
    slot: SlotInfo,
    event: NoteEvent,
    r: NoteStep,
)
    requires
        call_ensures(read_note_content, (&slot, event), r),
    ensures
        event is Start && slot.path@.len() > 0 ==> r is Look,
        event is Start && slot.path@.len() == 0 ==> (r matches NoteStep::Show { content, missing }
            && content@ == WELCOME_MD@ && !missing),
        event matches NoteEvent::Looked(Some(stat)) ==> (r is Read <==> stat.is_file && stat.len
            <= 5_242_880),
        event matches NoteEvent::Looked(Some(stat)) ==> !stat.is_file ==> (r matches NoteStep::Show {
            content,
            missing,
        } && content@.len() == 0 && missing),
        event matches NoteEvent::Looked(Some(stat)) ==> stat.is_file && stat.len > 5_242_880 ==> (
        r matches NoteStep::Show { content, missing } && content@
            == "> **File too large to display** — "@ + megabytes(stat.len)
            + " MB, limit is "@ + "5"@ + " MB."@ && !missing),
        event matches NoteEvent::Looked(None) ==> (r matches NoteStep::Show { content, missing }
            && content@.len() == 0 && missing),
        event matches NoteEvent::Read(Some(text)) ==> (r matches NoteStep::Show { content, missing }
            && content@ == text@ && !missing),
        event matches NoteEvent::Read(None) ==> (r matches NoteStep::Show { content, missing }
            && content@.len() == 0 && missing),
{
}

/// What is told about a note is what there is to know about its slot, and the text that was read.
pub proof fn law_notes_are_told_as_they_are(
    data: AppData,
    slot: u8,
    header: Option<NoteHeader>,
    content: String,
    missing: bool,
    r: NoteUpdated,
)
    requires
        call_ensures(emit_note, (&data, slot), header),
        header is Some ==> call_ensures(note_updated, (header->0, content, missing), r),
    ensures
        header is Some <==> slot == 1 || slot == 2,
        slot == 1 || slot == 2 ==> {
            &&& header->0.info.path@ == data.slots@[slot - 1].path@
            &&& r.slot == slot
            &&& r.content@ == content@
            &&& r.missing == missing
            &&& r.title@ == data.slots@[slot - 1].title@
            &&& r.color@ == data@.color(slot)
        },
{
    if slot == 1 || slot == 2 {
        assert(data@.slots[slot - 1] == data.slots@[slot - 1]@);
    }
}

/// Clearing a slot empties it but for its colour, and the other slot and all else stay as they
/// are; the slot's own window is closed exactly where that was asked for.
pub proof fn law_cleanup_slot_empties_one_slot(
    data: &mut AppData,
    slot: u8,
    close: bool,
    r: Vec<Effect>,
    other: u8,
)
    requires
        call_ensures(cleanup_slot, (data, slot, close), r),
        other == 1 || other == 2,
        other != slot,
    ensures
        slot == 1 || slot == 2 ==> {
            &&& final(data)@.slots[slot - 1].state == "empty"@
            &&& final(data)@.slots[slot - 1].mode.len() == 0
            &&& final(data)@.slots[slot - 1].path.len() == 0
            &&& final(data)@.slots[slot - 1].title.len() == 0
            &&& final(data)@.slots[slot - 1].color == old(data)@.color(slot)
            &&& final(data)@.closing[slot - 1] == (close || old(data)@.closing[slot - 1])
            &&& (seen(r@).contains(EffectModel::CloseWindow(slot)) <==> close)
            &&& seen(r@).contains(EffectModel::WriteState)
            &&& seen(r@).contains(EffectModel::SyncWatches)
            &&& seen(r@).contains(EffectModel::DeleteFile(old(data)@.slots[slot - 1].path)) <==> (
            old(data)@.slots[slot - 1].mode != "path"@ && old(data)@.slots[slot - 1].path.len() > 0)
        },
        slot != 1 && slot != 2 ==> final(data)@ == old(data)@ && r@.len() == 0,
        seen(r@) == old(data)@.cleaning(slot, close),
        final(data)@.slots[other - 1] == old(data)@.slots[other - 1],
        final(data)@.closing[other - 1] == old(data)@.closing[other - 1],
        final(data)@.settings == old(data)@.settings,
{
    let effects = seen(r@);
    if slot == 1 || slot == 2 {
        let info = old(data)@.slots[slot - 1];
        let k: int = if info.mode != "path"@ && info.path.len() > 0 {
            1
        } else {
            0
        };
        if k == 1 {
            assert(effects[0] == EffectModel::DeleteFile(info.path));
        } else {
            assert forall|i: int| 0 <= i < effects.len() implies !(
            #[trigger] effects[i] is DeleteFile) by {}
        }
        assert(effects[k] == EffectModel::WriteState);
        assert(effects[k + 1] == EffectModel::SyncWatches);
        if close {
            assert(effects[k + 2] == EffectModel::CloseWindow(slot));
        } else {
            assert forall|i: int| 0 <= i < effects.len() implies !(
            #[trigger] effects[i] is CloseWindow) by {}
        }
    } else {
        assert(effects.len() == r@.len());
    }
}

/// Closing a slot is clearing it with its window; a window that is closed from outside has its
/// slot cleared and its label taken; and a label is free when the window is gone, or there was
/// none.
pub proof fn law_closing_clears_and_frees(
    data: &mut AppData,
    again: &mut AppData,
    slot: u8,
    r: Vec<Effect>,
    s: Vec<Effect>,
)
    requires
        call_ensures(close_slot, (data, slot), r),
        call_ensures(close_requested, (again, slot), s),
        slot == 1 || slot == 2,
    ensures
        final(data)@ == old(data)@.cleaned(slot, true),
        seen(r@) == old(data)@.cleaning(slot, true),
        final(again)@.closing[slot - 1],
        final(again)@.slots == old(again)@.cleaned(slot, false).slots,
        final(again)@.settings == old(again)@.settings,
        seen(s@) == old(again)@.cleaning(slot, false),
{
}

/// A label is free exactly where there is no window to close, or the window is gone; nothing else
/// changes.
pub proof fn law_labels_are_freed(
    data: &mut AppData,
    again: &mut AppData,
    slot: u8,
    has_window: bool,
    r: bool,
    other: u8,
)
    requires
        call_ensures(close_window, (data, slot, has_window), r),
        call_ensures(window_gone, (again, slot), ()),
        slot == 1 || slot == 2,
        other == 1 || other == 2,
        other != slot,
    ensures
        r == has_window,
        has_window ==> final(data)@ == old(data)@,
        !has_window ==> !final(data)@.closing[slot - 1] && final(data)@.slots == old(data)@.slots
            && final(data)@.closing[other - 1] == old(data)@.closing[other - 1]
            && final(data)@.settings == old(data)@.settings,
        !final(again)@.closing[slot - 1],
        final(again)@.closing[other - 1] == old(again)@.closing[other - 1],
        final(again)@.slots == old(again)@.slots,
        final(again)@.settings == old(again)@.settings,
{
}

/// At the end both slots are empty, and the preferences are written last of all.
pub proof fn law_final_cleanup_empties_both_slots(data: &mut AppData, r: Vec<Effect>, i: int)
    requires
        call_ensures(final_cleanup, (data,), r),
        0 <= i < 2,
    ensures
        final(data)@.slots[i].state == "empty"@,
        final(data)@.slots[i].mode.len() == 0,
        final(data)@.slots[i].path.len() == 0,
        final(data)@.slots[i].title.len() == 0,
        final(data)@.slots[i].color == old(data)@.slots[i].color,
        final(data)@.settings == old(data)@.settings,
        seen(r@) == old(data)@.ending(),
        seen(r@).last() == EffectModel::SaveSettings,
        seen(r@).contains(EffectModel::WriteState),
        old(data)@.slots[i].mode != "path"@ && old(data)@.slots[i].path.len() > 0 ==> seen(
            r@,
        ).contains(EffectModel::DeleteFile(old(data)@.slots[i].path)),
{
    let effects = seen(r@);
    let before = old(data)@;
    assert(effects[effects.len() - 2] == EffectModel::WriteState);
    law_ending_deletes_reports_and_saves(before, before.slots[i].path);
}

/// Opacity is held to its range and kept, written, reported and told; nothing else changes.
pub proof fn law_set_opacity_keeps_the_opacity(data: &mut AppData, value: Binary64, r: Vec<Effect>)
    requires
        call_ensures(set_opacity, (data, value), r),
        !value.is_nan(),
    ensures
        value.rank() <= 0x3fd3_3333_3333_3333 ==> final(data)@.settings.opacity.bits
            == 0x3fd3_3333_3333_3333,
        value.rank() >= 0x3ff0_0000_0000_0000 ==> final(data)@.settings.opacity.bits
            == 0x3ff0_0000_0000_0000,
        0x3fd3_3333_3333_3333 <= value.rank() <= 0x3ff0_0000_0000_0000 ==> final(data)@.settings.opacity == value,
        final(data)@.settings.theme == old(data)@.settings.theme,
        final(data)@.settings.zoom == old(data)@.settings.zoom,
        final(data)@.settings.colors == old(data)@.settings.colors,
        final(data)@.settings.bounds == old(data)@.settings.bounds,
        final(data)@.slots == old(data)@.slots,
        final(data)@.closing == old(data)@.closing,
        seen(r@) == seq![
            EffectModel::SaveSettings,
            EffectModel::WriteState,
            EffectModel::EmitOpacity(final(data)@.settings.opacity),
        ],
{
}

/// A theme is light or dark, and kept, written, reported, shown in both windows and told; nothing
/// else changes.
pub proof fn law_set_theme_keeps_the_theme(data: &mut AppData, theme: &str, r: Vec<Effect>, tint: Tint)
    requires
        call_ensures(set_theme, (data, theme), r),
        theme@ == "light"@ ==> tint == (Tint { red: 245, green: 245, blue: 245, alpha: 160 }),
        theme@ != "light"@ ==> tint == (Tint { red: 16, green: 16, blue: 16, alpha: 160 }),
    ensures
        theme@ == "light"@ ==> final(data)@.settings.theme == "light"@,
        theme@ != "light"@ ==> final(data)@.settings.theme == "dark"@,
        final(data)@.settings.opacity == old(data)@.settings.opacity,
        final(data)@.settings.zoom == old(data)@.settings.zoom,
        final(data)@.settings.colors == old(data)@.settings.colors,
        final(data)@.settings.bounds == old(data)@.settings.bounds,
        final(data)@.slots == old(data)@.slots,
        final(data)@.closing == old(data)@.closing,
        seen(r@) == seq![
            EffectModel::SaveSettings,
            EffectModel::WriteState,
            EffectModel::TintWindow { slot: 1, tint },
            EffectModel::TintWindow { slot: 2, tint },
            EffectModel::EmitTheme(final(data)@.settings.theme),
        ],
{
    reveal_strlit("dark");
    reveal_strlit("light");
    assert("dark"@.len() == 4 && "light"@.len() == 5);
}

/// Zoom is held to its range, kept for that very slot and shown in its window, and written now
/// and again; nothing else changes, and what is no slot is left alone.
pub proof fn law_set_zoom_keeps_the_zoom(
    data: &mut AppData,
    slot: u8,
    factor: Binary64,
    now: u128,
    r: Vec<Effect>,
    held: Binary64,
)
    requires
        call_ensures(set_zoom, (data, slot, factor, now), r),
        !factor.is_nan(),
        factor.rank() <= 0x3fe3_3333_3333_3333 ==> held.bits == 0x3fe3_3333_3333_3333,
        factor.rank() >= 0x4000_0000_0000_0000 ==> held.bits == 0x4000_0000_0000_0000,
        0x3fe3_3333_3333_3333 <= factor.rank() <= 0x4000_0000_0000_0000 ==> held == factor,
    ensures
        slot == 1 || slot == 2 ==> final(data)@.settings.zoom == old(data)@.settings.zoom.insert(
            slot_key(slot),
            held,
        ),
        (slot == 1 || slot == 2) && now > old(data)@.last_settings_save + 300_000_000 ==> seen(r@)
            == seq![
            EffectModel::ZoomWindow { slot, factor: held },
            EffectModel::SaveSettings,
        ] && final(data)@.last_settings_save == now,
        (slot == 1 || slot == 2) && now <= old(data)@.last_settings_save + 300_000_000 ==> seen(r@)
            == seq![EffectModel::ZoomWindow { slot, factor: held }]
            && final(data)@.last_settings_save == old(data)@.last_settings_save,
        slot != 1 && slot != 2 ==> final(data)@ == old(data)@ && r@.len() == 0,
        final(data)@.settings.theme == old(data)@.settings.theme,
        final(data)@.settings.opacity == old(data)@.settings.opacity,
        final(data)@.settings.colors == old(data)@.settings.colors,
        final(data)@.settings.bounds == old(data)@.settings.bounds,
        final(data)@.slots == old(data)@.slots,
        final(data)@.closing == old(data)@.closing,
{
    assert(r@.len() == seen(r@).len());
}

/// A page that has loaded settles the theme and has its own window tinted in it; one of no slot is
/// told so, and changes nothing.
pub proof fn law_frontend_ready_settles_the_theme(
    data: &mut AppData,
    slot: u8,
    windows: Vec<Option<bool>>,
    r: Result<Vec<Effect>, String>,
)
    requires
        call_ensures(frontend_ready, (data, slot, &windows), r),
    ensures
        r is Ok <==> slot == 1 || slot == 2,
        r matches Err(message) ==> message@ == "invalid slot"@ && final(data)@ == old(data)@,
        r is Ok && (old(data)@.settings.theme == "light"@ || old(data)@.settings.theme == "dark"@)
            ==> final(data)@.settings.theme == old(data)@.settings.theme,
        r is Ok && old(data)@.settings.theme != "light"@ && old(data)@.settings.theme != "dark"@
            && windows@.len() > 0 && windows@[0] == Some(true) ==> final(data)@.settings.theme
            == "light"@,
        r is Ok && old(data)@.settings.theme != "light"@ && old(data)@.settings.theme != "dark"@ && (
        windows@.len() == 0 || windows@[0] != Some(true)) ==> final(data)@.settings.theme
            == "dark"@,
        r matches Ok(effects) ==> (seen(effects@).last() matches EffectModel::TintWindow {
            slot: tinted,
            tint,
        } && tinted == slot && tint.alpha == 160 && (tint.red == 245 <==> final(data)@.settings.theme == "light"@)),
        r matches Ok(effects) ==> (seen(effects@).contains(EffectModel::SaveSettings) <==> final(data)@.settings.theme != old(data)@.settings.theme),
        r matches Ok(effects) ==> (seen(effects@).contains(EffectModel::WriteState) <==> final(data)@.settings.theme != old(data)@.settings.theme),
        final(data)@.slots == old(data)@.slots,
        final(data)@.closing == old(data)@.closing,
        final(data)@.settings.zoom == old(data)@.settings.zoom,
        final(data)@.settings.opacity == old(data)@.settings.opacity,
        final(data)@.settings.colors == old(data)@.settings.colors,
        final(data)@.settings.bounds == old(data)@.settings.bounds,
{
    if r is Ok {
        let effects = seen(r->Ok_0@);
        if final(data)@.settings.theme != old(data)@.settings.theme {
            assert(effects[0] == EffectModel::SaveSettings);
            assert(effects[1] == EffectModel::WriteState);
        } else {
            assert(effects.len() == 1 && effects[0] is TintWindow);
        }
    }
}

/// A page that has loaded is told what its very slot shows, and the preferences.
pub proof fn law_frontend_state_tells_the_slot(
    data: AppData,
    slot: u8,
    content: String,
    missing: bool,
    r: FrontendState,
)
    requires
        call_ensures(frontend_state, (&data, slot, content, missing), r),
        slot == 1 || slot == 2,
    ensures
        r.slot == slot,
        r.content@ == content@,
        r.missing == missing,
        r.title@ == data.slots@[slot - 1].title@,
        r.state@ == data.slots@[slot - 1].state@,
        r.color@ == data@.color(slot),
        r.theme@ == data.settings.theme@,
        r.opacity == data.settings.opacity,
        data.settings.zoom@.contains_key(slot_key(slot)) ==> r.zoom == data.settings.zoom@[slot_key(
            slot,
        )],
        !data.settings.zoom@.contains_key(slot_key(slot)) ==> r.zoom.bits == 0x3ff0_0000_0000_0000,
{
    assert(data@.slots[slot - 1] == data.slots@[slot - 1]@);
}

/// The theme and its tint as they are asked for on their own.
pub proof fn law_themes_resolve_and_tint(
    saved: &str,
    windows: Vec<Option<bool>>,
    theme: String,
    tint: Tint,
)
    requires
        call_ensures(resolve_theme, (saved, &windows), theme),
        call_ensures(theme_tint, (saved,), tint),
    ensures
        saved@ == "light"@ || saved@ == "dark"@ ==> theme@ == saved@,
        saved@ != "light"@ && saved@ != "dark"@ && windows@.len() > 0 && windows@[0] == Some(true)
            ==> theme@ == "light"@,
        saved@ != "light"@ && saved@ != "dark"@ && (windows@.len() == 0 || windows@[0] != Some(true))
            ==> theme@ == "dark"@,
        saved@ == "light"@ ==> tint == (Tint { red: 245, green: 245, blue: 245, alpha: 160 }),
        saved@ != "light"@ ==> tint == (Tint { red: 16, green: 16, blue: 16, alpha: 160 }),
{
}

/// Docking marks the slot as docked, keeps where its window was, and collapses that very window;
/// nothing else changes, and without a window nothing at all.
pub proof fn law_dock_slot_collapses_its_window(
    data: &mut AppData,
    slot: u8,
    has_window: bool,
    geometry: Option<Bounds>,
    r: Vec<Effect>,
    other: u8,
    frame: Frame,
)
    requires
        call_ensures(dock_slot, (data, slot, has_window, geometry), r),
        other == 1 || other == 2,
        other != slot,
        !frame.resizable,
        frame.least is None,
        frame.size.width.bits == 0x400c_0000_0000_0000,
        frame.size.height.bits == 0x4044_0000_0000_0000,
        frame.place is LeftEdge,
    ensures
        (slot == 1 || slot == 2) && has_window ==> {
            &&& seen(r@) == seq![
                EffectModel::WriteState,
                EffectModel::CollapseWindow { slot, frame },
                EffectModel::EmitDock { slot, docked: true },
            ]
            &&& final(data)@.slots[slot - 1] == (SlotModel {
                state: "docked"@,
                ..old(data)@.slots[slot - 1]
            })
            &&& geometry is Some ==> final(data)@.prev_bounds[slot - 1] == geometry
            &&& geometry is None ==> final(data)@.prev_bounds[slot - 1] == old(data)@.prev_bounds[slot - 1]
        },
        (slot != 1 && slot != 2) || !has_window ==> final(data)@ == old(data)@ && r@.len() == 0,
        final(data)@.slots[other - 1] == old(data)@.slots[other - 1],
        final(data)@.prev_bounds[other - 1] == old(data)@.prev_bounds[other - 1],
        final(data)@.settings == old(data)@.settings,
        final(data)@.closing == old(data)@.closing,
        final(data)@.note_files == old(data)@.note_files,
{
    assert(r@.len() == seen(r@).len());
    law_docking_collapses_the_own_window(
        old(data)@,
        if slot == 1 {
            1
        } else {
            2
        },
        frame,
        0,
    );
}

/// Undocking gives that very window its shape back, and then opens its slot if it was docked;
/// nothing else changes.
pub proof fn law_undock_slot_restores_and_opens(
    shown: AppData,
    data: &mut AppData,
    slot: u8,
    r: Vec<Effect>,
    s: Vec<Effect>,
    frame: Frame,
    other: u8,
)
    requires
        call_ensures(undock_slot, (&shown, slot), r),
        call_ensures(finish_undock, (data, slot), s),
        call_ensures(restore_dock_geometry, (&shown, slot), frame),
        slot == 1 || slot == 2,
        other == 1 || other == 2,
        other != slot,
    ensures
        seen(r@) == seq![EffectModel::RestoreGeometry { slot, frame }],
        frame.resizable,
        frame.least matches Some(least) && least.width.bits == 0x406e_0000_0000_0000
            && least.height.bits == 0x4066_8000_0000_0000,
        shown.prev_bounds@[slot - 1] matches Some(kept) ==> frame.size.width == kept.width
            && frame.size.height == kept.height && frame.place == (Place::At {
            x: kept.x,
            y: kept.y,
        }),
        shown.prev_bounds@[slot - 1] is None ==> frame.size.width.bits == 0x4074_0000_0000_0000
            && frame.size.height.bits == 0x406e_0000_0000_0000,
        seen(s@) == seq![EffectModel::WriteState, EffectModel::EmitDock { slot, docked: false }],
        old(data)@.slots[slot - 1].state == "docked"@ ==> final(data)@.slots[slot - 1] == (
        SlotModel { state: "open"@, ..old(data)@.slots[slot - 1] }),
        old(data)@.slots[slot - 1].state != "docked"@ ==> final(data)@ == old(data)@,
        final(data)@.slots[other - 1] == old(data)@.slots[other - 1],
        final(data)@.settings == old(data)@.settings,
        final(data)@.closing == old(data)@.closing,
        final(data)@.prev_bounds == old(data)@.prev_bounds,
{
}

/// Where a window has been moved to is kept for its very slot, unless it is docked or being
/// closed, and written now and again; nothing else changes.
pub proof fn law_window_moved_keeps_the_place(
    shown: AppData,
    data: &mut AppData,
    slot: u8,
    bounds: Bounds,
    now: u128,
    r: Vec<Effect>,
    counts: bool,
)
    requires
        call_ensures(tracks_bounds, (&shown, slot), counts),
        call_ensures(window_moved, (data, slot, bounds, now), r),
        slot == 1 || slot == 2,
    ensures
        counts <==> shown@.slots[slot - 1].state != "docked"@ && !shown@.closing[slot - 1],
        old(data)@.slots[slot - 1].state == "docked"@ || old(data)@.closing[slot - 1] ==> final(data)@ == old(data)@ && r@.len() == 0,
        old(data)@.slots[slot - 1].state != "docked"@ && !old(data)@.closing[slot - 1] ==> final(data)@.settings.bounds == old(data)@.settings.bounds.insert(slot_key(slot), bounds),
        old(data)@.slots[slot - 1].state != "docked"@ && !old(data)@.closing[slot - 1] && now > old(data)@.last_settings_save + 500_000_000 ==> seen(r@) == seq![EffectModel::SaveSettings]
            && final(data)@.last_settings_save == now,
        now <= old(data)@.last_settings_save + 500_000_000 ==> r@.len() == 0 && final(data)@.last_settings_save == old(data)@.last_settings_save,
        final(data)@.slots == old(data)@.slots,
        final(data)@.closing == old(data)@.closing,
        final(data)@.settings.zoom == old(data)@.settings.zoom,
        final(data)@.settings.colors == old(data)@.settings.colors,
        final(data)@.settings.theme == old(data)@.settings.theme,
        final(data)@.settings.opacity == old(data)@.settings.opacity,
{
    assert(r@.len() == seen(r@).len());
}

/// A window that is there gets the focus, and a new one is made for its very slot from what is
/// kept for it.
pub proof fn law_ensure_window_focuses_or_makes(
    data: AppData,
    slot: u8,
    has_window: bool,
    r: WindowAction,
)
    requires
        call_ensures(ensure_window, (&data, slot, has_window), r),
    ensures
        r is Focus <==> has_window,
        r matches WindowAction::Focus(name) ==> name@ == "note-"@ + decimal(slot as nat),
        r matches WindowAction::Create(plan) ==> {
            &&& plan.label@ == "note-"@ + decimal(slot as nat)
            &&& plan.url@ == "index.html?slot="@ + decimal(slot as nat)
            &&& plan.title@ == "lite-notes "@ + decimal(slot as nat)
            &&& plan.least.width.bits == 0x406e_0000_0000_0000
            &&& plan.least.height.bits == 0x4066_8000_0000_0000
            &&& plan.resizable && !plan.decorations && plan.always_on_top
            &&& plan.transparent && plan.skip_taskbar && plan.visible
            &&& plan.bounds is Some <==> data.settings.bounds@.contains_key(slot_key(slot))
            &&& plan.bounds matches Some(b) ==> b == data.settings.bounds@[slot_key(slot)]
                && plan.width == b.width && plan.height == b.height
            &&& plan.bounds is None ==> plan.width.bits == 0x4074_0000_0000_0000
                && plan.height.bits == 0x406e_0000_0000_0000
            &&& data.settings.zoom@.contains_key(slot_key(slot)) ==> plan.zoom
                == data.settings.zoom@[slot_key(slot)]
            &&& !data.settings.zoom@.contains_key(slot_key(slot)) ==> plan.zoom.bits
                == 0x3ff0_0000_0000_0000
            &&& data.settings.theme@ == "light"@ ==> plan.tint == (Tint {
                red: 245,
                green: 245,
                blue: 245,
                alpha: 160,
            })
            &&& data.settings.theme@ != "light"@ ==> plan.tint == (Tint {
                red: 16,
                green: 16,
                blue: 16,
                alpha: 160,
            })
        },
{
    reveal_strlit("dark");
    reveal_strlit("light");
    assert("dark"@.len() == 4 && "light"@.len() == 5);
}

/// A page may go to the application's own origin and nowhere else.
pub proof fn law_allows_navigation_at_home(scheme: &str, host: &str, r: bool)
    requires
        call_ensures(allows_navigation, (scheme, host), r),
    ensures
        r <==> (scheme@ == "tauri"@ && host@ == "localhost"@) || (scheme@ == "http"@ && host@
            == "tauri.localhost"@) || (scheme@ == "https"@ && host@ == "tauri.localhost"@),
{
}

/// What happens to a window concerns the slot that its label names: one about to close has the
/// slot cleared and its label taken, one that is gone has its label freed, and one that has moved
/// is measured unless it is docked or being closed. Every other label concerns nothing.
pub proof fn law_window_events_concern_the_labelled_slot(
    data: &mut AppData,
    label: &str,
    event: WindowEvent,
    r: WindowReaction,
    number: Seq<char>,
    slot: u8,
)
    requires
        call_ensures(window_event, (data, label, event), r),
        label@ == "note-"@ + number,
    ensures
        byte_numeral(number, 10) == Some(slot) && (slot == 1 || slot == 2) ==> match event {
            WindowEvent::CloseRequested => {
                &&& final(data)@.closing[slot - 1]
                &&& final(data)@.slots == old(data)@.cleaned(slot, false).slots
                &&& final(data)@.settings == old(data)@.settings
                &&& r matches WindowReaction::Do(effects) && seen(effects@) == old(data)@.cleaning(slot, false)
            },
            WindowEvent::Destroyed => {
                &&& !final(data)@.closing[slot - 1]
                &&& final(data)@.slots == old(data)@.slots
                &&& final(data)@.settings == old(data)@.settings
                &&& r is Nothing
            },
            WindowEvent::Moved => {
                &&& final(data)@ == old(data)@
                &&& old(data)@.slots[slot - 1].state != "docked"@ && !old(data)@.closing[slot - 1]
                    <==> r == WindowReaction::Measure(slot)
                &&& !(r is Measure) ==> r is Nothing
            },
        },
        (forall|s: u8| s == 1 || s == 2 ==> byte_numeral(number, 10) != Some(s)) ==> final(data)@
            == old(data)@ && r is Nothing,
{
    law_only_labels_belong_to_slots(number, label@, slot);
    law_only_labels_belong_to_slots(number, label@, 1);
    law_only_labels_belong_to_slots(number, label@, 2);
    if forall|s: u8| s == 1 || s == 2 ==> byte_numeral(number, 10) != Some(s) {
        assert(byte_numeral(number, 10) != Some(1u8) && byte_numeral(number, 10) != Some(2u8));
        if labelled_slot(label@) is Some {
            let found = labelled_slot(label@)->0;
            law_only_labels_belong_to_slots(number, label@, found);
        }
    }
}

/// A label that does not begin with `note-` concerns nothing.
pub proof fn law_other_labels_concern_nothing(
    data: &mut AppData,
    label: &str,
    event: WindowEvent,
    r: WindowReaction,
)
    requires
        call_ensures(window_event, (data, label, event), r),
        label@.len() < 5 || label@.subrange(0, 5) != "note-"@,
    ensures
        final(data)@ == old(data)@,
        r is Nothing,
{
    law_only_labels_belong_to_slots(Seq::empty(), label@, 1);
}

/// A border is given a colour, in upper case where a command asks for it, exactly where that is
/// one and far enough from the other border; and then it is written, reported and told.
pub proof fn law_colors_are_given_or_refused(
    data: &mut AppData,
    again: &mut AppData,
    slot: u8,
    color: String,
    text: &str,
    r: Recolor,
    s: Recolor,
    x: (u8, u8, u8),
    y: (u8, u8, u8),
    other: u8,
)
    requires
        call_ensures(recolor, (data, slot, color), r),
        call_ensures(handle_set_color, (again, slot, text), s),
        slot == 1 || slot == 2,
        other == 1 || other == 2,
        other != slot,
        rgb(color@) == Some(x),
        rgb(old(data)@.color(other)) == Some(y),
    ensures
        r is Done <==> (x.0 - y.0) * (x.0 - y.0) + (x.1 - y.1) * (x.1 - y.1) + (x.2 - y.2) * (x.2
            - y.2) >= 3600,
        r is Done <==> !(r is Refused),
        !(r is Done) ==> final(data)@ == old(data)@,
        r matches Recolor::Done(effects) ==> {
            &&& seen(effects@) == seq![
                EffectModel::SaveSettings,
                EffectModel::WriteState,
                EffectModel::EmitColor { slot, color: color@ },
            ]
            &&& final(data)@.settings.colors == old(data)@.settings.colors.insert(
                slot_key(slot),
                color@,
            )
            &&& final(data)@.slots[slot - 1] == (SlotModel {
                color: color@,
                ..old(data)@.slots[slot - 1]
            })
            &&& final(data)@.slots[other - 1] == old(data)@.slots[other - 1]
            &&& final(data)@.settings.zoom == old(data)@.settings.zoom
            &&& final(data)@.settings.theme == old(data)@.settings.theme
        },
        s is Done <==> !old(again)@.recolor_unreadable(slot, uppercase(text@)) && old(again)@.accepts_color(slot, uppercase(text@)),
        s is Unreadable <==> old(again)@.recolor_unreadable(slot, uppercase(text@)),
        !(s is Done) ==> final(again)@ == old(again)@,
        s matches Recolor::Done(effects) ==> {
            &&& final(again)@.settings.colors == old(again)@.settings.colors.insert(
                slot_key(slot),
                uppercase(text@),
            )
            &&& seen(effects@).contains(EffectModel::EmitColor { slot, color: uppercase(text@) })
            &&& rgb(uppercase(text@)) is Some
        },
        vstd::utf8::is_ascii_chars(text@) ==> uppercase(text@) == raised(text@),
{
    law_colors_are_readable(color@);
    law_colors_are_readable(old(data)@.color(other));
    law_colors_are_accepted_by_distance(
        old(data)@,
        slot,
        other,
        color@,
        x,
        y,
        (x.0 - y.0) * (x.0 - y.0) + (x.1 - y.1) * (x.1 - y.1) + (x.2 - y.2) * (x.2 - y.2),
    );
    if s is Done {
        assert(seen(s->Done_0@)[2] == (EffectModel::EmitColor { slot, color: uppercase(text@) }));
    }
}

/// What is no colour, and what is no slot, is refused.
pub proof fn law_no_color_is_given(data: &mut AppData, slot: u8, color: String, r: Recolor)
    requires
        call_ensures(recolor, (data, slot, color), r),
        rgb(color@) is None || (slot != 1 && slot != 2),
    ensures
        !(r is Done),
        final(data)@ == old(data)@,
        slot != 1 && slot != 2 ==> r is Refused,
{
}

/// Colours are read and told apart by their red, green and blue.
pub proof fn law_colors_are_read_and_told_apart(
    a: &str,
    b: &str,
    left: Option<(u8, u8, u8)>,
    readable: bool,
    distance: Option<u32>,
    x: (u8, u8, u8),
    y: (u8, u8, u8),
)
    requires
        call_ensures(hex_to_rgb, (a,), left),
        call_ensures(is_readable_color, (a,), readable),
        call_ensures(color_dist, (a, b), distance),
    ensures
        left == rgb(a@),
        readable <==> readable_color(a@),
        distance is None <==> rgb(a@) is None || rgb(b@) is None,
        rgb(a@) == Some(x) && rgb(b@) == Some(y) ==> distance->0 == (x.0 - y.0) * (x.0 - y.0) + (x.1
            - y.1) * (x.1 - y.1) + (x.2 - y.2) * (x.2 - y.2),
{
    if rgb(a@) == Some(x) && rgb(b@) == Some(y) {
        law_closeness_is_distance_below_sixty(
            a@,
            b@,
            x,
            y,
            (x.0 - y.0) * (x.0 - y.0) + (x.1 - y.1) * (x.1 - y.1) + (x.2 - y.2) * (x.2 - y.2),
        );
    }
}

/// A command is what its members say, each on its own.
pub proof fn law_route_takes_members_as_they_are(fields: CommandFields, r: Command)
    requires
        call_ensures(route, (fields,), r),
    ensures
        r is Push <==> fields.cmd is Some && fields.cmd->0@ == "push"@,
        r is Close <==> fields.cmd is Some && fields.cmd->0@ == "close"@,
        r is SetColor <==> fields.cmd is Some && fields.cmd->0@ == "set_color"@,
        r matches Command::Push(request) ==> {
            &&& fields.content matches Some(t) ==> request.content@ == t@
            &&& fields.content is None ==> request.content@.len() == 0
            &&& fields.title matches Some(t) ==> request.title@ == t@
            &&& fields.title is None ==> request.title@.len() == 0
            &&& fields.path matches Some(t) ==> request.path@ == t@
            &&& fields.path is None ==> request.path@.len() == 0
            &&& fields.mode matches Some(t) ==> request.mode@ == t@
            &&& fields.mode is None ==> request.mode@ == "content"@
            &&& fields.slot matches Some(n) ==> request.slot == n % 256
            &&& fields.slot is None ==> request.slot == 1
        },
        r matches Command::Close(slot) ==> {
            &&& fields.slot matches Some(n) ==> slot == n % 256
            &&& fields.slot is None ==> slot == 0
        },
        r matches Command::SetColor { slot, color } ==> {
            &&& fields.slot matches Some(n) ==> slot == n % 256
            &&& fields.slot is None ==> slot == 0
            &&& fields.color matches Some(t) ==> color@ == t@
            &&& fields.color is None ==> color@.len() == 0
        },
{
    law_commands_go_by_their_names(fields@);
}

/// The members of a document are read by their names, and a text that is no document is no
/// command.
pub proof fn law_documents_are_read(
    document: serde_json::Value,
    fields: CommandFields,
    text: &str,
    command: Option<Command>,
)
    requires
        call_ensures(read_fields, (&document,), fields),
        call_ensures(read_command, (text,), command),
    ensures
        text_seen(fields.cmd) == value_contents(document).member("cmd"@).text(),
        fields.slot == value_contents(document).member("slot"@).count(),
        text_seen(fields.mode) == value_contents(document).member("mode"@).text(),
        text_seen(fields.path) == value_contents(document).member("path"@).text(),
        text_seen(fields.content) == value_contents(document).member("content"@).text(),
        text_seen(fields.title) == value_contents(document).member("title"@).text(),
        text_seen(fields.color) == value_contents(document).member("color"@).text(),
        command is Some <==> json_document(text@) is Some,
        json_document(text@) matches Some(held) ==> {
            let cmd = held.member("cmd"@).text();
            &&& command->0 is Push <==> cmd == Some("push"@)
            &&& command->0 is Close <==> cmd == Some("close"@)
            &&& command->0 is SetColor <==> cmd == Some("set_color"@)
            &&& command->0 matches Command::Push(request) ==> {
                &&& held.member("content"@).text() matches Some(t) ==> request.content@ == t
                &&& held.member("title"@).text() matches Some(t) ==> request.title@ == t
                &&& held.member("path"@).text() matches Some(t) ==> request.path@ == t
                &&& held.member("mode"@).text() matches Some(t) ==> request.mode@ == t
                &&& held.member("slot"@).count() matches Some(n) ==> request.slot == n % 256
            }
            &&& command->0 matches Command::SetColor { slot, color } ==> {
                &&& held.member("color"@).text() matches Some(t) ==> color@ == t
                &&& held.member("slot"@).count() matches Some(n) ==> slot == n % 256
            }
            &&& command->0 matches Command::Close(slot) ==> {
                held.member("slot"@).count() matches Some(n) ==> slot == n % 256
            }
        },
{
    if json_document(text@) is Some {
        law_commands_go_by_their_names(
            fields_of(json_document(text@)->0),
        );
    }
}

/// Commands are carried out as they say, and a file that is no command changes nothing.
pub proof fn law_commands_are_carried_out(
    data: &mut AppData,
    again: &mut AppData,
    command: Command,
    text: Option<String>,
    r: InboxStep,
    s: InboxStep,
)
    requires
        call_ensures(obey, (data, command), r),
        call_ensures(process_inbox, (again, &text), s),
    ensures
        command matches Command::Push(request) ==> final(data)@ == old(data)@ && (
        r matches InboxStep::Push(pushed) && pushed@ == request@),
        command matches Command::Close(slot) ==> final(data)@ == old(data)@.cleaned(slot, true) && (
        r matches InboxStep::Do(effects) && seen(effects@) == old(data)@.cleaning(slot, true)),
        command is Unknown ==> final(data)@ == old(data)@ && r is Nothing,
        command matches Command::SetColor { slot, color } ==> {
            let upper = uppercase(color@);
            &&& !readable_color(upper) && (slot == 1 || slot == 2) ==> r is Unreadable
            &&& (slot != 1 && slot != 2) ==> r is Nothing && final(data)@ == old(data)@
            &&& readable_color(upper) && rgb(upper) is None ==> r is Nothing && final(data)@ == old(data)@
            &&& r is Do <==> !old(data)@.recolor_unreadable(slot, upper) && old(data)@.accepts_color(slot, upper)
            &&& r is Do ==> final(data)@ == old(data)@.recolored(slot, upper)
            &&& !(r is Do) ==> final(data)@ == old(data)@
        },
        text is None ==> final(again)@ == old(again)@ && s is Nothing,
        text matches Some(held) ==> json_document(held@) is None ==> final(again)@ == old(again)@
            && s is Nothing,
        text matches Some(held) ==> (json_document(held@) matches Some(document) ==> obeyed(
            old(again)@,
            routed(fields_of(document)),
            final(again)@,
            s,
        )),
        text matches Some(held) ==> (json_document(held@) matches Some(document) && document.member(
            "cmd"@,
        ).text() == Some("push"@)) ==> s is Push,
{
    if text is Some && json_document(text->0@) is Some {
        law_commands_go_by_their_names(
            fields_of(json_document(text->0@)->0),
        );
    }
}

/// The inbox is taken in the order of its names, exactly those that end in `.json` behind
/// something else, and each file is read, removed and then obeyed.
pub proof fn law_inbox_is_taken_in_order(
    names: Vec<Vec<u8>>,
    order: Vec<usize>,
    actions: Vec<InboxAction>,
    name: Vec<u8>,
    takes: bool,
    i: int,
    j: int,
    k: usize,
)
    requires
        call_ensures(inbox_order, (&names,), order),
        call_ensures(inbox_schedule, (&order,), actions),
        call_ensures(is_command_name, (&name,), takes),
        0 <= i < j < order@.len(),
        k < names@.len(),
    ensures
        takes <==> name@.len() > 5 && name@[name@.len() - 5] == 46 && name@[name@.len() - 4] == 106
            && name@[name@.len() - 3] == 115 && name@[name@.len() - 2] == 111 && name@[name@.len()
            - 1] == 110,
        !name_before(names@[order@[j] as int]@, names@[order@[i] as int]@),
        order@.contains(k) <==> names@[k as int]@.len() > 5 && names@[k as int]@.subrange(
            names@[k as int]@.len() - 5,
            names@[k as int]@.len() as int,
        ) == seq![46u8, 106u8, 115u8, 111u8, 110u8],
        actions@.len() == 3 * order@.len(),
        actions@[3 * i] == InboxAction::Read(order@[i]),
        actions@[3 * i + 1] == InboxAction::Remove(order@[i]),
        actions@[3 * i + 2] == InboxAction::Obey(order@[i]),
{
    law_commands_are_taken_by_name(order@, names@, names@.len() as int, i, j, k);
    let json = seq![46u8, 106u8, 115u8, 111u8, 110u8];
    let one = names@[k as int]@;
    if one.len() > 5 {
        let front = one.subrange(0, one.len() - 5);
        let tail = one.subrange(one.len() - 5, one.len() as int);
        assert(one =~= front + tail);
        if tail == json {
            law_commands_end_in_json(front, one);
        }
        if names_command(one) {
            law_commands_end_in_json(front, one);
            assert(tail =~= json);
        }
    }
    if name@.len() > 5 {
        let front = name@.subrange(0, name@.len() - 5);
        let tail = name@.subrange(name@.len() - 5, name@.len() as int);
        assert(name@ =~= front + tail);
        if tail[0] == 46 && tail[1] == 106 && tail[2] == 115 && tail[3] == 111 && tail[4] == 110 {
            assert(tail =~= json);
            law_commands_end_in_json(front, name@);
        }
    }
    if takes {
        law_commands_end_in_json(Seq::empty(), name@);
    }
}

/// The colour of a border is the chosen one, and before any choice cyan or orange.
pub proof fn law_slot_color_is_the_chosen_one(data: AppData, slot: u8, r: String)
    requires
        call_ensures(slot_color, (&data, slot), r),
        slot == 1 || slot == 2,
    ensures
        data.settings.colors@.contains_key(slot_key(slot)) ==> r@ == data.settings.colors@[slot_key(
            slot,
        )]@,
        !data.settings.colors@.contains_key(slot_key(slot)) && slot == 1 ==> r@ == "#22D3EE"@,
        !data.settings.colors@.contains_key(slot_key(slot)) && slot == 2 ==> r@ == "#F59E0B"@,
{
}

/// The report tells what each slot shows, both colours, the theme, the opacity and the time.
pub proof fn law_write_state_reports_everything(data: AppData, now: u64, r: StateReport)
    requires
        call_ensures(write_state, (&data, now), r),
    ensures
        r@.slots.contains_key(slot_key(1)) && r@.slots[slot_key(1)] == data.slots@[0]@,
        r@.slots.contains_key(slot_key(2)) && r@.slots[slot_key(2)] == data.slots@[1]@,
        r@.colors.contains_key(slot_key(1)) && r@.colors[slot_key(1)] == data@.color(1),
        r@.colors.contains_key(slot_key(2)) && r@.colors[slot_key(2)] == data@.color(2),
        data.settings.theme@.len() > 0 ==> r.theme@ == data.settings.theme@,
        data.settings.theme@.len() == 0 ==> r.theme@ == "dark"@,
        r.opacity == data.settings.opacity,
        r.updated == now,
{
    law_slot_keys_differ(1, 2);
    assert(data@.slots[0] == data.slots@[0]@ && data@.slots[1] == data.slots@[1]@);
}

/// A session starts with two empty slots and nothing chosen; the welcome comes up exactly where
/// neither slot is open or docked.
pub proof fn law_sessions_start_empty(
    files: [String; 2],
    now: u128,
    data: AppData,
    open: bool,
    shown: AppData,
    effects: Vec<Effect>,
    i: int,
)
    requires
        call_ensures(AppData::new, (files, now), data),
        call_ensures(has_open, (&shown,), open),
        call_ensures(finish_start, (&shown,), effects),
        0 <= i < 2,
    ensures
        data@.slots[i].state == "empty"@,
        data@.slots[i].path.len() == 0,
        data@.slots[i].color.len() == 0,
        !data@.closing[i],
        data@.prev_bounds[i] is None,
        data@.note_files[i] == files@[i]@,
        data@.last_settings_save == now,
        data@.settings.theme.len() == 0,
        data@.settings.opacity.bits == 0x3fed_70a3_d70a_3d71,
        data@.settings.zoom =~= Map::empty(),
        data@.settings.colors =~= Map::empty(),
        data@.settings.bounds =~= Map::empty(),
        open <==> shown.slots@[0].state@ == "open"@ || shown.slots@[0].state@ == "docked"@
            || shown.slots@[1].state@ == "open"@ || shown.slots@[1].state@ == "docked"@,
        open ==> seen(effects@) == seq![EffectModel::WriteState],
        !open ==> seen(effects@) == seq![EffectModel::EnsureWindow(1), EffectModel::WriteState],
{
    law_welcome_comes_up_when_nothing_is_shown(shown@);
    assert(shown@.slots[0] == shown.slots@[0]@ && shown@.slots[1] == shown.slots@[1]@);
}

/// The preferences that are taken over are the ones that were read, and nothing else changes.
pub proof fn law_install_settings_takes_them_over(data: &mut AppData, settings: Settings)
    requires
        call_ensures(AppData::install_settings, (data, settings), ()),
    ensures
        final(data)@.settings == settings@,
        final(data)@.slots == old(data)@.slots,
        final(data)@.closing == old(data)@.closing,
        final(data)@.prev_bounds == old(data)@.prev_bounds,
        final(data)@.note_files == old(data)@.note_files,
        final(data)@.last_settings_save == old(data)@.last_settings_save,
{
}

/// A change is taken to the slots that have a file with that key, and to the inbox where it lies
/// directly inside; how a file came into its slot makes no difference.
pub proof fn law_classify_change_finds_the_slots(
    data: AppData,
    paths: Vec<TouchedPath>,
    commands: &str,
    keys: [String; 2],
    r: Touched,
    slot: u8,
)
    requires
        call_ensures(classify_change, (&data, &paths, commands, &keys), r),
    ensures
        r.slots@.contains(slot) <==> (slot == 1 || slot == 2) && data.slots@[slot - 1].path@.len() > 0
            && exists|i: int|
            0 <= i < paths@.len() && (#[trigger] paths@[i]).key@ == keys@[slot - 1]@,
        r.commands <==> exists|i: int|
            0 <= i < paths@.len() && ((#[trigger] paths@[i]).parent matches Some(parent) && parent@
                == commands@),
{
    law_changed_files_are_shown_anew(data@, texts(keys@), paths@, slot);
    law_changes_in_the_inbox_are_noticed(paths@, commands@);
    if slot == 1 || slot == 2 {
        assert(data@.slots[slot - 1] == data.slots@[slot - 1]@);
        assert(texts(keys@)[slot - 1] == keys@[slot - 1]@);
    }
}

/// Every file that a slot shows has its directory watched, each directory once, and the watches
/// are changed by exactly what is missing and what is too much.
pub proof fn law_watches_follow_the_slots(
    data: AppData,
    files: Vec<String>,
    keys: Vec<String>,
    fixed: usize,
    chosen: Vec<usize>,
    current: Vec<String>,
    plan: WatchPlan,
    k: usize,
)
    requires
        call_ensures(shown_files, (&data,), files),
        call_ensures(needed_dirs, (&keys, fixed), chosen),
        call_ensures(sync_watches, (&current, &keys), plan),
        keys@.len() <= usize::MAX,
        current@.len() <= usize::MAX,
    ensures
        data.slots@[0].path@.len() > 0 && data.slots@[1].path@.len() > 0 ==> texts(files@) == seq![
            data.slots@[0].path@,
            data.slots@[1].path@,
        ],
        data.slots@[0].path@.len() > 0 && data.slots@[1].path@.len() == 0 ==> texts(files@) == seq![
            data.slots@[0].path@,
        ],
        data.slots@[0].path@.len() == 0 && data.slots@[1].path@.len() > 0 ==> texts(files@) == seq![
            data.slots@[1].path@,
        ],
        data.slots@[0].path@.len() == 0 && data.slots@[1].path@.len() == 0 ==> files@.len() == 0,
        chosen@.contains(k) <==> k < keys@.len() && (k < fixed || forall|m: int|
            0 <= m < k ==> #[trigger] texts(keys@)[m] != texts(keys@)[k as int]),
        plan.unwatch@.contains(k) <==> k < current@.len() && forall|m: int|
            0 <= m < keys@.len() ==> #[trigger] texts(keys@)[m] != texts(current@)[k as int],
        plan.watch@.contains(k) <==> k < keys@.len() && forall|m: int|
            0 <= m < current@.len() ==> #[trigger] texts(current@)[m] != texts(keys@)[k as int],
{
    law_every_shown_file_is_watched(data@);
    assert(data@.slots[0] == data.slots@[0]@ && data@.slots[1] == data.slots@[1]@);
    assert(texts(files@).len() == files@.len());
    law_first_directories_are_watched(texts(keys@), fixed as nat, keys@.len(), k);
    law_absent_keys_are_listed(plan.unwatch@, texts(current@), texts(keys@), k, 0, 0);
    law_absent_keys_are_listed(plan.watch@, texts(keys@), texts(current@), k, 0, 0);
}

/// Paths are compared in lower case, by their canonical form where there is one; changes are
/// numbered on, and only the last is shown.
pub proof fn law_keys_and_generations(
    canonical: Option<String>,
    path: &str,
    key: String,
    previous: u64,
    next: u64,
    generation: u64,
    last: u64,
    newest: bool,
)
    requires
        call_ensures(canon, (&canonical, path), key),
        call_ensures(next_generation, (previous,), next),
        call_ensures(is_newest, (generation, last), newest),
    ensures
        canonical matches Some(full) ==> key@ == lowercase(full@) && key@ == lowercase(
            lowered(full@),
        ),
        canonical is None ==> key@ == lowercase(path@) && key@ == lowercase(lowered(path@)),
        next == previous + 1,
        newest <==> generation == last,
{
}

/// Labels, keys and numbers as they are asked for on their own.
pub proof fn law_labels_and_numbers(
    slot: u8,
    valid: bool,
    label: String,
    key: String,
    n: u64,
    text: String,
    bytes: u64,
    size: String,
)
    requires
        call_ensures(valid_slot, (slot,), valid),
        call_ensures(window_label, (slot,), label),
        call_ensures(slot_key_text, (slot,), key),
        call_ensures(decimal_text, (n,), text),
        call_ensures(megabytes_text, (bytes,), size),
    ensures
        valid <==> slot == 1 || slot == 2,
        label@ == "note-"@ + decimal(slot as nat),
        key@ == decimal(slot as nat),
        text@ == decimal(n as nat),
        size@ == decimal(megabyte_tenths(bytes) / 10) + seq!['.'] + decimal(
            megabyte_tenths(bytes) % 10,
        ),
{
    law_sizes_are_told_in_tenths(bytes);
}

/// A window belongs to slot 1 or 2 exactly where its label is `note-` and a numeral for that.
pub proof fn law_window_slot_reads_the_label(label: &str, r: Option<u8>, number: Seq<char>, slot: u8)
    requires
        call_ensures(window_slot, (label,), r),
    ensures
        label@ == "note-"@ + number ==> (r == Some(slot) <==> byte_numeral(number, 10) == Some(slot)
            && (slot == 1 || slot == 2)),
        label@.len() < 5 || label@.subrange(0, 5) != "note-"@ ==> r is None,
{
    law_only_labels_belong_to_slots(number, label@, slot);
}

/// Texts are compared, cut and read as they are.
pub proof fn law_texts_are_handled_as_they_are(
    a: &str,
    b: &str,
    same: bool,
    rest: Option<String>,
    bare: String,
    chars: Vec<char>,
    c: char,
    white: bool,
    range: (usize, usize),
    from: usize,
    to: usize,
    byte: Option<u8>,
)
    requires
        call_ensures(same_text, (a, b), same),
        call_ensures(strip_prefix, (a, b), rest),
        call_ensures(trim_prefixes, (a, b), bare),
        call_ensures(chars_of, (a,), chars),
        call_ensures(is_white_space, (c,), white),
        call_ensures(trim_range, (&chars,), range),
        call_ensures(read_byte, (&chars, from, to, 10), byte),
        from <= to <= chars@.len(),
    ensures
        same <==> a@ == b@,
        rest is Some <==> a@.len() >= b@.len() && a@.subrange(0, b@.len() as int) == b@,
        rest matches Some(t) ==> a@ == b@ + t@,
        bare@ == without_prefixes(a@, b@),
        chars@ == a@,
        white <==> white_space(c),
        range.0 <= range.1 <= a@.len(),
        a@.subrange(range.0 as int, range.1 as int) == trimmed(a@),
        byte == byte_numeral(a@.subrange(from as int, to as int), 10),
{
    if a@.len() >= b@.len() {
        assert(a@.take(b@.len() as int) =~= a@.subrange(0, b@.len() as int));
    }
}

/// Files are kept inside the application's own directory, under their names.
pub proof fn law_places_of_files(
    local: Option<String>,
    temp: String,
    dir: DataPath,
    notes: DataPath,
    commands: DataPath,
    state: DataPath,
    settings: DataPath,
    slot: u8,
    note: DataPath,
)
    requires
        call_ensures(data_dir, (local, temp), dir),
        call_ensures(notes_dir, (&dir,), notes),
        call_ensures(commands_dir, (&dir,), commands),
        call_ensures(state_file, (&dir,), state),
        call_ensures(settings_file, (&dir,), settings),
        call_ensures(note_file, (&dir, slot), note),
    ensures
        local matches Some(base) ==> dir@.base == base@,
        local is None ==> dir@.base == temp@,
        dir@.names == seq!["lite-notes"@],
        notes@.base == dir@.base && notes@.names == seq!["lite-notes"@, "notes"@],
        commands@.base == dir@.base && commands@.names == seq!["lite-notes"@, "commands"@],
        state@.base == dir@.base && state@.names == seq!["lite-notes"@, "state.json"@],
        settings@.base == dir@.base && settings@.names == seq!["lite-notes"@, "settings.json"@],
        note@.base == dir@.base && note@.names == seq![
            "lite-notes"@,
            "notes"@,
            "slot-"@ + decimal(slot as nat) + ".md"@,
        ],
{
}

/// What a lock guards is handed on in either case, and a clock before the epoch reads zero.
pub proof fn law_locks_and_clocks<T>(
    outcome: Result<T, T>,
    guard: T,
    since: Option<u64>,
    now: u64,
)
    requires
        call_ensures(lockd::<T>, (outcome,), guard),
        call_ensures(now_ts, (since,), now),
    ensures
        outcome matches Ok(g) ==> guard == g,
        outcome matches Err(g) ==> guard == g,
        since matches Some(seconds) ==> now == seconds,
        since is None ==> now == 0,
{
}

/// A number is held to a range, and what is kept for a slot, or stands in for it, is looked up.
pub proof fn law_held_and_looked_up(
    x: Binary64,
    low: Binary64,
    high: Binary64,
    held: Binary64,
    settings: Settings,
    key: &str,
    theme: String,
    zoom: Binary64,
)
    requires
        call_ensures(Binary64::clamp, (x, low, high), held),
        call_ensures(Settings::shown_theme, (&settings,), theme),
        call_ensures(Settings::zoom_of, (&settings, key), zoom),
        !low.is_nan(),
        !high.is_nan(),
        low.rank() <= high.rank(),
    ensures
        x.is_nan() ==> held == x,
        !x.is_nan() && x.rank() < low.rank() ==> held == low,
        !x.is_nan() && x.rank() > high.rank() ==> held == high,
        !x.is_nan() && low.rank() <= x.rank() <= high.rank() ==> held == x,
        settings.theme@.len() > 0 ==> theme@ == settings.theme@,
        settings.theme@.len() == 0 ==> theme@ == "dark"@,
        settings.zoom@.contains_key(key@) ==> zoom == settings.zoom@[key@],
        !settings.zoom@.contains_key(key@) ==> zoom.bits == 0x3ff0_0000_0000_0000,
{
}

} // verus!
