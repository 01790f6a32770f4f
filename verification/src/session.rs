//! What holds over a whole session, whatever is done in it and in which order.

use vstd::prelude::*;

use crate::binary64::Binary64;
use crate::data::AppModel;
use crate::dock::{law_docking_keeps_invariant, MOVE_SAVE_AFTER};
use crate::effect::{deletes, EffectModel};
use crate::notes::{
    law_cleanup_keeps_invariant, law_copies_go_with_the_note, law_ending_keeps_invariant,
    law_only_own_copies_are_deleted, leftover,
};
use crate::prefs::{
    chosen_theme, held_opacity, law_preferences_keep_invariant, lemma_same_colors, tint_of,
    ZOOM_SAVE_AFTER,
};
use crate::push::{
    law_push_keeps_invariant, law_pushes_delete_replaced_copies_only,
    law_replaced_copies_are_deleted, PushModel,
};
use crate::recolor::{law_borders_differ, law_recolor_keeps_invariant, recoloring};
use crate::settings::Bounds;
use crate::slot::is_slot;

verus! {

/// One step of a session, with all that comes in from outside.
pub enum Operation {
    /// A slot is cleared.
    CleanUp { slot: u8, close_window: bool },
    /// A window is about to be closed from outside.
    CloseRequested { slot: u8 },
    /// A window is asked to close, if there is one.
    CloseWindow { slot: u8, has_window: bool },
    /// A window is gone.
    WindowGone { slot: u8 },
    /// A note is put into its slot.
    Push {
        request: PushModel,
        canonical: Option<Seq<char>>,
        own: Option<Seq<char>>,
        file_name: Option<Seq<char>>,
        stamp: u64,
    },
    /// A border is to be given a colour.
    Recolor { slot: u8, color: Seq<char> },
    SetOpacity { value: Binary64 },
    SetTheme { theme: Seq<char> },
    SetZoom { slot: u8, factor: Binary64, now: u128 },
    /// The page of a window has loaded.
    Ready { slot: u8, windows: Seq<Option<bool>> },
    Dock { slot: u8, has_window: bool, geometry: Option<Bounds> },
    /// A window is to get its shape back.
    Undock { slot: u8 },
    /// An undocked window has its shape back.
    FinishUndock { slot: u8 },
    /// A window has been moved or resized.
    Move { slot: u8, bounds: Bounds, now: u128 },
    /// The application ends.
    End,
}

impl Operation {
    /// The step speaks of one of the two slots, where it has to.
    pub open spec fn fits(self) -> bool {
        match self {
            Operation::CloseRequested { slot } => is_slot(slot),
            Operation::CloseWindow { slot, .. } => is_slot(slot),
            Operation::WindowGone { slot } => is_slot(slot),
            Operation::Push { request, .. } => is_slot(request.slot),
            Operation::Move { slot, .. } => is_slot(slot),
            _ => true,
        }
    }

    /// The state after the step.
    pub open spec fn after(self, data: AppModel) -> AppModel {
        match self {
            Operation::CleanUp { slot, close_window } => data.cleaned(slot, close_window),
            Operation::CloseRequested { slot } => data.cleaned(slot, false).with_closing(
                slot,
                true,
            ),
            Operation::CloseWindow { slot, has_window } => data.closed_window(slot, has_window),
            Operation::WindowGone { slot } => data.with_closing(slot, false),
            Operation::Push { request, canonical, file_name, stamp, .. } => data.pushed(
                request,
                canonical,
                file_name,
                stamp,
            ),
            Operation::Recolor { slot, color } => if !data.recolor_unreadable(slot, color)
                && data.accepts_color(slot, color) {
                data.recolored(slot, color)
            } else {
                data
            },
            Operation::SetOpacity { value } => data.with_opacity(held_opacity(value)),
            Operation::SetTheme { theme } => data.with_theme(chosen_theme(theme)),
            Operation::SetZoom { slot, factor, now } => data.zoomed(slot, factor, now),
            Operation::Ready { slot, windows } => if is_slot(slot) {
                data.with_theme(data.theme_for_page(windows))
            } else {
                data
            },
            Operation::Dock { slot, has_window, geometry } => data.docked(
                slot,
                has_window,
                geometry,
            ),
            Operation::Undock { .. } => data,
            Operation::FinishUndock { slot } => data.undocked(slot),
            Operation::Move { slot, bounds, now } => data.moved(slot, bounds, now),
            Operation::End => data.ended(),
        }
    }

    /// What is done in the step.
    pub open spec fn effects(self, data: AppModel) -> Seq<EffectModel> {
        match self {
            Operation::CleanUp { slot, close_window } => data.cleaning(slot, close_window),
            Operation::CloseRequested { slot } => data.cleaning(slot, false),
            Operation::CloseWindow { .. } => seq![],
            Operation::WindowGone { .. } => seq![],
            Operation::Push { request, canonical, own, .. } => data.pushing(
                request,
                canonical,
                own,
            ),
            Operation::Recolor { slot, color } => if !data.recolor_unreadable(slot, color)
                && data.accepts_color(slot, color) {
                recoloring(slot, color)
            } else {
                seq![]
            },
            Operation::SetOpacity { value } => seq![
                EffectModel::SaveSettings,
                EffectModel::WriteState,
                EffectModel::EmitOpacity(held_opacity(value)),
            ],
            Operation::SetTheme { theme } => seq![
                EffectModel::SaveSettings,
                EffectModel::WriteState,
                EffectModel::TintWindow { slot: 1, tint: tint_of(chosen_theme(theme)) },
                EffectModel::TintWindow { slot: 2, tint: tint_of(chosen_theme(theme)) },
                EffectModel::EmitTheme(chosen_theme(theme)),
            ],
            Operation::SetZoom { slot, factor, now } => data.zooming(slot, factor, now),
            Operation::Ready { slot, windows } => if is_slot(slot) {
                data.readying(slot, windows)
            } else {
                seq![]
            },
            Operation::Dock { slot, has_window, .. } => data.docking(slot, has_window),
            Operation::Undock { slot } => data.undocking(slot),
            Operation::FinishUndock { slot } => data.reopening(slot),
            Operation::Move { slot, now, .. } => data.moving(slot, now),
            Operation::End => data.ending(),
        }
    }
}

impl Operation {
    /// The step is one of a burst of zooming or moving, so that the preferences have been
    /// written a moment ago.
    pub open spec fn in_burst(self, data: AppModel) -> bool {
        match self {
            Operation::SetZoom { now, .. } => !data.save_is_due(now, ZOOM_SAVE_AFTER),
            Operation::Move { now, .. } => !data.save_is_due(now, MOVE_SAVE_AFTER),
            _ => false,
        }
    }
}

/// Every step of a session speaks of one of the two slots, where it has to.
pub open spec fn all_fit(steps: Seq<Operation>) -> bool {
    forall|i: int| 0 <= i < steps.len() ==> (#[trigger] steps[i]).fits()
}

/// The state after a row of steps.
pub open spec fn run(start: AppModel, steps: Seq<Operation>) -> AppModel
    decreases steps.len(),
{
    if steps.len() == 0 {
        start
    } else {
        steps.last().after(run(start, steps.drop_last()))
    }
}

/// Every step keeps the invariant, the files for content, and the border colours apart.
pub proof fn law_every_step_keeps_invariant(data: AppModel, step: Operation)
    requires
        data.inv(),
        step.fits(),
    ensures
        step.after(data).inv(),
        step.after(data).note_files == data.note_files,
        data.colors_apart() ==> step.after(data).colors_apart(),
{
    match step {
        Operation::CleanUp { slot, close_window } => {
            law_cleanup_keeps_invariant(data, slot, close_window);
        },
        Operation::CloseRequested { slot } => {
            law_cleanup_keeps_invariant(data, slot, false);
            let between = data.cleaned(slot, false);
            lemma_same_colors(between, between.with_closing(slot, true));
        },
        Operation::CloseWindow { slot, has_window } => {
            lemma_same_colors(data, data.closed_window(slot, has_window));
        },
        Operation::WindowGone { slot } => {
            lemma_same_colors(data, data.with_closing(slot, false));
        },
        Operation::Push { request, canonical, file_name, stamp, .. } => {
            law_push_keeps_invariant(data, request, canonical, file_name, stamp);
        },
        Operation::Recolor { slot, color } => {
            if data.accepts_color(slot, color) {
                law_recolor_keeps_invariant(data, slot, color);
                law_borders_differ(data, slot, color);
            }
        },
        Operation::SetOpacity { value } => {
            lemma_same_colors(data, data.with_opacity(held_opacity(value)));
        },
        Operation::SetTheme { theme } => {
            lemma_same_colors(data, data.with_theme(chosen_theme(theme)));
        },
        Operation::SetZoom { slot, factor, now } => {
            law_preferences_keep_invariant(data, Seq::empty(), factor, slot, factor, now);
        },
        Operation::Ready { slot, windows } => {
            lemma_same_colors(data, data.with_theme(data.theme_for_page(windows)));
        },
        Operation::Dock { slot, has_window, geometry } => {
            law_docking_keeps_invariant(data, slot, has_window, geometry);
        },
        Operation::Undock { .. } => {},
        Operation::FinishUndock { slot } => {
            law_docking_keeps_invariant(data, slot, true, None);
        },
        Operation::Move { slot, bounds, now } => {
            lemma_same_colors(data, data.moved(slot, bounds, now));
        },
        Operation::End => {
            law_ending_keeps_invariant(data);
        },
    }
}

/// The invariant holds in every state of a session, the files for content stay the same, and
/// border colours that are told apart at the start are told apart for ever after.
pub proof fn law_every_state_keeps_invariant(start: AppModel, steps: Seq<Operation>)
    requires
        start.inv(),
        all_fit(steps),
    ensures
        run(start, steps).inv(),
        run(start, steps).note_files == start.note_files,
        start.colors_apart() ==> run(start, steps).colors_apart(),
    decreases steps.len(),
{
    if steps.len() > 0 {
        let shorter = steps.drop_last();
        assert forall|i: int| 0 <= i < shorter.len() implies (#[trigger] shorter[i]).fits() by {
            assert(shorter[i] == steps[i]);
        }
        law_every_state_keeps_invariant(start, shorter);
        law_every_step_keeps_invariant(run(start, shorter), steps.last());
    }
}

/// Whatever is done in a session, no step of it deletes any file but the two for content.
pub proof fn law_sessions_delete_own_copies_only(
    start: AppModel,
    steps: Seq<Operation>,
    step: Operation,
    path: Seq<char>,
)
    requires
        start.inv(),
        all_fit(steps),
        step.fits(),
        deletes(step.effects(run(start, steps)), path),
    ensures
        path == start.note_file(1) || path == start.note_file(2),
{
    law_every_state_keeps_invariant(start, steps);
    let data = run(start, steps);
    let effects = step.effects(data);
    let i = choose|i: int| 0 <= i < effects.len() && effects[i] == EffectModel::DeleteFile(path);
    assert(effects[i] == EffectModel::DeleteFile(path));
    match step {
        Operation::CleanUp { slot, close_window } => {
            law_only_own_copies_are_deleted(data, slot, close_window, path);
        },
        Operation::CloseRequested { slot } => {
            law_only_own_copies_are_deleted(data, slot, false, path);
        },
        Operation::Push { request, canonical, own, .. } => {
            law_pushes_delete_replaced_copies_only(data, request, canonical, own, path);
            assert(request.slot == 1 || request.slot == 2);
        },
        Operation::End => {
            law_only_own_copies_are_deleted(data, 1, false, path);
        },
        _ => {},
    }
}

/// The report is never out of date: a step that changes what is reported writes the report.
pub proof fn law_reports_are_current(data: AppModel, step: Operation, now: u64)
    requires
        data.inv(),
        step.fits(),
    ensures
        step.effects(data).contains(EffectModel::WriteState) || step.after(data).report(now)
            == data.report(now),
{
    let effects = step.effects(data);
    let after = step.after(data);
    match step {
        Operation::CleanUp { slot, close_window } => {
            if is_slot(slot) {
                let k = leftover(data.slot(slot)).len() as int;
                assert(effects[k] == EffectModel::WriteState);
            }
        },
        Operation::CloseRequested { slot } => {
            let k = leftover(data.slot(slot)).len() as int;
            assert(effects[k] == EffectModel::WriteState);
        },
        Operation::Push { request, canonical, own, .. } => {
            let k: int = if data.replaces_copy(request, canonical, own) {
                1
            } else {
                0
            };
            assert(effects[k] == EffectModel::WriteState);
        },
        Operation::Recolor { slot, color } => {
            if !data.recolor_unreadable(slot, color) && data.accepts_color(slot, color) {
                assert(effects[1] == EffectModel::WriteState);
            }
        },
        Operation::SetOpacity { value } => {
            assert(effects[1] == EffectModel::WriteState);
        },
        Operation::SetTheme { theme } => {
            assert(effects[1] == EffectModel::WriteState);
        },
        Operation::Ready { slot, windows } => {
            if is_slot(slot) && data.settings.theme != data.theme_for_page(windows) {
                assert(effects[1] == EffectModel::WriteState);
            }
        },
        Operation::Dock { slot, has_window, .. } => {
            if is_slot(slot) && has_window {
                assert(effects[0] == EffectModel::WriteState);
            }
        },
        Operation::FinishUndock { slot } => {
            if is_slot(slot) {
                assert(effects[0] == EffectModel::WriteState);
            }
        },
        Operation::End => {
            assert(effects[effects.len() - 2] == EffectModel::WriteState);
        },
        Operation::SetZoom { .. } | Operation::Move { .. } | Operation::CloseWindow { .. }
        | Operation::WindowGone { .. } | Operation::Undock { .. } => {
            lemma_same_report(data, after, now);
        },
    }
}

proof fn lemma_same_report(data: AppModel, after: AppModel, now: u64)
    requires
        after.slots == data.slots,
        after.settings.colors == data.settings.colors,
        after.settings.theme == data.settings.theme,
        after.settings.opacity == data.settings.opacity,
    ensures
        after.report(now) == data.report(now),
{
    assert(after.color(1) == data.color(1));
    assert(after.color(2) == data.color(2));
    assert(after.report(now) =~= data.report(now));
}

/// Preferences are not lost: a step that changes them writes them, unless it is one of a
/// burst of zooming or moving, and the end of the session writes them in any case.
pub proof fn law_preferences_are_kept(data: AppModel, step: Operation)
    requires
        step.fits(),
    ensures
        step.in_burst(data) || step.after(data).settings == data.settings || step.effects(
            data,
        ).contains(EffectModel::SaveSettings),
        Operation::End.effects(data).contains(EffectModel::SaveSettings),
        Operation::End.after(data).settings == data.settings,
{
    let effects = step.effects(data);
    let ending = Operation::End.effects(data);
    assert(ending[ending.len() - 1] == EffectModel::SaveSettings);
    match step {
        Operation::Recolor { slot, color } => {
            if !data.recolor_unreadable(slot, color) && data.accepts_color(slot, color) {
                assert(effects[0] == EffectModel::SaveSettings);
            }
        },
        Operation::SetOpacity { value } => {
            assert(effects[0] == EffectModel::SaveSettings);
        },
        Operation::SetTheme { theme } => {
            assert(effects[0] == EffectModel::SaveSettings);
        },
        Operation::Ready { slot, windows } => {
            if is_slot(slot) && data.settings.theme != data.theme_for_page(windows) {
                assert(effects[0] == EffectModel::SaveSettings);
            }
        },
        Operation::SetZoom { slot, now, .. } => {
            if is_slot(slot) && data.save_is_due(now, ZOOM_SAVE_AFTER) {
                assert(effects[1] == EffectModel::SaveSettings);
            }
        },
        Operation::Move { slot, now, .. } => {
            if data.tracks(slot) && data.save_is_due(now, MOVE_SAVE_AFTER) {
                assert(effects[0] == EffectModel::SaveSettings);
            }
        },
        _ => {},
    }
}

impl Operation {
    /// The step follows on content that has been written to the file of a slot.
    pub open spec fn writes_copy(self, slot: u8) -> bool {
        self matches Operation::Push { request, .. } && request.slot == slot && request.mode
            != "path"@
    }

    /// The step opens the file of a slot by its path in that very slot: from now on it counts
    /// as a file that was opened, which is never deleted.
    pub open spec fn opens_copy(self, data: AppModel, slot: u8) -> bool {
        self matches Operation::Push { request, canonical, own, .. } && request.slot == slot
            && request.mode == "path"@ && data.opens_own_file(request, canonical, own)
    }
}

/// After a row of steps there is a temporary copy in the file of a slot: content has been
/// written there, and since then the file has neither been deleted nor been opened by its
/// path.
pub open spec fn holds_copy(start: AppModel, steps: Seq<Operation>, slot: u8) -> bool
    decreases steps.len(),
{
    if steps.len() == 0 {
        false
    } else {
        let before = run(start, steps.drop_last());
        let step = steps.last();
        if step.writes_copy(slot) {
            true
        } else if step.opens_copy(before, slot) || deletes(
            step.effects(before),
            start.note_file(slot),
        ) {
            false
        } else {
            holds_copy(start, steps.drop_last(), slot)
        }
    }
}

/// As long as there is a temporary copy, the slot that it belongs to shows it.
pub proof fn law_copies_belong_to_notes(start: AppModel, steps: Seq<Operation>, slot: u8)
    requires
        start.inv(),
        all_fit(steps),
        is_slot(slot),
        start.note_file(slot).len() > 0,
        holds_copy(start, steps, slot),
    ensures
        run(start, steps).slot(slot).owns_copy(),
        run(start, steps).slot(slot).path == start.note_file(slot),
    decreases steps.len(),
{
    let shorter = steps.drop_last();
    assert forall|i: int| 0 <= i < shorter.len() implies (#[trigger] shorter[i]).fits() by {
        assert(shorter[i] == steps[i]);
    }
    law_every_state_keeps_invariant(start, shorter);
    law_every_state_keeps_invariant(start, steps);
    let before = run(start, shorter);
    let step = steps.last();
    if !step.writes_copy(slot) {
        law_copies_belong_to_notes(start, shorter, slot);
        match step {
            Operation::CleanUp { slot: cleared, close_window } => {
                if cleared == slot {
                    law_copies_go_with_the_note(before, slot, close_window);
                }
            },
            Operation::CloseRequested { slot: cleared } => {
                if cleared == slot {
                    law_copies_go_with_the_note(before, slot, false);
                }
            },
            Operation::Push { request, canonical, own, .. } => {
                if request.slot == slot {
                    law_replaced_copies_are_deleted(before, request, canonical, own);
                }
            },
            Operation::End => {
                law_copies_go_with_the_note(before, slot, false);
            },
            _ => {},
        }
    }
    assert(run(start, steps).slot(slot).owns_copy());
}

/// No temporary copy outlives its note or the session: whatever was done before, there is
/// none left in a slot when the slot has been closed, nor in any when the session has ended,
/// and both slots are empty then.
pub proof fn law_no_copy_is_left(
    start: AppModel,
    steps: Seq<Operation>,
    slot: u8,
    close_window: bool,
)
    requires
        start.inv(),
        all_fit(steps),
        is_slot(slot),
        start.note_file(slot).len() > 0,
    ensures
        !holds_copy(start, steps.push(Operation::CleanUp { slot, close_window }), slot),
        !holds_copy(start, steps.push(Operation::CloseRequested { slot }), slot),
        !holds_copy(start, steps.push(Operation::End), slot),
        run(start, steps.push(Operation::End)).slot(slot).state == "empty"@,
{
    lemma_emptied_slots_hold_nothing(start, steps, Operation::CleanUp { slot, close_window }, slot);
    lemma_emptied_slots_hold_nothing(start, steps, Operation::CloseRequested { slot }, slot);
    lemma_emptied_slots_hold_nothing(start, steps, Operation::End, slot);
}

proof fn lemma_emptied_slots_hold_nothing(
    start: AppModel,
    steps: Seq<Operation>,
    step: Operation,
    slot: u8,
)
    requires
        start.inv(),
        all_fit(steps),
        is_slot(slot),
        start.note_file(slot).len() > 0,
        step.fits(),
        step is End || (step matches Operation::CleanUp { slot: cleared, .. } && cleared == slot)
            || (step matches Operation::CloseRequested { slot: cleared } && cleared == slot),
    ensures
        !holds_copy(start, steps.push(step), slot),
        run(start, steps.push(step)).slot(slot).state == "empty"@,
{
    let longer = steps.push(step);
    assert(longer.drop_last() =~= steps);
    assert(longer.last() == step);
    law_every_state_keeps_invariant(start, steps);
    assert(slot == 1 || slot == 2);
    assert(run(start, longer) == step.after(run(start, steps)));
    assert(run(start, longer).slot(slot).path.len() == 0);
    if holds_copy(start, longer, slot) {
        assert forall|i: int| 0 <= i < longer.len() implies (#[trigger] longer[i]).fits() by {
            if i < steps.len() {
                assert(longer[i] == steps[i]);
            }
        }
        law_copies_belong_to_notes(start, longer, slot);
    }
}

} // verus!
