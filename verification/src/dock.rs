//! Docking a window to the edge of the screen, getting it back, and keeping track of where
//! it is.

use vstd::prelude::*;

use crate::binary64::Binary64;
use crate::data::{AppData, AppModel};
use crate::effect::{acts_on, seen, Effect, EffectModel, Frame, Place, Size};
use crate::prefs::{is_save_due, lemma_same_colors};
use crate::settings::{Bounds, SettingsModel};
use crate::slot::{is_slot, known_state, slot_key, slot_key_text, valid_slot, SlotModel};
use crate::text::same_text;

verus! {

/// How long a window moves on before the preferences are written, in nanoseconds.
pub const MOVE_SAVE_AFTER: u128 = 500_000_000;

/// The bits of 100.0.
pub const RESTORE_PLACE: u64 = 0x4059_0000_0000_0000;

/// The bits of 320.0.
pub const DEFAULT_WIDTH: u64 = 0x4074_0000_0000_0000;

/// The bits of 240.0.
pub const DEFAULT_HEIGHT: u64 = 0x406e_0000_0000_0000;

/// The bits of 240.0.
pub const LEAST_WIDTH: u64 = 0x406e_0000_0000_0000;

/// The bits of 180.0.
pub const LEAST_HEIGHT: u64 = 0x4066_8000_0000_0000;

/// The bits of 3.5.
pub const STRIP_WIDTH: u64 = 0x400c_0000_0000_0000;

/// The bits of 40.0.
pub const STRIP_HEIGHT: u64 = 0x4044_0000_0000_0000;

/// The least size of a window that is not docked: 240 by 180.
pub open spec fn least_size() -> Size {
    Size { width: Binary64 { bits: LEAST_WIDTH }, height: Binary64 { bits: LEAST_HEIGHT } }
}

/// The least size of a window that is not docked.
pub(crate) fn least() -> (r: Size)
    ensures
        r == least_size(),
{
    Size { width: Binary64 { bits: LEAST_WIDTH }, height: Binary64 { bits: LEAST_HEIGHT } }
}

/// The shape of a docked window: a strip of 3.5 by 40 at the left edge, which cannot be
/// resized and has no least size.
pub open spec fn strip_frame() -> Frame {
    Frame {
        resizable: false,
        least: None,
        size: Size {
            width: Binary64 { bits: STRIP_WIDTH },
            height: Binary64 { bits: STRIP_HEIGHT },
        },
        place: Place::LeftEdge,
    }
}

/// The shape of a window that comes back to `bounds`: it can be resized again, down to the
/// least size.
pub open spec fn restored_frame(bounds: Bounds) -> Frame {
    Frame {
        resizable: true,
        least: Some(least_size()),
        size: Size { width: bounds.width, height: bounds.height },
        place: Place::At { x: bounds.x, y: bounds.y },
    }
}

/// Where a window goes that was never docked.
pub open spec fn fallback_bounds() -> Bounds {
    Bounds {
        x: Binary64 { bits: RESTORE_PLACE },
        y: Binary64 { bits: RESTORE_PLACE },
        width: Binary64 { bits: DEFAULT_WIDTH },
        height: Binary64 { bits: DEFAULT_HEIGHT },
    }
}

impl AppModel {
    /// Where the window of a slot goes when it is undocked: back to where it was, if it was
    /// ever docked.
    pub open spec fn restore_bounds(self, slot: u8) -> Bounds {
        if is_slot(slot) && self.prev_bounds[slot - 1] is Some {
            self.prev_bounds[slot - 1]->0
        } else {
            fallback_bounds()
        }
    }

    pub open spec fn with_state(self, slot: u8, state: Seq<char>) -> AppModel {
        self.with_slot(slot, SlotModel { state, ..self.slot(slot) })
    }

    /// The state after the window of a slot has been docked. `geometry` is where the window
    /// was, where that could be told.
    pub open spec fn docked(self, slot: u8, has_window: bool, geometry: Option<Bounds>) -> AppModel {
        if !is_slot(slot) || !has_window {
            self
        } else {
            let kept = if geometry is Some {
                self.prev_bounds.update(slot - 1, geometry)
            } else {
                self.prev_bounds
            };
            AppModel { prev_bounds: kept, ..self }.with_state(slot, "docked"@)
        }
    }

    /// What is done when the window of a slot is docked.
    pub open spec fn docking(self, slot: u8, has_window: bool) -> Seq<EffectModel> {
        if !is_slot(slot) || !has_window {
            seq![]
        } else {
            seq![
                EffectModel::WriteState,
                EffectModel::CollapseWindow { slot, frame: strip_frame() },
                EffectModel::EmitDock { slot, docked: true },
            ]
        }
    }

    /// The state after the window of a slot has been undocked and has its shape back.
    pub open spec fn undocked(self, slot: u8) -> AppModel {
        if is_slot(slot) && self.slot(slot).state == "docked"@ {
            self.with_state(slot, "open"@)
        } else {
            self
        }
    }

    /// What is done first when the window of a slot is undocked, while the slot still counts
    /// as docked: the window gets its shape back.
    pub open spec fn undocking(self, slot: u8) -> Seq<EffectModel> {
        if is_slot(slot) {
            seq![
                EffectModel::RestoreGeometry {
                    slot,
                    frame: restored_frame(self.restore_bounds(slot)),
                },
            ]
        } else {
            seq![]
        }
    }

    /// What is done when an undocked window has its shape back.
    pub open spec fn reopening(self, slot: u8) -> Seq<EffectModel> {
        if is_slot(slot) {
            seq![EffectModel::WriteState, EffectModel::EmitDock { slot, docked: false }]
        } else {
            seq![]
        }
    }

    /// The place of a window counts: it is neither docked nor being closed.
    pub open spec fn tracks(self, slot: u8) -> bool {
        self.slot(slot).state != "docked"@ && !self.closing[slot - 1]
    }

    pub open spec fn with_bounds(self, slot: u8, bounds: Bounds) -> AppModel {
        self.with_settings(
            SettingsModel {
                bounds: self.settings.bounds.insert(slot_key(slot), bounds),
                ..self.settings
            },
        )
    }

    /// The state after a window has been moved or resized.
    pub open spec fn moved(self, slot: u8, bounds: Bounds, now: u128) -> AppModel {
        if !self.tracks(slot) {
            self
        } else if self.save_is_due(now, MOVE_SAVE_AFTER) {
            self.with_bounds(slot, bounds).with_save_at(now)
        } else {
            self.with_bounds(slot, bounds)
        }
    }

    /// What is done when a window has been moved or resized.
    pub open spec fn moving(self, slot: u8, now: u128) -> Seq<EffectModel> {
        if self.tracks(slot) && self.save_is_due(now, MOVE_SAVE_AFTER) {
            seq![EffectModel::SaveSettings]
        } else {
            seq![]
        }
    }
}

/// The shape that the window of a slot gets back when it is undocked.
pub fn restore_dock_geometry(data: &AppData, slot: u8) -> (r: Frame)
    ensures
        r == restored_frame(data@.restore_bounds(slot)),
{
    let mut bounds: Bounds = Bounds {
        x: Binary64 { bits: RESTORE_PLACE },
        y: Binary64 { bits: RESTORE_PLACE },
        width: Binary64 { bits: DEFAULT_WIDTH },
        height: Binary64 { bits: DEFAULT_HEIGHT },
    };
    if valid_slot(slot) {
        let i: usize = (slot - 1) as usize;
        match data.prev_bounds[i] {
            Some(kept) => {
                bounds = kept;
            },
            None => {},
        }
    }
    Frame {
        resizable: true,
        least: Some(least()),
        size: Size { width: bounds.width, height: bounds.height },
        place: Place::At { x: bounds.x, y: bounds.y },
    }
}

/// The shape of a docked window.
fn strip() -> (r: Frame)
    ensures
        r == strip_frame(),
{
    Frame {
        resizable: false,
        least: None,
        size: Size {
            width: Binary64 { bits: STRIP_WIDTH },
            height: Binary64 { bits: STRIP_HEIGHT },
        },
        place: Place::LeftEdge,
    }
}

/// Changes the state of a slot and nothing else of it.
fn set_state(data: &mut AppData, slot: u8, state: &str)
    requires
        is_slot(slot),
    ensures
        final(data)@ == old(data)@.with_state(slot, state@),
{
    let i: usize = (slot - 1) as usize;
    let mut info = data.slots[i].clone();
    info.state = state.to_owned();
    data.set_slot(slot, info);
}

proof fn lemma_state_keeps_invariant(data: AppModel, slot: u8, state: Seq<char>)
    requires
        is_slot(slot),
        data.inv(),
        known_state(state),
    ensures
        data.with_state(slot, state).inv(),
{
    let after = data.with_state(slot, state);
    assert forall|n: u8| is_slot(n) implies #[trigger] after.slot(n).mode == data.slot(n).mode
        && after.slot(n).path == data.slot(n).path && after.slot(n).color == data.slot(n).color by {}
    assert forall|n: u8| #[trigger] after.color(n) == data.color(n) by {}
    assert forall|n: u8|
        is_slot(n) && (#[trigger] after.slot(n)).owns_copy() implies after.slot(n).path
        == after.note_file(n) by {
        assert(data.slot(n).owns_copy());
    }
    assert forall|n: u8| is_slot(n) implies known_state((#[trigger] after.slot(n)).state) by {
        assert(known_state(data.slot(n).state));
    }
    assert forall|n: u8| #![trigger after.slot(n)] is_slot(n) && after.slot(n).color.len() > 0 implies after.slot(
        n,
    ).color == after.color(n) by {
        assert(data.slot(n).color == after.slot(n).color);
        assert(after.color(n) == data.color(n));
    }
}

/// Docking and undocking keep the invariant and leave the preferences alone.
pub proof fn law_docking_keeps_invariant(
    data: AppModel,
    slot: u8,
    has_window: bool,
    geometry: Option<Bounds>,
)
    requires
        data.inv(),
    ensures
        data.docked(slot, has_window, geometry).inv(),
        data.docked(slot, has_window, geometry).settings == data.settings,
        data.undocked(slot).inv(),
        data.undocked(slot).settings == data.settings,
{
    if is_slot(slot) {
        lemma_state_keeps_invariant(data, slot, "open"@);
        let kept = if geometry is Some {
            data.prev_bounds.update(slot - 1, geometry)
        } else {
            data.prev_bounds
        };
        let between = AppModel { prev_bounds: kept, ..data };
        lemma_same_colors(data, between);
        lemma_state_keeps_invariant(between, slot, "docked"@);
    }
}

/// Docks the window of a slot, if there is one. The slot counts as docked before the window
/// shrinks, so that the strip is never taken for the place of the window.
pub fn dock_slot(data: &mut AppData, slot: u8, has_window: bool, geometry: Option<Bounds>) -> (r: Vec<
    Effect,
>)
    ensures
        final(data)@ == old(data)@.docked(slot, has_window, geometry),
        seen(r@) == old(data)@.docking(slot, has_window),
        old(data)@.inv() ==> final(data)@.inv(),
{
    let mut effects: Vec<Effect> = Vec::new();
    if !valid_slot(slot) || !has_window {
        assert(seen(effects@) =~= seq![]);
        return effects;
    }
    let i: usize = (slot - 1) as usize;
    if geometry.is_some() {
        data.prev_bounds[i] = geometry;
    }
    set_state(data, slot, "docked");
    effects.push(Effect::WriteState);
    effects.push(Effect::CollapseWindow { slot, frame: strip() });
    effects.push(Effect::EmitDock { slot, docked: true });
    proof {
        assert(data@ =~= old(data)@.docked(slot, has_window, geometry));
        assert(seen(effects@) =~= old(data)@.docking(slot, has_window));
        if old(data)@.inv() {
            law_docking_keeps_invariant(old(data)@, slot, has_window, geometry);
        }
    }
    effects
}

/// Undocks the window of a slot: it gets its shape back. The slot counts as docked until that
/// is done, so that no step on the way is taken for the place of the window.
pub fn undock_slot(data: &AppData, slot: u8) -> (r: Vec<Effect>)
    ensures
        seen(r@) == data@.undocking(slot),
{
    let mut effects: Vec<Effect> = Vec::new();
    if valid_slot(slot) {
        effects.push(Effect::RestoreGeometry { slot, frame: restore_dock_geometry(data, slot) });
    }
    assert(seen(effects@) =~= data@.undocking(slot));
    effects
}

/// The window of a slot has its shape back: the slot is open again if it was docked.
pub fn finish_undock(data: &mut AppData, slot: u8) -> (r: Vec<Effect>)
    ensures
        final(data)@ == old(data)@.undocked(slot),
        seen(r@) == old(data)@.reopening(slot),
        old(data)@.inv() ==> final(data)@.inv(),
{
    let mut effects: Vec<Effect> = Vec::new();
    if !valid_slot(slot) {
        assert(seen(effects@) =~= seq![]);
        return effects;
    }
    let i: usize = (slot - 1) as usize;
    if same_text(data.slots[i].state.as_str(), "docked") {
        set_state(data, slot, "open");
    }
    effects.push(Effect::WriteState);
    effects.push(Effect::EmitDock { slot, docked: false });
    proof {
        assert(seen(effects@) =~= old(data)@.reopening(slot));
        if old(data)@.inv() {
            law_docking_keeps_invariant(old(data)@, slot, true, None);
        }
    }
    effects
}

/// Docking an open note and getting it back leaves every slot and the preferences as they
/// were: the window gets the size and the place back that it had, and can be resized again;
/// whatever is reported of its place on the way is not kept; and then the slot is open.
pub proof fn law_undocking_restores(
    data: AppModel,
    slot: u8,
    geometry: Bounds,
    reported: Bounds,
    now: u128,
)
    requires
        data.two_of_each(),
        is_slot(slot),
        data.slot(slot).state == "open"@,
    ensures
        data.docked(slot, true, Some(geometry)).undocking(slot) == seq![
            EffectModel::RestoreGeometry { slot, frame: restored_frame(geometry) },
        ],
        data.docked(slot, true, Some(geometry)).moved(slot, reported, now) == data.docked(
            slot,
            true,
            Some(geometry),
        ),
        data.docked(slot, true, Some(geometry)).reopening(slot).last() == (EffectModel::EmitDock {
            slot,
            docked: false,
        }),
        data.docked(slot, true, Some(geometry)).undocked(slot).slots == data.slots,
        data.docked(slot, true, Some(geometry)).undocked(slot).settings == data.settings,
{
    let strip = data.docked(slot, true, Some(geometry));
    let back = strip.undocked(slot);
    assert(strip.slot(slot).state == "docked"@);
    assert(back.slot(slot) == data.slot(slot));
    assert(back.slots =~= data.slots);
}

/// Whether the place of a window counts: it does not while the window is docked or being
/// closed.
pub fn tracks_bounds(data: &AppData, slot: u8) -> (r: bool)
    requires
        is_slot(slot),
    ensures
        r == data@.tracks(slot),
{
    let i: usize = (slot - 1) as usize;
    !(same_text(data.slots[i].state.as_str(), "docked") || data.closing[i])
}

/// A window has been moved or resized: keeps its place where that counts. Moves come in
/// bursts, so the preferences are not written for every step of one.
pub fn window_moved(data: &mut AppData, slot: u8, bounds: Bounds, now: u128) -> (r: Vec<Effect>)
    requires
        is_slot(slot),
    ensures
        final(data)@ == old(data)@.moved(slot, bounds, now),
        seen(r@) == old(data)@.moving(slot, now),
        old(data)@.inv() ==> final(data)@.inv(),
{
    let mut effects: Vec<Effect> = Vec::new();
    if !tracks_bounds(data, slot) {
        assert(seen(effects@) =~= seq![]);
        return effects;
    }
    let key = slot_key_text(slot);
    data.settings.bounds.insert(key.as_str(), bounds);
    if is_save_due(data, now, MOVE_SAVE_AFTER) {
        data.last_settings_save = now;
        effects.push(Effect::SaveSettings);
    }
    proof {
        assert(seen(effects@) =~= old(data)@.moving(slot, now));
        if old(data)@.inv() {
            lemma_same_colors(old(data)@, data@);
        }
    }
    effects
}

/// As long as a window is docked or being closed, what is reported of its place is not kept.
/// Undocking leaves a window docked until it has its shape back.
pub proof fn law_strips_are_not_kept(
    data: AppModel,
    slot: u8,
    geometry: Option<Bounds>,
    strip: Bounds,
    now: u128,
)
    requires
        data.two_of_each(),
        is_slot(slot),
    ensures
        data.docked(slot, true, geometry).moved(slot, strip, now) == data.docked(
            slot,
            true,
            geometry,
        ),
        data.with_closing(slot, true).moved(slot, strip, now) == data.with_closing(slot, true),
{
    assert(data.docked(slot, true, geometry).slot(slot).state == "docked"@);
    assert(data.with_closing(slot, true).closing[slot - 1]);
}

/// Docking a slot that has a window reports the state, collapses the window of that very slot
/// to a strip of 3.5 by 40 at the left edge that cannot be resized, and tells that this slot is
/// docked; the window of the other slot is left alone.
pub proof fn law_docking_collapses_the_own_window(data: AppModel, slot: u8, frame: Frame, i: int)
    requires
        slot == 1 || slot == 2,
        !frame.resizable,
        frame.least is None,
        frame.size.width.bits == 0x400c_0000_0000_0000,
        frame.size.height.bits == 0x4044_0000_0000_0000,
        frame.place is LeftEdge,
    ensures
        data.docking(slot, true) == seq![
            EffectModel::WriteState,
            EffectModel::CollapseWindow { slot, frame },
            EffectModel::EmitDock { slot, docked: true },
        ],
        0 <= i < data.docking(slot, true).len() && acts_on(data.docking(slot, true)[i]) is Some
            ==> acts_on(data.docking(slot, true)[i]) == Some(slot),
{
    assert(frame == strip_frame());
}

/// Nothing is docked where there is no such slot, or it has no window.
pub proof fn law_docking_needs_a_window(
    data: AppModel,
    slot: u8,
    has_window: bool,
    geometry: Option<Bounds>,
)
    requires
        (slot != 1 && slot != 2) || !has_window,
    ensures
        data.docked(slot, has_window, geometry) == data,
        data.docking(slot, has_window).len() == 0,
{
}

/// A docked slot differs from what it was in its state alone, whatever it was, and keeps where
/// its window was as far as that could be told; nothing else changes.
pub proof fn law_docking_changes_the_state_alone(
    data: AppModel,
    slot: u8,
    geometry: Option<Bounds>,
    other: u8,
)
    requires
        data.slots.len() == 2,
        data.prev_bounds.len() == 2,
        is_slot(slot),
        is_slot(other),
        other != slot,
    ensures
        data.docked(slot, true, geometry).slots.len() == 2,
        data.docked(slot, true, geometry).slots[slot - 1] == (SlotModel {
            state: "docked"@,
            ..data.slots[slot - 1]
        }),
        data.docked(slot, true, geometry).slots[other - 1] == data.slots[other - 1],
        data.docked(slot, true, geometry).prev_bounds.len() == 2,
        geometry is Some ==> data.docked(slot, true, geometry).prev_bounds[slot - 1] == geometry,
        geometry is None ==> data.docked(slot, true, geometry).prev_bounds[slot - 1]
            == data.prev_bounds[slot - 1],
        data.docked(slot, true, geometry).prev_bounds[other - 1] == data.prev_bounds[other - 1],
        data.docked(slot, true, geometry).settings == data.settings,
        data.docked(slot, true, geometry).closing == data.closing,
        data.docked(slot, true, geometry).note_files == data.note_files,
        data.docked(slot, true, geometry).last_settings_save == data.last_settings_save,
{
}

/// Undocking opens a docked slot and changes nothing else, neither of it nor of the other; what
/// is not docked stays as it is.
pub proof fn law_undocking_opens_what_is_docked(data: AppModel, slot: u8, other: u8)
    requires
        data.slots.len() == 2,
        is_slot(other),
        other != slot,
    ensures
        is_slot(slot) && data.slots[slot - 1].state == "docked"@ ==> {
            &&& data.undocked(slot).slots.len() == 2
            &&& data.undocked(slot).slots[slot - 1] == (SlotModel {
                state: "open"@,
                ..data.slots[slot - 1]
            })
            &&& data.undocked(slot).slots[other - 1] == data.slots[other - 1]
        },
        (slot != 1 && slot != 2) || data.slots[slot - 1].state != "docked"@ ==> data.undocked(slot)
            == data,
        data.undocked(slot).settings == data.settings,
        data.undocked(slot).closing == data.closing,
        data.undocked(slot).prev_bounds == data.prev_bounds,
        data.undocked(slot).note_files == data.note_files,
        data.undocked(slot).last_settings_save == data.last_settings_save,
{
}

/// Undocking gives the window of that very slot the place and the size back that were kept for
/// it, or 100, 100 and 320 by 240 where none were, resizable down to 240 by 180; then the state
/// is reported, and that this slot is no longer docked. What is no slot is left alone.
pub proof fn law_undocking_restores_the_own_window(data: AppModel, slot: u8, frame: Frame)
    requires
        frame.resizable,
        frame.least matches Some(least) && least.width.bits == 0x406e_0000_0000_0000
            && least.height.bits == 0x4066_8000_0000_0000,
        data.prev_bounds[slot - 1] matches Some(kept) ==> frame.size.width == kept.width
            && frame.size.height == kept.height && frame.place == (Place::At {
            x: kept.x,
            y: kept.y,
        }),
        data.prev_bounds[slot - 1] is None ==> frame.size.width.bits == 0x4074_0000_0000_0000
            && frame.size.height.bits == 0x406e_0000_0000_0000 && (frame.place matches Place::At {
            x,
            y,
        } && x.bits == 0x4059_0000_0000_0000 && y.bits == 0x4059_0000_0000_0000),
    ensures
        slot == 1 || slot == 2 ==> data.undocking(slot) == seq![
            EffectModel::RestoreGeometry { slot, frame },
        ],
        slot == 1 || slot == 2 ==> data.reopening(slot) == seq![
            EffectModel::WriteState,
            EffectModel::EmitDock { slot, docked: false },
        ],
        slot == 1 || slot == 2 ==> restored_frame(data.restore_bounds(slot)) == frame,
        slot != 1 && slot != 2 ==> data.undocking(slot).len() == 0 && data.reopening(slot).len()
            == 0,
{
    if slot == 1 || slot == 2 {
        assert(restored_frame(data.restore_bounds(slot)) == frame);
    }
}

/// What is no slot falls back to 100, 100 and 320 by 240 as well.
pub proof fn law_no_slot_has_a_place_of_its_own(data: AppModel, slot: u8)
    requires
        slot != 1 && slot != 2,
    ensures
        data.restore_bounds(slot).x.bits == 0x4059_0000_0000_0000,
        data.restore_bounds(slot).y.bits == 0x4059_0000_0000_0000,
        data.restore_bounds(slot).width.bits == 0x4074_0000_0000_0000,
        data.restore_bounds(slot).height.bits == 0x406e_0000_0000_0000,
        restored_frame(data.restore_bounds(slot)).size.width == data.restore_bounds(slot).width,
        restored_frame(data.restore_bounds(slot)).size.height == data.restore_bounds(slot).height,
{
}

/// The place of a window counts exactly while its slot is not docked and the window is not
/// being closed, whatever else the slot shows.
pub proof fn law_places_count_unless_docked_or_closing(data: AppModel, slot: u8)
    requires
        is_slot(slot),
    ensures
        data.tracks(slot) <==> data.slots[slot - 1].state != "docked"@ && !data.closing[slot - 1],
{
}

/// A place that counts is kept for that slot, as it is, and nothing else changes but the time
/// of the last save; one that does not count changes nothing.
pub proof fn law_moving_keeps_the_place(
    data: AppModel,
    slot: u8,
    bounds: Bounds,
    now: u128,
    key: Seq<char>,
)
    requires
        is_slot(slot),
    ensures
        data.slots[slot - 1].state == "docked"@ || data.closing[slot - 1] ==> data.moved(
            slot,
            bounds,
            now,
        ) == data,
        data.slots[slot - 1].state != "docked"@ && !data.closing[slot - 1] ==> {
            &&& data.moved(slot, bounds, now).settings.bounds.contains_key(slot_key(slot))
            &&& data.moved(slot, bounds, now).settings.bounds[slot_key(slot)] == bounds
        },
        key != slot_key(slot) ==> data.moved(slot, bounds, now).settings.bounds.contains_key(key)
            == data.settings.bounds.contains_key(key),
        key != slot_key(slot) && data.settings.bounds.contains_key(key) ==> data.moved(
            slot,
            bounds,
            now,
        ).settings.bounds[key] == data.settings.bounds[key],
        data.moved(slot, bounds, now).settings.theme == data.settings.theme,
        data.moved(slot, bounds, now).settings.opacity == data.settings.opacity,
        data.moved(slot, bounds, now).settings.zoom == data.settings.zoom,
        data.moved(slot, bounds, now).settings.colors == data.settings.colors,
        data.moved(slot, bounds, now).slots == data.slots,
        data.moved(slot, bounds, now).closing == data.closing,
        data.moved(slot, bounds, now).prev_bounds == data.prev_bounds,
        data.moved(slot, bounds, now).note_files == data.note_files,
{
}

/// A place that is kept is written where more than 500 milliseconds have gone by since the last
/// time, which is then now, and else not.
pub proof fn law_moving_is_written_now_and_again(
    data: AppModel,
    slot: u8,
    bounds: Bounds,
    now: u128,
)
    requires
        is_slot(slot),
    ensures
        data.slots[slot - 1].state != "docked"@ && !data.closing[slot - 1] && now
            > data.last_settings_save + 500_000_000 ==> data.moving(slot, now) == seq![
            EffectModel::SaveSettings,
        ] && data.moved(slot, bounds, now).last_settings_save == now,
        data.slots[slot - 1].state == "docked"@ || data.closing[slot - 1] || now
            <= data.last_settings_save + 500_000_000 ==> data.moving(slot, now).len() == 0
            && data.moved(slot, bounds, now).last_settings_save == data.last_settings_save,
{
}

} // verus!
