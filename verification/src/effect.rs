//! What is left for the surroundings to do once a decision is made.

use vstd::prelude::*;

use crate::binary64::Binary64;

verus! {

/// The tint of a frosted window: red, green, blue and alpha.
#[derive(Clone, Copy, Debug, PartialEq, Eq, Structural)]
pub struct Tint {
    pub red: u8,
    pub green: u8,
    pub blue: u8,
    pub alpha: u8,
}

/// A size in logical pixels.
#[derive(Clone, Copy, Debug, PartialEq, Eq, Structural)]
pub struct Size {
    pub width: Binary64,
    pub height: Binary64,
}

/// Where a window goes.
#[derive(Clone, Copy, Debug, PartialEq, Eq, Structural)]
pub enum Place {
    /// To this place, in logical pixels.
    At { x: Binary64, y: Binary64 },
    /// To the left edge of its monitor, no higher and no lower than it is.
    LeftEdge,
}

/// The shape of a window that is there.
#[derive(Clone, Copy, Debug, PartialEq, Eq)]
pub struct Frame {
    pub resizable: bool,
    /// The least size that the window can have; any where there is none.
    pub least: Option<Size>,
    pub size: Size,
    pub place: Place,
}

/// One thing to do, outside the library.
#[derive(Debug, PartialEq, Eq)]
pub enum Effect {
    /// Delete this file.
    DeleteFile(String),
    /// Write the report of the state to its file.
    WriteState,
    /// Write the preferences to their file.
    SaveSettings,
    /// Bring the watched directories in line with the slots.
    SyncWatches,
    /// Show the window of a slot, and make it where there is none.
    EnsureWindow(u8),
    /// Close the window of a slot, if there is one.
    CloseWindow(u8),
    /// Give the window of a slot, if there is one, the shape back that it had before docking.
    RestoreGeometry { slot: u8, frame: Frame },
    /// Shrink the window of a slot to the strip at the edge of the screen.
    CollapseWindow { slot: u8, frame: Frame },
    /// Tint the window of a slot, if there is one.
    TintWindow { slot: u8, tint: Tint },
    /// Zoom the window of a slot, if there is one.
    ZoomWindow { slot: u8, factor: Binary64 },
    /// Read the note of a slot and tell the windows.
    EmitNote(u8),
    /// Tell the windows that a slot has been docked or undocked.
    EmitDock { slot: u8, docked: bool },
    /// Tell the windows about a border colour.
    EmitColor { slot: u8, color: String },
    /// Tell the windows about the opacity.
    EmitOpacity(Binary64),
    /// Tell the windows about the theme.
    EmitTheme(String),
}

/// What an `Effect` stands for.
pub enum EffectModel {
    DeleteFile(Seq<char>),
    WriteState,
    SaveSettings,
    SyncWatches,
    EnsureWindow(u8),
    CloseWindow(u8),
    RestoreGeometry { slot: u8, frame: Frame },
    CollapseWindow { slot: u8, frame: Frame },
    TintWindow { slot: u8, tint: Tint },
    ZoomWindow { slot: u8, factor: Binary64 },
    EmitNote(u8),
    EmitDock { slot: u8, docked: bool },
    EmitColor { slot: u8, color: Seq<char> },
    EmitOpacity(Binary64),
    EmitTheme(Seq<char>),
}

impl View for Effect {
    type V = EffectModel;

    open spec fn view(&self) -> EffectModel {
        match *self {
            Effect::DeleteFile(path) => EffectModel::DeleteFile(path@),
            Effect::WriteState => EffectModel::WriteState,
            Effect::SaveSettings => EffectModel::SaveSettings,
            Effect::SyncWatches => EffectModel::SyncWatches,
            Effect::EnsureWindow(slot) => EffectModel::EnsureWindow(slot),
            Effect::CloseWindow(slot) => EffectModel::CloseWindow(slot),
            Effect::RestoreGeometry { slot, frame } => EffectModel::RestoreGeometry { slot, frame },
            Effect::CollapseWindow { slot, frame } => EffectModel::CollapseWindow { slot, frame },
            Effect::TintWindow { slot, tint } => EffectModel::TintWindow { slot, tint },
            Effect::ZoomWindow { slot, factor } => EffectModel::ZoomWindow { slot, factor },
            Effect::EmitNote(slot) => EffectModel::EmitNote(slot),
            Effect::EmitDock { slot, docked } => EffectModel::EmitDock { slot, docked },
            Effect::EmitColor { slot, color } => EffectModel::EmitColor { slot, color: color@ },
            Effect::EmitOpacity(value) => EffectModel::EmitOpacity(value),
            Effect::EmitTheme(theme) => EffectModel::EmitTheme(theme@),
        }
    }
}

/// What a row of effects stands for, in order.
pub open spec fn seen(effects: Seq<Effect>) -> Seq<EffectModel> {
    effects.map_values(|effect: Effect| effect@)
}

/// The files that a row of effects deletes.
pub open spec fn deletes(effects: Seq<EffectModel>, path: Seq<char>) -> bool {
    effects.contains(EffectModel::DeleteFile(path))
}

/// Effects are seen as they are: what each of them names, in the order in which they come.
pub proof fn law_effects_are_seen_as_they_are(effects: Seq<Effect>, i: int)
    requires
        0 <= i < effects.len(),
    ensures
        seen(effects).len() == effects.len(),
        match effects[i] {
            Effect::DeleteFile(path) => seen(effects)[i] == EffectModel::DeleteFile(path@),
            Effect::WriteState => seen(effects)[i] == EffectModel::WriteState,
            Effect::SaveSettings => seen(effects)[i] == EffectModel::SaveSettings,
            Effect::SyncWatches => seen(effects)[i] == EffectModel::SyncWatches,
            Effect::EnsureWindow(slot) => seen(effects)[i] == EffectModel::EnsureWindow(slot),
            Effect::CloseWindow(slot) => seen(effects)[i] == EffectModel::CloseWindow(slot),
            Effect::RestoreGeometry { slot, frame } => seen(effects)[i]
                == (EffectModel::RestoreGeometry { slot, frame }),
            Effect::CollapseWindow { slot, frame } => seen(effects)[i]
                == (EffectModel::CollapseWindow { slot, frame }),
            Effect::TintWindow { slot, tint } => seen(effects)[i] == (EffectModel::TintWindow {
                slot,
                tint,
            }),
            Effect::ZoomWindow { slot, factor } => seen(effects)[i] == (EffectModel::ZoomWindow {
                slot,
                factor,
            }),
            Effect::EmitNote(slot) => seen(effects)[i] == EffectModel::EmitNote(slot),
            Effect::EmitDock { slot, docked } => seen(effects)[i] == (EffectModel::EmitDock {
                slot,
                docked,
            }),
            Effect::EmitColor { slot, color } => seen(effects)[i] == (EffectModel::EmitColor {
                slot,
                color: color@,
            }),
            Effect::EmitOpacity(value) => seen(effects)[i] == EffectModel::EmitOpacity(value),
            Effect::EmitTheme(theme) => seen(effects)[i] == EffectModel::EmitTheme(theme@),
        },
{
}

/// A row of effects deletes a file exactly where one of them says so.
pub proof fn law_deletions_are_said(effects: Seq<EffectModel>, path: Seq<char>)
    ensures
        deletes(effects, path) <==> exists|i: int|
            0 <= i < effects.len() && #[trigger] effects[i] == EffectModel::DeleteFile(path),
{
    if deletes(effects, path) {
        let i = choose|i: int| 0 <= i < effects.len() && effects[i] == EffectModel::DeleteFile(path);
        assert(effects[i] == EffectModel::DeleteFile(path));
    }
}

/// The slot whose window an effect acts on.
pub open spec fn acts_on(effect: EffectModel) -> Option<u8> {
    match effect {
        EffectModel::EnsureWindow(slot) => Some(slot),
        EffectModel::CloseWindow(slot) => Some(slot),
        EffectModel::RestoreGeometry { slot, .. } => Some(slot),
        EffectModel::CollapseWindow { slot, .. } => Some(slot),
        EffectModel::TintWindow { slot, .. } => Some(slot),
        EffectModel::ZoomWindow { slot, .. } => Some(slot),
        _ => None,
    }
}

} // verus!
