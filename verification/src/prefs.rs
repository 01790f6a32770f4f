//! Preferences as they are chosen: theme, opacity and zoom, and what a page is told when
//! it has loaded.

use vstd::prelude::*;

use crate::binary64::{law_clamped_lies_between, Binary64};
use crate::data::{slot_color, AppData, AppModel};
use crate::effect::{seen, Effect, EffectModel, Tint};
use crate::settings::{
    SettingsModel, OPACITY_HIGH, OPACITY_LOW, ZOOM_HIGH, ZOOM_LOW,
};
use crate::slot::{is_slot, slot_key, slot_key_text, valid_slot};
use crate::text::same_text;

verus! {

/// How long a burst of zooming goes on before the preferences are written, in nanoseconds.
pub const ZOOM_SAVE_AFTER: u128 = 300_000_000;

/// The tint of a window under a theme.
pub open spec fn tint_of(theme: Seq<char>) -> Tint {
    if theme == "light"@ {
        Tint { red: 245, green: 245, blue: 245, alpha: 160 }
    } else {
        Tint { red: 16, green: 16, blue: 16, alpha: 160 }
    }
}

/// The tint of a window under a theme.
pub fn theme_tint(theme: &str) -> (r: Tint)
    ensures
        r == tint_of(theme@),
{
    if same_text(theme, "light") {
        Tint { red: 245, green: 245, blue: 245, alpha: 160 }
    } else {
        Tint { red: 16, green: 16, blue: 16, alpha: 160 }
    }
}

/// The theme to use: the saved one where there is one, and otherwise that of the system as
/// the first window sees it, which is dark where it cannot be told.
pub open spec fn resolved_theme(saved: Seq<char>, windows: Seq<Option<bool>>) -> Seq<char> {
    if saved == "light"@ || saved == "dark"@ {
        saved
    } else if windows.len() > 0 && windows[0] == Some(true) {
        "light"@
    } else {
        "dark"@
    }
}

/// The theme to use. `windows` tells for each window that there is, in the order of their
/// slots, whether its system theme is light, or that this could not be told.
pub fn resolve_theme(saved: &str, windows: &Vec<Option<bool>>) -> (r: String)
    ensures
        r@ == resolved_theme(saved@, windows@),
{
    if same_text(saved, "light") || same_text(saved, "dark") {
        return saved.to_owned();
    }
    if windows.len() > 0 {
        match windows[0] {
            Some(light) => {
                if light {
                    return "light".to_owned();
                }
            },
            None => {},
        }
    }
    "dark".to_owned()
}

/// The theme to use is light or dark, and once chosen it is kept.
pub proof fn law_theme_is_light_or_dark(saved: Seq<char>, windows: Seq<Option<bool>>)
    ensures
        resolved_theme(saved, windows) == "light"@ || resolved_theme(saved, windows) == "dark"@,
        resolved_theme(resolved_theme(saved, windows), windows) == resolved_theme(saved, windows),
        saved == "light"@ || saved == "dark"@ ==> resolved_theme(saved, windows) == saved,
{
}

impl AppModel {
    pub open spec fn with_settings(self, settings: SettingsModel) -> AppModel {
        AppModel { settings, ..self }
    }

    pub open spec fn with_theme(self, theme: Seq<char>) -> AppModel {
        self.with_settings(SettingsModel { theme, ..self.settings })
    }

    pub open spec fn with_opacity(self, opacity: Binary64) -> AppModel {
        self.with_settings(SettingsModel { opacity, ..self.settings })
    }

    pub open spec fn with_zoom(self, slot: u8, factor: Binary64) -> AppModel {
        self.with_settings(
            SettingsModel {
                zoom: self.settings.zoom.insert(slot_key(slot), factor),
                ..self.settings
            },
        )
    }

    /// More than `span` has gone by since the preferences were last written under a
    /// throttle.
    pub open spec fn save_is_due(self, now: u128, span: u128) -> bool {
        now - self.last_settings_save > span
    }

    pub open spec fn with_save_at(self, now: u128) -> AppModel {
        AppModel { last_settings_save: now, ..self }
    }

    /// The state after the zoom of a slot has been set.
    pub open spec fn zoomed(self, slot: u8, factor: Binary64, now: u128) -> AppModel {
        if !is_slot(slot) {
            self
        } else if self.save_is_due(now, ZOOM_SAVE_AFTER) {
            self.with_zoom(slot, held_zoom(factor)).with_save_at(now)
        } else {
            self.with_zoom(slot, held_zoom(factor))
        }
    }

    /// What is done when the zoom of a slot is set.
    pub open spec fn zooming(self, slot: u8, factor: Binary64, now: u128) -> Seq<EffectModel> {
        let shown = EffectModel::ZoomWindow { slot, factor: held_zoom(factor) };
        if !is_slot(slot) {
            seq![]
        } else if self.save_is_due(now, ZOOM_SAVE_AFTER) {
            seq![shown, EffectModel::SaveSettings]
        } else {
            seq![shown]
        }
    }
}

/// A zoom factor held to 60 to 200 percent.
pub open spec fn held_zoom(factor: Binary64) -> Binary64 {
    factor.clamped(Binary64 { bits: ZOOM_LOW }, Binary64 { bits: ZOOM_HIGH })
}

/// An opacity held to 30 to 100 percent.
pub open spec fn held_opacity(value: Binary64) -> Binary64 {
    value.clamped(Binary64 { bits: OPACITY_LOW }, Binary64 { bits: OPACITY_HIGH })
}

/// Choosing theme, opacity or zoom keeps the invariant and the border colours.
pub proof fn law_preferences_keep_invariant(
    data: AppModel,
    theme: Seq<char>,
    opacity: Binary64,
    slot: u8,
    factor: Binary64,
    now: u128,
)
    requires
        data.inv(),
    ensures
        data.with_theme(theme).inv(),
        data.with_opacity(opacity).inv(),
        data.zoomed(slot, factor, now).inv(),
        data.with_theme(theme).colors_apart() == data.colors_apart(),
        data.with_opacity(opacity).colors_apart() == data.colors_apart(),
        data.zoomed(slot, factor, now).colors_apart() == data.colors_apart(),
{
    lemma_same_colors(data, data.with_theme(theme));
    lemma_same_colors(data, data.with_opacity(opacity));
    lemma_same_colors(data, data.zoomed(slot, factor, now));
}

/// Two states with the same slots, files and colours keep the invariant alike.
pub(crate) proof fn lemma_same_colors(data: AppModel, after: AppModel)
    requires
        data.inv(),
        after.slots == data.slots,
        after.note_files == data.note_files,
        after.settings.colors == data.settings.colors,
        after.two_of_each(),
    ensures
        after.inv(),
        after.colors_apart() == data.colors_apart(),
{
    assert forall|n: u8| is_slot(n) implies #[trigger] after.slot(n) == data.slot(n) by {}
    assert forall|n: u8| #[trigger] after.color(n) == data.color(n) by {}
}

/// Sets the opacity, held to its range.
pub fn set_opacity(data: &mut AppData, value: Binary64) -> (r: Vec<Effect>)
    ensures
        final(data)@ == old(data)@.with_opacity(held_opacity(value)),
        seen(r@) == seq![
            EffectModel::SaveSettings,
            EffectModel::WriteState,
            EffectModel::EmitOpacity(held_opacity(value)),
        ],
        old(data)@.inv() ==> final(data)@.inv(),
{
    let held = value.clamp(Binary64 { bits: OPACITY_LOW }, Binary64 { bits: OPACITY_HIGH });
    data.settings.opacity = held;
    let mut effects: Vec<Effect> = Vec::new();
    effects.push(Effect::SaveSettings);
    effects.push(Effect::WriteState);
    effects.push(Effect::EmitOpacity(held));
    proof {
        assert(seen(effects@) =~= seq![
            EffectModel::SaveSettings,
            EffectModel::WriteState,
            EffectModel::EmitOpacity(held_opacity(value)),
        ]);
        if old(data)@.inv() {
            lemma_same_colors(old(data)@, data@);
        }
    }
    effects
}

/// The theme that a choice stands for: light, and dark for everything else.
pub open spec fn chosen_theme(theme: Seq<char>) -> Seq<char> {
    if theme == "light"@ {
        "light"@
    } else {
        "dark"@
    }
}

/// Sets the theme of both windows.
pub fn set_theme(data: &mut AppData, theme: &str) -> (r: Vec<Effect>)
    ensures
        final(data)@ == old(data)@.with_theme(chosen_theme(theme@)),
        seen(r@) == seq![
            EffectModel::SaveSettings,
            EffectModel::WriteState,
            EffectModel::TintWindow { slot: 1, tint: tint_of(chosen_theme(theme@)) },
            EffectModel::TintWindow { slot: 2, tint: tint_of(chosen_theme(theme@)) },
            EffectModel::EmitTheme(chosen_theme(theme@)),
        ],
        old(data)@.inv() ==> final(data)@.inv(),
{
    let chosen: String = if same_text(theme, "light") {
        "light".to_owned()
    } else {
        "dark".to_owned()
    };
    let tint = theme_tint(chosen.as_str());
    data.settings.theme = chosen.clone();
    let mut effects: Vec<Effect> = Vec::new();
    effects.push(Effect::SaveSettings);
    effects.push(Effect::WriteState);
    effects.push(Effect::TintWindow { slot: 1, tint });
    effects.push(Effect::TintWindow { slot: 2, tint });
    effects.push(Effect::EmitTheme(chosen));
    proof {
        assert(seen(effects@) =~= seq![
            EffectModel::SaveSettings,
            EffectModel::WriteState,
            EffectModel::TintWindow { slot: 1, tint: tint_of(chosen_theme(theme@)) },
            EffectModel::TintWindow { slot: 2, tint: tint_of(chosen_theme(theme@)) },
            EffectModel::EmitTheme(chosen_theme(theme@)),
        ]);
        if old(data)@.inv() {
            lemma_same_colors(old(data)@, data@);
        }
    }
    effects
}

/// Whether the preferences are due to be written again, `span` nanoseconds after the last
/// time.
pub(crate) fn is_save_due(data: &AppData, now: u128, span: u128) -> (r: bool)
    ensures
        r == data@.save_is_due(now, span),
{
    now > data.last_settings_save && now - data.last_settings_save > span
}

/// Sets the zoom of a slot, held to its range. Zooming comes in bursts, so the preferences
/// are not written for every step of one.
pub fn set_zoom(data: &mut AppData, slot: u8, factor: Binary64, now: u128) -> (r: Vec<Effect>)
    ensures
        final(data)@ == old(data)@.zoomed(slot, factor, now),
        seen(r@) == old(data)@.zooming(slot, factor, now),
        old(data)@.inv() ==> final(data)@.inv(),
{
    let mut effects: Vec<Effect> = Vec::new();
    if !valid_slot(slot) {
        assert(seen(effects@) =~= seq![]);
        return effects;
    }
    let held = factor.clamp(Binary64 { bits: ZOOM_LOW }, Binary64 { bits: ZOOM_HIGH });
    effects.push(Effect::ZoomWindow { slot, factor: held });
    let key = slot_key_text(slot);
    data.settings.zoom.insert(key.as_str(), held);
    if is_save_due(data, now, ZOOM_SAVE_AFTER) {
        data.last_settings_save = now;
        effects.push(Effect::SaveSettings);
    }
    proof {
        assert(seen(effects@) =~= old(data)@.zooming(slot, factor, now));
        if old(data)@.inv() {
            lemma_same_colors(old(data)@, data@);
        }
    }
    effects
}

/// Once set, the zoom of a slot lies between 60 and 200 percent, and that of the other slot
/// is left alone.
pub proof fn law_zoom_stays_in_range(data: AppModel, slot: u8, factor: Binary64, now: u128, key: Seq<char>)
    requires
        is_slot(slot),
        !factor.is_nan(),
    ensures
        data.zoomed(slot, factor, now).settings.zoom_of(slot_key(slot)).lies_between(
            Binary64 { bits: ZOOM_LOW },
            Binary64 { bits: ZOOM_HIGH },
        ),
        key != slot_key(slot) ==> data.zoomed(slot, factor, now).settings.zoom_of(key)
            == data.settings.zoom_of(key),
{
    law_clamped_lies_between(factor, Binary64 { bits: ZOOM_LOW }, Binary64 { bits: ZOOM_HIGH });
}

/// Once set, the opacity lies between 30 and 100 percent.
pub proof fn law_opacity_stays_in_range(data: AppModel, value: Binary64)
    requires
        !value.is_nan(),
    ensures
        data.with_opacity(held_opacity(value)).settings.opacity.lies_between(
            Binary64 { bits: OPACITY_LOW },
            Binary64 { bits: OPACITY_HIGH },
        ),
{
    law_clamped_lies_between(
        value,
        Binary64 { bits: OPACITY_LOW },
        Binary64 { bits: OPACITY_HIGH },
    );
}

impl AppModel {
    /// The theme that a page gets when it has loaded.
    pub open spec fn theme_for_page(self, windows: Seq<Option<bool>>) -> Seq<char> {
        resolved_theme(self.settings.theme, windows)
    }

    /// What is done when the page of a slot has loaded: a theme that was not chosen before
    /// is written down, and the window is tinted.
    pub open spec fn readying(self, slot: u8, windows: Seq<Option<bool>>) -> Seq<EffectModel> {
        let theme = self.theme_for_page(windows);
        let tinted = seq![EffectModel::TintWindow { slot, tint: tint_of(theme) }];
        if self.settings.theme == theme {
            tinted
        } else {
            seq![EffectModel::SaveSettings, EffectModel::WriteState] + tinted
        }
    }
}

/// The page of a slot has loaded: settles the theme. Fails where there is no such slot.
pub fn frontend_ready(data: &mut AppData, slot: u8, windows: &Vec<Option<bool>>) -> (r: Result<
    Vec<Effect>,
    String,
>)
    ensures
        r is Ok <==> is_slot(slot),
        match r {
            Ok(effects) => {
                &&& final(data)@ == old(data)@.with_theme(old(data)@.theme_for_page(windows@))
                &&& seen(effects@) == old(data)@.readying(slot, windows@)
            },
            Err(message) => {
                &&& final(data)@ == old(data)@
                &&& message@ == "invalid slot"@
            },
        },
        old(data)@.inv() ==> final(data)@.inv(),
{
    if !valid_slot(slot) {
        return Err("invalid slot".to_owned());
    }
    let theme = resolve_theme(data.settings.theme.as_str(), windows);
    let mut effects: Vec<Effect> = Vec::new();
    if !same_text(data.settings.theme.as_str(), theme.as_str()) {
        data.settings.theme = theme.clone();
        effects.push(Effect::SaveSettings);
        effects.push(Effect::WriteState);
    }
    effects.push(Effect::TintWindow { slot, tint: theme_tint(theme.as_str()) });
    proof {
        assert(seen(effects@) =~= old(data)@.readying(slot, windows@));
        if old(data)@.inv() {
            lemma_same_colors(old(data)@, data@);
        }
    }
    Ok(effects)
}

/// What a page is told when it has loaded.
#[derive(Debug, PartialEq, Eq)]
pub struct FrontendState {
    pub slot: u8,
    pub content: String,
    pub missing: bool,
    pub title: String,
    pub state: String,
    pub color: String,
    pub theme: String,
    pub opacity: Binary64,
    pub zoom: Binary64,
}

/// What the page of a slot is told when it has loaded, once the theme is settled and the
/// text of the note is there.
pub fn frontend_state(data: &AppData, slot: u8, content: String, missing: bool) -> (r: FrontendState)
    requires
        is_slot(slot),
    ensures
        r.slot == slot,
        r.content@ == content@,
        r.missing == missing,
        r.title@ == data@.slot(slot).title,
        r.state@ == data@.slot(slot).state,
        r.color@ == data@.color(slot),
        r.theme@ == data@.settings.theme,
        r.opacity == data@.settings.opacity,
        r.zoom == data@.settings.zoom_of(slot_key(slot)),
{
    let i: usize = (slot - 1) as usize;
    let key = slot_key_text(slot);
    FrontendState {
        slot,
        content,
        missing,
        title: data.slots[i].title.clone(),
        state: data.slots[i].state.clone(),
        color: slot_color(data, slot),
        theme: data.settings.theme.clone(),
        opacity: data.settings.opacity,
        zoom: data.settings.zoom_of(key.as_str()),
    }
}

/// A light window is nearly white and every other nearly black, both seen through alike.
pub proof fn law_tints_of_themes(theme: Seq<char>)
    ensures
        tint_of(theme).alpha == 160,
        tint_of(theme).red == tint_of(theme).green,
        tint_of(theme).green == tint_of(theme).blue,
        theme == "light"@ ==> tint_of(theme).red == 245,
        theme != "light"@ ==> tint_of(theme).red == 16,
        theme == "light"@ ==> chosen_theme(theme) == "light"@,
        theme != "light"@ ==> chosen_theme(theme) == "dark"@,
{
}

/// Where no theme was chosen, that of the system is taken as the first window sees it, and
/// whatever the other windows see makes no difference.
pub proof fn law_first_window_tells_the_theme(saved: Seq<char>, windows: Seq<Option<bool>>)
    ensures
        saved == "light"@ || saved == "dark"@ ==> resolved_theme(saved, windows) == saved,
        saved != "light"@ && saved != "dark"@ && windows.len() > 0 && windows[0] == Some(true)
            ==> resolved_theme(saved, windows) == "light"@,
        saved != "light"@ && saved != "dark"@ && (windows.len() == 0 || windows[0] != Some(true))
            ==> resolved_theme(saved, windows) == "dark"@,
{
}

/// Choosing a theme or an opacity changes that preference and nothing else.
pub proof fn law_choices_change_one_preference(data: AppModel, theme: Seq<char>, opacity: Binary64)
    ensures
        data.with_theme(theme).settings.theme == theme,
        data.with_theme(theme).settings.opacity == data.settings.opacity,
        data.with_theme(theme).settings.zoom == data.settings.zoom,
        data.with_theme(theme).settings.colors == data.settings.colors,
        data.with_theme(theme).settings.bounds == data.settings.bounds,
        data.with_theme(theme).slots == data.slots,
        data.with_theme(theme).closing == data.closing,
        data.with_theme(theme).prev_bounds == data.prev_bounds,
        data.with_theme(theme).note_files == data.note_files,
        data.with_theme(theme).last_settings_save == data.last_settings_save,
        data.with_opacity(opacity).settings.opacity == opacity,
        data.with_opacity(opacity).settings.theme == data.settings.theme,
        data.with_opacity(opacity).settings.zoom == data.settings.zoom,
        data.with_opacity(opacity).settings.colors == data.settings.colors,
        data.with_opacity(opacity).settings.bounds == data.settings.bounds,
        data.with_opacity(opacity).slots == data.slots,
        data.with_opacity(opacity).closing == data.closing,
        data.with_opacity(opacity).prev_bounds == data.prev_bounds,
        data.with_opacity(opacity).note_files == data.note_files,
        data.with_opacity(opacity).last_settings_save == data.last_settings_save,
{
}

/// Zoom is held between 0.6 and 2 and opacity between 0.3 and 1: a number in the range is kept,
/// and one outside goes to the nearer end.
pub proof fn law_ranges_of_zoom_and_opacity(x: Binary64)
    requires
        !x.is_nan(),
    ensures
        x.rank() <= 0x3fe3_3333_3333_3333 ==> held_zoom(x).bits == 0x3fe3_3333_3333_3333,
        x.rank() >= 0x4000_0000_0000_0000 ==> held_zoom(x).bits == 0x4000_0000_0000_0000,
        0x3fe3_3333_3333_3333 <= x.rank() <= 0x4000_0000_0000_0000 ==> held_zoom(x) == x,
        x.rank() <= 0x3fd3_3333_3333_3333 ==> held_opacity(x).bits == 0x3fd3_3333_3333_3333,
        x.rank() >= 0x3ff0_0000_0000_0000 ==> held_opacity(x).bits == 0x3ff0_0000_0000_0000,
        0x3fd3_3333_3333_3333 <= x.rank() <= 0x3ff0_0000_0000_0000 ==> held_opacity(x) == x,
{
}

/// What is no number is held to no range.
pub proof fn law_no_number_is_left_alone(x: Binary64)
    requires
        x.is_nan(),
    ensures
        held_zoom(x) == x,
        held_opacity(x) == x,
{
}

/// Zooming a slot keeps the factor for that slot, as far as it is in range, whatever the slot
/// shows, and changes nothing else but the time of the last save.
pub proof fn law_zooming_keeps_the_factor(
    data: AppModel,
    slot: u8,
    factor: Binary64,
    now: u128,
    key: Seq<char>,
)
    requires
        is_slot(slot),
    ensures
        data.zoomed(slot, factor, now).settings.zoom.contains_key(slot_key(slot)),
        data.zoomed(slot, factor, now).settings.zoom[slot_key(slot)] == held_zoom(factor),
        key != slot_key(slot) ==> data.zoomed(slot, factor, now).settings.zoom.contains_key(key)
            == data.settings.zoom.contains_key(key),
        key != slot_key(slot) && data.settings.zoom.contains_key(key) ==> data.zoomed(
            slot,
            factor,
            now,
        ).settings.zoom[key] == data.settings.zoom[key],
        data.zoomed(slot, factor, now).settings.theme == data.settings.theme,
        data.zoomed(slot, factor, now).settings.opacity == data.settings.opacity,
        data.zoomed(slot, factor, now).settings.colors == data.settings.colors,
        data.zoomed(slot, factor, now).settings.bounds == data.settings.bounds,
        data.zoomed(slot, factor, now).slots == data.slots,
        data.zoomed(slot, factor, now).closing == data.closing,
        data.zoomed(slot, factor, now).prev_bounds == data.prev_bounds,
        data.zoomed(slot, factor, now).note_files == data.note_files,
{
}

/// Zooming zooms the slot's own window at once. The preferences are written where more than
/// 300 milliseconds have gone by since the last time, which is then now, and else not. What is
/// no slot is left alone.
pub proof fn law_zooming_is_shown_at_once(data: AppModel, slot: u8, factor: Binary64, now: u128)
    ensures
        slot != 1 && slot != 2 ==> data.zoomed(slot, factor, now) == data && data.zooming(
            slot,
            factor,
            now,
        ).len() == 0,
        (slot == 1 || slot == 2) && now > data.last_settings_save + 300_000_000 ==> {
            &&& data.zooming(slot, factor, now) == seq![
                EffectModel::ZoomWindow { slot, factor: held_zoom(factor) },
                EffectModel::SaveSettings,
            ]
            &&& data.zoomed(slot, factor, now).last_settings_save == now
        },
        (slot == 1 || slot == 2) && now <= data.last_settings_save + 300_000_000 ==> {
            &&& data.zooming(slot, factor, now) == seq![
                EffectModel::ZoomWindow { slot, factor: held_zoom(factor) },
            ]
            &&& data.zoomed(slot, factor, now).last_settings_save == data.last_settings_save
        },
{
}

/// When a page has loaded, its own window is tinted in the theme that holds from then on; a
/// theme that was not the chosen one before is written and reported first.
pub proof fn law_loaded_pages_are_tinted(data: AppModel, slot: u8, windows: Seq<Option<bool>>)
    ensures
        data.theme_for_page(windows) == resolved_theme(data.settings.theme, windows),
        data.settings.theme == resolved_theme(data.settings.theme, windows) ==> data.readying(
            slot,
            windows,
        ) == seq![EffectModel::TintWindow { slot, tint: tint_of(data.settings.theme) }],
        data.settings.theme != resolved_theme(data.settings.theme, windows) ==> data.readying(
            slot,
            windows,
        ) == seq![
            EffectModel::SaveSettings,
            EffectModel::WriteState,
            EffectModel::TintWindow {
                slot,
                tint: tint_of(resolved_theme(data.settings.theme, windows)),
            },
        ],
{
    let theme = resolved_theme(data.settings.theme, windows);
    if data.settings.theme != theme {
        assert(data.readying(slot, windows) =~= seq![
            EffectModel::SaveSettings,
            EffectModel::WriteState,
            EffectModel::TintWindow { slot, tint: tint_of(theme) },
        ]);
    }
}

} // verus!
