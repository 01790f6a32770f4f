//! Choosing the border colour of a window.

use vstd::prelude::*;
use vstd::utf8::is_ascii_chars;

use crate::case::{raised, uppercase};
use crate::color::{
    color_dist, hex_to_rgb, is_readable_color, law_distance_is_symmetric,
    law_same_color_is_too_close, readable_color, rgb, too_close, MIN_COLOR_DIST,
};
use crate::data::{slot_color, AppData, AppModel};
use crate::effect::{seen, Effect, EffectModel};
use crate::settings::{lemma_viewed_insert, SettingsModel};
use crate::slot::{
    is_slot, known_state, law_slot_keys_differ, other_slot, slot_key, slot_key_text, valid_slot, SlotModel,
};

verus! {

/// What has become of a colour that was chosen.
#[derive(Debug, PartialEq, Eq)]
pub enum Recolor {
    /// There is no such slot, the text is no colour, or the colour is too close to that of
    /// the other window.
    Refused,
    /// One of the two colours cannot be cut into pairs of digits.
    Unreadable,
    /// The border has the colour.
    Done(Vec<Effect>),
}

impl AppModel {
    /// One of the colours that decide cannot be cut into pairs of digits.
    pub open spec fn recolor_unreadable(self, slot: u8, color: Seq<char>) -> bool {
        is_slot(slot) && (!readable_color(color) || (rgb(color) is Some && !readable_color(
            self.color(other_slot(slot)),
        )))
    }

    /// The window of a slot may have this colour.
    pub open spec fn accepts_color(self, slot: u8, color: Seq<char>) -> bool {
        &&& is_slot(slot)
        &&& rgb(color) is Some
        &&& !too_close(color, self.color(other_slot(slot)))
    }

    /// The state after the border of a slot has been given a colour.
    pub open spec fn recolored(self, slot: u8, color: Seq<char>) -> AppModel {
        self.with_settings(
            SettingsModel {
                colors: self.settings.colors.insert(slot_key(slot), color),
                ..self.settings
            },
        ).with_slot(slot, SlotModel { color, ..self.slot(slot) })
    }
}

/// What is done when the border of a slot has been given a colour.
pub open spec fn recoloring(slot: u8, color: Seq<char>) -> Seq<EffectModel> {
    seq![
        EffectModel::SaveSettings,
        EffectModel::WriteState,
        EffectModel::EmitColor { slot, color },
    ]
}

/// Gives the border of a slot a colour, unless it is no colour or too close
/// to that of the other window.
pub fn recolor(data: &mut AppData, slot: u8, color: String) -> (r: Recolor)
    ensures
        match r {
            Recolor::Unreadable => {
                &&& old(data)@.recolor_unreadable(slot, color@)
                &&& final(data)@ == old(data)@
            },
            Recolor::Refused => {
                &&& !old(data)@.recolor_unreadable(slot, color@)
                &&& !old(data)@.accepts_color(slot, color@)
                &&& final(data)@ == old(data)@
            },
            Recolor::Done(effects) => {
                &&& !old(data)@.recolor_unreadable(slot, color@)
                &&& old(data)@.accepts_color(slot, color@)
                &&& final(data)@ == old(data)@.recolored(slot, color@)
                &&& seen(effects@) == recoloring(slot, color@)
            },
        },
        old(data)@.inv() ==> final(data)@.inv(),
        old(data)@.colors_apart() ==> final(data)@.colors_apart(),
{
    if !valid_slot(slot) {
        return Recolor::Refused;
    }
    if !is_readable_color(color.as_str()) {
        return Recolor::Unreadable;
    }
    if hex_to_rgb(color.as_str()).is_none() {
        return Recolor::Refused;
    }
    let other: u8 = if slot == 1 {
        2
    } else {
        1
    };
    let other_color = slot_color(data, other);
    if !is_readable_color(other_color.as_str()) {
        return Recolor::Unreadable;
    }
    match color_dist(color.as_str(), other_color.as_str()) {
        Some(distance) => {
            if distance < MIN_COLOR_DIST * MIN_COLOR_DIST {
                return Recolor::Refused;
            }
        },
        None => {},
    }
    let key = slot_key_text(slot);
    let i: usize = (slot - 1) as usize;
    proof {
        lemma_viewed_insert(data.settings.colors@, key@, color);
    }
    let mut info = data.slots[i].clone();
    info.color = color.clone();
    data.settings.colors.insert(key.as_str(), color.clone());
    data.set_slot(slot, info);
    let mut effects: Vec<Effect> = Vec::new();
    effects.push(Effect::SaveSettings);
    effects.push(Effect::WriteState);
    effects.push(Effect::EmitColor { slot, color });
    proof {
        assert(data@ =~= old(data)@.recolored(slot, color@));
        assert(seen(effects@) =~= recoloring(slot, color@));
        if old(data)@.inv() {
            law_recolor_keeps_invariant(old(data)@, slot, color@);
        }
        law_borders_differ(old(data)@, slot, color@);
    }
    Recolor::Done(effects)
}

/// Gives the border of a slot the colour that a command asks for, in upper case.
pub fn handle_set_color(data: &mut AppData, slot: u8, color: &str) -> (r: Recolor)
    ensures
        match r {
            Recolor::Unreadable => {
                &&& old(data)@.recolor_unreadable(slot, uppercase(color@))
                &&& final(data)@ == old(data)@
            },
            Recolor::Refused => {
                &&& !old(data)@.recolor_unreadable(slot, uppercase(color@))
                &&& !old(data)@.accepts_color(slot, uppercase(color@))
                &&& final(data)@ == old(data)@
            },
            Recolor::Done(effects) => {
                &&& !old(data)@.recolor_unreadable(slot, uppercase(color@))
                &&& old(data)@.accepts_color(slot, uppercase(color@))
                &&& final(data)@ == old(data)@.recolored(slot, uppercase(color@))
                &&& seen(effects@) == recoloring(slot, uppercase(color@))
            },
        },
        is_ascii_chars(color@) ==> uppercase(color@) == raised(color@),
        old(data)@.inv() ==> final(data)@.inv(),
        old(data)@.colors_apart() ==> final(data)@.colors_apart(),
{
    recolor(data, slot, color.to_uppercase())
}

proof fn lemma_recolored_colors(data: AppModel, slot: u8, color: Seq<char>)
    requires
        is_slot(slot),
    ensures
        data.recolored(slot, color).color(slot) == color,
        forall|n: u8|
            n != slot ==> #[trigger] data.recolored(slot, color).color(n) == data.color(n),
{
    assert forall|n: u8| n != slot implies #[trigger] data.recolored(slot, color).color(n)
        == data.color(n) by {
        law_slot_keys_differ(n, slot);
    }
}

/// Giving a border a colour keeps the invariant of the state.
pub proof fn law_recolor_keeps_invariant(data: AppModel, slot: u8, color: Seq<char>)
    requires
        data.inv(),
        is_slot(slot),
    ensures
        data.recolored(slot, color).inv(),
{
    lemma_recolored_colors(data, slot, color);
    let after = data.recolored(slot, color);
    assert forall|n: u8|
        is_slot(n) && (#[trigger] after.slot(n)).owns_copy() implies after.slot(n).path
        == after.note_file(n) by {
        assert(data.slot(n).owns_copy());
    }
    assert forall|n: u8| is_slot(n) implies known_state((#[trigger] after.slot(n)).state) by {
        assert(known_state(data.slot(n).state));
    }
    assert forall|n: u8| #![trigger after.slot(n)] is_slot(n) && after.slot(n).color.len() > 0 implies after.slot(
        n,
    ).color == after.color(n) by {
        if n != slot {
            assert(data.slot(n).color == after.slot(n).color);
            assert(after.color(n) == data.color(n));
        }
    }
}

/// A colour that is accepted leaves the two borders apart, so the two windows never have
/// the same colour, nor one that is nearly the same.
pub proof fn law_borders_differ(data: AppModel, slot: u8, color: Seq<char>)
    requires
        data.accepts_color(slot, color),
    ensures
        data.recolored(slot, color).colors_apart(),
        data.recolored(slot, color).color(slot) == color,
        rgb(data.recolored(slot, color).color(1)) != rgb(data.recolored(slot, color).color(2)),
{
    lemma_recolored_colors(data, slot, color);
    let after = data.recolored(slot, color);
    let other = other_slot(slot);
    assert(after.color(other) == data.color(other));
    law_distance_is_symmetric(color, data.color(other));
    if rgb(color) == rgb(data.color(other)) {
        law_same_color_is_too_close(color, data.color(other));
    }
}

/// Giving one border a colour leaves the other border as it is.
pub proof fn law_recolor_leaves_the_other_border(data: AppModel, slot: u8, color: Seq<char>)
    requires
        data.two_of_each(),
        is_slot(slot),
    ensures
        data.recolored(slot, color).color(other_slot(slot)) == data.color(other_slot(slot)),
        data.recolored(slot, color).slot(other_slot(slot)) == data.slot(other_slot(slot)),
        data.recolored(slot, color).slot(slot).color == color,
{
    lemma_recolored_colors(data, slot, color);
}

/// A colour is accepted exactly where it is one and, in the space of red, green and blue, at
/// least sixty away from that of the other border, as far as that is one. It does not matter
/// which colour the border has now.
pub proof fn law_colors_are_accepted_by_distance(
    data: AppModel,
    slot: u8,
    other: u8,
    color: Seq<char>,
    x: (u8, u8, u8),
    y: (u8, u8, u8),
    sum: int,
)
    requires
        slot == 1 || slot == 2,
        other == 1 || other == 2,
        other != slot,
        sum == (x.0 - y.0) * (x.0 - y.0) + (x.1 - y.1) * (x.1 - y.1) + (x.2 - y.2) * (x.2 - y.2),
    ensures
        rgb(color) is None ==> !data.accepts_color(slot, color),
        rgb(color) is Some && rgb(data.color(other)) is None ==> data.accepts_color(slot, color),
        rgb(color) == Some(x) && rgb(data.color(other)) == Some(y) ==> (data.accepts_color(
            slot,
            color,
        ) <==> sum >= 3600),
        data.recolor_unreadable(slot, color) <==> !readable_color(color) || (rgb(color) is Some
            && !readable_color(data.color(other))),
{
}

/// There is no colour for what is no slot.
pub proof fn law_no_slot_has_a_border(data: AppModel, slot: u8, color: Seq<char>)
    requires
        slot != 1 && slot != 2,
    ensures
        !data.accepts_color(slot, color),
        !data.recolor_unreadable(slot, color),
{
}

/// A border that is given a colour has it from then on, and its slot reports it; nothing else
/// changes, neither of the slot nor anywhere.
pub proof fn law_recoloring_changes_one_border(
    data: AppModel,
    slot: u8,
    other: u8,
    color: Seq<char>,
    key: Seq<char>,
)
    requires
        data.slots.len() == 2,
        slot == 1 || slot == 2,
        other == 1 || other == 2,
        other != slot,
    ensures
        data.recolored(slot, color).color(slot) == color,
        data.recolored(slot, color).settings.colors.contains_key(slot_key(slot)),
        data.recolored(slot, color).settings.colors[slot_key(slot)] == color,
        key != slot_key(slot) ==> data.recolored(slot, color).settings.colors.contains_key(key)
            == data.settings.colors.contains_key(key),
        key != slot_key(slot) && data.settings.colors.contains_key(key) ==> data.recolored(
            slot,
            color,
        ).settings.colors[key] == data.settings.colors[key],
        data.recolored(slot, color).slots.len() == 2,
        data.recolored(slot, color).slots[slot - 1] == (SlotModel {
            color,
            ..data.slots[slot - 1]
        }),
        data.recolored(slot, color).slots[other - 1] == data.slots[other - 1],
        data.recolored(slot, color).settings.theme == data.settings.theme,
        data.recolored(slot, color).settings.opacity == data.settings.opacity,
        data.recolored(slot, color).settings.zoom == data.settings.zoom,
        data.recolored(slot, color).settings.bounds == data.settings.bounds,
        data.recolored(slot, color).closing == data.closing,
        data.recolored(slot, color).prev_bounds == data.prev_bounds,
        data.recolored(slot, color).note_files == data.note_files,
        data.recolored(slot, color).last_settings_save == data.last_settings_save,
        recoloring(slot, color) == seq![
            EffectModel::SaveSettings,
            EffectModel::WriteState,
            EffectModel::EmitColor { slot, color },
        ],
{
}

} // verus!
