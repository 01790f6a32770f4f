//! The state of the application, and what it reports.

use vstd::prelude::*;

use crate::binary64::Binary64;
use crate::color::{channels, rgb, too_close};
use crate::effect::{seen, Effect, EffectModel};
use crate::keyed::Keyed;
use crate::settings::{lemma_viewed_insert, viewed, Bounds, Settings, SettingsModel};
use crate::slot::{
    is_slot, known_state, law_slot_keys_differ, slot_key, slot_key_text, SlotInfo, SlotModel,
};
use crate::text::{
    byte_numeral, digit_value, numeral, same_text, trimmed, white_space, without_prefixes,
};

verus! {

/// The state of the application.
pub struct AppData {
    pub slots: [SlotInfo; 2],
    pub settings: Settings,
    /// Where the windows were before they were docked.
    pub prev_bounds: [Option<Bounds>; 2],
    /// A window is being closed, so that its label cannot be used again yet.
    pub closing: [bool; 2],
    /// When the preferences were last written under a throttle, in nanoseconds on a clock
    /// that never goes back.
    pub last_settings_save: u128,
    /// The files that hold the notes which came as content.
    pub note_files: [String; 2],
}

/// What `AppData` stands for.
#[verifier::ext_equal]
pub struct AppModel {
    pub slots: Seq<SlotModel>,
    pub settings: SettingsModel,
    pub prev_bounds: Seq<Option<Bounds>>,
    pub closing: Seq<bool>,
    pub last_settings_save: u128,
    pub note_files: Seq<Seq<char>>,
}

impl View for AppData {
    type V = AppModel;

    open spec fn view(&self) -> AppModel {
        AppModel {
            slots: self.slots@.map_values(|info: SlotInfo| info@),
            settings: self.settings@,
            prev_bounds: self.prev_bounds@,
            closing: self.closing@,
            last_settings_save: self.last_settings_save,
            note_files: self.note_files@.map_values(|file: String| file@),
        }
    }
}

/// The border colour of a slot before any choice: cyan for slot 1, orange for slot 2.
pub open spec fn default_color(slot: u8) -> Seq<char> {
    if slot == 1 {
        "#22D3EE"@
    } else {
        "#F59E0B"@
    }
}

impl AppModel {
    /// There is one of everything for each of the two slots.
    pub open spec fn two_of_each(self) -> bool {
        &&& self.slots.len() == 2
        &&& self.prev_bounds.len() == 2
        &&& self.closing.len() == 2
        &&& self.note_files.len() == 2
    }

    /// What a slot shows.
    pub open spec fn slot(self, slot: u8) -> SlotModel {
        self.slots[slot - 1]
    }

    /// The file for a note that comes as content for a slot.
    pub open spec fn note_file(self, slot: u8) -> Seq<char> {
        self.note_files[slot - 1]
    }

    pub open spec fn with_slot(self, slot: u8, info: SlotModel) -> AppModel {
        AppModel { slots: self.slots.update(slot - 1, info), ..self }
    }

    pub open spec fn with_closing(self, slot: u8, closing: bool) -> AppModel {
        AppModel { closing: self.closing.update(slot - 1, closing), ..self }
    }

    /// The border colour of a slot: the chosen one, or that before any choice.
    pub open spec fn color(self, slot: u8) -> Seq<char> {
        if self.settings.colors.contains_key(slot_key(slot)) {
            self.settings.colors[slot_key(slot)]
        } else {
            default_color(slot)
        }
    }

    /// Every slot is empty, open or docked.
    pub open spec fn states_known(self) -> bool {
        forall|slot: u8| is_slot(slot) ==> known_state((#[trigger] self.slot(slot)).state)
    }

    /// A slot that shows a copy of its own shows its own file and no other.
    pub open spec fn owns_only_copies(self) -> bool {
        forall|slot: u8|
            is_slot(slot) && (#[trigger] self.slot(slot)).owns_copy() ==> self.slot(slot).path
                == self.note_file(slot)
    }

    /// A slot that has been used reports the border colour of its window.
    pub open spec fn reports_colors(self) -> bool {
        forall|slot: u8|
            #![trigger self.slot(slot)]
            is_slot(slot) && self.slot(slot).color.len() > 0 ==> self.slot(slot).color
                == self.color(slot)
    }

    /// What every operation keeps.
    pub open spec fn inv(self) -> bool {
        &&& self.two_of_each()
        &&& self.states_known()
        &&& self.owns_only_copies()
        &&& self.reports_colors()
    }

    /// The border colours of the two windows are told apart.
    pub open spec fn colors_apart(self) -> bool {
        !too_close(self.color(1), self.color(2))
    }
}

impl AppData {
    /// The state at the start, before the preferences are read.
    pub fn new(note_files: [String; 2], now: u128) -> (r: AppData)
        ensures
            r@ == (AppModel {
                slots: seq![SlotModel::blank(), SlotModel::blank()],
                settings: SettingsModel::initial(),
                prev_bounds: seq![None, None],
                closing: seq![false, false],
                last_settings_save: now,
                note_files: note_files@.map_values(|file: String| file@),
            }),
            r@.inv(),
    {
        let r = AppData {
            slots: [SlotInfo::default(), SlotInfo::default()],
            settings: Settings::default(),
            prev_bounds: [None, None],
            closing: [false, false],
            last_settings_save: now,
            note_files,
        };
        assert(r@.slots =~= seq![SlotModel::blank(), SlotModel::blank()]);
        assert(r@.prev_bounds =~= seq![None, None]);
        assert(r@.closing =~= seq![false, false]);
        proof {
            assert forall|slot: u8| is_slot(slot) implies #[trigger] r@.slot(slot)
                == SlotModel::blank() by {
                assert(slot == 1 || slot == 2);
            }
        }
        r
    }

    /// Takes over the preferences that were read at the start.
    pub fn install_settings(&mut self, settings: Settings)
        ensures
            final(self)@ == (AppModel { settings: settings@, ..old(self)@ }),
            old(self)@.inv() && old(self)@.slot(1).color.len() == 0 && old(self)@.slot(2).color.len()
                == 0 ==> final(self)@.inv(),
    {
        self.settings = settings;
    }

    /// Replaces what a slot shows.
    pub(crate) fn set_slot(&mut self, slot: u8, info: SlotInfo)
        requires
            is_slot(slot),
        ensures
            final(self)@ == old(self)@.with_slot(slot, info@),
    {
        let i: usize = (slot - 1) as usize;
        self.slots[i] = info;
        assert(self@.slots =~= old(self)@.slots.update(slot - 1, info@));
    }

    /// Notes that the window of a slot is being closed, or is not any more.
    pub(crate) fn set_closing(&mut self, slot: u8, closing: bool)
        requires
            is_slot(slot),
        ensures
            final(self)@ == old(self)@.with_closing(slot, closing),
    {
        let i: usize = (slot - 1) as usize;
        self.closing[i] = closing;
        assert(self@.closing =~= old(self)@.closing.update(slot - 1, closing));
    }
}

/// The border colour of a slot before any choice.
fn default_color_text(slot: u8) -> (r: String)
    ensures
        r@ == default_color(slot),
{
    if slot == 1 {
        "#22D3EE".to_owned()
    } else {
        "#F59E0B".to_owned()
    }
}

/// The border colour of a slot: the chosen one, or that before any choice.
pub fn slot_color(data: &AppData, slot: u8) -> (r: String)
    requires
        is_slot(slot) || data@.settings.colors.contains_key(slot_key(slot)),
    ensures
        r@ == data@.color(slot),
{
    let key = slot_key_text(slot);
    match data.settings.colors.get(key.as_str()) {
        Some(color) => color.clone(),
        None => default_color_text(slot),
    }
}

/// What is reported about the state: both slots, both border colours, the theme, the
/// opacity, and when this was so. The maps are keyed by the number of the slot.
pub struct StateReport {
    pub slots: Keyed<SlotInfo>,
    pub colors: Keyed<String>,
    pub theme: String,
    pub opacity: Binary64,
    pub updated: u64,
}

/// What a `StateReport` stands for.
#[verifier::ext_equal]
pub struct ReportModel {
    pub slots: Map<Seq<char>, SlotModel>,
    pub colors: Map<Seq<char>, Seq<char>>,
    pub theme: Seq<char>,
    pub opacity: Binary64,
    pub updated: u64,
}

impl View for StateReport {
    type V = ReportModel;

    open spec fn view(&self) -> ReportModel {
        ReportModel {
            slots: viewed(self.slots@),
            colors: viewed(self.colors@),
            theme: self.theme@,
            opacity: self.opacity,
            updated: self.updated,
        }
    }
}

impl AppModel {
    /// What is reported about this state at `now`.
    pub open spec fn report(self, now: u64) -> ReportModel {
        ReportModel {
            slots: map![slot_key(1) => self.slot(1), slot_key(2) => self.slot(2)],
            colors: map![slot_key(1) => self.color(1), slot_key(2) => self.color(2)],
            theme: self.settings.shown_theme(),
            opacity: self.settings.opacity,
            updated: now,
        }
    }
}

/// The report to write about the state at `now`.
pub fn write_state(data: &AppData, now: u64) -> (r: StateReport)
    ensures
        r@ == data@.report(now),
        data@.inv() ==> known_state(r@.slots[slot_key(1)].state) && known_state(
            r@.slots[slot_key(2)].state,
        ),
{
    let mut slots: Keyed<SlotInfo> = Keyed::new();
    let mut colors: Keyed<String> = Keyed::new();
    let key1 = slot_key_text(1);
    let key2 = slot_key_text(2);
    let info1 = data.slots[0].clone();
    let info2 = data.slots[1].clone();
    let color1 = slot_color(data, 1);
    let color2 = slot_color(data, 2);
    proof {
        lemma_viewed_insert(slots@, key1@, info1);
        lemma_viewed_insert(colors@, key1@, color1);
    }
    slots.insert(key1.as_str(), info1);
    colors.insert(key1.as_str(), color1);
    proof {
        lemma_viewed_insert(slots@, key2@, info2);
        lemma_viewed_insert(colors@, key2@, color2);
    }
    slots.insert(key2.as_str(), info2);
    colors.insert(key2.as_str(), color2);
    let r = StateReport {
        slots,
        colors,
        theme: data.settings.shown_theme(),
        opacity: data.settings.opacity,
        updated: now,
    };
    assert(r@.slots =~= data@.report(now).slots);
    assert(r@.colors =~= data@.report(now).colors);
    proof {
        if data@.inv() {
            law_reported_states_are_known(data@, now, 1);
            law_reported_states_are_known(data@, now, 2);
        }
    }
    r
}

/// Whether a slot shows a note, be it docked or not.
pub open spec fn shows_note(info: SlotModel) -> bool {
    info.state == "open"@ || info.state == "docked"@
}

impl AppModel {
    /// One of the slots shows a note.
    pub open spec fn any_open(self) -> bool {
        exists|slot: u8| is_slot(slot) && shows_note(#[trigger] self.slot(slot))
    }

    /// What is done when the application has started and the inbox has been worked off:
    /// where there is nothing to show, the first window comes up with the welcome text.
    pub open spec fn opening(self) -> Seq<EffectModel> {
        if self.any_open() {
            seq![EffectModel::WriteState]
        } else {
            seq![EffectModel::EnsureWindow(1), EffectModel::WriteState]
        }
    }
}

/// What is done when the application has started and the inbox has been worked off.
pub fn finish_start(data: &AppData) -> (r: Vec<Effect>)
    ensures
        seen(r@) == data@.opening(),
{
    let mut effects: Vec<Effect> = Vec::new();
    if !has_open(data) {
        effects.push(Effect::EnsureWindow(1));
    }
    effects.push(Effect::WriteState);
    assert(seen(effects@) =~= data@.opening());
    effects
}

/// Whether any slot shows a note.
pub fn has_open(data: &AppData) -> (r: bool)
    ensures
        r == data@.any_open(),
{
    let first = data.slots[0].state.as_str();
    let second = data.slots[1].state.as_str();
    let r: bool = same_text(first, "open") || same_text(first, "docked") || same_text(second, "open")
        || same_text(second, "docked");
    proof {
        assert(data@.slot(1).state == first@);
        assert(data@.slot(2).state == second@);
        assert forall|slot: u8| is_slot(slot) && shows_note(#[trigger] data@.slot(slot)) implies r by {
            assert(slot == 1 || slot == 2);
        }
    }
    r
}

/// The report says of each slot what it shows and which border its window has.
pub proof fn law_report_tells_each_slot(data: AppModel, now: u64, slot: u8)
    requires
        is_slot(slot),
    ensures
        data.report(now).slots.contains_key(slot_key(slot)),
        data.report(now).slots[slot_key(slot)] == data.slot(slot),
        data.report(now).colors.contains_key(slot_key(slot)),
        data.report(now).colors[slot_key(slot)] == data.color(slot),
{
    law_slot_keys_differ(1, 2);
    assert(slot == 1 || slot == 2);
}

/// A report gives the state of each slot as empty, open or docked.
pub proof fn law_reported_states_are_known(data: AppModel, now: u64, slot: u8)
    requires
        data.inv(),
        is_slot(slot),
    ensures
        known_state(data.report(now).slots[slot_key(slot)].state),
{
    law_report_tells_each_slot(data, now, slot);
    assert(known_state(data.slot(slot).state));
}

/// Before any choice the two border colours are told apart.
pub proof fn law_default_colors_apart(data: AppModel)
    requires
        !data.settings.colors.contains_key(slot_key(1)),
        !data.settings.colors.contains_key(slot_key(2)),
    ensures
        data.colors_apart(),
{
    lemma_default_colors();
}

proof fn lemma_default_colors()
    ensures
        rgb("#22D3EE"@) == Some((0x22u8, 0xd3u8, 0xeeu8)),
        rgb("#F59E0B"@) == Some((0xf5u8, 0x9eu8, 0x0bu8)),
        !too_close("#22D3EE"@, "#F59E0B"@),
{
    reveal_strlit("#22D3EE");
    reveal_strlit("#F59E0B");
    lemma_plain_color("#22D3EE"@);
    lemma_plain_color("#F59E0B"@);
    let a = "#22D3EE"@.skip(1);
    let b = "#F59E0B"@.skip(1);
    lemma_pair(a.subrange(0, 2));
    lemma_pair(a.subrange(2, 4));
    lemma_pair(a.subrange(4, 6));
    lemma_pair(b.subrange(0, 2));
    lemma_pair(b.subrange(2, 4));
    lemma_pair(b.subrange(4, 6));
    assert((0x22u8 - 0xf5u8) * (0x22u8 - 0xf5u8) == 44521) by (nonlinear_arith);
    assert((0xd3u8 - 0x9eu8) * (0xd3u8 - 0x9eu8) == 2809) by (nonlinear_arith);
    assert((0xeeu8 - 0x0bu8) * (0xeeu8 - 0x0bu8) == 51529) by (nonlinear_arith);
}

proof fn lemma_plain_color(text: Seq<char>)
    requires
        text.len() == 7,
        text[0] == '#',
        text[1] != '#',
        !white_space(text[6]),
    ensures
        rgb(text) == channels(text.skip(1)),
{
    assert(trimmed(text) == text);
    assert(text.take(1) =~= seq!['#']);
    let rest = text.skip(1);
    if rest.take(1) == seq!['#'] {
        assert(rest.take(1)[0] == '#');
    }
    reveal_with_fuel(without_prefixes, 2);
}

proof fn lemma_pair(pair: Seq<char>)
    requires
        pair.len() == 2,
        digit_value(pair[0]) < 16,
        digit_value(pair[1]) < 16,
        pair[0] != '+',
    ensures
        byte_numeral(pair, 16) == Some((digit_value(pair[0]) * 16 + digit_value(pair[1])) as u8),
{
    reveal_with_fuel(numeral, 3);
    assert(pair.drop_last().last() == pair[0]);
}

/// The state is seen as its fields are, slot by slot.
pub proof fn law_data_are_seen_by_their_fields(data: AppData, i: int)
    requires
        0 <= i < 2,
    ensures
        data@.slots.len() == 2,
        data@.slots[i] == data.slots@[i]@,
        data@.settings == data.settings@,
        data@.prev_bounds == data.prev_bounds@,
        data@.closing == data.closing@,
        data@.last_settings_save == data.last_settings_save,
        data@.note_files.len() == 2,
        data@.note_files[i] == data.note_files@[i]@,
{
}

/// A border has the colour that was chosen for its slot, whatever the slot shows; before any
/// choice the first is cyan and the second orange.
pub proof fn law_borders_have_the_chosen_color(data: AppModel, slot: u8, key: Seq<char>)
    requires
        is_slot(slot),
        key == slot_key(slot),
    ensures
        data.settings.colors.contains_key(key) ==> data.color(slot) == data.settings.colors[key],
        !data.settings.colors.contains_key(key) && slot == 1 ==> data.color(slot) == "#22D3EE"@,
        !data.settings.colors.contains_key(key) && slot == 2 ==> data.color(slot) == "#F59E0B"@,
        data.slot(slot) == data.slots[slot - 1],
        data.note_file(slot) == data.note_files[slot - 1],
{
}

/// A report tells of both slots, both colours, the theme, the opacity and the time, and of
/// nothing else.
pub proof fn law_reports_are_complete(data: AppModel, now: u64, key: Seq<char>)
    ensures
        data.report(now).slots.contains_key(key) <==> key == slot_key(1) || key == slot_key(2),
        data.report(now).colors.contains_key(key) <==> key == slot_key(1) || key == slot_key(2),
        data.report(now).slots[slot_key(1)] == data.slots[0],
        data.report(now).slots[slot_key(2)] == data.slots[1],
        data.report(now).colors[slot_key(1)] == data.color(1),
        data.report(now).colors[slot_key(2)] == data.color(2),
        data.settings.theme.len() > 0 ==> data.report(now).theme == data.settings.theme,
        data.settings.theme.len() == 0 ==> data.report(now).theme == "dark"@,
        data.report(now).opacity == data.settings.opacity,
        data.report(now).updated == now,
{
    law_slot_keys_differ(1, 2);
}

/// The first window comes up by itself exactly where neither slot is open or docked, and the
/// state is reported in any case.
pub proof fn law_welcome_comes_up_when_nothing_is_shown(data: AppModel)
    requires
        data.slots.len() == 2,
    ensures
        data.opening().contains(EffectModel::EnsureWindow(1)) <==> data.slots[0].state != "open"@
            && data.slots[0].state != "docked"@ && data.slots[1].state != "open"@
            && data.slots[1].state != "docked"@,
        data.any_open() <==> data.slots[0].state == "open"@ || data.slots[0].state == "docked"@
            || data.slots[1].state == "open"@ || data.slots[1].state == "docked"@,
        data.opening().last() == EffectModel::WriteState,
        data.opening().len() <= 2,
        forall|i: int| 0 <= i < data.opening().len() - 1 ==> #[trigger] data.opening()[i]
            == EffectModel::EnsureWindow(1),
{
    assert(data.slot(1) == data.slots[0] && data.slot(2) == data.slots[1]);
    if data.any_open() {
        let slot = choose|slot: u8| is_slot(slot) && shows_note(#[trigger] data.slot(slot));
        assert(slot == 1 || slot == 2);
    } else {
        assert(data.opening()[0] == EffectModel::EnsureWindow(1));
        assert(!shows_note(data.slot(1)) && !shows_note(data.slot(2)));
    }
}

/// A report is seen as its fields are.
pub proof fn law_reports_are_seen_by_their_fields(report: StateReport, key: Seq<char>)
    ensures
        report@.theme == report.theme@,
        report@.opacity == report.opacity,
        report@.updated == report.updated,
        report@.slots.contains_key(key) <==> report.slots@.contains_key(key),
        report.slots@.contains_key(key) ==> report@.slots[key] == report.slots@[key]@,
        report@.colors.contains_key(key) <==> report.colors@.contains_key(key),
        report.colors@.contains_key(key) ==> report@.colors[key] == report.colors@[key]@,
{
}

} // verus!
