//! The two slots, and the windows that show them.

use vstd::prelude::*;

use crate::text::{
    all_digits, byte_numeral, chars_of, decimal, decimal_text, digit_value, has_prefix,
    law_decimals_read_back, law_values_of_digits, numeral, read_byte, strip_prefix, unsigned_part,
};

verus! {

/// What a slot shows.
#[derive(Debug, PartialEq, Eq)]
pub struct SlotInfo {
    /// "empty", "open" or "docked".
    pub state: String,
    /// "path" for a file that was opened by its path, "content" for a copy of the slot's own;
    /// nothing while the slot is empty.
    pub mode: String,
    pub path: String,
    pub title: String,
    pub color: String,
    /// In seconds since the epoch.
    pub last_updated: u64,
}

/// What a `SlotInfo` stands for.
#[verifier::ext_equal]
pub struct SlotModel {
    pub state: Seq<char>,
    pub mode: Seq<char>,
    pub path: Seq<char>,
    pub title: Seq<char>,
    pub color: Seq<char>,
    pub last_updated: u64,
}

impl View for SlotInfo {
    type V = SlotModel;

    open spec fn view(&self) -> SlotModel {
        SlotModel {
            state: self.state@,
            mode: self.mode@,
            path: self.path@,
            title: self.title@,
            color: self.color@,
            last_updated: self.last_updated,
        }
    }
}

impl SlotModel {
    /// A slot before first use.
    pub open spec fn blank() -> SlotModel {
        SlotModel {
            state: "empty"@,
            mode: Seq::empty(),
            path: Seq::empty(),
            title: Seq::empty(),
            color: Seq::empty(),
            last_updated: 0,
        }
    }

    /// A slot whose note is gone; only the border colour is left.
    pub open spec fn emptied(color: Seq<char>) -> SlotModel {
        SlotModel { color, ..SlotModel::blank() }
    }

    /// The slot shows a copy of its own that goes away with the note: everything but a file
    /// that was opened by its path.
    pub open spec fn owns_copy(self) -> bool {
        self.mode != "path"@ && self.path.len() > 0
    }
}

/// A slot is empty, open or docked.
pub open spec fn known_state(state: Seq<char>) -> bool {
    state == "empty"@ || state == "open"@ || state == "docked"@
}

impl Default for SlotInfo {
    fn default() -> (r: SlotInfo)
        ensures
            r@ == SlotModel::blank(),
    {
        SlotInfo {
            state: "empty".to_owned(),
            mode: String::new(),
            path: String::new(),
            title: String::new(),
            color: String::new(),
            last_updated: 0,
        }
    }
}

impl Clone for SlotInfo {
    fn clone(&self) -> (r: SlotInfo)
        ensures
            r@ == self@,
    {
        SlotInfo {
            state: self.state.clone(),
            mode: self.mode.clone(),
            path: self.path.clone(),
            title: self.title.clone(),
            color: self.color.clone(),
            last_updated: self.last_updated,
        }
    }
}

/// There are two slots, 1 and 2.
pub open spec fn is_slot(slot: u8) -> bool {
    1 <= slot <= 2
}

/// Whether `slot` is one of the two slots.
pub fn valid_slot(slot: u8) -> (r: bool)
    ensures
        r == is_slot(slot),
{
    1 <= slot && slot <= 2
}

/// The slot that is not `slot`.
pub open spec fn other_slot(slot: u8) -> u8 {
    if slot == 1 {
        2
    } else {
        1
    }
}

/// The key of a slot in the settings and reports.
pub open spec fn slot_key(slot: u8) -> Seq<char> {
    decimal(slot as nat)
}

/// The key of a slot in the settings and reports.
pub fn slot_key_text(slot: u8) -> (r: String)
    ensures
        r@ == slot_key(slot),
{
    decimal_text(slot as u64)
}

/// The label of the window for a slot.
pub open spec fn label(slot: u8) -> Seq<char> {
    "note-"@ + decimal(slot as nat)
}

/// The label of the window for a slot.
pub fn window_label(slot: u8) -> (r: String)
    ensures
        r@ == label(slot),
{
    "note-".to_owned().concat(decimal_text(slot as u64).as_str())
}

/// The slot that a window belongs to, by its label.
pub open spec fn labelled_slot(label: Seq<char>) -> Option<u8> {
    if has_prefix(label, "note-"@) {
        match byte_numeral(label.skip("note-"@.len() as int), 10) {
            Some(slot) => if is_slot(slot) {
                Some(slot)
            } else {
                None
            },
            None => None,
        }
    } else {
        None
    }
}

/// The slot that a window belongs to, by its label.
pub fn window_slot(label: &str) -> (r: Option<u8>)
    ensures
        r == labelled_slot(label@),
{
    match strip_prefix(label, "note-") {
        Some(rest) => {
            assert(rest@ =~= label@.skip("note-"@.len() as int));
            let text = chars_of(rest.as_str());
            let n: usize = text.len();
            assert(text@.subrange(0, n as int) =~= text@);
            match read_byte(&text, 0, n, 10) {
                Some(slot) => {
                    if valid_slot(slot) {
                        Some(slot)
                    } else {
                        None
                    }
                },
                None => None,
            }
        },
        None => None,
    }
}

proof fn lemma_decimal_reads_back(n: nat)
    ensures
        decimal(n).len() > 0,
        decimal(n)[0] != '+',
        all_digits(decimal(n), 10),
        numeral(decimal(n), 10) == n,
{
    law_decimals_read_back(n);
    let row = decimal(n);
    assert forall|i: int| 0 <= i < row.len() implies digit_value(#[trigger] row[i]) < 10 by {
        law_values_of_digits(row[i]);
    }
}

/// The label of a window names its slot: reading it gives the slot back, so the windows
/// of different slots have different labels.
pub proof fn law_labels_name_slots(slot: u8)
    requires
        is_slot(slot),
    ensures
        labelled_slot(label(slot)) == Some(slot),
{
    lemma_decimal_reads_back(slot as nat);
    let text = label(slot);
    assert(text.take("note-"@.len() as int) =~= "note-"@);
    assert(text.skip("note-"@.len() as int) =~= decimal(slot as nat));
    assert(unsigned_part(decimal(slot as nat)) == decimal(slot as nat));
}

/// The keys of different slots differ.
pub proof fn law_slot_keys_differ(a: u8, b: u8)
    requires
        a != b,
    ensures
        slot_key(a) != slot_key(b),
{
    lemma_decimal_reads_back(a as nat);
    lemma_decimal_reads_back(b as nat);
}

/// The slots are 1 and 2, and each is the other of the other.
pub proof fn law_there_are_two_slots(slot: u8)
    ensures
        is_slot(slot) <==> slot == 1 || slot == 2,
        slot == 1 ==> other_slot(slot) == 2,
        slot == 2 ==> other_slot(slot) == 1,
{
}

/// The label of a window and the key of a slot hold its number in decimal.
pub proof fn law_labels_and_keys_hold_the_number(slot: u8)
    ensures
        label(slot) == "note-"@ + decimal(slot as nat),
        slot_key(slot) == decimal(slot as nat),
{
}

/// A window belongs to slot 1 or 2 exactly where its label is `note-` and a numeral for that
/// number.
pub proof fn law_only_labels_belong_to_slots(number: Seq<char>, text: Seq<char>, slot: u8)
    ensures
        labelled_slot("note-"@ + number) == Some(slot) <==> byte_numeral(number, 10) == Some(slot)
            && (slot == 1 || slot == 2),
        labelled_slot(text) is Some ==> text.len() >= 5 && text.subrange(0, 5) == "note-"@,
{
    reveal_strlit("note-");
    assert(("note-"@ + number).take(5) =~= "note-"@);
    assert(("note-"@ + number).skip(5) =~= number);
    if has_prefix(text, "note-"@) {
        assert(text.take(5) =~= text.subrange(0, 5));
    }
}

/// A slot is seen as its fields are.
pub proof fn law_slots_are_seen_by_their_fields(info: SlotInfo)
    ensures
        info@.state == info.state@,
        info@.mode == info.mode@,
        info@.path == info.path@,
        info@.title == info.title@,
        info@.color == info.color@,
        info@.last_updated == info.last_updated,
{
}

/// An empty slot has nothing but its colour, and the states are empty, open and docked.
pub proof fn law_empty_slots_have_a_color_only(color: Seq<char>, state: Seq<char>)
    ensures
        SlotModel::emptied(color).color == color,
        SlotModel::emptied(color).state == "empty"@,
        SlotModel::emptied(color).mode.len() == 0,
        SlotModel::emptied(color).path.len() == 0,
        SlotModel::emptied(color).title.len() == 0,
        SlotModel::emptied(color).last_updated == 0,
        SlotModel::blank().state == "empty"@,
        known_state(state) <==> state == "empty"@ || state == "open"@ || state == "docked"@,
{
}

} // verus!
