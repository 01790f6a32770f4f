//! Where the application keeps its files, as the names that lead there.

use vstd::prelude::*;

use crate::text::{decimal, decimal_text};

verus! {

/// A location in the file system: a directory, and the names of what is inside it, from
/// the outermost to the innermost. How names are put together is up to the system.
#[derive(Debug, PartialEq, Eq)]
pub struct DataPath {
    pub base: String,
    pub names: Vec<String>,
}

/// What a `DataPath` stands for.
pub struct Location {
    pub base: Seq<char>,
    pub names: Seq<Seq<char>>,
}

impl View for DataPath {
    type V = Location;

    open spec fn view(&self) -> Location {
        Location { base: self.base@, names: self.names@.map_values(|name: String| name@) }
    }
}

impl Location {
    /// What is called `name` inside this location.
    pub open spec fn inside(self, name: Seq<char>) -> Location {
        Location { base: self.base, names: self.names.push(name) }
    }
}

impl DataPath {
    /// What is called `name` inside this location.
    pub fn child(&self, name: &str) -> (r: DataPath)
        ensures
            r@ == self@.inside(name@),
    {
        let mut names: Vec<String> = Vec::new();
        let mut i: usize = 0;
        while i < self.names.len()
            invariant
                i <= self.names@.len(),
                names@.len() == i,
                forall|k: int| 0 <= k < i ==> (#[trigger] names@[k])@ == self.names@[k]@,
            decreases self.names@.len() - i,
        {
            names.push(self.names[i].clone());
            i = i + 1;
        }
        names.push(name.to_owned());
        let r = DataPath { base: self.base.clone(), names };
        assert(r@.names =~= self@.inside(name@).names);
        r
    }
}

/// The application's own directory: inside the local application data where the system
/// says where that is, and inside the directory for temporary files otherwise.
pub fn data_dir(local_app_data: Option<String>, temp_dir: String) -> (r: DataPath)
    ensures
        r@ == (Location {
            base: match local_app_data {
                Some(dir) => dir@,
                None => temp_dir@,
            },
            names: seq!["lite-notes"@],
        }),
{
    let base: String = match local_app_data {
        Some(dir) => dir,
        None => temp_dir,
    };
    let root = DataPath { base, names: Vec::new() };
    let r = root.child("lite-notes");
    assert(r@.names =~= seq!["lite-notes"@]);
    r
}

/// The directory for the copies of notes that came as content.
pub fn notes_dir(data_dir: &DataPath) -> (r: DataPath)
    ensures
        r@ == data_dir@.inside("notes"@),
{
    data_dir.child("notes")
}

/// The inbox for commands.
pub fn commands_dir(data_dir: &DataPath) -> (r: DataPath)
    ensures
        r@ == data_dir@.inside("commands"@),
{
    data_dir.child("commands")
}

/// The file that reports the state of both slots.
pub fn state_file(data_dir: &DataPath) -> (r: DataPath)
    ensures
        r@ == data_dir@.inside("state.json"@),
{
    data_dir.child("state.json")
}

/// The file that keeps the preferences.
pub fn settings_file(data_dir: &DataPath) -> (r: DataPath)
    ensures
        r@ == data_dir@.inside("settings.json"@),
{
    data_dir.child("settings.json")
}

/// The name of the file that holds the content of a slot.
pub open spec fn note_file_name(slot: u8) -> Seq<char> {
    "slot-"@ + decimal(slot as nat) + ".md"@
}

/// The file that holds a note which came as content for a slot.
pub fn note_file(data_dir: &DataPath, slot: u8) -> (r: DataPath)
    ensures
        r@ == data_dir@.inside("notes"@).inside(note_file_name(slot)),
{
    let name = "slot-".to_owned().concat(decimal_text(slot as u64).as_str()).concat(".md");
    notes_dir(data_dir).child(name.as_str())
}

/// Every file that holds content lies directly inside the directory for notes.
pub proof fn law_note_files_are_inside_notes(dir: Location, slot: u8)
    ensures
        dir.inside("notes"@).inside(note_file_name(slot)).base == dir.base,
        dir.inside("notes"@).inside(note_file_name(slot)).names.drop_last() == dir.inside(
            "notes"@,
        ).names,
{
    assert(dir.inside("notes"@).inside(note_file_name(slot)).names.drop_last() =~= dir.inside(
        "notes"@,
    ).names);
}

/// What is inside a location has the same base and one name more.
pub proof fn law_names_lead_inside(place: Location, name: Seq<char>, slot: u8)
    ensures
        place.inside(name).base == place.base,
        place.inside(name).names == place.names + seq![name],
        note_file_name(slot) == "slot-"@ + decimal(slot as nat) + ".md"@,
{
    assert(place.inside(name).names =~= place.names + seq![name]);
}

/// A location is seen as its parts are.
pub proof fn law_locations_are_seen_by_their_names(place: DataPath, i: int)
    requires
        0 <= i < place.names@.len(),
    ensures
        place@.base == place.base@,
        place@.names.len() == place.names@.len(),
        place@.names[i] == place.names@[i]@,
{
}

} // verus!
