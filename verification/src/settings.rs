//! The preferences that outlive a session.

use vstd::prelude::*;

use crate::binary64::Binary64;
use crate::keyed::Keyed;

verus! {

/// The bits of 0.3, the lowest opacity.
pub const OPACITY_LOW: u64 = 0x3fd3_3333_3333_3333;

/// The bits of 1.0, the highest opacity.
pub const OPACITY_HIGH: u64 = 0x3ff0_0000_0000_0000;

/// The bits of 0.92, the opacity before any choice.
pub const OPACITY_DEFAULT: u64 = 0x3fed_70a3_d70a_3d71;

/// The bits of 0.6, the lowest zoom factor.
pub const ZOOM_LOW: u64 = 0x3fe3_3333_3333_3333;

/// The bits of 2.0, the highest zoom factor.
pub const ZOOM_HIGH: u64 = 0x4000_0000_0000_0000;

/// The bits of 1.0, the zoom factor before any choice.
pub const ZOOM_DEFAULT: u64 = 0x3ff0_0000_0000_0000;

/// Place and size of a window in logical pixels.
#[derive(Clone, Copy, Debug, PartialEq, Eq, Structural)]
pub struct Bounds {
    pub x: Binary64,
    pub y: Binary64,
    pub width: Binary64,
    pub height: Binary64,
}

/// The preferences. The maps are keyed by the number of the slot.
pub struct Settings {
    /// "light" or "dark"; nothing before the theme of the system has been looked up.
    pub theme: String,
    pub opacity: Binary64,
    pub zoom: Keyed<Binary64>,
    pub colors: Keyed<String>,
    pub bounds: Keyed<Bounds>,
}

/// What `Settings` stands for.
#[verifier::ext_equal]
pub struct SettingsModel {
    pub theme: Seq<char>,
    pub opacity: Binary64,
    pub zoom: Map<Seq<char>, Binary64>,
    pub colors: Map<Seq<char>, Seq<char>>,
    pub bounds: Map<Seq<char>, Bounds>,
}

/// A map by what its values stand for.
pub open spec fn viewed<T: View>(map: Map<Seq<char>, T>) -> Map<Seq<char>, T::V> {
    Map::new(|key: Seq<char>| map.contains_key(key), |key: Seq<char>| map[key]@)
}

/// Putting a value into a map and seeing what it stands for go together.
pub proof fn lemma_viewed_insert<T: View>(map: Map<Seq<char>, T>, key: Seq<char>, value: T)
    ensures
        viewed(map.insert(key, value)) == viewed(map).insert(key, value@),
{
    assert(viewed(map.insert(key, value)) =~= viewed(map).insert(key, value@));
}

impl View for Settings {
    type V = SettingsModel;

    open spec fn view(&self) -> SettingsModel {
        SettingsModel {
            theme: self.theme@,
            opacity: self.opacity,
            zoom: self.zoom@,
            colors: viewed(self.colors@),
            bounds: self.bounds@,
        }
    }
}

impl SettingsModel {
    /// The preferences before any choice.
    pub open spec fn initial() -> SettingsModel {
        SettingsModel {
            theme: Seq::empty(),
            opacity: Binary64 { bits: OPACITY_DEFAULT },
            zoom: Map::empty(),
            colors: Map::empty(),
            bounds: Map::empty(),
        }
    }

    /// The theme to show: the chosen one, and dark before any choice.
    pub open spec fn shown_theme(self) -> Seq<char> {
        if self.theme.len() == 0 {
            "dark"@
        } else {
            self.theme
        }
    }

    /// The zoom factor under `key`.
    pub open spec fn zoom_of(self, key: Seq<char>) -> Binary64 {
        if self.zoom.contains_key(key) {
            self.zoom[key]
        } else {
            Binary64 { bits: ZOOM_DEFAULT }
        }
    }
}

impl Settings {
    /// The theme to show: the chosen one, and dark before any choice.
    pub fn shown_theme(&self) -> (r: String)
        ensures
            r@ == self@.shown_theme(),
    {
        if self.theme.as_str().is_empty() {
            "dark".to_owned()
        } else {
            self.theme.clone()
        }
    }

    /// The zoom factor under `key`.
    pub fn zoom_of(&self, key: &str) -> (r: Binary64)
        ensures
            r == self@.zoom_of(key@),
    {
        match self.zoom.get(key) {
            Some(factor) => *factor,
            None => Binary64 { bits: ZOOM_DEFAULT },
        }
    }
}

impl Default for Settings {
    fn default() -> (r: Settings)
        ensures
            r@ == SettingsModel::initial(),
    {
        let r = Settings {
            theme: String::new(),
            opacity: Binary64 { bits: OPACITY_DEFAULT },
            zoom: Keyed::new(),
            colors: Keyed::new(),
            bounds: Keyed::new(),
        };
        assert(r@.colors =~= Map::<Seq<char>, Seq<char>>::empty());
        r
    }
}

/// The preferences are seen as their fields are, each map with the same keys.
pub proof fn law_settings_are_seen_by_their_fields(settings: Settings, key: Seq<char>)
    ensures
        settings@.theme == settings.theme@,
        settings@.opacity == settings.opacity,
        settings@.zoom == settings.zoom@,
        settings@.bounds == settings.bounds@,
        settings@.colors.contains_key(key) <==> settings.colors@.contains_key(key),
        settings.colors@.contains_key(key) ==> settings@.colors[key] == settings.colors@[key]@,
{
}

/// What is shown is what was chosen; before any choice it is the dark theme and a zoom of one.
pub proof fn law_choices_are_shown(settings: SettingsModel, key: Seq<char>)
    ensures
        settings.theme.len() > 0 ==> settings.shown_theme() == settings.theme,
        settings.theme.len() == 0 ==> settings.shown_theme() == "dark"@,
        settings.zoom.contains_key(key) ==> settings.zoom_of(key) == settings.zoom[key],
        !settings.zoom.contains_key(key) ==> settings.zoom_of(key).bits == 0x3ff0_0000_0000_0000,
{
}

} // verus!
