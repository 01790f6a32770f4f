//! The windows: how one is made, and where its page may go.

use vstd::prelude::*;

use crate::binary64::Binary64;
use crate::data::{AppData, AppModel};
use crate::dock::{least, least_size, tracks_bounds, DEFAULT_HEIGHT, DEFAULT_WIDTH};
use crate::effect::{seen, Effect, Size, Tint};
use crate::notes::{close_requested, window_gone};
use crate::prefs::{chosen_theme, held_zoom, theme_tint, tint_of};
use crate::push::PushModel;
use crate::settings::Bounds;
use crate::slot::{
    is_slot, label, labelled_slot, slot_key, slot_key_text, window_label, window_slot,
};
use crate::text::{decimal, decimal_text, same_text};

verus! {

/// How to make the window of a slot.
#[derive(Debug, PartialEq, Eq)]
pub struct WindowPlan {
    pub label: String,
    pub url: String,
    pub title: String,
    pub width: Binary64,
    pub height: Binary64,
    /// The least size that the window can have.
    pub least: Size,
    pub resizable: bool,
    pub decorations: bool,
    pub transparent: bool,
    pub always_on_top: bool,
    pub skip_taskbar: bool,
    pub visible: bool,
    /// Where the window was the last time; the right top of the screen where this is not
    /// known.
    pub bounds: Option<Bounds>,
    pub tint: Tint,
    pub zoom: Binary64,
}

/// What a `WindowPlan` stands for.
pub struct WindowModel {
    pub label: Seq<char>,
    pub url: Seq<char>,
    pub title: Seq<char>,
    pub width: Binary64,
    pub height: Binary64,
    pub least: Size,
    pub resizable: bool,
    pub decorations: bool,
    pub transparent: bool,
    pub always_on_top: bool,
    pub skip_taskbar: bool,
    pub visible: bool,
    pub bounds: Option<Bounds>,
    pub tint: Tint,
    pub zoom: Binary64,
}

impl View for WindowPlan {
    type V = WindowModel;

    open spec fn view(&self) -> WindowModel {
        WindowModel {
            label: self.label@,
            url: self.url@,
            title: self.title@,
            width: self.width,
            height: self.height,
            least: self.least,
            resizable: self.resizable,
            decorations: self.decorations,
            transparent: self.transparent,
            always_on_top: self.always_on_top,
            skip_taskbar: self.skip_taskbar,
            visible: self.visible,
            bounds: self.bounds,
            tint: self.tint,
            zoom: self.zoom,
        }
    }
}

impl AppModel {
    /// Where the window of a slot was the last time.
    pub open spec fn saved_bounds(self, slot: u8) -> Option<Bounds> {
        if self.settings.bounds.contains_key(slot_key(slot)) {
            Some(self.settings.bounds[slot_key(slot)])
        } else {
            None
        }
    }

    /// How to make the window of a slot: without a frame of the system's, above all others,
    /// and not in the task bar.
    pub open spec fn window(self, slot: u8) -> WindowModel {
        let bounds = self.saved_bounds(slot);
        WindowModel {
            label: label(slot),
            url: "index.html?slot="@ + decimal(slot as nat),
            title: "lite-notes "@ + decimal(slot as nat),
            width: match bounds {
                Some(b) => b.width,
                None => Binary64 { bits: DEFAULT_WIDTH },
            },
            height: match bounds {
                Some(b) => b.height,
                None => Binary64 { bits: DEFAULT_HEIGHT },
            },
            least: least_size(),
            resizable: true,
            decorations: false,
            transparent: true,
            always_on_top: true,
            skip_taskbar: true,
            visible: true,
            bounds,
            tint: tint_of(self.settings.shown_theme()),
            zoom: self.settings.zoom_of(slot_key(slot)),
        }
    }
}

/// How to show the window of a slot.
#[derive(Debug, PartialEq, Eq)]
pub enum WindowAction {
    /// There is a window with this label: give it the focus.
    Focus(String),
    /// Make the window.
    Create(WindowPlan),
}

/// Decides how to show the window of a slot.
pub fn ensure_window(data: &AppData, slot: u8, has_window: bool) -> (r: WindowAction)
    ensures
        match r {
            WindowAction::Focus(name) => has_window && name@ == label(slot),
            WindowAction::Create(plan) => !has_window && plan@ == data@.window(slot),
        },
{
    let name = window_label(slot);
    if has_window {
        return WindowAction::Focus(name);
    }
    let key = slot_key_text(slot);
    let bounds: Option<Bounds> = match data.settings.bounds.get(key.as_str()) {
        Some(b) => Some(*b),
        None => None,
    };
    let (width, height) = match bounds {
        Some(b) => (b.width, b.height),
        None => (Binary64 { bits: DEFAULT_WIDTH }, Binary64 { bits: DEFAULT_HEIGHT }),
    };
    let theme = data.settings.shown_theme();
    WindowAction::Create(
        WindowPlan {
            label: name,
            url: "index.html?slot=".to_owned().concat(decimal_text(slot as u64).as_str()),
            title: "lite-notes ".to_owned().concat(decimal_text(slot as u64).as_str()),
            width,
            height,
            least: least(),
            resizable: true,
            decorations: false,
            transparent: true,
            always_on_top: true,
            skip_taskbar: true,
            visible: true,
            bounds,
            tint: theme_tint(theme.as_str()),
            zoom: data.settings.zoom_of(key.as_str()),
        },
    )
}

/// This is the application's own origin. On some systems its pages come under a scheme of
/// their own, on others under a host of their own.
pub open spec fn own_origin(scheme: Seq<char>, host: Seq<char>) -> bool {
    ||| (scheme == "tauri"@ && host == "localhost"@)
    ||| ((scheme == "http"@ || scheme == "https"@) && host == "tauri.localhost"@)
}

/// Whether the page of a window may go to a URL with this scheme and this host. Where the URL
/// names a port other than that of its scheme, the port stands behind the host, with a colon
/// between; where it has no host, `host` is empty. There is no way back from a foreign page,
/// so only the application's own origin may load.
pub fn allows_navigation(scheme: &str, host: &str) -> (r: bool)
    ensures
        r == own_origin(scheme@, host@),
{
    (same_text(scheme, "tauri") && same_text(host, "localhost")) || ((same_text(scheme, "http")
        || same_text(scheme, "https")) && same_text(host, "tauri.localhost"))
}

/// A window comes back as it was left: at the place and in the size that it was last moved
/// to, in the zoom and the theme that were last chosen.
pub proof fn law_windows_come_back_as_left(
    data: AppModel,
    slot: u8,
    bounds: Bounds,
    factor: Binary64,
    theme: Seq<char>,
    now: u128,
)
    requires
        is_slot(slot),
    ensures
        data.tracks(slot) ==> {
            let window = data.moved(slot, bounds, now).window(slot);
            &&& window.bounds == Some(bounds)
            &&& window.width == bounds.width
            &&& window.height == bounds.height
        },
        data.zoomed(slot, factor, now).window(slot).zoom == held_zoom(factor),
        data.with_theme(chosen_theme(theme)).window(slot).tint == tint_of(theme),
{
    reveal_strlit("dark");
    reveal_strlit("light");
    assert("dark"@.len() == 4 && "light"@.len() == 5);
}

/// Closing a note, pushing another one, docking and undocking change nothing about how its
/// window is made.
pub proof fn law_notes_leave_windows_alone(
    data: AppModel,
    slot: u8,
    other: u8,
    close_window: bool,
    geometry: Option<Bounds>,
    request: PushModel,
    canonical: Option<Seq<char>>,
    file_name: Option<Seq<char>>,
    now: u64,
)
    ensures
        data.cleaned(slot, close_window).window(other) == data.window(other),
        data.pushed(request, canonical, file_name, now).window(other) == data.window(other),
        data.ended().window(other) == data.window(other),
        data.docked(slot, true, geometry).window(other) == data.window(other),
        data.undocked(slot).window(other) == data.window(other),
{
}

/// What has happened to a window.
pub enum WindowEvent {
    /// It is about to be closed.
    CloseRequested,
    /// It is gone.
    Destroyed,
    /// It has been moved or resized.
    Moved,
}

/// What follows on what has happened to a window.
#[derive(Debug, PartialEq, Eq)]
pub enum WindowReaction {
    Nothing,
    /// Do this, in order.
    Do(Vec<Effect>),
    /// Find out where the window of this slot is.
    Measure(u8),
}

/// Something has happened to the window with this label. Windows that belong to no slot do
/// not count.
pub fn window_event(data: &mut AppData, label: &str, event: WindowEvent) -> (r: WindowReaction)
    ensures
        match labelled_slot(label@) {
            Some(slot) => match event {
                WindowEvent::CloseRequested => {
                    &&& final(data)@ == old(data)@.cleaned(slot, false).with_closing(slot, true)
                    &&& r matches WindowReaction::Do(effects) && seen(effects@) == old(
                        data,
                    )@.cleaning(slot, false)
                },
                WindowEvent::Destroyed => {
                    &&& final(data)@ == old(data)@.with_closing(slot, false)
                    &&& r is Nothing
                },
                WindowEvent::Moved => {
                    &&& final(data)@ == old(data)@
                    &&& if old(data)@.tracks(slot) {
                        r == WindowReaction::Measure(slot)
                    } else {
                        r is Nothing
                    }
                },
            },
            None => final(data)@ == old(data)@ && r is Nothing,
        },
        old(data)@.inv() ==> final(data)@.inv(),
{
    let slot: u8 = match window_slot(label) {
        Some(slot) => slot,
        None => {
            return WindowReaction::Nothing;
        },
    };
    match event {
        WindowEvent::CloseRequested => WindowReaction::Do(close_requested(data, slot)),
        WindowEvent::Destroyed => {
            window_gone(data, slot);
            WindowReaction::Nothing
        },
        WindowEvent::Moved => {
            if tracks_bounds(data, slot) {
                WindowReaction::Measure(slot)
            } else {
                WindowReaction::Nothing
            }
        },
    }
}

/// A plan for a window is seen as its fields are.
pub proof fn law_plans_are_seen_by_their_fields(plan: WindowPlan)
    ensures
        plan@.label == plan.label@,
        plan@.url == plan.url@,
        plan@.title == plan.title@,
        plan@.width == plan.width,
        plan@.height == plan.height,
        plan@.least == plan.least,
        plan@.resizable == plan.resizable,
        plan@.decorations == plan.decorations,
        plan@.transparent == plan.transparent,
        plan@.always_on_top == plan.always_on_top,
        plan@.skip_taskbar == plan.skip_taskbar,
        plan@.visible == plan.visible,
        plan@.bounds == plan.bounds,
        plan@.tint == plan.tint,
        plan@.zoom == plan.zoom,
{
}

/// A new window belongs to its slot by label, page and title. It can be resized down to 240 by
/// 180, has no frame of the system's, and stays above all others; what the slot shows makes no
/// difference.
pub proof fn law_windows_belong_to_their_slots(data: AppModel, slot: u8)
    ensures
        data.window(slot).label == "note-"@ + decimal(slot as nat),
        data.window(slot).url == "index.html?slot="@ + decimal(slot as nat),
        data.window(slot).title == "lite-notes "@ + decimal(slot as nat),
        data.window(slot).least.width.bits == 0x406e_0000_0000_0000,
        data.window(slot).least.height.bits == 0x4066_8000_0000_0000,
        data.window(slot).resizable,
        !data.window(slot).decorations,
        data.window(slot).transparent,
        data.window(slot).always_on_top,
        data.window(slot).skip_taskbar,
        data.window(slot).visible,
{
}

/// A new window has the place and the size that are kept for its slot, or 320 by 240 where none
/// are; the zoom that is kept for its slot, or one; and the tint of the chosen theme, or of the
/// dark one.
pub proof fn law_windows_have_what_is_kept(data: AppModel, slot: u8, key: Seq<char>)
    requires
        key == slot_key(slot),
    ensures
        data.settings.bounds.contains_key(key) ==> {
            &&& data.window(slot).bounds == Some(data.settings.bounds[key])
            &&& data.window(slot).width == data.settings.bounds[key].width
            &&& data.window(slot).height == data.settings.bounds[key].height
        },
        !data.settings.bounds.contains_key(key) ==> {
            &&& data.window(slot).bounds is None
            &&& data.window(slot).width.bits == 0x4074_0000_0000_0000
            &&& data.window(slot).height.bits == 0x406e_0000_0000_0000
        },
        data.settings.zoom.contains_key(key) ==> data.window(slot).zoom == data.settings.zoom[key],
        !data.settings.zoom.contains_key(key) ==> data.window(slot).zoom.bits
            == 0x3ff0_0000_0000_0000,
        data.settings.theme == "light"@ ==> data.window(slot).tint == (Tint {
            red: 245,
            green: 245,
            blue: 245,
            alpha: 160,
        }),
        data.settings.theme != "light"@ ==> data.window(slot).tint == (Tint {
            red: 16,
            green: 16,
            blue: 16,
            alpha: 160,
        }),
{
    reveal_strlit("dark");
    reveal_strlit("light");
    assert("dark"@.len() == 4 && "light"@.len() == 5);
}

/// Pages stay with the application: under the scheme `tauri` on `localhost`, or under `http` or
/// `https` on `tauri.localhost`, and nowhere else.
pub proof fn law_pages_stay_with_the_application(scheme: Seq<char>, host: Seq<char>)
    ensures
        scheme == "tauri"@ ==> (own_origin(scheme, host) <==> host == "localhost"@),
        scheme == "http"@ || scheme == "https"@ ==> (own_origin(scheme, host) <==> host
            == "tauri.localhost"@),
        scheme != "tauri"@ && scheme != "http"@ && scheme != "https"@ ==> !own_origin(scheme, host),
        host.len() == 0 ==> !own_origin(scheme, host),
{
    reveal_strlit("tauri");
    reveal_strlit("http");
    reveal_strlit("https");
    reveal_strlit("localhost");
    reveal_strlit("tauri.localhost");
    assert("tauri"@[0] == 't' && "http"@[0] == 'h' && "https"@[0] == 'h');
    assert("localhost"@.len() == 9 && "tauri.localhost"@.len() == 15);
}

} // verus!
