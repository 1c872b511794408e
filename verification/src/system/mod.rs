//! System interactions: the selected text, Natural Reading, screenshots,
//! the single-instance lock, the tray and the desktop session.
use vstd::prelude::*;

pub mod clipboard;
pub mod screenshot;
pub mod single_instance;
pub mod text_cleanup;
pub mod tray;

use crate::text;
use crate::text::{chars_eq, contains_chars, lower_chars, to_chars};

verus! {

/// Whether the session is Wayland under Hyprland: Wayland when
/// `WAYLAND_DISPLAY` is set or `XDG_SESSION_TYPE` is "wayland", Hyprland
/// when `HYPRLAND_INSTANCE_SIGNATURE` is set or `XDG_CURRENT_DESKTOP`
/// contains "hyprland" (both compared in lower case).
pub open spec fn spec_is_wayland_hyprland(
    wayland_display_set: bool,
    session_type: Option<String>,
    hyprland_signature_set: bool,
    current_desktop: Option<String>,
) -> bool {
    let wayland = wayland_display_set || match session_type {
        Some(t) => text::lower_seq(t@) == "wayland"@,
        None => false,
    };
    let hyprland = hyprland_signature_set || match current_desktop {
        Some(d) => text::contains_seq(text::lower_seq(d@), "hyprland"@),
        None => false,
    };
    wayland && hyprland
}

/// Whether the session is Wayland under Hyprland, from the session's
/// environment: whether `WAYLAND_DISPLAY` is set, `XDG_SESSION_TYPE`,
/// whether `HYPRLAND_INSTANCE_SIGNATURE` is set, and `XDG_CURRENT_DESKTOP`.
///
/// Lower case is ASCII lower case; no other character lowers to a letter of
/// "wayland" or "hyprland", so the comparisons agree with full Unicode
/// lower casing.
pub fn is_wayland_hyprland(
    wayland_display_set: bool,
    session_type: &Option<String>,
    hyprland_signature_set: bool,
    current_desktop: &Option<String>,
) -> (r: bool)
    ensures
        r == spec_is_wayland_hyprland(wayland_display_set, *session_type, hyprland_signature_set, *current_desktop),
{
    let wayland = wayland_display_set || match session_type {
        Some(t) => {
            let lowered = lower_chars(to_chars(t.as_str()).as_slice());
            let w = to_chars("wayland");
            chars_eq(lowered.as_slice(), w.as_slice())
        },
        None => false,
    };
    if !wayland {
        return false;
    }
    hyprland_signature_set || match current_desktop {
        Some(d) => {
            let lowered = lower_chars(to_chars(d.as_str()).as_slice());
            let h = to_chars("hyprland");
            contains_chars(lowered.as_slice(), h.as_slice())
        },
        None => false,
    }
}

} // verus!
