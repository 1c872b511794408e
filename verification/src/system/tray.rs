//! The system tray: its events and the label of its "Read Selected" item.
use vstd::prelude::*;

use crate::hotkey::{format_hotkey_display, spec_format_hotkey_display, HotkeyConfig};
use crate::model::Platform;
use crate::text::{push_chars, to_chars};

verus! {

/// Events from the system tray menu.
#[derive(Debug, Clone, Copy, PartialEq, Eq, Structural)]
pub enum TrayEvent {
    ShowWindow,
    HideWindow,
    ReadSelected,
    Quit,
}

/// The label of the "Read Selected" menu item: the hotkey follows a tab
/// when one is configured.
pub fn read_selected_label(hotkey: Option<&HotkeyConfig>, platform: Platform) -> (r: String)
    ensures
        r@ == match hotkey {
            Some(h) => "Read Selected\t"@ + spec_format_hotkey_display(*h, platform),
            None => "Read Selected"@,
        },
{
    match hotkey {
        Some(h) => {
            let mut s = "Read Selected\t".to_owned();
            let d = format_hotkey_display(h, platform);
            push_chars(&mut s, to_chars(d.as_str()).as_slice());
            s
        },
        None => "Read Selected".to_owned(),
    }
}

} // verus!
