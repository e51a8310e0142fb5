//! What the global hotkeys ask for.

use vstd::prelude::*;

verus! {

/// One firing of a global hotkey.
#[derive(Debug, Clone, Copy, PartialEq, Eq, Structural)]
pub enum HotkeyEvent {
    /// Open the window that takes a new snippet.
    Add,
    /// Open the window that finds a stored snippet.
    Get,
}

impl HotkeyEvent {
    /// What the firing of the hotkey with the identifier `fired` asks for,
    /// given the identifiers under which the two hotkeys were registered.
    pub open spec fn meaning(fired: u32, add_hotkey: u32, get_hotkey: u32) -> Option<
        HotkeyEvent,
    > {
        if fired == add_hotkey {
            Some(HotkeyEvent::Add)
        } else if fired == get_hotkey {
            Some(HotkeyEvent::Get)
        } else {
            None
        }
    }

    /// The event for a firing of the hotkey with the identifier `fired`, or
    /// `None` if that is neither of the two registered hotkeys.
    pub fn of_hotkey(fired: u32, add_hotkey: u32, get_hotkey: u32) -> (event: Option<
        HotkeyEvent,
    >)
        ensures
            event == Self::meaning(fired, add_hotkey, get_hotkey),
    {
        if fired == add_hotkey {
            Some(HotkeyEvent::Add)
        } else if fired == get_hotkey {
            Some(HotkeyEvent::Get)
        } else {
            None
        }
    }
}

} // verus!
