//! The global hotkey that opens the search window.

use vstd::prelude::*;

verus! {

/// Identifier under which the launcher registers its hotkey.
pub const HOTKEY_ID: i32 = 1;

/// Owner of the launcher's global hotkey registration.
pub struct HotkeyManager {
    hotkey_id: i32,
}

impl HotkeyManager {
    /// The identifier of the registered hotkey.
    pub closed spec fn id(&self) -> i32 {
        self.hotkey_id
    }

    /// A manager for the hotkey registered under `HOTKEY_ID`.
    pub fn new() -> (r: HotkeyManager)
        ensures
            r.id() == HOTKEY_ID,
    {
        HotkeyManager { hotkey_id: HOTKEY_ID }
    }

    /// The identifier of the registered hotkey.
    pub fn hotkey_id(&self) -> (r: i32)
        ensures
            r == self.id(),
    {
        self.hotkey_id
    }
}

} // verus!
