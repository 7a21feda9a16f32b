//! The user's persisted preferences.

use vstd::prelude::*;

verus! {

/// The global shortcut used until the user picks another.
pub const DEFAULT_HOTKEY: &'static str = "Control+Alt+Space";

/// The user's persisted preferences.
#[derive(Debug, Clone, PartialEq, Eq)]
pub struct Settings {
    /// Accelerator string of the record shortcut.
    pub hotkey: String,
    /// Whether fn + Shift is used in place of the shortcut.
    pub use_fn_hotkey: bool,
}

impl Default for Settings {
    fn default() -> (s: Settings)
        ensures
            s.hotkey@ == DEFAULT_HOTKEY@,
            !s.use_fn_hotkey,
    {
        Settings { hotkey: String::from_str(DEFAULT_HOTKEY), use_fn_hotkey: false }
    }
}

} // verus!
