//! Record-shortcut events: the standard global shortcut and the fn + Shift
//! combination watched through raw modifier-flag events.

use vstd::prelude::*;

use crate::text::str_eq;

verus! {

/// Modifier-flag bit for Shift on raw keyboard events.
pub const FLAG_SHIFT: u64 = 0x0002_0000;

/// Modifier-flag bit for the secondary fn key on raw keyboard events.
pub const FLAG_SECONDARY_FN: u64 = 0x0080_0000;

/// Event type of a modifier-flags change.
pub const EVENT_FLAGS_CHANGED: u32 = 12;

/// Start or end of a hold of the record shortcut.
#[derive(Debug, Clone, Copy, PartialEq, Eq, Structural)]
pub enum HotkeyEvent {
    Down,
    Up,
}

impl HotkeyEvent {
    /// The name of the frontend event for this edge.
    pub open spec fn name_chars(self) -> Seq<char> {
        match self {
            HotkeyEvent::Down => "hotkey:down"@,
            HotkeyEvent::Up => "hotkey:up"@,
        }
    }

    /// The name of the frontend event for this edge.
    pub fn name(&self) -> (r: &'static str)
        ensures
            r@ == self.name_chars(),
    {
        match self {
            HotkeyEvent::Down => "hotkey:down",
            HotkeyEvent::Up => "hotkey:up",
        }
    }
}

/// A global shortcut: its modifier bits and the name of its key, which
/// identify it, and the text it is shown as.
#[derive(Debug, Clone, PartialEq, Eq)]
pub struct Shortcut {
    pub mods: u32,
    pub key: String,
    pub text: String,
}

/// Two shortcuts are the same key with the same modifiers.
pub open spec fn same_shortcut(a: Shortcut, b: Shortcut) -> bool {
    a.mods == b.mods && a.key@ == b.key@
}

impl Shortcut {
    /// Whether `self` and `other` are the same key with the same modifiers.
    pub fn same_as(&self, other: &Shortcut) -> (r: bool)
        ensures
            r == same_shortcut(*self, *other),
    {
        self.mods == other.mods && str_eq(self.key.as_str(), other.key.as_str())
    }

    /// A copy with the same modifiers, key and text.
    pub fn duplicate(&self) -> (r: Shortcut)
        ensures
            r.mods == self.mods,
            r.key@ == self.key@,
            r.text@ == self.text@,
    {
        Shortcut {
            mods: self.mods,
            key: String::from_str(self.key.as_str()),
            text: String::from_str(self.text.as_str()),
        }
    }
}

/// The frontend event for a press or release of `shortcut` while `current`
/// is the record shortcut: none for any other shortcut.
pub fn shortcut_event(current: &Shortcut, shortcut: &Shortcut, pressed: bool) -> (r: Option<
    HotkeyEvent,
>)
    ensures
        !same_shortcut(*current, *shortcut) ==> r is None,
        same_shortcut(*current, *shortcut) ==> r == Some(
            if pressed {
                HotkeyEvent::Down
            } else {
                HotkeyEvent::Up
            },
        ),
{
    if !current.same_as(shortcut) {
        return None;
    }
    if pressed {
        Some(HotkeyEvent::Down)
    } else {
        Some(HotkeyEvent::Up)
    }
}

/// fn and Shift are both held according to the modifier flags.
pub open spec fn fn_combo_held(flags: u64) -> bool {
    (flags & FLAG_SHIFT) != 0 && (flags & FLAG_SECONDARY_FN) != 0
}

/// The edge, if any, between a previous hold state and the current flags.
pub open spec fn combo_edge(was_held: bool, flags: u64) -> Option<HotkeyEvent> {
    if fn_combo_held(flags) && !was_held {
        Some(HotkeyEvent::Down)
    } else if !fn_combo_held(flags) && was_held {
        Some(HotkeyEvent::Up)
    } else {
        None
    }
}

/// Follows the fn + Shift combination through modifier-flag events.
pub struct FnComboTracker {
    pub was_held: bool,
}

impl FnComboTracker {
    /// A tracker that has seen no event: the combination is not held.
    pub fn new() -> (t: FnComboTracker)
        ensures
            !t.was_held,
    {
        FnComboTracker { was_held: false }
    }

    /// Handles one raw event of type `ty` carrying modifier `flags`: events
    /// other than flag changes are ignored; a flag change yields `Down` when
    /// the combination starts to be held and `Up` when it stops.
    pub fn on_event(&mut self, ty: u32, flags: u64) -> (r: Option<HotkeyEvent>)
        ensures
            ty != EVENT_FLAGS_CHANGED ==> r is None && final(self).was_held == old(self).was_held,
            ty == EVENT_FLAGS_CHANGED ==> r == combo_edge(old(self).was_held, flags)
                && final(self).was_held == fn_combo_held(flags),
    {
        if ty != EVENT_FLAGS_CHANGED {
            return None;
        }
        let held = (flags & FLAG_SHIFT) != 0 && (flags & FLAG_SECONDARY_FN) != 0;
        let was = self.was_held;
        self.was_held = held;
        if held && !was {
            Some(HotkeyEvent::Down)
        } else if !held && was {
            Some(HotkeyEvent::Up)
        } else {
            None
        }
    }
}

/// The hold state and the events after a run of flag-change events.
pub open spec fn combo_run(was_held: bool, flags: Seq<u64>) -> (bool, Seq<HotkeyEvent>)
    decreases flags.len(),
{
    if flags.len() == 0 {
        (was_held, Seq::empty())
    } else {
        let (w, evs) = combo_run(was_held, flags.drop_last());
        let f = flags.last();
        (
            fn_combo_held(f),
            match combo_edge(w, f) {
                Some(e) => evs.push(e),
                None => evs,
            },
        )
    }
}

/// The event expected at position `i` of a run that starts with the
/// combination held (`was_held`) or not: the edges alternate.
pub open spec fn alternating_event(was_held: bool, i: int) -> HotkeyEvent {
    if (i % 2 == 0) != was_held {
        HotkeyEvent::Down
    } else {
        HotkeyEvent::Up
    }
}

/// Down and Up alternate over any run of flag changes, starting with Down
/// when the combination was not held (Up when it was); and the final hold
/// state has flipped once per emitted event.
pub proof fn law_fn_combo_events_alternate(was_held: bool, flags: Seq<u64>)
    ensures
        ({
            let (w, evs) = combo_run(was_held, flags);
            &&& forall|i: int| 0 <= i < evs.len() ==> #[trigger] evs[i] == alternating_event(was_held, i)
            &&& w == ((evs.len() % 2 == 1) != was_held)
        }),
    decreases flags.len(),
{
    if flags.len() > 0 {
        law_fn_combo_events_alternate(was_held, flags.drop_last());
    }
}

} // verus!

verus! {

/// The combination counts as held whenever both the Shift bit (0x20000) and
/// the secondary-fn bit (0x800000) are set, whatever other modifier bits are
/// set with them, and never when either is clear.
pub proof fn law_combo_held_ignores_other_bits(other: u64, flags: u64)
    ensures
        fn_combo_held(other | 0x0002_0000u64 | 0x0080_0000u64),
        flags & 0x0002_0000u64 == 0 ==> !fn_combo_held(flags),
        flags & 0x0080_0000u64 == 0 ==> !fn_combo_held(flags),
{
    let f = other | 0x0002_0000u64 | 0x0080_0000u64;
    assert(f & 0x0002_0000u64 != 0 && f & 0x0080_0000u64 != 0) by (bit_vector)
        requires
            f == other | 0x0002_0000u64 | 0x0080_0000u64,
    ;
}

} // verus!
