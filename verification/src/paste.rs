//! Pasting a transcript into the focused app: put it on the clipboard, send
//! Cmd+V, and put back what the clipboard held before.

use vstd::prelude::*;

use crate::error::TranscribeError;

verus! {

/// Pause between filling the clipboard and sending the keystroke.
pub const COPY_TO_KEYSTROKE_MS: u64 = 80;

/// Pause between the keystroke and restoring the clipboard.
pub const KEYSTROKE_TO_RESTORE_MS: u64 = 200;

/// Virtual key code of 'v' on a US layout.
pub const KEY_V: u16 = 9;

/// One step of a paste, performed in order by the caller. A failure to set
/// the clipboard ends the paste at once (the clipboard is untouched); a
/// failed keystroke is reported only after the remaining steps, so the saved
/// clipboard text is still put back.
#[derive(Debug, Clone, PartialEq, Eq)]
pub enum PasteStep {
    /// Put this text on the clipboard; a failure aborts the paste.
    SetClipboard(String),
    /// Sleep this many milliseconds.
    Wait(u64),
    /// Send the paste keystroke; a failure is reported after the later steps.
    SendKeystroke,
    /// Put this text back on the clipboard; a failure is ignored.
    Restore(String),
}

/// The steps that paste `text`, where `saved` is the text the clipboard held
/// (`None` when it held none, or something other than text): nothing at all
/// for empty text; otherwise set, wait, keystroke, wait, and restore when
/// there is something to restore.
pub fn paste_steps(text: &str, saved: Option<String>) -> (r: Vec<PasteStep>)
    ensures
        text@.len() == 0 ==> r.len() == 0,
        text@.len() != 0 ==> {
            &&& r.len() == (if saved is Some {
                5int
            } else {
                4int
            })
            &&& r@[0] matches PasteStep::SetClipboard(t) && t@ == text@
            &&& r@[1] == PasteStep::Wait(COPY_TO_KEYSTROKE_MS)
            &&& r@[2] == PasteStep::SendKeystroke
            &&& r@[3] == PasteStep::Wait(KEYSTROKE_TO_RESTORE_MS)
            &&& saved matches Some(prev) ==> r@[4] == PasteStep::Restore(prev)
        },
{
    let mut steps: Vec<PasteStep> = Vec::new();
    if text.is_empty() {
        return steps;
    }
    steps.push(PasteStep::SetClipboard(String::from_str(text)));
    steps.push(PasteStep::Wait(COPY_TO_KEYSTROKE_MS));
    steps.push(PasteStep::SendKeystroke);
    steps.push(PasteStep::Wait(KEYSTROKE_TO_RESTORE_MS));
    match saved {
        Some(prev) => steps.push(PasteStep::Restore(prev)),
        None => {},
    }
    steps
}

/// One synthetic key event.
#[derive(Debug, Clone, Copy, PartialEq, Eq, Structural)]
pub struct KeyStroke {
    pub keycode: u16,
    pub key_down: bool,
    /// With the Command modifier flag set.
    pub command: bool,
}

/// The events of Cmd+V: 'v' down then up, both with Command held.
pub fn paste_key_events() -> (r: [KeyStroke; 2])
    ensures
        r[0] == (KeyStroke { keycode: KEY_V, key_down: true, command: true }),
        r[1] == (KeyStroke { keycode: KEY_V, key_down: false, command: true }),
{
    [
        KeyStroke { keycode: KEY_V, key_down: true, command: true },
        KeyStroke { keycode: KEY_V, key_down: false, command: true },
    ]
}

/// The text of the error on platforms without synthetic keystrokes.
pub open spec fn keystroke_unsupported_message() -> Seq<char> {
    "paste keystroke not implemented for this platform"@
}

/// Sending the paste keystroke where the platform offers no way to
/// synthesize one: always refused.
pub fn send_paste_keystroke() -> (r: Result<(), TranscribeError>)
    ensures
        r matches Err(TranscribeError::Other(m)) && m@ == keystroke_unsupported_message(),
{
    Err(
        TranscribeError::Other(
            String::from_str("paste keystroke not implemented for this platform"),
        ),
    )
}

} // verus!
