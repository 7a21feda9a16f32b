//! The app's shared state and the decisions taken on it: which model is
//! active and loaded, which record shortcut is bound, and whether fn + Shift
//! replaces it. Loading models, registering shortcuts and starting the
//! event tap are done by the caller, as each decision says.

use vstd::prelude::*;

use crate::error::TranscribeError;
use crate::hotkey::{same_shortcut, Shortcut};
use crate::model::{
    catalog, find_model, law_catalog_ids_resolve, model_index, unknown_model_message, ModelInfo,
    DEFAULT_MODEL_ID,
};
use crate::settings::Settings;
use crate::text::str_eq;

verus! {

/// Whether a transcription model can be used.
#[derive(Debug, Clone, Copy, PartialEq, Eq, Structural)]
pub enum ModelStatus {
    Ready,
    Missing,
}

impl ModelStatus {
    /// The status as the frontend names it.
    pub open spec fn name_chars(self) -> Seq<char> {
        match self {
            ModelStatus::Ready => "ready"@,
            ModelStatus::Missing => "missing"@,
        }
    }

    /// The status as the frontend names it.
    pub fn name(&self) -> (r: &'static str)
        ensures
            r@ == self.name_chars(),
    {
        match self {
            ModelStatus::Ready => "ready",
            ModelStatus::Missing => "missing",
        }
    }
}

/// What the caller does to switch the active model.
#[derive(Debug, Clone, Copy, PartialEq, Eq)]
pub enum ModelSwitch {
    /// The model is already active and loaded: nothing to do.
    AlreadyActive,
    /// The loaded engine has been dropped: make sure this model's file is on
    /// disk, load it, then call `finish_model_switch`.
    Load(ModelInfo),
}

/// What the caller does to bind a new record shortcut.
#[derive(Debug, Clone, PartialEq, Eq)]
pub enum HotkeyRebind {
    /// The shortcut is already bound: nothing changes.
    Unchanged,
    /// fn + Shift is in use: only remember the shortcut (`apply_hotkey`).
    RememberOnly,
    /// Unregister `old`, register the new shortcut, and on success call
    /// `apply_hotkey`.
    Rebind { old: Shortcut },
}

/// What the caller does to turn fn + Shift on or off. The state already
/// records the new mode when this is returned; neither stopping nor starting
/// the tap can fail.
#[derive(Debug, Clone, PartialEq, Eq)]
pub enum FnHotkeyChange {
    /// Already in the requested mode: nothing to do, nothing saved.
    Unchanged,
    /// Unregister `shortcut` and start the event tap.
    StartTap { shortcut: Shortcut },
    /// Stop the event tap and register `shortcut` again; a failure to
    /// register is reported, with the tap stopped.
    StopTap { shortcut: Shortcut },
}

/// What the caller binds at startup.
#[derive(Debug, Clone, PartialEq, Eq)]
pub enum StartupHotkey {
    /// Start the fn + Shift event tap.
    StartTap,
    /// Register this global shortcut.
    Register(Shortcut),
}

/// The app's shared state.
#[derive(Debug)]
pub struct AppState {
    active_model: String,
    model_loaded: bool,
    hotkey: Shortcut,
    fn_hotkey_enabled: bool,
    fn_supported: bool,
}

/// What an `AppState` holds.
pub struct AppStateView {
    /// Id of the model in use (or to be loaded).
    pub active_model: Seq<char>,
    /// Whether a speech engine is loaded.
    pub model_loaded: bool,
    /// The record shortcut.
    pub hotkey: Shortcut,
    /// Whether the fn + Shift event tap is used in place of the record shortcut.
    pub fn_hotkey_enabled: bool,
    /// Whether this platform has the fn + Shift event tap.
    pub fn_supported: bool,
}

impl View for AppState {
    type V = AppStateView;

    closed spec fn view(&self) -> AppStateView {
        AppStateView {
            active_model: self.active_model@,
            model_loaded: self.model_loaded,
            hotkey: self.hotkey,
            fn_hotkey_enabled: self.fn_hotkey_enabled,
            fn_supported: self.fn_supported,
        }
    }
}

/// `s` has model `id` active and loaded.
pub open spec fn settled_on(s: AppStateView, id: Seq<char>) -> bool {
    s.active_model == id && s.model_loaded
}

/// The text of the error for fn + Shift on a platform without it.
pub open spec fn fn_unsupported_message() -> Seq<char> {
    "fn hotkey is macOS-only"@
}

impl AppState {
    /// The event tap is only ever in use where the platform has it, and the
    /// active model is always one the catalog knows.
    #[verifier::type_invariant]
    spec fn well_formed(self) -> bool {
        &&& self.fn_hotkey_enabled ==> self.fn_supported
        &&& model_index(self.active_model@) is Some
    }

    /// Fresh state: the default model, nothing loaded, `hotkey` bound, the
    /// event tap off; `fn_supported` says whether the platform has it.
    pub fn new(hotkey: Shortcut, fn_supported: bool) -> (s: AppState)
        ensures
            s@.active_model == DEFAULT_MODEL_ID@,
            !s@.model_loaded,
            s@.hotkey == hotkey,
            !s@.fn_hotkey_enabled,
            s@.fn_supported == fn_supported,
    {
        proof {
            law_catalog_ids_resolve();
        }
        AppState {
            active_model: String::from_str(DEFAULT_MODEL_ID),
            model_loaded: false,
            hotkey,
            fn_hotkey_enabled: false,
            fn_supported,
        }
    }

    /// Id of the active model, always one the catalog knows.
    pub fn active_model(&self) -> (r: &str)
        ensures
            r@ == self@.active_model,
            model_index(r@) is Some,
    {
        proof {
            use_type_invariant(self);
        }
        self.active_model.as_str()
    }

    /// Whether a speech engine is loaded.
    pub fn model_loaded(&self) -> (r: bool)
        ensures
            r == self@.model_loaded,
    {
        self.model_loaded
    }

    /// The record shortcut.
    pub fn hotkey(&self) -> (r: &Shortcut)
        ensures
            *r == self@.hotkey,
    {
        &self.hotkey
    }

    /// Whether the fn + Shift event tap is in use; never where the platform
    /// lacks it.
    pub fn fn_hotkey_enabled(&self) -> (r: bool)
        ensures
            r == self@.fn_hotkey_enabled,
            r ==> self@.fn_supported,
    {
        proof {
            use_type_invariant(self);
        }
        self.fn_hotkey_enabled
    }

    /// Ready when an engine is loaded or the active model's file is on disk.
    pub fn model_status(&self, file_present: bool) -> (r: ModelStatus)
        ensures
            r == (if self@.model_loaded || file_present {
                ModelStatus::Ready
            } else {
                ModelStatus::Missing
            }),
    {
        if self.model_loaded || file_present {
            ModelStatus::Ready
        } else {
            ModelStatus::Missing
        }
    }

    /// Records that an engine for the active model has been loaded.
    pub fn mark_loaded(&mut self)
        ensures
            final(self)@.model_loaded,
            final(self)@.active_model == old(self)@.active_model,
            final(self)@.hotkey == old(self)@.hotkey,
            final(self)@.fn_hotkey_enabled == old(self)@.fn_hotkey_enabled,
            final(self)@.fn_supported == old(self)@.fn_supported,
    {
        proof {
            use_type_invariant(&*self);
        }
        self.model_loaded = true;
    }

    /// First half of switching to model `id`: an unknown id is refused with
    /// nothing changed; the active, loaded model needs nothing; otherwise the
    /// loaded engine is dropped and the model to load is returned.
    pub fn begin_model_switch(&mut self, id: &str) -> (r: Result<ModelSwitch, TranscribeError>)
        ensures
            model_index(id@) is None ==> (r matches Err(TranscribeError::Other(m)) && m@
                == unknown_model_message(id@)) && final(self)@ == old(self)@,
            model_index(id@) is Some && settled_on(old(self)@, id@) ==> r == Ok::<
                ModelSwitch,
                TranscribeError,
            >(ModelSwitch::AlreadyActive) && final(self)@ == old(self)@,
            model_index(id@) is Some && !settled_on(old(self)@, id@) ==> r == Ok::<
                ModelSwitch,
                TranscribeError,
            >(ModelSwitch::Load(catalog()[model_index(id@)->0])) && final(self)@
                == (AppStateView { model_loaded: false, ..old(self)@ }),
    {
        proof {
            use_type_invariant(&*self);
        }
        let info = match find_model(id) {
            Ok(m) => m,
            Err(e) => return Err(e),
        };
        if str_eq(self.active_model.as_str(), id) && self.model_loaded {
            return Ok(ModelSwitch::AlreadyActive);
        }
        self.model_loaded = false;
        Ok(ModelSwitch::Load(info))
    }

    /// Second half of switching: the model `id` is loaded and active.
    pub fn finish_model_switch(&mut self, id: &str)
        requires
            model_index(id@) is Some,
        ensures
            settled_on(final(self)@, id@),
            final(self)@.hotkey == old(self)@.hotkey,
            final(self)@.fn_hotkey_enabled == old(self)@.fn_hotkey_enabled,
            final(self)@.fn_supported == old(self)@.fn_supported,
    {
        proof {
            use_type_invariant(&*self);
        }
        self.active_model = String::from_str(id);
        self.model_loaded = true;
    }

    /// How to bind `new` as the record shortcut.
    pub fn begin_set_hotkey(&self, new: &Shortcut) -> (r: HotkeyRebind)
        ensures
            same_shortcut(self@.hotkey, *new) ==> r == HotkeyRebind::Unchanged,
            !same_shortcut(self@.hotkey, *new) && self@.fn_hotkey_enabled ==> r
                == HotkeyRebind::RememberOnly,
            !same_shortcut(self@.hotkey, *new) && !self@.fn_hotkey_enabled ==> (r matches HotkeyRebind::Rebind { old }
                && same_shortcut(old, self@.hotkey)),
    {
        if self.hotkey.same_as(new) {
            HotkeyRebind::Unchanged
        } else if self.fn_hotkey_enabled {
            HotkeyRebind::RememberOnly
        } else {
            HotkeyRebind::Rebind { old: self.hotkey.duplicate() }
        }
    }

    /// `new` is the record shortcut.
    pub fn apply_hotkey(&mut self, new: Shortcut)
        ensures
            final(self)@ == (AppStateView { hotkey: new, ..old(self)@ }),
    {
        proof {
            use_type_invariant(&*self);
        }
        self.hotkey = new;
    }

    /// The preferences to save, with `accel` as the shortcut's text.
    pub fn settings(&self, accel: String) -> (s: Settings)
        ensures
            s.hotkey == accel,
            s.use_fn_hotkey == self@.fn_hotkey_enabled,
    {
        Settings { hotkey: accel, use_fn_hotkey: self.fn_hotkey_enabled }
    }

    /// Turns the fn + Shift event tap on (`enabled`) or off: refused where the
    /// platform lacks it, nothing to do when already in that mode, and
    /// otherwise the mode is recorded and the caller starts or stops the tap.
    pub fn begin_fn_hotkey(&mut self, enabled: bool) -> (r: Result<FnHotkeyChange, TranscribeError>)
        ensures
            !old(self)@.fn_supported && enabled ==> (r matches Err(TranscribeError::Other(m))
                && m@ == fn_unsupported_message()) && final(self)@ == old(self)@,
            !(!old(self)@.fn_supported && enabled) && old(self)@.fn_hotkey_enabled == enabled
                ==> r == Ok::<FnHotkeyChange, TranscribeError>(FnHotkeyChange::Unchanged)
                && final(self)@ == old(self)@,
            old(self)@.fn_supported && enabled && !old(self)@.fn_hotkey_enabled ==> (r matches Ok(
                FnHotkeyChange::StartTap { shortcut },
            ) && same_shortcut(shortcut, old(self)@.hotkey)),
            old(self)@.fn_supported && !enabled && old(self)@.fn_hotkey_enabled ==> (r matches Ok(
                FnHotkeyChange::StopTap { shortcut },
            ) && same_shortcut(shortcut, old(self)@.hotkey)),
            r is Ok ==> final(self)@ == (AppStateView { fn_hotkey_enabled: enabled, ..old(self)@ }),
    {
        proof {
            use_type_invariant(&*self);
        }
        if !self.fn_supported && enabled {
            return Err(TranscribeError::Other(String::from_str("fn hotkey is macOS-only")));
        }
        if self.fn_hotkey_enabled == enabled {
            return Ok(FnHotkeyChange::Unchanged);
        }
        let shortcut = self.hotkey.duplicate();
        self.fn_hotkey_enabled = enabled;
        if enabled {
            Ok(FnHotkeyChange::StartTap { shortcut })
        } else {
            Ok(FnHotkeyChange::StopTap { shortcut })
        }
    }

    /// Applies the saved preferences at startup: the saved shortcut when it
    /// parsed (`parsed`), else the current one; the event tap when saved and
    /// the platform has it, else the standard shortcut.
    pub fn startup(&mut self, saved: &Settings, parsed: Option<Shortcut>) -> (r: StartupHotkey)
        ensures
            parsed matches Some(p) ==> final(self)@.hotkey == p,
            parsed is None ==> final(self)@.hotkey == old(self)@.hotkey,
            final(self)@.fn_hotkey_enabled == (old(self)@.fn_hotkey_enabled || (
            old(self)@.fn_supported && saved.use_fn_hotkey)),
            old(self)@.fn_supported && saved.use_fn_hotkey ==> r == StartupHotkey::StartTap,
            !(old(self)@.fn_supported && saved.use_fn_hotkey) ==> (r matches StartupHotkey::Register(s)
                && same_shortcut(s, final(self)@.hotkey)),
            final(self)@.active_model == old(self)@.active_model,
            final(self)@.model_loaded == old(self)@.model_loaded,
            final(self)@.fn_supported == old(self)@.fn_supported,
    {
        proof {
            use_type_invariant(&*self);
        }
        match parsed {
            Some(p) => {
                self.hotkey = p;
            },
            None => {},
        }
        if self.fn_supported && saved.use_fn_hotkey {
            self.fn_hotkey_enabled = true;
            StartupHotkey::StartTap
        } else {
            StartupHotkey::Register(self.hotkey.duplicate())
        }
    }
}

/// Being the same shortcut is an equivalence. So binding the shortcut that
/// is already bound changes nothing, and turning fn + Shift on and then off
/// registers again exactly the shortcut that was unregistered.
pub proof fn law_same_shortcut_is_equivalence(a: Shortcut, b: Shortcut, c: Shortcut)
    ensures
        same_shortcut(a, a),
        same_shortcut(a, b) ==> same_shortcut(b, a),
        same_shortcut(a, b) && same_shortcut(b, c) ==> same_shortcut(a, c),
{
}

} // verus!
