//! The settings store: one in-memory record whose every accepted
//! mutation immediately yields the full JSON text to be written to the
//! settings file, so that memory and disk never drift apart.  Locking
//! and the file write itself live outside the library; each operation
//! here is pure and returns the exact bytes the caller must persist.

use vstd::prelude::*;

use crate::codec::{load_settings, spec_load_settings};
use crate::chars::contains_seq;
use crate::hotkey::{shortcut_parse_ok, shortcut_string_of, HotkeyConfig};
use crate::render::{render_settings, spec_render_settings};
use crate::settings::{AppSettings, AppSettingsV, CleanupPromptSections};
use crate::validate::{spec_validate, validate_no_duplicate_shortcut, BindingSlot, ConflictError};

verus! {

/// Why a live hotkey update was rejected; in either case no state
/// changed.
#[derive(Debug)]
pub enum HotkeyUpdateError {
    /// The candidate duplicates another slot's binding.
    Conflict(ConflictError),
    /// The candidate's canonical text is not expressible in the
    /// platform shortcut grammar; the message carries the rendered
    /// text and the parser's complaint.
    Parse(String),
}

/// Manages the current settings record and produces its durable form.
pub struct SettingsManager {
    settings: AppSettings,
}

/// The record updated in exactly one slot.
pub open spec fn with_slot(s: AppSettingsV, slot: BindingSlot, h: crate::hotkey::HotkeyV) -> AppSettingsV {
    match slot {
        BindingSlot::Toggle => AppSettingsV { toggle_hotkey: h, ..s },
        BindingSlot::Hold => AppSettingsV { hold_hotkey: h, ..s },
        BindingSlot::PasteLast => AppSettingsV { paste_last_hotkey: h, ..s },
    }
}

impl SettingsManager {
    /// The record currently held.
    pub closed spec fn current(&self) -> AppSettingsV {
        self.settings@
    }

    /// Start from an already-built record.
    pub fn new(initial: AppSettings) -> (r: Self)
        ensures
            r.current() == initial@,
    {
        SettingsManager { settings: initial }
    }

    /// Start from the contents of the settings file; an absent or
    /// invalid file silently yields the fully-defaulted record.
    pub fn from_file_content(content: Option<&str>) -> (r: Self)
        ensures
            r.current() == spec_load_settings(
                match content {
                    Some(c) => Some(c@),
                    None => None,
                },
            ),
    {
        SettingsManager { settings: load_settings(content) }
    }

    /// Get a copy of the current settings.
    pub fn get(&self) -> (r: AppSettings)
        ensures
            r@ == self.current(),
    {
        self.settings.clone()
    }

    /// The full current record as the JSON text the settings file must
    /// hold.
    pub fn save(&self) -> (r: String)
        ensures
            r@ == spec_render_settings(self.current()),
    {
        render_settings(&self.settings)
    }

    /// Replace the whole record; the returned text must be written to
    /// the settings file.
    pub fn update(&mut self, new_settings: AppSettings) -> (r: String)
        ensures
            final(self).current() == new_settings@,
            r@ == spec_render_settings(new_settings@),
    {
        self.settings = new_settings;
        self.save()
    }

    /// Update the toggle hotkey.
    pub fn update_toggle_hotkey(&mut self, hotkey: HotkeyConfig) -> (r: String)
        ensures
            final(self).current() == (AppSettingsV { toggle_hotkey: hotkey@, ..old(self).current() }),
            r@ == spec_render_settings(final(self).current()),
    {
        self.settings.toggle_hotkey = hotkey;
        self.save()
    }

    /// Update the hold hotkey.
    pub fn update_hold_hotkey(&mut self, hotkey: HotkeyConfig) -> (r: String)
        ensures
            final(self).current() == (AppSettingsV { hold_hotkey: hotkey@, ..old(self).current() }),
            r@ == spec_render_settings(final(self).current()),
    {
        self.settings.hold_hotkey = hotkey;
        self.save()
    }

    /// Update the paste-last hotkey.
    pub fn update_paste_last_hotkey(&mut self, hotkey: HotkeyConfig) -> (r: String)
        ensures
            final(self).current() == (AppSettingsV {
                paste_last_hotkey: hotkey@,
                ..old(self).current()
            }),
            r@ == spec_render_settings(final(self).current()),
    {
        self.settings.paste_last_hotkey = hotkey;
        self.save()
    }

    /// Update the selected microphone.
    pub fn update_selected_mic(&mut self, mic_id: Option<String>) -> (r: String)
        ensures
            final(self).current() == (AppSettingsV {
                selected_mic_id: crate::settings::opt_str_view(mic_id),
                ..old(self).current()
            }),
            r@ == spec_render_settings(final(self).current()),
    {
        self.settings.selected_mic_id = mic_id;
        self.save()
    }

    /// Update the sound-enabled setting.
    pub fn update_sound_enabled(&mut self, enabled: bool) -> (r: String)
        ensures
            final(self).current() == (AppSettingsV {
                sound_enabled: enabled,
                ..old(self).current()
            }),
            r@ == spec_render_settings(final(self).current()),
    {
        self.settings.sound_enabled = enabled;
        self.save()
    }

    /// Update the cleanup prompt sections setting.
    pub fn update_cleanup_prompt_sections(
        &mut self,
        sections: Option<CleanupPromptSections>,
    ) -> (r: String)
        ensures
            final(self).current() == (AppSettingsV {
                cleanup_prompt_sections: crate::settings::opt_sections_view(sections),
                ..old(self).current()
            }),
            r@ == spec_render_settings(final(self).current()),
    {
        self.settings.cleanup_prompt_sections = sections;
        self.save()
    }

    /// Update the STT provider setting.
    pub fn update_stt_provider(&mut self, provider: Option<String>) -> (r: String)
        ensures
            final(self).current() == (AppSettingsV {
                stt_provider: crate::settings::opt_str_view(provider),
                ..old(self).current()
            }),
            r@ == spec_render_settings(final(self).current()),
    {
        self.settings.stt_provider = provider;
        self.save()
    }

    /// Update the LLM provider setting.
    pub fn update_llm_provider(&mut self, provider: Option<String>) -> (r: String)
        ensures
            final(self).current() == (AppSettingsV {
                llm_provider: crate::settings::opt_str_view(provider),
                ..old(self).current()
            }),
            r@ == spec_render_settings(final(self).current()),
    {
        self.settings.llm_provider = provider;
        self.save()
    }

    /// Update the auto-mute-audio setting.
    pub fn update_auto_mute_audio(&mut self, enabled: bool) -> (r: String)
        ensures
            final(self).current() == (AppSettingsV {
                auto_mute_audio: enabled,
                ..old(self).current()
            }),
            r@ == spec_render_settings(final(self).current()),
    {
        self.settings.auto_mute_audio = enabled;
        self.save()
    }

    /// Update the STT timeout setting.
    pub fn update_stt_timeout(&mut self, timeout_seconds: Option<u64>) -> (r: String)
        ensures
            final(self).current() == (AppSettingsV {
                stt_timeout_seconds: timeout_seconds,
                ..old(self).current()
            }),
            r@ == spec_render_settings(final(self).current()),
    {
        self.settings.stt_timeout_seconds = timeout_seconds;
        self.save()
    }

    /// The validated hotkey update: the candidate must not collide with
    /// either other slot and its canonical text must parse in the
    /// platform grammar; only then is the slot updated and the new file
    /// text returned.  A rejected candidate leaves the record unchanged.
    pub fn update_hotkey_validated(&mut self, slot: BindingSlot, hotkey: HotkeyConfig) -> (r:
        Result<String, HotkeyUpdateError>)
        ensures
            r is Ok <==> spec_validate(hotkey@, old(self).current(), slot) is Ok
                && shortcut_parse_ok(shortcut_string_of(hotkey@)),
            r is Ok ==> final(self).current() == with_slot(old(self).current(), slot, hotkey@)
                && r->Ok_0@ == spec_render_settings(final(self).current()),
            r is Err ==> final(self).current() == old(self).current(),
            r is Err ==> match r->Err_0 {
                HotkeyUpdateError::Conflict(c) => spec_validate(hotkey@, old(self).current(), slot)
                    == Err::<(), ConflictError>(c),
                HotkeyUpdateError::Parse(m) => spec_validate(hotkey@, old(self).current(), slot)
                    is Ok && !shortcut_parse_ok(shortcut_string_of(hotkey@)) && contains_seq(
                    m@,
                    shortcut_string_of(hotkey@),
                ),
            },
    {
        match validate_no_duplicate_shortcut(&hotkey, &self.settings, slot) {
            Ok(()) => {},
            Err(c) => {
                return Err(HotkeyUpdateError::Conflict(c));
            },
        }
        match hotkey.check_parseable() {
            Ok(()) => {},
            Err(m) => {
                return Err(HotkeyUpdateError::Parse(m));
            },
        }
        let text = match slot {
            BindingSlot::Toggle => self.update_toggle_hotkey(hotkey),
            BindingSlot::Hold => self.update_hold_hotkey(hotkey),
            BindingSlot::PasteLast => self.update_paste_last_hotkey(hotkey),
        };
        Ok(text)
    }

    /// Reset all three hotkeys to their built-in defaults; the `true`
    /// in the result signals that a restart is required for the change
    /// to take effect.
    pub fn reset_hotkeys_to_defaults(&mut self) -> (r: (bool, String))
        ensures
            final(self).current() == (AppSettingsV {
                toggle_hotkey: crate::hotkey::default_toggle_spec(),
                hold_hotkey: crate::hotkey::default_hold_spec(),
                paste_last_hotkey: crate::hotkey::default_paste_last_spec(),
                ..old(self).current()
            }),
            r.0 == true,
            r.1@ == spec_render_settings(final(self).current()),
    {
        self.settings.toggle_hotkey = HotkeyConfig::default_toggle();
        self.settings.hold_hotkey = HotkeyConfig::default_hold();
        self.settings.paste_last_hotkey = HotkeyConfig::default_paste_last();
        let text = self.save();
        (true, text)
    }
}


/// Replacing the record and then reading it back yields a record equal
/// to what was replaced: `update` leaves exactly its argument as the
/// current record, and `get` returns exactly the current record.
pub proof fn lemma_replace_then_get(
    after_update: SettingsManager,
    new_settings: AppSettings,
    got: AppSettings,
)
    requires
        after_update.current() == new_settings@,
        got@ == after_update.current(),
    ensures
        got@ == new_settings@,
{
}

} // verus!
