//! The persisted settings record: three hotkey bindings, audio and
//! provider choices, and the optional cleanup-prompt customization.
//! Every field has a defined default so that a missing or
//! partially-present persisted file always yields a fully-populated
//! record.

use vstd::prelude::*;

use crate::hotkey::{
    default_hold_spec, default_paste_last_spec, default_toggle_spec, HotkeyConfig, HotkeyV,
};

verus! {

/// Configuration for a single prompt section.
#[derive(Debug, PartialEq, Eq)]
pub struct PromptSection {
    /// Whether this section is enabled.
    pub enabled: bool,
    /// Custom content (`None` = use built-in default text).
    pub content: Option<String>,
}

/// Mathematical value of a [`PromptSection`].
pub ghost struct PromptSectionV {
    pub enabled: bool,
    pub content: Option<Seq<char>>,
}

/// Configuration for all cleanup prompt sections.
#[derive(Debug, PartialEq, Eq)]
pub struct CleanupPromptSections {
    /// Main prompt section (core rules, punctuation, new lines).
    pub main: PromptSection,
    /// Advanced features section (backtrack corrections, list formatting).
    pub advanced: PromptSection,
    /// Personal dictionary section (word mappings).
    pub dictionary: PromptSection,
}

/// Mathematical value of a [`CleanupPromptSections`].
pub ghost struct CleanupPromptSectionsV {
    pub main: PromptSectionV,
    pub advanced: PromptSectionV,
    pub dictionary: PromptSectionV,
}

/// Application settings that are persisted to disk.
#[derive(Debug, PartialEq, Eq)]
pub struct AppSettings {
    /// Hotkey for toggle recording mode.
    pub toggle_hotkey: HotkeyConfig,
    /// Hotkey for hold-to-record mode.
    pub hold_hotkey: HotkeyConfig,
    /// Hotkey for paste last transcription.
    pub paste_last_hotkey: HotkeyConfig,
    /// Selected microphone device ID (`None` = system default).
    pub selected_mic_id: Option<String>,
    /// Whether sound feedback is enabled.
    pub sound_enabled: bool,
    /// Cleanup prompt sections configuration.
    pub cleanup_prompt_sections: Option<CleanupPromptSections>,
    /// Selected STT provider (`None` = use server default).
    pub stt_provider: Option<String>,
    /// Selected LLM provider (`None` = use server default).
    pub llm_provider: Option<String>,
    /// Whether to automatically mute system audio during recording.
    pub auto_mute_audio: bool,
    /// STT timeout in whole seconds (`None` = use server default).
    pub stt_timeout_seconds: Option<u64>,
}

/// Mathematical value of an [`AppSettings`] record.
pub ghost struct AppSettingsV {
    pub toggle_hotkey: HotkeyV,
    pub hold_hotkey: HotkeyV,
    pub paste_last_hotkey: HotkeyV,
    pub selected_mic_id: Option<Seq<char>>,
    pub sound_enabled: bool,
    pub cleanup_prompt_sections: Option<CleanupPromptSectionsV>,
    pub stt_provider: Option<Seq<char>>,
    pub llm_provider: Option<Seq<char>>,
    pub auto_mute_audio: bool,
    pub stt_timeout_seconds: Option<u64>,
}

pub open spec fn opt_str_view(o: Option<String>) -> Option<Seq<char>> {
    match o {
        Some(s) => Some(s@),
        None => None,
    }
}

impl View for PromptSection {
    type V = PromptSectionV;

    open spec fn view(&self) -> PromptSectionV {
        PromptSectionV { enabled: self.enabled, content: opt_str_view(self.content) }
    }
}

impl View for CleanupPromptSections {
    type V = CleanupPromptSectionsV;

    open spec fn view(&self) -> CleanupPromptSectionsV {
        CleanupPromptSectionsV {
            main: self.main@,
            advanced: self.advanced@,
            dictionary: self.dictionary@,
        }
    }
}

pub open spec fn opt_sections_view(
    o: Option<CleanupPromptSections>,
) -> Option<CleanupPromptSectionsV> {
    match o {
        Some(s) => Some(s@),
        None => None,
    }
}

impl View for AppSettings {
    type V = AppSettingsV;

    open spec fn view(&self) -> AppSettingsV {
        AppSettingsV {
            toggle_hotkey: self.toggle_hotkey@,
            hold_hotkey: self.hold_hotkey@,
            paste_last_hotkey: self.paste_last_hotkey@,
            selected_mic_id: opt_str_view(self.selected_mic_id),
            sound_enabled: self.sound_enabled,
            cleanup_prompt_sections: opt_sections_view(self.cleanup_prompt_sections),
            stt_provider: opt_str_view(self.stt_provider),
            llm_provider: opt_str_view(self.llm_provider),
            auto_mute_audio: self.auto_mute_audio,
            stt_timeout_seconds: self.stt_timeout_seconds,
        }
    }
}

/// Default of a prompt section: enabled, built-in text.
pub open spec fn default_prompt_section_spec() -> PromptSectionV {
    PromptSectionV { enabled: true, content: None }
}

/// Defaults of the cleanup sections: `main` and `advanced` enabled,
/// `dictionary` disabled, all with built-in text.
pub open spec fn default_cleanup_sections_spec() -> CleanupPromptSectionsV {
    CleanupPromptSectionsV {
        main: PromptSectionV { enabled: true, content: None },
        advanced: PromptSectionV { enabled: true, content: None },
        dictionary: PromptSectionV { enabled: false, content: None },
    }
}

/// The fully-defaulted settings record.
pub open spec fn default_settings_spec() -> AppSettingsV {
    AppSettingsV {
        toggle_hotkey: default_toggle_spec(),
        hold_hotkey: default_hold_spec(),
        paste_last_hotkey: default_paste_last_spec(),
        selected_mic_id: None,
        sound_enabled: true,
        cleanup_prompt_sections: None,
        stt_provider: None,
        llm_provider: None,
        auto_mute_audio: false,
        stt_timeout_seconds: None,
    }
}

/// Default toggle-recording hotkey.
pub fn default_toggle_hotkey() -> (h: HotkeyConfig)
    ensures
        h@ == default_toggle_spec(),
{
    HotkeyConfig::default_toggle()
}

/// Default hold-to-record hotkey.
pub fn default_hold_hotkey() -> (h: HotkeyConfig)
    ensures
        h@ == default_hold_spec(),
{
    HotkeyConfig::default_hold()
}

/// Default paste-last-transcription hotkey.
pub fn default_paste_last_hotkey() -> (h: HotkeyConfig)
    ensures
        h@ == default_paste_last_spec(),
{
    HotkeyConfig::default_paste_last()
}

/// Sound feedback is on by default.
pub fn default_sound_enabled() -> (b: bool)
    ensures
        b == true,
{
    true
}

impl Default for PromptSection {
    fn default() -> (s: Self)
        ensures
            s@ == default_prompt_section_spec(),
    {
        PromptSection { enabled: true, content: None }
    }
}

impl Default for CleanupPromptSections {
    fn default() -> (s: Self)
        ensures
            s@ == default_cleanup_sections_spec(),
    {
        CleanupPromptSections {
            main: PromptSection { enabled: true, content: None },
            advanced: PromptSection { enabled: true, content: None },
            dictionary: PromptSection { enabled: false, content: None },
        }
    }
}

impl Default for AppSettings {
    fn default() -> (s: Self)
        ensures
            s@ == default_settings_spec(),
    {
        AppSettings {
            toggle_hotkey: HotkeyConfig::default_toggle(),
            hold_hotkey: HotkeyConfig::default_hold(),
            paste_last_hotkey: HotkeyConfig::default_paste_last(),
            selected_mic_id: None,
            sound_enabled: true,
            cleanup_prompt_sections: None,
            stt_provider: None,
            llm_provider: None,
            auto_mute_audio: false,
            stt_timeout_seconds: None,
        }
    }
}

fn clone_opt_string(o: &Option<String>) -> (r: Option<String>)
    ensures
        opt_str_view(r) == opt_str_view(*o),
{
    match o {
        Some(s) => Some(s.clone()),
        None => None,
    }
}

impl Clone for PromptSection {
    fn clone(&self) -> (r: Self)
        ensures
            r@ == self@,
    {
        PromptSection { enabled: self.enabled, content: clone_opt_string(&self.content) }
    }
}

impl Clone for CleanupPromptSections {
    fn clone(&self) -> (r: Self)
        ensures
            r@ == self@,
    {
        CleanupPromptSections {
            main: self.main.clone(),
            advanced: self.advanced.clone(),
            dictionary: self.dictionary.clone(),
        }
    }
}

impl Clone for AppSettings {
    fn clone(&self) -> (r: Self)
        ensures
            r@ == self@,
    {
        AppSettings {
            toggle_hotkey: self.toggle_hotkey.clone(),
            hold_hotkey: self.hold_hotkey.clone(),
            paste_last_hotkey: self.paste_last_hotkey.clone(),
            selected_mic_id: clone_opt_string(&self.selected_mic_id),
            sound_enabled: self.sound_enabled,
            cleanup_prompt_sections: match &self.cleanup_prompt_sections {
                Some(s) => Some(s.clone()),
                None => None,
            },
            stt_provider: clone_opt_string(&self.stt_provider),
            llm_provider: clone_opt_string(&self.llm_provider),
            auto_mute_audio: self.auto_mute_audio,
            stt_timeout_seconds: self.stt_timeout_seconds,
        }
    }
}

} // verus!
