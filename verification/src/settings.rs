//! User configuration: the settings sections, their defaults, and the small
//! decisions read off them (onboarding, startup windows, model selection,
//! launch-at-login).
use vstd::prelude::*;

use crate::session::opt_str_view;

verus! {

/// Text-formatting service configuration.
#[derive(Clone, Debug, PartialEq)]
pub struct FormatterConfig {
    pub enabled: bool,
    pub model_id: Option<String>,
    pub fallback_model_id: Option<String>,
}

/// Window theme and locale.
#[derive(Clone, Debug, PartialEq)]
pub struct UiSettings {
    pub theme: String,
    pub locale: Option<String>,
}

/// Transcription preferences.
#[derive(Clone, Debug, PartialEq)]
pub struct TranscriptionSettings {
    pub language: Option<String>,
    pub auto_transcribe: Option<bool>,
    pub preload_whisper_model: Option<bool>,
}

/// Audio capture preferences.
#[derive(Clone, Debug, PartialEq)]
pub struct RecordingSettings {
    pub default_format: Option<String>,
    pub sample_rate: Option<u32>,
    pub preferred_microphone_name: Option<String>,
}

/// Key-code sequences bound to the global shortcuts.
#[derive(Clone, Debug, PartialEq)]
pub struct ShortcutsSettings {
    pub push_to_talk: Option<Vec<i32>>,
    pub toggle_recording: Option<Vec<i32>>,
    pub paste_last_transcript: Option<Vec<i32>>,
}

/// Endpoint of the local formatting service.
#[derive(Clone, Debug, PartialEq)]
pub struct OllamaConfig {
    pub url: String,
}

/// Model providers and the default model choices.
#[derive(Clone, Debug, PartialEq)]
pub struct ModelProvidersConfig {
    pub ollama: Option<OllamaConfig>,
    pub default_speech_model: Option<String>,
    pub default_language_model: Option<String>,
}

/// Dictation language selection; with auto-detect on, the speech engine
/// infers the language.
#[derive(Clone, Debug, PartialEq)]
pub struct DictationSettings {
    pub auto_detect_enabled: bool,
    pub selected_language: String,
}

/// Application behaviour preferences.
#[derive(Clone, Debug, PartialEq)]
pub struct AppPreferences {
    pub launch_at_login: Option<bool>,
    pub minimize_to_tray: Option<bool>,
    pub show_widget_while_inactive: Option<bool>,
    pub show_in_dock: Option<bool>,
    pub mute_system_audio: Option<bool>,
}

/// Record of a completed onboarding run.
#[derive(Clone, Debug, PartialEq)]
pub struct OnboardingSettings {
    pub completed_version: i32,
    pub completed_at: String,
    pub selected_model_type: String,
}

/// Telemetry opt-in.
#[derive(Clone, Debug, PartialEq)]
pub struct TelemetrySettings {
    pub enabled: Option<bool>,
}

/// All persisted user settings; every section is optional and absent until
/// first written.
#[derive(Clone, Debug, PartialEq)]
pub struct AppSettingsData {
    pub formatter_config: Option<FormatterConfig>,
    pub ui: Option<UiSettings>,
    pub transcription: Option<TranscriptionSettings>,
    pub recording: Option<RecordingSettings>,
    pub shortcuts: Option<ShortcutsSettings>,
    pub model_providers_config: Option<ModelProvidersConfig>,
    pub dictation: Option<DictationSettings>,
    pub preferences: Option<AppPreferences>,
    pub onboarding: Option<OnboardingSettings>,
    pub telemetry: Option<TelemetrySettings>,
}

impl Default for AppSettingsData {
    /// Fresh settings: no section present.
    fn default() -> (r: Self)
        ensures
            r == (AppSettingsData {
                formatter_config: None,
                ui: None,
                transcription: None,
                recording: None,
                shortcuts: None,
                model_providers_config: None,
                dictation: None,
                preferences: None,
                onboarding: None,
                telemetry: None,
            }),
    {
        AppSettingsData {
            formatter_config: None,
            ui: None,
            transcription: None,
            recording: None,
            shortcuts: None,
            model_providers_config: None,
            dictation: None,
            preferences: None,
            onboarding: None,
            telemetry: None,
        }
    }
}

/// Which windows to open at startup.
#[derive(Clone, Copy, Debug, PartialEq, Eq, Structural)]
pub struct StartupPlan {
    pub show_onboarding: bool,
    pub show_main: bool,
    pub show_widget: bool,
}

/// Result of asking whether onboarding must be shown.
#[derive(Clone, Copy, Debug, PartialEq, Eq, Structural)]
pub struct OnboardingCheckResult {
    pub needed: bool,
}

impl AppSettingsData {
    /// Onboarding is needed until a completed run is on record.
    pub open spec fn spec_needs_onboarding(self) -> bool {
        self.onboarding is None
    }

    /// Whether the application should register itself to launch at login.
    pub open spec fn spec_launch_at_login(self) -> bool {
        match self.preferences {
            Some(p) => p.launch_at_login == Some(true),
            None => false,
        }
    }

    /// Whether the floating widget stays visible while idle.
    pub open spec fn spec_show_widget_while_inactive(self) -> bool {
        match self.preferences {
            Some(p) => p.show_widget_while_inactive == Some(true),
            None => false,
        }
    }

    /// The configured default speech model, if any.
    pub open spec fn spec_selected_speech_model(self) -> Option<Seq<char>> {
        match self.model_providers_config {
            Some(c) => opt_str_view(c.default_speech_model),
            None => None,
        }
    }

    /// True until onboarding has completed once.
    pub fn needs_onboarding(&self) -> (r: bool)
        ensures
            r == self.spec_needs_onboarding(),
    {
        self.onboarding.is_none()
    }

    /// The UI section, or its default: theme "system", no locale.
    pub fn ui_or_default(&self) -> (u: UiSettings)
        ensures
            self.ui matches Some(cur) ==> u.theme@ == cur.theme@ && opt_str_view(u.locale)
                == opt_str_view(cur.locale),
            self.ui is None ==> u.theme@ == "system"@ && u.locale is None,
    {
        match &self.ui {
            Some(cur) => UiSettings {
                theme: cur.theme.clone(),
                locale: match &cur.locale {
                    Some(l) => Some(l.clone()),
                    None => None,
                },
            },
            None => UiSettings { theme: String::from_str("system"), locale: None },
        }
    }

    /// The configured default speech model, if any.
    pub fn selected_speech_model(&self) -> (r: Option<String>)
        ensures
            opt_str_view(r) == self.spec_selected_speech_model(),
    {
        match &self.model_providers_config {
            Some(c) => match &c.default_speech_model {
                Some(m) => Some(m.clone()),
                None => None,
            },
            None => None,
        }
    }

    /// Record `model_id` as the default speech model, creating the provider
    /// section when absent and keeping its other choices.
    pub fn select_model(&mut self, model_id: String)
        ensures
            final(self).model_providers_config matches Some(c) && ({
                &&& c.default_speech_model == Some(model_id)
                &&& c.ollama == (match old(self).model_providers_config {
                    Some(oc) => oc.ollama,
                    None => None::<OllamaConfig>,
                })
                &&& c.default_language_model == (match old(self).model_providers_config {
                    Some(oc) => oc.default_language_model,
                    None => None::<String>,
                })
            }),
            *final(self) == (AppSettingsData {
                model_providers_config: final(self).model_providers_config,
                ..*old(self)
            }),
    {
        match &mut self.model_providers_config {
            Some(c) => {
                c.default_speech_model = Some(model_id);
            },
            None => {
                self.model_providers_config = Some(ModelProvidersConfig {
                    ollama: None,
                    default_speech_model: Some(model_id),
                    default_language_model: None,
                });
            },
        }
    }

    /// Whether to register for launch at login.
    pub fn launch_at_login(&self) -> (r: bool)
        ensures
            r == self.spec_launch_at_login(),
    {
        match &self.preferences {
            Some(p) => match p.launch_at_login {
                Some(b) => b,
                None => false,
            },
            None => false,
        }
    }

    /// Which windows to open at startup: onboarding until completed once;
    /// otherwise the main window, and the widget when so configured.
    pub fn startup_plan(&self) -> (p: StartupPlan)
        ensures
            p.show_onboarding == self.spec_needs_onboarding(),
            p.show_main == !self.spec_needs_onboarding(),
            p.show_widget == (!self.spec_needs_onboarding()
                && self.spec_show_widget_while_inactive()),
    {
        let needed = self.needs_onboarding();
        let widget = match &self.preferences {
            Some(p) => match p.show_widget_while_inactive {
                Some(b) => b,
                None => false,
            },
            None => false,
        };
        StartupPlan {
            show_onboarding: needed,
            show_main: !needed,
            show_widget: !needed && widget,
        }
    }

    /// Replace the UI section.
    pub fn set_ui_settings(&mut self, ui: UiSettings)
        ensures
            *final(self) == (AppSettingsData { ui: Some(ui), ..*old(self) }),
    {
        self.ui = Some(ui);
    }

    /// Replace the transcription section.
    pub fn set_transcription_settings(&mut self, transcription: TranscriptionSettings)
        ensures
            *final(self) == (AppSettingsData { transcription: Some(transcription), ..*old(self) }),
    {
        self.transcription = Some(transcription);
    }

    /// Replace the shortcuts section.
    pub fn set_shortcut_settings(&mut self, shortcuts: ShortcutsSettings)
        ensures
            *final(self) == (AppSettingsData { shortcuts: Some(shortcuts), ..*old(self) }),
    {
        self.shortcuts = Some(shortcuts);
    }

    /// Replace the formatter section.
    pub fn set_formatter_config(&mut self, config: FormatterConfig)
        ensures
            *final(self) == (AppSettingsData { formatter_config: Some(config), ..*old(self) }),
    {
        self.formatter_config = Some(config);
    }

    /// Replace the dictation section.
    pub fn set_dictation_settings(&mut self, dictation: DictationSettings)
        ensures
            *final(self) == (AppSettingsData { dictation: Some(dictation), ..*old(self) }),
    {
        self.dictation = Some(dictation);
    }

    /// Replace the preferences section.
    pub fn set_preferences(&mut self, preferences: AppPreferences)
        ensures
            *final(self) == (AppSettingsData { preferences: Some(preferences), ..*old(self) }),
    {
        self.preferences = Some(preferences);
    }
}

/// Answer whether onboarding must be shown.
pub fn check_needs_onboarding(settings: &AppSettingsData) -> (r: OnboardingCheckResult)
    ensures
        r.needed == settings.spec_needs_onboarding(),
{
    OnboardingCheckResult { needed: settings.needs_onboarding() }
}

/// Record onboarding as completed now: version 1, the local model type, and
/// the current instant as completion time.
pub fn complete_onboarding(settings: &mut AppSettingsData)
    ensures
        final(settings).onboarding matches Some(o) && ({
            &&& o.completed_version == 1
            &&& o.selected_model_type@ == "local"@
            &&& exists|secs: u64| crate::calendar::is_timestamp_for(secs as int, o.completed_at@)
        }),
        *final(settings) == (AppSettingsData {
            onboarding: final(settings).onboarding,
            ..*old(settings)
        }),
{
    let completed_at = crate::calendar::chrono_now();
    let ghost witness: u64 = choose|secs: u64|
        crate::calendar::is_timestamp_for(secs as int, completed_at@);
    settings.onboarding = Some(OnboardingSettings {
        completed_version: 1,
        completed_at,
        selected_model_type: String::from_str("local"),
    });
    proof {
        assert(crate::calendar::is_timestamp_for(
            witness as int,
            settings.onboarding->0.completed_at@,
        ));
    }
}

} // verus!
