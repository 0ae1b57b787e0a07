use voyc::cloud_stt::CloudSttProvider;
use voyc::inject::{
    check_paste_tools, detect_terminal, injection_outcome, to_injection_response, InjectionResult,
    ydotool_paste_keys, wtype_paste_args,
};
use voyc::settings::{
    get_default_settings, is_valid_dictation_text_mode, is_valid_log_level, is_valid_theme_mode,
    sound_theme_from_str, AppSettings, ModelUnloadTimeout, SoundTheme,
};
use voyc::tray::{get_icon_path, icon_as_template, AppTheme, TrayIconState};

#[test]
fn test_default_settings_bindings() {
    let settings = get_default_settings();
    assert_eq!(settings.bindings.len(), 2);
    let transcribe = settings.get_binding("transcribe").unwrap();
    assert_eq!(transcribe.current_binding, "ctrl+space");
    assert_eq!(transcribe.default_binding, "ctrl+space");
    assert_eq!(transcribe.name, "Transcribe");
    let cancel = settings.get_binding("cancel").unwrap();
    assert_eq!(cancel.current_binding, "escape");
    assert!(settings.get_binding("other").is_none());
    assert!(settings.push_to_talk);
    assert!(!settings.audio_feedback);
    assert!(!settings.cloud_stt_enabled);
    assert_eq!(settings.selected_language, "auto");
    assert_eq!(settings.post_process_provider, "baseten");
}

#[test]
fn test_set_current_binding() {
    let mut settings: AppSettings = get_default_settings();
    settings.set_current_binding("transcribe", "alt+d");
    assert_eq!(settings.get_binding("transcribe").unwrap().current_binding, "alt+d");
    // Everything else is untouched.
    assert_eq!(settings.get_binding("transcribe").unwrap().default_binding, "ctrl+space");
    assert_eq!(settings.get_binding("cancel").unwrap().current_binding, "escape");
}

#[test]
fn test_model_unload_timeout_minutes() {
    assert_eq!(ModelUnloadTimeout::Never.to_minutes(), None);
    assert_eq!(ModelUnloadTimeout::Immediately.to_minutes(), Some(0));
    assert_eq!(ModelUnloadTimeout::Min2.to_minutes(), Some(2));
    assert_eq!(ModelUnloadTimeout::Min5.to_minutes(), Some(5));
    assert_eq!(ModelUnloadTimeout::Min10.to_minutes(), Some(10));
    assert_eq!(ModelUnloadTimeout::Min15.to_minutes(), Some(15));
    assert_eq!(ModelUnloadTimeout::Hour1.to_minutes(), Some(60));
    assert_eq!(ModelUnloadTimeout::Sec5.to_minutes(), Some(0));
}

#[test]
fn test_model_unload_timeout_seconds() {
    assert_eq!(ModelUnloadTimeout::Never.to_seconds(), None);
    assert_eq!(ModelUnloadTimeout::Immediately.to_seconds(), Some(0));
    assert_eq!(ModelUnloadTimeout::Sec5.to_seconds(), Some(5));
    assert_eq!(ModelUnloadTimeout::Min2.to_seconds(), Some(120));
    assert_eq!(ModelUnloadTimeout::Hour1.to_seconds(), Some(3600));
}

#[test]
fn test_sound_theme_paths() {
    assert_eq!(SoundTheme::Marimba.to_start_path(), "resources/marimba_start.wav");
    assert_eq!(SoundTheme::Marimba.to_stop_path(), "resources/marimba_stop.wav");
    assert_eq!(SoundTheme::Pop.to_start_path(), "resources/pop_start.wav");
    assert_eq!(SoundTheme::Custom.to_stop_path(), "resources/custom_stop.wav");
    assert_eq!(SoundTheme::Pop.as_str(), "pop");
}

#[test]
fn test_sound_theme_from_str() {
    assert_eq!(sound_theme_from_str("marimba"), Some(SoundTheme::Marimba));
    assert_eq!(sound_theme_from_str("pop"), Some(SoundTheme::Pop));
    assert_eq!(sound_theme_from_str("custom"), Some(SoundTheme::Custom));
    assert_eq!(sound_theme_from_str("vuvuzela"), None);
}

#[test]
fn test_setting_validators() {
    assert!(is_valid_dictation_text_mode("append"));
    assert!(is_valid_dictation_text_mode("replace"));
    assert!(!is_valid_dictation_text_mode("overwrite"));
    assert!(is_valid_theme_mode("system"));
    assert!(is_valid_theme_mode("light"));
    assert!(is_valid_theme_mode("dark"));
    assert!(!is_valid_theme_mode("sepia"));
    assert!(is_valid_log_level("error"));
    assert!(is_valid_log_level("trace"));
    assert!(!is_valid_log_level("verbose"));
}

#[test]
fn test_cloud_provider_strings() {
    assert_eq!(CloudSttProvider::OpenAI.as_str(), "openai");
    assert_eq!(CloudSttProvider::ElevenLabs.as_str(), "elevenlabs");
    assert_eq!(CloudSttProvider::OpenAI.display_name(), "OpenAI Whisper");
    assert_eq!(CloudSttProvider::ElevenLabs.display_name(), "ElevenLabs");
    assert_eq!(CloudSttProvider::default(), CloudSttProvider::ElevenLabs);
}

#[test]
fn test_icon_paths() {
    assert_eq!(
        get_icon_path(AppTheme::Colored, TrayIconState::Idle),
        "resources/tray_idle.png"
    );
    assert_eq!(
        get_icon_path(AppTheme::Colored, TrayIconState::Recording),
        "resources/tray_active.png"
    );
    assert_eq!(
        get_icon_path(AppTheme::Dark, TrayIconState::Transcribing),
        "resources/tray_transcribing.png"
    );
    assert_eq!(
        get_icon_path(AppTheme::Light, TrayIconState::Idle),
        "resources/tray_idle_dark.png"
    );
    assert_eq!(
        get_icon_path(AppTheme::Light, TrayIconState::Error),
        "resources/tray_error.png"
    );
    assert!(!icon_as_template(AppTheme::Colored));
    assert!(icon_as_template(AppTheme::Dark));
}

#[test]
fn test_detect_terminal_classes() {
    assert!(detect_terminal(Some("gnome-terminal")));
    assert!(detect_terminal(Some("gnome-terminal-server")));
    // Matching folds ASCII case and looks for the class anywhere in the
    // reported name.
    assert!(detect_terminal(Some("Kitty")));
    assert!(detect_terminal(Some("org.wezfurlong.wezterm")));
    assert!(!detect_terminal(Some("firefox")));
    assert!(!detect_terminal(None));
}

#[test]
fn test_paste_key_choices() {
    assert_eq!(ydotool_paste_keys(true), "ctrl+shift+v");
    assert_eq!(ydotool_paste_keys(false), "ctrl+v");
    let terminal_args = wtype_paste_args(true);
    assert_eq!(
        terminal_args,
        vec!["-M", "ctrl", "-M", "shift", "-P", "v", "-p", "v", "-m", "shift", "-m", "ctrl"]
    );
    let plain_args = wtype_paste_args(false);
    assert_eq!(plain_args, vec!["-M", "ctrl", "-P", "v", "-p", "v", "-m", "ctrl"]);
}

#[test]
fn test_injection_outcome_preference() {
    assert!(matches!(injection_outcome(true, true), InjectionResult::SuccessYdotool));
    assert!(matches!(injection_outcome(true, false), InjectionResult::SuccessYdotool));
    assert!(matches!(injection_outcome(false, true), InjectionResult::SuccessWtype));
    assert!(matches!(injection_outcome(false, false), InjectionResult::ClipboardOnly));
}

#[test]
fn test_injection_response_mapping() {
    let r = to_injection_response(InjectionResult::SuccessYdotool);
    assert!(r.success);
    assert_eq!(r.method.as_deref(), Some("ydotool"));
    assert!(r.error.is_none());
    let r = to_injection_response(InjectionResult::SuccessWtype);
    assert_eq!(r.method.as_deref(), Some("wtype"));
    let r = to_injection_response(InjectionResult::ClipboardOnly);
    assert!(r.success);
    assert_eq!(r.method.as_deref(), Some("clipboard_only"));
    let r = to_injection_response(InjectionResult::Failed("Clipboard error: denied".to_string()));
    assert!(!r.success);
    assert!(r.method.is_none());
    assert_eq!(r.error.as_deref(), Some("Clipboard error: denied"));
}

#[test]
fn test_check_paste_tools() {
    let status = check_paste_tools(true, false);
    assert!(status.ydotool_available);
    assert!(!status.wtype_available);
    assert!(status.any_available);
    let status = check_paste_tools(false, false);
    assert!(!status.any_available);
}
