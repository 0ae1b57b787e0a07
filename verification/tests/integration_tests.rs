use voyc::cloud_stt::{normalize_language_code, validate_cloud_api_key, CloudSttProvider};
use voyc::desktop::{get_desktop_file_path, get_icon_install_path, render_desktop_entry};
use voyc::settings::{get_bindings, get_default_settings, get_stored_binding, merge_default_bindings, update_setting, SettingUpdate, SoundTheme};
use voyc::tray::{update_tray_menu, TrayIconState, TrayMenuEntry};

#[test]
fn test_desktop_file_paths() {
    assert_eq!(
        get_desktop_file_path("/home/u/.local/share"),
        "/home/u/.local/share/applications/voyc.desktop"
    );
    assert_eq!(
        get_icon_install_path("/home/u/.local/share"),
        "/home/u/.local/share/icons/hicolor/256x256/apps/voyc.png"
    );
}

#[test]
fn test_render_desktop_entry() {
    let entry = render_desktop_entry("/opt/app.AppImage", "/icons/voyc.png");
    assert!(entry.starts_with("[Desktop Entry]\nName=Voyc\n"));
    assert!(entry.contains("Exec=/opt/app.AppImage\n"));
    assert!(entry.contains("Icon=/icons/voyc.png\n"));
    assert!(entry.contains("StartupWMClass=voyc\n"));
    assert!(entry.ends_with("Terminal=false\n"));
}

#[test]
fn test_update_setting_fields() {
    let mut settings = get_default_settings();
    assert!(update_setting(&mut settings, SettingUpdate::PushToTalk(false)).is_ok());
    assert!(!settings.push_to_talk);
    assert!(update_setting(&mut settings, SettingUpdate::AudioFeedback(true)).is_ok());
    assert!(settings.audio_feedback);
    assert!(update_setting(&mut settings, SettingUpdate::MuteWhileRecording(true)).is_ok());
    assert!(settings.mute_while_recording);
    assert!(
        update_setting(&mut settings, SettingUpdate::SelectedLanguage("de".to_string())).is_ok()
    );
    assert_eq!(settings.selected_language, "de");
    assert!(update_setting(&mut settings, SettingUpdate::CloudSttEnabled(true)).is_ok());
    assert!(settings.cloud_stt_enabled);
    // The binding table is untouched by any of it.
    assert_eq!(settings.get_binding("transcribe").unwrap().current_binding, "ctrl+space");
}

#[test]
fn test_update_setting_sound_theme() {
    let mut settings = get_default_settings();
    assert!(update_setting(&mut settings, SettingUpdate::SoundTheme("pop".to_string())).is_ok());
    assert_eq!(settings.sound_theme, SoundTheme::Pop);
    let err = update_setting(&mut settings, SettingUpdate::SoundTheme("vuvuzela".to_string()))
        .unwrap_err();
    assert_eq!(
        err,
        "Invalid sound_theme: 'vuvuzela'. Must be 'marimba', 'pop', or 'custom'"
    );
    // The rejected update changed nothing.
    assert_eq!(settings.sound_theme, SoundTheme::Pop);
}

#[test]
fn test_tray_menu_per_state() {
    let recording = update_tray_menu(TrayIconState::Recording);
    assert!(recording.contains(&TrayMenuEntry::Cancel));
    assert!(!recording.contains(&TrayMenuEntry::StartDictation));
    let transcribing = update_tray_menu(TrayIconState::Transcribing);
    assert_eq!(recording, transcribing);
    let idle = update_tray_menu(TrayIconState::Idle);
    assert!(idle.contains(&TrayMenuEntry::StartDictation));
    assert!(!idle.contains(&TrayMenuEntry::Cancel));
    let error = update_tray_menu(TrayIconState::Error);
    assert!(!error.contains(&TrayMenuEntry::Cancel));
    assert!(!error.contains(&TrayMenuEntry::StartDictation));
    assert!(error.contains(&TrayMenuEntry::Quit));
    assert_eq!(error, update_tray_menu(TrayIconState::Off));
}

#[test]
fn test_cloud_request_decisions() {
    assert_eq!(
        CloudSttProvider::OpenAI.endpoint(),
        "https://api.openai.com/v1/audio/transcriptions"
    );
    assert_eq!(
        CloudSttProvider::ElevenLabs.endpoint(),
        "https://api.elevenlabs.io/v1/speech-to-text"
    );
    assert_eq!(normalize_language_code("zh-Hans"), "zh");
    assert_eq!(normalize_language_code("zh-Hant"), "zh");
    assert_eq!(normalize_language_code("en"), "en");
    assert_eq!(
        validate_cloud_api_key("").unwrap_err(),
        "Cloud STT API key not configured"
    );
    assert!(validate_cloud_api_key("SECRET-REDACTED").is_ok());
}

#[test]
fn test_merge_default_bindings() {
    // A complete table gains nothing.
    let mut settings = get_default_settings();
    assert!(!merge_default_bindings(&mut settings));
    assert_eq!(settings.bindings.len(), 2);

    // A table missing a default binding gains it back, and the existing
    // entries keep their (possibly customized) triggers.
    let mut settings = get_default_settings();
    settings.set_current_binding("transcribe", "alt+d");
    settings.bindings.retain(|b| b.id != "cancel");
    assert!(merge_default_bindings(&mut settings));
    assert_eq!(settings.bindings.len(), 2);
    assert_eq!(settings.get_binding("transcribe").unwrap().current_binding, "alt+d");
    assert_eq!(settings.get_binding("cancel").unwrap().current_binding, "escape");
}

#[test]
fn test_binding_accessors() {
    let settings = get_default_settings();
    assert_eq!(get_bindings(&settings).len(), 2);
    let stored = get_stored_binding(&settings, "cancel");
    assert_eq!(stored.id, "cancel");
    assert_eq!(stored.default_binding, "escape");
}
