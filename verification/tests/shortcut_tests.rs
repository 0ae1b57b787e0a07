use voyc::backend::{detect_backend, detect_backend_for_platform, DisplayServerInfo, ShortcutBackend};
use voyc::events::ShortcutPhase;
use voyc::hotkey::{get_shortcut_backend_info, HotkeyManager};
use voyc::inject::terminal_classes;
use voyc::settings::get_default_settings;
use voyc::trigger::{parse_trigger, Key, KeyCombo};

fn x11_info() -> DisplayServerInfo {
    DisplayServerInfo {
        is_wayland: false,
        is_x11: true,
        session_type: Some("x11".to_string()),
        desktop_environment: Some("GNOME".to_string()),
    }
}

fn wayland_info() -> DisplayServerInfo {
    DisplayServerInfo {
        is_wayland: true,
        is_x11: false,
        session_type: Some("wayland".to_string()),
        desktop_environment: Some("KDE".to_string()),
    }
}

#[test]
fn test_terminal_classes() {
    let classes = terminal_classes();
    assert!(classes.contains(&"gnome-terminal"));
    assert!(classes.contains(&"kitty"));
}

#[test]
fn test_display_server_detection() {
    let info = x11_info();
    // Just verify it doesn't panic
    let _ = info.description();
    let _ = info.requires_portal();
}

#[test]
fn test_display_server_description() {
    let info = x11_info();
    assert_eq!(info.description(), "X11 on GNOME");
    let info = wayland_info();
    assert_eq!(info.description(), "Wayland on KDE");
    assert!(info.requires_portal());
    let info = DisplayServerInfo {
        is_wayland: false,
        is_x11: false,
        session_type: None,
        desktop_environment: None,
    };
    assert_eq!(info.description(), "Unknown on Unknown");
}

#[test]
fn test_detect_backend_decision_table() {
    assert_eq!(detect_backend(&wayland_info()), ShortcutBackend::WaylandPortal);
    assert_eq!(detect_backend(&x11_info()), ShortcutBackend::X11);
    let neither = DisplayServerInfo {
        is_wayland: false,
        is_x11: false,
        session_type: None,
        desktop_environment: None,
    };
    assert_eq!(detect_backend(&neither), ShortcutBackend::Unavailable);
    // A Wayland session marker wins over an X display marker.
    let both = DisplayServerInfo {
        is_wayland: true,
        is_x11: true,
        session_type: None,
        desktop_environment: None,
    };
    assert_eq!(detect_backend(&both), ShortcutBackend::WaylandPortal);
}

#[test]
fn test_trigger_parse_valid() {
    let combo = parse_trigger("ctrl+space").unwrap();
    assert_eq!(
        combo,
        KeyCombo { ctrl: true, shift: false, alt: false, meta: false, key: Key::Space }
    );
    // Matching ignores ASCII case.
    assert_eq!(parse_trigger("CTRL+SPACE").unwrap(), combo);
    let escape = parse_trigger("escape").unwrap();
    assert_eq!(
        escape,
        KeyCombo { ctrl: false, shift: false, alt: false, meta: false, key: Key::Escape }
    );
    let f5 = parse_trigger("ctrl+shift+f5").unwrap();
    assert_eq!(
        f5,
        KeyCombo { ctrl: true, shift: true, alt: false, meta: false, key: Key::Function(5) }
    );
    let letter = parse_trigger("alt+a").unwrap();
    assert_eq!(
        letter,
        KeyCombo { ctrl: false, shift: false, alt: true, meta: false, key: Key::Character(97) }
    );
    let digit = parse_trigger("super+7").unwrap();
    assert_eq!(
        digit,
        KeyCombo { ctrl: false, shift: false, alt: false, meta: true, key: Key::Character(55) }
    );
}

#[test]
fn test_trigger_parse_invalid() {
    assert!(parse_trigger("").is_err());
    assert!(parse_trigger("ctrl+").is_err());
    assert!(parse_trigger("bogus+a").is_err());
    assert!(parse_trigger("ctrl+bogus").is_err());
    assert!(parse_trigger("space+ctrl").is_err());
    let err = parse_trigger("nonsense").unwrap_err();
    assert_eq!(err, "Invalid shortcut: nonsense");
}

fn hook_for<'m>(m: &'m HotkeyManager, trigger: &str) -> Option<&'m str> {
    m.hooks
        .iter()
        .find(|h| h.trigger == trigger)
        .map(|h| h.binding_id.as_str())
}

#[test]
fn test_register_all_x11_installs_hooks() {
    let mut m = HotkeyManager::new(get_default_settings());
    assert!(m.register_all(true, &x11_info()).is_ok());
    assert_eq!(m.get_backend(), ShortcutBackend::X11);
    assert_eq!(hook_for(&m, "ctrl+space"), Some("transcribe"));
    assert_eq!(hook_for(&m, "escape"), Some("cancel"));
}

#[test]
fn test_register_all_partial_success_is_success() {
    let mut settings = get_default_settings();
    settings.set_current_binding("cancel", "not a trigger");
    let mut m = HotkeyManager::new(settings);
    assert!(m.register_all(true, &x11_info()).is_ok());
    assert_eq!(hook_for(&m, "ctrl+space"), Some("transcribe"));
    assert_eq!(hook_for(&m, "not a trigger"), None);
}

#[test]
fn test_register_all_total_failure_is_error() {
    let mut settings = get_default_settings();
    settings.set_current_binding("transcribe", "not a trigger");
    settings.set_current_binding("cancel", "also bad");
    let mut m = HotkeyManager::new(settings);
    assert!(m.register_all(true, &x11_info()).is_err());
}

#[test]
fn test_register_all_no_bindings_is_ok() {
    let mut settings = get_default_settings();
    settings.set_current_binding("transcribe", "");
    settings.set_current_binding("cancel", "");
    let mut m = HotkeyManager::new(settings);
    assert!(m.register_all(true, &x11_info()).is_ok());
    assert!(m.hooks.is_empty());
}

#[test]
fn test_register_all_unavailable_backend_is_error() {
    let mut m = HotkeyManager::new(get_default_settings());
    let neither = DisplayServerInfo {
        is_wayland: false,
        is_x11: false,
        session_type: None,
        desktop_environment: None,
    };
    assert!(m.register_all(true, &neither).is_err());
}

#[test]
fn test_disable_binding_leaves_no_stale_hook() {
    // Register, clear the trigger, register again: no hook may still
    // report the binding.
    let mut m = HotkeyManager::new(get_default_settings());
    assert!(m.register_all(true, &x11_info()).is_ok());
    assert!(m.update_binding("transcribe", "").is_ok());
    assert!(m.register_all(true, &x11_info()).is_ok());
    assert!(m.hooks.iter().all(|h| h.binding_id != "transcribe"));
    // The other binding is untouched.
    assert_eq!(hook_for(&m, "escape"), Some("cancel"));
}

#[test]
fn test_update_binding_replaces_hook() {
    let mut m = HotkeyManager::new(get_default_settings());
    assert!(m.register_all(true, &x11_info()).is_ok());
    assert!(m.update_binding("transcribe", "ctrl+shift+d").is_ok());
    assert_eq!(hook_for(&m, "ctrl+space"), None);
    assert_eq!(hook_for(&m, "ctrl+shift+d"), Some("transcribe"));
    assert_eq!(
        m.settings.get_binding("transcribe").unwrap().current_binding,
        "ctrl+shift+d"
    );
}

#[test]
fn test_update_binding_unknown_id_errors() {
    let mut m = HotkeyManager::new(get_default_settings());
    let err = m.update_binding("nope", "ctrl+x").unwrap_err();
    assert_eq!(err, "Unknown binding id: nope");
}

#[test]
fn test_update_binding_invalid_trigger_errors_after_storing() {
    let mut m = HotkeyManager::new(get_default_settings());
    assert!(m.register_all(true, &x11_info()).is_ok());
    assert_eq!(
        m.update_binding("transcribe", "gibberish").unwrap_err(),
        "Invalid shortcut: gibberish"
    );
    // The preference is stored even though registration failed.
    assert_eq!(
        m.settings.get_binding("transcribe").unwrap().current_binding,
        "gibberish"
    );
}

#[test]
fn test_suspend_resume_restores_trigger() {
    let mut m = HotkeyManager::new(get_default_settings());
    assert!(m.register_all(true, &x11_info()).is_ok());
    assert!(m.suspend_binding("transcribe").is_ok());
    assert!(m.is_suspended("transcribe"));
    assert_eq!(hook_for(&m, "ctrl+space"), None);
    assert!(m.resume_binding("transcribe").is_ok());
    assert!(!m.is_suspended("transcribe"));
    // The exact trigger that was active before is active again.
    assert_eq!(hook_for(&m, "ctrl+space"), Some("transcribe"));
    assert_eq!(
        m.settings.get_binding("transcribe").unwrap().current_binding,
        "ctrl+space"
    );
}

#[test]
fn test_suspend_twice_is_noop() {
    let mut m = HotkeyManager::new(get_default_settings());
    assert!(m.register_all(true, &x11_info()).is_ok());
    assert!(m.suspend_binding("transcribe").is_ok());
    assert!(m.suspend_binding("transcribe").is_ok());
    assert_eq!(
        m.suspended_bindings.iter().filter(|s| s.as_str() == "transcribe").count(),
        1
    );
    assert!(m.resume_binding("transcribe").is_ok());
    assert!(!m.is_suspended("transcribe"));
}

#[test]
fn test_suspend_unknown_id_errors() {
    let mut m = HotkeyManager::new(get_default_settings());
    assert!(m.register_all(true, &x11_info()).is_ok());
    assert_eq!(m.suspend_binding("nope").unwrap_err(), "Unknown binding id: nope");
    assert_eq!(m.resume_binding("nope").unwrap_err(), "Unknown binding id: nope");
}

#[test]
fn test_suspend_unknown_id_errors_on_portal_too() {
    // An unknown binding id is a configuration error on every backend,
    // never silently recorded.
    let mut m = HotkeyManager::new(get_default_settings());
    assert!(m.register_all(true, &wayland_info()).is_ok());
    assert_eq!(m.suspend_binding("nope").unwrap_err(), "Unknown binding id: nope");
    assert!(!m.is_suspended("nope"));
    assert_eq!(m.resume_binding("nope").unwrap_err(), "Unknown binding id: nope");
}

#[test]
fn test_non_linux_resolves_to_direct_grab() {
    // A non-Linux host always uses direct key grabbing, whatever the
    // display variables say.
    let mut m = HotkeyManager::new(get_default_settings());
    let no_markers = DisplayServerInfo {
        is_wayland: false,
        is_x11: false,
        session_type: None,
        desktop_environment: None,
    };
    assert!(m.register_all(false, &no_markers).is_ok());
    assert_eq!(m.get_backend(), ShortcutBackend::X11);
    assert_eq!(hook_for(&m, "ctrl+space"), Some("transcribe"));
    assert_eq!(
        detect_backend_for_platform(false, &wayland_info()),
        ShortcutBackend::X11
    );
}

#[test]
fn test_register_all_aggregate_error_lists_every_failure() {
    let mut settings = get_default_settings();
    settings.set_current_binding("transcribe", "not a trigger");
    settings.set_current_binding("cancel", "also bad");
    let mut m = HotkeyManager::new(settings);
    let err = m.register_all(true, &x11_info()).unwrap_err();
    assert_eq!(
        err,
        "All shortcut registrations failed: Invalid shortcut: not a trigger; Invalid shortcut: also bad; "
    );
}

#[test]
fn test_unregister_on_portal_backend_is_noop_ok() {
    // On the portal backend, unregistering never contacts the host and
    // always succeeds.
    let mut m = HotkeyManager::new(get_default_settings());
    assert!(m.register_all(true, &wayland_info()).is_ok());
    assert_eq!(m.get_backend(), ShortcutBackend::WaylandPortal);
    let hooks_before = m.hooks.len();
    assert!(m.unregister_shortcut("ctrl+space").is_ok());
    assert_eq!(m.hooks.len(), hooks_before);
}

#[test]
fn test_portal_suspend_is_bookkeeping_only() {
    let mut m = HotkeyManager::new(get_default_settings());
    assert!(m.register_all(true, &wayland_info()).is_ok());
    assert!(m.suspend_binding("transcribe").is_ok());
    assert!(m.is_suspended("transcribe"));
    assert!(m.resume_binding("transcribe").is_ok());
    assert!(!m.is_suspended("transcribe"));
}

#[test]
fn test_backend_info_messages() {
    let m = HotkeyManager::new(get_default_settings());
    let info = m.get_shortcut_info("linux".to_string(), Some("X11 on GNOME".to_string()));
    let rendered = get_shortcut_backend_info(info);
    assert_eq!(rendered.backend, "unavailable");
    assert_eq!(rendered.platform, "linux");
    assert_eq!(
        rendered.message,
        "Click on a shortcut to record a new key combination."
    );

    let mut m = HotkeyManager::new(get_default_settings());
    assert!(m.register_all(true, &wayland_info()).is_ok());
    let info = m.get_shortcut_info("linux".to_string(), None);
    assert!(info.requires_system_settings);
    let rendered = get_shortcut_backend_info(info);
    assert_eq!(rendered.backend, "wayland_portal");
    assert!(rendered.requires_system_settings);
    assert_eq!(
        rendered.message,
        "On Wayland, keyboard shortcuts are configured in System Settings. Go to Settings > Applications > Voyc to set your preferred shortcuts."
    );
}

#[test]
fn test_hook_event_normalization() {
    let mut m = HotkeyManager::new(get_default_settings());
    assert!(m.register_all(true, &x11_info()).is_ok());
    let event = m.hook_event("ctrl+space", ShortcutPhase::Pressed, 7).unwrap();
    assert_eq!(event.binding_id, "transcribe");
    assert_eq!(event.phase, ShortcutPhase::Pressed);
    assert_eq!(event.timestamp_ms, 7);
    let release = m.hook_event("escape", ShortcutPhase::Released, 9).unwrap();
    assert_eq!(release.binding_id, "cancel");
    assert!(m.hook_event("ctrl+q", ShortcutPhase::Pressed, 1).is_none());
}
