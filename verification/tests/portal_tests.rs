use voyc::events::ShortcutPhase;
use voyc::portal::{
    normalize_signal, NormalizedSignal, WaylandShortcutManager, PortalNotice,
    PortalSignal, ReconciledBinding, SessionState, WindowHandleInfo,
};

#[test]
fn test_default_actions() {
    let actions = WaylandShortcutManager::get_default_actions();
    assert_eq!(actions.len(), 2);
    assert_eq!(actions[0].id, "transcribe");
    assert_eq!(actions[1].id, "cancel");
}

#[test]
fn test_default_actions_have_advisory_triggers() {
    let actions = WaylandShortcutManager::get_default_actions();
    assert_eq!(actions[0].preferred_trigger.as_deref(), Some("CTRL+SPACE"));
    assert_eq!(actions[1].preferred_trigger.as_deref(), Some("Escape"));
    assert_eq!(
        actions[0].description,
        "Start voice dictation - hold to record, release to transcribe"
    );
    assert_eq!(actions[1].description, "Cancel the current recording");
}

#[test]
fn test_reconcile_zero_bindings_needs_configuration() {
    // Even after a bind call the host claims succeeded, an empty
    // reconciliation answer means the user must configure the shortcuts;
    // the single notice lists every submitted action id.
    let mut conn = WaylandShortcutManager::new();
    conn.begin_registration();
    assert!(conn.endpoint_result(true).is_ok());
    assert!(conn.session_result(true).is_ok());
    conn.submit_actions(WaylandShortcutManager::get_default_actions());
    let notice = conn.reconcile(true, Vec::new());
    match notice {
        PortalNotice::NeedsConfiguration { message, instructions, action_ids } => {
            assert_eq!(message, "Global shortcuts are not configured");
            assert!(!instructions.is_empty());
            assert_eq!(action_ids, vec!["transcribe".to_string(), "cancel".to_string()]);
        }
        PortalNotice::Configured { .. } => panic!("expected a needs-configuration notice"),
    }
    conn.complete_registration();
    assert!(matches!(conn.get_session_state(), SessionState::Connected));
}

#[test]
fn test_reconcile_is_authoritative_over_bind_outcome() {
    // A failed bind call with a non-empty reconciliation answer still
    // counts as configured: the list query is the source of truth.
    let mut conn = WaylandShortcutManager::new();
    conn.begin_registration();
    assert!(conn.endpoint_result(true).is_ok());
    assert!(conn.session_result(true).is_ok());
    conn.submit_actions(WaylandShortcutManager::get_default_actions());
    let listed = vec![
        ReconciledBinding {
            binding_id: "transcribe".to_string(),
            trigger_description: "Ctrl+Space".to_string(),
        },
        ReconciledBinding {
            binding_id: "cancel".to_string(),
            trigger_description: "Escape".to_string(),
        },
    ];
    let notice = conn.reconcile(false, listed);
    match notice {
        PortalNotice::Configured { count } => assert_eq!(count, 2),
        PortalNotice::NeedsConfiguration { .. } => panic!("expected a configured notice"),
    }
    assert_eq!(conn.current_bindings.len(), 2);
    assert_eq!(conn.current_bindings[0].binding_id, "transcribe");
}

#[test]
fn test_portal_unregister_always_ok() {
    let mut conn = WaylandShortcutManager::new();
    conn.begin_registration();
    assert!(conn.unregister("ctrl+space").is_ok());
    assert!(conn.unregister("anything at all").is_ok());
    assert!(matches!(conn.get_session_state(), SessionState::Connecting));
}

#[test]
fn test_negotiation_endpoint_failure_is_unavailable() {
    let mut conn = WaylandShortcutManager::new();
    conn.begin_registration();
    assert!(conn.endpoint_result(false).is_err());
    assert!(matches!(conn.get_session_state(), SessionState::Unavailable));
}

#[test]
fn test_negotiation_session_failure_is_error() {
    let mut conn = WaylandShortcutManager::new();
    conn.begin_registration();
    assert!(conn.endpoint_result(true).is_ok());
    assert!(conn.session_result(false).is_err());
    assert!(matches!(conn.get_session_state(), SessionState::Error(_)));
}

#[test]
fn test_stream_closure_disconnects() {
    let mut conn = WaylandShortcutManager::new();
    conn.begin_registration();
    assert!(conn.endpoint_result(true).is_ok());
    assert!(conn.session_result(true).is_ok());
    conn.complete_registration();
    assert!(matches!(conn.get_session_state(), SessionState::Connected));
    conn.streams_closed();
    assert!(matches!(conn.get_session_state(), SessionState::Disconnected));
}

#[test]
fn test_normalize_signals() {
    let pressed = normalize_signal(PortalSignal::Activated {
        shortcut_id: "transcribe".to_string(),
        timestamp_ms: 42,
    });
    match pressed {
        NormalizedSignal::Event(e) => {
            assert_eq!(e.binding_id, "transcribe");
            assert_eq!(e.phase, ShortcutPhase::Pressed);
            assert_eq!(e.timestamp_ms, 42);
        }
        NormalizedSignal::ChangedNotice => panic!("expected an event"),
    }
    let released = normalize_signal(PortalSignal::Deactivated {
        shortcut_id: "transcribe".to_string(),
        timestamp_ms: 43,
    });
    match released {
        NormalizedSignal::Event(e) => {
            assert_eq!(e.phase, ShortcutPhase::Released);
        }
        NormalizedSignal::ChangedNotice => panic!("expected an event"),
    }
    // A configuration change is a UI-only notice, never a session event.
    assert!(matches!(
        normalize_signal(PortalSignal::ShortcutsChanged),
        NormalizedSignal::ChangedNotice
    ));
}

#[test]
fn test_window_handle_identifier() {
    let with_xid = WindowHandleInfo { x11_xid: Some(1234), is_wayland: false };
    assert!(with_xid.has_window_identifier());
    let wayland = WindowHandleInfo { x11_xid: None, is_wayland: true };
    assert!(!wayland.has_window_identifier());
}
