//! The portal backend: negotiation state, reconciliation, and event
//! normalization.
//!
//! On a Wayland session the application does not grab keys itself.  It
//! submits advisory action descriptors to an out-of-process portal, and
//! the host assigns the actual combinations.  The bind call's own answer
//! is not trusted — some hosts report an error although binding worked —
//! so a reconciliation query is the single source of truth for what is
//! bound.  The inter-process calls are the caller's; every decision about
//! their outcomes is made and verified here.

use vstd::prelude::*;

use crate::events::{ShortcutEvent, ShortcutPhase};

verus! {

/// An advisory action descriptor submitted to the portal.
#[derive(Debug, Clone)]
pub struct ShortcutAction {
    /// The action's identifier, such as `transcribe` or `cancel`.
    pub id: String,
    /// The description shown to the user in the host's settings.
    pub description: String,
    /// A suggested trigger; the host may ignore it.
    pub preferred_trigger: Option<String>,
}

/// State of the negotiated portal session.
#[derive(Debug, Clone)]
pub enum SessionState {
    /// No session; also the state after the event streams close.
    Disconnected,
    /// Negotiation has begun.
    Connecting,
    /// Negotiation finished and the event listeners run.
    Connected,
    /// The negotiation endpoint is absent; the caller should fall back
    /// rather than retry.
    Unavailable,
    /// Session creation failed, with the reason.
    Error(String),
}

/// What the host reports as actually bound: the action id and a
/// human-readable description of the combination the host assigned.
#[derive(Debug, Clone)]
pub struct ReconciledBinding {
    pub binding_id: String,
    pub trigger_description: String,
}

/// Window-handle information extracted ahead of negotiation, in a form
/// that can cross threads.
#[derive(Debug, Clone)]
pub struct WindowHandleInfo {
    /// The window id on an X-style display.
    pub x11_xid: Option<u32>,
    /// Whether the window lives on a Wayland session, where no handle
    /// can be extracted and the portal works without a parent window.
    pub is_wayland: bool,
}

impl WindowHandleInfo {
    /// Whether a parent-window identifier can be handed to the portal.
    pub fn has_window_identifier(&self) -> (r: bool)
        ensures
            r == (self.x11_xid is Some),
    {
        self.x11_xid.is_some()
    }
}

/// The notification the UI gets after reconciliation.
#[derive(Debug, Clone)]
pub enum PortalNotice {
    /// The host reports this many bound shortcuts.
    Configured { count: usize },
    /// The host reports none: the user must bind the listed action ids
    /// in the host's own settings.
    NeedsConfiguration { message: String, instructions: String, action_ids: Vec<String> },
}

/// A notification arriving on one of the session's three event streams.
#[derive(Debug, Clone)]
pub enum PortalSignal {
    Activated { shortcut_id: String, timestamp_ms: u64 },
    Deactivated { shortcut_id: String, timestamp_ms: u64 },
    ShortcutsChanged,
}

/// What a portal signal becomes: a normalized shortcut event for the
/// session, or a UI-only notice.
#[derive(Debug, Clone)]
pub enum NormalizedSignal {
    Event(ShortcutEvent),
    ChangedNotice,
}

/// The ids of a sequence of actions.
pub open spec fn spec_action_ids(actions: Seq<ShortcutAction>) -> Seq<Seq<char>> {
    Seq::new(actions.len(), |i: int| actions[i].id@)
}

/// The id/description pairs of a sequence of reconciled bindings.
pub open spec fn spec_reconciled_view(bs: Seq<ReconciledBinding>) -> Seq<(Seq<char>, Seq<char>)> {
    Seq::new(bs.len(), |i: int| (bs[i].binding_id@, bs[i].trigger_description@))
}

/// The portal-backed shortcut state: negotiation progress, the actions
/// submitted, and what the host actually bound.
pub struct WaylandShortcutManager {
    pub session_state: SessionState,
    pub registered_shortcuts: Vec<ShortcutAction>,
    pub current_bindings: Vec<ReconciledBinding>,
}

impl WaylandShortcutManager {
    /// A fresh, disconnected portal state.
    pub fn new() -> (r: WaylandShortcutManager)
        ensures
            r.session_state is Disconnected,
            r.registered_shortcuts@.len() == 0,
            r.current_bindings@.len() == 0,
    {
        WaylandShortcutManager {
            session_state: SessionState::Disconnected,
            registered_shortcuts: Vec::new(),
            current_bindings: Vec::new(),
        }
    }

    /// The current negotiation state.
    pub fn get_session_state(&self) -> (r: &SessionState)
        ensures
            r == &self.session_state,
    {
        &self.session_state
    }

    /// What the host actually bound, as of the last reconciliation.
    pub fn get_current_bindings(&self) -> (r: &Vec<ReconciledBinding>)
        ensures
            r == &self.current_bindings,
    {
        &self.current_bindings
    }

    /// Negotiation begins: the session is connecting.
    pub fn begin_registration(&mut self)
        ensures
            final(self).session_state is Connecting,
            final(self).registered_shortcuts == old(self).registered_shortcuts,
            final(self).current_bindings == old(self).current_bindings,
    {
        self.session_state = SessionState::Connecting;
    }

    /// Outcome of opening the negotiation endpoint.  An absent endpoint
    /// is terminal: the state becomes `Unavailable` and the caller should
    /// fall back to informing the UI, not retry.
    pub fn endpoint_result(&mut self, opened: bool) -> (r: Result<(), String>)
        ensures
            final(self).registered_shortcuts == old(self).registered_shortcuts,
            final(self).current_bindings == old(self).current_bindings,
            opened ==> r is Ok && final(self).session_state == old(self).session_state,
            !opened ==> r is Err && final(self).session_state is Unavailable,
    {
        if opened {
            Ok(())
        } else {
            self.session_state = SessionState::Unavailable;
            Err(String::from_str("Failed to connect to the global shortcuts portal"))
        }
    }

    /// Outcome of creating the session handle.  Failure is terminal for
    /// this attempt: the state records the error.
    pub fn session_result(&mut self, created: bool) -> (r: Result<(), String>)
        ensures
            final(self).registered_shortcuts == old(self).registered_shortcuts,
            final(self).current_bindings == old(self).current_bindings,
            created ==> r is Ok && final(self).session_state == old(self).session_state,
            !created ==> r is Err && final(self).session_state is Error,
    {
        if created {
            Ok(())
        } else {
            let msg = String::from_str("Failed to create a global shortcuts session");
            self.session_state = SessionState::Error(msg.clone());
            Err(msg)
        }
    }

    /// Records the submitted actions as registered: logical bookkeeping,
    /// not a guarantee of a live binding.
    pub fn submit_actions(&mut self, actions: Vec<ShortcutAction>)
        ensures
            final(self).session_state == old(self).session_state,
            final(self).current_bindings == old(self).current_bindings,
            final(self).registered_shortcuts == actions,
    {
        self.registered_shortcuts = actions;
    }

    /// Takes the reconciliation answer as the truth about what is bound.
    /// The bind call's own outcome is advisory and changes nothing here:
    /// some hosts answer with an error although binding worked.  An empty
    /// answer means the user must configure the shortcuts by hand, and
    /// the notice lists every submitted action id, exactly once each.
    pub fn reconcile(&mut self, bind_accepted: bool, listed: Vec<ReconciledBinding>) -> (notice:
        PortalNotice)
        ensures
            final(self).session_state == old(self).session_state,
            final(self).registered_shortcuts == old(self).registered_shortcuts,
            spec_reconciled_view(final(self).current_bindings@) == spec_reconciled_view(listed@),
            listed@.len() > 0 ==> (notice matches PortalNotice::Configured { count } && count
                == listed@.len()),
            listed@.len() == 0 ==> (notice matches PortalNotice::NeedsConfiguration {
                message,
                instructions,
                action_ids,
            } && message@ == "Global shortcuts are not configured"@ && instructions@
                == "Open the system settings and add shortcuts for the listed actions"@ && (
            Seq::new(action_ids@.len(), |i: int| action_ids@[i]@) == spec_action_ids(
                old(self).registered_shortcuts@,
            ))),
    {
        let _ = bind_accepted;
        let count = listed.len();
        self.current_bindings = listed;
        if count > 0 {
            PortalNotice::Configured { count }
        } else {
            let mut action_ids: Vec<String> = Vec::new();
            let n = self.registered_shortcuts.len();
            for k in 0..n
                invariant
                    self.registered_shortcuts == old(self).registered_shortcuts,
                    n == self.registered_shortcuts@.len(),
                    action_ids@.len() == k,
                    forall|j: int|
                        0 <= j < k ==> action_ids@[j]@ == self.registered_shortcuts@[j].id@,
            {
                action_ids.push(self.registered_shortcuts[k].id.clone());
            }
            proof {
                assert(Seq::new(action_ids@.len(), |i: int| action_ids@[i]@) =~= spec_action_ids(
                    old(self).registered_shortcuts@,
                ));
            }
            PortalNotice::NeedsConfiguration {
                message: String::from_str("Global shortcuts are not configured"),
                instructions: String::from_str(
                    "Open the system settings and add shortcuts for the listed actions",
                ),
                action_ids,
            }
        }
    }

    /// Negotiation finished: the session is connected.
    pub fn complete_registration(&mut self)
        ensures
            final(self).session_state is Connected,
            final(self).registered_shortcuts == old(self).registered_shortcuts,
            final(self).current_bindings == old(self).current_bindings,
    {
        self.session_state = SessionState::Connected;
    }

    /// All three event streams have closed: the session is gone.
    pub fn streams_closed(&mut self)
        ensures
            final(self).session_state is Disconnected,
            final(self).registered_shortcuts == old(self).registered_shortcuts,
            final(self).current_bindings == old(self).current_bindings,
    {
        self.session_state = SessionState::Disconnected;
    }

    /// Unregistering on the portal backend is always a local no-op
    /// success: the host, not the application, owns the key mapping.
    pub fn unregister(&mut self, trigger: &str) -> (r: Result<(), String>)
        ensures
            r is Ok,
            *final(self) == *old(self),
    {
        let _ = trigger;
        Ok(())
    }
}

/// Turns a portal signal into the common vocabulary: an activation is a
/// press, a deactivation a release, and a configuration change is a
/// UI-only notice that produces no session event.
pub fn normalize_signal(signal: PortalSignal) -> (r: NormalizedSignal)
    ensures
        signal matches PortalSignal::Activated { shortcut_id, timestamp_ms } ==> (
        r matches NormalizedSignal::Event(e) && e.binding_id == shortcut_id && e.phase
            == ShortcutPhase::Pressed && e.timestamp_ms == timestamp_ms),
        signal matches PortalSignal::Deactivated { shortcut_id, timestamp_ms } ==> (
        r matches NormalizedSignal::Event(e) && e.binding_id == shortcut_id && e.phase
            == ShortcutPhase::Released && e.timestamp_ms == timestamp_ms),
        signal is ShortcutsChanged ==> r is ChangedNotice,
{
    match signal {
        PortalSignal::Activated { shortcut_id, timestamp_ms } => NormalizedSignal::Event(
            ShortcutEvent { binding_id: shortcut_id, phase: ShortcutPhase::Pressed, timestamp_ms },
        ),
        PortalSignal::Deactivated { shortcut_id, timestamp_ms } => NormalizedSignal::Event(
            ShortcutEvent { binding_id: shortcut_id, phase: ShortcutPhase::Released, timestamp_ms },
        ),
        PortalSignal::ShortcutsChanged => NormalizedSignal::ChangedNotice,
    }
}

impl WaylandShortcutManager {
    /// The actions this application submits: hold-to-dictate and cancel.
    pub fn get_default_actions() -> (r: Vec<ShortcutAction>)
    ensures
        r@.len() == 2,
        r@[0].id@ == "transcribe"@,
        r@[0].description@ == "Start voice dictation - hold to record, release to transcribe"@,
        (r@[0].preferred_trigger matches Some(t) && t@ == "CTRL+SPACE"@),
        r@[1].id@ == "cancel"@,
        r@[1].description@ == "Cancel the current recording"@,
        (r@[1].preferred_trigger matches Some(t) && t@ == "Escape"@),
    {
        let mut actions: Vec<ShortcutAction> = Vec::new();
        actions.push(
            ShortcutAction {
                id: String::from_str("transcribe"),
                description: String::from_str(
                    "Start voice dictation - hold to record, release to transcribe",
                ),
                preferred_trigger: Some(String::from_str("CTRL+SPACE")),
            },
        );
        actions.push(
            ShortcutAction {
                id: String::from_str("cancel"),
                description: String::from_str("Cancel the current recording"),
                preferred_trigger: Some(String::from_str("Escape")),
            },
        );
        actions
    }
}

} // verus!
