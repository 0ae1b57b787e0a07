//! The common shortcut event vocabulary and its routing.
//!
//! Both backends reduce their notifications to one event shape, and the
//! dictation session is driven by nothing else.  Routing decides which
//! session operation a delivered event means.

use vstd::prelude::*;

use crate::text::str_eq;

verus! {

/// Whether a shortcut was pressed or released.
#[derive(Debug, Clone, Copy, PartialEq, Eq, Structural)]
pub enum ShortcutPhase {
    Pressed,
    Released,
}

/// One normalized shortcut event, as both backends produce it.
#[derive(Debug, Clone)]
pub struct ShortcutEvent {
    pub binding_id: String,
    pub phase: ShortcutPhase,
    pub timestamp_ms: u64,
}

/// The dictation session operation an event routes to.
#[derive(Debug, Clone, Copy, PartialEq, Eq, Structural)]
pub enum SessionCommand {
    StartDictation,
    StopDictation,
    CancelDictation,
}

/// What a press of the given binding means to the session: the
/// `transcribe` binding starts dictation, the `cancel` binding cancels
/// it, and any other binding is not the session's business.
pub fn route_pressed(binding_id: &str) -> (r: Option<SessionCommand>)
    ensures
        binding_id@ == "transcribe"@ ==> r == Some(SessionCommand::StartDictation),
        binding_id@ == "cancel"@ ==> r == Some(SessionCommand::CancelDictation),
        binding_id@ != "transcribe"@ && binding_id@ != "cancel"@ ==> r is None,
{
    proof {
        reveal_strlit("transcribe");
        reveal_strlit("cancel");
        assert("transcribe"@.len() == 10);
        assert("cancel"@.len() == 6);
    }
    if str_eq(binding_id, "transcribe") {
        Some(SessionCommand::StartDictation)
    } else if str_eq(binding_id, "cancel") {
        Some(SessionCommand::CancelDictation)
    } else {
        None
    }
}

/// What a release of the given binding means to the session: releasing
/// the `transcribe` binding stops dictation; nothing else is routed.
pub fn route_released(binding_id: &str) -> (r: Option<SessionCommand>)
    ensures
        binding_id@ == "transcribe"@ ==> r == Some(SessionCommand::StopDictation),
        binding_id@ != "transcribe"@ ==> r is None,
{
    if str_eq(binding_id, "transcribe") {
        Some(SessionCommand::StopDictation)
    } else {
        None
    }
}

} // verus!
