//! Display-server detection and the shortcut backend choice.
//!
//! The host exposes one of two global-shortcut mechanisms: direct key
//! grabbing (an X-style display) or an out-of-process portal (a
//! Wayland-style session).  Reading the process environment is the
//! caller's job; the classification of what was read is decided here.

use vstd::prelude::*;

verus! {

/// Which mechanism the host offers for global shortcuts.
#[derive(Debug, Clone, Copy, PartialEq, Eq, Structural)]
pub enum ShortcutBackend {
    /// Direct key grabbing through the windowing system.
    X11,
    /// Out-of-process portal negotiation on a Wayland session.
    WaylandPortal,
    /// No usable backend was detected.
    Unavailable,
}

/// What the process environment says about the active display server.
///
/// `is_wayland` and `is_x11` report whether the respective display
/// variables were present; the two string fields carry the session-type
/// and desktop-environment variables verbatim when they were set.
#[derive(Debug, Clone)]
pub struct DisplayServerInfo {
    pub is_wayland: bool,
    pub is_x11: bool,
    pub session_type: Option<String>,
    pub desktop_environment: Option<String>,
}

impl DisplayServerInfo {
    /// The server name used in the human-readable description.
    pub open spec fn spec_server_name(&self) -> Seq<char> {
        if self.is_wayland {
            "Wayland"@
        } else if self.is_x11 {
            "X11"@
        } else {
            "Unknown"@
        }
    }

    /// The desktop name used in the human-readable description.
    pub open spec fn spec_desktop_name(&self) -> Seq<char> {
        match self.desktop_environment {
            Some(d) => d@,
            None => "Unknown"@,
        }
    }

    /// The full human-readable description: `<server> on <desktop>`.
    pub open spec fn spec_description(&self) -> Seq<char> {
        self.spec_server_name() + " on "@ + self.spec_desktop_name()
    }

    /// Returns a user-facing description of the display server.
    pub fn description(&self) -> (r: String)
        ensures
            r@ == self.spec_description(),
    {
        let server: &str = if self.is_wayland {
            "Wayland"
        } else if self.is_x11 {
            "X11"
        } else {
            "Unknown"
        };
        let desktop: &str = match &self.desktop_environment {
            Some(d) => d.as_str(),
            None => "Unknown",
        };
        String::from_str(server).concat(" on ").concat(desktop)
    }

    /// Returns whether global shortcuts must go through the portal.
    pub fn requires_portal(&self) -> (r: bool)
        ensures
            r == self.is_wayland,
    {
        self.is_wayland
    }
}

/// Classifies the display server into the backend to use: a Wayland-style
/// session wins over an X-style display, and with neither marker present
/// no backend is available.
pub fn detect_backend(info: &DisplayServerInfo) -> (r: ShortcutBackend)
    ensures
        r == spec_detect_backend(info.is_wayland, info.is_x11),
{
    if info.is_wayland {
        ShortcutBackend::WaylandPortal
    } else if info.is_x11 {
        ShortcutBackend::X11
    } else {
        ShortcutBackend::Unavailable
    }
}

/// The backend decision table for a Linux host.
pub open spec fn spec_detect_backend(is_wayland: bool, is_x11: bool) -> ShortcutBackend {
    if is_wayland {
        ShortcutBackend::WaylandPortal
    } else if is_x11 {
        ShortcutBackend::X11
    } else {
        ShortcutBackend::Unavailable
    }
}

/// The backend decision table with the platform rule: a non-Linux host
/// always resolves to direct key grabbing; a Linux host goes by the
/// display-server markers.
pub open spec fn spec_detect_backend_platform(
    is_linux: bool,
    is_wayland: bool,
    is_x11: bool,
) -> ShortcutBackend {
    if is_linux {
        spec_detect_backend(is_wayland, is_x11)
    } else {
        ShortcutBackend::X11
    }
}

/// Classifies the backend for the given platform: non-Linux hosts always
/// use direct key grabbing; Linux hosts go by the display server.
pub fn detect_backend_for_platform(is_linux: bool, info: &DisplayServerInfo) -> (r:
    ShortcutBackend)
    ensures
        r == spec_detect_backend_platform(is_linux, info.is_wayland, info.is_x11),
{
    if is_linux {
        detect_backend(info)
    } else {
        ShortcutBackend::X11
    }
}

} // verus!
