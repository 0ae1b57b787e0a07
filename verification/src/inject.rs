//! Text injection decisions: clipboard-plus-paste-simulation strategy.
//!
//! The clipboard write and the paste-tool invocations are external
//! collaborators.  Decided here: whether the focused window is a terminal
//! (terminals paste with an extra Shift), which key chord and which tool
//! arguments to use, and how the collaborator outcomes combine into one
//! injection result.

use vstd::prelude::*;

use crate::text::{contains_lowered, contains_u32, lowered};

verus! {

/// Result of a text injection attempt.
#[derive(Debug, Clone)]
pub enum InjectionResult {
    /// Paste was simulated with the preferred uinput-based tool.
    SuccessYdotool,
    /// Paste was simulated with the Wayland-native fallback tool.
    SuccessWtype,
    /// The text reached the clipboard but no paste tool was available;
    /// the user must paste by hand.
    ClipboardOnly,
    /// Injection failed completely, with the reason.
    Failed(String),
}

/// Window-class names known to belong to terminals.
pub open spec fn spec_terminal_classes() -> Seq<Seq<char>> {
    seq![
        "gnome-terminal"@,
        "gnome-terminal-server"@,
        "konsole"@,
        "alacritty"@,
        "kitty"@,
        "foot"@,
        "wezterm"@,
        "tilix"@,
        "xfce4-terminal"@,
        "terminator"@,
        "st"@,
        "rio"@,
        "blackbox"@,
        "ptyxis"@,
        "kgx"@,
    ]
}

/// The known terminal window-class names, in matching order.
pub fn terminal_classes() -> (r: Vec<&'static str>)
    ensures
        r@.len() == spec_terminal_classes().len(),
        forall|j: int| 0 <= j < r@.len() ==> r@[j]@ == spec_terminal_classes()[j],
{
    let classes: Vec<&'static str> = vec![
        "gnome-terminal",
        "gnome-terminal-server",
        "konsole",
        "alacritty",
        "kitty",
        "foot",
        "wezterm",
        "tilix",
        "xfce4-terminal",
        "terminator",
        "st",
        "rio",
        "blackbox",
        "ptyxis",
        "kgx",
    ];
    assert(forall|j: int|
        0 <= j < classes@.len() ==> classes@[j]@ == spec_terminal_classes()[j]);
    classes
}

/// A window class counts as a terminal when its lowercased text contains
/// one of the known terminal class names.
pub open spec fn spec_is_terminal_class(class: Seq<char>) -> bool {
    exists|j: int|
        0 <= j < spec_terminal_classes().len() && contains_u32(
            lowered(class),
            lowered(spec_terminal_classes()[j]),
        )
}

/// Decides whether the focused window is a terminal, given the window
/// class the caller read from the host; an unknown class means "not a
/// terminal", the safer assumption.
pub fn detect_terminal(window_class: Option<&str>) -> (r: bool)
    ensures
        r == match window_class {
            Some(c) => spec_is_terminal_class(c@),
            None => false,
        },
{
    match window_class {
        None => false,
        Some(class) => {
            let classes = terminal_classes();
            let n = classes.len();
            for j in 0..n
                invariant
                    window_class == Some(class),
                    n == classes@.len(),
                    n == spec_terminal_classes().len(),
                    forall|p: int|
                        0 <= p < classes@.len() ==> classes@[p]@ == spec_terminal_classes()[p],
                    forall|p: int|
                        0 <= p < j ==> !contains_u32(
                            lowered(class@),
                            lowered(spec_terminal_classes()[p]),
                        ),
            {
                if contains_lowered(class, classes[j]) {
                    assert(spec_is_terminal_class(class@));
                    return true;
                }
            }
            false
        },
    }
}

/// The paste chord for the preferred tool: terminals take Ctrl+Shift+V,
/// everything else Ctrl+V.
pub fn ydotool_paste_keys(is_terminal: bool) -> (r: &'static str)
    ensures
        is_terminal ==> r@ == "ctrl+shift+v"@,
        !is_terminal ==> r@ == "ctrl+v"@,
{
    if is_terminal {
        "ctrl+shift+v"
    } else {
        "ctrl+v"
    }
}

/// The argument list handed to the Wayland-native paste tool: press the
/// modifiers, tap `v`, release the modifiers in reverse order.
pub fn wtype_paste_args(is_terminal: bool) -> (r: Vec<&'static str>)
    ensures
        is_terminal ==> r@.len() == 12 && r@[0]@ == "-M"@ && r@[1]@ == "ctrl"@ && r@[2]@ == "-M"@
            && r@[3]@ == "shift"@ && r@[4]@ == "-P"@ && r@[5]@ == "v"@ && r@[6]@ == "-p"@ && r@[7]@
            == "v"@ && r@[8]@ == "-m"@ && r@[9]@ == "shift"@ && r@[10]@ == "-m"@ && r@[11]@
            == "ctrl"@,
        !is_terminal ==> r@.len() == 8 && r@[0]@ == "-M"@ && r@[1]@ == "ctrl"@ && r@[2]@ == "-P"@
            && r@[3]@ == "v"@ && r@[4]@ == "-p"@ && r@[5]@ == "v"@ && r@[6]@ == "-m"@ && r@[7]@
            == "ctrl"@,
{
    if is_terminal {
        vec!["-M", "ctrl", "-M", "shift", "-P", "v", "-p", "v", "-m", "shift", "-m", "ctrl"]
    } else {
        vec!["-M", "ctrl", "-P", "v", "-p", "v", "-m", "ctrl"]
    }
}

/// Combines the paste-tool outcomes once the clipboard write succeeded:
/// the uinput tool wins, the Wayland tool is the fallback, and with
/// neither the text stays in the clipboard.
pub fn injection_outcome(ydotool_ok: bool, wtype_ok: bool) -> (r: InjectionResult)
    ensures
        ydotool_ok ==> r is SuccessYdotool,
        !ydotool_ok && wtype_ok ==> r is SuccessWtype,
        !ydotool_ok && !wtype_ok ==> r is ClipboardOnly,
{
    if ydotool_ok {
        InjectionResult::SuccessYdotool
    } else if wtype_ok {
        InjectionResult::SuccessWtype
    } else {
        InjectionResult::ClipboardOnly
    }
}

/// How an injection result is reported to the controlling layer.
#[derive(Debug, Clone)]
pub struct InjectionResultResponse {
    /// Whether the text was delivered, counting clipboard-only delivery
    /// as success.
    pub success: bool,
    /// The method used: `ydotool`, `wtype`, or `clipboard_only`.
    pub method: Option<String>,
    /// The failure reason when injection failed completely.
    pub error: Option<String>,
}

/// Translates an injection result for the controlling layer.
pub fn to_injection_response(result: InjectionResult) -> (r: InjectionResultResponse)
    ensures
        result is SuccessYdotool ==> r.success && (r.method matches Some(m) && m@ == "ydotool"@)
            && r.error is None,
        result is SuccessWtype ==> r.success && (r.method matches Some(m) && m@ == "wtype"@)
            && r.error is None,
        result is ClipboardOnly ==> r.success && (r.method matches Some(m) && m@
            == "clipboard_only"@) && r.error is None,
        result matches InjectionResult::Failed(msg) ==> !r.success && r.method is None && (
        r.error matches Some(e) && e@ == msg@),
{
    match result {
        InjectionResult::SuccessYdotool => InjectionResultResponse {
            success: true,
            method: Some(String::from_str("ydotool")),
            error: None,
        },
        InjectionResult::SuccessWtype => InjectionResultResponse {
            success: true,
            method: Some(String::from_str("wtype")),
            error: None,
        },
        InjectionResult::ClipboardOnly => InjectionResultResponse {
            success: true,
            method: Some(String::from_str("clipboard_only")),
            error: None,
        },
        InjectionResult::Failed(msg) => InjectionResultResponse {
            success: false,
            method: None,
            error: Some(msg),
        },
    }
}

/// Which paste tools the host offers.
#[derive(Debug, Clone)]
pub struct PasteToolsStatus {
    pub ydotool_available: bool,
    pub wtype_available: bool,
    pub any_available: bool,
}

/// Summarizes paste-tool availability as reported by the caller's checks.
pub fn check_paste_tools(ydotool_available: bool, wtype_available: bool) -> (r: PasteToolsStatus)
    ensures
        r.ydotool_available == ydotool_available,
        r.wtype_available == wtype_available,
        r.any_available == (ydotool_available || wtype_available),
{
    PasteToolsStatus {
        ydotool_available,
        wtype_available,
        any_available: ydotool_available || wtype_available,
    }
}

} // verus!
