//! Tray icon state and the icon chosen for each theme and state.
//!
//! Rendering the tray itself is an external collaborator; the choice of
//! which icon resource represents which state is decided here.

use vstd::prelude::*;

verus! {

/// The state shown by the tray icon.
#[derive(Debug, Clone, Copy, PartialEq, Eq, Structural)]
pub enum TrayIconState {
    Idle,
    Recording,
    Transcribing,
    Error,
    Off,
}

/// The icon theme in use.
#[derive(Debug, Clone, Copy, PartialEq, Eq, Structural)]
pub enum AppTheme {
    Dark,
    Light,
    /// The colored theme, used where monochrome tinting is unavailable.
    Colored,
}

/// The icon resource for a theme and state.
pub open spec fn spec_icon_path(theme: AppTheme, state: TrayIconState) -> Seq<char> {
    match (theme, state) {
        (AppTheme::Colored, TrayIconState::Idle) => "resources/tray_idle.png"@,
        (AppTheme::Colored, TrayIconState::Recording) => "resources/tray_active.png"@,
        (AppTheme::Colored, TrayIconState::Transcribing) => "resources/tray_active.png"@,
        (AppTheme::Colored, TrayIconState::Error) => "resources/tray_error.png"@,
        (AppTheme::Colored, TrayIconState::Off) => "resources/tray_off.png"@,
        (AppTheme::Dark, TrayIconState::Idle) => "resources/tray_idle.png"@,
        (AppTheme::Dark, TrayIconState::Recording) => "resources/tray_recording.png"@,
        (AppTheme::Dark, TrayIconState::Transcribing) => "resources/tray_transcribing.png"@,
        (AppTheme::Dark, TrayIconState::Error) => "resources/tray_error.png"@,
        (AppTheme::Dark, TrayIconState::Off) => "resources/tray_off.png"@,
        (AppTheme::Light, TrayIconState::Idle) => "resources/tray_idle_dark.png"@,
        (AppTheme::Light, TrayIconState::Recording) => "resources/tray_recording_dark.png"@,
        (AppTheme::Light, TrayIconState::Transcribing) => "resources/tray_transcribing_dark.png"@,
        (AppTheme::Light, TrayIconState::Error) => "resources/tray_error.png"@,
        (AppTheme::Light, TrayIconState::Off) => "resources/tray_off.png"@,
    }
}

/// Returns the icon resource path for the given theme and state.
pub fn get_icon_path(theme: AppTheme, state: TrayIconState) -> (r: &'static str)
    ensures
        r@ == spec_icon_path(theme, state),
{
    match (theme, state) {
        (AppTheme::Colored, TrayIconState::Idle) => "resources/tray_idle.png",
        (AppTheme::Colored, TrayIconState::Recording) => "resources/tray_active.png",
        (AppTheme::Colored, TrayIconState::Transcribing) => "resources/tray_active.png",
        (AppTheme::Colored, TrayIconState::Error) => "resources/tray_error.png",
        (AppTheme::Colored, TrayIconState::Off) => "resources/tray_off.png",
        (AppTheme::Dark, TrayIconState::Idle) => "resources/tray_idle.png",
        (AppTheme::Dark, TrayIconState::Recording) => "resources/tray_recording.png",
        (AppTheme::Dark, TrayIconState::Transcribing) => "resources/tray_transcribing.png",
        (AppTheme::Dark, TrayIconState::Error) => "resources/tray_error.png",
        (AppTheme::Dark, TrayIconState::Off) => "resources/tray_off.png",
        (AppTheme::Light, TrayIconState::Idle) => "resources/tray_idle_dark.png",
        (AppTheme::Light, TrayIconState::Recording) => "resources/tray_recording_dark.png",
        (AppTheme::Light, TrayIconState::Transcribing) => "resources/tray_transcribing_dark.png",
        (AppTheme::Light, TrayIconState::Error) => "resources/tray_error.png",
        (AppTheme::Light, TrayIconState::Off) => "resources/tray_off.png",
    }
}

/// Whether the icon is rendered as a template image, letting the host
/// tint it; the colored theme keeps its own colors.
pub fn icon_as_template(theme: AppTheme) -> (r: bool)
    ensures
        r == (theme != AppTheme::Colored),
{
    match theme {
        AppTheme::Colored => false,
        _ => true,
    }
}

/// One entry of the tray menu, in display order.
#[derive(Debug, Clone, Copy, PartialEq, Eq, Structural)]
pub enum TrayMenuEntry {
    /// The disabled version label.
    Version,
    Separator,
    /// Cancels the running dictation; shown only while one runs.
    Cancel,
    /// Starts a dictation; shown only while idle.
    StartDictation,
    /// Opens the settings window.
    Settings,
    /// Checks for updates; enabled only when update checks are on.
    CheckUpdates,
    Quit,
}

/// The menu the tray shows in each state: a running dictation offers
/// Cancel, an idle tray offers Start Dictation, and error or off states
/// offer neither.
pub open spec fn spec_tray_menu(state: TrayIconState) -> Seq<TrayMenuEntry> {
    match state {
        TrayIconState::Recording | TrayIconState::Transcribing => seq![
            TrayMenuEntry::Version,
            TrayMenuEntry::Separator,
            TrayMenuEntry::Cancel,
            TrayMenuEntry::Separator,
            TrayMenuEntry::Settings,
            TrayMenuEntry::CheckUpdates,
            TrayMenuEntry::Separator,
            TrayMenuEntry::Quit,
        ],
        TrayIconState::Idle => seq![
            TrayMenuEntry::Version,
            TrayMenuEntry::Separator,
            TrayMenuEntry::StartDictation,
            TrayMenuEntry::Separator,
            TrayMenuEntry::Settings,
            TrayMenuEntry::CheckUpdates,
            TrayMenuEntry::Separator,
            TrayMenuEntry::Quit,
        ],
        TrayIconState::Error | TrayIconState::Off => seq![
            TrayMenuEntry::Version,
            TrayMenuEntry::Separator,
            TrayMenuEntry::Settings,
            TrayMenuEntry::CheckUpdates,
            TrayMenuEntry::Separator,
            TrayMenuEntry::Quit,
        ],
    }
}

/// Lays the tray menu out for a state.
pub fn update_tray_menu(state: TrayIconState) -> (r: Vec<TrayMenuEntry>)
    ensures
        r@ == spec_tray_menu(state),
{
    let mut entries: Vec<TrayMenuEntry> = Vec::new();
    entries.push(TrayMenuEntry::Version);
    entries.push(TrayMenuEntry::Separator);
    match state {
        TrayIconState::Recording | TrayIconState::Transcribing => {
            entries.push(TrayMenuEntry::Cancel);
            entries.push(TrayMenuEntry::Separator);
        },
        TrayIconState::Idle => {
            entries.push(TrayMenuEntry::StartDictation);
            entries.push(TrayMenuEntry::Separator);
        },
        TrayIconState::Error | TrayIconState::Off => {},
    }
    entries.push(TrayMenuEntry::Settings);
    entries.push(TrayMenuEntry::CheckUpdates);
    entries.push(TrayMenuEntry::Separator);
    entries.push(TrayMenuEntry::Quit);
    proof {
        assert(entries@ =~= spec_tray_menu(state));
    }
    entries
}

} // verus!
