//! Desktop-menu integration for self-installing builds: where the
//! desktop file and icon go under the user's data directory, and what
//! the desktop file says.
//!
//! Reading the environment and writing the files is the caller's work;
//! the paths and the rendered entry are decided here.

use vstd::prelude::*;

verus! {

/// The desktop-file path under the given data directory.
pub fn get_desktop_file_path(xdg_data_home: &str) -> (r: String)
    ensures
        r@ == xdg_data_home@ + "/applications/voyc.desktop"@,
{
    String::from_str(xdg_data_home).concat("/applications/voyc.desktop")
}

/// The icon installation path under the given data directory.
pub fn get_icon_install_path(xdg_data_home: &str) -> (r: String)
    ensures
        r@ == xdg_data_home@ + "/icons/hicolor/256x256/apps/voyc.png"@,
{
    String::from_str(xdg_data_home).concat("/icons/hicolor/256x256/apps/voyc.png")
}

/// The desktop entry as written for the application menu, with the
/// executable and icon paths filled in.
pub fn render_desktop_entry(exec_path: &str, icon_path: &str) -> (r: String)
    ensures
        r@ == "[Desktop Entry]\nName=Voyc\nComment=Voice Dictation for Linux\nExec="@
            + exec_path@ + "\nIcon="@ + icon_path@
            + "\nType=Application\nCategories=Utility;Audio;\nKeywords=voice;dictation;speech;transcription;whisper;\nStartupWMClass=voyc\nTerminal=false\n"@,
{
    String::from_str("[Desktop Entry]\nName=Voyc\nComment=Voice Dictation for Linux\nExec=")
        .concat(exec_path)
        .concat("\nIcon=")
        .concat(icon_path)
        .concat(
            "\nType=Application\nCategories=Utility;Audio;\nKeywords=voice;dictation;speech;transcription;whisper;\nStartupWMClass=voyc\nTerminal=false\n",
        )
}

} // verus!
