//! The durable application settings and the shortcut binding table.
//!
//! Persistence is an external collaborator: callers load and store the
//! settings value; every read and update of its contents is decided here.
//! The binding table maps fixed binding ids (such as `transcribe` and
//! `cancel`) to their trigger strings; ids are never created or destroyed
//! at runtime, only their triggers change.

use vstd::prelude::*;

use crate::cloud_stt::CloudSttProvider;
use crate::text::str_eq;

verus! {

/// Where the recording overlay is shown.
#[derive(Debug, Clone, Copy, PartialEq, Eq, Structural)]
pub enum OverlayPosition {
    Hidden,
    Top,
    Bottom,
}

impl Default for OverlayPosition {
    /// The overlay position used when none was chosen.
    fn default() -> (r: Self)
        ensures
            r == OverlayPosition::Bottom,
    {
        OverlayPosition::Bottom
    }
}

/// How long the transcription model stays loaded after use.
#[derive(Debug, Clone, Copy, PartialEq, Eq, Structural)]
pub enum ModelUnloadTimeout {
    Never,
    Immediately,
    Min2,
    Min5,
    Min10,
    Min15,
    Hour1,
    Sec5,
}

impl Default for ModelUnloadTimeout {
    /// The timeout used when none was chosen.
    fn default() -> (r: Self)
        ensures
            r == ModelUnloadTimeout::Never,
    {
        ModelUnloadTimeout::Never
    }
}

impl ModelUnloadTimeout {
    /// The timeout in minutes; `None` means the model is never unloaded.
    pub open spec fn spec_to_minutes(self) -> Option<u64> {
        match self {
            ModelUnloadTimeout::Never => None,
            ModelUnloadTimeout::Immediately => Some(0u64),
            ModelUnloadTimeout::Min2 => Some(2u64),
            ModelUnloadTimeout::Min5 => Some(5u64),
            ModelUnloadTimeout::Min10 => Some(10u64),
            ModelUnloadTimeout::Min15 => Some(15u64),
            ModelUnloadTimeout::Hour1 => Some(60u64),
            ModelUnloadTimeout::Sec5 => Some(0u64),
        }
    }

    /// The timeout in seconds; `None` means the model is never unloaded.
    /// The sub-minute variant rounds down to zero minutes but keeps its
    /// five seconds here.
    pub open spec fn spec_to_seconds(self) -> Option<u64> {
        match self {
            ModelUnloadTimeout::Never => None,
            ModelUnloadTimeout::Sec5 => Some(5u64),
            _ => match self.spec_to_minutes() {
                Some(m) => Some((m * 60) as u64),
                None => None,
            },
        }
    }

    pub fn to_minutes(self) -> (r: Option<u64>)
        ensures
            r == self.spec_to_minutes(),
    {
        match self {
            ModelUnloadTimeout::Never => None,
            ModelUnloadTimeout::Immediately => Some(0),
            ModelUnloadTimeout::Min2 => Some(2),
            ModelUnloadTimeout::Min5 => Some(5),
            ModelUnloadTimeout::Min10 => Some(10),
            ModelUnloadTimeout::Min15 => Some(15),
            ModelUnloadTimeout::Hour1 => Some(60),
            ModelUnloadTimeout::Sec5 => Some(0),
        }
    }

    pub fn to_seconds(self) -> (r: Option<u64>)
        ensures
            r == self.spec_to_seconds(),
    {
        match self {
            ModelUnloadTimeout::Never => None,
            ModelUnloadTimeout::Immediately => Some(0),
            ModelUnloadTimeout::Sec5 => Some(5),
            _ => match self.to_minutes() {
                Some(m) => Some(m * 60),
                None => None,
            },
        }
    }
}

/// A post-processing provider choice offered to the user.
#[derive(Debug, Clone)]
pub struct PostProcessProvider {
    pub id: String,
    pub label: String,
    pub base_url: String,
    pub allow_base_url_edit: bool,
    pub models_endpoint: Option<String>,
}

/// The sound theme used for the start and stop cues.
#[derive(Debug, Clone, Copy, PartialEq, Eq, Structural)]
pub enum SoundTheme {
    Marimba,
    Pop,
    Custom,
}

impl SoundTheme {
    /// The theme's stable identifier.
    pub fn as_str(&self) -> (r: &'static str)
        ensures
            *self == SoundTheme::Marimba ==> r@ == "marimba"@,
            *self == SoundTheme::Pop ==> r@ == "pop"@,
            *self == SoundTheme::Custom ==> r@ == "custom"@,
    {
        match self {
            SoundTheme::Marimba => "marimba",
            SoundTheme::Pop => "pop",
            SoundTheme::Custom => "custom",
        }
    }

    /// The resource path of the theme's start cue.
    pub fn to_start_path(&self) -> (r: String)
        ensures
            *self == SoundTheme::Marimba ==> r@ == "resources/marimba_start.wav"@,
            *self == SoundTheme::Pop ==> r@ == "resources/pop_start.wav"@,
            *self == SoundTheme::Custom ==> r@ == "resources/custom_start.wav"@,
    {
        match self {
            SoundTheme::Marimba => String::from_str("resources/marimba_start.wav"),
            SoundTheme::Pop => String::from_str("resources/pop_start.wav"),
            SoundTheme::Custom => String::from_str("resources/custom_start.wav"),
        }
    }

    /// The resource path of the theme's stop cue.
    pub fn to_stop_path(&self) -> (r: String)
        ensures
            *self == SoundTheme::Marimba ==> r@ == "resources/marimba_stop.wav"@,
            *self == SoundTheme::Pop ==> r@ == "resources/pop_stop.wav"@,
            *self == SoundTheme::Custom ==> r@ == "resources/custom_stop.wav"@,
    {
        match self {
            SoundTheme::Marimba => String::from_str("resources/marimba_stop.wav"),
            SoundTheme::Pop => String::from_str("resources/pop_stop.wav"),
            SoundTheme::Custom => String::from_str("resources/custom_stop.wav"),
        }
    }
}

/// One named action with a user-assignable trigger.
#[derive(Debug, Clone)]
pub struct ShortcutBinding {
    pub id: String,
    pub name: String,
    pub description: String,
    pub default_binding: String,
    pub current_binding: String,
}

/// The first position in `bindings` whose id reads `id`, if any.
pub open spec fn spec_binding_index(bindings: Seq<ShortcutBinding>, id: Seq<char>) -> Option<int>
    decreases bindings.len(),
{
    if bindings.len() == 0 {
        None
    } else if bindings[0].id@ == id {
        Some(0int)
    } else {
        match spec_binding_index(bindings.skip(1), id) {
            Some(i) => Some(i + 1),
            None => None,
        }
    }
}

/// The binding stored under `id`, if any.
pub open spec fn spec_binding_of(bindings: Seq<ShortcutBinding>, id: Seq<char>) -> Option<
    ShortcutBinding,
> {
    match spec_binding_index(bindings, id) {
        Some(i) => Some(bindings[i]),
        None => None,
    }
}

/// A position returned by `spec_binding_index` is in range and carries
/// the id that was looked up, and positions before it carry other ids.
pub proof fn lemma_binding_index_props(bindings: Seq<ShortcutBinding>, id: Seq<char>)
    ensures
        match spec_binding_index(bindings, id) {
            Some(i) => 0 <= i < bindings.len() && bindings[i].id@ == id && (forall|j: int|
                0 <= j < i ==> bindings[j].id@ != id),
            None => forall|j: int| 0 <= j < bindings.len() ==> bindings[j].id@ != id,
        },
    decreases bindings.len(),
{
    if bindings.len() > 0 && bindings[0].id@ != id {
        let rest = bindings.skip(1);
        lemma_binding_index_props(rest, id);
        match spec_binding_index(rest, id) {
            Some(i) => {
                assert(bindings[i + 1] == rest[i]);
                assert forall|j: int| 0 <= j < i + 1 implies bindings[j].id@ != id by {
                    if j > 0 {
                        assert(bindings[j] == rest[j - 1]);
                    }
                }
            },
            None => {
                assert forall|j: int| 0 <= j < bindings.len() implies bindings[j].id@ != id by {
                    if j > 0 {
                        assert(bindings[j] == rest[j - 1]);
                    }
                }
            },
        }
    }
}

/// Lookup by id sees only the id fields, so it is unchanged by updates
/// that keep every id in place.
pub proof fn lemma_binding_index_same_ids(
    a: Seq<ShortcutBinding>,
    b: Seq<ShortcutBinding>,
    id: Seq<char>,
)
    requires
        a.len() == b.len(),
        forall|j: int| 0 <= j < a.len() ==> a[j].id@ == b[j].id@,
    ensures
        spec_binding_index(a, id) == spec_binding_index(b, id),
    decreases a.len(),
{
    if a.len() > 0 {
        assert(forall|j: int| 0 <= j < a.len() - 1 ==> a.skip(1)[j] == a[j + 1]);
        assert(forall|j: int| 0 <= j < b.len() - 1 ==> b.skip(1)[j] == b[j + 1]);
        lemma_binding_index_same_ids(a.skip(1), b.skip(1), id);
    }
}

/// The application settings the library's decisions read and update.
///
/// Audio-volume and confidence-threshold tunables are fractional and are
/// kept by the caller's own settings record; they play no part in any
/// decision made here.
#[derive(Debug, Clone)]
pub struct AppSettings {
    pub bindings: Vec<ShortcutBinding>,
    pub push_to_talk: bool,
    pub audio_feedback: bool,
    pub sound_theme: SoundTheme,
    pub start_hidden: bool,
    pub autostart_enabled: bool,
    pub update_checks_enabled: bool,
    pub selected_model: String,
    pub always_on_microphone: bool,
    pub selected_microphone: Option<String>,
    pub selected_output_device: Option<String>,
    pub translate_to_english: bool,
    pub selected_language: String,
    pub custom_words: Vec<String>,
    pub model_unload_timeout: ModelUnloadTimeout,
    pub mute_while_recording: bool,
    pub overlay_position: OverlayPosition,
    pub cloud_stt_enabled: bool,
    pub cloud_stt_provider: CloudSttProvider,
    pub cloud_stt_api_key: String,
    pub post_process_enabled: bool,
    pub post_process_api_key: String,
    pub post_process_provider: String,
}

impl AppSettings {
    /// Binding ids are pairwise distinct.
    pub open spec fn wf(&self) -> bool {
        forall|i: int, j: int|
            0 <= i < j < self.bindings@.len() ==> self.bindings@[i].id@ != self.bindings@[j].id@
    }

    /// Looks a binding up by id.
    pub fn get_binding(&self, id: &str) -> (r: Option<&ShortcutBinding>)
        ensures
            r == match spec_binding_index(self.bindings@, id@) {
                Some(i) => Some(&self.bindings@[i]),
                None => None::<&ShortcutBinding>,
            },
    {
        let n = self.bindings.len();
        for k in 0..n
            invariant
                n == self.bindings@.len(),
                forall|j: int| 0 <= j < k ==> self.bindings@[j].id@ != id@,
        {
            if str_eq(self.bindings[k].id.as_str(), id) {
                proof {
                    lemma_binding_index_props(self.bindings@, id@);
                }
                return Some(&self.bindings[k]);
            }
        }
        proof {
            lemma_binding_index_props(self.bindings@, id@);
        }
        None
    }

    /// Replaces the stored trigger of the binding `id`, which must exist.
    pub fn set_current_binding(&mut self, id: &str, new_binding: &str)
        requires
            old(self).wf(),
            spec_binding_index(old(self).bindings@, id@) is Some,
        ensures
            final(self).wf(),
            final(self).bindings@.len() == old(self).bindings@.len(),
            spec_binding_index(final(self).bindings@, id@) == spec_binding_index(
                old(self).bindings@,
                id@,
            ),
            ({
                let i = spec_binding_index(old(self).bindings@, id@)->Some_0;
                &&& forall|j: int|
                    0 <= j < old(self).bindings@.len() && j != i ==> final(self).bindings@[j]
                        == old(self).bindings@[j]
                &&& final(self).bindings@[i].id@ == old(self).bindings@[i].id@
                &&& final(self).bindings@[i].name@ == old(self).bindings@[i].name@
                &&& final(self).bindings@[i].description@ == old(self).bindings@[i].description@
                &&& final(self).bindings@[i].default_binding@
                    == old(self).bindings@[i].default_binding@
                &&& final(self).bindings@[i].current_binding@ == new_binding@
            }),
            final(self).push_to_talk == old(self).push_to_talk,
            final(self).audio_feedback == old(self).audio_feedback,
            final(self).mute_while_recording == old(self).mute_while_recording,
    {
        proof {
            lemma_binding_index_props(self.bindings@, id@);
        }
        let n = self.bindings.len();
        for k in 0..n
            invariant
                n == self.bindings@.len(),
                self == old(self),
                old(self).wf(),
                spec_binding_index(old(self).bindings@, id@) is Some,
                forall|j: int| 0 <= j < k ==> self.bindings@[j].id@ != id@,
        {
            if str_eq(self.bindings[k].id.as_str(), id) {
                proof {
                    lemma_binding_index_props(self.bindings@, id@);
                }
                let b = &self.bindings[k];
                let updated = ShortcutBinding {
                    id: b.id.clone(),
                    name: b.name.clone(),
                    description: b.description.clone(),
                    default_binding: b.default_binding.clone(),
                    current_binding: String::from_str(new_binding),
                };
                self.bindings.set(k, updated);
                proof {
                    assert forall|j: int|
                        0 <= j < self.bindings@.len() implies #[trigger] self.bindings@[j].id@
                        == old(self).bindings@[j].id@ by {}
                    lemma_binding_index_same_ids(self.bindings@, old(self).bindings@, id@);
                    assert forall|p: int, q: int|
                        0 <= p < q < self.bindings@.len() implies self.bindings@[p].id@
                        != self.bindings@[q].id@ by {
                        assert(self.bindings@[p].id@ == old(self).bindings@[p].id@);
                        assert(self.bindings@[q].id@ == old(self).bindings@[q].id@);
                        assert(old(self).bindings@[p].id@ != old(self).bindings@[q].id@);
                    }
                }
                return ;
            }
        }
        proof {
            lemma_binding_index_props(self.bindings@, id@);
        }
    }
}

pub fn default_post_process_provider() -> (r: String)
    ensures
        r@ == "baseten"@,
{
    String::from_str("baseten")
}

pub fn default_model() -> (r: String)
    ensures
        r@ == ""@,
{
    String::from_str("")
}

pub fn default_always_on_microphone() -> (r: bool)
    ensures
        r == false,
{
    false
}

pub fn default_translate_to_english() -> (r: bool)
    ensures
        r == false,
{
    false
}

pub fn default_start_hidden() -> (r: bool)
    ensures
        r == false,
{
    false
}

pub fn default_autostart_enabled() -> (r: bool)
    ensures
        r == false,
{
    false
}

pub fn default_update_checks_enabled() -> (r: bool)
    ensures
        r == true,
{
    true
}

pub fn default_selected_language() -> (r: String)
    ensures
        r@ == "auto"@,
{
    String::from_str("auto")
}

pub fn default_sound_theme() -> (r: SoundTheme)
    ensures
        r == SoundTheme::Marimba,
{
    SoundTheme::Marimba
}

/// The settings a fresh installation starts from: a `transcribe` binding
/// on `ctrl+space`, a `cancel` binding on `escape`, and conservative
/// defaults everywhere else.
pub fn get_default_settings() -> (r: AppSettings)
    ensures
        r.wf(),
        r.bindings@.len() == 2,
        r.bindings@[0].id@ == "transcribe"@,
        r.bindings@[0].current_binding@ == "ctrl+space"@,
        r.bindings@[0].default_binding@ == "ctrl+space"@,
        r.bindings@[1].id@ == "cancel"@,
        r.bindings@[1].current_binding@ == "escape"@,
        r.bindings@[1].default_binding@ == "escape"@,
        r.push_to_talk == true,
        r.audio_feedback == false,
        r.mute_while_recording == false,
        r.cloud_stt_enabled == false,
    {
    let transcribe = ShortcutBinding {
        id: String::from_str("transcribe"),
        name: String::from_str("Transcribe"),
        description: String::from_str("Converts your speech into text."),
        default_binding: String::from_str("ctrl+space"),
        current_binding: String::from_str("ctrl+space"),
    };
    let cancel = ShortcutBinding {
        id: String::from_str("cancel"),
        name: String::from_str("Cancel"),
        description: String::from_str("Cancels the current recording."),
        default_binding: String::from_str("escape"),
        current_binding: String::from_str("escape"),
    };
    let mut bindings: Vec<ShortcutBinding> = Vec::new();
    bindings.push(transcribe);
    bindings.push(cancel);
    proof {
        reveal_strlit("transcribe");
        reveal_strlit("cancel");
        assert("transcribe"@.len() == 10);
        assert("cancel"@.len() == 6);
    }
    AppSettings {
        bindings,
        push_to_talk: true,
        audio_feedback: false,
        sound_theme: default_sound_theme(),
        start_hidden: false,
        autostart_enabled: false,
        update_checks_enabled: true,
        selected_model: String::from_str(""),
        always_on_microphone: false,
        selected_microphone: None,
        selected_output_device: None,
        translate_to_english: false,
        selected_language: String::from_str("auto"),
        custom_words: Vec::new(),
        model_unload_timeout: ModelUnloadTimeout::Never,
        mute_while_recording: false,
        overlay_position: OverlayPosition::Bottom,
        cloud_stt_enabled: false,
        cloud_stt_provider: CloudSttProvider::ElevenLabs,
        cloud_stt_api_key: String::new(),
        post_process_enabled: false,
        post_process_api_key: String::new(),
        post_process_provider: default_post_process_provider(),
    }
}

/// Parses a sound-theme name; unknown names are rejected.
pub fn sound_theme_from_str(v: &str) -> (r: Option<SoundTheme>)
    ensures
        v@ == "marimba"@ ==> r == Some(SoundTheme::Marimba),
        v@ == "pop"@ ==> r == Some(SoundTheme::Pop),
        v@ == "custom"@ ==> r == Some(SoundTheme::Custom),
        v@ != "marimba"@ && v@ != "pop"@ && v@ != "custom"@ ==> r is None,
{
    proof {
        reveal_strlit("marimba");
        reveal_strlit("pop");
        reveal_strlit("custom");
        assert("marimba"@.len() == 7);
        assert("pop"@.len() == 3);
        assert("custom"@.len() == 6);
    }
    if str_eq(v, "marimba") {
        Some(SoundTheme::Marimba)
    } else if str_eq(v, "pop") {
        Some(SoundTheme::Pop)
    } else if str_eq(v, "custom") {
        Some(SoundTheme::Custom)
    } else {
        None
    }
}

/// Whether a dictation text mode is one of the accepted values.
pub fn is_valid_dictation_text_mode(v: &str) -> (r: bool)
    ensures
        r == (v@ == "append"@ || v@ == "replace"@),
{
    str_eq(v, "append") || str_eq(v, "replace")
}

/// Whether a theme mode is one of the accepted values.
pub fn is_valid_theme_mode(v: &str) -> (r: bool)
    ensures
        r == (v@ == "system"@ || v@ == "light"@ || v@ == "dark"@),
{
    str_eq(v, "system") || str_eq(v, "light") || str_eq(v, "dark")
}

/// Whether a log level is one of the accepted values.
pub fn is_valid_log_level(v: &str) -> (r: bool)
    ensures
        r == (v@ == "error"@ || v@ == "warn"@ || v@ == "info"@ || v@ == "debug"@ || v@
            == "trace"@),
{
    str_eq(v, "error") || str_eq(v, "warn") || str_eq(v, "info") || str_eq(v, "debug") || str_eq(
        v,
        "trace",
    )
}

/// One typed settings change from the controlling layer.  Fractional
/// tunables (feedback volume, confidence thresholds) belong to the
/// caller's own settings record and are not routed through here.
#[derive(Debug, Clone)]
pub enum SettingUpdate {
    PushToTalk(bool),
    AudioFeedback(bool),
    StartHidden(bool),
    /// Stores the preference; switching the host's autostart facility on
    /// or off is the caller's call.
    AutostartEnabled(bool),
    UpdateChecksEnabled(bool),
    TranslateToEnglish(bool),
    SelectedLanguage(String),
    MuteWhileRecording(bool),
    AlwaysOnMicrophone(bool),
    CloudSttEnabled(bool),
    /// A sound-theme name; unknown names are rejected.
    SoundTheme(String),
}

/// Applies one typed settings change.  Every field other than the
/// addressed one keeps its value; an invalid sound-theme name is
/// rejected with a descriptive error and changes nothing.
#[verifier::rlimit(60)]
pub fn update_setting(settings: &mut AppSettings, update: SettingUpdate) -> (r: Result<
    (),
    String,
>)
    requires
        old(settings).wf(),
    ensures
        final(settings).wf(),
        update matches SettingUpdate::PushToTalk(v) ==> r is Ok && *final(settings) == (AppSettings {
            push_to_talk: v,
            ..*old(settings)
        }),
        update matches SettingUpdate::AudioFeedback(v) ==> r is Ok && *final(settings)
            == (AppSettings { audio_feedback: v, ..*old(settings) }),
        update matches SettingUpdate::StartHidden(v) ==> r is Ok && *final(settings)
            == (AppSettings { start_hidden: v, ..*old(settings) }),
        update matches SettingUpdate::AutostartEnabled(v) ==> r is Ok && *final(settings)
            == (AppSettings { autostart_enabled: v, ..*old(settings) }),
        update matches SettingUpdate::UpdateChecksEnabled(v) ==> r is Ok && *final(settings)
            == (AppSettings { update_checks_enabled: v, ..*old(settings) }),
        update matches SettingUpdate::TranslateToEnglish(v) ==> r is Ok && *final(settings)
            == (AppSettings { translate_to_english: v, ..*old(settings) }),
        update matches SettingUpdate::SelectedLanguage(v) ==> r is Ok && *final(settings)
            == (AppSettings { selected_language: v, ..*old(settings) }),
        update matches SettingUpdate::MuteWhileRecording(v) ==> r is Ok && *final(settings)
            == (AppSettings { mute_while_recording: v, ..*old(settings) }),
        update matches SettingUpdate::AlwaysOnMicrophone(v) ==> r is Ok && *final(settings)
            == (AppSettings { always_on_microphone: v, ..*old(settings) }),
        update matches SettingUpdate::CloudSttEnabled(v) ==> r is Ok && *final(settings)
            == (AppSettings { cloud_stt_enabled: v, ..*old(settings) }),
        update matches SettingUpdate::SoundTheme(v) ==> (match spec_sound_theme_of(v@) {
            Some(theme) => r is Ok && *final(settings) == (AppSettings {
                sound_theme: theme,
                ..*old(settings)
            }),
            None => (r matches Err(e) && e@ == "Invalid sound_theme: '"@ + v@
                + "'. Must be 'marimba', 'pop', or 'custom'"@) && *final(settings) == *old(
                settings,
            ),
        }),
{
    match update {
        SettingUpdate::PushToTalk(v) => {
            settings.push_to_talk = v;
            Ok(())
        },
        SettingUpdate::AudioFeedback(v) => {
            settings.audio_feedback = v;
            Ok(())
        },
        SettingUpdate::StartHidden(v) => {
            settings.start_hidden = v;
            Ok(())
        },
        SettingUpdate::AutostartEnabled(v) => {
            settings.autostart_enabled = v;
            Ok(())
        },
        SettingUpdate::UpdateChecksEnabled(v) => {
            settings.update_checks_enabled = v;
            Ok(())
        },
        SettingUpdate::TranslateToEnglish(v) => {
            settings.translate_to_english = v;
            Ok(())
        },
        SettingUpdate::SelectedLanguage(v) => {
            settings.selected_language = v;
            Ok(())
        },
        SettingUpdate::MuteWhileRecording(v) => {
            settings.mute_while_recording = v;
            Ok(())
        },
        SettingUpdate::AlwaysOnMicrophone(v) => {
            settings.always_on_microphone = v;
            Ok(())
        },
        SettingUpdate::CloudSttEnabled(v) => {
            settings.cloud_stt_enabled = v;
            Ok(())
        },
        SettingUpdate::SoundTheme(v) => {
            match sound_theme_from_str(v.as_str()) {
                Some(theme) => {
                    settings.sound_theme = theme;
                    Ok(())
                },
                None => Err(
                    String::from_str("Invalid sound_theme: '").concat(v.as_str()).concat(
                        "'. Must be 'marimba', 'pop', or 'custom'",
                    ),
                ),
            }
        },
    }
}

/// The sound theme a name denotes, if any.
pub open spec fn spec_sound_theme_of(v: Seq<char>) -> Option<SoundTheme> {
    if v == "marimba"@ {
        Some(SoundTheme::Marimba)
    } else if v == "pop"@ {
        Some(SoundTheme::Pop)
    } else if v == "custom"@ {
        Some(SoundTheme::Custom)
    } else {
        None
    }
}

/// Appending a binding whose id is already present does not change what
/// lookups of other ids see, and a binding found before is found after.
pub proof fn lemma_binding_index_push(bs: Seq<ShortcutBinding>, b: ShortcutBinding, id: Seq<char>)
    ensures
        spec_binding_index(bs, id) is Some ==> spec_binding_index(bs.push(b), id)
            == spec_binding_index(bs, id),
        spec_binding_index(bs, id) is None && b.id@ == id ==> spec_binding_index(bs.push(b), id)
            == Some(bs.len() as int),
        spec_binding_index(bs, id) is None && b.id@ != id ==> spec_binding_index(bs.push(b), id)
            is None,
    decreases bs.len(),
{
    let pushed = bs.push(b);
    if bs.len() == 0 {
        assert(pushed[0] == b);
        assert(pushed.skip(1) =~= Seq::<ShortcutBinding>::empty());
        assert(spec_binding_index(Seq::<ShortcutBinding>::empty(), id) is None);
    } else {
        assert(pushed[0] == bs[0]);
        assert(pushed.skip(1) =~= bs.skip(1).push(b));
        lemma_binding_index_push(bs.skip(1), b, id);
    }
}

/// Ensures the fixed default bindings exist: a fresh or older settings
/// record gains any missing default binding, and everything already
/// stored keeps its place and value.  Returns whether anything was added.
pub fn merge_default_bindings(settings: &mut AppSettings) -> (updated: bool)
    requires
        old(settings).wf(),
    ensures
        final(settings).wf(),
        final(settings).bindings@.len() >= old(settings).bindings@.len(),
        forall|j: int|
            0 <= j < old(settings).bindings@.len() ==> final(settings).bindings@[j] == old(
                settings,
            ).bindings@[j],
        spec_binding_index(final(settings).bindings@, "transcribe"@) is Some,
        spec_binding_index(final(settings).bindings@, "cancel"@) is Some,
        updated == (spec_binding_index(old(settings).bindings@, "transcribe"@) is None
            || spec_binding_index(old(settings).bindings@, "cancel"@) is None),
        !updated ==> final(settings).bindings@ == old(settings).bindings@,
        final(settings).push_to_talk == old(settings).push_to_talk,
        final(settings).audio_feedback == old(settings).audio_feedback,
        final(settings).sound_theme == old(settings).sound_theme,
{
    proof {
        reveal_strlit("transcribe");
        reveal_strlit("cancel");
        assert("transcribe"@.len() == 10);
        assert("cancel"@.len() == 6);
    }
    let mut updated = false;
    if settings.get_binding("transcribe").is_none() {
        let b = ShortcutBinding {
            id: String::from_str("transcribe"),
            name: String::from_str("Transcribe"),
            description: String::from_str("Converts your speech into text."),
            default_binding: String::from_str("ctrl+space"),
            current_binding: String::from_str("ctrl+space"),
        };
        push_binding(settings, b);
        updated = true;
    }
    if settings.get_binding("cancel").is_none() {
        let b = ShortcutBinding {
            id: String::from_str("cancel"),
            name: String::from_str("Cancel"),
            description: String::from_str("Cancels the current recording."),
            default_binding: String::from_str("escape"),
            current_binding: String::from_str("escape"),
        };
        push_binding(settings, b);
        updated = true;
    }
    updated
}

/// Appends a binding whose id is not yet present.
fn push_binding(settings: &mut AppSettings, b: ShortcutBinding)
    requires
        old(settings).wf(),
        spec_binding_index(old(settings).bindings@, b.id@) is None,
    ensures
        final(settings).wf(),
        final(settings).bindings@ == old(settings).bindings@.push(b),
        spec_binding_index(final(settings).bindings@, b.id@) == Some(
            old(settings).bindings@.len() as int,
        ),
        forall|x: Seq<char>|
            spec_binding_index(old(settings).bindings@, x) is Some ==> spec_binding_index(
                final(settings).bindings@,
                x,
            ) == spec_binding_index(old(settings).bindings@, x),
        forall|x: Seq<char>|
            spec_binding_index(old(settings).bindings@, x) is None && x != b.id@
                ==> spec_binding_index(final(settings).bindings@, x) is None,
        final(settings).push_to_talk == old(settings).push_to_talk,
        final(settings).audio_feedback == old(settings).audio_feedback,
        final(settings).sound_theme == old(settings).sound_theme,
{
    proof {
        lemma_binding_index_props(settings.bindings@, b.id@);
    }
    self_push(settings, b);
    proof {
        let bs0 = old(settings).bindings@;
        assert(settings.bindings@ =~= bs0.push(b));
        lemma_binding_index_push(bs0, b, b.id@);
        assert forall|x: Seq<char>|
            spec_binding_index(bs0, x) is Some implies spec_binding_index(
            settings.bindings@,
            x,
        ) == spec_binding_index(bs0, x) by {
            lemma_binding_index_push(bs0, b, x);
        }
        assert forall|x: Seq<char>|
            spec_binding_index(bs0, x) is None && x != b.id@ implies spec_binding_index(
            settings.bindings@,
            x,
        ) is None by {
            lemma_binding_index_push(bs0, b, x);
        }
        assert forall|p: int, q: int|
            0 <= p < q < settings.bindings@.len() implies settings.bindings@[p].id@
            != settings.bindings@[q].id@ by {
            lemma_binding_index_props(bs0, b.id@);
            if q < bs0.len() {
                assert(settings.bindings@[p] == bs0[p]);
                assert(settings.bindings@[q] == bs0[q]);
            } else {
                assert(settings.bindings@[q] == b);
                assert(settings.bindings@[p] == bs0[p]);
                assert(bs0[p].id@ != b.id@);
            }
        }
    }
}

/// Appends to the binding table.
fn self_push(settings: &mut AppSettings, b: ShortcutBinding)
    ensures
        final(settings).bindings@ == old(settings).bindings@.push(b),
        final(settings).push_to_talk == old(settings).push_to_talk,
        final(settings).audio_feedback == old(settings).audio_feedback,
        final(settings).sound_theme == old(settings).sound_theme,
        final(settings).selected_language == old(settings).selected_language,
{
    settings.bindings.push(b);
}

/// The whole binding table.
pub fn get_bindings(settings: &AppSettings) -> (r: &Vec<ShortcutBinding>)
    ensures
        r == &settings.bindings,
{
    &settings.bindings
}

/// The binding stored under `id`, which must exist.
pub fn get_stored_binding(settings: &AppSettings, id: &str) -> (r: ShortcutBinding)
    requires
        spec_binding_index(settings.bindings@, id@) is Some,
    ensures
        Some(r) == spec_binding_of(settings.bindings@, id@),
{
    proof {
        lemma_binding_index_props(settings.bindings@, id@);
    }
    match settings.get_binding(id) {
        Some(b) => ShortcutBinding {
            id: b.id.clone(),
            name: b.name.clone(),
            description: b.description.clone(),
            default_binding: b.default_binding.clone(),
            current_binding: b.current_binding.clone(),
        },
        None => {
            proof {
                assert(false);
            }
            unreached()
        },
    }
}

} // verus!
