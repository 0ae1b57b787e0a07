//! Cloud transcription fallback: provider identities and result shapes.
//!
//! The network calls themselves are external collaborators; the library
//! only decides which provider is meant and carries the results around.

use vstd::prelude::*;

verus! {

/// Supported cloud speech-to-text providers.
#[derive(Debug, Clone, Copy, PartialEq, Eq, Structural)]
pub enum CloudSttProvider {
    OpenAI,
    ElevenLabs,
}

impl Default for CloudSttProvider {
    /// The provider used when none was chosen.
    fn default() -> (r: Self)
        ensures
            r == CloudSttProvider::ElevenLabs,
    {
        CloudSttProvider::ElevenLabs
    }
}

impl CloudSttProvider {
    /// The provider's stable identifier.
    pub fn as_str(&self) -> (r: &'static str)
        ensures
            *self == CloudSttProvider::OpenAI ==> r@ == "openai"@,
            *self == CloudSttProvider::ElevenLabs ==> r@ == "elevenlabs"@,
    {
        match self {
            CloudSttProvider::OpenAI => "openai",
            CloudSttProvider::ElevenLabs => "elevenlabs",
        }
    }

    /// The provider's name as shown to the user.
    pub fn display_name(&self) -> (r: &'static str)
        ensures
            *self == CloudSttProvider::OpenAI ==> r@ == "OpenAI Whisper"@,
            *self == CloudSttProvider::ElevenLabs ==> r@ == "ElevenLabs"@,
    {
        match self {
            CloudSttProvider::OpenAI => "OpenAI Whisper",
            CloudSttProvider::ElevenLabs => "ElevenLabs",
        }
    }
}

/// Result of one cloud transcription call.
#[derive(Debug, Clone)]
pub struct CloudSttResult {
    pub text: String,
    pub provider: CloudSttProvider,
    pub duration_ms: u64,
}

/// Whether the local transcription model is loaded, and which one.
#[derive(Debug, Clone)]
pub struct ModelLoadStatus {
    pub is_loaded: bool,
    pub current_model: Option<String>,
}

impl CloudSttProvider {
    /// The transcription endpoint the provider is called on.
    pub fn endpoint(&self) -> (r: &'static str)
        ensures
            *self == CloudSttProvider::OpenAI ==> r@
                == "https://api.openai.com/v1/audio/transcriptions"@,
            *self == CloudSttProvider::ElevenLabs ==> r@
                == "https://api.elevenlabs.io/v1/speech-to-text"@,
    {
        match self {
            CloudSttProvider::OpenAI => "https://api.openai.com/v1/audio/transcriptions",
            CloudSttProvider::ElevenLabs => "https://api.elevenlabs.io/v1/speech-to-text",
        }
    }
}

/// Normalizes a language hint for the cloud providers: the two script
/// variants of Chinese collapse to the bare code, everything else passes
/// through unchanged.
pub fn normalize_language_code(lang: &str) -> (r: &str)
    ensures
        lang@ == "zh-Hans"@ || lang@ == "zh-Hant"@ ==> r@ == "zh"@,
        lang@ != "zh-Hans"@ && lang@ != "zh-Hant"@ ==> r@ == lang@,
{
    proof {
        reveal_strlit("zh-Hans");
        reveal_strlit("zh-Hant");
        assert("zh-Hans"@.len() == 7);
        assert("zh-Hant"@.len() == 7);
    }
    if crate::text::str_eq(lang, "zh-Hans") || crate::text::str_eq(lang, "zh-Hant") {
        "zh"
    } else {
        lang
    }
}

/// A cloud call needs a key; with none configured the call is refused
/// before any audio leaves the machine.
pub fn validate_cloud_api_key(api_key: &str) -> (r: Result<(), String>)
    ensures
        api_key@.len() == 0 ==> (r matches Err(e) && e@ == "Cloud STT API key not configured"@),
        api_key@.len() > 0 ==> r is Ok,
{
    if api_key.is_empty() {
        Err(String::from_str("Cloud STT API key not configured"))
    } else {
        Ok(())
    }
}

} // verus!
