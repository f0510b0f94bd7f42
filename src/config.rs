//! The settings snapshot that a transcription cycle reads.

use vstd::prelude::*;

verus! {

/// How a transcript is rewritten before it is inserted.
#[derive(Debug, Clone, Copy, PartialEq, Eq, Structural)]
pub enum RewriteMode {
    Off,
    /// Fix capitalization and punctuation.
    Cleanup,
    /// Translate to English.
    Translate,
}

/// The settings: service keys, language hint, input device, rewrite flags
/// and whether Enter follows each insertion.
#[derive(Debug, Clone)]
pub struct Config {
    pub elevenlabs_api_key: String,
    pub anthropic_api_key: Option<String>,
    pub ezwhisper_language: String,
    pub ezwhisper_device: Option<usize>,
    pub ezwhisper_cleanup: bool,
    pub ezwhisper_translate: bool,
    pub ezwhisper_enter: bool,
}

/// The language hint used when none is set: English.
pub fn default_language() -> (r: String)
    ensures
        r@ == "en"@,
{
    "en".to_owned()
}

/// The rewrite that the flags ask for: translation wins over cleanup, and
/// either needs a key for the rewrite service.
pub open spec fn rewrite_mode_of(translate: bool, cleanup: bool, has_key: bool) -> RewriteMode {
    if translate && has_key {
        RewriteMode::Translate
    } else if cleanup && has_key {
        RewriteMode::Cleanup
    } else {
        RewriteMode::Off
    }
}

impl Config {
    /// The settings with only the transcription key given: no rewrite key,
    /// English, the default device, no rewrite, no Enter.
    pub fn new(elevenlabs_api_key: String) -> (r: Config)
        ensures
            r.elevenlabs_api_key@ == elevenlabs_api_key@,
            r.anthropic_api_key is None,
            r.ezwhisper_language@ == "en"@,
            r.ezwhisper_device is None,
            !r.ezwhisper_cleanup,
            !r.ezwhisper_translate,
            !r.ezwhisper_enter,
    {
        Config {
            elevenlabs_api_key,
            anthropic_api_key: None,
            ezwhisper_language: default_language(),
            ezwhisper_device: None,
            ezwhisper_cleanup: false,
            ezwhisper_translate: false,
            ezwhisper_enter: false,
        }
    }

    /// The rewrite to apply to each transcript.
    pub fn rewrite_mode(&self) -> (r: RewriteMode)
        ensures
            r == rewrite_mode_of(
                self.ezwhisper_translate,
                self.ezwhisper_cleanup,
                self.anthropic_api_key is Some,
            ),
    {
        let has_key = self.anthropic_api_key.is_some();
        if self.ezwhisper_translate && has_key {
            RewriteMode::Translate
        } else if self.ezwhisper_cleanup && has_key {
            RewriteMode::Cleanup
        } else {
            RewriteMode::Off
        }
    }

    /// The configured input device among `device_count` devices; `None`
    /// (use the default device) when none is set or the index is out of
    /// range.
    pub fn device_index(&self, device_count: usize) -> (r: Option<usize>)
        ensures
            r == match self.ezwhisper_device {
                Some(i) => if i < device_count {
                    Some(i)
                } else {
                    None
                },
                None => None,
            },
    {
        match self.ezwhisper_device {
            Some(i) => if i < device_count {
                Some(i)
            } else {
                None
            },
            None => None,
        }
    }
}

} // verus!
