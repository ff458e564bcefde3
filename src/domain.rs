use vstd::prelude::*;

verus! {

/// Where a dictation run stands.
#[derive(Clone, Copy, Debug, PartialEq, Eq, Structural)]
pub enum DictationState {
    Idle,
    Recording,
    Transcribing,
    Pasting,
    Done,
    Error,
}

/// A progress report of a dictation run, for the UI.
#[derive(Debug)]
pub struct DictationUpdate {
    pub state: DictationState,
    pub message: Option<String>,
    pub text: Option<String>,
}

impl DictationUpdate {
    /// A report of `state` alone.
    pub fn new(state: DictationState) -> (r: DictationUpdate)
        ensures
            r.state == state,
            r.message is None,
            r.text is None,
    {
        DictationUpdate { state, message: None, text: None }
    }

    /// The same report with `message` attached.
    pub fn message(self, message: String) -> (r: DictationUpdate)
        ensures
            r.state == self.state,
            r.message == Some(message),
            r.text == self.text,
    {
        DictationUpdate { state: self.state, message: Some(message), text: self.text }
    }

    /// The same report with `text` attached.
    pub fn text(self, text: String) -> (r: DictationUpdate)
        ensures
            r.state == self.state,
            r.message == self.message,
            r.text == Some(text),
    {
        DictationUpdate { state: self.state, message: self.message, text: Some(text) }
    }
}

/// The value that a missing `enabled` flag of a vocabulary entry takes.
pub fn default_true() -> (r: bool)
    ensures
        r,
{
    true
}

/// A custom word, with the spellings that should be replaced by it.
#[derive(Debug)]
pub struct VocabularyEntry {
    pub id: String,
    pub word: String,
    pub replacements: Vec<String>,
    pub enabled: bool,
}

impl Default for VocabularyEntry {
    fn default() -> (r: VocabularyEntry)
        ensures
            r.id@ == Seq::<char>::empty(),
            r.word@ == Seq::<char>::empty(),
            r.replacements@ == Seq::<String>::empty(),
            !r.enabled,
    {
        VocabularyEntry { id: String::new(), word: String::new(), replacements: Vec::new(), enabled: false }
    }
}

/// Connection settings of the transcription provider.
#[derive(Debug)]
pub struct AppSettings {
    pub base_url: String,
    pub api_key: String,
    pub model: String,
    pub provider: String,
}

impl AppSettings {
    /// A field-by-field copy.
    pub fn copy(&self) -> (r: AppSettings)
        ensures
            r == *self,
    {
        AppSettings {
            base_url: self.base_url.clone(),
            api_key: self.api_key.clone(),
            model: self.model.clone(),
            provider: self.provider.clone(),
        }
    }
}

/// Starts and stops audio capture.
pub trait Recorder {
    fn start(&self) -> Result<(), String>;

    fn stop(&self) -> Result<Vec<u8>, String>;
}

/// Loads and persists the settings.
pub trait SettingsStore {
    fn load(&self) -> AppSettings;

    fn save(&self, settings: &AppSettings) -> Result<(), String>;
}

/// Delivers the transcribed text to the focused application.
pub trait Paster {
    fn paste(&self, text: &str) -> Result<(), String>;

    fn copy(&self, text: &str) -> Result<(), String>;
}

} // verus!
