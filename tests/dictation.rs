use std::cell::RefCell;

use dikt::domain::{
    default_true, AppSettings, DictationState, DictationUpdate, Paster, Recorder, SettingsStore,
    VocabularyEntry,
};
use dikt::manager::DictationSessionManager;

struct FakeRecorder {
    fail_start: bool,
}

impl Recorder for FakeRecorder {
    fn start(&self) -> Result<(), String> {
        if self.fail_start {
            Err("no microphone".to_string())
        } else {
            Ok(())
        }
    }

    fn stop(&self) -> Result<Vec<u8>, String> {
        Ok(vec![1, 2, 3])
    }
}

struct FakeStore {
    refuse: bool,
    saved: RefCell<Vec<String>>,
}

fn settings(model: &str) -> AppSettings {
    AppSettings {
        base_url: "https://api.openai.com/v1".to_string(),
        api_key: "sk".to_string(),
        model: model.to_string(),
        provider: "openai".to_string(),
    }
}

impl SettingsStore for FakeStore {
    fn load(&self) -> AppSettings {
        settings("whisper-1")
    }

    fn save(&self, s: &AppSettings) -> Result<(), String> {
        if self.refuse {
            return Err("disk full".to_string());
        }
        self.saved.borrow_mut().push(s.model.clone());
        Ok(())
    }
}

struct FakePaster {
    fail: bool,
    pasted: RefCell<Vec<String>>,
}

impl Paster for FakePaster {
    fn paste(&self, text: &str) -> Result<(), String> {
        if self.fail {
            return Err("paste refused".to_string());
        }
        self.pasted.borrow_mut().push(text.to_string());
        Ok(())
    }

    fn copy(&self, _text: &str) -> Result<(), String> {
        Ok(())
    }
}

fn manager(
    fail_start: bool,
    refuse_save: bool,
    fail_paste: bool,
) -> DictationSessionManager<FakeRecorder, FakeStore, FakePaster> {
    DictationSessionManager::new(
        FakeRecorder { fail_start },
        FakeStore { refuse: refuse_save, saved: RefCell::new(Vec::new()) },
        FakePaster { fail: fail_paste, pasted: RefCell::new(Vec::new()) },
    )
}

fn states(updates: &[DictationUpdate]) -> Vec<DictationState> {
    updates.iter().map(|u| u.state).collect()
}

#[test]
fn update_builders() {
    let u = DictationUpdate::new(DictationState::Done).text("hi".to_string()).message("m".to_string());
    assert_eq!(u.state, DictationState::Done);
    assert_eq!(u.text.as_deref(), Some("hi"));
    assert_eq!(u.message.as_deref(), Some("m"));
    let u = DictationUpdate::new(DictationState::Idle);
    assert!(u.text.is_none() && u.message.is_none());
}

#[test]
fn vocabulary_defaults() {
    assert!(default_true());
    let v = VocabularyEntry::default();
    assert!(v.id.is_empty() && v.word.is_empty() && v.replacements.is_empty() && !v.enabled);
}

#[test]
fn settings_load_and_save() {
    let mut m = manager(false, false, false);
    assert_eq!(m.get_settings().unwrap().model, "whisper-1");
    assert_eq!(m.save_settings(settings("gpt-4o-transcribe")), Ok(()));
    assert_eq!(m.get_settings().unwrap().model, "gpt-4o-transcribe");
    let mut m = manager(false, true, false);
    assert_eq!(m.save_settings(settings("other")), Err("disk full".to_string()));
    assert_eq!(m.get_settings().unwrap().model, "whisper-1");
}

#[test]
fn full_run() {
    let mut m = manager(false, false, false);
    assert_eq!(m.state(), DictationState::Idle);
    let out = m.start_recording();
    assert_eq!(out.result, Ok(()));
    assert_eq!(states(&out.updates), vec![DictationState::Recording]);
    let busy = m.start_recording();
    assert_eq!(busy.result, Err("Busy".to_string()));
    assert!(busy.updates.is_empty());
    let out = m.begin_processing();
    assert_eq!(out.result, Ok(()));
    assert_eq!(states(&out.updates), vec![DictationState::Transcribing]);
    assert_eq!(m.stop_recorder(), Ok(vec![1, 2, 3]));
    let out = m.finish_processing(Ok("hello".to_string()));
    assert_eq!(out.result, Ok("hello".to_string()));
    assert_eq!(states(&out.updates), vec![DictationState::Pasting, DictationState::Done]);
    assert_eq!(out.updates[1].text.as_deref(), Some("hello"));
    assert_eq!(m.state(), DictationState::Idle);
}

#[test]
fn recorder_failure_returns_to_idle() {
    let mut m = manager(true, false, false);
    let out = m.start_recording();
    assert_eq!(out.result, Err("no microphone".to_string()));
    assert_eq!(states(&out.updates), vec![DictationState::Recording, DictationState::Error]);
    assert_eq!(out.updates[1].message.as_deref(), Some("no microphone"));
    assert_eq!(m.state(), DictationState::Idle);
}

#[test]
fn processing_needs_a_recording() {
    let mut m = manager(false, false, false);
    let out = m.begin_processing();
    assert_eq!(out.result, Err("Not recording".to_string()));
    assert!(out.updates.is_empty());
    assert_eq!(m.state(), DictationState::Idle);
}

#[test]
fn transcription_and_paste_failures() {
    let mut m = manager(false, false, false);
    m.start_recording();
    m.begin_processing();
    let out = m.finish_processing(Err("Missing API key".to_string()));
    assert_eq!(out.result, Err("Missing API key".to_string()));
    assert_eq!(states(&out.updates), vec![DictationState::Error]);
    assert_eq!(m.state(), DictationState::Idle);

    let mut m = manager(false, false, true);
    m.start_recording();
    m.begin_processing();
    let out = m.finish_processing(Ok("text".to_string()));
    assert_eq!(out.result, Err("paste refused".to_string()));
    assert_eq!(states(&out.updates), vec![DictationState::Pasting, DictationState::Error]);
    assert_eq!(out.updates[1].message.as_deref(), Some("paste refused"));
    assert_eq!(m.state(), DictationState::Idle);
}
