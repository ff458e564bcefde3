use vstd::prelude::*;
use vstd::string::StringExecFns;
use crate::domain::{
    AppSettings, DictationState, DictationUpdate, Paster, Recorder, SettingsStore,
};

verus! {

/// The result of a step of a dictation run, with the progress reports that
/// the step made, in order.
#[derive(Debug)]
pub struct RunOutcome<T> {
    pub result: Result<T, String>,
    pub updates: Vec<DictationUpdate>,
}

/// A report of `state` with no message and no text.
pub open spec fn plain_update(u: DictationUpdate, state: DictationState) -> bool {
    u.state == state && u.message is None && u.text is None
}

/// The error report that carries `message`.
pub open spec fn error_update(u: DictationUpdate, message: String) -> bool {
    u.state == DictationState::Error && u.message == Some(message) && u.text is None
}

/// Runs dictation: one recording at a time, from `Idle` through recording,
/// transcription and pasting, and back to `Idle`.
pub struct DictationSessionManager<R: Recorder, S: SettingsStore, P: Paster> {
    state: DictationState,
    settings: AppSettings,
    recorder: R,
    settings_store: S,
    paster: P,
}

impl<R: Recorder, S: SettingsStore, P: Paster> DictationSessionManager<R, S, P> {
    pub closed spec fn state_spec(&self) -> DictationState {
        self.state
    }

    pub closed spec fn settings_spec(&self) -> AppSettings {
        self.settings
    }

    /// A manager in `Idle`, with the settings that the store loads.
    pub fn new(recorder: R, settings_store: S, paster: P) -> (r: Self)
        ensures
            r.state_spec() == DictationState::Idle,
    {
        let initial_settings = settings_store.load();
        DictationSessionManager {
            state: DictationState::Idle,
            settings: initial_settings,
            recorder,
            settings_store,
            paster,
        }
    }

    pub fn state(&self) -> (r: DictationState)
        ensures
            r == self.state_spec(),
    {
        self.state
    }

    /// A copy of the current settings.
    pub fn get_settings(&self) -> (r: Result<AppSettings, String>)
        ensures
            r == Ok::<AppSettings, String>(self.settings_spec()),
    {
        Ok(self.settings.copy())
    }

    /// Persists `settings`, then makes them current. When the store refuses
    /// them, its error comes back and nothing changes.
    pub fn save_settings(&mut self, settings: AppSettings) -> (r: Result<(), String>)
        ensures
            final(self).state_spec() == old(self).state_spec(),
            r is Ok ==> final(self).settings_spec() == settings,
            r is Err ==> final(self).settings_spec() == old(self).settings_spec(),
    {
        match self.settings_store.save(&settings) {
            Ok(()) => {
                self.settings = settings;
                Ok(())
            },
            Err(e) => Err(e),
        }
    }

    /// Starts a recording. Outside `Idle` it fails with `Busy` and changes
    /// nothing. Otherwise it reports `Recording` and starts the recorder; if
    /// the recorder fails, it returns to `Idle`, reports the error and
    /// returns it.
    pub fn start_recording(&mut self) -> (out: RunOutcome<()>)
        ensures
            old(self).state_spec() != DictationState::Idle ==> {
                &&& out.result matches Err(e) && e@ == "Busy"@
                &&& out.updates@.len() == 0
                &&& final(self).state_spec() == old(self).state_spec()
            },
            old(self).state_spec() == DictationState::Idle ==> {
                &&& out.updates@.len() >= 1
                &&& plain_update(out.updates@[0], DictationState::Recording)
                &&& out.result is Ok ==> {
                    &&& out.updates@.len() == 1
                    &&& final(self).state_spec() == DictationState::Recording
                }
                &&& out.result matches Err(e) ==> {
                    &&& out.updates@.len() == 2
                    &&& error_update(out.updates@[1], e)
                    &&& final(self).state_spec() == DictationState::Idle
                }
            },
            final(self).settings_spec() == old(self).settings_spec(),
    {
        let mut updates: Vec<DictationUpdate> = Vec::new();
        if self.state != DictationState::Idle {
            return RunOutcome { result: Err(String::from_str("Busy")), updates };
        }
        self.state = DictationState::Recording;
        updates.push(DictationUpdate::new(DictationState::Recording));
        match self.recorder.start() {
            Ok(()) => RunOutcome { result: Ok(()), updates },
            Err(e) => {
                self.set_state(DictationState::Idle);
                updates.push(DictationUpdate::new(DictationState::Error).message(e.clone()));
                RunOutcome { result: Err(e), updates }
            },
        }
    }

    /// Ends the recording phase: from `Recording` it moves to `Transcribing`
    /// and reports it; in any other state it fails with `Not recording` and
    /// changes nothing.
    pub fn begin_processing(&mut self) -> (out: RunOutcome<()>)
        ensures
            old(self).state_spec() != DictationState::Recording ==> {
                &&& out.result matches Err(e) && e@ == "Not recording"@
                &&& out.updates@.len() == 0
                &&& final(self).state_spec() == old(self).state_spec()
            },
            old(self).state_spec() == DictationState::Recording ==> {
                &&& out.result is Ok
                &&& out.updates@.len() == 1
                &&& plain_update(out.updates@[0], DictationState::Transcribing)
                &&& final(self).state_spec() == DictationState::Transcribing
            },
            final(self).settings_spec() == old(self).settings_spec(),
    {
        let mut updates: Vec<DictationUpdate> = Vec::new();
        if self.state != DictationState::Recording {
            return RunOutcome { result: Err(String::from_str("Not recording")), updates };
        }
        self.state = DictationState::Transcribing;
        updates.push(DictationUpdate::new(DictationState::Transcribing));
        RunOutcome { result: Ok(()), updates }
    }

    /// Stops the recorder and hands over the captured audio.
    pub fn stop_recorder(&self) -> (r: Result<Vec<u8>, String>) {
        self.recorder.stop()
    }

    /// Completes a run with the outcome of the transcription. A transcribed
    /// text is reported as `Pasting`, pasted, then reported as `Done` with
    /// the text and returned; a failure at either step is reported as an
    /// error and returned. The manager is `Idle` afterwards in every case.
    pub fn finish_processing(&mut self, transcription: Result<String, String>) -> (out: RunOutcome<
        String,
    >)
        ensures
            final(self).state_spec() == DictationState::Idle,
            final(self).settings_spec() == old(self).settings_spec(),
            transcription matches Err(e) ==> {
                &&& out.result == Err::<String, String>(e)
                &&& out.updates@.len() == 1
                &&& error_update(out.updates@[0], e)
            },
            transcription matches Ok(text) ==> {
                &&& out.updates@.len() == 2
                &&& plain_update(out.updates@[0], DictationState::Pasting)
                &&& out.result is Ok ==> {
                    &&& out.result == Ok::<String, String>(text)
                    &&& out.updates@[1].state == DictationState::Done
                    &&& out.updates@[1].message is None
                    &&& out.updates@[1].text == Some(text)
                }
                &&& out.result matches Err(e) ==> error_update(out.updates@[1], e)
            },
    {
        let mut updates: Vec<DictationUpdate> = Vec::new();
        let result = match transcription {
            Err(e) => Err(e),
            Ok(text) => {
                self.set_state(DictationState::Pasting);
                updates.push(DictationUpdate::new(DictationState::Pasting));
                match self.paster.paste(text.as_str()) {
                    Err(e) => Err(e),
                    Ok(()) => {
                        self.set_state(DictationState::Done);
                        updates.push(DictationUpdate::new(DictationState::Done).text(text.clone()));
                        Ok(text)
                    },
                }
            },
        };
        self.set_state(DictationState::Idle);
        match result {
            Ok(text) => RunOutcome { result: Ok(text), updates },
            Err(e) => {
                updates.push(DictationUpdate::new(DictationState::Error).message(e.clone()));
                RunOutcome { result: Err(e), updates }
            },
        }
    }

    fn set_state(&mut self, next: DictationState)
        ensures
            final(self).state_spec() == next,
            final(self).settings_spec() == old(self).settings_spec(),
    {
        self.state = next;
    }
}

} // verus!
