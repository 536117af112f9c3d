//! The controller's toggle flow: the reentry guard that serializes the
//! compound stop-transcribe-inject operation, the decision taken from the
//! current audio state, and the shape of the result handed to the
//! front-end. The controller's I/O (audio commands, inference, clipboard)
//! runs outside and follows the actions decided here.

use vstd::prelude::*;

use crate::audio::AudioState;
use crate::errors::DomainError;

verus! {

use vstd::string::StringExecFns;

/// Result of a toggle operation.
#[derive(Debug, Clone)]
pub enum ToggleResult {
    /// Recording started.
    Started,
    /// Recording stopped and transcription completed.
    Completed {
        /// The transcribed text, or `None` if no speech was detected.
        text: Option<String>,
    },
}

/// The reentry guard of the toggle operation: one atomic flag, taken with
/// a compare-and-exchange and reset on every exit path, so that of
/// overlapping toggle invocations exactly one runs and the others fail
/// fast.
pub struct ToggleGuard {
    in_progress: bool,
}

impl ToggleGuard {
    /// Whether a toggle is running.
    pub closed spec fn spec_in_progress(&self) -> bool {
        self.in_progress
    }

    /// A fresh guard with no toggle running.
    pub fn new() -> (r: ToggleGuard)
        ensures
            !r.spec_in_progress(),
    {
        ToggleGuard { in_progress: false }
    }

    /// Try to enter the toggle operation: succeeds exactly when no
    /// toggle is running, and then marks one as running. A failed
    /// acquisition changes nothing and yields the reentry error.
    pub fn try_acquire(&mut self) -> (r: Result<(), DomainError>)
        ensures
            r is Ok <==> !old(self).spec_in_progress(),
            final(self).spec_in_progress(),
            r matches Err(e) ==> e is Audio,
    {
        if self.in_progress {
            Err(DomainError::Audio(String::from_str("Toggle already in progress")))
        } else {
            self.in_progress = true;
            Ok(())
        }
    }

    /// Leave the toggle operation; the next invocation may enter.
    pub fn release(&mut self)
        ensures
            !final(self).spec_in_progress(),
    {
        self.in_progress = false;
    }
}

/// What the toggle operation does, decided from the current audio state:
/// start a recording from `Idle`; stop, transcribe and inject from
/// `Recording`; fail while the device is lost or recovering, and fail
/// asking for recovery from `Error`.
#[derive(Debug, Clone, Copy, PartialEq, Eq, Structural)]
pub enum ToggleAction {
    /// Start recording.
    StartRecording,
    /// Stop recording, transcribe the buffer and inject the text.
    StopAndTranscribe,
}

/// Decide the toggle action for an audio state.
pub fn toggle_action(state: AudioState) -> (r: Result<ToggleAction, DomainError>)
    ensures
        state == AudioState::Idle ==> r == Ok::<ToggleAction, DomainError>(
            ToggleAction::StartRecording,
        ),
        state == AudioState::Recording ==> r == Ok::<ToggleAction, DomainError>(
            ToggleAction::StopAndTranscribe,
        ),
        (state == AudioState::DeviceLost || state == AudioState::Recovering || state
            == AudioState::Error) ==> (r matches Err(e) && e is Audio),
{
    match state {
        AudioState::Idle => Ok(ToggleAction::StartRecording),
        AudioState::Recording => Ok(ToggleAction::StopAndTranscribe),
        AudioState::DeviceLost | AudioState::Recovering => Err(
            DomainError::Audio(
                String::from_str("Audio device unavailable, please wait for recovery"),
            ),
        ),
        AudioState::Error => Err(
            DomainError::Audio(String::from_str("Audio is in error state, please recover first")),
        ),
    }
}

/// Turn a finished transcription into the toggle result: empty text
/// completes with no text and nothing must be injected; otherwise the
/// text is to be injected and returned.
pub fn completed_result(text: String) -> (r: (ToggleResult, bool))
    ensures
        text@.len() == 0 ==> (r.0 matches ToggleResult::Completed { text: t } && t is None) && r.1
            == false,
        text@.len() > 0 ==> (r.0 matches ToggleResult::Completed { text: t } && t == Some(text))
            && r.1 == true,
{
    if text.as_str().is_empty() {
        (ToggleResult::Completed { text: None }, false)
    } else {
        (ToggleResult::Completed { text: Some(text) }, true)
    }
}

/// The transcription language the controller passes to the engine: the
/// configured language, with "auto" mapping to none (auto-detection).
pub fn effective_language(configured: &String) -> (r: Option<String>)
    ensures
        configured@ == "auto"@ ==> r is None,
        configured@ != "auto"@ ==> (r matches Some(l) && l@ == configured@),
{
    if crate::text::str_eq(configured.as_str(), "auto") {
        None
    } else {
        Some(configured.clone())
    }
}

} // verus!
