//! The closed error taxonomy of the backend. Each failure mode is a
//! distinct variant; boundaries that need text render it with `message`.

use vstd::prelude::*;
use vstd::string::StringExecFns;

use crate::audio::AudioState;

verus! {

/// Domain-level errors.
#[derive(Debug, Clone)]
pub enum DomainError {
    /// Malformed configuration or missing OS directory.
    Config(String),
    /// The privacy guard refused an outbound request.
    NetworkBlocked { reason: String },
    /// Transport failure or non-success HTTP status.
    HttpRequest(String),
    /// Encoding or decoding failure.
    Serialization(String),
    /// Filesystem failure.
    Io(String),
    /// Generic audio failure.
    Audio(String),
    /// Generic transcription failure.
    Transcription(String),
    /// Device-layer audio failure.
    AudioDevice { message: String },
    /// A state change that is not a legal edge of the audio machine.
    AudioStateTransition { from: AudioState, to: AudioState },
    /// Stop was requested while not recording.
    AudioNotRecording,
    /// Start was requested while already recording.
    AudioAlreadyRecording,
    /// Generic model failure.
    Model(String),
    /// The requested model or variant is not in the catalog.
    ModelNotFound(String),
    /// A downloaded model file failed its checksum verification.
    ModelVerification { expected: String, actual: String },
    /// A model download failed.
    ModelDownload(String),
    /// Hardware detection failure.
    Hardware(String),
    /// Inference backend failure.
    Whisper(String),
    /// Clipboard access failure.
    Clipboard(String),
    /// Synthetic input failure.
    InputSimulation(String),
}

impl DomainError {
    /// A short label naming the error variant, for boundaries that render
    /// errors as text.
    pub fn label(&self) -> (r: &'static str)
        ensures
            r@.len() > 0,
    {
        let r: &'static str = match self {
            DomainError::Config(..) => "configuration error",
            DomainError::NetworkBlocked { .. } => "network request blocked",
            DomainError::HttpRequest(..) => "HTTP request failed",
            DomainError::Serialization(..) => "serialization error",
            DomainError::Io(..) => "IO error",
            DomainError::Audio(..) => "audio error",
            DomainError::Transcription(..) => "transcription error",
            DomainError::AudioDevice { .. } => "audio device error",
            DomainError::AudioStateTransition { .. } => "invalid audio state transition",
            DomainError::AudioNotRecording => "not currently recording",
            DomainError::AudioAlreadyRecording => "already recording",
            DomainError::Model(..) => "model error",
            DomainError::ModelNotFound(..) => "model not found",
            DomainError::ModelVerification { .. } => "model verification failed",
            DomainError::ModelDownload(..) => "model download failed",
            DomainError::Hardware(..) => "hardware detection error",
            DomainError::Whisper(..) => "whisper error",
            DomainError::Clipboard(..) => "clipboard error",
            DomainError::InputSimulation(..) => "input simulation error",
        };
        proof {
            reveal_strlit("configuration error");
            reveal_strlit("network request blocked");
            reveal_strlit("HTTP request failed");
            reveal_strlit("serialization error");
            reveal_strlit("IO error");
            reveal_strlit("audio error");
            reveal_strlit("transcription error");
            reveal_strlit("audio device error");
            reveal_strlit("invalid audio state transition");
            reveal_strlit("not currently recording");
            reveal_strlit("already recording");
            reveal_strlit("model error");
            reveal_strlit("model not found");
            reveal_strlit("model verification failed");
            reveal_strlit("model download failed");
            reveal_strlit("hardware detection error");
            reveal_strlit("whisper error");
            reveal_strlit("clipboard error");
            reveal_strlit("input simulation error");
        }
        r
    }

    /// Render the error as one line of text: the variant label, then any
    /// detail the variant carries.
    pub fn message(&self) -> (r: String) {
        let mut out = String::from_str(self.label());
        match self {
            DomainError::Config(m)
            | DomainError::HttpRequest(m)
            | DomainError::Serialization(m)
            | DomainError::Io(m)
            | DomainError::Audio(m)
            | DomainError::Transcription(m)
            | DomainError::Model(m)
            | DomainError::ModelNotFound(m)
            | DomainError::ModelDownload(m)
            | DomainError::Hardware(m)
            | DomainError::Whisper(m)
            | DomainError::Clipboard(m)
            | DomainError::InputSimulation(m) => {
                out.append(": ");
                out.append(m.as_str());
            },
            DomainError::NetworkBlocked { reason } => {
                out.append(": ");
                out.append(reason.as_str());
            },
            DomainError::AudioDevice { message } => {
                out.append(": ");
                out.append(message.as_str());
            },
            DomainError::ModelVerification { expected, actual } => {
                out.append(": expected ");
                out.append(expected.as_str());
                out.append(", got ");
                out.append(actual.as_str());
            },
            DomainError::AudioStateTransition { .. }
            | DomainError::AudioNotRecording
            | DomainError::AudioAlreadyRecording => {},
        }
        out
    }
}

} // verus!
