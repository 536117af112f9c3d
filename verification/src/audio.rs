//! Audio capture lifecycle: the five-state machine with its legal edges,
//! the atomic state cell, the capture configuration and the event values
//! that the capture engine emits.

use vstd::prelude::*;

verus! {

/// Audio capture state machine.
///
/// Recovery always leads to `Idle`, never straight back to `Recording`:
/// after a device loss the user must explicitly restart recording.
#[derive(Debug, Clone, Copy, PartialEq, Eq, Structural)]
pub enum AudioState {
    /// Ready to record, no active capture.
    Idle,
    /// Actively capturing audio.
    Recording,
    /// Input device was disconnected.
    DeviceLost,
    /// Attempting to recover from device loss.
    Recovering,
    /// Unrecoverable error occurred.
    Error,
}

/// The legal edges of the audio state machine: start, stop, device loss,
/// entering recovery from a lost or failed device, and recovery ending in
/// `Idle` (success) or `Error` (attempts exhausted).
pub open spec fn is_legal_transition(from: AudioState, to: AudioState) -> bool {
    ||| (from == AudioState::Idle && to == AudioState::Recording)
    ||| (from == AudioState::Recording && to == AudioState::Idle)
    ||| (from == AudioState::Recording && to == AudioState::DeviceLost)
    ||| (from == AudioState::DeviceLost && to == AudioState::Recovering)
    ||| (from == AudioState::Error && to == AudioState::Recovering)
    ||| (from == AudioState::Recovering && to == AudioState::Idle)
    ||| (from == AudioState::Recovering && to == AudioState::Error)
}

/// Recovery never re-enters `Recording` directly: the edge from
/// `Recovering` to `Recording` is not in the machine.
pub proof fn lemma_recovering_never_records()
    ensures
        !is_legal_transition(AudioState::Recovering, AudioState::Recording),
{
}

impl AudioState {
    /// Recording can be started exactly from `Idle`.
    #[must_use]
    pub fn can_start_recording(&self) -> (r: bool)
        ensures
            r == (*self == AudioState::Idle),
            r == is_legal_transition(*self, AudioState::Recording),
    {
        matches!(self, AudioState::Idle)
    }

    /// Recording can be stopped exactly from `Recording`.
    #[must_use]
    pub fn can_stop_recording(&self) -> (r: bool)
        ensures
            r == (*self == AudioState::Recording),
            r ==> is_legal_transition(*self, AudioState::Idle),
    {
        matches!(self, AudioState::Recording)
    }

    /// Recovery can be attempted exactly from `DeviceLost` and `Error`.
    #[must_use]
    pub fn can_recover(&self) -> (r: bool)
        ensures
            r == (*self == AudioState::DeviceLost || *self == AudioState::Error),
            r == is_legal_transition(*self, AudioState::Recovering),
    {
        matches!(self, AudioState::DeviceLost | AudioState::Error)
    }
}

/// The byte encoding of an audio state. Bytes outside the five encoded
/// values decode to `Error`, defensively.
pub open spec fn spec_state_of_byte(value: u8) -> AudioState {
    if value == 0 {
        AudioState::Idle
    } else if value == 1 {
        AudioState::Recording
    } else if value == 2 {
        AudioState::DeviceLost
    } else if value == 3 {
        AudioState::Recovering
    } else {
        AudioState::Error
    }
}

/// The byte an audio state encodes to.
pub open spec fn spec_byte_of_state(state: AudioState) -> u8 {
    match state {
        AudioState::Idle => 0,
        AudioState::Recording => 1,
        AudioState::DeviceLost => 2,
        AudioState::Recovering => 3,
        AudioState::Error => 4,
    }
}

impl From<u8> for AudioState {
    /// Decode a state from its byte encoding; unknown bytes decode to
    /// `Error`.
    fn from(value: u8) -> (r: AudioState) {
        match value {
            0 => AudioState::Idle,
            1 => AudioState::Recording,
            2 => AudioState::DeviceLost,
            3 => AudioState::Recovering,
            _ => AudioState::Error,
        }
    }
}

impl vstd::std_specs::convert::FromSpecImpl<u8> for AudioState {
    open spec fn obeys_from_spec() -> bool {
        true
    }

    open spec fn from_spec(value: u8) -> AudioState {
        spec_state_of_byte(value)
    }
}

impl From<AudioState> for u8 {
    /// Encode a state as a byte.
    fn from(state: AudioState) -> (r: u8) {
        match state {
            AudioState::Idle => 0,
            AudioState::Recording => 1,
            AudioState::DeviceLost => 2,
            AudioState::Recovering => 3,
            AudioState::Error => 4,
        }
    }
}

impl vstd::std_specs::convert::FromSpecImpl<AudioState> for u8 {
    open spec fn obeys_from_spec() -> bool {
        true
    }

    open spec fn from_spec(state: AudioState) -> u8 {
        spec_byte_of_state(state)
    }
}

/// Decoding the byte an audio state encodes to gives the state back.
pub proof fn lemma_state_byte_roundtrip(state: AudioState)
    ensures
        spec_state_of_byte(spec_byte_of_state(state)) == state,
{
}

/// State cell of the capture engine. It holds the byte encoding of the
/// current state; reads decode it, so a corrupted byte surfaces as
/// `Error` rather than as a stuck machine.
#[derive(Debug)]
pub struct AtomicAudioState {
    value: u8,
}

impl AtomicAudioState {
    /// The cell only ever holds one of the five canonical encodings, so
    /// decoding is injective on what it holds.
    #[verifier::type_invariant]
    spec fn canonical(self) -> bool {
        self.value <= 4
    }

    /// A cell holding the given state.
    pub fn new(state: AudioState) -> (r: AtomicAudioState)
        ensures
            r@ == state,
    {
        AtomicAudioState { value: u8::from(state) }
    }

    /// The state the cell currently holds.
    pub closed spec fn view(&self) -> AudioState {
        spec_state_of_byte(self.value)
    }

    /// Read the current state.
    pub fn load(&self) -> (r: AudioState)
        ensures
            r == self@,
    {
        AudioState::from(self.value)
    }

    /// Overwrite the current state.
    pub fn store(&mut self, state: AudioState)
        ensures
            final(self)@ == state,
    {
        self.value = u8::from(state);
    }

    /// Replace `current` by `new`; report whether the cell indeed held
    /// `current`, and leave it unchanged otherwise.
    pub fn compare_exchange(&mut self, current: AudioState, new: AudioState) -> (r: bool)
        ensures
            r == (old(self)@ == current),
            r ==> final(self)@ == new,
            !r ==> *final(self) == *old(self),
    {
        proof {
            use_type_invariant(&*self);
        }
        if self.value == u8::from(current) {
            self.value = u8::from(new);
            true
        } else {
            false
        }
    }
}

impl Default for AtomicAudioState {
    /// A fresh cell starts in `Idle`.
    fn default() -> (r: AtomicAudioState)
        ensures
            r@ == AudioState::Idle,
    {
        AtomicAudioState::new(AudioState::Idle)
    }
}

/// Audio capture configuration.
#[derive(Debug, Clone, Copy)]
pub struct AudioConfig {
    /// Maximum recording duration in seconds (ring buffer size).
    pub buffer_duration_secs: u32,
    /// Target sample rate in Hz.
    pub sample_rate: u32,
    /// Maximum recovery attempts before transitioning to the error state.
    pub max_recovery_attempts: u32,
}

impl Default for AudioConfig {
    /// Sixty seconds of ring at 16 kHz, three recovery attempts.
    fn default() -> (r: AudioConfig)
        ensures
            r.buffer_duration_secs == 60,
            r.sample_rate == 16000,
            r.max_recovery_attempts == 3,
    {
        AudioConfig { buffer_duration_secs: 60, sample_rate: 16000, max_recovery_attempts: 3 }
    }
}

impl AudioConfig {
    /// The ring buffer capacity in samples: duration times rate.
    pub fn buffer_capacity(&self) -> (r: usize)
        requires
            self.buffer_duration_secs * self.sample_rate <= usize::MAX,
        ensures
            r == self.buffer_duration_secs * self.sample_rate,
    {
        self.buffer_duration_secs as usize * self.sample_rate as usize
    }
}

/// Events emitted by the audio capture system. Delivery to subscribers is
/// best-effort; slow consumers may lose intermediate events.
#[derive(Debug, Clone)]
pub enum AudioEvent {
    /// Audio state changed.
    StateChanged { from: AudioState, to: AudioState },
    /// Input device was lost.
    DeviceLost { device_name: String },
    /// Successfully recovered from device loss.
    RecoverySuccess { device_name: String },
    /// Failed to recover after the maximum number of attempts.
    RecoveryFailed { attempts: u32, last_error: String },
    /// An error occurred.
    Error { message: String },
    /// Audio level update for visualization: the RMS level as a fixed
    /// point fraction of full scale, `level / 32767` of 1.0.
    LevelUpdate { level: u16 },
}

/// Input audio device information.
#[derive(Debug, Clone)]
pub struct AudioDevice {
    /// Unique device identifier.
    pub id: String,
    /// Human-readable device name.
    pub name: String,
    /// Whether this is the system default device.
    pub is_default: bool,
}

} // verus!
