//! The capture engine core: a bounded sample ring, the session state
//! machine with its legal transitions, the callback data path (downmix,
//! resample, ring push, level metering) and the recovery protocol. The
//! native input stream, its thread and its callbacks live outside; they
//! drive this core with plain values and perform the actions it decides.

use vstd::prelude::*;

use crate::audio::{
    is_legal_transition, AtomicAudioState, AudioConfig, AudioDevice, AudioEvent, AudioState,
};
use crate::dsp;
use crate::errors::DomainError;
use crate::text::{spec_decimal, usize_to_string};

verus! {

use vstd::string::StringExecFns;

/// A bounded queue of samples. Pushes beyond the capacity drop the
/// overflow, so the oldest data is preserved: the queue holds a capped
/// history of the session.
pub struct SampleRing {
    data: Vec<i16>,
    capacity: usize,
}

impl SampleRing {
    /// The samples the ring holds, oldest first.
    pub closed spec fn view(&self) -> Seq<i16> {
        self.data@
    }

    /// The fixed capacity the ring was created with.
    pub closed spec fn spec_capacity(&self) -> usize {
        self.capacity
    }

    /// The ring never holds more than its capacity.
    pub open spec fn wf(&self) -> bool {
        self@.len() <= self.spec_capacity()
    }

    /// An empty ring of the given capacity.
    pub fn new(capacity: usize) -> (r: SampleRing)
        ensures
            r@ == Seq::<i16>::empty(),
            r.spec_capacity() == capacity,
            r.wf(),
    {
        SampleRing { data: Vec::new(), capacity }
    }

    /// How many samples the ring holds.
    pub fn len(&self) -> (r: usize)
        ensures
            r == self@.len(),
    {
        self.data.len()
    }

    /// Append as many of the samples as fit; the rest are dropped.
    /// Returns how many were kept.
    pub fn push_slice(&mut self, s: &[i16]) -> (n: usize)
        requires
            old(self).wf(),
        ensures
            final(self).wf(),
            final(self).spec_capacity() == old(self).spec_capacity(),
            n == if old(self)@.len() + s@.len() <= old(self).spec_capacity() {
                s@.len() as int
            } else {
                old(self).spec_capacity() - old(self)@.len()
            },
            final(self)@ == old(self)@ + s@.take(n as int),
    {
        let space = self.capacity - self.data.len();
        let n = if s.len() <= space {
            s.len()
        } else {
            space
        };
        let mut i: usize = 0;
        while i < n
            invariant
                i <= n,
                n <= s@.len(),
                self.data@ == old(self).data@ + s@.take(i as int),
                self.capacity == old(self).capacity,
                self.data@.len() == old(self).data@.len() + i,
            decreases n - i,
        {
            proof {
                assert(s@.take(i + 1) == s@.take(i as int).push(s@[i as int]));
            }
            self.data.push(s[i]);
            i = i + 1;
        }
        n
    }

    /// Remove and return everything the ring holds, oldest first.
    pub fn drain(&mut self) -> (r: Vec<i16>)
        ensures
            r@ == old(self)@,
            final(self)@ == Seq::<i16>::empty(),
            final(self).spec_capacity() == old(self).spec_capacity(),
            final(self).wf(),
    {
        let mut out: Vec<i16> = Vec::new();
        core::mem::swap(&mut self.data, &mut out);
        out
    }
}

/// What the ring holds after a session has pushed the sample stream
/// `session` into a ring of the given capacity: the stream's oldest
/// samples, capped at the capacity.
pub open spec fn spec_ring_of_session(session: Seq<i16>, capacity: int) -> Seq<i16> {
    if session.len() <= capacity {
        session
    } else {
        session.take(capacity)
    }
}

/// The resampled mono samples one callback tick contributes: the
/// interleaved frame is downmixed to mono, then resampled from the device
/// rate to the target rate.
pub open spec fn spec_tick_samples(data: Seq<i16>, channels: int, device_rate: int, target_rate: int) -> Seq<i16> {
    dsp::spec_resample(dsp::spec_downmix(data, channels), device_rate, target_rate)
}

/// The capture engine core. It owns the session state machine, the sample
/// ring and the level meter; every state change it makes is a legal edge
/// of the audio state machine, and the events it queues describe those
/// changes for subscribers.
pub struct CaptureCore {
    config: AudioConfig,
    state: AtomicAudioState,
    level: u16,
    level_samples: Vec<i16>,
    ring: Option<SampleRing>,
    device_rate: u32,
    device_channels: usize,
    selected_device: Option<String>,
    events: Vec<AudioEvent>,
    session: Ghost<Seq<i16>>,
}

impl CaptureCore {
    /// The current state of the machine.
    pub closed spec fn spec_state(&self) -> AudioState {
        self.state@
    }

    /// The capture configuration.
    pub closed spec fn spec_config(&self) -> AudioConfig {
        self.config
    }

    /// The resampled mono samples the current session has produced so far.
    pub closed spec fn session_samples(&self) -> Seq<i16> {
        self.session@
    }

    /// The latest published level, as a fraction `level / 32767` of full
    /// scale.
    pub closed spec fn spec_level(&self) -> u16 {
        self.level
    }

    /// The events queued for subscribers.
    pub closed spec fn spec_events(&self) -> Seq<AudioEvent> {
        self.events@
    }

    /// The ring capacity of a session: recording duration times target
    /// rate.
    pub open spec fn spec_capacity(&self) -> int {
        self.spec_config().buffer_duration_secs * self.spec_config().sample_rate
    }

    /// How many samples the level meter accumulates before it publishes
    /// an update: a tenth of a second of audio.
    pub open spec fn spec_samples_per_update(&self) -> int {
        self.spec_config().sample_rate as int / 10
    }

    /// Well-formedness of the core: bounded configuration, a consistent
    /// level-meter window, and, during a session, a ring that holds the
    /// oldest capacity-many samples of the session stream.
    pub closed spec fn wf(&self) -> bool {
        &&& self.level <= 32767
        &&& 1 <= self.config.sample_rate <= 0x0010_0000
        &&& self.config.buffer_duration_secs * self.config.sample_rate <= usize::MAX
        &&& 1 <= self.device_rate
        &&& 1 <= self.device_channels <= 0x1_0000
        &&& self.level_samples@.len() <= self.spec_samples_per_update() + 0x0100_0000
        &&& match self.ring {
            Some(ring) => {
                &&& ring.wf()
                &&& ring.spec_capacity() == self.spec_capacity()
                &&& ring@ == spec_ring_of_session(self.session@, self.spec_capacity())
            },
            None => true,
        }
        &&& self.spec_state() == AudioState::Recording ==> self.ring is Some
    }

    /// A fresh core in `Idle` with the given configuration.
    pub fn new(config: AudioConfig) -> (r: CaptureCore)
        requires
            1 <= config.sample_rate <= 0x0010_0000,
            config.buffer_duration_secs * config.sample_rate <= usize::MAX,
        ensures
            r.wf(),
            r.spec_state() == AudioState::Idle,
            r.spec_config() == config,
            r.spec_level() == 0,
            r.spec_events() == Seq::<AudioEvent>::empty(),
    {
        CaptureCore {
            config,
            state: AtomicAudioState::new(AudioState::Idle),
            level: 0,
            level_samples: Vec::new(),
            ring: None,
            device_rate: 16000,
            device_channels: 1,
            selected_device: None,
            events: Vec::new(),
            session: Ghost(Seq::empty()),
        }
    }

    /// Read the current state; callable from any context.
    pub fn state(&self) -> (r: AudioState)
        ensures
            r == self.spec_state(),
    {
        self.state.load()
    }

    /// The capture configuration.
    pub fn config(&self) -> (r: AudioConfig)
        ensures
            r == self.spec_config(),
    {
        self.config.clone()
    }

    /// The latest published level in fixed point, `r / 32767` of full
    /// scale.
    pub fn current_level(&self) -> (r: u16)
        requires
            self.wf(),
        ensures
            r == self.spec_level(),
            r <= 32767,
    {
        self.level
    }

    /// Take the queued events, leaving the queue empty. The host forwards
    /// them to subscribers; delivery is best-effort.
    pub fn take_events(&mut self) -> (r: Vec<AudioEvent>)
        requires
            old(self).wf(),
        ensures
            final(self).wf(),
            r@ == old(self).spec_events(),
            final(self).spec_events() == Seq::<AudioEvent>::empty(),
            final(self).spec_state() == old(self).spec_state(),
            final(self).session_samples() == old(self).session_samples(),
            final(self).spec_config() == old(self).spec_config(),
    {
        let mut out: Vec<AudioEvent> = Vec::new();
        core::mem::swap(&mut self.events, &mut out);
        out
    }

    /// Start a capture session on a device with the given native rate and
    /// channel count: allocate a fresh ring and move to `Recording`.
    ///
    /// Fails with `AudioAlreadyRecording`, changing nothing, unless the
    /// machine is `Idle`.
    pub fn start_session(&mut self, device_rate: u32, device_channels: usize) -> (r: Result<
        (),
        DomainError,
    >)
        requires
            old(self).wf(),
            1 <= device_rate,
            1 <= device_channels <= 0x1_0000,
        ensures
            final(self).wf(),
            final(self).spec_config() == old(self).spec_config(),
            r is Ok <==> old(self).spec_state() == AudioState::Idle,
            r is Err ==> *final(self) == *old(self) && (r matches Err(
                DomainError::AudioAlreadyRecording,
            )),
            r is Ok ==> {
                &&& final(self).spec_state() == AudioState::Recording
                &&& is_legal_transition(old(self).spec_state(), final(self).spec_state())
                &&& final(self).session_samples() == Seq::<i16>::empty()
                &&& final(self).spec_events() == old(self).spec_events().push(
                    AudioEvent::StateChanged {
                        from: AudioState::Idle,
                        to: AudioState::Recording,
                    },
                )
            },
    {
        let current = self.state.load();
        if !current.can_start_recording() {
            return Err(DomainError::AudioAlreadyRecording);
        }
        let capacity = self.config.buffer_capacity();
        self.ring = Some(SampleRing::new(capacity));
        self.session = Ghost(Seq::empty());
        self.level_samples = Vec::new();
        self.device_rate = device_rate;
        self.device_channels = device_channels;
        self.state.store(AudioState::Recording);
        self.events.push(
            AudioEvent::StateChanged { from: AudioState::Idle, to: AudioState::Recording },
        );
        Ok(())
    }

    /// Stop the session: drain the ring into a plain vector, reset the
    /// level meter and move back to `Idle`.
    ///
    /// Fails with `AudioNotRecording`, changing nothing, unless the
    /// machine is `Recording`. On success the returned samples are the
    /// oldest samples of the session stream, capped at the ring capacity.
    pub fn stop_session(&mut self) -> (r: Result<Vec<i16>, DomainError>)
        requires
            old(self).wf(),
        ensures
            final(self).wf(),
            final(self).spec_config() == old(self).spec_config(),
            r is Ok <==> old(self).spec_state() == AudioState::Recording,
            r is Err ==> *final(self) == *old(self) && (r matches Err(DomainError::AudioNotRecording)),
            r matches Ok(samples) ==> {
                &&& samples@ == spec_ring_of_session(
                    old(self).session_samples(),
                    old(self).spec_capacity(),
                )
                &&& final(self).spec_state() == AudioState::Idle
                &&& is_legal_transition(old(self).spec_state(), final(self).spec_state())
                &&& final(self).spec_level() == 0
                &&& final(self).spec_events() == old(self).spec_events().push(
                    AudioEvent::StateChanged {
                        from: AudioState::Recording,
                        to: AudioState::Idle,
                    },
                )
            },
    {
        let current = self.state.load();
        if !current.can_stop_recording() {
            return Err(DomainError::AudioNotRecording);
        }
        let mut ring = self.ring.take().unwrap();
        let samples = ring.drain();
        self.level = 0;
        self.level_samples = Vec::new();
        self.state.store(AudioState::Idle);
        self.events.push(
            AudioEvent::StateChanged { from: AudioState::Recording, to: AudioState::Idle },
        );
        Ok(samples)
    }

    /// The native rate of the device of the current session.
    pub closed spec fn spec_device_rate(&self) -> u32 {
        self.device_rate
    }

    /// The channel count of the device of the current session.
    pub closed spec fn spec_device_channels(&self) -> usize {
        self.device_channels
    }

    /// The samples the level meter has accumulated since its last update.
    pub closed spec fn spec_meter(&self) -> Seq<i16> {
        self.level_samples@
    }

    /// Whether a session (and so a ring) is present.
    pub closed spec fn has_ring(&self) -> bool {
        self.ring is Some
    }

    /// Process one callback tick of interleaved device-native samples:
    /// downmix to mono, resample to the target rate, push into the ring
    /// (overflow beyond the ring capacity is dropped), and meter the
    /// level, publishing an update once a tenth of a second of audio has
    /// accumulated. Outside a session the tick is ignored.
    pub fn on_samples(&mut self, data: &[i16])
        requires
            old(self).wf(),
            data@.len() <= 0x0010_0000,
            data@.len() * old(self).spec_config().sample_rate <= old(self).spec_device_rate()
                * 0x0080_0000,
        ensures
            final(self).wf(),
            final(self).spec_config() == old(self).spec_config(),
            final(self).spec_state() == old(self).spec_state(),
            !old(self).has_ring() ==> *final(self) == *old(self),
            old(self).has_ring() ==> {
                let tick = spec_tick_samples(
                    data@,
                    old(self).spec_device_channels() as int,
                    old(self).spec_device_rate() as int,
                    old(self).spec_config().sample_rate as int,
                );
                let acc = old(self).spec_meter() + tick;
                &&& final(self).session_samples() == old(self).session_samples() + tick
                &&& if acc.len() >= old(self).spec_samples_per_update() {
                    &&& final(self).spec_level() == dsp::spec_rms(acc)
                    &&& final(self).spec_meter() == Seq::<i16>::empty()
                    &&& final(self).spec_events() == old(self).spec_events().push(
                        AudioEvent::LevelUpdate { level: final(self).spec_level() },
                    )
                } else {
                    &&& final(self).spec_level() == old(self).spec_level()
                    &&& final(self).spec_meter() == acc
                    &&& final(self).spec_events() == old(self).spec_events()
                }
            },
    {
        if self.ring.is_none() {
            return ;
        }
        let ghost views = *self;
        let mono = dsp::downmix_mono(data, self.device_channels);
        proof {
            vstd::arithmetic::div_mod::lemma_div_multiples_vanish_fancy(
                data@.len() as int,
                self.device_channels as int - 1,
                self.device_channels as int,
            );
            assert(data@.len() + self.device_channels - 1 <= self.device_channels * data@.len()
                + self.device_channels - 1) by (nonlinear_arith)
                requires data@.len() >= 0, self.device_channels >= 1;
            vstd::arithmetic::div_mod::lemma_div_is_ordered(
                data@.len() + self.device_channels - 1,
                self.device_channels * data@.len() + self.device_channels - 1,
                self.device_channels as int,
            );
            assert(mono@.len() <= data@.len());
            if self.device_rate != self.config.sample_rate && mono@.len() > 0 {
                assert(mono@.len() * self.config.sample_rate <= self.device_rate * 0x0080_0000)
                    by (nonlinear_arith)
                    requires
                        mono@.len() <= data@.len(),
                        data@.len() * self.config.sample_rate <= self.device_rate * 0x0080_0000,
                        self.config.sample_rate >= 1,
                ;
                vstd::arithmetic::div_mod::lemma_div_multiples_vanish_fancy(
                    0x0080_0000,
                    self.device_rate as int - 1,
                    self.device_rate as int,
                );
                vstd::arithmetic::div_mod::lemma_div_is_ordered(
                    mono@.len() * self.config.sample_rate + self.device_rate - 1,
                    self.device_rate * 0x0080_0000 + self.device_rate - 1,
                    self.device_rate as int,
                );
                assert(dsp::ceil_div(
                    mono@.len() * self.config.sample_rate as int,
                    self.device_rate as int,
                ) <= 0x0080_0000);
            }
        }
        let resampled = dsp::resample(mono.as_slice(), self.device_rate, self.config.sample_rate);
        let ghost tick = resampled@;
        proof {
            assert(tick.len() <= 0x0080_0001);
        }
        let mut ring = self.ring.take().unwrap();
        let pushed = ring.push_slice(resampled.as_slice());
        proof {
            let cap = self.spec_capacity();
            let session_old = views.session@;
            if session_old.len() <= cap {
                if session_old.len() + tick.len() <= cap {
                    assert(tick.take(tick.len() as int) =~= tick);
                } else {
                    assert((session_old + tick).take(cap) =~= session_old + tick.take(
                        cap - session_old.len(),
                    ));
                }
            } else {
                assert(tick.take(0) =~= Seq::<i16>::empty());
                assert(ring@ + Seq::<i16>::empty() =~= ring@);
                assert((session_old + tick).take(cap) =~= session_old.take(cap));
            }
        }
        self.ring = Some(ring);
        self.session = Ghost(self.session@ + tick);
        self.level_samples.extend_from_slice(resampled.as_slice());
        proof {
            assert(self.level_samples@ =~= views.level_samples@ + tick);
        }
        let spu: usize = (self.config.sample_rate / 10) as usize;
        if self.level_samples.len() >= spu {
            let level = dsp::calculate_rms(self.level_samples.as_slice());
            self.level = level;
            self.events.push(AudioEvent::LevelUpdate { level });
            self.level_samples = Vec::new();
        }
    }

    /// React to a device error reported by the native stream: while
    /// `Recording`, move to `DeviceLost` and queue the loss event; in any
    /// other state do nothing.
    pub fn on_stream_error(&mut self, device_name: String)
        requires
            old(self).wf(),
        ensures
            final(self).wf(),
            final(self).spec_config() == old(self).spec_config(),
            old(self).spec_state() == AudioState::Recording ==> {
                &&& final(self).spec_state() == AudioState::DeviceLost
                &&& is_legal_transition(old(self).spec_state(), final(self).spec_state())
                &&& final(self).spec_events() == old(self).spec_events().push(
                    AudioEvent::DeviceLost { device_name },
                )
            },
            old(self).spec_state() != AudioState::Recording ==> *final(self) == *old(self),
    {
        if self.state.compare_exchange(AudioState::Recording, AudioState::DeviceLost) {
            self.events.push(AudioEvent::DeviceLost { device_name });
        }
    }

    /// Enter recovery. Legal from `DeviceLost` and `Error`; from any
    /// other state it fails with the refused transition, changing
    /// nothing.
    pub fn begin_recover(&mut self) -> (r: Result<(), DomainError>)
        requires
            old(self).wf(),
        ensures
            final(self).wf(),
            final(self).spec_config() == old(self).spec_config(),
            r is Ok <==> (old(self).spec_state() == AudioState::DeviceLost || old(
                self,
            ).spec_state() == AudioState::Error),
            r matches Err(e) ==> *final(self) == *old(self) && (e matches
            DomainError::AudioStateTransition { from, to } && from == old(self).spec_state() && to
                == AudioState::Recovering),
            r is Ok ==> {
                &&& final(self).spec_state() == AudioState::Recovering
                &&& is_legal_transition(old(self).spec_state(), final(self).spec_state())
                &&& final(self).spec_events() == old(self).spec_events().push(
                    AudioEvent::StateChanged {
                        from: old(self).spec_state(),
                        to: AudioState::Recovering,
                    },
                )
            },
    {
        let current = self.state.load();
        if !current.can_recover() {
            return Err(
                DomainError::AudioStateTransition { from: current, to: AudioState::Recovering },
            );
        }
        self.state.store(AudioState::Recovering);
        self.events.push(AudioEvent::StateChanged { from: current, to: AudioState::Recovering });
        Ok(())
    }

    /// A recovery attempt found the device again: move back to `Idle`
    /// (never straight to `Recording`) and queue the success events.
    pub fn recovery_succeeded(&mut self, device_name: String)
        requires
            old(self).wf(),
            old(self).spec_state() == AudioState::Recovering,
        ensures
            final(self).wf(),
            final(self).spec_config() == old(self).spec_config(),
            final(self).spec_state() == AudioState::Idle,
            is_legal_transition(old(self).spec_state(), final(self).spec_state()),
            final(self).spec_events() == old(self).spec_events().push(
                AudioEvent::RecoverySuccess { device_name },
            ).push(
                AudioEvent::StateChanged { from: AudioState::Recovering, to: AudioState::Idle },
            ),
    {
        self.state.store(AudioState::Idle);
        self.events.push(AudioEvent::RecoverySuccess { device_name });
        self.events.push(
            AudioEvent::StateChanged { from: AudioState::Recovering, to: AudioState::Idle },
        );
    }

    /// Every recovery attempt failed: move to `Error`, queue the failure
    /// events, and hand back the error to return.
    pub fn recovery_exhausted(&mut self, attempts: u32, last_error: String) -> (r: DomainError)
        requires
            old(self).wf(),
            old(self).spec_state() == AudioState::Recovering,
        ensures
            final(self).wf(),
            final(self).spec_config() == old(self).spec_config(),
            final(self).spec_state() == AudioState::Error,
            is_legal_transition(old(self).spec_state(), final(self).spec_state()),
            final(self).spec_events() == old(self).spec_events().push(
                AudioEvent::RecoveryFailed { attempts, last_error },
            ).push(
                AudioEvent::StateChanged { from: AudioState::Recovering, to: AudioState::Error },
            ),
            r is AudioDevice,
    {
        self.state.store(AudioState::Error);
        self.events.push(AudioEvent::RecoveryFailed { attempts, last_error });
        self.events.push(
            AudioEvent::StateChanged { from: AudioState::Recovering, to: AudioState::Error },
        );
        let mut message = String::from_str("recovery failed after ");
        message.append(usize_to_string(attempts as usize).as_str());
        message.append(" attempts");
        DomainError::AudioDevice { message }
    }

    /// The device the next session should open, if one was selected.
    pub closed spec fn spec_selected_device(&self) -> Option<Seq<char>> {
        match self.selected_device {
            Some(id) => Some(id@),
            None => None,
        }
    }

    /// Select the input device for future sessions, or fall back to the
    /// system default with `None`. A device id that is not in the given
    /// enumeration is refused.
    pub fn select_input_device(&mut self, device_id: Option<&str>, devices: &Vec<AudioDevice>) -> (r:
        Result<(), DomainError>)
        requires
            old(self).wf(),
        ensures
            final(self).wf(),
            final(self).spec_config() == old(self).spec_config(),
            final(self).spec_state() == old(self).spec_state(),
            final(self).spec_events() == old(self).spec_events(),
            match device_id {
                None => r is Ok && final(self).spec_selected_device() is None,
                Some(id) => {
                    &&& (r is Ok <==> exists|j: int|
                        0 <= j < devices@.len() && devices@[j].id@ == id@)
                    &&& r is Ok ==> final(self).spec_selected_device() == Some(id@)
                    &&& r is Err ==> *final(self) == *old(self) && (r matches Err(
                        DomainError::AudioDevice { .. },
                    ))
                },
            },
    {
        match device_id {
            None => {
                self.selected_device = None;
                Ok(())
            },
            Some(id) => {
                let mut j: usize = 0;
                let mut found = false;
                while j < devices.len()
                    invariant
                        j <= devices@.len(),
                        found <==> exists|k: int| 0 <= k < j && devices@[k].id@ == id@,
                    decreases devices@.len() - j,
                {
                    if crate::text::str_eq(devices[j].id.as_str(), id) {
                        found = true;
                    }
                    j = j + 1;
                }
                if !found {
                    let mut message = String::from_str("device not found: ");
                    message.append(id);
                    return Err(DomainError::AudioDevice { message });
                }
                self.selected_device = Some(id.to_owned());
                Ok(())
            },
        }
    }

    /// The selected device id, to be matched against an enumeration when
    /// a session opens (`None` asks for the system default).
    pub fn selected_device(&self) -> (r: Option<&String>)
        ensures
            match r {
                Some(id) => self.spec_selected_device() == Some(id@),
                None => self.spec_selected_device() is None,
            },
    {
        self.selected_device.as_ref()
    }
}

/// The delay before recovery attempt `attempt`, in milliseconds: half a
/// second before the first attempt, doubling for each further one.
pub fn recovery_delay_ms(attempt: u32) -> (r: u64)
    requires
        1 <= attempt <= 54,
    ensures
        r == 500 * vstd::arithmetic::power2::pow2((attempt - 1) as nat),
{
    let mut d: u64 = 500;
    let mut k: u32 = 1;
    proof {
        vstd::arithmetic::power2::lemma2_to64();
    }
    while k < attempt
        invariant
            1 <= k <= attempt <= 54,
            d == 500 * vstd::arithmetic::power2::pow2((k - 1) as nat),
        decreases attempt - k,
    {
        proof {
            let e = (k - 1) as nat;
            if e < 53 {
                vstd::arithmetic::power2::lemma_pow2_strictly_increases(e, 53);
            }
            vstd::arithmetic::power2::lemma2_to64_rest();
            vstd::arithmetic::power2::lemma_pow2_unfold(k as nat);
        }
        d = d * 2;
        k = k + 1;
    }
    d
}

/// How often `name` occurs in a list of names.
pub open spec fn spec_occurrences(names: Seq<Seq<char>>, name: Seq<char>) -> int
    decreases names.len(),
{
    if names.len() == 0 {
        0
    } else {
        spec_occurrences(names.drop_last(), name) + if names.last() == name {
            1int
        } else {
            0int
        }
    }
}

/// The unique id given to the device at index `i` of an enumeration: the
/// first device of a name keeps the name, and the Nth duplicate gets
/// `name:N`.
pub open spec fn spec_device_id(names: Seq<Seq<char>>, i: int) -> Seq<char> {
    let count = spec_occurrences(names.take(i), names[i]);
    if count == 0 {
        names[i]
    } else {
        names[i] + ":"@ + spec_decimal(count as nat)
    }
}

/// Assign stable unique ids to an enumeration of input devices. Device
/// names may collide; the Nth duplicate of a name gets the id `name:N`.
/// The device whose name equals the default device's name is flagged as
/// default.
pub fn assign_device_ids(names: &Vec<String>, default_name: &Option<String>) -> (r: Vec<
    AudioDevice,
>)
    ensures
        r@.len() == names@.len(),
        forall|i: int|
            0 <= i < r@.len() ==> {
                let views = Seq::new(names@.len(), |k: int| names@[k]@);
                &&& (#[trigger] r@[i]).name@ == names@[i]@
                &&& r@[i].id@ == spec_device_id(views, i)
                &&& r@[i].is_default == match default_name {
                    Some(d) => d@ == names@[i]@,
                    None => false,
                }
            },
{
    let ghost views = Seq::new(names@.len(), |k: int| names@[k]@);
    let mut out: Vec<AudioDevice> = Vec::new();
    let mut i: usize = 0;
    while i < names.len()
        invariant
            i <= names@.len(),
            views == Seq::new(names@.len(), |k: int| names@[k]@),
            out@.len() == i,
            forall|t: int|
                0 <= t < i ==> {
                    &&& (#[trigger] out@[t]).name@ == names@[t]@
                    &&& out@[t].id@ == spec_device_id(views, t)
                    &&& out@[t].is_default == match default_name {
                        Some(d) => d@ == names@[t]@,
                        None => false,
                    }
                },
        decreases names@.len() - i,
    {
        let name = &names[i];
        let mut count: usize = 0;
        let mut j: usize = 0;
        while j < i
            invariant
                j <= i <= names@.len(),
                views == Seq::new(names@.len(), |k: int| names@[k]@),
                count == spec_occurrences(views.take(j as int), views[i as int]),
                count <= j,
            decreases i - j,
        {
            proof {
                assert(views.take(j + 1).drop_last() == views.take(j as int));
            }
            if crate::text::str_eq(names[j].as_str(), name.as_str()) {
                count = count + 1;
            }
            j = j + 1;
        }
        let id: String = if count == 0 {
            let cloned: String = name.clone();
            cloned
        } else {
            let mut built: String = name.clone();
            built.append(":");
            built.append(usize_to_string(count).as_str());
            built
        };
        let is_default: bool = match default_name {
            Some(d) => crate::text::str_eq(d.as_str(), name.as_str()),
            None => false,
        };
        let device = AudioDevice { id, name: name.clone(), is_default };
        out.push(device);
        i = i + 1;
    }
    out
}

} // verus!
