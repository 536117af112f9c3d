//! The owning container of captured PCM samples. Audio never touches
//! disk, and the sample storage is actively overwritten with zeros before
//! it is released, both on `clear` and when the buffer is dropped.

use vstd::prelude::*;
use zeroize::Zeroize;

verus! {

/// Relies on `zeroize::Zeroize` for `Vec<i16>`: it overwrites every
/// element and the spare capacity with zeros (with a volatile write the
/// compiler may not elide), then sets the length to zero.
#[verifier::external_body]
fn wipe_samples(v: &mut Vec<i16>)
    ensures
        final(v)@.len() == 0,
    opens_invariants none
    no_unwind
{
    v.zeroize();
}

/// Audio buffer whose sample storage is zeroed before release: `clear`
/// wipes it in place, and dropping the buffer wipes it as well.
#[derive(Debug)]
pub struct AudioBuffer {
    /// PCM audio samples (16-bit mono).
    samples: Vec<i16>,
    /// Sample rate in Hz.
    sample_rate: u32,
}

impl AudioBuffer {
    /// The samples the buffer holds.
    pub closed spec fn view(&self) -> Seq<i16> {
        self.samples@
    }

    /// The sample rate the buffer was created with.
    pub closed spec fn spec_sample_rate(&self) -> u32 {
        self.sample_rate
    }

    /// Create a new empty audio buffer.
    pub fn new(sample_rate: u32) -> (r: AudioBuffer)
        ensures
            r@ == Seq::<i16>::empty(),
            r.spec_sample_rate() == sample_rate,
    {
        AudioBuffer { samples: Vec::new(), sample_rate }
    }

    /// Create an empty audio buffer with pre-allocated capacity.
    pub fn with_capacity(sample_rate: u32, capacity: usize) -> (r: AudioBuffer)
        ensures
            r@ == Seq::<i16>::empty(),
            r.spec_sample_rate() == sample_rate,
    {
        AudioBuffer { samples: Vec::with_capacity(capacity), sample_rate }
    }

    /// Append samples to the buffer.
    pub fn push_samples(&mut self, samples: &[i16])
        requires
            old(self)@.len() + samples@.len() <= usize::MAX,
        ensures
            final(self)@ == old(self)@ + samples@,
            final(self).spec_sample_rate() == old(self).spec_sample_rate(),
    {
        let mut i: usize = 0;
        while i < samples.len()
            invariant
                i <= samples@.len(),
                self@ == old(self)@ + samples@.subrange(0, i as int),
                self.sample_rate == old(self).sample_rate,
                self@.len() == old(self)@.len() + i,
            decreases samples@.len() - i,
        {
            proof {
                assert(old(self)@ + samples@.subrange(0, i + 1) == (old(self)@ + samples@.subrange(
                    0,
                    i as int,
                )).push(samples@[i as int]));
            }
            self.samples.push(samples[i]);
            i = i + 1;
        }
        proof {
            assert(samples@.subrange(0, samples@.len() as int) == samples@);
        }
    }

    /// The samples as a slice.
    pub fn samples(&self) -> (r: &[i16])
        ensures
            r@ == self@,
    {
        self.samples.as_slice()
    }

    /// The sample rate.
    pub fn sample_rate(&self) -> (r: u32)
        ensures
            r == self.spec_sample_rate(),
    {
        self.sample_rate
    }

    /// The number of channels: the buffer holds mono audio, so always 1.
    pub fn channels(&self) -> (r: u8)
        ensures
            r == 1,
    {
        1
    }

    /// Whether the buffer holds no samples.
    pub fn is_empty(&self) -> (r: bool)
        ensures
            r == (self@.len() == 0),
    {
        self.samples.len() == 0
    }

    /// The number of samples.
    pub fn len(&self) -> (r: usize)
        ensures
            r == self@.len(),
    {
        self.samples.len()
    }

    /// Empty the buffer, overwriting the sample storage with zeros before
    /// the length is reset.
    pub fn clear(&mut self)
        ensures
            final(self)@ == Seq::<i16>::empty(),
            final(self).spec_sample_rate() == old(self).spec_sample_rate(),
    {
        wipe_samples(&mut self.samples);
    }
}

impl Drop for AudioBuffer {
    /// A dropped buffer wipes its sample storage before releasing it.
    fn drop(&mut self)
        opens_invariants none
        no_unwind
    {
        wipe_samples(&mut self.samples);
    }
}

} // verus!
