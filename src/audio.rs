//! The audio output pipeline: per hardware buffer request, copy the next
//! decoded samples into the device buffer, pad it with silence, analyse the
//! samples just written and produce a snapshot for the render thread. Also
//! the player's pause state and the playback summary.

use crate::realtime::RealtimeAttributes;
use crate::spectrum::fft;
use rustfft::num_complex::Complex;
use rustfft::num_traits::Float;
use rustfft::FftNum;
use vstd::prelude::*;

verus! {

/// A decoded sound being played: its interleaved samples and how many of
/// them were already handed to the device.
pub struct SampleStream<T> {
    samples: Vec<T>,
    position: usize,
}

/// The number of samples one buffer request takes: the buffer's length, or
/// what is left of the sound if that is less.
pub open spec fn block_len(buffer_len: nat, remaining: nat) -> nat {
    if buffer_len <= remaining {
        buffer_len
    } else {
        remaining
    }
}

impl<T> SampleStream<T> {
    #[verifier::type_invariant]
    spec fn inv(self) -> bool {
        self.position <= self.samples@.len()
    }
}

impl<T: Copy> SampleStream<T> {
    /// The samples of the sound.
    pub closed spec fn samples(self) -> Seq<T> {
        self.samples@
    }

    /// How many samples were already played.
    pub closed spec fn position(self) -> nat {
        self.position as nat
    }

    /// A stream at the start of `samples`.
    pub fn new(samples: Vec<T>) -> (r: Self)
        ensures
            r.samples() == samples@,
            r.position() == 0,
    {
        SampleStream { samples, position: 0 }
    }

    /// How many samples are left to play.
    pub fn remaining(&self) -> (r: usize)
        ensures
            self.position() <= self.samples().len(),
            r == self.samples().len() - self.position(),
    {
        proof {
            use_type_invariant(self);
        }
        self.samples.len() - self.position
    }

    /// Copies as many of the next samples into `data` as it holds, fills the
    /// rest of `data` with `silence` (the end of the track does not stop the
    /// stream) and returns how many samples were copied.
    pub fn fill(&mut self, data: &mut [T], silence: T) -> (written: usize)
        ensures
            old(self).position() <= old(self).samples().len(),
            written == block_len(
                old(data)@.len(),
                (old(self).samples().len() - old(self).position()) as nat,
            ),
            final(self).samples() == old(self).samples(),
            final(self).position() == old(self).position() + written,
            final(data)@.len() == old(data)@.len(),
            final(data)@.subrange(0, written as int) == old(self).samples().subrange(
                old(self).position() as int,
                old(self).position() + written,
            ),
            forall|i: int|
                0 <= i < written ==> final(data)@[i] == old(self).samples()[old(self).position()
                    + i],
            forall|i: int| written <= i < final(data)@.len() ==> final(data)@[i] == silence,
    {
        proof {
            use_type_invariant(&*self);
        }
        let total = self.samples.len();
        let remaining = total - self.position;
        let written: usize = if data.len() <= remaining {
            data.len()
        } else {
            remaining
        };
        let start = self.position;
        let mut i: usize = 0;
        while i < written
            invariant
                written <= data@.len(),
                written <= remaining,
                start + remaining == total,
                total == self.samples@.len(),
                start == self.position,
                i <= written,
                data@.len() == old(data)@.len(),
                forall|k: int| 0 <= k < i ==> data@[k] == self.samples@[start + k],
            decreases written - i,
        {
            data[i] = self.samples[start + i];
            i = i + 1;
        }
        let mut j: usize = written;
        while j < data.len()
            invariant
                written <= j <= data@.len(),
                start + written <= self.samples@.len(),
                data@.len() == old(data)@.len(),
                forall|k: int| 0 <= k < written ==> data@[k] == self.samples@[start + k],
                forall|k: int| written <= k < j ==> data@[k] == silence,
            decreases data@.len() - j,
        {
            data[j] = silence;
            j = j + 1;
        }
        self.position = start + written;
        assert(data@.subrange(0, written as int) =~= self.samples@.subrange(
            start as int,
            start + written,
        ));
        written
    }
}

/// Serves one hardware buffer request: fills `data` from `stream` (padding
/// with `silence`), transforms exactly the samples just written (not the
/// padding) and returns the snapshot to publish, stamped with `elapsed`, the
/// time since playback started.
pub fn process_block<T: FftNum + Float>(
    stream: &mut SampleStream<T>,
    data: &mut [T],
    silence: T,
    elapsed: u64,
) -> (r: RealtimeAttributes<Complex<T>>)
    ensures
        old(stream).position() <= old(stream).samples().len(),
        final(stream).samples() == old(stream).samples(),
        final(stream).position() == old(stream).position() + block_len(
            old(data)@.len(),
            (old(stream).samples().len() - old(stream).position()) as nat,
        ),
        final(data)@.len() == old(data)@.len(),
        final(data)@.subrange(0, r.fft@.len() as int) == old(stream).samples().subrange(
            old(stream).position() as int,
            final(stream).position() as int,
        ),
        forall|i: int|
            0 <= i < r.fft@.len() ==> final(data)@[i] == old(stream).samples()[old(
                stream,
            ).position() + i],
        forall|i: int| r.fft@.len() <= i < final(data)@.len() ==> final(data)@[i] == silence,
        r.fft@.len() == final(stream).position() - old(stream).position(),
        r.timestamp == elapsed,
{
    let written = stream.fill(data, silence);
    let window = &data[0..written];
    let bins = fft(window);
    RealtimeAttributes { fft: bins, timestamp: elapsed }
}

} // verus!

verus! {

/// Whether the player has an output stream, and whether it is paused.
pub struct PlayerState {
    has_stream: bool,
    paused: bool,
}

impl View for PlayerState {
    /// (has an output stream, is paused)
    type V = (bool, bool);

    closed spec fn view(&self) -> (bool, bool) {
        (self.has_stream, self.paused)
    }
}

impl PlayerState {
    /// A player with no stream, paused.
    pub fn new() -> (r: Self)
        ensures
            r@ == (false, true),
    {
        PlayerState { has_stream: false, paused: true }
    }

    /// Playback of a new sound: `stream_built` says whether its output stream
    /// could be built. Without one the player stays silently unstarted.
    /// Returns whether the new stream must be started.
    pub fn play(&mut self, stream_built: bool) -> (start: bool)
        ensures
            start == stream_built,
            final(self)@ == (stream_built, !stream_built),
    {
        self.has_stream = stream_built;
        self.paused = !stream_built;
        stream_built
    }

    /// Resumes playback. Returns whether the stream must be started: only
    /// when there is one.
    pub fn resume(&mut self) -> (start: bool)
        ensures
            start == old(self)@.0,
            final(self)@ == if old(self)@.0 {
                (true, false)
            } else {
                old(self)@
            },
    {
        if self.has_stream {
            self.paused = false;
        }
        self.has_stream
    }

    /// Pauses playback. Returns whether the stream must be stopped: only when
    /// there is one. What was last published stays readable.
    pub fn pause(&mut self) -> (stop: bool)
        ensures
            stop == old(self)@.0,
            final(self)@ == if old(self)@.0 {
                (true, true)
            } else {
                old(self)@
            },
    {
        if self.has_stream {
            self.paused = true;
        }
        self.has_stream
    }

    pub fn paused(&self) -> (r: bool)
        ensures
            r == self@.1,
    {
        self.paused
    }
}

/// Summary of a sound computed once when playback starts.
pub struct GeneralAttributes {
    /// The sound's length in nanoseconds.
    pub duration: u64,
}

pub open spec fn nanos_per_second() -> nat {
    1_000_000_000
}

/// The playing time of `samples` interleaved samples over `channels`
/// channels at `sample_rate` frames per second, in nanoseconds, rounded
/// down (an incomplete last frame does not count), and capped at the largest
/// `u64`. A sound with no channels or a zero rate has no playing time.
pub open spec fn duration_nanos(samples: nat, channels: nat, sample_rate: nat) -> nat {
    if channels == 0 || sample_rate == 0 {
        0
    } else {
        let d = (samples / channels) * nanos_per_second() / sample_rate;
        if d > u64::MAX {
            u64::MAX as nat
        } else {
            d
        }
    }
}

impl GeneralAttributes {
    /// The summary of a sound of `samples` interleaved samples.
    pub fn of_sound(samples: usize, channels: usize, sample_rate: u32) -> (r: Self)
        ensures
            r.duration == duration_nanos(samples as nat, channels as nat, sample_rate as nat),
    {
        if channels == 0 || sample_rate == 0 {
            return GeneralAttributes { duration: 0 };
        }
        let frames = samples / channels;
        assert(frames <= usize::MAX);
        assert(frames as nat * nanos_per_second() <= 18446744073709551615 * 1_000_000_000)
            by (nonlinear_arith)
            requires
                frames <= 18446744073709551615nat,
        ;
        let scaled: u128 = frames as u128 * 1_000_000_000u128;
        let d: u128 = scaled / sample_rate as u128;
        let duration: u64 = if d > u64::MAX as u128 {
            u64::MAX
        } else {
            d as u64
        };
        GeneralAttributes { duration }
    }
}

} // verus!
