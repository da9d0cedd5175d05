//! The bookkeeping of the output stream: the backlog of decoded samples
//! between the loader and the device, and the count of what has been played.
//!
//! The device calls for a buffer of samples at a time. Each call pulls from
//! the loader while the backlog is short of the buffer, then moves samples
//! from the backlog into the buffer. Samples are of any copyable type: the
//! stream orders and counts them and never reads their value.

use std::collections::VecDeque;
use vstd::prelude::*;
use crate::loader::{Pulled, SignalSpec};
use crate::time::PlayTime;

verus! {

/// The number of channel positions that a channel mask can name.
pub const CHANNEL_POSITIONS: u32 = 26;

/// How many of the lowest `positions` bits of `mask` are set.
pub open spec fn set_bits(mask: u32, positions: nat) -> nat
    decreases positions,
{
    if positions == 0 {
        0
    } else {
        let below = set_bits(mask, (positions - 1) as nat);
        if mask & (1u32 << ((positions - 1) as u32)) != 0 {
            below + 1
        } else {
            below
        }
    }
}

/// A mask has at most as many bits set among its lowest `positions` as
/// there are positions.
pub proof fn lemma_set_bits_bound(mask: u32, positions: nat)
    ensures
        set_bits(mask, positions) <= positions,
    decreases positions,
{
    if positions > 0 {
        lemma_set_bits_bound(mask, (positions - 1) as nat);
    }
}

/// The number of channels that a channel mask names.
pub open spec fn channel_count(mask: u32) -> nat {
    set_bits(mask, CHANNEL_POSITIONS as nat)
}

/// Counts the channels of a channel mask.
///
/// Trusted: symphonia's `Channels::from_bits_truncate` keeps the bits of the
/// 26 channel positions it defines (the lowest 26) and drops the others, and
/// `Channels::count` returns the number of bits set in what is kept.
#[verifier::external_body]
fn count_channels(mask: u32) -> (count: usize)
    ensures
        count == channel_count(mask),
{
    symphonia::core::audio::Channels::from_bits_truncate(mask).count()
}

/// How the output device is to be opened.
#[derive(Clone, Copy, Debug, PartialEq, Eq, Structural)]
pub struct StreamConfig {
    pub channels: u16,
    pub sample_rate: u32,
}

impl StreamConfig {
    /// The samples that one second of sound takes: one for each channel of
    /// each frame.
    pub open spec fn samples_per_second(self) -> nat {
        (self.channels as nat) * (self.sample_rate as nat)
    }
}

/// The time that `samples` samples last at `per_second` samples a second, in
/// nanoseconds rounded down. At a rate of nothing no time passes.
pub open spec fn played_nanos(samples: nat, per_second: nat) -> nat {
    if per_second == 0 {
        0
    } else {
        (samples * 1_000_000_000) / per_second
    }
}

/// What one call of the device did.
#[derive(Clone, Copy, Debug, PartialEq, Eq, Structural)]
pub struct Rendered {
    /// The number of samples written to the start of the buffer.
    pub written: usize,
    /// The stream has ended and, for the first time, could not fill the
    /// buffer: the song is over, and it is time to skip to the next.
    pub exhausted: bool,
}

/// The state of one output stream.
#[derive(Debug)]
pub struct Playback<T> {
    pub config: StreamConfig,
    /// Decoded samples that the device has not taken yet, oldest first.
    pub backlog: VecDeque<T>,
    /// The loader has reported the end of the stream, or a failure.
    pub ended: bool,
    /// The samples written to the device so far.
    pub samples: u64,
    /// The stream has run dry after its end, and has said so.
    pub exhausted: bool,
}

/// The lesser of two numbers.
pub open spec fn lesser(a: int, b: int) -> int {
    if a <= b {
        a
    } else {
        b
    }
}

impl<T: Copy> Playback<T> {
    /// The state of a stream that is to play a signal of the given shape:
    /// nothing decoded, nothing played. There is none for a signal without
    /// channels or without a sample rate.
    pub fn new(signal_spec: SignalSpec) -> (playback: Option<Playback<T>>)
        ensures
            playback is Some <==> channel_count(signal_spec.channels) > 0 && signal_spec.rate > 0,
            playback matches Some(p) ==> {
                &&& p.config.channels == channel_count(signal_spec.channels)
                &&& p.config.sample_rate == signal_spec.rate
                &&& p.backlog@.len() == 0
                &&& !p.ended
                &&& p.samples == 0
                &&& !p.exhausted
            },
    {
        let count: usize = count_channels(signal_spec.channels);
        proof {
            lemma_set_bits_bound(signal_spec.channels, CHANNEL_POSITIONS as nat);
        }
        if count == 0 || signal_spec.rate == 0 {
            None
        } else {
            Some(
                Playback {
                    config: StreamConfig { channels: count as u16, sample_rate: signal_spec.rate },
                    backlog: VecDeque::new(),
                    ended: false,
                    samples: 0,
                    exhausted: false,
                },
            )
        }
    }

    /// Whether to pull from the loader before filling a buffer of `want`
    /// samples: the backlog is short of it and the stream has not ended.
    pub fn wants_chunk(&self, want: usize) -> (pull: bool)
        ensures
            pull == (!self.ended && self.backlog@.len() < want),
    {
        !self.ended && self.backlog.len() < want
    }

    /// Takes in what one pull from the loader gave. Samples go to the end of
    /// the backlog; a packet of another track changes nothing; the end of
    /// the stream, and a failure alike, mark the stream as ended.
    pub fn feed(&mut self, pulled: Pulled<T>)
        ensures
            final(self).config == old(self).config,
            final(self).samples == old(self).samples,
            final(self).exhausted == old(self).exhausted,
            match pulled {
                Pulled::Chunk(chunk) => final(self).backlog@ == old(self).backlog@ + chunk@
                    && final(self).ended == old(self).ended,
                Pulled::Skipped => final(self).backlog@ == old(self).backlog@ && final(self).ended
                    == old(self).ended,
                Pulled::EndOfStream | Pulled::Failed => final(self).backlog@ == old(self).backlog@
                    && final(self).ended,
            },
    {
        match pulled {
            Pulled::Chunk(chunk) => {
                let mut i: usize = 0;
                while i < chunk.len()
                    invariant
                        i <= chunk.len(),
                        self.config == old(self).config,
                        self.samples == old(self).samples,
                        self.ended == old(self).ended,
                        self.exhausted == old(self).exhausted,
                        self.backlog@ == old(self).backlog@ + chunk@.take(i as int),
                    decreases chunk.len() - i,
                {
                    self.backlog.push_back(chunk[i]);
                    assert(chunk@.take(i as int).push(chunk@[i as int]) =~= chunk@.take(i + 1));
                    i += 1;
                }
                assert(chunk@.take(chunk.len() as int) =~= chunk@);
            },
            Pulled::Skipped => {},
            Pulled::EndOfStream => {
                self.ended = true;
            },
            Pulled::Failed => {
                self.ended = true;
            },
        }
    }

    /// Fills a buffer while the stream is paused: with `silence`, and with
    /// no change to the backlog or to what counts as played.
    pub fn render_paused(&self, dest: &mut [T], silence: T)
        ensures
            final(dest)@.len() == old(dest)@.len(),
            forall|i: int| 0 <= i < final(dest)@.len() ==> final(dest)@[i] == silence,
    {
        let mut i: usize = 0;
        while i < dest.len()
            invariant
                i <= dest@.len(),
                dest@.len() == old(dest)@.len(),
                forall|j: int| 0 <= j < i ==> dest@[j] == silence,
            decreases dest@.len() - i,
        {
            dest[i] = silence;
            i += 1;
        }
    }

    /// Whether a stream runs dry on a buffer of `want` samples: it has
    /// ended, and its backlog does not fill the buffer.
    pub open spec fn runs_dry(&self, want: int) -> bool {
        self.ended && self.backlog@.len() < want
    }

    /// Fills a buffer from the backlog: moves the oldest samples to its
    /// start, as many as there are and as fit, and counts them as played.
    /// What the backlog cannot fill is left as it was. The first time that a
    /// stream runs dry, and only then, the outcome says that it is
    /// exhausted.
    pub fn render(&mut self, dest: &mut [T]) -> (rendered: Rendered)
        ensures
            rendered.written == lesser(old(self).backlog@.len() as int, old(dest)@.len() as int),
            rendered.exhausted == (!old(self).exhausted
                && old(self).runs_dry(old(dest)@.len() as int)),
            final(self).exhausted == (old(self).exhausted
                || old(self).runs_dry(old(dest)@.len() as int)),
            final(dest)@ == old(self).backlog@.take(rendered.written as int) + old(dest)@.skip(
                rendered.written as int,
            ),
            final(self).backlog@ == old(self).backlog@.skip(rendered.written as int),
            final(self).samples == lesser(old(self).samples + rendered.written, u64::MAX as int),
            final(self).config == old(self).config,
            final(self).ended == old(self).ended,
    {
        let count: usize = if self.backlog.len() <= dest.len() {
            self.backlog.len()
        } else {
            dest.len()
        };
        let mut i: usize = 0;
        while i < count
            invariant
                i <= count,
                count <= old(self).backlog@.len(),
                count <= old(dest)@.len(),
                dest@.len() == old(dest)@.len(),
                self.config == old(self).config,
                self.ended == old(self).ended,
                self.exhausted == old(self).exhausted,
                self.samples == old(self).samples,
                self.backlog@ == old(self).backlog@.skip(i as int),
                dest@ == old(self).backlog@.take(i as int) + old(dest)@.skip(i as int),
            decreases count - i,
        {
            match self.backlog.pop_front() {
                Some(sample) => {
                    dest[i] = sample;
                    assert(self.backlog@ =~= old(self).backlog@.skip(i + 1));
                    assert(dest@ =~= old(self).backlog@.take(i + 1) + old(dest)@.skip(i + 1));
                },
                None => {},
            }
            i += 1;
        }
        let more: u64 = count as u64;
        self.samples = if self.samples > u64::MAX - more {
            u64::MAX
        } else {
            self.samples + more
        };
        let dry = self.ended && count < dest.len();
        let first = dry && !self.exhausted;
        if dry {
            self.exhausted = true;
        }
        Rendered { written: count, exhausted: first }
    }

    /// How long the stream has played: the time that the samples written so
    /// far last, at one sample for each channel of each frame.
    pub fn played(&self) -> (time: PlayTime)
        ensures
            time.total_nanos() == played_nanos(
                self.samples as nat,
                self.config.samples_per_second(),
            ),
    {
        assert(self.config.channels * self.config.sample_rate <= u64::MAX) by (nonlinear_arith)
            requires
                self.config.channels <= 0xffff,
                self.config.sample_rate <= 0xffff_ffff,
        ;
        let per_second: u64 = (self.config.channels as u64) * (self.config.sample_rate as u64);
        if per_second == 0 {
            PlayTime::zero()
        } else {
            PlayTime::from_samples(self.samples, per_second)
        }
    }
}

} // verus!
