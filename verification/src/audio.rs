//! The audio synthesizer: one sawtooth phase accumulator and one slow
//! amplitude oscillator drive three mutually exclusive sounds, picked in
//! strict priority order every sample.
//!
//! 1. While `blooping > 0`: the game-over tone, a counter subdivided into
//!    fixed strobe windows; alternating windows are silent, the others play
//!    one octave below base after a loss or two octaves above after a win.
//!    When the counter runs out, playback pauses for good.
//! 2. Otherwise while `bleeping > 0`: a short impact bleep, one octave above
//!    base for paddle and wall bounces, two octaves for a destroyed brick.
//! 3. Otherwise: the idle hum at exactly the base frequency, amplitude
//!    modulated by the slow oscillator.
//!
//! The chosen frequency delta is added to the sawtooth accumulator with
//! wrapping arithmetic; the wraparound is what shapes the sawtooth. While
//! the game is paused the accumulators hold still and the value derived
//! from them keeps being emitted, so the output level stays steady instead
//! of dropping to silence.

use vstd::prelude::*;

verus! {

use vstd::arithmetic::div_mod::lemma_div_is_ordered;
use vstd::arithmetic::mul::{lemma_mul_nonnegative, lemma_mul_upper_bound};

/// Fill the hardware buffer up to this many samples every frame: one frame
/// of audio plus a safety margin.
pub const AUDIO_TARGET: u32 = 48000 / 60 + 200;

/// Period of the idle hum's amplitude envelope, in samples.
pub const AUDIO_LFO_MAX: u16 = 48000;

/// Step of the base sawtooth wave; larger means higher pitched.
pub const AUDIO_FREQ_DELTA: u16 = 150;

/// Length of one impact bleep, in samples.
pub const AUDIO_REFLECT_BLEEP: u16 = 800 * 2;

/// Length of one strobe window of the game-over tone, in samples.
pub const AUDIO_DEATH_BLOOP_STROBE: u16 = 8 * 800;

/// Length of the whole game-over tone, in samples.
pub const AUDIO_DEATH_BLOOP: u16 = AUDIO_DEATH_BLOOP_STROBE * 6;

/// The synthesizer state: the sawtooth accumulator, the slow amplitude
/// oscillator, and the two sound-effect countdowns.
#[derive(Clone, Copy, PartialEq, Eq, Structural, Debug)]
pub struct AudioSynth {
    /// Sawtooth accumulator; wraps modulo 2^16 by design.
    pub wave: u16,
    /// Slow oscillator phase, always below [`AUDIO_LFO_MAX`].
    pub lfo: u16,
    /// Whether a pending bleep plays two octaves up (brick) instead of one.
    pub bleep_high: bool,
    /// Remaining samples of the current impact bleep.
    pub bleeping: u16,
    /// Remaining samples of the game-over tone.
    pub blooping: u16,
}

/// The synthesizer invariant: the oscillator phase stays inside its period.
pub open spec fn synth_wf(a: AudioSynth) -> bool {
    a.lfo < AUDIO_LFO_MAX
}

/// The frequency delta the priority rule picks for the sample that is about
/// to be produced; `won` selects the pitch of the game-over tone. The strobe
/// test looks at the counter after its decrement, which is why it reads
/// `blooping - 1`.
pub open spec fn spec_freq_delta(a: AudioSynth, won: bool) -> u16 {
    if a.blooping > 0 {
        if ((a.blooping - 1) / (AUDIO_DEATH_BLOOP_STROBE as int)) % 2 != 0 {
            if !won {
                (AUDIO_FREQ_DELTA / 2) as u16
            } else {
                (AUDIO_FREQ_DELTA * 4) as u16
            }
        } else {
            0u16
        }
    } else if a.bleeping > 0 {
        if a.bleep_high {
            (AUDIO_FREQ_DELTA * 4) as u16
        } else {
            (AUDIO_FREQ_DELTA * 2) as u16
        }
    } else {
        AUDIO_FREQ_DELTA
    }
}

/// Whether the idle hum, and with it the amplitude envelope, is active for
/// this sample: nothing else is playing and the game is not paused.
pub open spec fn spec_lfo_engaged(a: AudioSynth, paused: bool) -> bool {
    !paused && a.blooping == 0 && a.bleeping == 0
}

/// The accumulators and countdowns after one sample. While paused the state
/// holds still.
pub open spec fn spec_synth_next(a: AudioSynth, paused: bool, won: bool) -> AudioSynth {
    if paused {
        a
    } else {
        AudioSynth {
            wave: a.wave.wrapping_add(spec_freq_delta(a, won)),
            lfo: ((a.lfo + 1) % (AUDIO_LFO_MAX as int)) as u16,
            bleep_high: a.bleep_high,
            bleeping: if a.blooping == 0 && a.bleeping > 0 {
                (a.bleeping - 1) as u16
            } else {
                a.bleeping
            },
            blooping: if a.blooping > 0 {
                (a.blooping - 1) as u16
            } else {
                0u16
            },
        }
    }
}

/// Whether playback is paused after this sample: the game-over tone forces a
/// permanent pause on the sample that exhausts its counter.
pub open spec fn spec_now_paused(a: AudioSynth, paused: bool) -> bool {
    paused || (!paused && a.blooping == 1)
}

/// The output level before stereo packing, computed from the accumulators
/// after their update: the sawtooth value scaled down to 12 bits, and, when
/// the idle hum is active, scaled again by the envelope `lfo / AUDIO_LFO_MAX`.
pub open spec fn spec_sample_level(a: AudioSynth, engaged: bool) -> u32 {
    if engaged {
        (((a.wave as int) / 16) * (a.lfo as int) / (AUDIO_LFO_MAX as int)) as u32
    } else {
        ((a.wave as int) / 16) as u32
    }
}

/// The level never reaches 2^12, so the packed word never sets bit 15 of
/// either channel.
pub proof fn lemma_sample_level_bound(a: AudioSynth, engaged: bool)
    requires
        synth_wf(a),
    ensures
        spec_sample_level(a, engaged) < 0x1000,
{
    let w = a.wave as int;
    let l = a.lfo as int;
    lemma_div_is_ordered(0, w, 16);
    lemma_div_is_ordered(w, 65535, 16);
    lemma_mul_nonnegative(w / 16, l);
    lemma_mul_upper_bound(w / 16, 4095, l, 47999);
    lemma_div_is_ordered((w / 16) * l, (4095 * 47999) as int, 48000);
}

/// One sample word pushed to the output: the level duplicated into the two
/// 16-bit stereo half-words.
pub open spec fn spec_sample_value(a: AudioSynth, engaged: bool) -> u32 {
    (spec_sample_level(a, engaged) + 0x10000 * spec_sample_level(a, engaged)) as u32
}

/// Everything one sample does: the state after it, whether playback is now
/// paused, and the word it emits.
pub open spec fn spec_sample(a: AudioSynth, paused: bool, won: bool) -> (AudioSynth, bool, u32) {
    let next = spec_synth_next(a, paused, won);
    (next, spec_now_paused(a, paused), spec_sample_value(next, spec_lfo_engaged(a, paused)))
}

/// `n` samples in a row: the state and pause flag after them, and the words
/// they emit in order.
pub open spec fn spec_run(a: AudioSynth, paused: bool, won: bool, n: nat) -> (
    AudioSynth,
    bool,
    Seq<u32>,
)
    decreases n,
{
    if n == 0 {
        (a, paused, Seq::empty())
    } else {
        let (a1, p1, emitted) = spec_run(a, paused, won, (n - 1) as nat);
        let (a2, p2, value) = spec_sample(a1, p1, won);
        (a2, p2, emitted.push(value))
    }
}

/// How many samples a frame owes the hardware: the distance from the current
/// buffer fill level up to [`AUDIO_TARGET`], and none when the buffer is
/// already there or fuller.
pub open spec fn spec_samples_needed(fill: u32) -> u32 {
    if fill < AUDIO_TARGET {
        (AUDIO_TARGET - fill) as u32
    } else {
        0u32
    }
}

impl AudioSynth {
    /// The synthesizer as the game starts: accumulators at rest, the
    /// envelope a quarter of the way into its period, no effect pending.
    pub fn new() -> (a: AudioSynth)
        ensures
            a == (AudioSynth {
                wave: 0u16,
                lfo: (AUDIO_LFO_MAX / 4) as u16,
                bleep_high: false,
                bleeping: 0u16,
                blooping: 0u16,
            }),
            synth_wf(a),
    {
        AudioSynth {
            wave: 0,
            lfo: AUDIO_LFO_MAX / 4,
            bleep_high: false,
            bleeping: 0,
            blooping: 0,
        }
    }

    /// Produces one sample: advances the accumulators (unless paused),
    /// returns the packed stereo word and whether the game-over tone just
    /// forced playback to pause.
    pub fn next_sample(&mut self, paused: bool, won: bool) -> (r: (u32, bool))
        requires
            synth_wf(*old(self)),
        ensures
            *final(self) == spec_sample(*old(self), paused, won).0,
            r.1 == spec_sample(*old(self), paused, won).1,
            r.0 == spec_sample(*old(self), paused, won).2,
            synth_wf(*final(self)),
    {
        let mut lfo_engaged = false;
        let mut now_paused = paused;
        if !paused {
            let freq_delta: u16 = if self.blooping > 0 {
                self.blooping = self.blooping - 1;
                if self.blooping == 0 {
                    now_paused = true;
                }
                if (self.blooping / AUDIO_DEATH_BLOOP_STROBE) % 2 != 0 {
                    if !won {
                        AUDIO_FREQ_DELTA / 2
                    } else {
                        AUDIO_FREQ_DELTA * 4
                    }
                } else {
                    0
                }
            } else if self.bleeping > 0 {
                self.bleeping = self.bleeping - 1;
                if self.bleep_high {
                    AUDIO_FREQ_DELTA * 4
                } else {
                    AUDIO_FREQ_DELTA * 2
                }
            } else {
                lfo_engaged = true;
                AUDIO_FREQ_DELTA
            };
            self.wave = self.wave.wrapping_add(freq_delta);
            self.lfo = (self.lfo + 1) % AUDIO_LFO_MAX;
        }
        let wave_word: u32 = self.wave as u32;
        proof {
            assert(wave_word >> 4 == wave_word / 16) by (bit_vector);
            assert(wave_word >> 4 < 0x1000) by (bit_vector)
                requires
                    wave_word < 0x10000,
            ;
        }
        let base: u32 = wave_word >> 4;
        let level: u32 = if lfo_engaged {
            proof {
                lemma_mul_nonnegative(base as int, self.lfo as int);
                lemma_mul_upper_bound(base as int, 4095, self.lfo as int, 47999);
                lemma_div_is_ordered(
                    (base as int) * (self.lfo as int),
                    (4095 * 47999) as int,
                    48000,
                );
            }
            base * (self.lfo as u32) / (AUDIO_LFO_MAX as u32)
        } else {
            base
        };
        assert(level < 0x10000);
        let value: u32 = level | (level << 16);
        assert(level < 0x10000 ==> (level | (level << 16)) == level + 0x10000 * level)
            by (bit_vector);
        (value, now_paused)
    }
}

/// Computes how many samples to generate this frame from the hardware's
/// buffer fill counter.
pub fn samples_needed(fill: u32) -> (n: u32)
    ensures
        n == spec_samples_needed(fill),
{
    if fill < AUDIO_TARGET {
        AUDIO_TARGET - fill
    } else {
        0
    }
}

/// A run of samples keeps the synthesizer invariant.
pub proof fn lemma_run_wf(a: AudioSynth, paused: bool, won: bool, n: nat)
    requires
        synth_wf(a),
    ensures
        synth_wf(spec_run(a, paused, won, n).0),
    decreases n,
{
    if n > 0 {
        lemma_run_wf(a, paused, won, (n - 1) as nat);
    }
}

/// A run of `n` samples emits exactly `n` words.
pub proof fn lemma_run_len(a: AudioSynth, paused: bool, won: bool, n: nat)
    ensures
        spec_run(a, paused, won, n).2.len() == n,
    decreases n,
{
    if n > 0 {
        lemma_run_len(a, paused, won, (n - 1) as nat);
    }
}

/// A started game-over tone plays itself out sample by sample: after `k`
/// samples of a run that begins unpaused with `blooping == n`, the counter
/// stands at `n - k`, and playback is paused exactly from the sample that
/// brought the counter to zero — the tone schedules `n` samples and then
/// pauses for good.
pub proof fn lemma_bloop_pauses(a: AudioSynth, won: bool, k: nat)
    requires
        a.blooping > 0,
    ensures
        spec_run(a, false, won, k).0.blooping == if k <= a.blooping {
            a.blooping - k
        } else {
            0
        },
        spec_run(a, false, won, k).1 == (k >= a.blooping),
    decreases k,
{
    if k > 0 {
        lemma_bloop_pauses(a, won, (k - 1) as nat);
    }
}

/// Once playback is paused, further samples change nothing: the state is
/// frozen and the same word is emitted over and over.
pub proof fn lemma_paused_holds(a: AudioSynth, won: bool, n: nat)
    ensures
        spec_run(a, true, won, n).0 == a,
        spec_run(a, true, won, n).1,
        forall|i: int|
            0 <= i < n ==> #[trigger] spec_run(a, true, won, n).2[i] == spec_sample_value(
                a,
                false,
            ),
    decreases n,
{
    if n > 0 {
        lemma_paused_holds(a, won, (n - 1) as nat);
        lemma_run_len(a, true, won, (n - 1) as nat);
    }
}

} // verus!
