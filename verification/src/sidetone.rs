//! Sidetone generator: a fixed-point phase accumulator over an integer
//! sine approximation, with a linear fade envelope against clicks.
//!
//! The tone is computed in pure integer arithmetic (a quadratic rational
//! approximation of the sine, exact at the zero crossings and the peaks),
//! so the whole generator is free of floating point.

use vstd::prelude::*;

verus! {

/// Number of points in one full cycle of the sine approximation.
pub const LUT_SIZE: usize = 256;

/// Fade envelope state.
#[derive(Clone, Copy, Debug, PartialEq, Eq, Structural)]
pub enum FadeState {
    /// Output is zero.
    Silent,
    /// Ramping up (zero to full).
    FadeIn,
    /// Full amplitude output.
    Sustain,
    /// Ramping down (full to zero).
    FadeOut,
}

/// The first half-cycle of the sine approximation at point `i` of 128:
/// `32767 * 4u / (20480 - u)` with `u = i * (128 - i)`, which is `0` at the
/// crossings and exactly `32767` at the peak.
pub open spec fn spec_half_sine(i: int) -> int {
    let u = i * (128 - i);
    (131068 * u) / (20480 - u)
}

/// One full cycle of the sine approximation at point `i` of 256: the
/// second half mirrors the first with opposite sign.
pub open spec fn spec_sine_q15(i: int) -> int {
    if i < 128 {
        spec_half_sine(i)
    } else {
        -spec_half_sine(i - 128)
    }
}

/// Bounds of the first half-cycle: between 0 and full scale.
proof fn lemma_half_sine_bounds(i: int)
    requires
        0 <= i < 128,
    ensures
        0 <= spec_half_sine(i) <= 32767,
{
    let u = i * (128 - i);
    assert(0 <= i * (128 - i) <= 4096) by (nonlinear_arith)
        requires
            0 <= i < 128,
    ;
    assert(0 <= (131068 * u) / (20480 - u) <= 32767) by (nonlinear_arith)
        requires
            0 <= u <= 4096,
    ;
}

/// The first half-cycle of the sine approximation.
fn half_sine(i: u32) -> (r: i16)
    requires
        i < 128,
    ensures
        r as int == spec_half_sine(i as int),
        0 <= r <= 32767,
{
    proof {
        lemma_half_sine_bounds(i as int);
        assert(i * (128 - i) <= 4096) by (nonlinear_arith)
            requires
                0 <= i < 128,
        ;
    }
    let u = i * (128 - i);
    let v = (131068 * u) / (20480 - u);
    v as i16
}

/// The sine approximation at point `i` of a 256-point cycle, in Q15 full
/// scale.
pub fn sine_q15(idx: u8) -> (r: i16)
    ensures
        r as int == spec_sine_q15(idx as int),
        -32767 <= r <= 32767,
{
    let i = idx as u32;
    if i < 128 {
        half_sine(i)
    } else {
        let v = half_sine(i - 128);
        -v
    }
}

/// One full cycle of the sine approximation, as a table.
pub fn sine_table() -> (r: Vec<i16>)
    ensures
        r@.len() == LUT_SIZE,
        forall|i: int| 0 <= i < LUT_SIZE ==> #[trigger] r@[i] == spec_sine_q15(i),
{
    let mut out: Vec<i16> = Vec::new();
    let mut i: usize = 0;
    while i < LUT_SIZE
        invariant
            out@.len() == i,
            i <= LUT_SIZE,
            forall|k: int| 0 <= k < i ==> #[trigger] out@[k] == spec_sine_q15(k),
        decreases LUT_SIZE - i,
    {
        out.push(sine_q15(i as u8));
        i = i + 1;
    }
    out
}

/// One step of the fade envelope: given the envelope state, its position,
/// its length and the key level, the next state, the next position and the
/// amplitude (0 to 0xFFFF) to apply to this sample.
pub open spec fn spec_fade_step(state: FadeState, pos: u16, len: u16, key_down: bool) -> (
    FadeState,
    u16,
    u16,
) {
    match state {
        FadeState::Silent => {
            if key_down {
                (FadeState::FadeIn, 0u16, 0u16)
            } else {
                (FadeState::Silent, pos, 0u16)
            }
        },
        FadeState::FadeIn => {
            if key_down {
                if pos + 1 >= len {
                    (FadeState::Sustain, (pos + 1) as u16, 0xFFFFu16)
                } else {
                    (
                        FadeState::FadeIn,
                        (pos + 1) as u16,
                        (((pos + 1) * 0xFFFF) / (len as int)) as u16,
                    )
                }
            } else {
                (FadeState::FadeOut, len, 0xFFFFu16)
            }
        },
        FadeState::Sustain => {
            if key_down {
                (FadeState::Sustain, pos, 0xFFFFu16)
            } else {
                (FadeState::FadeOut, len, 0xFFFFu16)
            }
        },
        FadeState::FadeOut => {
            if pos == 0 {
                (FadeState::Silent, 0u16, 0u16)
            } else {
                (FadeState::FadeOut, (pos - 1) as u16, (((pos - 1) * 0xFFFF) / (len as int)) as u16)
            }
        },
    }
}

/// The scaled output sample: the sine value attenuated by `amp / 0x10000`,
/// computed on the magnitude so that the sign is preserved exactly.
pub open spec fn spec_scale(sine: int, amp: u16) -> int {
    if sine >= 0 {
        (sine * amp) / 0x10000
    } else {
        -(((-sine) * amp) / 0x10000)
    }
}

/// Sidetone generator.
///
/// A 32-bit phase accumulator whose top eight bits index the 256-point
/// sine cycle; the phase increment sets the frequency.  A linear fade of
/// `fade_len` samples shapes key-down and key-up transitions.
pub struct SidetoneGen {
    phase: u32,
    phase_inc: u32,
    fade_state: FadeState,
    fade_pos: u16,
    fade_len: u16,
}

/// The phase increment for a target frequency at a sample rate:
/// `freq * 2^32 / rate`, truncated to the accumulator width.
pub open spec fn spec_phase_inc(freq_hz: u32, sample_rate: u32) -> u32 {
    (((freq_hz as int) * 0x1_0000_0000) / (sample_rate as int)) as u32
}

impl SidetoneGen {
    /// Current phase accumulator value.
    pub closed spec fn spec_phase(&self) -> u32 {
        self.phase
    }

    /// Current phase increment.
    pub closed spec fn spec_phase_inc_val(&self) -> u32 {
        self.phase_inc
    }

    /// Current fade envelope state.
    pub closed spec fn spec_fade_state(&self) -> FadeState {
        self.fade_state
    }

    /// Current fade position.
    pub closed spec fn spec_fade_pos(&self) -> u16 {
        self.fade_pos
    }

    /// Fade length in samples.
    pub closed spec fn spec_fade_len(&self) -> u16 {
        self.fade_len
    }

    /// Envelope invariant: a nonzero fade length and a position inside it.
    pub open spec fn wf(&self) -> bool {
        &&& self.spec_fade_len() >= 1
        &&& self.spec_fade_pos() <= self.spec_fade_len()
        &&& (self.spec_fade_state() == FadeState::FadeIn ==> self.spec_fade_pos()
            < self.spec_fade_len())
    }

    /// Create a generator for `freq_hz` at `sample_rate`, with a fade of
    /// `fade_samples` samples (at least one).
    pub fn new(freq_hz: u32, sample_rate: u32, fade_samples: u16) -> (r: Self)
        requires
            sample_rate >= 1,
        ensures
            r.wf(),
            r.spec_phase() == 0,
            r.spec_phase_inc_val() == spec_phase_inc(freq_hz, sample_rate),
            r.spec_fade_state() == FadeState::Silent,
            r.spec_fade_pos() == 0,
            r.spec_fade_len() == if fade_samples >= 1 {
                fade_samples
            } else {
                1u16
            },
    {
        SidetoneGen {
            phase: 0,
            phase_inc: Self::calc_phase_inc(freq_hz, sample_rate),
            fade_state: FadeState::Silent,
            fade_pos: 0,
            fade_len: if fade_samples >= 1 {
                fade_samples
            } else {
                1
            },
        }
    }

    /// `freq * 2^32 / rate`, truncated to the accumulator width.
    fn calc_phase_inc(freq_hz: u32, sample_rate: u32) -> (r: u32)
        requires
            sample_rate >= 1,
        ensures
            r == spec_phase_inc(freq_hz, sample_rate),
    {
        #[verifier::truncate] (((freq_hz as u64 * 0x1_0000_0000u64) / (sample_rate as u64)) as u32)
    }

    /// Update the frequency; the envelope and phase are unchanged.
    pub fn set_frequency(&mut self, freq_hz: u32, sample_rate: u32)
        requires
            sample_rate >= 1,
        ensures
            final(self).spec_phase_inc_val() == spec_phase_inc(freq_hz, sample_rate),
            final(self).spec_phase() == old(self).spec_phase(),
            final(self).spec_fade_state() == old(self).spec_fade_state(),
            final(self).spec_fade_pos() == old(self).spec_fade_pos(),
            final(self).spec_fade_len() == old(self).spec_fade_len(),
    {
        self.phase_inc = Self::calc_phase_inc(freq_hz, sample_rate);
    }

    /// Current fade envelope state.
    pub fn fade_state(&self) -> (r: FadeState)
        ensures
            r == self.spec_fade_state(),
    {
        self.fade_state
    }

    /// Advance the fade envelope and return the amplitude for this sample.
    fn update_fade(&mut self, key_down: bool) -> (r: u16)
        requires
            old(self).wf(),
        ensures
            final(self).wf(),
            ({
                let step = spec_fade_step(
                    old(self).spec_fade_state(),
                    old(self).spec_fade_pos(),
                    old(self).spec_fade_len(),
                    key_down,
                );
                &&& final(self).spec_fade_state() == step.0
                &&& final(self).spec_fade_pos() == step.1
                &&& r == step.2
            }),
            final(self).spec_fade_len() == old(self).spec_fade_len(),
            final(self).spec_phase() == old(self).spec_phase(),
            final(self).spec_phase_inc_val() == old(self).spec_phase_inc_val(),
    {
        match (self.fade_state, key_down) {
            (FadeState::Silent, true) => {
                self.fade_state = FadeState::FadeIn;
                self.fade_pos = 0;
                0
            },
            (FadeState::FadeIn, true) => {
                self.fade_pos = self.fade_pos + 1;
                if self.fade_pos >= self.fade_len {
                    self.fade_state = FadeState::Sustain;
                    0xFFFF
                } else {
                    proof {
                        let p = self.fade_pos as int;
                        let l = self.fade_len as int;
                        assert(0 <= (p * 0xFFFF) / l <= 0xFFFF) by (nonlinear_arith)
                            requires
                                1 <= l,
                                0 <= p <= l,
                        ;
                    }
                    (((self.fade_pos as u32) * 0xFFFF) / (self.fade_len as u32)) as u16
                }
            },
            (FadeState::Sustain, true) => 0xFFFF,
            (FadeState::FadeIn, false) | (FadeState::Sustain, false) => {
                self.fade_state = FadeState::FadeOut;
                self.fade_pos = self.fade_len;
                0xFFFF
            },
            (FadeState::FadeOut, _) => {
                if self.fade_pos == 0 {
                    self.fade_state = FadeState::Silent;
                    0
                } else {
                    self.fade_pos = self.fade_pos - 1;
                    proof {
                        let p = self.fade_pos as int;
                        let l = self.fade_len as int;
                        assert(0 <= (p * 0xFFFF) / l <= 0xFFFF) by (nonlinear_arith)
                            requires
                                1 <= l,
                                0 <= p <= l,
                        ;
                    }
                    (((self.fade_pos as u32) * 0xFFFF) / (self.fade_len as u32)) as u16
                }
            },
            (FadeState::Silent, false) => 0,
        }
    }

    /// Generate the next audio sample for the given key level.
    ///
    /// The envelope advances by one [`spec_fade_step`]; a zero amplitude
    /// yields silence and leaves the phase untouched, otherwise the sample
    /// is the sine at the top eight phase bits, scaled by the amplitude,
    /// and the phase advances by the increment (wrapping).
    pub fn next_sample(&mut self, key_down: bool) -> (r: i16)
        requires
            old(self).wf(),
        ensures
            final(self).wf(),
            final(self).spec_fade_len() == old(self).spec_fade_len(),
            final(self).spec_phase_inc_val() == old(self).spec_phase_inc_val(),
            ({
                let step = spec_fade_step(
                    old(self).spec_fade_state(),
                    old(self).spec_fade_pos(),
                    old(self).spec_fade_len(),
                    key_down,
                );
                &&& final(self).spec_fade_state() == step.0
                &&& final(self).spec_fade_pos() == step.1
                &&& (step.2 == 0 ==> r == 0 && final(self).spec_phase() == old(self).spec_phase())
                &&& (step.2 != 0 ==> {
                    &&& r as int == spec_scale(
                        spec_sine_q15((old(self).spec_phase() >> 24) as int),
                        step.2,
                    )
                    &&& final(self).spec_phase() == old(self).spec_phase().wrapping_add(
                        old(self).spec_phase_inc_val(),
                    )
                })
            }),
    {
        let amplitude = self.update_fade(key_down);
        if amplitude == 0 {
            return 0;
        }
        let idx_word = self.phase >> 24;
        proof {
            let p = self.phase;
            assert(p >> 24 < 256) by (bit_vector);
        }
        let idx = idx_word as u8;
        self.phase = self.phase.wrapping_add(self.phase_inc);
        let sine = sine_q15(idx);
        if sine >= 0 {
            proof {
                let s = sine as int;
                let a = amplitude as int;
                assert(0 <= s * a <= 32767 * 0xFFFF && s * a / 0x10000 <= 32767) by (
                nonlinear_arith)
                    requires
                        0 <= s <= 32767,
                        0 <= a <= 0xFFFF,
                ;
            }
            let m = (sine as u32) * (amplitude as u32);
            (m / 0x10000) as i16
        } else {
            let mag = (-sine) as u32;
            proof {
                let s = mag as int;
                let a = amplitude as int;
                assert(0 <= s * a <= 32767 * 0xFFFF && s * a / 0x10000 <= 32767) by (
                nonlinear_arith)
                    requires
                        0 <= s <= 32767,
                        0 <= a <= 0xFFFF,
                ;
            }
            let m = mag * (amplitude as u32);
            -((m / 0x10000) as i16)
        }
    }

    /// Reset the phase and the envelope (after a fault); the frequency and
    /// fade length are kept.
    pub fn reset(&mut self)
        ensures
            final(self).spec_phase() == 0,
            final(self).spec_fade_state() == FadeState::Silent,
            final(self).spec_fade_pos() == 0,
            final(self).spec_fade_len() == old(self).spec_fade_len(),
            final(self).spec_phase_inc_val() == old(self).spec_phase_inc_val(),
    {
        self.phase = 0;
        self.fade_state = FadeState::Silent;
        self.fade_pos = 0;
    }
}

} // verus!
