//! Voice-activity gate: a stateless RMS-energy threshold test over a frame
//! of 16-bit PCM samples.

use vstd::prelude::*;

verus! {

/// Tuning of the voice-activity gate. A frame counts as speech when it is
/// at least `min_samples` long and its mean squared sample value reaches
/// `energy_per_sample`.
#[derive(Debug, Clone, Copy, PartialEq, Eq, Structural)]
pub struct VadConfig {
    pub min_samples: usize,
    pub energy_per_sample: u32,
}

/// Default gate: 512 samples minimum, and a mean-square threshold that
/// corresponds to an RMS level of 0.015 of full scale.
impl Default for VadConfig {
    fn default() -> (r: Self)
        ensures
            r.min_samples == 512usize,
            r.energy_per_sample == 241577u32,
    {
        VadConfig { min_samples: 512, energy_per_sample: 241577 }
    }
}

/// Sum of squared sample values.
pub open spec fn energy_sum(s: Seq<i16>) -> int
    decreases s.len(),
{
    if s.len() == 0 {
        0
    } else {
        energy_sum(s.drop_last()) + s.last() * s.last()
    }
}

/// What [`has_speech`] returns: the frame is long enough and its total
/// squared energy reaches the per-sample threshold times the frame length.
pub open spec fn has_speech_spec(s: Seq<i16>, config: VadConfig) -> bool {
    s.len() >= config.min_samples && energy_sum(s) >= s.len() * config.energy_per_sample
}

proof fn lemma_energy_sum_nonneg(s: Seq<i16>)
    ensures
        energy_sum(s) >= 0,
    decreases s.len(),
{
    if s.len() > 0 {
        lemma_energy_sum_nonneg(s.drop_last());
        assert(s.last() * s.last() >= 0) by (nonlinear_arith);
    }
}

/// RMS-threshold speech detection over one frame.
pub fn has_speech(samples: &[i16], config: &VadConfig) -> (r: bool)
    ensures
        r == has_speech_spec(samples@, *config),
{
    let n = samples.len();
    if n < config.min_samples {
        return false;
    }
    let mut acc: u128 = 0;
    let mut i: usize = 0;
    while i < n
        invariant
            i <= n,
            n == samples@.len(),
            acc == energy_sum(samples@.subrange(0, i as int)),
            acc <= (i as int) * 0x4000_0000,
        decreases n - i,
    {
        let v: i64 = samples[i] as i64;
        proof {
            assert(samples@.subrange(0, i + 1).drop_last() =~= samples@.subrange(0, i as int));
            assert(v * v <= 0x4000_0000) by (nonlinear_arith)
                requires
                    -0x8000 <= v <= 0x7FFF,
            ;
            assert(v * v >= 0) by (nonlinear_arith);
            assert((i as int) * 0x4000_0000 + 0x4000_0000 == (i + 1) * 0x4000_0000) by (nonlinear_arith);
            assert((i + 1) * 0x4000_0000 <= 0x1_0000_0000_0000_0000 * 0x4000_0000int) by (nonlinear_arith)
                requires
                    i + 1 <= 0x1_0000_0000_0000_0000,
            ;
        }
        let sq: u128 = (v * v) as u128;
        acc = acc + sq;
        i += 1;
    }
    proof {
        assert(samples@.subrange(0, n as int) =~= samples@);
        assert((n as u128) * (config.energy_per_sample as u128) < u128::MAX) by (nonlinear_arith)
            requires
                n <= 0xFFFF_FFFF_FFFF_FFFFu128,
                config.energy_per_sample <= 0xFFFF_FFFFu128,
        ;
    }
    acc >= (n as u128) * (config.energy_per_sample as u128)
}

} // verus!
