//! Audio conditioning that the core verifies: the target-format check and
//! block-averaging decimation to 16 kHz over 16-bit PCM samples. Device
//! capture, floating-point metering and gain live with the host.

use vstd::prelude::*;

use vstd::arithmetic::div_mod::{lemma_div_is_ordered, lemma_multiply_divide_le};
use vstd::arithmetic::mul::lemma_mul_inequality;

use crate::text::dec_digits;
use crate::text::u64_to_string;

verus! {

/// The sample rate every conditioned frame must have.
pub const SAMPLE_RATE_HZ: u32 = 16000;

/// The channel count every conditioned frame must have.
pub const CHANNELS: u16 = 1;

/// One input device as enumeration reports it.
#[derive(Debug, Clone, PartialEq, Eq)]
pub struct InputMicrophone {
    pub id: String,
    pub label: String,
    pub is_default: bool,
}

/// The message [`validate_audio_format`] returns for a wrong sample rate.
pub open spec fn bad_rate_message(sample_rate_hz: u32) -> Seq<char> {
    "invalid sample rate: expected 16000, got "@ + dec_digits(sample_rate_hz as nat)
}

/// The message [`validate_audio_format`] returns for a wrong channel count.
pub open spec fn bad_channels_message(channels: u16) -> Seq<char> {
    "invalid channel count: expected 1, got "@ + dec_digits(channels as nat)
}

/// Accept exactly the target format: 16000 Hz, mono. A wrong sample rate is
/// reported before a wrong channel count.
pub fn validate_audio_format(sample_rate_hz: u32, channels: u16) -> (r: Result<(), String>)
    ensures
        r is Ok <==> sample_rate_hz == 16000 && channels == 1,
        sample_rate_hz != 16000 ==> (r matches Err(m) && m@ == bad_rate_message(sample_rate_hz)),
        sample_rate_hz == 16000 && channels != 1 ==> (r matches Err(m) && m@
            == bad_channels_message(channels)),
{
    if sample_rate_hz != SAMPLE_RATE_HZ {
        let mut message = String::from_str("invalid sample rate: expected 16000, got ");
        let digits = u64_to_string(sample_rate_hz as u64);
        message.append(digits.as_str());
        return Err(message);
    }
    if channels != CHANNELS {
        let mut message = String::from_str("invalid channel count: expected 1, got ");
        let digits = u64_to_string(channels as u64);
        message.append(digits.as_str());
        return Err(message);
    }
    Ok(())
}

/// Sum of the samples.
pub open spec fn sum_i16(s: Seq<i16>) -> int
    decreases s.len(),
{
    if s.len() == 0 {
        0
    } else {
        sum_i16(s.drop_last()) + s.last()
    }
}

/// The average of the samples, rounded toward zero; an empty bucket
/// averages to silence.
pub open spec fn avg_trunc(s: Seq<i16>) -> int {
    if s.len() == 0 {
        0
    } else if sum_i16(s) >= 0 {
        sum_i16(s) / (s.len() as int)
    } else {
        -((-sum_i16(s)) / (s.len() as int))
    }
}

/// Where decimation bucket `k` starts in the input: `k` times the rate
/// ratio, capped at the input length.
pub open spec fn bucket_bound(len: int, rate: int, k: int) -> int {
    vstd::math::min(k * rate / 16000, len)
}

/// How many samples decimation yields.
pub open spec fn downsampled_len(len: int, rate: int) -> int {
    len * 16000 / rate
}

proof fn lemma_bucket_bound_step(len: int, rate: int, k: int)
    requires
        0 <= k,
        0 <= len,
        16000 < rate,
    ensures
        0 <= bucket_bound(len, rate, k) <= bucket_bound(len, rate, k + 1) <= len,
{
    lemma_mul_inequality(k, k + 1, rate);
    lemma_div_is_ordered(k * rate, (k + 1) * rate, 16000);
    assert(k * rate >= 0) by (nonlinear_arith)
        requires
            k >= 0,
            rate > 0,
    ;
}

proof fn lemma_downsampled_len_le(len: int, rate: int)
    requires
        0 <= len,
        16000 < rate,
    ensures
        0 <= downsampled_len(len, rate) <= len,
{
    assert(len * 16000 >= 0) by (nonlinear_arith)
        requires
            len >= 0,
    ;
    assert(len * 16000 <= rate * len) by (nonlinear_arith)
        requires
            0 <= len,
            16000 < rate,
    ;
    lemma_multiply_divide_le(len * 16000, rate, len);
}

/// Decimate a frame to 16 kHz by block averaging: an identity copy when the
/// source is already 16 kHz, an empty frame when the source is slower
/// (upsampling is unsupported by policy), and otherwise one average per
/// output sample over its bucket of input samples.
pub fn downsample_to_16k(input: &[i16], source_sample_rate_hz: u32) -> (r: Vec<i16>)
    ensures
        source_sample_rate_hz == 16000 ==> r@ == input@,
        source_sample_rate_hz < 16000 ==> r@.len() == 0,
        source_sample_rate_hz > 16000 ==> {
            &&& r@.len() == downsampled_len(input@.len() as int, source_sample_rate_hz as int)
            &&& forall|k: int|
                0 <= k < r@.len() ==> #[trigger] r@[k] as int == avg_trunc(
                    input@.subrange(
                        bucket_bound(input@.len() as int, source_sample_rate_hz as int, k),
                        bucket_bound(input@.len() as int, source_sample_rate_hz as int, k + 1),
                    ),
                )
        },
{
    let len = input.len();
    let rate = source_sample_rate_hz;
    if rate == SAMPLE_RATE_HZ {
        let mut copy: Vec<i16> = Vec::new();
        let mut i: usize = 0;
        while i < len
            invariant
                i <= len,
                len == input@.len(),
                copy@ == input@.subrange(0, i as int),
            decreases len - i,
        {
            copy.push(input[i]);
            assert(copy@ =~= input@.subrange(0, i + 1));
            i += 1;
        }
        assert(copy@ =~= input@);
        return copy;
    }
    if rate < SAMPLE_RATE_HZ {
        return Vec::new();
    }

    proof {
        lemma_downsampled_len_le(len as int, rate as int);
    }
    let output_len_wide: u128 = (len as u128) * 16000 / (rate as u128);
    let output_len: usize = output_len_wide as usize;
    let ghost glen = len as int;
    let ghost grate = rate as int;

    let mut output: Vec<i16> = Vec::new();
    let mut position: usize = 0;
    let mut i: usize = 0;
    while i < output_len
        invariant
            i <= output_len,
            len == input@.len(),
            glen == len as int,
            grate == rate as int,
            16000 < grate,
            output_len == downsampled_len(glen, grate),
            position == bucket_bound(glen, grate, i as int),
            output@.len() == i as int,
            forall|k: int|
                0 <= k < i ==> #[trigger] output@[k] as int == avg_trunc(
                    input@.subrange(
                        bucket_bound(glen, grate, k),
                        bucket_bound(glen, grate, k + 1),
                    ),
                ),
        decreases output_len - i,
    {
        proof {
            lemma_bucket_bound_step(glen, grate, i as int);
        }
        proof {
            assert(((i + 1) as u128) * (rate as u128) < 0x1_0000_0000_0000_0000u128
                * 0x1_0000_0000u128) by (nonlinear_arith)
                requires
                    ((i + 1) as u128) < 0x1_0000_0000_0000_0000u128,
                    (rate as u128) < 0x1_0000_0000u128,
            ;
        }
        let next_wide: u128 = ((i + 1) as u128) * (rate as u128) / 16000;
        let next: usize = if next_wide > (len as u128) {
            len
        } else {
            next_wide as usize
        };
        proof {
            assert(next as int == bucket_bound(glen, grate, i as int + 1));
        }

        let ghost lo = position as int;
        let ghost hi = next as int;
        let mut sum: i128 = 0;
        let mut count: usize = 0;
        let mut j: usize = position;
        while j < next
            invariant
                0 <= lo,
                lo <= j as int <= hi,
                hi == next as int,
                hi <= len as int,
                len == input@.len(),
                count == j - lo,
                sum == sum_i16(input@.subrange(lo, j as int)),
                -32768 * (count as int) <= sum <= 32767 * (count as int),
            decreases next - j,
        {
            proof {
                assert(input@.subrange(lo, j + 1).drop_last() =~= input@.subrange(lo, j as int));
            }
            sum = sum + (input[j] as i128);
            count = count + 1;
            j += 1;
        }

        let ghost bucket = input@.subrange(lo, hi);
        proof {
            assert(bucket.len() == count as int);
            assert(sum == sum_i16(bucket));
        }
        let value: i16 = if count == 0 {
            proof {
                assert(avg_trunc(bucket) == 0);
            }
            0i16
        } else if sum >= 0 {
            let q: u128 = (sum as u128) / (count as u128);
            proof {
                lemma_multiply_divide_le(sum as int, count as int, 32767);
            }
            q as i16
        } else {
            let m: u128 = (-sum) as u128;
            let q: u128 = m / (count as u128);
            proof {
                assert(-32768 * (count as int) <= sum);
                assert(m as int <= 32768 * (count as int));
                lemma_multiply_divide_le(m as int, count as int, 32768);
            }
            let neg: i64 = -(q as i64);
            neg as i16
        };
        proof {
            assert(value as int == avg_trunc(bucket));
        }
        output.push(value);
        position = next;
        i += 1;
    }
    output
}

} // verus!
