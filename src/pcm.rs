//! Decoded audio, and its conversion to the sample rates and channel
//! layouts that the console encoders accept.
use vstd::prelude::*;

verus! {

/// Largest integer up to which every integer is exact in an `f64`; fon
/// computes output lengths in that type.
pub open spec fn f64_exact_limit() -> int {
    0x20_0000_0000_0000
}

/// Highest sample rate that fon's resampler takes: it sizes its filter in
/// `u32` as about `160 * from + 8 * to` (after reducing the ratio), which
/// overflows beyond this.
pub open spec fn resampler_rate_limit() -> u32 {
    25_000_000
}

/// Interleaved 16-bit samples with their channel count and sample rate.
pub struct PcmBuffer {
    pub samples: Vec<i16>,
    pub channel_count: u16,
    pub sample_rate: u32,
}

impl PcmBuffer {
    /// Mono or stereo, a positive rate, and whole frames only.
    pub open spec fn wf(&self) -> bool {
        &&& (self.channel_count == 1 || self.channel_count == 2)
        &&& self.sample_rate > 0
        &&& (self.samples@.len() as int) % (self.channel_count as int) == 0
    }

    /// Number of frames (samples per channel).
    pub open spec fn frames(&self) -> int {
        (self.samples@.len() as int) / (self.channel_count as int)
    }

    /// Builds a buffer from its parts.
    pub fn new(samples: Vec<i16>, channel_count: u16, sample_rate: u32) -> (r: PcmBuffer)
        ensures
            r.samples@ == samples@,
            r.channel_count == channel_count,
            r.sample_rate == sample_rate,
    {
        PcmBuffer { samples, channel_count, sample_rate }
    }

    /// Number of frames (samples per channel) in the buffer.
    pub fn frame_count(&self) -> (r: usize)
        requires
            self.wf(),
        ensures
            r == self.frames(),
    {
        self.samples.len() / (self.channel_count as usize)
    }
}

/// The rate that audio sampled at `rate` Hz is converted to: the smallest
/// of 8, 12, 16 and 24 kHz that is at least `rate`, else 48 kHz.
pub open spec fn target_rate_spec(rate: u32) -> u32 {
    if rate <= 8000 {
        8000
    } else if rate <= 12000 {
        12000
    } else if rate <= 16000 {
        16000
    } else if rate <= 24000 {
        24000
    } else {
        48000
    }
}

/// The sample rates that the opus-family encoder takes.
pub open spec fn is_allowed_rate(rate: u32) -> bool {
    rate == 8000 || rate == 12000 || rate == 16000 || rate == 24000 || rate == 48000
}

/// Returns the sample rate that audio sampled at `rate` Hz is converted to.
pub fn target_rate_for(rate: u32) -> (r: u32)
    ensures
        r == target_rate_spec(rate),
        is_allowed_rate(r),
        rate <= 24000 ==> rate <= r,
{
    if rate <= 8000 {
        8000
    } else if rate <= 12000 {
        12000
    } else if rate <= 16000 {
        16000
    } else if rate <= 24000 {
        24000
    } else {
        48000
    }
}

/// Channel count after normalisation: mono stays mono, anything else
/// becomes stereo.
pub open spec fn normalized_channels_spec(channels: u16) -> u16 {
    if channels == 1 {
        1
    } else {
        2
    }
}

/// Returns the channel count that audio with `channels` channels keeps.
pub fn normalized_channels(channels: u16) -> (r: u16)
    ensures
        r == normalized_channels_spec(channels),
{
    if channels == 1 {
        1
    } else {
        2
    }
}

/// The first two channels of each frame of interleaved audio with
/// `channels` channels.
pub open spec fn first_two_channels(samples: Seq<i16>, channels: int) -> Seq<i16> {
    Seq::new(
        ((samples.len() as int) / channels * 2) as nat,
        |i: int| samples[(i / 2) * channels + i % 2],
    )
}

/// Keeps the first two channels of each frame of interleaved audio with
/// more than two channels, in their order.
pub fn keep_first_two_channels(samples: &Vec<i16>, channels: u16) -> (r: Vec<i16>)
    requires
        channels > 2,
        (samples@.len() as int) % (channels as int) == 0,
    ensures
        r@ == first_two_channels(samples@, channels as int),
{
    let ch = channels as usize;
    let n = samples.len();
    let frames = n / ch;
    let mut out: Vec<i16> = Vec::new();
    let mut f: usize = 0;
    proof {
        assert((frames as int) * (ch as int) <= n) by (nonlinear_arith)
            requires
                frames == (n as int) / (ch as int),
                ch > 2,
        ;
    }
    while f < frames
        invariant
            ch == channels as usize,
            ch > 2,
            n == samples@.len(),
            frames == (n as int) / (ch as int),
            (frames as int) * (ch as int) <= n,
            f <= frames,
            out@.len() == 2 * f,
            forall|i: int|
                0 <= i < out@.len() ==> #[trigger] out@[i] == samples@[(i / 2) * (ch as int) + i
                    % 2],
        decreases frames - f,
    {
        proof {
            assert((f as int) * (ch as int) + 2 <= (frames as int) * (ch as int)) by (nonlinear_arith)
                requires
                    f < frames,
                    ch > 2,
            ;
        }
        let base = f * ch;
        let ghost prev = out@;
        out.push(samples[base]);
        out.push(samples[base + 1]);
        proof {
            assert forall|i: int| 0 <= i < out@.len() implies #[trigger] out@[i] == samples@[(i
                / 2) * (ch as int) + i % 2] by {
                if i == 2 * f {
                    assert(i / 2 == f as int && i % 2 == 0);
                } else if i == 2 * f + 1 {
                    assert(i / 2 == f as int && i % 2 == 1);
                } else {
                    assert(out@[i] == prev[i]);
                }
            }
        }
        f = f + 1;
    }
    proof {
        assert(out@ =~= first_two_channels(samples@, channels as int));
    }
    out
}

/// The samples that fon produces when it converts mono audio of rate
/// `from_hz` to rate `to_hz`.
pub uninterp spec fn fon_mono_resampled(from_hz: u32, to_hz: u32, samples: Seq<i16>) -> Seq<i16>;

/// The samples that fon produces when it converts interleaved stereo audio
/// of rate `from_hz` to rate `to_hz`.
pub uninterp spec fn fon_stereo_resampled(from_hz: u32, to_hz: u32, samples: Seq<i16>) -> Seq<i16>;

/// Output frame count that keeps the duration within one output frame:
/// `out / to` and `frames / from` differ by at most `1 / to` seconds, so
/// `|out * from - frames * to| <= from`.
pub open spec fn duration_kept(frames: int, from_hz: int, to_hz: int, out: int) -> bool {
    &&& out * from_hz <= frames * to_hz + from_hz
    &&& frames * to_hz <= out * from_hz + from_hz
}

/// Relies on fon's `Audio::<Ch16, 1>::with_i16_buffer`, `Audio::with_audio`
/// and `Audio::as_i16_slice`: the output has `ceil(frames * to / from)`
/// frames, that quotient being taken in `f64` (exact below 2^53). The
/// resampler's `u32` filter sizes overflow above the rate limit.
#[verifier::external_body]
fn fon_resample_mono(from_hz: u32, to_hz: u32, samples: Vec<i16>) -> (r: Vec<i16>)
    requires
        from_hz > 0,
        to_hz > 0,
        from_hz <= resampler_rate_limit(),
        to_hz <= resampler_rate_limit(),
    ensures
        r@ == fon_mono_resampled(from_hz, to_hz, samples@),
        samples@.len() * (to_hz as int) < f64_exact_limit() ==> duration_kept(
            samples@.len() as int,
            from_hz as int,
            to_hz as int,
            r@.len() as int,
        ),
{
    let input = fon::Audio::<fon::chan::Ch16, 1>::with_i16_buffer(from_hz, samples);
    let mut output = fon::Audio::<fon::chan::Ch16, 1>::with_audio(to_hz, &input);
    output.as_i16_slice().to_vec()
}

/// Relies on fon's `Audio::<Ch16, 2>::with_i16_buffer`, `Audio::with_audio`
/// and `Audio::as_i16_slice`: whole stereo frames in and out, and
/// `ceil(frames * to / from)` output frames, that quotient being taken in
/// `f64` (exact below 2^53). `with_i16_buffer` panics on a half frame, and
/// the resampler's `u32` filter sizes overflow above the rate limit.
#[verifier::external_body]
fn fon_resample_stereo(from_hz: u32, to_hz: u32, samples: Vec<i16>) -> (r: Vec<i16>)
    requires
        from_hz > 0,
        to_hz > 0,
        from_hz <= resampler_rate_limit(),
        to_hz <= resampler_rate_limit(),
        samples@.len() % 2 == 0,
    ensures
        r@ == fon_stereo_resampled(from_hz, to_hz, samples@),
        r@.len() % 2 == 0,
        (samples@.len() as int) / 2 * (to_hz as int) < f64_exact_limit() ==> duration_kept(
            (samples@.len() as int) / 2,
            from_hz as int,
            to_hz as int,
            (r@.len() as int) / 2,
        ),
{
    let input = fon::Audio::<fon::chan::Ch16, 2>::with_i16_buffer(from_hz, samples);
    let mut output = fon::Audio::<fon::chan::Ch16, 2>::with_audio(to_hz, &input);
    output.as_i16_slice().to_vec()
}

/// What `resample` returns for a well-formed buffer and a positive target
/// rate: the buffer itself where the rate already matches, else fon's
/// conversion at the same channel count.
pub open spec fn resampled_samples(buffer: PcmBuffer, to_hz: u32) -> Seq<i16> {
    resampled_seq(buffer.samples@, buffer.channel_count, buffer.sample_rate, to_hz)
}

/// Samples of `channels` channels at `from_hz`, converted to `to_hz`: the
/// same samples where the rates match, else fon's conversion.
pub open spec fn resampled_seq(samples: Seq<i16>, channels: u16, from_hz: u32, to_hz: u32) -> Seq<
    i16,
> {
    if from_hz == to_hz {
        samples
    } else if channels == 1 {
        fon_mono_resampled(from_hz, to_hz, samples)
    } else {
        fon_stereo_resampled(from_hz, to_hz, samples)
    }
}

/// The samples that `normalize` gives for decoded audio: the first two
/// channels where there are more, then converted to the encoder's rate.
pub open spec fn normalized_samples(samples: Seq<i16>, channels: u16, rate: u32) -> Seq<i16> {
    let kept = if channels > 2 {
        first_two_channels(samples, channels as int)
    } else {
        samples
    };
    resampled_seq(kept, normalized_channels_spec(channels), rate, target_rate_spec(rate))
}

/// Converts `buffer` to `to_hz`, keeping its channel count and channel order.
pub fn resample(buffer: PcmBuffer, to_hz: u32) -> (r: PcmBuffer)
    requires
        buffer.wf(),
        to_hz > 0,
        buffer.sample_rate <= resampler_rate_limit(),
        to_hz <= resampler_rate_limit(),
    ensures
        r.wf(),
        r.sample_rate == to_hz,
        r.channel_count == buffer.channel_count,
        r.samples@ == resampled_samples(buffer, to_hz),
        buffer.frames() * (to_hz as int) < f64_exact_limit() ==> duration_kept(
            buffer.frames(),
            buffer.sample_rate as int,
            to_hz as int,
            r.frames(),
        ),
{
    let PcmBuffer { samples, channel_count, sample_rate } = buffer;
    if sample_rate == to_hz {
        proof {
            assert(duration_kept(buffer.frames(), to_hz as int, to_hz as int, buffer.frames()))
                by (nonlinear_arith)
                requires
                    to_hz > 0,
            ;
        }
        PcmBuffer { samples, channel_count, sample_rate }
    } else if channel_count == 1 {
        let out = fon_resample_mono(sample_rate, to_hz, samples);
        assert(buffer.frames() == buffer.samples@.len());
        PcmBuffer { samples: out, channel_count: 1, sample_rate: to_hz }
    } else {
        let out = fon_resample_stereo(sample_rate, to_hz, samples);
        assert(buffer.frames() == (buffer.samples@.len() as int) / 2);
        PcmBuffer { samples: out, channel_count: 2, sample_rate: to_hz }
    }
}

/// Decoder output that can be normalised: channels and rate are positive,
/// the rate is within what the resampler takes, and the samples are whole
/// frames.
pub open spec fn decoded_usable(p: PcmBuffer) -> bool {
    p.channel_count > 0 && p.sample_rate > 0 && p.sample_rate <= resampler_rate_limit() && (
    p.samples@.len() as int) % (p.channel_count as int) == 0
}

/// Brings decoded audio to the form the console encoders take: mono stays
/// mono, stereo stays stereo, wider layouts keep their first two channels,
/// and the rate becomes `target_rate_for` of the source rate.
pub fn normalize(decoded: PcmBuffer) -> (r: PcmBuffer)
    requires
        decoded_usable(decoded),
    ensures
        r.wf(),
        r.channel_count == normalized_channels_spec(decoded.channel_count),
        r.sample_rate == target_rate_spec(decoded.sample_rate),
        r.samples@ == normalized_samples(
            decoded.samples@,
            decoded.channel_count,
            decoded.sample_rate,
        ),
        (decoded.channel_count == 1 || decoded.channel_count == 2) && is_allowed_rate(
            decoded.sample_rate,
        ) ==> r.samples@ == decoded.samples@,
        (decoded.samples@.len() as int) * (target_rate_spec(decoded.sample_rate) as int)
            < f64_exact_limit() ==> duration_kept(
            (decoded.samples@.len() as int) / (decoded.channel_count as int),
            decoded.sample_rate as int,
            target_rate_spec(decoded.sample_rate) as int,
            r.frames(),
        ),
{
    let PcmBuffer { samples, channel_count, sample_rate } = decoded;
    let ghost frames = (samples@.len() as int) / (channel_count as int);
    let (kept, ch) = if channel_count > 2 {
        let two = keep_first_two_channels(&samples, channel_count);
        assert(two@.len() == frames * 2);
        (two, 2u16)
    } else {
        proof {
            assert((samples@.len() as int) == frames * (channel_count as int)) by (nonlinear_arith)
                requires
                    (samples@.len() as int) % (channel_count as int) == 0,
                    frames == (samples@.len() as int) / (channel_count as int),
                    channel_count > 0,
            ;
        }
        (samples, channel_count)
    };
    proof {
        assert((kept@.len() as int) % (ch as int) == 0 && (kept@.len() as int) / (ch as int)
            == frames) by (nonlinear_arith)
            requires
                (ch == 1 || ch == 2),
                kept@.len() as int == frames * (ch as int),
                frames >= 0,
        ;
        assert(frames <= decoded.samples@.len()) by (nonlinear_arith)
            requires
                frames == (decoded.samples@.len() as int) / (channel_count as int),
                channel_count > 0,
        ;
    }
    let target = target_rate_for(sample_rate);
    let converted = resample(PcmBuffer { samples: kept, channel_count: ch, sample_rate }, target);
    proof {
        if (decoded.samples@.len() as int) * (target as int) < f64_exact_limit() {
            assert(frames * (target as int) <= (decoded.samples@.len() as int) * (target as int))
                by (nonlinear_arith)
                requires
                    frames <= decoded.samples@.len(),
                    frames >= 0,
            ;
        }
    }
    converted
}

} // verus!
