//! 16-bit PCM WAV files: the form in which audio is handed to and taken
//! back from the external tools.
use vstd::prelude::*;
use crate::pcm::PcmBuffer;

verus! {

/// Little-endian `u32` stored at `at`.
pub open spec fn le_u32_at(b: Seq<u8>, at: int) -> int {
    b[at] as int + 256 * (b[at + 1] as int) + 65536 * (b[at + 2] as int) + 16777216 * (b[at
        + 3] as int)
}

/// Whether the four bytes at `at` are ASCII, so that they read as a chunk id
/// (riff turns ids into text and panics on bytes that are not UTF-8).
pub open spec fn is_ascii_id(b: Seq<u8>, at: int) -> bool {
    b[at] < 0x80 && b[at + 1] < 0x80 && b[at + 2] < 0x80 && b[at + 3] < 0x80
}

/// Whether every chunk header that starts at or after `cur` and before `end`
/// (walking chunk by chunk, each padded to an even length) lies in `b` with
/// an ASCII id.
pub open spec fn chunk_headers_in_bounds(b: Seq<u8>, cur: int, end: int) -> bool
    decreases (if cur < end {
        end - cur
    } else {
        0
    }),
{
    if cur >= end {
        true
    } else if cur + 8 > b.len() || !is_ascii_id(b, cur) {
        false
    } else {
        let len = le_u32_at(b, cur + 4);
        chunk_headers_in_bounds(b, cur + 8 + len + len % 2, end)
    }
}

/// Bytes that a RIFF reader can walk without running off their end or
/// meeting an id that is not text: too short to hold a form type, or with
/// an ASCII form type and every child chunk header of the outer chunk
/// present with an ASCII id.
pub open spec fn riff_readable(b: Seq<u8>) -> bool {
    b.len() < 12 || (is_ascii_id(b, 8) && chunk_headers_in_bounds(b, 12, 4 + le_u32_at(b, 4)))
}

/// Checks that the four bytes at `at` are ASCII.
fn ascii_id_at(b: &[u8], at: usize) -> (r: bool)
    requires
        at + 4 <= b@.len(),
    ensures
        r == is_ascii_id(b@, at as int),
{
    b[at] < 0x80 && b[at + 1] < 0x80 && b[at + 2] < 0x80 && b[at + 3] < 0x80
}

/// Reads the little-endian `u32` at `at`.
fn read_le_u32(b: &[u8], at: usize) -> (r: u32)
    requires
        at + 4 <= b@.len(),
    ensures
        r as int == le_u32_at(b@, at as int),
{
    b[at] as u32 + 256 * (b[at + 1] as u32) + 65536 * (b[at + 2] as u32) + 16777216 * (b[at
        + 3] as u32)
}

/// Checks that the form type and every chunk header of a RIFF file lie
/// within the bytes and have ASCII ids.
pub fn is_riff_readable(b: &[u8]) -> (r: bool)
    ensures
        r == riff_readable(b@),
{
    let n = b.len();
    if n < 12 {
        return true;
    }
    if !ascii_id_at(b, 8) {
        return false;
    }
    let end: u64 = 4 + read_le_u32(b, 4) as u64;
    let mut cur: u64 = 12;
    while cur < end
        invariant
            n == b@.len(),
            n >= 12,
            end as int == 4 + le_u32_at(b@, 4),
            cur <= 0x4_0000_0000,
            chunk_headers_in_bounds(b@, 12, end as int) == chunk_headers_in_bounds(
                b@,
                cur as int,
                end as int,
            ),
        decreases (if cur < end {
            end - cur
        } else {
            0
        }),
    {
        if cur + 8 > n as u64 || !ascii_id_at(b, cur as usize) {
            return false;
        }
        let len = read_le_u32(b, (cur + 4) as usize) as u64;
        cur = cur + 8 + len + len % 2;
    }
    true
}

/// The bytes that the wav crate writes for 16-bit PCM audio.
pub uninterp spec fn wav_image(channels: u16, rate: u32, samples: Seq<i16>) -> Seq<u8>;

/// What the wav crate reads from `bytes`: format code, channel count,
/// sample rate, bits per sample, and the samples where they are 16-bit.
pub uninterp spec fn wav_read(bytes: Seq<u8>) -> Option<(u16, u16, u32, u16, Option<Seq<i16>>)>;

/// `wav::Header::new` computes the frame size `2 * channels` of a 16-bit
/// file in a `u16` and the byte rate `2 * channels * rate` in a `u32`.
pub open spec fn wav_header_fits(channels: u16, rate: u32) -> bool {
    &&& 2 * (channels as int) <= u16::MAX
    &&& 2 * (channels as int) * (rate as int) <= u32::MAX
}

/// Whether a RIFF file of `count` 16-bit samples stays within the 32-bit
/// sizes of its chunks: the form type, a 24-byte `fmt ` chunk and the
/// `data` chunk header come to 36 bytes.
pub open spec fn wav_size_fits(count: int) -> bool {
    2 * count + 36 <= u32::MAX
}

/// Relies on wav's `Header::new` and `write`: into a cursor over a `Vec`,
/// `write` emits a RIFF/WAVE file with a `fmt ` chunk (PCM, `channels`,
/// `rate`, 16 bits) and a `data` chunk of the little-endian samples, which
/// `wav::read` parses back to the same values. A cursor over a `Vec` never
/// fails, so riff's "Data too big" is the only error. `Header::new`
/// overflows unless the frame size fits in a `u16` and the byte rate in a
/// `u32`.
#[verifier::external_body]
#[allow(deprecated)]
fn wav_write(channels: u16, rate: u32, samples: Vec<i16>) -> (r: Result<Vec<u8>, String>)
    requires
        wav_header_fits(channels, rate),
    ensures
        wav_size_fits(samples@.len() as int) ==> r is Ok,
        r matches Ok(b) ==> b@ == wav_image(channels, rate, samples@),
        r matches Ok(b) ==> riff_readable(b@),
        r matches Ok(b) ==> wav_read(b@) == Some((1u16, channels, rate, 16u16, Some(samples@))),
{
    let header = wav::Header::new(wav::WAV_FORMAT_PCM, channels, rate, 16);
    let mut out: Vec<u8> = Vec::new();
    match wav::write(header, &wav::BitDepth::Sixteen(samples), &mut std::io::Cursor::new(&mut out)) {
        Ok(()) => Ok(out),
        Err(error) => Err(error.to_string()),
    }
}

/// Header fields and 16-bit samples read from a WAV file.
pub struct WavContents {
    pub format: u16,
    pub channels: u16,
    pub rate: u32,
    pub bits: u16,
    pub samples: Option<Vec<i16>>,
}

impl WavContents {
    pub open spec fn view_tuple(&self) -> (u16, u16, u32, u16, Option<Seq<i16>>) {
        (
            self.format,
            self.channels,
            self.rate,
            self.bits,
            match self.samples {
                Some(v) => Some(v@),
                None => None,
            },
        )
    }
}

/// Relies on wav's `read` and `BitDepth::try_into_sixteen`: the result is a
/// function of the bytes. riff's chunk iterator unwraps each chunk header
/// read, so `read` panics on a file whose chunks run past its end.
#[verifier::external_body]
#[allow(deprecated)]
fn wav_read_bytes(bytes: &[u8]) -> (r: Result<WavContents, String>)
    requires
        riff_readable(bytes@),
    ensures
        r is Ok <==> wav_read(bytes@) is Some,
        r matches Ok(c) ==> wav_read(bytes@) == Some(c.view_tuple()),
{
    match wav::read(&mut std::io::Cursor::new(bytes)) {
        Ok((header, depth)) => Ok(WavContents {
            format: header.audio_format,
            channels: header.channel_count,
            rate: header.sampling_rate,
            bits: header.bits_per_sample,
            samples: depth.try_into_sixteen().ok(),
        }),
        Err(error) => Err(error.to_string()),
    }
}

/// Why a WAV file could not be written or read.
pub enum WavError {
    /// The byte rate of the header does not fit in its 32-bit field.
    RateTooHigh,
    /// The frame size of the header does not fit in its 16-bit field.
    TooManyChannels,
    /// Writing failed.
    Write(String),
    /// The bytes are not a WAV file that can be read.
    Unreadable(String),
    /// The samples are not 16-bit PCM; holds the bits per sample found.
    WrongBitDepth(u16),
    /// Neither mono nor stereo.
    UnsupportedChannels(u16),
    /// The header gives a sample rate of zero.
    ZeroRate,
    /// The sample count is not a whole number of frames.
    PartialFrame,
}

/// The audio in a WAV file, where it is 16-bit mono or stereo at a
/// positive rate in whole frames.
pub open spec fn wav_decoded(b: Seq<u8>) -> Option<(Seq<i16>, u16, u32)> {
    if !riff_readable(b) {
        None
    } else {
        match wav_read(b) {
            Some((_, ch, rate, _, Some(s))) => {
                if (ch == 1 || ch == 2) && rate > 0 && (s.len() as int) % (ch as int) == 0 {
                    Some((s, ch, rate))
                } else {
                    None
                }
            },
            _ => None,
        }
    }
}

/// Reads 16-bit mono or stereo audio from a WAV file.
pub fn decode_wav(bytes: &[u8]) -> (r: Result<PcmBuffer, WavError>)
    ensures
        r is Ok <==> wav_decoded(bytes@) is Some,
        r matches Ok(p) ==> p.wf() && wav_decoded(bytes@) == Some(
            (p.samples@, p.channel_count, p.sample_rate),
        ),
        r matches Err(WavError::Unreadable(_)) <==> (!riff_readable(bytes@) || wav_read(bytes@) is None),
        r matches Err(WavError::WrongBitDepth(_)) <==> (riff_readable(bytes@) && wav_read(
            bytes@,
        ) matches Some((_, _, _, _, None))),
{
    if !is_riff_readable(bytes) {
        return Err(WavError::Unreadable(String::from_str("a chunk runs past the end of the file")));
    }
    match wav_read_bytes(bytes) {
        Err(message) => Err(WavError::Unreadable(message)),
        Ok(contents) => {
            let WavContents { format, channels, rate, bits, samples } = contents;
            match samples {
                None => Err(WavError::WrongBitDepth(bits)),
                Some(samples) => {
                    if channels != 1 && channels != 2 {
                        Err(WavError::UnsupportedChannels(channels))
                    } else if rate == 0 {
                        Err(WavError::ZeroRate)
                    } else if samples.len() % (channels as usize) != 0 {
                        Err(WavError::PartialFrame)
                    } else {
                        Ok(PcmBuffer { samples, channel_count: channels, sample_rate: rate })
                    }
                },
            }
        },
    }
}

/// Number of raw samples written for `len` samples of `channels` channels
/// when at most `limit` frames are asked for.
pub open spec fn limited_len(len: int, channels: int, limit: Option<usize>) -> int {
    match limit {
        None => len,
        Some(frames) => if len < frames * channels {
            len
        } else {
            frames * channels
        },
    }
}

/// Copies the first `n` samples.
fn prefix_of(samples: &Vec<i16>, n: usize) -> (r: Vec<i16>)
    requires
        n <= samples@.len(),
    ensures
        r@ == samples@.subrange(0, n as int),
{
    let mut out: Vec<i16> = Vec::new();
    let mut i: usize = 0;
    while i < n
        invariant
            n <= samples@.len(),
            i <= n,
            out@ == samples@.subrange(0, i as int),
        decreases n - i,
    {
        out.push(samples[i]);
        i = i + 1;
        proof {
            assert(out@ =~= samples@.subrange(0, i as int));
        }
    }
    out
}

/// Writes `buffer` as a 16-bit PCM WAV file, keeping at most
/// `sample_limit` frames when one is given.
pub fn encode_wav(buffer: &PcmBuffer, sample_limit: Option<usize>) -> (r: Result<Vec<u8>, WavError>)
    ensures
        2 * (buffer.channel_count as int) > u16::MAX ==> r matches Err(WavError::TooManyChannels),
        2 * (buffer.channel_count as int) <= u16::MAX && !wav_header_fits(
            buffer.channel_count,
            buffer.sample_rate,
        ) ==> r matches Err(WavError::RateTooHigh),
        wav_header_fits(buffer.channel_count, buffer.sample_rate) && wav_size_fits(
            limited_len(buffer.samples@.len() as int, buffer.channel_count as int, sample_limit),
        ) ==> r is Ok,
        r matches Ok(b) ==> b@ == wav_image(
            buffer.channel_count,
            buffer.sample_rate,
            buffer.samples@.subrange(
                0,
                limited_len(
                    buffer.samples@.len() as int,
                    buffer.channel_count as int,
                    sample_limit,
                ),
            ),
        ),
        buffer.wf() ==> (r matches Ok(b) ==> wav_decoded(b@) == Some(
            (
                buffer.samples@.subrange(
                    0,
                    limited_len(
                        buffer.samples@.len() as int,
                        buffer.channel_count as int,
                        sample_limit,
                    ),
                ),
                buffer.channel_count,
                buffer.sample_rate,
            ),
        )),
{
    if buffer.channel_count > 32767 {
        return Err(WavError::TooManyChannels);
    }
    let frame_bytes: u64 = 2 * buffer.channel_count as u64;
    proof {
        assert(frame_bytes * (buffer.sample_rate as u64) <= 0x2_0000_0000_0000) by (nonlinear_arith)
            requires
                frame_bytes <= 0x2_0000,
                buffer.sample_rate <= 0xffff_ffff,
        ;
    }
    if frame_bytes * (buffer.sample_rate as u64) > 0xffff_ffff {
        return Err(WavError::RateTooHigh);
    }
    let len = buffer.samples.len();
    let ch = buffer.channel_count as usize;
    let n: usize = match sample_limit {
        None => len,
        Some(frames) => {
            if ch == 0 {
                0
            } else if frames <= len / ch {
                proof {
                    assert((frames as int) * (ch as int) <= len) by (nonlinear_arith)
                        requires
                            frames <= (len as int) / (ch as int),
                            ch > 0,
                    ;
                }
                frames * ch
            } else {
                proof {
                    assert((frames as int) * (ch as int) > len) by (nonlinear_arith)
                        requires
                            frames > (len as int) / (ch as int),
                            ch > 0,
                    ;
                }
                len
            }
        },
    };
    let kept = prefix_of(&buffer.samples, n);
    proof {
        if buffer.wf() {
            match sample_limit {
                None => {},
                Some(frames) => {
                    if n < len {
                        assert((n as int) % (ch as int) == 0) by (nonlinear_arith)
                            requires
                                n == frames * ch,
                                ch > 0,
                        ;
                    }
                },
            }
            assert(kept@.len() == n);
        }
    }
    match wav_write(buffer.channel_count, buffer.sample_rate, kept) {
        Ok(bytes) => Ok(bytes),
        Err(message) => Err(WavError::Write(message)),
    }
}

} // verus!
