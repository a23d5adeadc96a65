//! Encoded audio files of general-purpose formats, and their conversion to
//! WAV.
use vstd::prelude::*;
use vstd::string::*;
use crate::pcm::PcmBuffer;
use crate::text::{joined, same_text, usize_text};
use crate::wavfile::{encode_wav, limited_len, wav_header_fits, wav_image, wav_size_fits, WavError};

verus! {

/// Kinds of encoded file.
#[derive(Clone, Copy, PartialEq, Eq, Structural, Debug)]
pub enum EncodingType {
    /// Ogg Vorbis audio.
    Ogg,
    /// FLAC audio.
    FLAC,
    /// WAV audio.
    WAV,
    /// MP3 audio.
    MP3,
    /// Data that is not to be read as audio.
    Bin,
}

/// The text of `s` in lower case, as `str::to_lowercase` gives it.
pub uninterp spec fn lower_of(s: Seq<char>) -> Seq<char>;

/// Relies on `str::to_lowercase`: the result depends on the characters alone.
#[verifier::external_body]
fn lowercase(s: &str) -> (r: String)
    ensures
        r@ == lower_of(s@),
{
    s.to_lowercase()
}

/// The encoding named by a lower-case file extension.
pub open spec fn encoding_of_extension(ext: Seq<char>) -> EncodingType {
    if ext == "ogg"@ {
        EncodingType::Ogg
    } else if ext == "flac"@ {
        EncodingType::FLAC
    } else if ext == "wav"@ {
        EncodingType::WAV
    } else if ext == "mp3"@ {
        EncodingType::MP3
    } else {
        EncodingType::Bin
    }
}

impl EncodingType {
    /// Whether files of this kind are meant to be decoded as audio; decoding
    /// may still fail.
    pub fn can_be_decoded(&self) -> (r: bool)
        ensures
            r == !(*self is Bin),
    {
        match self {
            EncodingType::Bin => false,
            _ => true,
        }
    }

    /// The encoding named by a file extension, in any case.
    pub fn from_extension(extension: &str) -> (r: EncodingType)
        ensures
            r == encoding_of_extension(lower_of(extension@)),
    {
        let lowered = lowercase(extension);
        EncodingType::from_lowercase_extension(lowered.as_str())
    }

    /// The encoding named by a lower-case file extension.
    pub fn from_lowercase_extension(extension: &str) -> (r: EncodingType)
        ensures
            r == encoding_of_extension(extension@),
    {
        if same_text(extension, "ogg") {
            EncodingType::Ogg
        } else if same_text(extension, "flac") {
            EncodingType::FLAC
        } else if same_text(extension, "wav") {
            EncodingType::WAV
        } else if same_text(extension, "mp3") {
            EncodingType::MP3
        } else {
            EncodingType::Bin
        }
    }
}

/// Copies bytes.
pub fn copy_bytes(v: &Vec<u8>) -> (r: Vec<u8>)
    ensures
        r@ == v@,
{
    let r = v.clone();
    assert(r@ =~= v@);
    r
}

/// Why audio could not be decoded.
pub enum DecodeError {
    /// The file's encoding is not an audio encoding.
    DecodeBin,
    /// The decoder rejected the bytes; holds its message.
    Decoder(String),
    /// The decoded audio could not be written as WAV.
    Wav(WavError),
}

/// Why a file could not be encoded.
pub enum EncodeError {
    /// Encoding to `Bin`, which is no real encoding, from another encoding.
    EncodeBin,
    /// The file could not be decoded.
    DecodeError(DecodeError),
    /// No encoder for this format is at hand.
    NotSupported(EncodingType),
}

impl WavError {
    /// A message that describes the error.
    pub fn message(&self) -> String {
        match self {
            WavError::RateTooHigh => String::from_str("The sample rate is too high for a WAV header"),
            WavError::TooManyChannels => String::from_str("Too many channels for a WAV header"),
            WavError::Write(m) => joined("Could not write the WAV file: ", m.as_str()),
            WavError::Unreadable(m) => joined("Could not read the WAV file: ", m.as_str()),
            WavError::WrongBitDepth(bits) => {
                let b = usize_text(*bits as usize);
                joined("Wrong bit depth found: ", b.as_str())
            },
            WavError::UnsupportedChannels(c) => {
                let t = usize_text(*c as usize);
                joined("Unsupported channel count: ", t.as_str())
            },
            WavError::ZeroRate => String::from_str("The WAV file has a sample rate of zero"),
            WavError::PartialFrame => String::from_str("The WAV file ends in the middle of a frame"),
        }
    }
}

impl DecodeError {
    /// A message that describes the error.
    pub fn message(&self) -> String {
        match self {
            DecodeError::DecodeBin => String::from_str(
                "Can't decode a bin, which is not a real encoding",
            ),
            DecodeError::Decoder(m) => String::from_str(m.as_str()),
            DecodeError::Wav(e) => e.message(),
        }
    }
}

impl EncodeError {
    /// A message that describes the error.
    pub fn message(&self) -> String {
        match self {
            EncodeError::EncodeBin => String::from_str(
                "Can't encode to bin, which is not a real encoding",
            ),
            EncodeError::DecodeError(e) => {
                let m = e.message();
                joined("Error decoding: ", m.as_str())
            },
            EncodeError::NotSupported(_) => String::from_str(
                "Encoding to this format is not supported",
            ),
        }
    }
}

/// An encoded file: its bytes and their encoding.
pub struct EncodedFile {
    pub bytes: Vec<u8>,
    pub encoding: EncodingType,
}

impl EncodedFile {
    /// Creates an encoded file from bytes of the given encoding.
    pub fn from_bytes_with_encoding(bytes: Vec<u8>, encoding: EncodingType) -> (r: EncodedFile)
        ensures
            r.bytes@ == bytes@,
            r.encoding == encoding,
    {
        EncodedFile { bytes, encoding }
    }

    /// Whether this file is meant to be decoded as audio; decoding may still
    /// fail.
    pub fn can_be_decoded(&self) -> (r: bool)
        ensures
            r == !(self.encoding is Bin),
    {
        self.encoding.can_be_decoded()
    }

    /// This file as WAV, from the outcome of decoding its bytes, keeping at
    /// most `end` frames when it is given.
    pub fn to_wav(&self, decoded: Result<PcmBuffer, DecodeError>, end: Option<usize>) -> (r: Result<
        Vec<u8>,
        DecodeError,
    >)
        ensures
            self.encoding is Bin ==> r matches Err(DecodeError::DecodeBin),
            !(self.encoding is Bin) && decoded is Err ==> (r is Err && r->Err_0 == decoded->Err_0),
            !(self.encoding is Bin) && decoded is Ok && r is Err ==> r matches Err(
                DecodeError::Wav(_),
            ),
            !(self.encoding is Bin) && decoded is Ok && wav_header_fits(
                decoded->Ok_0.channel_count,
                decoded->Ok_0.sample_rate,
            ) && wav_size_fits(
                limited_len(
                    decoded->Ok_0.samples@.len() as int,
                    decoded->Ok_0.channel_count as int,
                    end,
                ),
            ) ==> r is Ok,
            r is Ok ==> (decoded is Ok && r->Ok_0@ == wav_image(
                decoded->Ok_0.channel_count,
                decoded->Ok_0.sample_rate,
                decoded->Ok_0.samples@.subrange(
                    0,
                    limited_len(
                        decoded->Ok_0.samples@.len() as int,
                        decoded->Ok_0.channel_count as int,
                        end,
                    ),
                ),
            )),
    {
        match self.encoding {
            EncodingType::Bin => Err(DecodeError::DecodeBin),
            _ => match decoded {
                Err(error) => Err(error),
                Ok(pcm) => match encode_wav(&pcm, end) {
                    Ok(bytes) => Ok(bytes),
                    Err(error) => Err(DecodeError::Wav(error)),
                },
            },
        }
    }

    /// This file in `encoding`: `Bin` gives the bytes as they are, for a
    /// `Bin` file only; `WAV` is written from the outcome of decoding the
    /// bytes; no encoder is at hand for the other formats.
    pub fn encode(&self, encoding: EncodingType, decoded: Result<PcmBuffer, DecodeError>) -> (r:
        Result<Vec<u8>, EncodeError>)
        ensures
            !(encoding is Bin || encoding is WAV) ==> r == Err::<Vec<u8>, EncodeError>(
                EncodeError::NotSupported(encoding),
            ),
            encoding is Bin ==> (self.encoding is Bin <==> r is Ok),
            encoding is Bin && self.encoding is Bin ==> (r is Ok && r->Ok_0@ == self.bytes@),
            encoding is Bin && !(self.encoding is Bin) ==> r matches Err(EncodeError::EncodeBin),
            encoding is WAV && self.encoding is Bin ==> r matches Err(
                EncodeError::DecodeError(DecodeError::DecodeBin),
            ),
            encoding is WAV && !(self.encoding is Bin) && decoded is Err ==> (r is Err && r->Err_0
                == EncodeError::DecodeError(decoded->Err_0)),
            encoding is WAV && !(self.encoding is Bin) && decoded is Ok && wav_header_fits(
                decoded->Ok_0.channel_count,
                decoded->Ok_0.sample_rate,
            ) && wav_size_fits(decoded->Ok_0.samples@.len() as int) ==> r is Ok,
            encoding is WAV && r is Ok ==> (decoded is Ok && r->Ok_0@ == wav_image(
                decoded->Ok_0.channel_count,
                decoded->Ok_0.sample_rate,
                decoded->Ok_0.samples@,
            )),
    {
        match encoding {
            EncodingType::Bin => {
                if self.encoding == EncodingType::Bin {
                    Ok(copy_bytes(&self.bytes))
                } else {
                    Err(EncodeError::EncodeBin)
                }
            },
            EncodingType::Ogg | EncodingType::FLAC | EncodingType::MP3 => Err(
                EncodeError::NotSupported(encoding),
            ),
            EncodingType::WAV => match self.to_wav(decoded, None) {
                Ok(bytes) => {
                    proof {
                        let p = decoded->Ok_0;
                        assert(p.samples@.subrange(0, p.samples@.len() as int) =~= p.samples@);
                    }
                    Ok(bytes)
                },
                Err(error) => Err(EncodeError::DecodeError(error)),
            },
        }
    }
}

} // verus!
