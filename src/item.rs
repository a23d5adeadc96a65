//! One sound of a container: its name, its format in the container, its
//! decoded audio, the encoded bytes kept for it, and its loop points.
use vstd::prelude::*;
use vstd::string::*;
use crate::codec::copy_bytes;
use crate::pcm::{
    decoded_usable, f64_exact_limit, duration_kept, normalize, normalized_channels_spec,
    normalized_samples, target_rate_spec, PcmBuffer,
};
use crate::text::{joined, same_text};
use crate::wavfile::{
    decode_wav, encode_wav, limited_len, wav_decoded, wav_header_fits, wav_image, wav_size_fits,
};

verus! {

/// Formats that a sound can have in a container.
#[derive(Clone, Copy, PartialEq, Eq, Structural, Debug)]
pub enum AudioExtension {
    Idsp,
    Lopus,
    Bin,
}

impl AudioExtension {
    /// The file extension of the format.
    pub open spec fn text(self) -> Seq<char> {
        match self {
            AudioExtension::Idsp => "idsp"@,
            AudioExtension::Lopus => "lopus"@,
            AudioExtension::Bin => "bin"@,
        }
    }

    /// Returns the file extension of the format.
    pub fn to_text(&self) -> (r: String)
        ensures
            r@ == self.text(),
    {
        match self {
            AudioExtension::Idsp => String::from_str("idsp"),
            AudioExtension::Lopus => String::from_str("lopus"),
            AudioExtension::Bin => String::from_str("bin"),
        }
    }
}

/// Whether the bytes start with the IDSP magic `"IDSP"`.
pub open spec fn starts_with_idsp_magic(b: Seq<u8>) -> bool {
    b.len() >= 4 && b[0] == 0x49u8 && b[1] == 0x44u8 && b[2] == 0x53u8 && b[3] == 0x50u8
}

/// The format of encoded container bytes: IDSP where they start with its
/// magic, else LOPUS, whose files the encoder writes without a header.
pub open spec fn extension_of_encoded_spec(b: Seq<u8>) -> AudioExtension {
    if starts_with_idsp_magic(b) {
        AudioExtension::Idsp
    } else {
        AudioExtension::Lopus
    }
}

/// Guesses the format of encoded container bytes from their first four
/// bytes; fewer than four bytes are no valid file.
pub fn extension_of_encoded(encoded: &[u8]) -> (r: Result<AudioExtension, String>)
    ensures
        r is Err <==> encoded@.len() < 4,
        r is Ok ==> r->Ok_0 == extension_of_encoded_spec(encoded@),
{
    if encoded.len() < 4 {
        Err(String::from_str("Not a valid file"))
    } else if encoded[0] == 0x49u8 && encoded[1] == 0x44u8 && encoded[2] == 0x53u8 && encoded[3]
        == 0x50u8 {
        Ok(AudioExtension::Idsp)
    } else {
        Ok(AudioExtension::Lopus)
    }
}

/// How a replacement file is loaded into a sound.
#[derive(Clone, Copy, PartialEq, Eq, Structural, Debug)]
pub enum ReplaceSource {
    /// Console-encoded bytes, decoded by the external tools.
    Encoded,
    /// General-purpose audio, decoded by the audio decoder.
    Audio,
}

/// Replacement files with the extension of a console format are loaded as
/// encoded bytes; all others as general-purpose audio.
pub open spec fn replace_source_spec(extension: Seq<char>) -> ReplaceSource {
    if extension == "idsp"@ || extension == "lopus"@ {
        ReplaceSource::Encoded
    } else {
        ReplaceSource::Audio
    }
}

/// How a replacement file with the given extension (empty where it has
/// none) is loaded.
pub fn replace_source_of(extension: &str) -> (r: ReplaceSource)
    ensures
        r == replace_source_spec(extension@),
{
    if same_text(extension, "idsp") || same_text(extension, "lopus") {
        ReplaceSource::Encoded
    } else {
        ReplaceSource::Audio
    }
}

/// Loop points taken from outside metadata: kept only where the end lies
/// after the start.
pub open spec fn valid_loop_spec(points: Option<(usize, usize)>) -> Option<(usize, usize)> {
    match points {
        Some((start, end)) => if start < end {
            Some((start, end))
        } else {
            None
        },
        None => None,
    }
}

/// Keeps loop points only where the end lies after the start.
pub fn valid_loop(points: Option<(usize, usize)>) -> (r: Option<(usize, usize)>)
    ensures
        r == valid_loop_spec(points),
{
    match points {
        Some((start, end)) => if start < end {
            Some((start, end))
        } else {
            None
        },
        None => None,
    }
}

/// Copies samples.
fn copy_samples(v: &Vec<i16>) -> (r: Vec<i16>)
    ensures
        r@ == v@,
{
    let r = v.clone();
    assert(r@ =~= v@);
    r
}

/// The state of a sound as plain values.
pub struct ItemView {
    pub name: Seq<char>,
    pub extension: AudioExtension,
    pub audio: Option<Seq<i16>>,
    pub bytes: Option<Seq<u8>>,
    pub loop_points: Option<(usize, usize)>,
    pub length_in_samples: usize,
    pub sample_rate: u32,
    pub channels: u16,
}

/// A sound of a container.
pub struct ListItem {
    /// The name of the sound.
    pub name: String,
    /// Its format in the container.
    extension: AudioExtension,
    /// Decoded audio, interleaved.
    audio_raw: Option<Vec<i16>>,
    /// Encoded bytes in `extension`'s format, kept so that they need not be
    /// encoded again; for `Bin`, the data itself.
    bytes_raw: Option<Vec<u8>>,
    /// Loop start and end, in frames.
    loop_points_samples: Option<(usize, usize)>,
    /// Length of the audio, in frames.
    length_in_samples: usize,
    /// Sample rate of the audio.
    sample_rate: u32,
    /// Channel count of the audio.
    channels: u16,
}

impl View for ListItem {
    type V = ItemView;

    closed spec fn view(&self) -> ItemView {
        ItemView {
            name: self.name@,
            extension: self.extension,
            audio: match self.audio_raw {
                Some(a) => Some(a@),
                None => None,
            },
            bytes: match self.bytes_raw {
                Some(b) => Some(b@),
                None => None,
            },
            loop_points: self.loop_points_samples,
            length_in_samples: self.length_in_samples,
            sample_rate: self.sample_rate,
            channels: self.channels,
        }
    }
}

impl ItemView {
    /// Loop points run forward; decoded audio is mono or stereo in whole
    /// frames at a positive rate, with its length recorded; binary data has
    /// no audio and no loop; a sound with neither audio nor binary format
    /// holds nothing.
    pub open spec fn wf(self) -> bool {
        &&& (self.loop_points matches Some((s, e)) ==> s < e)
        &&& (self.audio matches Some(a) ==> {
            &&& (self.channels == 1 || self.channels == 2)
            &&& self.sample_rate > 0
            &&& (a.len() as int) % (self.channels as int) == 0
            &&& self.length_in_samples as int == (a.len() as int) / (self.channels as int)
        })
        &&& (self.extension is Bin ==> self.audio is None && self.loop_points is None)
        &&& (!(self.extension is Bin) && self.audio is None ==> self.bytes is None
            && self.loop_points is None)
    }

    /// The state after binary data `raw` replaced the sound's content.
    pub open spec fn as_binary(self, raw: Seq<u8>) -> ItemView {
        ItemView {
            extension: AudioExtension::Bin,
            audio: None,
            bytes: Some(raw),
            loop_points: None,
            ..self
        }
    }

    /// What an export to `target` finds kept: the bytes where they are in
    /// that format (or are binary data), an error where there is no audio to
    /// encode, else nothing.
    pub open spec fn cached_for(self, target: AudioExtension) -> Result<Option<Seq<u8>>, ()> {
        if self.bytes is Some && (self.extension is Bin || target == self.extension) {
            Ok(self.bytes)
        } else if self.audio is None {
            Err(())
        } else {
            Ok(None)
        }
    }

    /// The state after bytes encoded to `target` were handed back: kept
    /// where they are in the sound's own format.
    pub open spec fn with_encoded(self, target: AudioExtension, bytes: Seq<u8>) -> ItemView {
        if target == self.extension && self.audio is Some {
            ItemView { bytes: Some(bytes), ..self }
        } else {
            self
        }
    }

    /// The state after loop points read from a file's metadata were set: they
    /// apply to audio only and only where they run forward; kept bytes go
    /// where the loop changes.
    pub open spec fn with_loop_from_metadata(self, points: Option<(usize, usize)>) -> ItemView {
        let new_loop = if self.audio is Some {
            valid_loop_spec(points)
        } else {
            None
        };
        if new_loop == self.loop_points {
            self
        } else {
            ItemView {
                loop_points: new_loop,
                bytes: if self.audio is Some {
                    None
                } else {
                    self.bytes
                },
                ..self
            }
        }
    }

    /// The state after the properties were set to `name`, `extension` and
    /// `loop_points`. Kept bytes were made from the audio under the old
    /// properties, so they go wherever there is audio or the format changes.
    pub open spec fn with_properties(
        self,
        name: Seq<char>,
        extension: AudioExtension,
        loop_points: Option<(usize, usize)>,
    ) -> ItemView {
        ItemView {
            name,
            extension,
            loop_points,
            bytes: if self.audio is Some || extension != self.extension {
                None
            } else {
                self.bytes
            },
            ..self
        }
    }

    /// The label of the sound: its name, its format's extension, and a
    /// note on what it holds.
    pub open spec fn label_text(self) -> Seq<char> {
        self.name + "."@ + self.extension.text() + match (self.audio is Some, self.bytes is Some) {
            (true, true) => ""@,
            (true, false) => " (Not yet encoded)"@,
            (false, true) => " (Could not decode)"@,
            (false, false) => " (Empty)"@,
        }
    }

    /// Whether new properties can be applied: loop points must run forward
    /// over audio, and binary data has no audio.
    pub open spec fn properties_allowed(
        self,
        extension: AudioExtension,
        loop_points: Option<(usize, usize)>,
    ) -> bool {
        &&& (loop_points matches Some((s, e)) ==> s < e && self.audio is Some)
        &&& (extension is Bin ==> self.audio is None)
    }
}

/// Export caching: once bytes encoded to a sound's own format are handed
/// back, the next export to that format finds exactly those bytes, so the
/// encoder does not run again until the sound changes.
pub proof fn lemma_export_cache(item: ItemView, bytes: Seq<u8>)
    requires
        item.wf(),
        item.audio is Some,
    ensures
        item.with_encoded(item.extension, bytes).wf(),
        item.with_encoded(item.extension, bytes).cached_for(item.extension) == Ok::<
            Option<Seq<u8>>,
            (),
        >(Some(bytes)),
{
}

impl ListItem {
    /// A new, empty sound.
    pub fn new(name: String) -> (r: ListItem)
        ensures
            r@.wf(),
            r@.name == name@,
            r@.extension == AudioExtension::Idsp,
            r@.audio is None,
            r@.bytes is None,
            r@.loop_points is None,
            r@.length_in_samples == 0,
            r@.sample_rate == 12000,
            r@.channels == 1,
    {
        ListItem {
            name,
            extension: AudioExtension::Idsp,
            audio_raw: None,
            bytes_raw: None,
            loop_points_samples: None,
            length_in_samples: 0,
            sample_rate: 12000,
            channels: 1,
        }
    }

    /// The loop points, in frames.
    pub fn loop_points(&self) -> (r: &Option<(usize, usize)>)
        ensures
            *r == self@.loop_points,
    {
        &self.loop_points_samples
    }

    /// The loop end, in frames.
    pub fn loop_end(&self) -> (r: Option<usize>)
        ensures
            r == (match self@.loop_points {
                Some((_, e)) => Some(e),
                None => None::<usize>,
            }),
    {
        match self.loop_points_samples {
            Some((_, end)) => Some(end),
            None => None,
        }
    }

    /// The loop points as signed frame positions, for playback.
    pub fn loop_points_samples(&self) -> (r: Option<(i64, i64)>)
        requires
            self@.loop_points matches Some((s, e)) ==> e <= i64::MAX,
        ensures
            r == (match self@.loop_points {
                Some((s, e)) => Some((s as i64, e as i64)),
                None => None::<(i64, i64)>,
            }),
    {
        match self.loop_points_samples {
            Some((begin, end)) => Some((begin as i64, end as i64)),
            None => None,
        }
    }

    /// The name of the sound.
    pub fn name(&self) -> (r: &String)
        ensures
            r@ == self@.name,
    {
        &self.name
    }

    /// The format of the sound in its container.
    pub fn extension(&self) -> (r: AudioExtension)
        ensures
            r == self@.extension,
    {
        self.extension
    }

    /// The decoded audio, if any.
    pub fn audio(&self) -> (r: Option<&Vec<i16>>)
        ensures
            r matches Some(a) ==> self@.audio == Some(a@),
            r is None <==> self@.audio is None,
    {
        match &self.audio_raw {
            Some(a) => Some(a),
            None => None,
        }
    }

    /// The kept encoded bytes, if any.
    pub fn bytes(&self) -> (r: Option<&Vec<u8>>)
        ensures
            r matches Some(b) ==> self@.bytes == Some(b@),
            r is None <==> self@.bytes is None,
    {
        match &self.bytes_raw {
            Some(b) => Some(b),
            None => None,
        }
    }

    /// Length of the audio, in frames.
    pub fn length_in_samples(&self) -> (r: usize)
        ensures
            r == self@.length_in_samples,
    {
        self.length_in_samples
    }

    /// Sample rate of the audio.
    pub fn sample_rate(&self) -> (r: u32)
        ensures
            r == self@.sample_rate,
    {
        self.sample_rate
    }

    /// Channel count of the audio.
    pub fn channels(&self) -> (r: u16)
        ensures
            r == self@.channels,
    {
        self.channels
    }

    /// Sets the loop points read from a file's metadata: kept only over audio
    /// and where they run forward; kept bytes are dropped where the loop
    /// changes.
    pub fn set_loop_from_metadata(&mut self, points: Option<(usize, usize)>)
        requires
            old(self)@.wf(),
        ensures
            final(self)@ == old(self)@.with_loop_from_metadata(points),
            final(self)@.wf(),
    {
        let new_loop = if self.audio_raw.is_some() {
            valid_loop(points)
        } else {
            None
        };
        let same = match (new_loop, self.loop_points_samples) {
            (Some((a, b)), Some((c, d))) => a == c && b == d,
            (None, None) => true,
            _ => false,
        };
        if !same {
            self.loop_points_samples = new_loop;
            if self.audio_raw.is_some() {
                self.bytes_raw = None;
            }
        }
    }

    /// Drops the kept encoded bytes.
    pub fn clear_bytes(&mut self)
        requires
            old(self)@.wf(),
        ensures
            final(self)@ == (ItemView { bytes: None, ..old(self)@ }),
            final(self)@.wf(),
    {
        self.bytes_raw = None;
    }

    /// Replaces the content with binary data.
    fn become_binary(&mut self, raw: Vec<u8>)
        requires
            old(self)@.wf(),
        ensures
            final(self)@ == old(self)@.as_binary(raw@),
            final(self)@.wf(),
    {
        self.loop_points_samples = None;
        self.extension = AudioExtension::Bin;
        self.audio_raw = None;
        self.bytes_raw = Some(raw);
    }

    /// Replaces the audio with freshly decoded audio, given the bytes `raw`
    /// and what the decoder made of them. Audio that decoded is brought to
    /// mono or stereo (the first two channels of a wider layout) and to the
    /// encoder's rate for it; loop points and kept bytes no longer apply and
    /// are dropped, and a sound that was binary data becomes IDSP. Bytes
    /// that did not decode (or decoded to no channels, to no rate or one above
    /// what the resampler takes, or to part of a frame) are kept as binary
    /// data.
    pub fn set_audio_raw(&mut self, raw: Vec<u8>, decoded: Result<PcmBuffer, String>) -> (r: Result<
        (),
        String,
    >)
        requires
            old(self)@.wf(),
        ensures
            r is Ok,
            final(self)@.wf(),
            final(self)@.loop_points is None,
            final(self)@.name == old(self)@.name,
            !decode_succeeded(decoded) ==> final(self)@ == old(self)@.as_binary(raw@),
            decode_succeeded(decoded) ==> {
                let p = decoded->Ok_0;
                &&& final(self)@.bytes is None
                &&& final(self)@.channels == normalized_channels_spec(p.channel_count)
                &&& final(self)@.sample_rate == target_rate_spec(p.sample_rate)
                &&& final(self)@.audio == Some(
                    normalized_samples(p.samples@, p.channel_count, p.sample_rate),
                )
                &&& final(self)@.length_in_samples as int == (normalized_samples(
                    p.samples@,
                    p.channel_count,
                    p.sample_rate,
                ).len() as int) / (normalized_channels_spec(p.channel_count) as int)
                &&& final(self)@.extension == (if old(self)@.extension is Bin {
                    AudioExtension::Idsp
                } else {
                    old(self)@.extension
                })
                &&& ((p.samples@.len() as int) * (target_rate_spec(p.sample_rate) as int)
                    < f64_exact_limit() ==> duration_kept(
                    (p.samples@.len() as int) / (p.channel_count as int),
                    p.sample_rate as int,
                    target_rate_spec(p.sample_rate) as int,
                    final(self)@.length_in_samples as int,
                ))
            },
    {
        match decoded {
            Err(_) => {
                self.become_binary(raw);
                Ok(())
            },
            Ok(pcm) => {
                if pcm.channel_count == 0 || pcm.sample_rate == 0 || pcm.sample_rate > 25_000_000
                    || pcm.samples.len() % (pcm.channel_count as usize) != 0 {
                    self.become_binary(raw);
                    return Ok(());
                }
                let converted = normalize(pcm);
                let length = converted.samples.len() / (converted.channel_count as usize);
                self.length_in_samples = length;
                self.sample_rate = converted.sample_rate;
                self.channels = converted.channel_count;
                self.audio_raw = Some(converted.samples);
                self.loop_points_samples = None;
                self.bytes_raw = None;
                if self.extension == AudioExtension::Bin {
                    self.extension = AudioExtension::Idsp;
                }
                Ok(())
            },
        }
    }

    /// Loads the sound from its encoded container bytes, given what the
    /// external decoder made of them (a WAV file, or its error) and the loop
    /// points read from their metadata. Fewer than four bytes are refused
    /// and leave the sound unchanged. Bytes that the decoder rejected are
    /// kept as binary data; so are bytes whose WAV could not be read, which
    /// is no failure of the load but comes back as a warning. Otherwise the
    /// sound holds the WAV's audio as it is, keeps the encoded bytes for
    /// saving, takes the format that the bytes show, and keeps the loop
    /// points where they run forward.
    pub fn from_encoded(
        &mut self,
        encoded: Vec<u8>,
        decoded_wav: Result<Vec<u8>, String>,
        loop_points: Option<(usize, usize)>,
    ) -> (r: Result<Option<String>, String>)
        requires
            old(self)@.wf(),
        ensures
            final(self)@.wf(),
            final(self)@.name == old(self)@.name,
            r is Err <==> encoded@.len() < 4,
            encoded@.len() < 4 ==> final(self)@ == old(self)@,
            encoded@.len() >= 4 && decoded_wav is Err ==> r == Ok::<Option<String>, String>(None)
                && final(self)@ == old(self)@.as_binary(encoded@),
            encoded@.len() >= 4 && decoded_wav is Ok && wav_decoded(decoded_wav->Ok_0@) is None
                ==> (r matches Ok(Some(w)) && "Error reading returned wav\n"@.is_prefix_of(w@))
                && final(self)@ == old(self)@.as_binary(encoded@),
            encoded@.len() >= 4 && decoded_wav is Ok && wav_decoded(decoded_wav->Ok_0@) is Some
                ==> {
                let (s, ch, rate) = wav_decoded(decoded_wav->Ok_0@)->Some_0;
                &&& r == Ok::<Option<String>, String>(None)
                &&& final(self)@.audio == Some(s)
                &&& final(self)@.channels == ch
                &&& final(self)@.sample_rate == rate
                &&& final(self)@.bytes == Some(encoded@)
                &&& final(self)@.extension == extension_of_encoded_spec(encoded@)
                &&& final(self)@.loop_points == valid_loop_spec(loop_points)
            },
    {
        let extension = match extension_of_encoded(encoded.as_slice()) {
            Ok(e) => e,
            Err(message) => return Err(message),
        };
        match decoded_wav {
            Err(_) => {
                self.become_binary(encoded);
                Ok(None)
            },
            Ok(wav) => match decode_wav(wav.as_slice()) {
                Ok(pcm) => {
                    let length = pcm.samples.len() / (pcm.channel_count as usize);
                    self.length_in_samples = length;
                    self.channels = pcm.channel_count;
                    self.sample_rate = pcm.sample_rate;
                    self.audio_raw = Some(pcm.samples);
                    self.bytes_raw = Some(encoded);
                    self.extension = extension;
                    self.loop_points_samples = valid_loop(loop_points);
                    Ok(None)
                },
                Err(error) => {
                    self.become_binary(encoded);
                    let m = error.message();
                    let warning = joined("Error reading returned wav\n", m.as_str());
                    proof {
                        assert(warning@.subrange(0, "Error reading returned wav\n"@.len() as int)
                            =~= "Error reading returned wav\n"@);
                    }
                    Ok(Some(warning))
                },
            },
        }
    }

    /// The audio as a WAV file, keeping at most `end` frames when it is
    /// given.
    pub fn get_audio_wav(&self, end: Option<usize>) -> (r: Result<Vec<u8>, String>)
        requires
            self@.wf(),
        ensures
            self@.audio is None && self@.bytes is None ==> r is Err && r->Err_0@
                == "Selected item is empty"@,
            self@.audio is None && self@.bytes is Some ==> r is Err && r->Err_0@
                == "Selected item could not be decoded"@,
            self@.audio is Some && wav_header_fits(self@.channels, self@.sample_rate)
                && wav_size_fits(
                limited_len(self@.audio->Some_0.len() as int, self@.channels as int, end),
            ) ==> r is Ok,
            r is Ok ==> wav_header_fits(self@.channels, self@.sample_rate) && wav_decoded(
                r->Ok_0@,
            ) == Some(
                (
                    self@.audio->Some_0.subrange(
                        0,
                        limited_len(
                            self@.audio->Some_0.len() as int,
                            self@.channels as int,
                            end,
                        ),
                    ),
                    self@.channels,
                    self@.sample_rate,
                ),
            ),
            r is Ok ==> (self@.audio is Some && r->Ok_0@ == wav_image(
                self@.channels,
                self@.sample_rate,
                self@.audio->Some_0.subrange(
                    0,
                    limited_len(
                        self@.audio->Some_0.len() as int,
                        self@.channels as int,
                        end,
                    ),
                ),
            )),
    {
        match &self.audio_raw {
            Some(raw) => {
                let buffer = PcmBuffer {
                    samples: copy_samples(raw),
                    channel_count: self.channels,
                    sample_rate: self.sample_rate,
                };
                match encode_wav(&buffer, end) {
                    Ok(bytes) => Ok(bytes),
                    Err(error) => Err(error.message()),
                }
            },
            None => {
                if self.bytes_raw.is_none() {
                    Err(String::from_str("Selected item is empty"))
                } else {
                    Err(String::from_str("Selected item could not be decoded"))
                }
            },
        }
    }

    /// What an export to `target` can use without encoding: the kept bytes
    /// where they are in that format (or are binary data), `None` where the
    /// audio must be encoded, and an error where there is no audio.
    pub fn cached_encoded(&self, target: AudioExtension) -> (r: Result<Option<Vec<u8>>, String>)
        requires
            self@.wf(),
        ensures
            r is Err <==> self@.cached_for(target) is Err,
            r matches Ok(None) <==> self@.cached_for(target) == Ok::<Option<Seq<u8>>, ()>(None),
            r matches Ok(Some(b)) ==> self@.cached_for(target) == Ok::<Option<Seq<u8>>, ()>(
                Some(b@),
            ),
    {
        match &self.bytes_raw {
            Some(bytes) => {
                if self.extension == AudioExtension::Bin || target == self.extension {
                    return Ok(Some(copy_bytes(bytes)));
                }
            },
            None => {},
        }
        if self.audio_raw.is_none() {
            Err(String::from_str("Audio of selected item is empty"))
        } else {
            Ok(None)
        }
    }

    /// Takes bytes that the encoder made from this sound's audio for
    /// `target`, and keeps them where `target` is the sound's own format.
    pub fn store_encoded(&mut self, target: AudioExtension, bytes: Vec<u8>)
        requires
            old(self)@.wf(),
        ensures
            final(self)@ == old(self)@.with_encoded(target, bytes@),
            final(self)@.wf(),
    {
        if target == self.extension && self.audio_raw.is_some() {
            self.bytes_raw = Some(bytes);
        }
    }

    /// Sets the name, format and loop points, and reports whether anything
    /// changed. Loop points must run forward over audio, and binary data
    /// has no audio; otherwise the sound is left as it is.
    pub fn apply_properties(
        &mut self,
        name: String,
        extension: AudioExtension,
        loop_points: Option<(usize, usize)>,
    ) -> (r: Result<bool, String>)
        requires
            old(self)@.wf(),
        ensures
            final(self)@.wf(),
            !old(self)@.properties_allowed(extension, loop_points) ==> r is Err && final(self)@
                == old(self)@,
            old(self)@.properties_allowed(extension, loop_points) ==> r is Ok,
            old(self)@.properties_allowed(extension, loop_points) && name@ == old(self)@.name
                && extension == old(self)@.extension && loop_points == old(self)@.loop_points ==> r
                == Ok::<bool, String>(false) && final(self)@ == old(self)@,
            old(self)@.properties_allowed(extension, loop_points) && !(name@ == old(self)@.name
                && extension == old(self)@.extension && loop_points == old(self)@.loop_points) ==> r
                == Ok::<bool, String>(true) && final(self)@ == old(self)@.with_properties(
                name@,
                extension,
                loop_points,
            ),
    {
        match loop_points {
            Some((start, end)) => {
                if start >= end {
                    return Err(String::from_str("Loop beginning must be placed before loop end."));
                }
                if self.audio_raw.is_none() {
                    return Err(String::from_str("Only decoded audio can loop."));
                }
            },
            None => {},
        }
        if extension == AudioExtension::Bin && self.audio_raw.is_some() {
            return Err(String::from_str("Decoded audio can't be stored as binary data."));
        }
        let same_loop = match (loop_points, self.loop_points_samples) {
            (Some((a, b)), Some((c, d))) => a == c && b == d,
            (None, None) => true,
            _ => false,
        };
        let same_name = name.eq(&self.name);
        if same_name && extension == self.extension && same_loop {
            return Ok(false);
        }
        if self.audio_raw.is_some() || extension != self.extension {
            self.bytes_raw = None;
        }
        self.name = name;
        self.extension = extension;
        self.loop_points_samples = loop_points;
        Ok(true)
    }

    /// A note on what the sound holds, for its label: nothing where it is
    /// complete, else whether it awaits encoding, could not be decoded, or
    /// is empty.
    pub fn status_note(&self) -> (r: &'static str)
        ensures
            r@ == (match (self@.audio is Some, self@.bytes is Some) {
                (true, true) => ""@,
                (true, false) => " (Not yet encoded)"@,
                (false, true) => " (Could not decode)"@,
                (false, false) => " (Empty)"@,
            }),
    {
        match (self.audio_raw.is_some(), self.bytes_raw.is_some()) {
            (true, true) => "",
            (true, false) => " (Not yet encoded)",
            (false, true) => " (Could not decode)",
            (false, false) => " (Empty)",
        }
    }

    /// The label of the sound: its name, its format's extension, and its
    /// status note.
    pub fn label(&self) -> (r: String)
        ensures
            r@ == self@.label_text(),
    {
        let with_dot = joined(self.name.as_str(), ".");
        let ext = self.extension.to_text();
        let named = joined(with_dot.as_str(), ext.as_str());
        joined(named.as_str(), self.status_note())
    }
}

/// Whether the decoder gave audio that can become a sound's audio.
pub open spec fn decode_succeeded(decoded: Result<PcmBuffer, String>) -> bool {
    decoded matches Ok(p) && decoded_usable(p)
}

} // verus!
