//! The Windows OneCore synthesizer's platform-independent parts: its
//! settings (voice, rate, rate boost, pitch, volume) and the parsing of the
//! 16-bit PCM WAV streams it synthesizes.

use vstd::prelude::*;

use crate::speech::driver::{PcmFormat, SynthError, SynthErrorView};
use crate::speech::settings::{SettingDescriptor, SettingDescriptorView, SettingId, SettingValue, SynthId};
use crate::speech::settings::SettingValueView;
use crate::synth::capture::mistyped_setting;
use crate::text::{decimal, push_decimal, str_equal};

verus! {

/// The stable id of the OneCore synth.
pub const ONECORE_ID: &'static str = "onecore";

/// Samples pushed to the sink per chunk (about 50 ms at 22050 Hz), so
/// cancellation is honored promptly.
pub const CHUNK_SAMPLES: usize = 1102;

/// The little-endian `u16` at `at`, when two bytes are there.
pub open spec fn le_u16(bytes: Seq<u8>, at: int) -> Option<u16> {
    if 0 <= at && at + 2 <= bytes.len() {
        Some((bytes[at] + 256 * bytes[at + 1]) as u16)
    } else {
        None
    }
}

/// The little-endian `u32` at `at`, when four bytes are there.
pub open spec fn le_u32(bytes: Seq<u8>, at: int) -> Option<u32> {
    if 0 <= at && at + 4 <= bytes.len() {
        Some((bytes[at] + 256 * bytes[at + 1] + 65536 * bytes[at + 2] + 16777216 * bytes[at + 3]) as u32)
    } else {
        None
    }
}

/// The signed 16-bit sample whose little-endian bytes are `lo` and `hi`.
pub open spec fn le_i16(lo: u8, hi: u8) -> i16 {
    if hi < 128 {
        (lo + 256 * hi) as i16
    } else {
        (lo + 256 * hi - 65536) as i16
    }
}


/// The sample rate assumed before the first synthesis reveals the current
/// voice's true format: OneCore voices are 22050 Hz, 16-bit, mono.
pub const DEFAULT_SAMPLE_RATE: u32 = 22050;

/// Validates and stores a 0 to 100 percent setting.
pub fn set_percent(slot: &mut i32, value: i32) -> (r: Result<(), SynthError>)
    ensures
        if 0 <= value <= 100 {
            r is Ok && *final(slot) == value
        } else {
            r matches Err(e) && e@ == SynthErrorView::Setting(percent_error(value as int)) && *final(slot) == *old(slot)
        },
{
    if 0 <= value && value <= 100 {
        *slot = value;
        Ok(())
    } else {
        let mut message = "value ".to_owned();
        push_decimal(&mut message, value as i64);
        message.append(" outside 0..=100");
        Err(SynthError::Setting(message))
    }
}

/// The detail of the error for a percent outside 0 to 100.
pub open spec fn percent_error(value: int) -> Seq<char> {
    "value "@ + decimal(value) + " outside 0..=100"@
}

/// The OneCore synth's settings state as the contracts see it.
pub struct OneCoreView {
    /// Installed voices as (id, display name), in enumeration order.
    pub voices: Seq<(Seq<char>, Seq<char>)>,
    /// The selected voice id.
    pub voice: Seq<char>,
    /// Rate, 0 to 100.
    pub rate: i32,
    /// Whether the rate range is boosted.
    pub rate_boost: bool,
    /// Pitch, 0 to 100.
    pub pitch: i32,
    /// Volume, 0 to 100.
    pub volume: i32,
    /// The PCM format of the last synthesis (sample rate, channels).
    pub format: (u32, u16),
}

/// Whether `id` is the id of one of `voices`.
pub open spec fn has_voice(voices: Seq<(Seq<char>, Seq<char>)>, id: Seq<char>) -> bool {
    exists|k: int| 0 <= k < voices.len() && voices[k].0 == id
}

/// The result of setting a 0 to 100 percent.
pub open spec fn percent_set(old_value: i32, value: i32) -> Result<i32, Seq<char>> {
    if 0 <= value <= 100 {
        Ok(value)
    } else {
        Err(percent_error(value as int))
    }
}

/// What a set of one setting does to the OneCore synth: its new state, or
/// the detail of the setting error.
pub open spec fn onecore_set_spec(v: OneCoreView, id: Seq<char>, value: SettingValueView) -> Result<OneCoreView, Seq<char>> {
    if id == "voice"@ && value is Choice {
        let choice = value->Choice_0;
        if has_voice(v.voices, choice) {
            Ok(OneCoreView { voice: choice, ..v })
        } else {
            Err("unknown voice "@ + choice)
        }
    } else if id == "rate"@ && value is Number {
        match percent_set(v.rate, value->Number_0) {
            Ok(rate) => Ok(OneCoreView { rate, ..v }),
            Err(detail) => Err(detail),
        }
    } else if id == "rate-boost"@ && value is Toggle {
        Ok(OneCoreView { rate_boost: value->Toggle_0, ..v })
    } else if id == "pitch"@ && value is Number {
        match percent_set(v.pitch, value->Number_0) {
            Ok(pitch) => Ok(OneCoreView { pitch, ..v }),
            Err(detail) => Err(detail),
        }
    } else if id == "volume"@ && value is Number {
        match percent_set(v.volume, value->Number_0) {
            Ok(volume) => Ok(OneCoreView { volume, ..v }),
            Err(detail) => Err(detail),
        }
    } else {
        Err("unknown or mistyped setting "@ + id)
    }
}

/// The OneCore synth's value of one setting.
pub open spec fn onecore_get_spec(v: OneCoreView, id: Seq<char>) -> Option<SettingValueView> {
    if id == "voice"@ {
        Some(SettingValueView::Choice(v.voice))
    } else if id == "rate"@ {
        Some(SettingValueView::Number(v.rate))
    } else if id == "rate-boost"@ {
        Some(SettingValueView::Toggle(v.rate_boost))
    } else if id == "pitch"@ {
        Some(SettingValueView::Number(v.pitch))
    } else if id == "volume"@ {
        Some(SettingValueView::Number(v.volume))
    } else {
        None
    }
}

/// The voice a fresh synth selects: the platform's default voice when it is
/// among the installed ones, else the first installed voice.
pub open spec fn initial_voice(voices: Seq<(Seq<char>, Seq<char>)>, default_voice: Option<Seq<char>>) -> Seq<char> {
    match default_voice {
        Some(d) => if has_voice(voices, d) {
            d
        } else {
            voices[0].0
        },
        None => voices[0].0,
    }
}

/// The OneCore synth's voices and settings; the platform synthesizer they
/// are applied to lives beside it.
pub struct OneCoreSynth {
    voices: Vec<(String, String)>,
    current_voice_id: String,
    rate: i32,
    rate_boost: bool,
    pitch: i32,
    volume: i32,
    last_format: PcmFormat,
}

impl View for OneCoreSynth {
    type V = OneCoreView;

    closed spec fn view(&self) -> OneCoreView {
        OneCoreView {
            voices: crate::speech::settings::options_view(self.voices@),
            voice: self.current_voice_id@,
            rate: self.rate,
            rate_boost: self.rate_boost,
            pitch: self.pitch,
            volume: self.volume,
            format: (self.last_format.sample_rate, self.last_format.channels),
        }
    }
}

/// Whether one of `voices` has the id `id`.
fn find_voice(voices: &Vec<(String, String)>, id: &str) -> (r: bool)
    ensures
        r == has_voice(crate::speech::settings::options_view(voices@), id@),
{
    let ghost vv = crate::speech::settings::options_view(voices@);
    let mut k: usize = 0;
    while k < voices.len()
        invariant
            k <= voices@.len(),
            vv == crate::speech::settings::options_view(voices@),
            forall|j: int| 0 <= j < k ==> vv[j].0 != id@,
        decreases voices.len() - k,
    {
        if str_equal(voices[k].0.as_str(), id) {
            assert(vv[k as int].0 == id@);
            return true;
        }
        k = k + 1;
    }
    false
}

impl OneCoreSynth {
    /// A synth over the installed voices, selecting the platform's default
    /// voice when it is installed and the first voice otherwise, at rate 50,
    /// pitch 50, volume 100, without rate boost; no installed voice is an
    /// error.
    pub fn new(voices: Vec<(String, String)>, default_voice: Option<String>) -> (r: Result<Self, SynthError>)
        ensures
            voices@.len() == 0 ==> (r matches Err(e) && e@ == SynthErrorView::Unavailable(
                "no OneCore voices installed"@,
            )),
            voices@.len() > 0 ==> (r matches Ok(s) && s@ == (OneCoreView {
                voices: crate::speech::settings::options_view(voices@),
                voice: initial_voice(
                    crate::speech::settings::options_view(voices@),
                    match default_voice {
                        Some(d) => Some(d@),
                        None => None,
                    },
                ),
                rate: 50,
                rate_boost: false,
                pitch: 50,
                volume: 100,
                format: (DEFAULT_SAMPLE_RATE, 1),
            })),
    {
        if voices.len() == 0 {
            return Err(SynthError::Unavailable("no OneCore voices installed".to_owned()));
        }
        let current_voice_id = match default_voice {
            Some(d) => if find_voice(&voices, d.as_str()) {
                d
            } else {
                voices[0].0.clone()
            },
            None => voices[0].0.clone(),
        };
        Ok(
            OneCoreSynth {
                voices,
                current_voice_id,
                rate: 50,
                rate_boost: false,
                pitch: 50,
                volume: 100,
                last_format: PcmFormat { sample_rate: DEFAULT_SAMPLE_RATE, channels: 1 },
            },
        )
    }

    /// The stable id, `onecore`.
    pub fn id(&self) -> (r: SynthId)
        ensures
            r@ == ONECORE_ID@,
    {
        SynthId::new(ONECORE_ID)
    }

    /// The format of the last synthesis.
    pub fn pcm_format(&self) -> (r: PcmFormat)
        ensures
            (r.sample_rate, r.channels) == self@.format,
    {
        self.last_format
    }

    /// Records the format the last synthesis produced.
    pub fn record_format(&mut self, format: PcmFormat)
        ensures
            final(self)@ == (OneCoreView { format: (format.sample_rate, format.channels), ..old(self)@ }),
    {
        self.last_format = format;
    }

    /// The selected voice id, to apply before synthesis.
    pub fn current_voice_id(&self) -> (r: &str)
        ensures
            r@ == self@.voice,
    {
        self.current_voice_id.as_str()
    }

    /// Rate, rate boost, pitch and volume, to apply before synthesis.
    pub fn prosody(&self) -> (r: (i32, bool, i32, i32))
        ensures
            r == (self@.rate, self@.rate_boost, self@.pitch, self@.volume),
    {
        (self.rate, self.rate_boost, self.pitch, self.volume)
    }

    /// The voice choice over the installed voices, the rate slider, the
    /// rate-boost check box, then the pitch and volume sliders.
    pub fn supported_settings(&self) -> (r: Vec<SettingDescriptor>)
        ensures
            r@.len() == 5,
            r@[0]@ == (SettingDescriptorView::Choice { id: "voice"@, label_key: "setting-voice"@, options: self@.voices }),
            r@[1]@ == (SettingDescriptorView::Numeric {
                id: "rate"@,
                label_key: "setting-rate"@,
                min: 0,
                max: 100,
                small_step: 1,
                normal_step: 5,
                large_step: 10,
            }),
            r@[2]@ == (SettingDescriptorView::Toggle { id: "rate-boost"@, label_key: "setting-rate-boost"@ }),
            r@[3]@ == (SettingDescriptorView::Numeric {
                id: "pitch"@,
                label_key: "setting-pitch"@,
                min: 0,
                max: 100,
                small_step: 1,
                normal_step: 5,
                large_step: 10,
            }),
            r@[4]@ == (SettingDescriptorView::Numeric {
                id: "volume"@,
                label_key: "setting-volume"@,
                min: 0,
                max: 100,
                small_step: 1,
                normal_step: 5,
                large_step: 10,
            }),
    {
        let mut options: Vec<(String, String)> = Vec::new();
        let mut i: usize = 0;
        while i < self.voices.len()
            invariant
                i <= self.voices@.len(),
                options@.len() == i,
                forall|j: int|
                    0 <= j < i ==> options@[j].0@ == self.voices@[j].0@ && options@[j].1@ == self.voices@[j].1@,
            decreases self.voices.len() - i,
        {
            options.push((self.voices[i].0.clone(), self.voices[i].1.clone()));
            i = i + 1;
        }
        assert(crate::speech::settings::options_view(options@) =~= crate::speech::settings::options_view(
            self.voices@,
        ));
        let mut r: Vec<SettingDescriptor> = Vec::new();
        r.push(SettingDescriptor::Choice { id: SettingId::new("voice"), label_key: "setting-voice".to_owned(), options });
        r.push(SettingDescriptor::standard_numeric("rate", "setting-rate"));
        r.push(SettingDescriptor::Toggle { id: SettingId::new("rate-boost"), label_key: "setting-rate-boost".to_owned() });
        r.push(SettingDescriptor::standard_numeric("pitch", "setting-pitch"));
        r.push(SettingDescriptor::standard_numeric("volume", "setting-volume"));
        r
    }

    /// The current value of one setting, or `None` for an unknown id.
    pub fn setting(&self, id: &SettingId) -> (r: Option<SettingValue>)
        ensures
            match onecore_get_spec(self@, id@) {
                Some(v) => r matches Some(x) && x@ == v,
                None => r is None,
            },
    {
        if str_equal(id.as_str(), "voice") {
            Some(SettingValue::Choice(self.current_voice_id.clone()))
        } else if str_equal(id.as_str(), "rate") {
            Some(SettingValue::Number(self.rate))
        } else if str_equal(id.as_str(), "rate-boost") {
            Some(SettingValue::Toggle(self.rate_boost))
        } else if str_equal(id.as_str(), "pitch") {
            Some(SettingValue::Number(self.pitch))
        } else if str_equal(id.as_str(), "volume") {
            Some(SettingValue::Number(self.volume))
        } else {
            None
        }
    }

    /// Validates and applies one setting; a rejected value changes nothing.
    /// Toggling rate boost keeps the rate percent: the raw speaking rate is
    /// recomputed against the new maximum on the next synthesis.
    pub fn set_setting(&mut self, id: &SettingId, value: SettingValue) -> (r: Result<(), SynthError>)
        ensures
            match onecore_set_spec(old(self)@, id@, value@) {
                Ok(after) => r is Ok && final(self)@ == after,
                Err(detail) => r matches Err(e) && e@ == SynthErrorView::Setting(detail) && final(self)@ == old(
                    self,
                )@,
            },
    {
        proof {
            lemma_setting_ids_distinct();
        }
        if str_equal(id.as_str(), "voice") {
            if let SettingValue::Choice(choice) = value {
                if find_voice(&self.voices, choice.as_str()) {
                    self.current_voice_id = choice;
                    return Ok(());
                } else {
                    let mut message = "unknown voice ".to_owned();
                    message.append(choice.as_str());
                    return Err(SynthError::Setting(message));
                }
            }
        } else if str_equal(id.as_str(), "rate") {
            if let SettingValue::Number(number) = value {
                return set_percent(&mut self.rate, number);
            }
        } else if str_equal(id.as_str(), "rate-boost") {
            if let SettingValue::Toggle(enable) = value {
                self.rate_boost = enable;
                return Ok(());
            }
        } else if str_equal(id.as_str(), "pitch") {
            if let SettingValue::Number(number) = value {
                return set_percent(&mut self.pitch, number);
            }
        } else if str_equal(id.as_str(), "volume") {
            if let SettingValue::Number(number) = value {
                return set_percent(&mut self.volume, number);
            }
        }
        Err(mistyped_setting(id))
    }
}

/// The OneCore setting ids differ from one another.
proof fn lemma_setting_ids_distinct()
    ensures
        "voice"@ != "rate"@,
        "voice"@ != "rate-boost"@,
        "voice"@ != "pitch"@,
        "voice"@ != "volume"@,
        "rate"@ != "rate-boost"@,
        "rate"@ != "pitch"@,
        "rate"@ != "volume"@,
        "rate-boost"@ != "pitch"@,
        "rate-boost"@ != "volume"@,
        "pitch"@ != "volume"@,
{
    reveal_strlit("voice");
    reveal_strlit("rate");
    reveal_strlit("rate-boost");
    reveal_strlit("pitch");
    reveal_strlit("volume");
    assert("voice"@[0] != "pitch"@[0]);
    assert("voice"@[2] != "volume"@[2]);
    assert("pitch"@[0] != "volume"@[0]);
    assert("rate"@.len() != "rate-boost"@.len());
}

/// Toggling rate boost keeps every other setting, the rate percent
/// included.
pub proof fn law_rate_boost_keeps_the_percent(v: OneCoreView, enable: bool)
    ensures
        onecore_set_spec(v, "rate-boost"@, SettingValueView::Toggle(enable)) == Ok::<OneCoreView, Seq<char>>(
            OneCoreView { rate_boost: enable, ..v },
        ),
{
    lemma_setting_ids_distinct();
}

/// Reads a little-endian `u32` at `offset`, or `None` when out of bounds.
pub fn read_u32(bytes: &[u8], offset: usize) -> (r: Option<u32>)
    requires
        offset + 4 <= usize::MAX,
    ensures
        r == le_u32(bytes@, offset as int),
{
    if offset <= bytes.len() && bytes.len() - offset >= 4 {
        let b0 = bytes[offset] as u32;
        let b1 = bytes[offset + 1] as u32;
        let b2 = bytes[offset + 2] as u32;
        let b3 = bytes[offset + 3] as u32;
        Some(b0 + 256 * b1 + 65536 * b2 + 16777216 * b3)
    } else {
        None
    }
}

/// Reads a little-endian `u16` at `offset`, or `None` when out of bounds.
pub fn read_u16(bytes: &[u8], offset: usize) -> (r: Option<u16>)
    requires
        offset + 2 <= usize::MAX,
    ensures
        r == le_u16(bytes@, offset as int),
{
    if offset <= bytes.len() && bytes.len() - offset >= 2 {
        let b0 = bytes[offset] as u16;
        let b1 = bytes[offset + 1] as u16;
        Some(b0 + 256 * b1)
    } else {
        None
    }
}

/// What a walk over the RIFF chunks has found so far.
pub struct WavScan {
    /// From the last `fmt ` chunk.
    pub sample_rate: Option<u32>,
    /// From the last `fmt ` chunk.
    pub channels: Option<u16>,
    /// From the last `fmt ` chunk.
    pub bits: Option<u16>,
    /// The byte range of the last `data` chunk's body, cut at the stream's
    /// end.
    pub data: Option<(int, int)>,
}

/// Whether the four bytes at `at` are `a b c d`.
pub open spec fn tag_at(bytes: Seq<u8>, at: int, a: u8, b: u8, c: u8, d: u8) -> bool {
    &&& 0 <= at
    &&& at + 4 <= bytes.len()
    &&& bytes[at] == a
    &&& bytes[at + 1] == b
    &&& bytes[at + 2] == c
    &&& bytes[at + 3] == d
}

/// Walks the RIFF chunks from `offset` on: each chunk is an id, a
/// little-endian size and a body padded to an even length; the last `fmt `
/// chunk gives the channel count, sample rate and bit depth, the last `data`
/// chunk the samples.
pub open spec fn scan_chunks(bytes: Seq<u8>, offset: int, found: WavScan) -> WavScan
    decreases bytes.len() - offset,
{
    if offset < 0 || offset + 8 > bytes.len() {
        found
    } else {
        let size = le_u32(bytes, offset + 4).unwrap() as int;
        let body_start = offset + 8;
        let body_end = if body_start + size <= bytes.len() {
            body_start + size
        } else {
            bytes.len() as int
        };
        let next_found = if tag_at(bytes, offset, 0x66, 0x6d, 0x74, 0x20) {
            WavScan {
                channels: le_u16(bytes, body_start + 2),
                sample_rate: le_u32(bytes, body_start + 4),
                bits: le_u16(bytes, body_start + 14),
                ..found
            }
        } else if tag_at(bytes, offset, 0x64, 0x61, 0x74, 0x61) {
            WavScan { data: Some((body_start, body_end)), ..found }
        } else {
            found
        };
        let next = body_start + size + size % 2;
        if next > bytes.len() {
            next_found
        } else {
            scan_chunks(bytes, next, next_found)
        }
    }
}

/// The interleaved samples of a data chunk's bytes; a trailing odd byte is
/// ignored.
pub open spec fn samples_of(data: Seq<u8>) -> Seq<i16> {
    Seq::new(data.len() / 2, |i: int| le_i16(data[2 * i], data[2 * i + 1]))
}

/// The format and samples of a 16-bit PCM WAV stream, or the detail of the
/// synthesis error it is rejected with.
pub open spec fn parse_wav_spec(bytes: Seq<u8>) -> Result<(u32, u16, Seq<i16>), Seq<char>> {
    if bytes.len() < 12 || !tag_at(bytes, 0, 0x52, 0x49, 0x46, 0x46) || !tag_at(bytes, 8, 0x57, 0x41, 0x56, 0x45) {
        Err("not a RIFF/WAVE stream"@)
    } else {
        let found = scan_chunks(bytes, 12, WavScan { sample_rate: None, channels: None, bits: None, data: None });
        match (found.sample_rate, found.channels, found.bits, found.data) {
            (None, _, _, _) => Err("missing fmt chunk"@),
            (Some(_), None, _, _) => Err("missing channel count"@),
            (Some(_), Some(_), None, _) => Err("missing bit depth"@),
            (Some(rate), Some(channels), Some(bits), data) => if bits != 16 {
                Err("unexpected bit depth "@ + decimal(bits as int) + ", only 16-bit PCM is supported"@)
            } else {
                match data {
                    None => Err("missing data chunk"@),
                    Some((start, end)) => Ok((rate, channels, samples_of(bytes.subrange(start, end)))),
                }
            },
        }
    }
}

/// Whether the four bytes at `at` are `a b c d`.
fn has_tag(bytes: &[u8], at: usize, a: u8, b: u8, c: u8, d: u8) -> (r: bool)
    requires
        at + 4 <= bytes@.len(),
    ensures
        r == tag_at(bytes@, at as int, a, b, c, d),
{
    bytes[at] == a && bytes[at + 1] == b && bytes[at + 2] == c && bytes[at + 3] == d
}

/// Decodes the samples of `bytes[start..end]`.
fn decode_samples(bytes: &[u8], start: usize, end: usize) -> (r: Vec<i16>)
    requires
        start <= end <= bytes@.len(),
    ensures
        r@ == samples_of(bytes@.subrange(start as int, end as int)),
{
    let ghost data = bytes@.subrange(start as int, end as int);
    let count = (end - start) / 2;
    let mut samples: Vec<i16> = Vec::new();
    let mut i: usize = 0;
    while i < count
        invariant
            count == (end - start) / 2,
            start <= end <= bytes@.len(),
            data == bytes@.subrange(start as int, end as int),
            i <= count,
            samples@.len() == i,
            forall|j: int| 0 <= j < i ==> samples@[j] == le_i16(data[2 * j], data[2 * j + 1]),
        decreases count - i,
    {
        let lo = bytes[start + 2 * i];
        let hi = bytes[start + 2 * i + 1];
        let value: i16 = if hi < 128 {
            (lo as u16 + 256 * hi as u16) as i16
        } else {
            (lo as i32 + 256 * hi as i32 - 65536) as i16
        };
        assert(data[2 * i as int] == lo && data[2 * i + 1] == hi);
        samples.push(value);
        i = i + 1;
    }
    assert(samples@ =~= samples_of(data));
    samples
}

/// Parses a 16-bit PCM WAV, returning its format and interleaved samples.
///
/// Walks the RIFF chunks rather than assuming a fixed header layout, since
/// the `fmt ` chunk size and the presence of a `fact` chunk vary.
pub fn parse_wav(bytes: &[u8]) -> (r: Result<(PcmFormat, Vec<i16>), SynthError>)
    ensures
        match parse_wav_spec(bytes@) {
            Ok((rate, channels, samples)) => r matches Ok((format, out)) && format.sample_rate == rate
                && format.channels == channels && out@ == samples,
            Err(detail) => r matches Err(e) && e@ == SynthErrorView::Synthesis(detail),
        },
{
    let len = bytes.len();
    if len < 12 || !has_tag(bytes, 0, 0x52, 0x49, 0x46, 0x46) || !has_tag(bytes, 8, 0x57, 0x41, 0x56, 0x45) {
        return Err(SynthError::Synthesis("not a RIFF/WAVE stream".to_owned()));
    }
    let ghost start_found = WavScan { sample_rate: None, channels: None, bits: None, data: None };
    let mut sample_rate: Option<u32> = None;
    let mut channels: Option<u16> = None;
    let mut bits: Option<u16> = None;
    let mut data: Option<(usize, usize)> = None;
    let mut offset: usize = 12;
    let mut past_end = false;
    while !past_end && offset <= len && len - offset >= 8
        invariant
            len == bytes@.len(),
            ({
                let found = WavScan {
                    sample_rate,
                    channels,
                    bits,
                    data: match data {
                        Some((s, e)) => Some((s as int, e as int)),
                        None => None,
                    },
                };
                scan_chunks(bytes@, 12, start_found) == if past_end {
                    found
                } else {
                    scan_chunks(bytes@, offset as int, found)
                }
            }),
            data matches Some((s, e)) ==> s <= e <= len,
        decreases if past_end || offset > len { 0int } else { len - offset + 1 },
    {
        let size = match read_u32(bytes, offset + 4) {
            Some(size) => size as usize,
            None => {
                assert(false);
                0
            },
        };
        let body_start = offset + 8;
        let body_end = if size <= len - body_start {
            body_start + size
        } else {
            len
        };
        if has_tag(bytes, offset, 0x66, 0x6d, 0x74, 0x20) {
            channels = if body_start <= usize::MAX - 4 {
                read_u16(bytes, body_start + 2)
            } else {
                None
            };
            sample_rate = if body_start <= usize::MAX - 8 {
                read_u32(bytes, body_start + 4)
            } else {
                None
            };
            bits = if body_start <= usize::MAX - 16 {
                read_u16(bytes, body_start + 14)
            } else {
                None
            };
        } else if has_tag(bytes, offset, 0x64, 0x61, 0x74, 0x61) {
            data = Some((body_start, body_end));
        }
        let pad = size % 2;
        if size > usize::MAX - body_start || pad > usize::MAX - body_start - size {
            // The next chunk would start past any stream that fits in memory.
            past_end = true;
        } else {
            offset = body_start + size + pad;
        }
    }
    let rate = match sample_rate {
        Some(rate) => rate,
        None => return Err(SynthError::Synthesis("missing fmt chunk".to_owned())),
    };
    let channel_count = match channels {
        Some(channel_count) => channel_count,
        None => return Err(SynthError::Synthesis("missing channel count".to_owned())),
    };
    let bit_depth = match bits {
        Some(bit_depth) => bit_depth,
        None => return Err(SynthError::Synthesis("missing bit depth".to_owned())),
    };
    if bit_depth != 16 {
        let mut message = "unexpected bit depth ".to_owned();
        push_decimal(&mut message, bit_depth as i64);
        message.append(", only 16-bit PCM is supported");
        return Err(SynthError::Synthesis(message));
    }
    let (start, end) = match data {
        Some(range) => range,
        None => return Err(SynthError::Synthesis("missing data chunk".to_owned())),
    };
    let samples = decode_samples(bytes, start, end);
    Ok((PcmFormat { sample_rate: rate, channels: channel_count }, samples))
}

/// The settings the OneCore synth answers for.
pub open spec fn onecore_setting_ids() -> Seq<Seq<char>> {
    seq!["voice"@, "rate"@, "rate-boost"@, "pitch"@, "volume"@]
}

/// A set that succeeds is read back: the setting set now reads the value
/// given, every other setting reads what it read before, and the voices and
/// the format stay; a set that fails changes nothing. Rate, pitch and volume
/// each accept exactly the numbers 0 to 100, and every setting is rejected
/// when given a value of the wrong kind.
pub proof fn law_onecore_set_then_read(v: OneCoreView, id: Seq<char>, value: SettingValueView, other: Seq<char>)
    ensures
        onecore_set_spec(v, id, value) matches Ok(after) ==> {
            &&& onecore_get_spec(after, id) == Some(value)
            &&& (other != id ==> onecore_get_spec(after, other) == onecore_get_spec(v, other))
            &&& after.voices == v.voices
            &&& after.format == v.format
        },
        (id == "rate"@ || id == "pitch"@ || id == "volume"@) && value is Number ==> (onecore_set_spec(v, id, value) is Ok
            <==> 0 <= value->Number_0 <= 100),
        (id == "rate"@ || id == "pitch"@ || id == "volume"@) && !(value is Number) ==> onecore_set_spec(v, id, value) is Err,
        !onecore_setting_ids().contains(id) ==> onecore_set_spec(v, id, value) is Err && onecore_get_spec(v, id) is None,
{
    lemma_setting_ids_distinct();
    if !onecore_setting_ids().contains(id) {
        assert(onecore_setting_ids()[0] == "voice"@);
        assert(onecore_setting_ids()[1] == "rate"@);
        assert(onecore_setting_ids()[2] == "rate-boost"@);
        assert(onecore_setting_ids()[3] == "pitch"@);
        assert(onecore_setting_ids()[4] == "volume"@);
    }
}

} // verus!
