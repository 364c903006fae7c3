//! The capture synth's settings: a recording test driver that offers two
//! synthetic voices and a rate, so the settings paths are driven without a
//! real synthesizer. Each request it is given is answered with a short burst
//! of silent PCM.

use vstd::prelude::*;

use crate::speech::driver::{PcmFormat, SynthError, SynthErrorView};
use crate::speech::settings::{SettingDescriptor, SettingDescriptorView, SettingId, SettingValue, SettingValueView, SynthId};
use crate::text::{decimal, push_decimal, str_equal};

verus! {

/// Sample rate of the capture synth's silent PCM.
pub const CAPTURE_SAMPLE_RATE: u32 = 22050;

/// Number of silent samples emitted per request.
pub const SILENT_SAMPLE_COUNT: usize = 100;

/// The two synthetic voices, as (id, display name).
pub open spec fn capture_voices() -> Seq<(Seq<char>, Seq<char>)> {
    seq![("capture-a"@, "Capture A"@), ("capture-b"@, "Capture B"@)]
}

/// The two synthetic voices the capture synth offers, exercising the choice
/// setting path. These ids are test fixtures, never shown to real users.
pub fn voices() -> (r: [(&'static str, &'static str); 2])
    ensures
        r@.len() == 2,
        r@[0].0@ == capture_voices()[0].0 && r@[0].1@ == capture_voices()[0].1,
        r@[1].0@ == capture_voices()[1].0 && r@[1].1@ == capture_voices()[1].1,
{
    [("capture-a", "Capture A"), ("capture-b", "Capture B")]
}

/// The voice a fresh capture synth speaks with: the first one.
pub fn default_voice_id() -> (r: &'static str)
    ensures
        r@ == capture_voices()[0].0,
{
    let all = voices();
    all[0].0
}

/// The capture synth's settings state as the contracts see it.
pub struct CaptureView {
    /// The rate, 0 to 100.
    pub rate: i32,
    /// The selected voice id.
    pub voice: Seq<char>,
}

/// What a set of one setting does to the capture synth: its new state, or
/// the detail of the setting error.
pub open spec fn capture_set_spec(v: CaptureView, id: Seq<char>, value: SettingValueView) -> Result<CaptureView, Seq<char>> {
    if id == "voice"@ && value is Choice {
        let choice = value->Choice_0;
        if choice == capture_voices()[0].0 || choice == capture_voices()[1].0 {
            Ok(CaptureView { voice: choice, ..v })
        } else {
            Err("unknown voice "@ + choice)
        }
    } else if id == "rate"@ && value is Number {
        let rate = value->Number_0;
        if 0 <= rate <= 100 {
            Ok(CaptureView { rate, ..v })
        } else {
            Err("rate "@ + decimal(rate as int) + " out of range"@)
        }
    } else {
        Err("unknown or mistyped setting "@ + id)
    }
}

/// The capture synth's value of one setting.
pub open spec fn capture_get_spec(v: CaptureView, id: Seq<char>) -> Option<SettingValueView> {
    if id == "voice"@ {
        Some(SettingValueView::Choice(v.voice))
    } else if id == "rate"@ {
        Some(SettingValueView::Number(v.rate))
    } else {
        None
    }
}

/// The settings of the recording test driver.
pub struct CaptureSynth {
    rate: i32,
    voice: String,
}

impl View for CaptureSynth {
    type V = CaptureView;

    closed spec fn view(&self) -> CaptureView {
        CaptureView { rate: self.rate, voice: self.voice@ }
    }
}

impl CaptureSynth {
    /// A capture synth at rate 50 with the first voice.
    pub fn new() -> (r: Self)
        ensures
            r@ == (CaptureView { rate: 50, voice: capture_voices()[0].0 }),
    {
        CaptureSynth { rate: 50, voice: default_voice_id().to_owned() }
    }

    /// The stable id, `capture`.
    pub fn id(&self) -> (r: SynthId)
        ensures
            r@ == "capture"@,
    {
        SynthId::new("capture")
    }

    /// The display name; this test-only driver never reaches the production
    /// synthesizer list.
    pub fn display_name(&self) -> (r: String)
        ensures
            r@ == "Capture synth"@,
    {
        "Capture synth".to_owned()
    }

    /// The format of the silent PCM: 22050 Hz mono.
    pub fn pcm_format(&self) -> (r: PcmFormat)
        ensures
            r.sample_rate == CAPTURE_SAMPLE_RATE && r.channels == 1,
    {
        PcmFormat { sample_rate: CAPTURE_SAMPLE_RATE, channels: 1 }
    }

    /// The voice choice over the two synthetic voices, then the standard
    /// rate slider.
    pub fn supported_settings(&self) -> (r: Vec<SettingDescriptor>)
        ensures
            r@.len() == 2,
            r@[0]@ == (SettingDescriptorView::Choice {
                id: "voice"@,
                label_key: "setting-voice"@,
                options: capture_voices(),
            }),
            r@[1]@ == (SettingDescriptorView::Numeric {
                id: "rate"@,
                label_key: "setting-rate"@,
                min: 0,
                max: 100,
                small_step: 1,
                normal_step: 5,
                large_step: 10,
            }),
    {
        let all = voices();
        let mut options: Vec<(String, String)> = Vec::new();
        options.push((all[0].0.to_owned(), all[0].1.to_owned()));
        options.push((all[1].0.to_owned(), all[1].1.to_owned()));
        assert(crate::speech::settings::options_view(options@) =~= capture_voices());
        let mut r: Vec<SettingDescriptor> = Vec::new();
        r.push(
            SettingDescriptor::Choice {
                id: SettingId::new("voice"),
                label_key: "setting-voice".to_owned(),
                options,
            },
        );
        r.push(SettingDescriptor::standard_numeric("rate", "setting-rate"));
        r
    }

    /// The current value of one setting, or `None` for an unknown id.
    pub fn setting(&self, id: &SettingId) -> (r: Option<SettingValue>)
        ensures
            match capture_get_spec(self@, id@) {
                Some(v) => r matches Some(x) && x@ == v,
                None => r is None,
            },
    {
        if str_equal(id.as_str(), "voice") {
            Some(SettingValue::Choice(self.voice.clone()))
        } else if str_equal(id.as_str(), "rate") {
            Some(SettingValue::Number(self.rate))
        } else {
            None
        }
    }

    /// Validates and applies one setting; a rejected value changes nothing.
    pub fn set_setting(&mut self, id: &SettingId, value: SettingValue) -> (r: Result<(), SynthError>)
        ensures
            match capture_set_spec(old(self)@, id@, value@) {
                Ok(after) => r is Ok && final(self)@ == after,
                Err(detail) => r matches Err(e) && e@ == SynthErrorView::Setting(detail) && final(self)@ == old(
                    self,
                )@,
            },
    {
        let is_voice = str_equal(id.as_str(), "voice");
        let is_rate = str_equal(id.as_str(), "rate");
        proof {
            reveal_strlit("voice");
            reveal_strlit("rate");
        }
        if is_voice {
            if let SettingValue::Choice(choice) = value {
                let all = voices();
                if str_equal(choice.as_str(), all[0].0) || str_equal(choice.as_str(), all[1].0) {
                    self.voice = choice;
                    return Ok(());
                } else {
                    let mut message = "unknown voice ".to_owned();
                    message.append(choice.as_str());
                    return Err(SynthError::Setting(message));
                }
            }
        } else if is_rate {
            if let SettingValue::Number(rate) = value {
                if 0 <= rate && rate <= 100 {
                    self.rate = rate;
                    return Ok(());
                } else {
                    let mut message = "rate ".to_owned();
                    push_decimal(&mut message, rate as i64);
                    message.append(" out of range");
                    return Err(SynthError::Setting(message));
                }
            }
        }
        Err(mistyped_setting(id))
    }
}

/// The error for a setting id the driver does not know, or a value of the
/// wrong kind for it.
pub fn mistyped_setting(id: &SettingId) -> (r: SynthError)
    ensures
        r@ == SynthErrorView::Setting("unknown or mistyped setting "@ + id@),
{
    let mut message = "unknown or mistyped setting ".to_owned();
    message.append(id.as_str());
    SynthError::Setting(message)
}

/// A set that succeeds is read back: the setting set now reads the value
/// given and the other setting reads what it read before; the rate accepts
/// exactly the numbers 0 to 100, and the voice exactly the two synthetic
/// voices.
pub proof fn law_capture_set_then_read(v: CaptureView, id: Seq<char>, value: SettingValueView, other: Seq<char>)
    ensures
        capture_set_spec(v, id, value) matches Ok(after) ==> {
            &&& capture_get_spec(after, id) == Some(value)
            &&& (other != id ==> capture_get_spec(after, other) == capture_get_spec(v, other))
        },
        id == "rate"@ && value is Number ==> (capture_set_spec(v, id, value) is Ok <==> 0 <= value->Number_0 <= 100),
        id == "voice"@ && value is Choice ==> (capture_set_spec(v, id, value) is Ok <==> (value->Choice_0
            == capture_voices()[0].0 || value->Choice_0 == capture_voices()[1].0)),
{
    reveal_strlit("voice");
    reveal_strlit("rate");
    assert("voice"@[0] != "rate"@[0]);
}

} // verus!
