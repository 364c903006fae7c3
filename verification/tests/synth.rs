use verbatim::speech::driver::{PcmFormat, SynthError};
use verbatim::speech::settings::{SettingId, SettingValue, SynthId};
use verbatim::synth::capture::{default_voice_id, voices, CaptureSynth};
use verbatim::synth::onecore::{parse_wav, read_u16, read_u32, set_percent, OneCoreSynth, ONECORE_ID};

fn minimal_wav(bits: u16) -> Vec<u8> {
    let mut wav = Vec::new();
    wav.extend_from_slice(b"RIFF");
    wav.extend_from_slice(&0u32.to_le_bytes());
    wav.extend_from_slice(b"WAVE");
    wav.extend_from_slice(b"fmt ");
    wav.extend_from_slice(&16u32.to_le_bytes());
    wav.extend_from_slice(&1u16.to_le_bytes());
    wav.extend_from_slice(&1u16.to_le_bytes());
    wav.extend_from_slice(&22_050u32.to_le_bytes());
    wav.extend_from_slice(&44_100u32.to_le_bytes());
    wav.extend_from_slice(&2u16.to_le_bytes());
    wav.extend_from_slice(&bits.to_le_bytes());
    wav.extend_from_slice(b"data");
    wav.extend_from_slice(&4u32.to_le_bytes());
    wav.extend_from_slice(&100i16.to_le_bytes());
    wav.extend_from_slice(&(-100i16).to_le_bytes());
    wav
}

#[test]
fn parse_wav_reads_format_and_samples() {
    let wav = minimal_wav(16);
    let (format, samples) = parse_wav(&wav).expect("valid wav");
    assert_eq!(format, PcmFormat { sample_rate: 22_050, channels: 1 });
    assert_eq!(samples, vec![100, -100]);
}

#[test]
fn parse_wav_skips_unknown_and_odd_sized_chunks() {
    let mut wav = Vec::new();
    wav.extend_from_slice(b"RIFF");
    wav.extend_from_slice(&0u32.to_le_bytes());
    wav.extend_from_slice(b"WAVE");
    wav.extend_from_slice(b"fact");
    wav.extend_from_slice(&3u32.to_le_bytes());
    wav.extend_from_slice(&[9, 9, 9, 0]);
    wav.extend_from_slice(b"fmt ");
    wav.extend_from_slice(&16u32.to_le_bytes());
    wav.extend_from_slice(&1u16.to_le_bytes());
    wav.extend_from_slice(&2u16.to_le_bytes());
    wav.extend_from_slice(&16_000u32.to_le_bytes());
    wav.extend_from_slice(&64_000u32.to_le_bytes());
    wav.extend_from_slice(&4u16.to_le_bytes());
    wav.extend_from_slice(&16u16.to_le_bytes());
    wav.extend_from_slice(b"data");
    wav.extend_from_slice(&100u32.to_le_bytes());
    wav.extend_from_slice(&i16::MIN.to_le_bytes());
    wav.extend_from_slice(&i16::MAX.to_le_bytes());
    wav.push(7);
    let (format, samples) = parse_wav(&wav).expect("valid wav");
    assert_eq!(format, PcmFormat { sample_rate: 16_000, channels: 2 });
    assert_eq!(samples, vec![i16::MIN, i16::MAX]);
}

#[test]
fn parse_wav_reports_each_malformation() {
    assert_eq!(parse_wav(b"RIFF"), Err(SynthError::Synthesis("not a RIFF/WAVE stream".to_owned())));
    assert_eq!(
        parse_wav(b"RIFX\0\0\0\0WAVE"),
        Err(SynthError::Synthesis("not a RIFF/WAVE stream".to_owned()))
    );
    assert_eq!(parse_wav(b"RIFF\0\0\0\0WAVE"), Err(SynthError::Synthesis("missing fmt chunk".to_owned())));
    assert_eq!(
        parse_wav(&minimal_wav(8)),
        Err(SynthError::Synthesis("unexpected bit depth 8, only 16-bit PCM is supported".to_owned()))
    );
    let mut no_data = minimal_wav(16);
    no_data.truncate(36);
    assert_eq!(parse_wav(&no_data), Err(SynthError::Synthesis("missing data chunk".to_owned())));
    let mut truncated_fmt = Vec::new();
    truncated_fmt.extend_from_slice(b"RIFF\0\0\0\0WAVEfmt ");
    truncated_fmt.extend_from_slice(&16u32.to_le_bytes());
    truncated_fmt.extend_from_slice(&[1, 0, 2, 0, 0x22, 0x56, 0, 0]);
    assert_eq!(parse_wav(&truncated_fmt), Err(SynthError::Synthesis("missing bit depth".to_owned())));
}

#[test]
fn little_endian_reads_stay_in_bounds() {
    let bytes = [0x01u8, 0x02, 0x03, 0x04, 0x05];
    assert_eq!(read_u32(&bytes, 0), Some(0x0403_0201));
    assert_eq!(read_u32(&bytes, 1), Some(0x0504_0302));
    assert_eq!(read_u32(&bytes, 2), None);
    assert_eq!(read_u16(&bytes, 3), Some(0x0504));
    assert_eq!(read_u16(&bytes, 4), None);
    assert_eq!(read_u16(&bytes, 9), None);
}

#[test]
fn capture_synth_offers_two_voices_and_a_rate() {
    assert_eq!(voices(), [("capture-a", "Capture A"), ("capture-b", "Capture B")]);
    assert_eq!(default_voice_id(), "capture-a");
    let mut synth = CaptureSynth::new();
    assert_eq!(synth.id(), SynthId::new("capture"));
    assert_eq!(synth.display_name(), "Capture synth");
    assert_eq!(synth.pcm_format(), PcmFormat { sample_rate: 22_050, channels: 1 });
    assert_eq!(synth.supported_settings().len(), 2);
    let voice = SettingId::new("voice");
    let rate = SettingId::new("rate");
    assert_eq!(synth.setting(&voice), Some(SettingValue::Choice("capture-a".to_owned())));
    assert_eq!(synth.setting(&rate), Some(SettingValue::Number(50)));
    assert_eq!(synth.setting(&SettingId::new("pitch")), None);
    synth.set_setting(&voice, SettingValue::Choice("capture-b".to_owned())).unwrap();
    assert_eq!(synth.setting(&voice), Some(SettingValue::Choice("capture-b".to_owned())));
    assert_eq!(
        synth.set_setting(&voice, SettingValue::Choice("capture-c".to_owned())),
        Err(SynthError::Setting("unknown voice capture-c".to_owned()))
    );
    assert_eq!(
        synth.set_setting(&rate, SettingValue::Number(101)),
        Err(SynthError::Setting("rate 101 out of range".to_owned()))
    );
    assert_eq!(
        synth.set_setting(&rate, SettingValue::Toggle(true)),
        Err(SynthError::Setting("unknown or mistyped setting rate".to_owned()))
    );
    synth.set_setting(&rate, SettingValue::Number(0)).unwrap();
    assert_eq!(synth.setting(&rate), Some(SettingValue::Number(0)));
}

fn onecore() -> OneCoreSynth {
    OneCoreSynth::new(
        vec![("v1".to_owned(), "Voice One".to_owned()), ("v2".to_owned(), "Voice Two".to_owned())],
        Some("v2".to_owned()),
    )
    .expect("voices installed")
}

#[test]
fn onecore_starts_on_the_platform_default_voice_when_installed() {
    let synth = onecore();
    assert_eq!(synth.id(), SynthId::new(ONECORE_ID));
    assert_eq!(synth.current_voice_id(), "v2");
    assert_eq!(synth.prosody(), (50, false, 50, 100));
    assert_eq!(synth.pcm_format(), PcmFormat { sample_rate: 22_050, channels: 1 });
    let fallback = OneCoreSynth::new(vec![("v1".to_owned(), "Voice One".to_owned())], Some("gone".to_owned())).unwrap();
    assert_eq!(fallback.current_voice_id(), "v1");
    assert_eq!(
        OneCoreSynth::new(Vec::new(), None).err(),
        Some(SynthError::Unavailable("no OneCore voices installed".to_owned()))
    );
}

#[test]
fn rate_boost_keeps_the_percent() {
    let mut synth = onecore();
    let rate = SettingId::new("rate");
    let boost = SettingId::new("rate-boost");
    synth.set_setting(&rate, SettingValue::Number(50)).unwrap();
    synth.set_setting(&boost, SettingValue::Toggle(true)).unwrap();
    assert_eq!(synth.setting(&rate), Some(SettingValue::Number(50)));
    assert_eq!(synth.setting(&boost), Some(SettingValue::Toggle(true)));
    synth.set_setting(&boost, SettingValue::Toggle(false)).unwrap();
    assert_eq!(synth.setting(&rate), Some(SettingValue::Number(50)));
}

#[test]
fn onecore_settings_validate_their_values() {
    let mut synth = onecore();
    assert_eq!(synth.supported_settings().len(), 5);
    assert_eq!(
        synth.set_setting(&SettingId::new("pitch"), SettingValue::Number(101)),
        Err(SynthError::Setting("value 101 outside 0..=100".to_owned()))
    );
    synth.set_setting(&SettingId::new("volume"), SettingValue::Number(30)).unwrap();
    assert_eq!(synth.setting(&SettingId::new("volume")), Some(SettingValue::Number(30)));
    assert_eq!(
        synth.set_setting(&SettingId::new("voice"), SettingValue::Choice("v3".to_owned())),
        Err(SynthError::Setting("unknown voice v3".to_owned()))
    );
    assert_eq!(
        synth.set_setting(&SettingId::new("speed"), SettingValue::Number(3)),
        Err(SynthError::Setting("unknown or mistyped setting speed".to_owned()))
    );
    synth.record_format(PcmFormat { sample_rate: 24_000, channels: 1 });
    assert_eq!(synth.pcm_format().sample_rate, 24_000);
}

#[test]
fn set_percent_accepts_only_zero_to_one_hundred() {
    let mut slot = 5;
    assert_eq!(set_percent(&mut slot, 100), Ok(()));
    assert_eq!(slot, 100);
    assert_eq!(set_percent(&mut slot, -1), Err(SynthError::Setting("value -1 outside 0..=100".to_owned())));
    assert_eq!(slot, 100);
}
