//! The harness's fixed texts: the RDP connection file, the recording's
//! guest path and the ffmpeg command line that records the guest's desktop
//! and, optionally, its audio.

use vstd::prelude::*;

use crate::clock::{millis_since_epoch, saturate_u64, system_now};

verus! {

/// Verbatim's install directory in the guest.
pub const VERBATIM_DIR: &'static str = "C:\\VerbatimLab\\verbatim";

/// The VB-CABLE capture device ffmpeg records the guest's audio from.
pub const VB_CABLE_CAPTURE_DEVICE: &'static str = "CABLE Output (VB-Audio Virtual Cable)";

/// The RDP file contents for a session to `ip` as `username`: audio played
/// on this computer, no server authentication prompt, 1920x1080 windowed,
/// clipboard shared.
pub open spec fn rdp_spec(ip: Seq<char>, username: Seq<char>) -> Seq<char> {
    "full address:s:"@ + ip + "\r\nusername:s:"@ + username
        + "\r\naudiomode:i:0\r\nauthentication level:i:0\r\ndesktopwidth:i:1920\r\ndesktopheight:i:1080\r\nscreen mode id:i:1\r\nredirectclipboard:i:1\r\n"@
}

/// The contents of the RDP connection file.
pub fn rdp_file_contents(ip: &str, username: &str) -> (r: String)
    ensures
        r@ == rdp_spec(ip@, username@),
{
    let mut r = "full address:s:".to_owned();
    r.append(ip);
    r.append("\r\nusername:s:");
    r.append(username);
    r.append(
        "\r\naudiomode:i:0\r\nauthentication level:i:0\r\ndesktopwidth:i:1920\r\ndesktopheight:i:1080\r\nscreen mode id:i:1\r\nredirectclipboard:i:1\r\n",
    );
    r
}

/// The guest-side path the recording is written to, alongside Verbatim's
/// install directory.
pub fn recording_guest_path() -> (r: String)
    ensures
        r@ == VERBATIM_DIR@ + "\\recording.mp4"@,
{
    let mut r = VERBATIM_DIR.to_owned();
    r.append("\\recording.mp4");
    r
}

/// The arguments' texts.
pub open spec fn args_view(args: Seq<String>) -> Seq<Seq<char>> {
    args.map_values(|a: String| a@)
}

/// The desktop input: `gdigrab` at 15 frames per second.
pub open spec fn video_input_args() -> Seq<Seq<char>> {
    seq!["-y"@, "-f"@, "gdigrab"@, "-framerate"@, "15"@, "-thread_queue_size"@, "512"@, "-i"@, "desktop"@]
}

/// The audio input: the VB-CABLE device through `dshow`.
pub open spec fn audio_input_args() -> Seq<Seq<char>> {
    seq![
        "-f"@,
        "dshow"@,
        "-thread_queue_size"@,
        "512"@,
        "-rtbufsize"@,
        "150M"@,
        "-i"@,
        "audio="@ + VB_CABLE_CAPTURE_DEVICE@,
    ]
}

/// Fragmented MP4 output, so an abrupt stop still leaves a playable file,
/// with H.264 video and two-second fragments.
pub open spec fn video_codec_args() -> Seq<Seq<char>> {
    seq![
        "-movflags"@,
        "+frag_keyframe+empty_moov+default_base_moof"@,
        "-c:v"@,
        "libx264"@,
        "-preset"@,
        "ultrafast"@,
        "-pix_fmt"@,
        "yuv420p"@,
        "-g"@,
        "30"@,
    ]
}

/// AAC audio at 128 kbit/s.
pub open spec fn audio_codec_args() -> Seq<Seq<char>> {
    seq!["-c:a"@, "aac"@, "-b:a"@, "128k"@]
}

/// The ffmpeg command line recording into `output_path`: the desktop input,
/// the audio input when audio is wanted, the video codec options, the audio
/// codec options when audio is wanted, and the output path last.
pub open spec fn ffmpeg_args_spec(output_path: Seq<char>, with_audio: bool) -> Seq<Seq<char>> {
    video_input_args() + (if with_audio {
        audio_input_args()
    } else {
        Seq::empty()
    }) + video_codec_args() + (if with_audio {
        audio_codec_args()
    } else {
        Seq::empty()
    }) + seq![output_path]
}

/// Appends literal arguments.
fn push_all(args: &mut Vec<String>, items: &[&str])
    ensures
        args_view(final(args)@) == args_view(old(args)@) + items@.map_values(|s: &str| s@),
{
    let mut i: usize = 0;
    while i < items.len()
        invariant
            i <= items@.len(),
            args_view(args@) == args_view(old(args)@) + items@.subrange(0, i as int).map_values(|s: &str| s@),
        decreases items.len() - i,
    {
        let ghost before = args_view(args@);
        args.push(items[i].to_owned());
        assert(args_view(args@) =~= before.push(items@[i as int]@));
        assert(items@.subrange(0, i + 1).map_values(|s: &str| s@) =~= items@.subrange(0, i as int).map_values(
            |s: &str| s@,
        ).push(items@[i as int]@));
        i = i + 1;
    }
    assert(items@.subrange(0, items@.len() as int) =~= items@);
}

/// The ffmpeg arguments that record the guest's desktop and, when
/// `with_audio` is set, the VB-CABLE capture device, into `output_path` as
/// fragmented MP4.
pub fn ffmpeg_args(output_path: &str, with_audio: bool) -> (r: Vec<String>)
    ensures
        args_view(r@) == ffmpeg_args_spec(output_path@, with_audio),
{
    let mut args: Vec<String> = Vec::new();
    let video = ["-y", "-f", "gdigrab", "-framerate", "15", "-thread_queue_size", "512", "-i", "desktop"];
    push_all(&mut args, &video);
    assert(video@.map_values(|s: &str| s@) =~= video_input_args());
    assert(args_view(args@) =~= video_input_args());
    if with_audio {
        let audio = ["-f", "dshow", "-thread_queue_size", "512", "-rtbufsize", "150M", "-i"];
        push_all(&mut args, &audio);
        let mut device = "audio=".to_owned();
        device.append(VB_CABLE_CAPTURE_DEVICE);
        let ghost before_device = args_view(args@);
        args.push(device);
        assert(args_view(args@) =~= before_device.push("audio="@ + VB_CABLE_CAPTURE_DEVICE@));
        assert(audio@.map_values(|s: &str| s@).push("audio="@ + VB_CABLE_CAPTURE_DEVICE@) =~= audio_input_args());
        assert(args_view(args@) =~= video_input_args() + audio_input_args());
    }
    let ghost before_codec = args_view(args@);
    let codec = [
        "-movflags",
        "+frag_keyframe+empty_moov+default_base_moof",
        "-c:v",
        "libx264",
        "-preset",
        "ultrafast",
        "-pix_fmt",
        "yuv420p",
        "-g",
        "30",
    ];
    push_all(&mut args, &codec);
    assert(codec@.map_values(|s: &str| s@) =~= video_codec_args());
    if with_audio {
        let audio_codec = ["-c:a", "aac", "-b:a", "128k"];
        push_all(&mut args, &audio_codec);
        assert(audio_codec@.map_values(|s: &str| s@) =~= audio_codec_args());
    }
    let ghost before_output = args_view(args@);
    args.push(output_path.to_owned());
    assert(args_view(args@) =~= before_output.push(output_path@));
    assert(args_view(args@) =~= ffmpeg_args_spec(output_path@, with_audio));
    args
}

/// Whole seconds in a millisecond count since the epoch, 0 when the clock
/// read earlier than the epoch.
pub fn seconds_of_millis(millis: Option<u128>) -> (r: u64)
    ensures
        r == match millis {
            Some(ms) => if ms / 1000 <= u64::MAX {
                (ms / 1000) as int
            } else {
                u64::MAX as int
            },
            None => 0,
        },
{
    match millis {
        Some(ms) => saturate_u64(ms / 1000),
        None => 0,
    }
}

/// Seconds since the Unix epoch, for naming recordings; 0 when the system
/// clock reads earlier than the epoch. Nothing more is stated: the value
/// depends on the time of the call.
pub fn unix_seconds_now() -> u64 {
    seconds_of_millis(millis_since_epoch(&system_now()))
}

} // verus!
