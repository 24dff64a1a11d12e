//! What the tool says of a media file, read out of its diagnostic text.

use crate::commands::{CommandError, CommandResult};
use crate::decimal::{find_char, index_of, parse_micros, parse_micros_chars, parse_micros_spec};
use crate::ffmpeg::timeline::clamp_i64;
use crate::paths::{lower_extension, lower_extension_of, opt_view};
use crate::pattern::{capture, regex_capture};
use crate::text::{
    chars_of, clone_opt, contains, has_infix, parse_u32, parse_u32_spec, parse_u64,
    parse_u64_spec, push_text, views,
};
use vstd::prelude::*;
use vstd::string::*;

verus! {

/// A request to read the metadata of a file.
#[derive(Debug, Clone)]
pub struct ExtractMetadataRequest {
    pub file_path: String,
}

/// What is known of a video file. `duration` is in millionths of a second,
/// `fps` in millionths of a frame per second, the bit rates in bits per
/// second.
#[derive(Debug, Clone)]
pub struct VideoMetadata {
    pub duration: i64,
    pub width: u32,
    pub height: u32,
    pub fps: i64,
    pub codec: String,
    pub bitrate: u64,
    pub file_size: u64,
    pub format: String,
    pub has_audio: bool,
    pub audio_codec: Option<String>,
    pub audio_bitrate: Option<u64>,
}

/// What is known of a video file, as mathematics sees it.
pub struct MetadataView {
    pub duration: int,
    pub width: u32,
    pub height: u32,
    pub fps: int,
    pub codec: Seq<char>,
    pub bitrate: u64,
    pub file_size: u64,
    pub format: Seq<char>,
    pub has_audio: bool,
    pub audio_codec: Option<Seq<char>>,
    pub audio_bitrate: Option<u64>,
}

impl View for VideoMetadata {
    type V = MetadataView;

    open spec fn view(&self) -> MetadataView {
        MetadataView {
            duration: self.duration as int,
            width: self.width,
            height: self.height,
            fps: self.fps as int,
            codec: self.codec@,
            bitrate: self.bitrate,
            file_size: self.file_size,
            format: self.format@,
            has_audio: self.has_audio,
            audio_codec: opt_view(self.audio_codec),
            audio_bitrate: self.audio_bitrate,
        }
    }
}

impl VideoMetadata {
    /// A copy of the metadata.
    pub fn duplicate(&self) -> (r: Self)
        ensures
            r == *self,
    {
        Self {
            duration: self.duration,
            width: self.width,
            height: self.height,
            fps: self.fps,
            codec: self.codec.clone(),
            bitrate: self.bitrate,
            file_size: self.file_size,
            format: self.format.clone(),
            has_audio: self.has_audio,
            audio_codec: clone_opt(&self.audio_codec),
            audio_bitrate: self.audio_bitrate,
        }
    }
}

/// The answer to a request for metadata.
#[derive(Debug, Clone)]
pub struct ExtractMetadataResponse {
    pub success: bool,
    pub metadata: Option<VideoMetadata>,
    pub error_message: Option<String>,
}

/// The texts found in the tool's diagnostics for the fields of the metadata,
/// each where the diagnostics have it.
#[derive(Debug, Clone)]
pub struct ProbeFields {
    pub hours: Option<String>,
    pub minutes: Option<String>,
    pub seconds: Option<String>,
    pub centiseconds: Option<String>,
    pub codec: Option<String>,
    pub width: Option<String>,
    pub height: Option<String>,
    pub fps: Option<String>,
    pub bitrate: Option<String>,
    pub audio_codec: Option<String>,
    pub audio_bitrate: Option<String>,
}

/// The texts found for the fields, as mathematics sees them.
pub struct ProbeFieldsView {
    pub hours: Option<Seq<char>>,
    pub minutes: Option<Seq<char>>,
    pub seconds: Option<Seq<char>>,
    pub centiseconds: Option<Seq<char>>,
    pub codec: Option<Seq<char>>,
    pub width: Option<Seq<char>>,
    pub height: Option<Seq<char>>,
    pub fps: Option<Seq<char>>,
    pub bitrate: Option<Seq<char>>,
    pub audio_codec: Option<Seq<char>>,
    pub audio_bitrate: Option<Seq<char>>,
}

impl View for ProbeFields {
    type V = ProbeFieldsView;

    open spec fn view(&self) -> ProbeFieldsView {
        ProbeFieldsView {
            hours: opt_view(self.hours),
            minutes: opt_view(self.minutes),
            seconds: opt_view(self.seconds),
            centiseconds: opt_view(self.centiseconds),
            codec: opt_view(self.codec),
            width: opt_view(self.width),
            height: opt_view(self.height),
            fps: opt_view(self.fps),
            bitrate: opt_view(self.bitrate),
            audio_codec: opt_view(self.audio_codec),
            audio_bitrate: opt_view(self.audio_bitrate),
        }
    }
}

/// The number that a field writes, and nothing where it is missing or cannot
/// be read.
pub open spec fn number_or_zero(field: Option<Seq<char>>) -> nat {
    match field {
        Some(s) => match parse_u64_spec(s) {
            Some(v) => v as nat,
            None => 0,
        },
        None => 0,
    }
}

/// A thousand times `v`, and the largest number there is where that does not
/// fit.
pub open spec fn kilo(v: u64) -> u64 {
    if v * 1000 > u64::MAX {
        u64::MAX
    } else {
        (v * 1000) as u64
    }
}

/// The duration that the four fields of a duration stand for, in millionths
/// of a second, brought into the range of an `i64`.
pub open spec fn duration_of(f: ProbeFieldsView) -> int {
    clamp_i64(
        ((number_or_zero(f.hours) * 3600 + number_or_zero(f.minutes) * 60 + number_or_zero(
            f.seconds,
        )) * 1_000_000 + number_or_zero(f.centiseconds) * 10_000) as int,
    )
}

/// The metadata that the fields give, or what is missing: the duration and
/// the video stream have to be there; sizes, rates and the bit rate that are
/// missing or cannot be read count as nothing; sound is described only where
/// there is sound.
pub open spec fn metadata_spec(
    f: ProbeFieldsView,
    has_audio: bool,
    format: Seq<char>,
    file_size: u64,
) -> Result<MetadataView, Seq<char>> {
    if f.hours is None {
        Err("Could not extract duration from FFmpeg output"@)
    } else if f.codec is None {
        Err("Could not extract video stream info from FFmpeg output"@)
    } else {
        Ok(
            MetadataView {
                duration: duration_of(f),
                width: match f.width {
                    Some(s) => match parse_u32_spec(s) {
                        Some(v) => v,
                        None => 0,
                    },
                    None => 0,
                },
                height: match f.height {
                    Some(s) => match parse_u32_spec(s) {
                        Some(v) => v,
                        None => 0,
                    },
                    None => 0,
                },
                fps: match f.fps {
                    Some(s) => match parse_micros_spec(s) {
                        Some(v) => v as int,
                        None => 0,
                    },
                    None => 0,
                },
                codec: f.codec->0,
                bitrate: kilo(number_or_zero(f.bitrate) as u64),
                file_size,
                format,
                has_audio,
                audio_codec: if has_audio {
                    f.audio_codec
                } else {
                    None
                },
                audio_bitrate: if has_audio {
                    match f.audio_bitrate {
                        Some(s) => match parse_u64_spec(s) {
                            Some(v) => Some(kilo(v)),
                            None => None,
                        },
                        None => None,
                    }
                } else {
                    None
                },
            },
        )
    }
}

fn read_number(field: &Option<String>) -> (r: u64)
    ensures
        r == number_or_zero(opt_view(*field)),
{
    match field {
        Some(s) => match parse_u64(s.as_str()) {
            Some(v) => v,
            None => 0,
        },
        None => 0,
    }
}

fn read_size(field: &Option<String>) -> (r: u32)
    ensures
        r == match opt_view(*field) {
            Some(s) => match parse_u32_spec(s) {
                Some(v) => v,
                None => 0,
            },
            None => 0,
        },
{
    match field {
        Some(s) => match parse_u32(s.as_str()) {
            Some(v) => v,
            None => 0,
        },
        None => 0,
    }
}

fn times_thousand(v: u64) -> (r: u64)
    ensures
        r == kilo(v),
{
    if v > u64::MAX / 1000 {
        u64::MAX
    } else {
        v * 1000
    }
}

/// A result of metadata, as mathematics sees it.
pub open spec fn metadata_result_view(r: CommandResult<VideoMetadata>) -> Result<
    MetadataView,
    Seq<char>,
> {
    match r {
        Ok(m) => Ok(m@),
        Err(e) => Err(e.message@),
    }
}

/// The metadata that the fields found in the tool's diagnostics give, for a
/// file of the given format and size that has sound or not.
pub fn metadata_from_fields(fields: &ProbeFields, has_audio: bool, format: String, file_size: u64)
    -> (r: CommandResult<VideoMetadata>)
    ensures
        metadata_result_view(r) == metadata_spec(fields@, has_audio, format@, file_size),
        r matches Err(e) ==> e.error_type@ == "ffmpeg_error"@,
{
    if fields.hours.is_none() {
        return Err(
            CommandError::ffmpeg_error(
                String::from_str("Could not extract duration from FFmpeg output"),
            ),
        );
    }
    let codec = match &fields.codec {
        Some(c) => c.clone(),
        None => {
            return Err(
                CommandError::ffmpeg_error(
                    String::from_str("Could not extract video stream info from FFmpeg output"),
                ),
            );
        },
    };
    let whole: u128 = read_number(&fields.hours) as u128 * 3600 + read_number(&fields.minutes) as u128 * 60
        + read_number(&fields.seconds) as u128;
    let micros: u128 = whole * 1_000_000 + read_number(&fields.centiseconds) as u128 * 10_000;
    let duration: i64 = if micros > i64::MAX as u128 {
        i64::MAX
    } else {
        micros as i64
    };
    let fps: i64 = match &fields.fps {
        Some(s) => match parse_micros(s.as_str()) {
            Some(v) => v,
            None => 0,
        },
        None => 0,
    };
    let audio_bitrate: Option<u64> = if has_audio {
        match &fields.audio_bitrate {
            Some(s) => match parse_u64(s.as_str()) {
                Some(v) => Some(times_thousand(v)),
                None => None,
            },
            None => None,
        }
    } else {
        None
    };
    Ok(
        VideoMetadata {
            duration,
            width: read_size(&fields.width),
            height: read_size(&fields.height),
            fps,
            codec,
            bitrate: times_thousand(read_number(&fields.bitrate)),
            file_size,
            format,
            has_audio,
            audio_codec: if has_audio {
                clone_opt(&fields.audio_codec)
            } else {
                None
            },
            audio_bitrate,
        },
    )
}

/// The texts that the tool's diagnostics have for the fields of the
/// metadata, each found by its own pattern.
pub open spec fn probe_fields_spec(stderr: Seq<char>) -> ProbeFieldsView {
    ProbeFieldsView {
        hours: regex_capture("Duration: (\\d{2}):(\\d{2}):(\\d{2})\\.(\\d{2})"@, stderr, 1),
        minutes: regex_capture("Duration: (\\d{2}):(\\d{2}):(\\d{2})\\.(\\d{2})"@, stderr, 2),
        seconds: regex_capture("Duration: (\\d{2}):(\\d{2}):(\\d{2})\\.(\\d{2})"@, stderr, 3),
        centiseconds: regex_capture("Duration: (\\d{2}):(\\d{2}):(\\d{2})\\.(\\d{2})"@, stderr, 4),
        codec: regex_capture(
            "Stream #\\d+:\\d+.*Video: (\\w+).*?(\\d+)x(\\d+).*?(\\d+(?:\\.\\d+)?) fps"@,
            stderr,
            1,
        ),
        width: regex_capture(
            "Stream #\\d+:\\d+.*Video: (\\w+).*?(\\d+)x(\\d+).*?(\\d+(?:\\.\\d+)?) fps"@,
            stderr,
            2,
        ),
        height: regex_capture(
            "Stream #\\d+:\\d+.*Video: (\\w+).*?(\\d+)x(\\d+).*?(\\d+(?:\\.\\d+)?) fps"@,
            stderr,
            3,
        ),
        fps: regex_capture(
            "Stream #\\d+:\\d+.*Video: (\\w+).*?(\\d+)x(\\d+).*?(\\d+(?:\\.\\d+)?) fps"@,
            stderr,
            4,
        ),
        bitrate: regex_capture("bitrate: (\\d+) kb/s"@, stderr, 1),
        audio_codec: regex_capture("Audio: (\\w+)"@, stderr, 1),
        audio_bitrate: regex_capture("Audio:.*?(\\d+) kb/s"@, stderr, 1),
    }
}

/// The texts that the tool's diagnostics have for the fields of the metadata.
pub fn probe_fields(stderr: &str) -> (r: ProbeFields)
    ensures
        r@ == probe_fields_spec(stderr@),
{
    ProbeFields {
        hours: capture("Duration: (\\d{2}):(\\d{2}):(\\d{2})\\.(\\d{2})", stderr, 1),
        minutes: capture("Duration: (\\d{2}):(\\d{2}):(\\d{2})\\.(\\d{2})", stderr, 2),
        seconds: capture("Duration: (\\d{2}):(\\d{2}):(\\d{2})\\.(\\d{2})", stderr, 3),
        centiseconds: capture("Duration: (\\d{2}):(\\d{2}):(\\d{2})\\.(\\d{2})", stderr, 4),
        codec: capture(
            "Stream #\\d+:\\d+.*Video: (\\w+).*?(\\d+)x(\\d+).*?(\\d+(?:\\.\\d+)?) fps",
            stderr,
            1,
        ),
        width: capture(
            "Stream #\\d+:\\d+.*Video: (\\w+).*?(\\d+)x(\\d+).*?(\\d+(?:\\.\\d+)?) fps",
            stderr,
            2,
        ),
        height: capture(
            "Stream #\\d+:\\d+.*Video: (\\w+).*?(\\d+)x(\\d+).*?(\\d+(?:\\.\\d+)?) fps",
            stderr,
            3,
        ),
        fps: capture(
            "Stream #\\d+:\\d+.*Video: (\\w+).*?(\\d+)x(\\d+).*?(\\d+(?:\\.\\d+)?) fps",
            stderr,
            4,
        ),
        bitrate: capture("bitrate: (\\d+) kb/s", stderr, 1),
        audio_codec: capture("Audio: (\\w+)", stderr, 1),
        audio_bitrate: capture("Audio:.*?(\\d+) kb/s", stderr, 1),
    }
}

/// The format that a file's name tells of: its extension in lower case, and
/// `unknown` where it has none.
pub open spec fn format_of(file_path: Seq<char>) -> Seq<char> {
    match lower_extension(file_path) {
        Some(e) => e,
        None => "unknown"@,
    }
}

/// The metadata of a file of the given size, read out of what the tool wrote
/// to its diagnostic stream when it was run on the file.
pub fn extract_metadata_from_ffmpeg_output(stderr: &str, file_path: &str, file_size: u64) -> (r:
    CommandResult<VideoMetadata>)
    ensures
        metadata_result_view(r) == metadata_spec(
            probe_fields_spec(stderr@),
            has_infix(stderr@, "Audio:"@),
            format_of(file_path@),
            file_size,
        ),
        r matches Err(e) ==> e.error_type@ == "ffmpeg_error"@,
{
    let fields = probe_fields(stderr);
    let format = match lower_extension_of(file_path) {
        Some(e) => e,
        None => String::from_str("unknown"),
    };
    let has_audio = contains(stderr, "Audio:");
    metadata_from_fields(&fields, has_audio, format, file_size)
}

/// The arguments that ask the tool to read a file through, which makes it
/// write what it knows of the file to its diagnostic stream.
pub fn probe_args(file_path: &str) -> (r: Vec<String>)
    ensures
        views(r@) == seq!["-i"@, file_path@, "-f"@, "null"@, "-"@],
{
    let mut args: Vec<String> = Vec::new();
    assert(views(args@) =~= Seq::<Seq<char>>::empty());
    push_text(&mut args, "-i");
    push_text(&mut args, file_path);
    push_text(&mut args, "-f");
    push_text(&mut args, "null");
    push_text(&mut args, "-");
    assert(views(args@) =~= seq!["-i"@, file_path@, "-f"@, "null"@, "-"@]);
    args
}

/// The error that the tool failed to read a file, with what it wrote to its
/// diagnostic stream.
pub fn probe_failure(stderr: &str) -> (r: CommandError)
    ensures
        r.is("ffmpeg_error"@, "FFmpeg probe failed: "@ + stderr@),
{
    let mut m = String::from_str("FFmpeg probe failed: ");
    m.append(stderr);
    CommandError::ffmpeg_error(m)
}

/// The answer to a request for metadata: the metadata where it could be
/// read, what went wrong otherwise.
pub fn metadata_response(result: CommandResult<VideoMetadata>) -> (r: ExtractMetadataResponse)
    ensures
        r.success == (result is Ok),
        result matches Ok(m) ==> r.metadata == Some(m) && r.error_message is None,
        result matches Err(e) ==> r.metadata is None && r.error_message == Some(e.message),
{
    match result {
        Ok(metadata) => ExtractMetadataResponse {
            success: true,
            metadata: Some(metadata),
            error_message: None,
        },
        Err(error) => ExtractMetadataResponse {
            success: false,
            metadata: None,
            error_message: Some(error.message),
        },
    }
}

/// The frames per second that a rate written as a fraction stands for, in
/// millionths: numerator and denominator are unsigned decimal numbers with a
/// slash between them; anything else, and a denominator of nothing, count as
/// no frames.
pub open spec fn fps_spec(text: Seq<char>) -> int {
    let i = index_of(text, '/');
    if i >= text.len() {
        0
    } else {
        match (parse_micros_spec(text.take(i)), parse_micros_spec(text.skip(i + 1))) {
            (Some(n), Some(d)) => if d != 0 {
                clamp_i64(n * 1_000_000 / (d as int))
            } else {
                0
            },
            _ => 0,
        }
    }
}

/// The frames per second that a rate written as a fraction, `30000/1001`,
/// stands for, in millionths.
pub fn parse_fps(fps_str: &str) -> (r: i64)
    ensures
        r == fps_spec(fps_str@),
{
    let cs = chars_of(fps_str);
    let i = find_char(&cs, 0, '/');
    assert(cs@.skip(0) =~= cs@);
    if i >= cs.len() {
        return 0;
    }
    let mut num: Vec<char> = Vec::new();
    let mut k: usize = 0;
    while k < i
        invariant
            k <= i < cs.len(),
            num@ == cs@.take(k as int),
        decreases i - k,
    {
        num.push(cs[k]);
        assert(num@ =~= cs@.take(k + 1));
        k += 1;
    }
    let mut den: Vec<char> = Vec::new();
    let mut k: usize = i + 1;
    while k < cs.len()
        invariant
            i + 1 <= k <= cs.len(),
            den@ == cs@.subrange(i + 1, k as int),
        decreases cs.len() - k,
    {
        den.push(cs[k]);
        assert(den@ =~= cs@.subrange(i + 1, k + 1));
        k += 1;
    }
    assert(den@ =~= cs@.skip(i + 1));
    match (parse_micros_chars(&num), parse_micros_chars(&den)) {
        (Some(n), Some(d)) => {
            if d != 0 {
                let q: i128 = n as i128 * 1_000_000 / d as i128;
                if q > i64::MAX as i128 {
                    i64::MAX
                } else {
                    q as i64
                }
            } else {
                0
            }
        },
        _ => 0,
    }
}

/// The first line of a text, and `Unknown version` for a text without lines.
pub open spec fn first_line(text: Seq<char>) -> Seq<char> {
    if text.len() == 0 {
        "Unknown version"@
    } else {
        let line = text.take(index_of(text, '\n'));
        if line.len() > 0 && line.last() == '\r' {
            line.drop_last()
        } else {
            line
        }
    }
}

/// The line in which the tool names its version: the first line of what it
/// writes when asked for it.
pub fn version_line(stdout: &str) -> (r: String)
    ensures
        r@ == first_line(stdout@),
{
    let cs = chars_of(stdout);
    if cs.len() == 0 {
        return String::from_str("Unknown version");
    }
    let end = find_char(&cs, 0, '\n');
    assert(cs@.skip(0) =~= cs@);
    let stop: usize = if end > 0 && cs[end - 1] == '\r' {
        end - 1
    } else {
        end
    };
    let r = String::from_str(stdout.substring_char(0, stop));
    assert(r@ =~= first_line(stdout@));
    r
}

} // verus!
