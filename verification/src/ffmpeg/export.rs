//! The data of an export: clips, settings, progress and the answer.

use crate::commands::{CommandError, CommandResult};
use crate::paths::{lower_extension, lower_extension_of, opt_view};
use crate::text::{clone_opt, push_text, str_eq, views};
use vstd::prelude::*;
use vstd::string::*;

verus! {

/// One clip of the timeline. Times are in millionths of a second:
/// `start_time` and `duration` place the clip on the timeline, `trim_start`
/// and `trim_end` are the in and out points in the source file.
#[derive(Debug, Clone)]
pub struct ExportClip {
    pub file_path: String,
    pub start_time: i64,
    pub duration: i64,
    pub trim_start: i64,
    pub trim_end: i64,
    pub track_id: String,
    pub trimmed_file_path: Option<String>,
}

/// What a clip is, as mathematics sees it.
pub struct ClipView {
    pub file_path: Seq<char>,
    pub start_time: int,
    pub duration: int,
    pub trim_start: int,
    pub trim_end: int,
    pub track_id: Seq<char>,
    pub trimmed_file_path: Option<Seq<char>>,
}

impl View for ExportClip {
    type V = ClipView;

    open spec fn view(&self) -> ClipView {
        ClipView {
            file_path: self.file_path@,
            start_time: self.start_time as int,
            duration: self.duration as int,
            trim_start: self.trim_start as int,
            trim_end: self.trim_end as int,
            track_id: self.track_id@,
            trimmed_file_path: opt_view(self.trimmed_file_path),
        }
    }
}

/// The clips of a list, each as mathematics sees it.
pub open spec fn clip_views(clips: Seq<ExportClip>) -> Seq<ClipView> {
    clips.map_values(|c: ExportClip| c@)
}

impl ExportClip {
    /// A copy of the clip.
    pub fn duplicate(&self) -> (r: ExportClip)
        ensures
            r@ == self@,
    {
        ExportClip {
            file_path: self.file_path.clone(),
            start_time: self.start_time,
            duration: self.duration,
            trim_start: self.trim_start,
            trim_end: self.trim_end,
            track_id: self.track_id.clone(),
            trimmed_file_path: clone_opt(&self.trimmed_file_path),
        }
    }
}

/// How the output is to be encoded.
#[derive(Debug, Clone)]
pub struct ExportSettings {
    pub resolution: String,
    pub quality: String,
    pub format: String,
    pub codec: String,
}

/// A request to export clips to one file.
#[derive(Debug, Clone)]
pub struct ExportVideoRequest {
    pub clips: Vec<ExportClip>,
    pub output_path: String,
    pub settings: ExportSettings,
}

/// One progress event. `progress` is in millionths of a percent,
/// `estimated_time_remaining` in millionths of a second, `fps` in millionths
/// of a frame per second and `bitrate` in millionths of a kbit/s.
#[derive(Debug, Clone)]
pub struct ExportProgress {
    pub progress: i64,
    pub current_step: String,
    pub estimated_time_remaining: i64,
    pub error: Option<String>,
    pub current_frame: Option<u64>,
    pub total_frames: Option<u64>,
    pub fps: Option<i64>,
    pub bitrate: Option<i64>,
    pub time: Option<String>,
}

/// The answer to an export request.
#[derive(Debug, Clone)]
pub struct ExportVideoResponse {
    pub success: bool,
    pub output_path: Option<String>,
    pub error_message: Option<String>,
}

/// What is wrong with export settings, if anything: the first of a
/// resolution, a quality, a format and a codec that is not offered.
pub open spec fn settings_issue(
    resolution: Seq<char>,
    quality: Seq<char>,
    format: Seq<char>,
    codec: Seq<char>,
) -> Option<Seq<char>> {
    if !(resolution == "source"@ || resolution == "1080p"@ || resolution == "720p"@) {
        Some("Invalid resolution. Must be 'source', '1080p', or '720p'"@)
    } else if !(quality == "high"@ || quality == "medium"@ || quality == "low"@) {
        Some("Invalid quality. Must be 'high', 'medium', or 'low'"@)
    } else if format != "mp4"@ {
        Some("Invalid format. Only 'mp4' is supported"@)
    } else if codec != "h264"@ {
        Some("Invalid codec. Only 'h264' is supported"@)
    } else {
        None
    }
}

impl ExportSettings {
    /// What is wrong with these settings, if anything.
    pub open spec fn issue(&self) -> Option<Seq<char>> {
        settings_issue(self.resolution@, self.quality@, self.format@, self.codec@)
    }

    /// A copy of the settings.
    pub fn duplicate(&self) -> (r: ExportSettings)
        ensures
            r == *self,
    {
        ExportSettings {
            resolution: self.resolution.clone(),
            quality: self.quality.clone(),
            format: self.format.clone(),
            codec: self.codec.clone(),
        }
    }
}

/// Accepts the settings that the export offers and names what is wrong with
/// any other.
pub fn validate_export_settings(settings: &ExportSettings) -> (r: CommandResult<()>)
    ensures
        r is Ok <==> settings.issue() is None,
        r matches Err(e) ==> e.is("validation_error"@, settings.issue()->0),
{
    let resolution = settings.resolution.as_str();
    if !(str_eq(resolution, "source") || str_eq(resolution, "1080p") || str_eq(
        resolution,
        "720p",
    )) {
        return Err(
            CommandError::validation_error(
                String::from_str("Invalid resolution. Must be 'source', '1080p', or '720p'"),
            ),
        );
    }
    let quality = settings.quality.as_str();
    if !(str_eq(quality, "high") || str_eq(quality, "medium") || str_eq(quality, "low")) {
        return Err(
            CommandError::validation_error(
                String::from_str("Invalid quality. Must be 'high', 'medium', or 'low'"),
            ),
        );
    }
    if !str_eq(settings.format.as_str(), "mp4") {
        return Err(
            CommandError::validation_error(
                String::from_str("Invalid format. Only 'mp4' is supported"),
            ),
        );
    }
    if !str_eq(settings.codec.as_str(), "h264") {
        return Err(
            CommandError::validation_error(
                String::from_str("Invalid codec. Only 'h264' is supported"),
            ),
        );
    }
    Ok(())
}

/// The tool's arguments that scale the picture to a resolution: none for the
/// source's own and for one that is not offered.
pub open spec fn resolution_args(resolution: Seq<char>) -> Seq<Seq<char>> {
    if resolution == "1080p"@ {
        seq!["-vf"@, "scale=1920:1080"@]
    } else if resolution == "720p"@ {
        seq!["-vf"@, "scale=1280:720"@]
    } else {
        Seq::<Seq<char>>::empty()
    }
}

/// The tool's arguments that scale the picture to a resolution.
pub fn get_resolution_args(resolution: &str, _source_width: u32, _source_height: u32) -> (r: Vec<
    String,
>)
    ensures
        views(r@) == resolution_args(resolution@),
{
    let mut args: Vec<String> = Vec::new();
    assert(views(args@) =~= Seq::<Seq<char>>::empty());
    if str_eq(resolution, "1080p") {
        push_text(&mut args, "-vf");
        push_text(&mut args, "scale=1920:1080");
        assert(views(args@) =~= resolution_args(resolution@));
    } else if str_eq(resolution, "720p") {
        push_text(&mut args, "-vf");
        push_text(&mut args, "scale=1280:720");
        assert(views(args@) =~= resolution_args(resolution@));
    }
    args
}

/// The rate factor that stands for a quality: that of medium for one that is
/// not offered.
pub open spec fn quality_rate_factor(quality: Seq<char>) -> Seq<char> {
    if quality == "high"@ {
        "18"@
    } else if quality == "low"@ {
        "28"@
    } else {
        "23"@
    }
}

/// The tool's arguments that set the quality.
pub fn get_quality_args(quality: &str) -> (r: Vec<String>)
    ensures
        views(r@) == seq!["-crf"@, quality_rate_factor(quality@)],
{
    let mut args: Vec<String> = Vec::new();
    assert(views(args@) =~= Seq::<Seq<char>>::empty());
    push_text(&mut args, "-crf");
    if str_eq(quality, "high") {
        push_text(&mut args, "18");
    } else if str_eq(quality, "low") {
        push_text(&mut args, "28");
    } else {
        push_text(&mut args, "23");
    }
    assert(views(args@) =~= seq!["-crf"@, quality_rate_factor(quality@)]);
    args
}

/// Whether the clips can be joined into one file. Any clips can; an empty
/// list cannot.
pub fn check_clip_compatibility(clips: &[ExportClip]) -> (r: CommandResult<()>)
    ensures
        r is Ok <==> clips@.len() > 0,
        r matches Err(e) ==> e.is("validation_error"@, "No clips provided"@),
{
    if clips.len() == 0 {
        return Err(CommandError::validation_error(String::from_str("No clips provided")));
    }
    Ok(())
}

/// The answer to an export request, as mathematics sees it.
pub struct ResponseView {
    pub success: bool,
    pub output_path: Option<Seq<char>>,
    pub error_message: Option<Seq<char>>,
}

impl View for ExportVideoResponse {
    type V = ResponseView;

    open spec fn view(&self) -> ResponseView {
        ResponseView {
            success: self.success,
            output_path: opt_view(self.output_path),
            error_message: opt_view(self.error_message),
        }
    }
}

/// The extension that names the container of a media file: the path's
/// extension in lower case, and `mp4` where it has none.
pub open spec fn media_extension(file_path: Seq<char>) -> Seq<char> {
    match lower_extension(file_path) {
        Some(e) => e,
        None => "mp4"@,
    }
}

/// The extension that names the container of a media file.
pub fn get_file_extension(file_path: &str) -> (r: String)
    ensures
        r@ == media_extension(file_path@),
{
    match lower_extension_of(file_path) {
        Some(e) => e,
        None => String::from_str("mp4"),
    }
}

/// Whether a sub-range of a file with this extension can be cut out by
/// copying its streams, without encoding them anew.
pub open spec fn copy_supported(file_extension: Seq<char>) -> bool {
    file_extension == "mp4"@ || file_extension == "mov"@ || file_extension == "avi"@
        || file_extension == "mkv"@ || file_extension == "webm"@
}

/// Whether a sub-range of a file with this extension can be cut out by
/// copying its streams.
pub fn supports_copy_codec(file_extension: &str) -> (r: bool)
    ensures
        r == copy_supported(file_extension@),
{
    str_eq(file_extension, "mp4") || str_eq(file_extension, "mov") || str_eq(
        file_extension,
        "avi",
    ) || str_eq(file_extension, "mkv") || str_eq(file_extension, "webm")
}

} // verus!
