//! Commands around the export of a timeline: what the editor sends, what it
//! is shown, and the checks made before an export is started.

use crate::commands::{format_file_size as shared_format_file_size, file_size_text, CommandError,
    CommandResult};
use crate::decimal::{magnitude, magnitude_spec, push_tenths, tenths_text};
use crate::ffmpeg::estimate::{
    estimate_export_size, estimate_export_time, export_size_for, export_time_for, total_duration,
    total_duration_spec,
};
use crate::ffmpeg::export::{
    clip_views, validate_export_settings, ClipView, ExportClip, ExportProgress, ExportSettings,
};
use crate::ffmpeg::progress::plain_progress;
use crate::ffmpeg::timeline::{
    lemma_sorted_member, sort_clips_by_timeline_position as sort_export_clips, sorted_clips,
};
use crate::ffmpeg::trim::{clip_label, clip_label_text};
use crate::decimal::{micros_text, push_micros};
use crate::paths::{file_name_of, join, parent_of, path_file_name, path_join, path_parent};
use crate::text::{
    contains, decimal_digits, ends_with, has_infix, has_suffix, push_decimal, push_text, views,
};
use vstd::prelude::*;
use vstd::string::*;

verus! {

/// One clip of the timeline as the editor sends it. Times are in millionths
/// of a second.
#[derive(Debug, Clone)]
pub struct TimelineExportClip {
    pub file_path: String,
    pub start_time: i64,
    pub duration: i64,
    pub trim_start: i64,
    pub trim_end: i64,
    pub track_id: String,
}

impl View for TimelineExportClip {
    type V = ClipView;

    open spec fn view(&self) -> ClipView {
        ClipView {
            file_path: self.file_path@,
            start_time: self.start_time as int,
            duration: self.duration as int,
            trim_start: self.trim_start as int,
            trim_end: self.trim_end as int,
            track_id: self.track_id@,
            trimmed_file_path: None,
        }
    }
}

/// The clips of a list as the editor sends them, each as mathematics sees it.
pub open spec fn timeline_views(clips: Seq<TimelineExportClip>) -> Seq<ClipView> {
    clips.map_values(|c: TimelineExportClip| c@)
}

/// A request to export the timeline to a file `filename` in the directory
/// `output_path`.
#[derive(Debug, Clone)]
pub struct ExportTimelineRequest {
    pub timeline_clips: Vec<TimelineExportClip>,
    pub output_path: String,
    pub filename: String,
    pub settings: ExportSettings,
}

/// A progress event without telemetry. `progress` is in millionths of a
/// percent, `estimated_time_remaining` in millionths of a second.
#[derive(Debug, Clone)]
pub struct ExportProgressUpdate {
    pub progress: i64,
    pub current_step: String,
    pub estimated_time_remaining: i64,
    pub error: Option<String>,
}

/// How far an export has come.
#[derive(Debug, Clone, Copy, PartialEq, Eq, Structural)]
pub enum ExportStatus {
    Preparing,
    Exporting,
    Completed,
    Failed,
    Cancelled,
}

/// What is known of one export. `progress` is in millionths of a percent,
/// `created_at` a time in the form of RFC 3339.
#[derive(Debug, Clone)]
pub struct ExportJob {
    pub id: String,
    pub status: ExportStatus,
    pub progress: i64,
    pub output_path: Option<String>,
    pub error_message: Option<String>,
    pub created_at: String,
}

/// What an export is expected to cost. Times are in millionths of a second.
#[derive(Debug, Clone)]
pub struct ExportEstimate {
    pub estimated_time_seconds: i64,
    pub estimated_file_size_bytes: u64,
    pub total_duration_seconds: i64,
    pub clip_count: usize,
}

/// The result of a check: whether it passed, and what was found.
#[derive(Debug, Clone)]
pub struct ValidationResult {
    pub is_valid: bool,
    pub errors: Vec<String>,
}

/// The clip of the export that stands for a clip as the editor sends it: the
/// same clip, not trimmed yet.
pub fn to_export_clip(clip: &TimelineExportClip) -> (r: ExportClip)
    ensures
        r@ == clip@,
{
    ExportClip {
        file_path: clip.file_path.clone(),
        start_time: clip.start_time,
        duration: clip.duration,
        trim_start: clip.trim_start,
        trim_end: clip.trim_end,
        track_id: clip.track_id.clone(),
        trimmed_file_path: None,
    }
}

/// The clips of the export that stand for the clips as the editor sends them.
pub fn to_export_clips(clips: &[TimelineExportClip]) -> (r: Vec<ExportClip>)
    ensures
        clip_views(r@) == timeline_views(clips@),
{
    let mut out: Vec<ExportClip> = Vec::new();
    let mut i: usize = 0;
    while i < clips.len()
        invariant
            i <= clips.len(),
            out@.len() == i,
            forall|j: int| 0 <= j < i ==> (#[trigger] out@[j])@ == clips@[j]@,
        decreases clips.len() - i,
    {
        out.push(to_export_clip(&clips[i]));
        i += 1;
    }
    assert(clip_views(out@) =~= timeline_views(clips@));
    out
}

/// The name of the output file: the name given, with `.mp4` behind it unless
/// it ends so already.
pub open spec fn export_file_name(filename: Seq<char>) -> Seq<char> {
    if has_suffix(filename, ".mp4"@) {
        filename
    } else {
        filename + ".mp4"@
    }
}

/// The path of the output file in its directory.
pub fn get_export_file_path(output_dir: &str, filename: &str) -> (r: CommandResult<String>)
    ensures
        r matches Ok(p) && p@ == path_join(output_dir@, export_file_name(filename@)),
{
    let mut name = String::from_str(filename);
    if !ends_with(filename, ".mp4") {
        name.append(".mp4");
    }
    Ok(join(output_dir, name.as_str()))
}

/// Checks export settings and reports what was found.
pub fn validate_export_settings_command(settings: &ExportSettings) -> (r: CommandResult<
    ValidationResult,
>)
    ensures
        r matches Ok(v) && v.is_valid == (settings.issue() is None) && views(v.errors@) == (
        match settings.issue() {
            Some(m) => seq![m],
            None => Seq::<Seq<char>>::empty(),
        }),
{
    match validate_export_settings(settings) {
        Ok(_) => {
            let errors: Vec<String> = Vec::new();
            assert(views(errors@) =~= Seq::<Seq<char>>::empty());
            Ok(ValidationResult { is_valid: true, errors })
        },
        Err(e) => {
            let mut errors: Vec<String> = Vec::new();
            errors.push(e.message);
            assert(views(errors@) =~= seq![settings.issue()->0]);
            Ok(ValidationResult { is_valid: false, errors })
        },
    }
}

/// What an export of the request is expected to cost: the time and the size
/// estimated for its clips and settings, the total duration of its clips, and
/// their number.
pub fn estimate_export_info(request: &ExportTimelineRequest) -> (r: CommandResult<ExportEstimate>)
    ensures
        r matches Ok(e) && e.clip_count == request.timeline_clips@.len()
            && e.total_duration_seconds == total_duration_spec(
            timeline_views(request.timeline_clips@),
        ) && e.estimated_time_seconds == export_time_for(
            total_duration_spec(timeline_views(request.timeline_clips@)),
            request.settings.resolution@,
            request.settings.quality@,
        ) && e.estimated_file_size_bytes == export_size_for(
            total_duration_spec(timeline_views(request.timeline_clips@)),
            request.settings.resolution@,
            request.settings.quality@,
        ),
{
    let given = request.timeline_clips.as_slice();
    assert(given@ == request.timeline_clips@);
    let clips = to_export_clips(given);
    let ordered = clips.as_slice();
    assert(ordered@ == clips@);
    Ok(
        ExportEstimate {
            estimated_time_seconds: estimate_export_time(ordered, &request.settings),
            estimated_file_size_bytes: estimate_export_size(ordered, &request.settings),
            total_duration_seconds: total_duration(ordered),
            clip_count: clips.len(),
        },
    )
}

/// What is wrong with the directory of an output path, given what the file
/// system says of it.
pub open spec fn export_dir_issue(output_path: Seq<char>, dir_exists: bool, dir_is_dir: bool)
    -> Option<Seq<char>> {
    if path_parent(output_path) is None {
        Some("Invalid output path"@)
    } else if !dir_exists {
        Some("Output directory does not exist"@)
    } else if !dir_is_dir {
        Some("Output path is not a directory"@)
    } else {
        None
    }
}

/// What is wrong with the file name of an output path.
pub open spec fn export_name_issue(output_path: Seq<char>) -> Option<Seq<char>> {
    match path_file_name(output_path) {
        None => Some("No filename provided"@),
        Some(name) => if name.len() == 0 {
            Some("Filename cannot be empty"@)
        } else if has_infix(name, "/"@) || has_infix(name, "\\"@) {
            Some("Filename cannot contain path separators"@)
        } else {
            None
        },
    }
}

/// Everything that is wrong with an output path: with its directory, that
/// the file is there already, and with its file name, in this order.
pub open spec fn export_path_issues(
    output_path: Seq<char>,
    dir_exists: bool,
    dir_is_dir: bool,
    file_exists: bool,
) -> Seq<Seq<char>> {
    let a = match export_dir_issue(output_path, dir_exists, dir_is_dir) {
        Some(m) => seq![m],
        None => Seq::<Seq<char>>::empty(),
    };
    let b = if file_exists {
        seq!["Output file already exists"@]
    } else {
        Seq::<Seq<char>>::empty()
    };
    let c = match export_name_issue(output_path) {
        Some(m) => seq![m],
        None => Seq::<Seq<char>>::empty(),
    };
    a + b + c
}

/// Checks an output path. `dir_exists` and `dir_is_dir` are what the file
/// system says of the path's parent, `file_exists` what it says of the path.
pub fn validate_export_path(
    output_path: &str,
    dir_exists: bool,
    dir_is_dir: bool,
    file_exists: bool,
) -> (r: CommandResult<ValidationResult>)
    ensures
        r matches Ok(v) && views(v.errors@) == export_path_issues(
            output_path@,
            dir_exists,
            dir_is_dir,
            file_exists,
        ) && v.is_valid == (v.errors@.len() == 0),
{
    let mut errors: Vec<String> = Vec::new();
    assert(views(errors@) =~= Seq::<Seq<char>>::empty());
    match parent_of(output_path) {
        Some(_) => {
            if !dir_exists {
                push_text(&mut errors, "Output directory does not exist");
            } else if !dir_is_dir {
                push_text(&mut errors, "Output path is not a directory");
            }
        },
        None => {
            push_text(&mut errors, "Invalid output path");
        },
    }
    if file_exists {
        push_text(&mut errors, "Output file already exists");
    }
    match file_name_of(output_path) {
        Some(name) => {
            if name.as_str().unicode_len() == 0 {
                push_text(&mut errors, "Filename cannot be empty");
            } else if contains(name.as_str(), "/") || contains(name.as_str(), "\\") {
                push_text(&mut errors, "Filename cannot contain path separators");
            }
        },
        None => {
            push_text(&mut errors, "No filename provided");
        },
    }
    assert(views(errors@) =~= export_path_issues(
        output_path@,
        dir_exists,
        dir_is_dir,
        file_exists,
    ));
    let is_valid = errors.len() == 0;
    Ok(ValidationResult { is_valid, errors })
}

/// The event that an export was cancelled by the user.
pub fn cancel_progress() -> (r: ExportProgress)
    ensures
        r@ == plain_progress("Cancelled"@, 0, Some("Export cancelled by user"@)),
{
    ExportProgress {
        progress: 0,
        current_step: String::from_str("Cancelled"),
        estimated_time_remaining: 0,
        error: Some(String::from_str("Export cancelled by user")),
        current_frame: None,
        total_frames: None,
        fps: None,
        bitrate: None,
        time: None,
    }
}

/// The status of an export that is not running: idle, at nothing.
pub fn get_export_status(_export_id: &str) -> (r: CommandResult<ExportProgress>)
    ensures
        r matches Ok(p) && p@ == plain_progress("Idle"@, 0, None),
{
    Ok(
        ExportProgress {
            progress: 0,
            current_step: String::from_str("Idle"),
            estimated_time_remaining: 0,
            error: None,
            current_frame: None,
            total_frames: None,
            fps: None,
            bitrate: None,
            time: None,
        },
    )
}

/// A size in bytes, for people to read.
pub fn format_file_size(bytes: u64) -> (r: String)
    ensures
        r@ == file_size_text(bytes as nat),
{
    shared_format_file_size(bytes)
}

/// A number below a hundred in two digits, any other as it is.
pub open spec fn two_digits(n: nat) -> Seq<char> {
    if n < 10 {
        "0"@ + decimal_digits(n)
    } else {
        decimal_digits(n)
    }
}

fn push_two_digits(out: &mut String, n: u64)
    ensures
        final(out)@ == old(out)@ + two_digits(n as nat),
{
    let ghost before = out@;
    if n < 10 {
        out.append("0");
    }
    push_decimal(out, n as u128);
    assert(out@ =~= before + two_digits(n as nat));
}

/// The whole seconds of a duration in millionths of a second: none for a
/// negative one.
pub open spec fn whole_seconds(micros: int) -> nat {
    if micros <= 0 {
        0
    } else {
        (micros / 1_000_000) as nat
    }
}

/// A duration as a clock shows it: minutes and seconds, with the hours in
/// front where there are any.
pub open spec fn duration_text(micros: int) -> Seq<char> {
    let s = whole_seconds(micros);
    let hours = if s / 3600 > u32::MAX {
        u32::MAX as nat
    } else {
        s / 3600
    };
    if hours > 0 {
        two_digits(hours) + ":"@ + two_digits(s % 3600 / 60) + ":"@ + two_digits(s % 60)
    } else {
        two_digits(s % 3600 / 60) + ":"@ + two_digits(s % 60)
    }
}

/// A duration in millionths of a second as a clock shows it.
pub fn format_duration(seconds: i64) -> (r: String)
    ensures
        r@ == duration_text(seconds as int),
{
    let s: u64 = if seconds <= 0 {
        0
    } else {
        (seconds / 1_000_000) as u64
    };
    let hours: u64 = if s / 3600 > u32::MAX as u64 {
        u32::MAX as u64
    } else {
        s / 3600
    };
    let mut out = String::new();
    if hours > 0 {
        push_two_digits(&mut out, hours);
        out.append(":");
    }
    push_two_digits(&mut out, s % 3600 / 60);
    out.append(":");
    push_two_digits(&mut out, s % 60);
    assert(out@ =~= duration_text(seconds as int));
    out
}

/// `n / d` rounded to the nearest whole number, a half to the even one.
pub open spec fn rounded_div(n: nat, d: nat) -> nat {
    let q = n / d;
    let r = n % d;
    if 2 * r > d || (2 * r == d && q % 2 == 1) {
        q + 1
    } else {
        q
    }
}

fn round_div(n: u128, d: u128) -> (r: u128)
    requires
        0 < d <= 0xffff_ffff_ffff_ffff,
        n <= 0xffff_ffff_ffff_ffff_ffff,
    ensures
        r == rounded_div(n as nat, d as nat),
{
    let q = n / d;
    let rem = n % d;
    if 2 * rem > d || (2 * rem == d && q % 2 == 1) {
        q + 1
    } else {
        q
    }
}

/// An estimated time for people to read: in seconds below a minute, in
/// minutes with one digit after the point below an hour, in hours with one
/// digit after the point from there on.
pub open spec fn estimated_time_text(micros: int) -> Seq<char> {
    let sign = if micros < 0 {
        "-"@
    } else {
        Seq::<char>::empty()
    };
    let m = magnitude_spec(micros);
    if micros < 60_000_000 {
        sign + decimal_digits(rounded_div(m, 1_000_000)) + " seconds"@
    } else if micros < 3_600_000_000 {
        tenths_text(rounded_div(m * 10, 60_000_000)) + " minutes"@
    } else {
        tenths_text(rounded_div(m * 10, 3_600_000_000)) + " hours"@
    }
}

/// An estimated time in millionths of a second, for people to read.
pub fn format_estimated_time(seconds: i64) -> (r: String)
    ensures
        r@ == estimated_time_text(seconds as int),
{
    let m = magnitude(seconds as i128);
    let mut out = String::new();
    if seconds < 60_000_000 {
        if seconds < 0 {
            out.append("-");
        }
        push_decimal(&mut out, round_div(m, 1_000_000));
        out.append(" seconds");
    } else if seconds < 3_600_000_000 {
        push_tenths(&mut out, round_div(m * 10, 60_000_000) as u64);
        out.append(" minutes");
    } else {
        let t = round_div(m * 10, 3_600_000_000);
        assert(t <= u64::MAX);
        push_tenths(&mut out, t as u64);
        out.append(" hours");
    }
    assert(out@ =~= estimated_time_text(seconds as int));
    out
}

/// The settings an export starts from: the source's resolution, medium
/// quality, MP4 and H.264.
pub fn get_default_export_settings() -> (r: ExportSettings)
    ensures
        r.resolution@ == "source"@,
        r.quality@ == "medium"@,
        r.format@ == "mp4"@,
        r.codec@ == "h264"@,
        r.issue() is None,
{
    ExportSettings {
        resolution: String::from_str("source"),
        quality: String::from_str("medium"),
        format: String::from_str("mp4"),
        codec: String::from_str("h264"),
    }
}

/// The resolutions an export offers.
pub fn get_available_resolutions() -> (r: Vec<String>)
    ensures
        views(r@) == seq!["source"@, "1080p"@, "720p"@],
{
    let mut v: Vec<String> = Vec::new();
    assert(views(v@) =~= Seq::<Seq<char>>::empty());
    push_text(&mut v, "source");
    push_text(&mut v, "1080p");
    push_text(&mut v, "720p");
    assert(views(v@) =~= seq!["source"@, "1080p"@, "720p"@]);
    v
}

/// The qualities an export offers.
pub fn get_available_qualities() -> (r: Vec<String>)
    ensures
        views(r@) == seq!["high"@, "medium"@, "low"@],
{
    let mut v: Vec<String> = Vec::new();
    assert(views(v@) =~= Seq::<Seq<char>>::empty());
    push_text(&mut v, "high");
    push_text(&mut v, "medium");
    push_text(&mut v, "low");
    assert(views(v@) =~= seq!["high"@, "medium"@, "low"@]);
    v
}

/// Whether there is something to export: at least one clip, and every clip
/// with a file and a positive duration.
pub open spec fn can_export(clips: Seq<ClipView>) -> bool {
    clips.len() > 0 && forall|i: int|
        0 <= i < clips.len() ==> (#[trigger] clips[i]).file_path.len() > 0 && clips[i].duration
            > 0
}

/// Whether there is something to export.
pub fn can_export_timeline(clips: &[TimelineExportClip]) -> (r: bool)
    ensures
        r == can_export(timeline_views(clips@)),
{
    if clips.len() == 0 {
        return false;
    }
    let ghost all = timeline_views(clips@);
    let mut i: usize = 0;
    while i < clips.len()
        invariant
            i <= clips.len(),
            all == timeline_views(clips@),
            forall|j: int|
                0 <= j < i ==> (#[trigger] all[j]).file_path.len() > 0 && all[j].duration > 0,
        decreases clips.len() - i,
    {
        let clip = &clips[i];
        assert(all[i as int] == clip@);
        if clip.file_path.as_str().unicode_len() == 0 || clip.duration <= 0 {
            return false;
        }
        i += 1;
    }
    true
}

/// The clips sorted by start time; clips that start together keep the order
/// in which they came.
pub fn sort_clips_by_timeline_position(clips: Vec<TimelineExportClip>) -> (r: Vec<
    TimelineExportClip,
>)
    ensures
        timeline_views(r@) == sorted_clips(timeline_views(clips@), false),
{
    let given = clips.as_slice();
    assert(given@ == clips@);
    let converted = to_export_clips(given);
    let ordered = converted.as_slice();
    assert(ordered@ == converted@);
    let sorted = sort_export_clips(ordered);
    let ghost target = sorted_clips(timeline_views(clips@), false);
    let mut out: Vec<TimelineExportClip> = Vec::new();
    let mut i: usize = 0;
    while i < sorted.len()
        invariant
            i <= sorted.len(),
            clip_views(sorted@) == target,
            target == sorted_clips(timeline_views(clips@), false),
            out@.len() == i,
            forall|j: int| 0 <= j < i ==> (#[trigger] out@[j])@ == target[j],
        decreases sorted.len() - i,
    {
        let c = &sorted[i];
        proof {
            assert(target[i as int] == c@);
            lemma_sorted_member(timeline_views(clips@), false, i as int);
            let k = choose|k: int|
                0 <= k < timeline_views(clips@).len() && timeline_views(clips@)[k] == target[i as int];
            assert(timeline_views(clips@)[k] == clips@[k]@);
        }
        out.push(
            TimelineExportClip {
                file_path: c.file_path.clone(),
                start_time: c.start_time,
                duration: c.duration,
                trim_start: c.trim_start,
                trim_end: c.trim_end,
                track_id: c.track_id.clone(),
            },
        );
        i += 1;
    }
    assert(timeline_views(out@) =~= target);
    out
}

/// What is wrong with one clip as the editor sends it: the first of no file,
/// a duration that is not positive, a negative trim start, and a trim window
/// that ends at or before its start.
pub open spec fn timeline_clip_issue(clip: ClipView, index: nat) -> Option<Seq<char>> {
    if clip.file_path.len() == 0 {
        Some(clip_label(index) + " has empty file path"@)
    } else if clip.duration <= 0 {
        Some(clip_label(index) + " has invalid duration: "@ + micros_text(clip.duration))
    } else if clip.trim_start < 0 {
        Some(clip_label(index) + " has negative trim start: "@ + micros_text(clip.trim_start))
    } else if clip.trim_end <= clip.trim_start {
        Some(
            clip_label(index) + " has invalid trim range: "@ + micros_text(clip.trim_start)
                + " to "@ + micros_text(clip.trim_end),
        )
    } else {
        None
    }
}

/// The first issue among the clips from index `from` on.
pub open spec fn first_timeline_clip_issue(clips: Seq<ClipView>, from: int) -> Option<Seq<char>>
    decreases clips.len() - from,
{
    if from < 0 || from >= clips.len() {
        None
    } else if timeline_clip_issue(clips[from], from as nat) is Some {
        timeline_clip_issue(clips[from], from as nat)
    } else {
        first_timeline_clip_issue(clips, from + 1)
    }
}

/// What is wrong with the clips as the editor sends them: that there is none,
/// or the first issue of the first clip that has one.
pub open spec fn timeline_clips_issue(clips: Seq<ClipView>) -> Option<Seq<char>> {
    if clips.len() == 0 {
        Some("No clips to export"@)
    } else {
        first_timeline_clip_issue(clips, 0)
    }
}

/// Checks the clips as the editor sends them.
pub fn validate_timeline_clips(clips: &[TimelineExportClip]) -> (r: CommandResult<()>)
    ensures
        r is Ok <==> timeline_clips_issue(timeline_views(clips@)) is None,
        r matches Err(e) ==> e.is(
            "validation_error"@,
            timeline_clips_issue(timeline_views(clips@))->0,
        ),
{
    if clips.len() == 0 {
        return Err(CommandError::validation_error(String::from_str("No clips to export")));
    }
    let ghost all = timeline_views(clips@);
    let mut index: usize = 0;
    while index < clips.len()
        invariant
            index <= clips.len(),
            all == timeline_views(clips@),
            first_timeline_clip_issue(all, 0) == first_timeline_clip_issue(all, index as int),
        decreases clips.len() - index,
    {
        let clip = &clips[index];
        assert(all[index as int] == clip@);
        if clip.file_path.as_str().unicode_len() == 0 {
            let mut m = clip_label_text(index);
            m.append(" has empty file path");
            return Err(CommandError::validation_error(m));
        }
        if clip.duration <= 0 {
            let mut m = clip_label_text(index);
            m.append(" has invalid duration: ");
            push_micros(&mut m, clip.duration as i128);
            return Err(CommandError::validation_error(m));
        }
        if clip.trim_start < 0 {
            let mut m = clip_label_text(index);
            m.append(" has negative trim start: ");
            push_micros(&mut m, clip.trim_start as i128);
            return Err(CommandError::validation_error(m));
        }
        if clip.trim_end <= clip.trim_start {
            let mut m = clip_label_text(index);
            m.append(" has invalid trim range: ");
            push_micros(&mut m, clip.trim_start as i128);
            m.append(" to ");
            push_micros(&mut m, clip.trim_end as i128);
            return Err(CommandError::validation_error(m));
        }
        index += 1;
    }
    Ok(())
}

} // verus!
