//! Progress events, and reading them out of the tool's diagnostic lines.

use crate::commands::{CommandError, CommandResult};
use crate::decimal::{find_char, index_of, parse_micros_chars, parse_micros_spec};
use crate::ffmpeg::estimate::div_to_zero;
use crate::ffmpeg::export::ExportProgress;
use crate::ffmpeg::timeline::clamp_i64;
use crate::paths::opt_view;
use crate::pattern::{capture, regex_capture};
use crate::text::{chars_of, parse_u64, parse_u64_spec};
use vstd::prelude::*;
use vstd::string::*;

verus! {

/// A progress event, as mathematics sees it.
pub struct ProgressView {
    pub progress: int,
    pub current_step: Seq<char>,
    pub estimated_time_remaining: int,
    pub error: Option<Seq<char>>,
    pub current_frame: Option<u64>,
    pub total_frames: Option<u64>,
    pub fps: Option<i64>,
    pub bitrate: Option<i64>,
    pub time: Option<Seq<char>>,
}

impl View for ExportProgress {
    type V = ProgressView;

    open spec fn view(&self) -> ProgressView {
        ProgressView {
            progress: self.progress as int,
            current_step: self.current_step@,
            estimated_time_remaining: self.estimated_time_remaining as int,
            error: opt_view(self.error),
            current_frame: self.current_frame,
            total_frames: self.total_frames,
            fps: self.fps,
            bitrate: self.bitrate,
            time: opt_view(self.time),
        }
    }
}

/// The progress of an optional event, as mathematics sees it.
pub open spec fn opt_progress_view(o: Option<ExportProgress>) -> Option<ProgressView> {
    match o {
        Some(p) => Some(p@),
        None => None,
    }
}

/// All of the work, in millionths of a percent.
pub const FULL_PROGRESS: i64 = 100_000_000;

/// An event with a step and a progress and nothing else.
pub open spec fn plain_progress(step: Seq<char>, progress: int, error: Option<Seq<char>>)
    -> ProgressView {
    ProgressView {
        progress,
        current_step: step,
        estimated_time_remaining: 0,
        error,
        current_frame: None,
        total_frames: None,
        fps: None,
        bitrate: None,
        time: None,
    }
}

/// The event that an export has started: preparing, at nothing.
pub fn create_export_start_progress() -> (r: ExportProgress)
    ensures
        r@ == plain_progress("Preparing"@, 0, None),
{
    ExportProgress {
        progress: 0,
        current_step: String::from_str("Preparing"),
        estimated_time_remaining: 0,
        error: None,
        current_frame: None,
        total_frames: None,
        fps: None,
        bitrate: None,
        time: None,
    }
}

/// The event that an export is done: completed, at a hundred percent.
pub fn create_export_complete_progress() -> (r: ExportProgress)
    ensures
        r@ == plain_progress("Completed"@, FULL_PROGRESS as int, None),
{
    ExportProgress {
        progress: FULL_PROGRESS,
        current_step: String::from_str("Completed"),
        estimated_time_remaining: 0,
        error: None,
        current_frame: None,
        total_frames: None,
        fps: None,
        bitrate: None,
        time: None,
    }
}

/// The event that an export has failed, with what went wrong.
pub fn create_export_error_progress(error_message: String) -> (r: ExportProgress)
    ensures
        r@ == plain_progress("Failed"@, 0, Some(error_message@)),
{
    ExportProgress {
        progress: 0,
        current_step: String::from_str("Failed"),
        estimated_time_remaining: 0,
        error: Some(error_message),
        current_frame: None,
        total_frames: None,
        fps: None,
        bitrate: None,
        time: None,
    }
}

/// The three parts of a time of day written as hours, minutes and seconds
/// with colons between them; `None` where there are not exactly two colons.
pub open spec fn time_parts(s: Seq<char>) -> Option<(Seq<char>, Seq<char>, Seq<char>)> {
    let i = index_of(s, ':');
    let rest = s.skip(i + 1);
    let j = index_of(rest, ':');
    let last = rest.skip(j + 1);
    if i < s.len() && j < rest.len() && index_of(last, ':') == last.len() {
        Some((s.take(i), rest.take(j), last))
    } else {
        None
    }
}

/// The millionths of a second that a time written as hours, minutes and
/// seconds stands for, each part an unsigned decimal number: `None` where the
/// text is not of that form or stands for more than `i64::MAX`.
pub open spec fn time_micros(s: Seq<char>) -> Option<i64> {
    match time_parts(s) {
        Some((h, m, sec)) => {
            if parse_micros_spec(h) is Some && parse_micros_spec(m) is Some && parse_micros_spec(
                sec,
            ) is Some && parse_micros_spec(h)->0 * 3600 + parse_micros_spec(m)->0 * 60
                + parse_micros_spec(sec)->0 <= i64::MAX {
                Some(
                    (parse_micros_spec(h)->0 * 3600 + parse_micros_spec(m)->0 * 60
                        + parse_micros_spec(sec)->0) as i64,
                )
            } else {
                None
            }
        },
        None => None,
    }
}

fn copy_chars(s: &Vec<char>, from: usize, to: usize) -> (r: Vec<char>)
    requires
        from <= to <= s.len(),
    ensures
        r@ == s@.subrange(from as int, to as int),
{
    let mut out: Vec<char> = Vec::new();
    let mut i: usize = from;
    while i < to
        invariant
            from <= i <= to <= s.len(),
            out@ == s@.subrange(from as int, i as int),
        decreases to - i,
    {
        out.push(s[i]);
        assert(out@ =~= s@.subrange(from as int, i + 1));
        i += 1;
    }
    assert(out@ =~= s@.subrange(from as int, to as int));
    out
}

fn parse_time(s: &Vec<char>) -> (r: Option<i64>)
    ensures
        r == time_micros(s@),
{
    let n = s.len();
    let i = find_char(s, 0, ':');
    assert(s@.skip(0) =~= s@);
    if i >= n {
        return None;
    }
    let ghost rest = s@.skip(i + 1);
    let j = find_char(s, i + 1, ':');
    if j >= n {
        return None;
    }
    let ghost last = rest.skip(j - (i + 1) + 1);
    assert(last =~= s@.skip(j + 1));
    let k = find_char(s, j + 1, ':');
    if k < n {
        return None;
    }
    let hours = copy_chars(s, 0, i);
    let minutes = copy_chars(s, i + 1, j);
    let seconds = copy_chars(s, j + 1, n);
    assert(hours@ =~= s@.take(i as int));
    assert(minutes@ =~= rest.take(j - (i + 1)));
    assert(seconds@ =~= last);
    let h = match parse_micros_chars(&hours) {
        Some(v) => v,
        None => {
            return None;
        },
    };
    let m = match parse_micros_chars(&minutes) {
        Some(v) => v,
        None => {
            return None;
        },
    };
    let sec = match parse_micros_chars(&seconds) {
        Some(v) => v,
        None => {
            return None;
        },
    };
    let total: i128 = h as i128 * 3600 + m as i128 * 60 + sec as i128;
    if total > i64::MAX as i128 {
        return None;
    }
    Some(total as i64)
}

/// Reads a time written as hours, minutes and seconds, `01:30:45.25`, as
/// millionths of a second.
pub fn parse_time_to_seconds(time_str: &str) -> (r: CommandResult<i64>)
    ensures
        r is Ok <==> time_micros(time_str@) is Some,
        r matches Ok(v) ==> time_micros(time_str@) == Some(v),
        r matches Err(e) ==> e.is("validation_error"@, "Invalid time format"@),
{
    let cs = chars_of(time_str);
    match parse_time(&cs) {
        Some(v) => Ok(v),
        None => Err(CommandError::validation_error(String::from_str("Invalid time format"))),
    }
}

/// How far an export is when `elapsed` of `total` has been written, in
/// millionths of a percent: nothing where the total is not positive, and
/// never more than all.
pub open spec fn progress_fraction(elapsed: int, total: int) -> int {
    if total <= 0 {
        0
    } else if elapsed * FULL_PROGRESS / total > FULL_PROGRESS {
        FULL_PROGRESS as int
    } else {
        elapsed * FULL_PROGRESS / total
    }
}

/// The time an export still takes when `elapsed` of `total` has been written
/// `speed` times as fast as it plays, in millionths of a second: nothing
/// where the speed is unknown or not positive.
pub open spec fn time_remaining(elapsed: int, total: int, speed: Option<i64>) -> int {
    match speed {
        Some(s) => if s > 0 {
            clamp_i64(div_to_zero((total - elapsed) * 1_000_000, s as int))
        } else {
            0
        },
        None => 0,
    }
}

/// The number that an optional field writes in decimal digits.
pub open spec fn field_u64(field: Option<Seq<char>>) -> Option<u64> {
    match field {
        Some(s) => parse_u64_spec(s),
        None => None,
    }
}

/// The millionths that an optional field writes as a decimal number.
pub open spec fn field_micros(field: Option<Seq<char>>) -> Option<i64> {
    match field {
        Some(s) => parse_micros_spec(s),
        None => None,
    }
}

/// The progress event that the fields of a diagnostic line give: none where
/// the line has no elapsed time that can be read; otherwise an event of the
/// step `Exporting` with the progress and the remaining time that follow from
/// the elapsed time, and with each of the other fields that the line has and
/// that can be read.
pub open spec fn progress_from_fields_spec(
    frame: Option<Seq<char>>,
    fps: Option<Seq<char>>,
    time: Option<Seq<char>>,
    bitrate: Option<Seq<char>>,
    speed: Option<Seq<char>>,
    total_duration: int,
) -> Option<ProgressView> {
    match time {
        Some(t) => match time_micros(t) {
            Some(elapsed) => Some(
                ProgressView {
                    progress: progress_fraction(elapsed as int, total_duration),
                    current_step: "Exporting"@,
                    estimated_time_remaining: time_remaining(
                        elapsed as int,
                        total_duration,
                        field_micros(speed),
                    ),
                    error: None,
                    current_frame: field_u64(frame),
                    total_frames: None,
                    fps: field_micros(fps),
                    bitrate: field_micros(bitrate),
                    time: Some(t),
                },
            ),
            None => None,
        },
        None => None,
    }
}

fn read_u64(field: &Option<String>) -> (r: Option<u64>)
    ensures
        r == field_u64(opt_view(*field)),
{
    match field {
        Some(s) => parse_u64(s.as_str()),
        None => None,
    }
}

fn read_micros(field: &Option<String>) -> (r: Option<i64>)
    ensures
        r == field_micros(opt_view(*field)),
{
    match field {
        Some(s) => {
            let cs = chars_of(s.as_str());
            parse_micros_chars(&cs)
        },
        None => None,
    }
}

/// The progress event that the fields of one diagnostic line give, for an
/// export of `total_duration` millionths of a second. Each field is the text
/// found for it in the line, if any.
pub fn progress_from_fields(
    frame: &Option<String>,
    fps: &Option<String>,
    time: &Option<String>,
    bitrate: &Option<String>,
    speed: &Option<String>,
    total_duration: i64,
) -> (r: Option<ExportProgress>)
    ensures
        opt_progress_view(r) == progress_from_fields_spec(
            opt_view(*frame),
            opt_view(*fps),
            opt_view(*time),
            opt_view(*bitrate),
            opt_view(*speed),
            total_duration as int,
        ),
{
    let time_text = match time {
        Some(t) => t,
        None => {
            return None;
        },
    };
    let cs = chars_of(time_text.as_str());
    let elapsed = match parse_time(&cs) {
        Some(v) => v,
        None => {
            return None;
        },
    };
    let progress: i64 = if total_duration > 0 {
        let scaled: i128 = elapsed as i128 * FULL_PROGRESS as i128;
        let p: i128 = scaled / total_duration as i128;
        if p > FULL_PROGRESS as i128 {
            FULL_PROGRESS
        } else {
            p as i64
        }
    } else {
        0
    };
    let remaining: i64 = match read_micros(speed) {
        Some(s) => {
            if s > 0 {
                let left: i128 = (total_duration as i128 - elapsed as i128) * 1_000_000;
                let q: i128 = left / s as i128;
                if q < i64::MIN as i128 {
                    i64::MIN
                } else if q > i64::MAX as i128 {
                    i64::MAX
                } else {
                    q as i64
                }
            } else {
                0
            }
        },
        None => 0,
    };
    Some(
        ExportProgress {
            progress,
            current_step: String::from_str("Exporting"),
            estimated_time_remaining: remaining,
            error: None,
            current_frame: read_u64(frame),
            total_frames: None,
            fps: read_micros(fps),
            bitrate: read_micros(bitrate),
            time: Some(time_text.clone()),
        },
    )
}

/// The progress event that a diagnostic line of the tool gives, for an export
/// of `total_duration` millionths of a second: none where the line has no
/// elapsed time. The fields are looked for one by one, each by its own
/// pattern, so that a line may lack any of them.
pub open spec fn parse_progress_spec(line: Seq<char>, total_duration: int) -> Option<
    ProgressView,
> {
    progress_from_fields_spec(
        regex_capture("frame=\\s*(\\d+)"@, line, 1),
        regex_capture("fps=\\s*([\\d.]+)"@, line, 1),
        regex_capture("time=(\\d{2}:\\d{2}:\\d{2}\\.\\d{2})"@, line, 1),
        regex_capture("bitrate=\\s*([\\d.]+)\\s*kbits/s"@, line, 1),
        regex_capture("speed=\\s*([\\d.]+)x"@, line, 1),
        total_duration,
    )
}

/// Reads a progress event out of one diagnostic line of the tool.
pub fn parse_ffmpeg_progress(stderr_line: &str, total_duration: i64) -> (r: Option<ExportProgress>)
    ensures
        opt_progress_view(r) == parse_progress_spec(stderr_line@, total_duration as int),
{
    let frame = capture("frame=\\s*(\\d+)", stderr_line, 1);
    let fps = capture("fps=\\s*([\\d.]+)", stderr_line, 1);
    let time = capture("time=(\\d{2}:\\d{2}:\\d{2}\\.\\d{2})", stderr_line, 1);
    let bitrate = capture("bitrate=\\s*([\\d.]+)\\s*kbits/s", stderr_line, 1);
    let speed = capture("speed=\\s*([\\d.]+)x", stderr_line, 1);
    progress_from_fields(&frame, &fps, &time, &bitrate, &speed, total_duration)
}

/// When all of the total has been written, the progress is all, exactly.
pub proof fn lemma_progress_complete(total: int)
    requires
        total > 0,
    ensures
        progress_fraction(total, total) == FULL_PROGRESS,
{
    assert(total * FULL_PROGRESS / total == FULL_PROGRESS) by (nonlinear_arith)
        requires
            total > 0,
    ;
}

/// Progress is never below nothing and never above all.
pub proof fn lemma_progress_bounded(elapsed: int, total: int)
    requires
        elapsed >= 0,
    ensures
        0 <= progress_fraction(elapsed, total) <= FULL_PROGRESS,
{
    if total > 0 {
        assert(elapsed * FULL_PROGRESS / total >= 0) by (nonlinear_arith)
            requires
                elapsed >= 0,
                total > 0,
        ;
    }
}

} // verus!
