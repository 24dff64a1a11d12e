//! Trim windows: which are acceptable, which clips need a sub-range cut out
//! of their source, and how the tool is asked to cut it.

use crate::commands::{CommandError, CommandResult};
use crate::decimal::{format_thousandths, micros_text, push_micros, thousandths_text};
use crate::ffmpeg::export::{clip_views, ClipView, ExportClip};
use crate::text::{decimal_digits, push_decimal, push_string, push_text, views};
use vstd::prelude::*;
use vstd::string::*;

verus! {

/// Differences up to a hundredth of a second count as none.
pub const TRIM_TOLERANCE: i64 = 10_000;

/// The shortest trim window that is accepted: a tenth of a second.
pub const MIN_TRIM_LENGTH: i64 = 100_000;

/// How messages name the clip at `index`: counted from one.
pub open spec fn clip_label(index: nat) -> Seq<char> {
    "Clip "@ + decimal_digits(index + 1)
}

/// A new message that starts by naming the clip at `index`.
pub fn clip_label_text(index: usize) -> (r: String)
    ensures
        r@ == clip_label(index as nat),
{
    let mut out = String::from_str("Clip ");
    push_decimal(&mut out, index as u128 + 1);
    out
}

/// What is wrong with a trim window, if anything: the first of a negative
/// start, an end at or before the start, a window under a tenth of a second,
/// and an end beyond the source's duration.
pub open spec fn trim_issue(
    trim_start: int,
    trim_end: int,
    original_duration: int,
    clip_index: nat,
) -> Option<Seq<char>> {
    if trim_start < 0 {
        Some(clip_label(clip_index) + " has negative trim start: "@ + micros_text(trim_start))
    } else if trim_end <= trim_start {
        Some(
            clip_label(clip_index) + " has invalid trim range: "@ + micros_text(trim_start)
                + " to "@ + micros_text(trim_end) + " (end must be greater than start)"@,
        )
    } else if trim_end - trim_start < MIN_TRIM_LENGTH {
        Some(
            clip_label(clip_index) + " duration too short: "@ + micros_text(trim_end - trim_start)
                + "s (minimum 0.1s)"@,
        )
    } else if trim_end > original_duration {
        Some(
            clip_label(clip_index) + " trim end ("@ + micros_text(trim_end)
                + "s) exceeds original video duration ("@ + micros_text(original_duration) + "s)"@,
        )
    } else {
        None
    }
}

/// Checks the trim window of the clip at `clip_index` against the duration of
/// its source.
pub fn validate_trim_data(
    trim_start: i64,
    trim_end: i64,
    original_duration: i64,
    clip_index: usize,
) -> (r: CommandResult<()>)
    ensures
        r is Ok <==> trim_issue(
            trim_start as int,
            trim_end as int,
            original_duration as int,
            clip_index as nat,
        ) is None,
        r matches Err(e) ==> e.is(
            "validation_error"@,
            trim_issue(
                trim_start as int,
                trim_end as int,
                original_duration as int,
                clip_index as nat,
            )->0,
        ),
        trim_end <= trim_start ==> r is Err,
{
    if trim_start < 0 {
        let mut m = clip_label_text(clip_index);
        m.append(" has negative trim start: ");
        push_micros(&mut m, trim_start as i128);
        return Err(CommandError::validation_error(m));
    }
    if trim_end <= trim_start {
        let mut m = clip_label_text(clip_index);
        m.append(" has invalid trim range: ");
        push_micros(&mut m, trim_start as i128);
        m.append(" to ");
        push_micros(&mut m, trim_end as i128);
        m.append(" (end must be greater than start)");
        return Err(CommandError::validation_error(m));
    }
    let length: i64 = trim_end - trim_start;
    if length < MIN_TRIM_LENGTH {
        let mut m = clip_label_text(clip_index);
        m.append(" duration too short: ");
        push_micros(&mut m, length as i128);
        m.append("s (minimum 0.1s)");
        return Err(CommandError::validation_error(m));
    }
    if trim_end > original_duration {
        let mut m = clip_label_text(clip_index);
        m.append(" trim end (");
        push_micros(&mut m, trim_end as i128);
        m.append("s) exceeds original video duration (");
        push_micros(&mut m, original_duration as i128);
        m.append("s)");
        return Err(CommandError::validation_error(m));
    }
    Ok(())
}

/// The distance between two numbers.
pub open spec fn distance(a: int, b: int) -> int {
    if a >= b {
        a - b
    } else {
        b - a
    }
}

/// Whether a trim window differs from the whole source by more than the
/// tolerance at either end.
pub open spec fn needs_trimming_spec(trim_start: int, trim_end: int, original_duration: int) -> bool {
    distance(trim_start, 0) > TRIM_TOLERANCE || distance(trim_end, original_duration)
        > TRIM_TOLERANCE
}

/// Whether a sub-range has to be cut out of the source: not where the window
/// is the whole source, up to the tolerance.
pub fn needs_trimming(trim_start: i64, trim_end: i64, original_duration: i64) -> (r: bool)
    ensures
        r == needs_trimming_spec(trim_start as int, trim_end as int, original_duration as int),
        !r <==> distance(trim_start as int, 0) <= TRIM_TOLERANCE && distance(
            trim_end as int,
            original_duration as int,
        ) <= TRIM_TOLERANCE,
{
    let start_diff: i128 = if trim_start >= 0 {
        trim_start as i128
    } else {
        -(trim_start as i128)
    };
    let end_diff: i128 = if trim_end >= original_duration {
        trim_end as i128 - original_duration as i128
    } else {
        original_duration as i128 - trim_end as i128
    };
    start_diff > TRIM_TOLERANCE as i128 || end_diff > TRIM_TOLERANCE as i128
}

/// The length of a trim window.
pub fn calculate_trimmed_duration(trim_start: i64, trim_end: i64) -> (r: i64)
    requires
        i64::MIN <= trim_end - trim_start <= i64::MAX,
    ensures
        r == trim_end - trim_start,
{
    trim_end - trim_start
}

/// What is wrong with the trim windows of a list of clips: that there is no
/// clip, or the first issue of the first clip that has one. The end of each
/// window stands for the duration of its source.
pub open spec fn clips_trim_issue(clips: Seq<ClipView>) -> Option<Seq<char>> {
    if clips.len() == 0 {
        Some("No clips to export"@)
    } else {
        first_trim_issue(clips, 0)
    }
}

/// The first trim issue among the clips from index `from` on.
pub open spec fn first_trim_issue(clips: Seq<ClipView>, from: int) -> Option<Seq<char>>
    decreases clips.len() - from,
{
    if from < 0 || from >= clips.len() {
        None
    } else if clip_trim_issue(clips[from], from as nat) is Some {
        clip_trim_issue(clips[from], from as nat)
    } else {
        first_trim_issue(clips, from + 1)
    }
}

/// The trim issue of one clip, the end of its window standing for the
/// duration of its source.
pub open spec fn clip_trim_issue(clip: ClipView, index: nat) -> Option<Seq<char>> {
    trim_issue(clip.trim_start, clip.trim_end, clip.trim_end, index)
}

/// Checks the trim window of every clip.
pub fn validate_export_clips_trim_data(clips: &[ExportClip]) -> (r: CommandResult<()>)
    ensures
        r is Ok <==> clips_trim_issue(clip_views(clips@)) is None,
        r matches Err(e) ==> e.is("validation_error"@, clips_trim_issue(clip_views(clips@))->0),
{
    if clips.len() == 0 {
        return Err(CommandError::validation_error(String::from_str("No clips to export")));
    }
    let ghost views = clip_views(clips@);
    let mut index: usize = 0;
    while index < clips.len()
        invariant
            index <= clips.len(),
            views == clip_views(clips@),
            first_trim_issue(views, 0) == first_trim_issue(views, index as int),
        decreases clips.len() - index,
    {
        let clip = &clips[index];
        assert(views[index as int] == clip@);
        match validate_trim_data(clip.trim_start, clip.trim_end, clip.trim_end, index) {
            Ok(_) => {},
            Err(e) => {
                return Err(e);
            },
        }
        index += 1;
    }
    Ok(())
}

/// Whether the clip's window differs from its whole source, the end of the
/// window standing for the source's duration.
pub open spec fn clip_wants_trim(clip: ClipView) -> bool {
    needs_trimming_spec(clip.trim_start, clip.trim_end, clip.trim_end)
}

/// The indices, in rising order, of the clips that want trimming (`want`) or
/// do not (`!want`).
pub open spec fn trim_indices(clips: Seq<ClipView>, want: bool) -> Seq<usize>
    decreases clips.len(),
{
    if clips.len() == 0 {
        Seq::<usize>::empty()
    } else if clip_wants_trim(clips.last()) == want {
        trim_indices(clips.drop_last(), want).push((clips.len() - 1) as usize)
    } else {
        trim_indices(clips.drop_last(), want)
    }
}

fn collect_trim_indices(clips: &[ExportClip], want: bool) -> (r: Vec<usize>)
    ensures
        r@ == trim_indices(clip_views(clips@), want),
{
    let ghost all = clip_views(clips@);
    let mut out: Vec<usize> = Vec::new();
    let mut index: usize = 0;
    while index < clips.len()
        invariant
            index <= clips.len(),
            all == clip_views(clips@),
            out@ == trim_indices(all.take(index as int), want),
        decreases clips.len() - index,
    {
        let clip = &clips[index];
        proof {
            let t = all.take(index + 1);
            assert(t.drop_last() =~= all.take(index as int));
            assert(t.last() == clip@);
        }
        if needs_trimming(clip.trim_start, clip.trim_end, clip.trim_end) == want {
            out.push(index);
        }
        index += 1;
    }
    assert(all.take(clips.len() as int) =~= all);
    out
}

/// The indices of the clips that need trimming.
pub fn get_clips_needing_trimming(clips: &[ExportClip]) -> (r: Vec<usize>)
    ensures
        r@ == trim_indices(clip_views(clips@), true),
{
    collect_trim_indices(clips, true)
}

/// The indices of the clips that need no trimming.
pub fn get_clips_not_needing_trimming(clips: &[ExportClip]) -> (r: Vec<usize>)
    ensures
        r@ == trim_indices(clip_views(clips@), false),
{
    collect_trim_indices(clips, false)
}

/// Whether the clip plays less than its source from the start: it starts
/// after the source's start, or its window ends before start plus duration.
pub fn clip_needs_trimming(clip: &ExportClip) -> (r: bool)
    ensures
        r == (clip.trim_start > 0 || clip.trim_end < clip.trim_start + clip.duration),
{
    clip.trim_start > 0 || (clip.trim_end as i128) < clip.trim_start as i128 + clip.duration as i128
}

/// Notes on the clip where its trimmed copy lies.
pub fn set_trimmed_file_path(clip: &mut ExportClip, trimmed_path: String)
    ensures
        final(clip)@ == (ClipView { trimmed_file_path: Some(trimmed_path@), ..old(clip)@ }),
{
    clip.trimmed_file_path = Some(trimmed_path);
}

/// The arguments that ask the tool to cut `trim_duration` from `trim_start`
/// out of `input_path` into `output_path`: both times to the millisecond,
/// streams copied where `use_copy_codec` says so and re-encoded otherwise.
pub open spec fn trim_command_args(
    input_path: Seq<char>,
    output_path: Seq<char>,
    trim_start: int,
    trim_duration: int,
    use_copy_codec: bool,
) -> Seq<Seq<char>> {
    let head = seq![
        "-i"@,
        input_path,
        "-ss"@,
        thousandths_text(trim_start),
        "-t"@,
        thousandths_text(trim_duration),
    ];
    let codec = if use_copy_codec {
        seq!["-c"@, "copy"@]
    } else {
        seq!["-c:v"@, "libx264"@, "-c:a"@, "aac"@]
    };
    head + codec + seq!["-y"@, output_path]
}

/// The arguments for cutting one clip out of its source.
pub fn generate_trim_command_args(
    input_path: &str,
    output_path: &str,
    trim_start: i64,
    trim_duration: i64,
    use_copy_codec: bool,
) -> (r: Vec<String>)
    ensures
        views(r@) == trim_command_args(
            input_path@,
            output_path@,
            trim_start as int,
            trim_duration as int,
            use_copy_codec,
        ),
{
    let mut args: Vec<String> = Vec::new();
    assert(views(args@) =~= Seq::<Seq<char>>::empty());
    push_text(&mut args, "-i");
    push_text(&mut args, input_path);
    push_text(&mut args, "-ss");
    push_string(&mut args, format_thousandths(trim_start));
    push_text(&mut args, "-t");
    push_string(&mut args, format_thousandths(trim_duration));
    if use_copy_codec {
        push_text(&mut args, "-c");
        push_text(&mut args, "copy");
    } else {
        push_text(&mut args, "-c:v");
        push_text(&mut args, "libx264");
        push_text(&mut args, "-c:a");
        push_text(&mut args, "aac");
    }
    push_text(&mut args, "-y");
    push_text(&mut args, output_path);
    assert(views(args@) =~= trim_command_args(
        input_path@,
        output_path@,
        trim_start as int,
        trim_duration as int,
        use_copy_codec,
    ));
    args
}

/// The clip that stands for `clip` once its window has been cut out into
/// `artifact`: as long as the window, windowed over all of the new file, and
/// pointing at it.
pub open spec fn trimmed_clip_spec(clip: ClipView, artifact: Seq<char>) -> ClipView {
    ClipView {
        file_path: artifact,
        start_time: clip.start_time,
        duration: clip.trim_end - clip.trim_start,
        trim_start: 0,
        trim_end: clip.trim_end - clip.trim_start,
        track_id: clip.track_id,
        trimmed_file_path: Some(artifact),
    }
}

/// The clip that replaces `clip` once the tool has cut its window out into
/// the file `artifact`.
pub fn trimmed_clip(clip: &ExportClip, artifact: &str) -> (r: ExportClip)
    requires
        i64::MIN <= clip.trim_end - clip.trim_start <= i64::MAX,
    ensures
        r@ == trimmed_clip_spec(clip@, artifact@),
{
    let length = calculate_trimmed_duration(clip.trim_start, clip.trim_end);
    ExportClip {
        file_path: String::from_str(artifact),
        start_time: clip.start_time,
        duration: length,
        trim_start: 0,
        trim_end: length,
        track_id: clip.track_id.clone(),
        trimmed_file_path: Some(String::from_str(artifact)),
    }
}

} // verus!
