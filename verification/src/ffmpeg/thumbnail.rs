//! Thumbnails: where they are kept, how the tool is asked for one, and at
//! which moments of a video they are taken.

use crate::commands::export::rounded_div;
use crate::commands::{default_hash, hash_file_path, CommandError, CommandResult};
use crate::decimal::{magnitude, magnitude_spec, micros_text, push_micros};
use crate::ffmpeg::estimate::div_to_zero;
use crate::paths::{join, opt_view, path_join};
use crate::text::{
    decimal_digits, digit_char, digit_str, hex_digits, push_decimal, push_string, push_text, views,
};
use vstd::prelude::*;
use vstd::string::*;

verus! {

/// A request for one thumbnail. `timestamp` is in millionths of a second;
/// what is left out is taken from the defaults.
#[derive(Debug, Clone)]
pub struct GenerateThumbnailRequest {
    pub file_path: String,
    pub timestamp: Option<i64>,
    pub width: Option<u32>,
    pub height: Option<u32>,
}

/// The answer to a request for one thumbnail.
#[derive(Debug, Clone)]
pub struct GenerateThumbnailResponse {
    pub success: bool,
    pub thumbnail_path: Option<String>,
    pub error_message: Option<String>,
}

/// A request for thumbnails at several moments, in millionths of a second.
#[derive(Debug, Clone)]
pub struct GenerateMultipleThumbnailsRequest {
    pub file_path: String,
    pub timestamps: Vec<i64>,
    pub width: Option<u32>,
    pub height: Option<u32>,
}

/// The answer to a request for several thumbnails.
#[derive(Debug, Clone)]
pub struct GenerateMultipleThumbnailsResponse {
    pub success: bool,
    pub thumbnail_paths: Vec<String>,
    pub error_message: Option<String>,
}

/// The moment at which a thumbnail is taken where none is asked for: one
/// second.
pub const DEFAULT_TIMESTAMP: i64 = 1_000_000;

/// The width of a thumbnail where none is asked for.
pub const DEFAULT_WIDTH: u32 = 320;

/// The height of a thumbnail where none is asked for.
pub const DEFAULT_HEIGHT: u32 = 180;

/// The moment of a request, or the default.
pub fn timestamp_or_default(timestamp: Option<i64>) -> (r: i64)
    ensures
        r == match timestamp {
            Some(t) => t,
            None => DEFAULT_TIMESTAMP,
        },
{
    match timestamp {
        Some(t) => t,
        None => DEFAULT_TIMESTAMP,
    }
}

/// The size of a request, or the default.
pub fn size_or_default(width: Option<u32>, height: Option<u32>) -> (r: (u32, u32))
    ensures
        r.0 == match width {
            Some(w) => w,
            None => DEFAULT_WIDTH,
        },
        r.1 == match height {
            Some(h) => h,
            None => DEFAULT_HEIGHT,
        },
{
    (
        match width {
            Some(w) => w,
            None => DEFAULT_WIDTH,
        },
        match height {
            Some(h) => h,
            None => DEFAULT_HEIGHT,
        },
    )
}

/// A moment as it stands in the name of a thumbnail: in seconds rounded to
/// the nearest tenth, a half to the even one, with an underscore for the
/// point.
pub open spec fn timestamp_tag(timestamp: int) -> Seq<char> {
    let t = rounded_div(magnitude_spec(timestamp), 100_000);
    let sign = if timestamp < 0 {
        "-"@
    } else {
        Seq::<char>::empty()
    };
    sign + decimal_digits(t / 10) + "_"@ + seq![digit_char((t % 10) as int)]
}

/// The name of the file of a thumbnail: the hash of the video's path, the
/// moment, and `.jpg`.
pub open spec fn thumbnail_name(file_path: Seq<char>, timestamp: int) -> Seq<char> {
    hex_digits(default_hash(file_path) as nat) + "_"@ + timestamp_tag(timestamp) + ".jpg"@
}

/// The path of the thumbnail of a video at a moment, in the directory of the
/// thumbnails.
pub fn get_thumbnail_path(thumbnails_dir: &str, file_path: &str, timestamp: i64) -> (r:
    CommandResult<String>)
    ensures
        r matches Ok(p) && p@ == path_join(
            thumbnails_dir@,
            thumbnail_name(file_path@, timestamp as int),
        ),
{
    let m = magnitude(timestamp as i128);
    let q = m / 100_000;
    let rem = m % 100_000;
    let t: u128 = if 2 * rem > 100_000 || (2 * rem == 100_000 && q % 2 == 1) {
        q + 1
    } else {
        q
    };
    assert(t == rounded_div(magnitude_spec(timestamp as int), 100_000));
    let mut name = hash_file_path(file_path);
    name.append("_");
    let ghost head = name@;
    if timestamp < 0 {
        name.append("-");
    }
    push_decimal(&mut name, t / 10);
    name.append("_");
    name.append(digit_str((t % 10) as u64));
    assert(name@ =~= head + timestamp_tag(timestamp as int));
    name.append(".jpg");
    Ok(join(thumbnails_dir, name.as_str()))
}

/// The arguments that ask the tool for the frame of a video at a moment,
/// scaled to a size, as a picture of high quality.
pub open spec fn thumbnail_args(
    file_path: Seq<char>,
    thumbnail_path: Seq<char>,
    timestamp: int,
    width: u32,
    height: u32,
) -> Seq<Seq<char>> {
    seq![
        "-ss"@,
        micros_text(timestamp),
        "-i"@,
        file_path,
        "-vframes"@,
        "1"@,
        "-vf"@,
        "scale="@ + decimal_digits(width as nat) + ":"@ + decimal_digits(height as nat),
        "-q:v"@,
        "2"@,
        "-y"@,
        thumbnail_path,
    ]
}

/// The arguments that ask the tool for a thumbnail.
pub fn thumbnail_command_args(
    file_path: &str,
    thumbnail_path: &str,
    timestamp: i64,
    width: u32,
    height: u32,
) -> (r: Vec<String>)
    ensures
        views(r@) == thumbnail_args(
            file_path@,
            thumbnail_path@,
            timestamp as int,
            width,
            height,
        ),
{
    let mut args: Vec<String> = Vec::new();
    assert(views(args@) =~= Seq::<Seq<char>>::empty());
    push_text(&mut args, "-ss");
    let mut moment = String::new();
    push_micros(&mut moment, timestamp as i128);
    assert(moment@ =~= micros_text(timestamp as int));
    push_string(&mut args, moment);
    push_text(&mut args, "-i");
    push_text(&mut args, file_path);
    push_text(&mut args, "-vframes");
    push_text(&mut args, "1");
    push_text(&mut args, "-vf");
    let mut scale = String::from_str("scale=");
    push_decimal(&mut scale, width as u128);
    scale.append(":");
    push_decimal(&mut scale, height as u128);
    push_string(&mut args, scale);
    push_text(&mut args, "-q:v");
    push_text(&mut args, "2");
    push_text(&mut args, "-y");
    push_text(&mut args, thumbnail_path);
    assert(views(args@) =~= thumbnail_args(
        file_path@,
        thumbnail_path@,
        timestamp as int,
        width,
        height,
    ));
    args
}

/// The error that the tool failed to make a thumbnail, with what it wrote to
/// its diagnostic stream.
pub fn thumbnail_failure(stderr: &str) -> (r: CommandError)
    ensures
        r.is("ffmpeg_error"@, "FFmpeg thumbnail generation failed: "@ + stderr@),
{
    let mut m = String::from_str("FFmpeg thumbnail generation failed: ");
    m.append(stderr);
    CommandError::ffmpeg_error(m)
}

/// The answer to a request for one thumbnail: its path where it could be
/// made, what went wrong otherwise.
pub fn thumbnail_response(result: CommandResult<String>) -> (r: GenerateThumbnailResponse)
    ensures
        r.success == (result is Ok),
        result matches Ok(p) ==> r.thumbnail_path == Some(p) && r.error_message is None,
        result matches Err(e) ==> r.thumbnail_path is None && r.error_message == Some(e.message),
{
    match result {
        Ok(path) => GenerateThumbnailResponse {
            success: true,
            thumbnail_path: Some(path),
            error_message: None,
        },
        Err(error) => GenerateThumbnailResponse {
            success: false,
            thumbnail_path: None,
            error_message: Some(error.message),
        },
    }
}

/// Texts one after the other with a comma and a blank between them.
pub open spec fn comma_joined(parts: Seq<Seq<char>>) -> Seq<char>
    decreases parts.len(),
{
    if parts.len() == 0 {
        Seq::<char>::empty()
    } else if parts.len() == 1 {
        parts[0]
    } else {
        comma_joined(parts.drop_last()) + ", "@ + parts.last()
    }
}

/// The answer to a request for several thumbnails: the paths of those that
/// could be made, and, where some could not, what went wrong with each.
pub fn multiple_thumbnails_response(paths: Vec<String>, errors: &Vec<String>) -> (r:
    GenerateMultipleThumbnailsResponse)
    ensures
        r.success == (errors@.len() == 0),
        r.thumbnail_paths == paths,
        errors@.len() == 0 ==> r.error_message is None,
        errors@.len() > 0 ==> opt_view(r.error_message) == Some(
            "Some thumbnails failed to generate: "@ + comma_joined(views(errors@)),
        ),
{
    if errors.len() == 0 {
        return GenerateMultipleThumbnailsResponse {
            success: true,
            thumbnail_paths: paths,
            error_message: None,
        };
    }
    let ghost all = views(errors@);
    let mut joined = String::from_str(errors[0].as_str());
    assert(all.take(1).drop_last() =~= Seq::<Seq<char>>::empty());
    assert(all.take(1)[0] == errors@[0]@);
    let mut i: usize = 1;
    while i < errors.len()
        invariant
            1 <= i <= errors.len(),
            all == views(errors@),
            joined@ == comma_joined(all.take(i as int)),
        decreases errors.len() - i,
    {
        proof {
            let t = all.take(i + 1);
            assert(t.drop_last() =~= all.take(i as int));
            assert(t.last() == errors@[i as int]@);
        }
        joined.append(", ");
        joined.append(errors[i].as_str());
        i += 1;
    }
    assert(all.take(errors.len() as int) =~= all);
    let mut m = String::from_str("Some thumbnails failed to generate: ");
    m.append(joined.as_str());
    GenerateMultipleThumbnailsResponse {
        success: false,
        thumbnail_paths: paths,
        error_message: Some(m),
    }
}

/// The moment of thumbnail `i` of `count` thumbnails spread evenly over a
/// video of the given duration: the middle of part `i` of `count` equal
/// parts.
pub open spec fn timeline_timestamp(duration: int, count: int, i: int) -> int {
    div_to_zero(duration * (2 * i + 1), 2 * count)
}

/// The moment of thumbnail `i` of `count` thumbnails spread evenly over a
/// video of the given duration, in millionths of a second.
pub fn timeline_thumbnail_timestamp(duration: i64, count: usize, i: usize) -> (r: i64)
    requires
        i < count,
    ensures
        r == timeline_timestamp(duration as int, count as int, i as int),
{
    let m = magnitude(duration as i128);
    let odd: u128 = 2 * (i as u128) + 1;
    let parts: u128 = 2 * (count as u128);
    assert(m * odd <= 0x8000_0000_0000_0000 * 0x1_ffff_ffff_ffff_ffff) by (nonlinear_arith)
        requires
            m <= 0x8000_0000_0000_0000,
            odd <= 0x1_ffff_ffff_ffff_ffff,
    ;
    let q: u128 = m * odd / parts;
    assert(q <= m) by (nonlinear_arith)
        requires
            q == (m * odd) / (parts as int),
            odd < parts,
            0 <= m,
            0 < odd,
    ;
    proof {
        if duration < 0 {
            assert((-(duration as int)) * (2 * i + 1) == -(duration * (2 * i + 1)))
                by (nonlinear_arith);
            assert(duration * (2 * i + 1) < 0) by (nonlinear_arith)
                requires
                    duration < 0,
                    i >= 0,
            ;
        } else {
            assert(duration * (2 * i + 1) >= 0) by (nonlinear_arith)
                requires
                    duration >= 0,
                    i >= 0,
            ;
        }
    }
    if duration < 0 {
        -(q as i128) as i64
    } else {
        q as i64
    }
}

/// Whether a thumbnail last changed at `modified` is older at `now` than
/// `days_old` days, both in seconds since the Unix epoch.
pub fn is_thumbnail_expired(modified: u64, now: u64, days_old: u64) -> (r: bool)
    ensures
        r == (modified < now - days_old * 86400),
{
    (modified as i128) < now as i128 - days_old as i128 * 86400
}

/// Whether a thumbnail is good, given what the file system says of it: it
/// exists, is a file, and is not empty.
pub fn is_thumbnail_valid(exists: bool, is_file: bool, size: u64) -> (r: bool)
    ensures
        r == (exists && is_file && size > 0),
{
    exists && is_file && size > 0
}

} // verus!
