//! Commands around metadata and thumbnails.

use crate::commands::{is_supported_video_format, is_supported_video_format_spec};
use crate::ffmpeg::probe::{ExtractMetadataResponse, VideoMetadata};
use crate::ffmpeg::thumbnail::{
    timeline_thumbnail_timestamp, timeline_timestamp, GenerateThumbnailResponse,
};
use crate::paths::{file_name_of, lower_extension, lower_extension_of, path_file_name};
use vstd::prelude::*;
use vstd::string::*;

verus! {

/// A request to import a video and to read its metadata and make its
/// thumbnail as asked. `thumbnail_timestamp` is in millionths of a second.
#[derive(Debug, Clone)]
pub struct ImportVideoWithMetadataRequest {
    pub file_path: String,
    pub extract_metadata: bool,
    pub generate_thumbnail: bool,
    pub thumbnail_timestamp: Option<i64>,
}

/// The answer to a request to import a video with its metadata.
#[derive(Debug, Clone)]
pub struct ImportVideoWithMetadataResponse {
    pub success: bool,
    pub file_path: String,
    pub metadata: Option<VideoMetadata>,
    pub thumbnail_path: Option<String>,
    pub error_message: Option<String>,
}

/// A request for the metadata of a video.
#[derive(Debug, Clone)]
pub struct GetVideoMetadataRequest {
    pub file_path: String,
}

/// A request for a thumbnail and nothing else. `timestamp` is in millionths
/// of a second.
#[derive(Debug, Clone)]
pub struct GenerateThumbnailOnlyRequest {
    pub file_path: String,
    pub timestamp: Option<i64>,
    pub width: Option<u32>,
    pub height: Option<u32>,
}

/// A request to say whether a thumbnail is there. `timestamp` is in
/// millionths of a second.
#[derive(Debug, Clone)]
pub struct CheckThumbnailRequest {
    pub file_path: String,
    pub timestamp: Option<i64>,
}

/// What is shown of a file. The times are in seconds since the Unix epoch.
#[derive(Debug, Clone)]
pub struct FileDisplayInfo {
    pub filename: String,
    pub extension: String,
    pub file_size: u64,
    pub is_video: bool,
    pub created: Option<u64>,
    pub modified: Option<u64>,
}

/// How reading the metadata of an import went.
#[derive(Debug, Clone)]
pub enum MetadataOutcome {
    /// It was not asked for.
    Skipped,
    /// The answer of the reader.
    Answered(ExtractMetadataResponse),
    /// The reader failed with this message.
    Failed(String),
}

/// How making the thumbnail of an import went.
#[derive(Debug, Clone)]
pub enum ThumbnailOutcome {
    /// It was not asked for, or not tried because reading the metadata failed.
    Skipped,
    /// The answer of the maker.
    Answered(GenerateThumbnailResponse),
    /// The maker failed with this message.
    Failed(String),
}

/// The error that reading the metadata left behind, if any.
pub open spec fn metadata_error(outcome: MetadataOutcome) -> Option<String> {
    match outcome {
        MetadataOutcome::Skipped => None,
        MetadataOutcome::Answered(r) => if r.success {
            None
        } else {
            r.error_message
        },
        MetadataOutcome::Failed(m) => Some(m),
    }
}

/// The error that making the thumbnail left behind, if any.
pub open spec fn thumbnail_error(outcome: ThumbnailOutcome) -> Option<String> {
    match outcome {
        ThumbnailOutcome::Skipped => None,
        ThumbnailOutcome::Answered(r) => if r.success {
            None
        } else {
            r.error_message
        },
        ThumbnailOutcome::Failed(m) => Some(m),
    }
}

/// Whether the thumbnail of an import is to be made: where it is asked for
/// and reading the metadata left no error behind.
pub fn wants_thumbnail(request: &ImportVideoWithMetadataRequest, metadata: &MetadataOutcome) -> (r:
    bool)
    ensures
        r == (request.generate_thumbnail && metadata_error(*metadata) is None),
{
    if !request.generate_thumbnail {
        return false;
    }
    match metadata {
        MetadataOutcome::Skipped => true,
        MetadataOutcome::Answered(r) => r.success || r.error_message.is_none(),
        MetadataOutcome::Failed(_) => false,
    }
}

/// The answer to an import: the metadata and the thumbnail that were got, and
/// the first error that was met, if any; the import succeeded where there was
/// none.
pub fn import_response(file_path: String, metadata: MetadataOutcome, thumbnail: ThumbnailOutcome)
    -> (r: ImportVideoWithMetadataResponse)
    ensures
        r.file_path == file_path,
        r.metadata == (match metadata {
            MetadataOutcome::Answered(a) => if a.success {
                a.metadata
            } else {
                None
            },
            _ => None,
        }),
        r.thumbnail_path == (match thumbnail {
            ThumbnailOutcome::Answered(a) => if a.success {
                a.thumbnail_path
            } else {
                None
            },
            _ => None,
        }),
        r.error_message == (if metadata_error(metadata) is Some {
            metadata_error(metadata)
        } else {
            thumbnail_error(thumbnail)
        }),
        r.success == (r.error_message is None),
{
    let mut found: Option<VideoMetadata> = None;
    let mut path: Option<String> = None;
    let mut error: Option<String> = None;
    match metadata {
        MetadataOutcome::Skipped => {},
        MetadataOutcome::Answered(a) => {
            if a.success {
                found = a.metadata;
            } else {
                error = a.error_message;
            }
        },
        MetadataOutcome::Failed(m) => {
            error = Some(m);
        },
    }
    match thumbnail {
        ThumbnailOutcome::Skipped => {},
        ThumbnailOutcome::Answered(a) => {
            if a.success {
                path = a.thumbnail_path;
            } else if error.is_none() {
                error = a.error_message;
            }
        },
        ThumbnailOutcome::Failed(m) => {
            if error.is_none() {
                error = Some(m);
            }
        },
    }
    let success = error.is_none();
    ImportVideoWithMetadataResponse {
        success,
        file_path,
        metadata: found,
        thumbnail_path: path,
        error_message: error,
    }
}

/// The answer for a file of a batch whose import failed altogether.
pub fn failed_import_response(file_path: String, message: String) -> (r:
    ImportVideoWithMetadataResponse)
    ensures
        !r.success,
        r.file_path == file_path,
        r.metadata is None,
        r.thumbnail_path is None,
        r.error_message == Some(message),
{
    ImportVideoWithMetadataResponse {
        success: false,
        file_path,
        metadata: None,
        thumbnail_path: None,
        error_message: Some(message),
    }
}

/// The request by which a file of a batch is imported: with metadata, and
/// with a thumbnail at one second.
pub fn batch_import_request(file_path: String) -> (r: ImportVideoWithMetadataRequest)
    ensures
        r.file_path == file_path,
        r.extract_metadata,
        r.generate_thumbnail,
        r.thumbnail_timestamp == Some(1_000_000i64),
{
    ImportVideoWithMetadataRequest {
        file_path,
        extract_metadata: true,
        generate_thumbnail: true,
        thumbnail_timestamp: Some(1_000_000),
    }
}

/// The moment at which the thumbnail of a video of a duration is taken where
/// none is asked for: one second, and the middle of a video shorter than two.
pub open spec fn default_thumbnail_timestamp(duration: int) -> int {
    if duration <= 0 {
        1_000_000
    } else if duration < 2_000_000 {
        duration / 2
    } else {
        1_000_000
    }
}

/// The moment at which the thumbnail of a video is taken where none is asked
/// for. Times are in millionths of a second.
pub fn get_default_thumbnail_timestamp(duration: i64) -> (r: i64)
    ensures
        r == default_thumbnail_timestamp(duration as int),
{
    if duration <= 0 {
        1_000_000
    } else if duration < 2_000_000 {
        duration / 2
    } else {
        1_000_000
    }
}

/// The moments of `count` thumbnails spread evenly over a video: the middles
/// of `count` equal parts of it; one second for a video without duration and
/// for no thumbnails. Times are in millionths of a second.
pub fn generate_timeline_thumbnail_timestamps(duration: i64, count: usize) -> (r: Vec<i64>)
    ensures
        duration <= 0 || count == 0 ==> r@ == seq![1_000_000i64],
        duration > 0 && count > 0 ==> r@.len() == count && forall|i: int|
            0 <= i < count ==> #[trigger] r@[i] == timeline_timestamp(
                duration as int,
                count as int,
                i,
            ),
{
    let mut timestamps: Vec<i64> = Vec::new();
    if duration <= 0 || count == 0 {
        timestamps.push(1_000_000);
        assert(timestamps@ =~= seq![1_000_000i64]);
        return timestamps;
    }
    let mut i: usize = 0;
    while i < count
        invariant
            i <= count,
            timestamps@.len() == i,
            forall|j: int|
                0 <= j < i ==> #[trigger] timestamps@[j] == timeline_timestamp(
                    duration as int,
                    count as int,
                    j,
                ),
        decreases count - i,
    {
        timestamps.push(timeline_thumbnail_timestamp(duration, count, i));
        i += 1;
    }
    timestamps
}

/// Whether a file is of a video format the editor imports.
pub fn is_video_file(file_path: &str) -> (r: bool)
    ensures
        r == is_supported_video_format_spec(file_path@),
{
    is_supported_video_format(file_path)
}

/// What is shown of a file, given its size and times as the file system has
/// them: its name, or `Unknown` where it has none; its extension in lower
/// case, or nothing where it has none; and whether it is a video.
pub fn file_display_info(file_path: &str, file_size: u64, created: Option<u64>, modified: Option<
    u64,
>) -> (r: FileDisplayInfo)
    ensures
        r.filename@ == (match path_file_name(file_path@) {
            Some(n) => n,
            None => "Unknown"@,
        }),
        r.extension@ == (match lower_extension(file_path@) {
            Some(e) => e,
            None => Seq::<char>::empty(),
        }),
        r.file_size == file_size,
        r.is_video == is_supported_video_format_spec(file_path@),
        r.created == created,
        r.modified == modified,
{
    let filename = match file_name_of(file_path) {
        Some(n) => n,
        None => String::from_str("Unknown"),
    };
    let extension = match lower_extension_of(file_path) {
        Some(e) => e,
        None => String::new(),
    };
    FileDisplayInfo {
        filename,
        extension,
        file_size,
        is_video: is_video_file(file_path),
        created,
        modified,
    }
}

} // verus!
