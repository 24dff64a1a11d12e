//! Commands around files: importing a video and checking a path.

use crate::clock::utc_rfc3339;
use crate::commands::{
    file_size_text, format_file_size as shared_format_file_size,
    get_file_extension as shared_file_extension,
    get_filename_with_extension as shared_filename_with_extension,
    get_filename_without_extension as shared_filename_without_extension, is_supported_video_format,
    is_supported_video_format_spec, CommandError, CommandResult,
};
use crate::ffmpeg::probe::VideoMetadata;
use crate::paths::{
    file_name_of, is_absolute, is_absolute_spec, join, lower_extension, opt_view, path_file_name,
    path_file_stem, path_join,
};
use crate::text::{decimal_digits, push_decimal};
use vstd::prelude::*;
use vstd::string::*;

verus! {

/// A request to import a video.
#[derive(Debug, Clone)]
pub struct ImportVideoRequest {
    pub file_path: String,
}

/// The answer to an import: the clip made, with its metadata and thumbnail.
#[derive(Debug, Clone)]
pub struct ImportVideoResponse {
    pub clip: MediaClip,
    pub metadata: VideoMetadata,
    pub thumbnail_path: String,
}

/// A video in the media library. `created_at` is a time in the form of RFC
/// 3339.
#[derive(Debug, Clone)]
pub struct MediaClip {
    pub id: String,
    pub filename: String,
    pub filepath: String,
    pub metadata: VideoMetadata,
    pub thumbnail_path: String,
    pub created_at: String,
}

/// A request to check a path.
#[derive(Debug, Clone)]
pub struct ValidateFileRequest {
    pub file_path: String,
}

/// What a check of a path found.
#[derive(Debug, Clone)]
pub struct ValidateFileResponse {
    pub is_valid: bool,
    pub is_supported: bool,
    pub file_size: u64,
    pub error_message: Option<String>,
}

/// The largest file that is imported: a hundred megabytes.
pub const MAX_FILE_SIZE: u64 = 104_857_600;

/// A clip of the media library made at the time `created_at`.
pub fn media_clip_at(
    id: String,
    filename: String,
    filepath: String,
    metadata: VideoMetadata,
    thumbnail_path: String,
    created_at: String,
) -> (r: MediaClip)
    ensures
        r == (MediaClip { id, filename, filepath, metadata, thumbnail_path, created_at }),
{
    MediaClip { id, filename, filepath, metadata, thumbnail_path, created_at }
}

/// A clip of the media library made at the moment of the call.
pub fn create_media_clip(
    id: String,
    filename: String,
    filepath: String,
    metadata: VideoMetadata,
    thumbnail_path: String,
) -> (r: MediaClip)
    ensures
        r == (MediaClip {
            id,
            filename,
            filepath,
            metadata,
            thumbnail_path,
            created_at: r.created_at,
        }),
{
    media_clip_at(id, filename, filepath, metadata, thumbnail_path, utc_rfc3339())
}

/// Accepts a file of a video format the editor imports.
pub fn check_import_format(file_path: &str) -> (r: CommandResult<()>)
    ensures
        r is Ok <==> is_supported_video_format_spec(file_path@),
        r matches Err(e) ==> e.is(
            "unsupported_format"@,
            "Unsupported video format: "@ + file_path@,
        ),
{
    if !is_supported_video_format(file_path) {
        let mut m = String::from_str("Unsupported video format: ");
        m.append(file_path);
        return Err(CommandError::unsupported_format(m));
    }
    Ok(())
}

/// Accepts a file of up to a hundred megabytes.
pub fn check_import_size(file_size: u64) -> (r: CommandResult<()>)
    ensures
        r is Ok <==> file_size <= MAX_FILE_SIZE,
        r matches Err(e) ==> e.is(
            "validation_error"@,
            "File too large: "@ + decimal_digits((file_size / 1_048_576) as nat)
                + "MB (max: 100MB)"@,
        ),
{
    if file_size > MAX_FILE_SIZE {
        let mut m = String::from_str("File too large: ");
        push_decimal(&mut m, (file_size / 1_048_576) as u128);
        m.append("MB (max: 100MB)");
        return Err(CommandError::validation_error(m));
    }
    Ok(())
}

/// The name under which an imported file is shown: its file name, or
/// `unknown` where it has none.
pub fn import_filename(file_path: &str) -> (r: String)
    ensures
        r@ == (match path_file_name(file_path@) {
            Some(n) => n,
            None => "unknown"@,
        }),
{
    match file_name_of(file_path) {
        Some(n) => n,
        None => String::from_str("unknown"),
    }
}

/// The answer to an import of a file under a new identifier.
pub fn import_response(id: String, file_path: String, metadata: VideoMetadata, thumbnail_path: String)
    -> (r: ImportVideoResponse)
    ensures
        r.clip.id == id,
        r.clip.filepath == file_path,
        r.clip.filename@ == (match path_file_name(file_path@) {
            Some(n) => n,
            None => "unknown"@,
        }),
        r.clip.metadata == metadata,
        r.metadata == metadata,
        r.clip.thumbnail_path == thumbnail_path,
        r.thumbnail_path == thumbnail_path,
{
    let filename = import_filename(file_path.as_str());
    let clip = create_media_clip(
        id,
        filename,
        file_path,
        metadata.duplicate(),
        thumbnail_path.clone(),
    );
    ImportVideoResponse { clip, metadata, thumbnail_path }
}

/// What a check of a path found, given how the check of the path went and
/// the size of the file where it could be read: a path that passed is valid,
/// with its size, or nothing where that is not known; a path that did not is
/// not, with what was wrong.
pub fn validate_file(file_path: &str, check: CommandResult<()>, file_size: Option<u64>) -> (r:
    CommandResult<ValidateFileResponse>)
    ensures
        r matches Ok(v) && v.is_valid == (check is Ok) && v.is_supported == (check is Ok
            && is_supported_video_format_spec(file_path@)) && v.file_size == (if check is Ok
            && file_size is Some {
            file_size->0
        } else {
            0
        }) && v.error_message == (match check {
            Ok(_) => None,
            Err(e) => Some(e.message),
        }),
{
    match check {
        Ok(_) => {
            let size = match file_size {
                Some(s) => s,
                None => 0,
            };
            Ok(
                ValidateFileResponse {
                    is_valid: true,
                    is_supported: is_supported_video_format(file_path),
                    file_size: size,
                    error_message: None,
                },
            )
        },
        Err(error) => Ok(
            ValidateFileResponse {
                is_valid: false,
                is_supported: false,
                file_size: 0,
                error_message: Some(error.message),
            },
        ),
    }
}

/// Whether a file has been imported already: nothing is remembered here, so
/// none has.
pub fn is_file_already_imported(_file_path: &str) -> (r: bool)
    ensures
        !r,
{
    false
}

/// The extension of the path in lower case.
pub fn get_file_extension(file_path: &str) -> (r: Option<String>)
    ensures
        opt_view(r) == lower_extension(file_path@),
{
    shared_file_extension(file_path)
}

/// The file name of the path without its extension.
pub fn get_filename_without_extension(file_path: &str) -> (r: Option<String>)
    ensures
        opt_view(r) == path_file_stem(file_path@),
{
    shared_filename_without_extension(file_path)
}

/// The file name of the path with its extension.
pub fn get_filename_with_extension(file_path: &str) -> (r: Option<String>)
    ensures
        opt_view(r) == path_file_name(file_path@),
{
    shared_filename_with_extension(file_path)
}

/// A size in bytes, for people to read.
pub fn format_file_size(bytes: u64) -> (r: String)
    ensures
        r@ == file_size_text(bytes as nat),
{
    shared_format_file_size(bytes)
}

/// Whether the path starts at the root.
pub fn is_absolute_path(file_path: &str) -> (r: bool)
    ensures
        r == is_absolute_spec(file_path@),
{
    is_absolute(file_path)
}

/// The path as one that starts at the root: itself where it does, and made
/// to start at the directory `current_dir` where it does not.
pub fn resolve_absolute_path(file_path: &str, current_dir: &str) -> (r: CommandResult<String>)
    ensures
        r matches Ok(p) && p@ == if is_absolute_spec(file_path@) {
            file_path@
        } else {
            path_join(current_dir@, file_path@)
        },
{
    if is_absolute(file_path) {
        Ok(String::from_str(file_path))
    } else {
        Ok(join(current_dir, file_path))
    }
}

} // verus!
