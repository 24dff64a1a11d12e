//! Commands around the media of a project.

use crate::clock::utc_timestamp;
use crate::commands::project::no_home_error;
use crate::commands::{
    home_dir, project_assets_path, project_assets_spec, project_dir_path, project_dir_spec,
    CommandError, CommandResult,
};
use crate::decimal::{push_signed_decimal, signed_decimal};
use crate::ffmpeg::probe::VideoMetadata;
use crate::paths::{
    extension_of, file_stem_of, join, path_extension, path_file_stem, path_join,
};
use vstd::prelude::*;
use vstd::string::*;

verus! {

/// A request to import a video into a project.
#[derive(Debug, Clone)]
pub struct ImportVideoToProjectRequest {
    pub project_id: String,
    pub source_file_path: String,
}

/// The answer to an import into a project.
#[derive(Debug, Clone)]
pub struct ImportVideoToProjectResponse {
    pub clip_id: String,
    pub project_file_path: String,
    pub metadata: VideoMetadata,
    pub thumbnail_path: String,
}

/// Where a project is kept, below the home directory of the user. Fails
/// where the home directory is not known.
pub fn get_project_directory(project_id: &str) -> (r: CommandResult<String>)
    ensures
        r matches Ok(p) ==> exists|home: Seq<char>| p@ == project_dir_spec(home, project_id@),
        r matches Err(e) ==> e.is("validation_error"@, "Could not find home directory"@),
{
    match home_dir() {
        Some(home) => Ok(project_dir_path(home.as_str(), project_id)),
        None => Err(no_home_error()),
    }
}

/// Where the media of a project are kept. Fails where the home directory is
/// not known.
pub fn get_project_assets_directory(project_id: &str) -> (r: CommandResult<String>)
    ensures
        r matches Ok(p) ==> exists|home: Seq<char>| p@ == project_assets_spec(home, project_id@),
        r matches Err(e) ==> e.is("validation_error"@, "Could not find home directory"@),
{
    match home_dir() {
        Some(home) => Ok(project_assets_path(home.as_str(), project_id)),
        None => Err(no_home_error()),
    }
}

/// Where the thumbnails of a project are kept. Fails where the home
/// directory is not known.
pub fn get_project_thumbnails_directory(project_id: &str) -> (r: CommandResult<String>)
    ensures
        r matches Ok(p) ==> exists|home: Seq<char>|
            p@ == path_join(project_dir_spec(home, project_id@), "thumbnails"@),
        r matches Err(e) ==> e.is("validation_error"@, "Could not find home directory"@),
{
    match home_dir() {
        Some(home) => {
            let dir = project_dir_path(home.as_str(), project_id);
            Ok(join(dir.as_str(), "thumbnails"))
        },
        None => Err(no_home_error()),
    }
}

/// The name under which a file is kept in a project: its stem, or `video`
/// where it has none; the project; the second of the import; and its
/// extension, or `mp4` where it has none.
pub open spec fn asset_filename(
    original_filename: Seq<char>,
    project_id: Seq<char>,
    timestamp: int,
) -> Seq<char> {
    let stem = match path_file_stem(original_filename) {
        Some(s) => s,
        None => "video"@,
    };
    let extension = match path_extension(original_filename) {
        Some(e) => e,
        None => "mp4"@,
    };
    stem + "_"@ + project_id + "_"@ + signed_decimal(timestamp) + "."@ + extension
}

/// The name under which a file imported at the second `timestamp` is kept in
/// a project.
pub fn project_asset_filename_at(original_filename: &str, project_id: &str, timestamp: i64) -> (r:
    String)
    ensures
        r@ == asset_filename(original_filename@, project_id@, timestamp as int),
{
    let mut name = match file_stem_of(original_filename) {
        Some(s) => s,
        None => String::from_str("video"),
    };
    let extension = match extension_of(original_filename) {
        Some(e) => e,
        None => String::from_str("mp4"),
    };
    name.append("_");
    name.append(project_id);
    name.append("_");
    push_signed_decimal(&mut name, timestamp as i128);
    name.append(".");
    name.append(extension.as_str());
    name
}

/// The name under which a file imported now is kept in a project.
pub fn generate_project_asset_filename(original_filename: &str, project_id: &str) -> (r: String)
    ensures
        exists|timestamp: i64|
            r@ == asset_filename(original_filename@, project_id@, timestamp as int),
{
    project_asset_filename_at(original_filename, project_id, utc_timestamp())
}

/// The error that a file of this name is in the project already.
pub fn asset_exists_error(project_filename: &str) -> (r: CommandError)
    ensures
        r.is("validation_error"@, "File already exists in project: "@ + project_filename@),
{
    let mut m = String::from_str("File already exists in project: ");
    m.append(project_filename);
    CommandError::validation_error(m)
}

/// The error that the project has no file of this name.
pub fn asset_not_found_error(asset_filename: &str) -> (r: CommandError)
    ensures
        r.is("validation_error"@, "Asset not found: "@ + asset_filename@),
{
    let mut m = String::from_str("Asset not found: ");
    m.append(asset_filename);
    CommandError::validation_error(m)
}

/// The path of a file of a project, given whether the file system has it.
pub fn get_project_asset_path(assets_dir: &str, asset_filename: &str, exists: bool) -> (r:
    CommandResult<String>)
    ensures
        r is Ok <==> exists,
        r matches Ok(p) ==> p@ == path_join(assets_dir@, asset_filename@),
        r matches Err(e) ==> e.is("validation_error"@, "Asset not found: "@ + asset_filename@),
{
    if !exists {
        return Err(asset_not_found_error(asset_filename));
    }
    Ok(join(assets_dir, asset_filename))
}

} // verus!
