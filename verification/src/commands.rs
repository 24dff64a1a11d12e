//! What the editor's commands share: the error they answer with, the project
//! records, and helpers on paths and sizes.

pub mod export;
pub mod file_ops;
pub mod metadata;
pub mod project;
pub mod project_import;
pub mod recording;

use crate::decimal::{push_tenths, tenths_text};
use crate::paths::{
    file_name_of, file_stem_of, is_absolute, is_absolute_spec, join, join_all, lower_extension,
    lower_extension_of, opt_view, path_file_name, path_file_stem, path_join,
};
use crate::text::{decimal_digits, hex_digits, push_decimal, push_hex, str_eq};
use vstd::prelude::*;
use vstd::std_specs::convert::FromSpecImpl;
use vstd::string::*;

verus! {

/// The error every command answers with: a message for the user and the kind
/// of failure.
#[derive(Debug, Clone)]
pub struct CommandError {
    pub message: String,
    pub error_type: String,
}

/// What a command returns.
pub type CommandResult<T> = Result<T, CommandError>;

impl CommandError {
    /// Whether this error has the given kind and message.
    pub open spec fn is(&self, error_type: Seq<char>, message: Seq<char>) -> bool {
        self.error_type@ == error_type && self.message@ == message
    }

    pub fn new(message: String, error_type: String) -> (r: Self)
        ensures
            r.message == message,
            r.error_type == error_type,
    {
        Self { message, error_type }
    }

    pub fn io_error(message: String) -> (r: Self)
        ensures
            r.message == message,
            r.error_type@ == "io_error"@,
    {
        Self::new(message, String::from_str("io_error"))
    }

    pub fn ffmpeg_error(message: String) -> (r: Self)
        ensures
            r.message == message,
            r.error_type@ == "ffmpeg_error"@,
    {
        Self::new(message, String::from_str("ffmpeg_error"))
    }

    pub fn validation_error(message: String) -> (r: Self)
        ensures
            r.message == message,
            r.error_type@ == "validation_error"@,
    {
        Self::new(message, String::from_str("validation_error"))
    }

    pub fn unsupported_format(message: String) -> (r: Self)
        ensures
            r.message == message,
            r.error_type@ == "unsupported_format"@,
    {
        Self::new(message, String::from_str("unsupported_format"))
    }

    pub fn file_error(message: String) -> (r: Self)
        ensures
            r.message == message,
            r.error_type@ == "file_error"@,
    {
        Self::new(message, String::from_str("file_error"))
    }

    pub fn serialization_error(message: String) -> (r: Self)
        ensures
            r.message == message,
            r.error_type@ == "serialization_error"@,
    {
        Self::new(message, String::from_str("serialization_error"))
    }

    pub fn recording_error(message: String) -> (r: Self)
        ensures
            r.message == message,
            r.error_type@ == "recording_error"@,
    {
        Self::new(message, String::from_str("recording_error"))
    }
}

/// The standard library's I/O error, carried through as it is.
#[verifier::external_type_specification]
#[verifier::external_body]
pub struct ExIoError(std::io::Error);

/// The JSON error of `serde_json`, carried through as it is.
#[verifier::external_type_specification]
#[verifier::external_body]
pub struct ExJsonError(serde_json::Error);

/// Calls `std::io::Error::to_string`: the error's own description. Nothing is
/// claimed of the text.
#[verifier::external_body]
fn io_error_text(error: &std::io::Error) -> (r: String) {
    error.to_string()
}

/// Calls `serde_json::Error::to_string`: the error's own description. Nothing
/// is claimed of the text.
#[verifier::external_body]
fn json_error_text(error: &serde_json::Error) -> (r: String) {
    error.to_string()
}

impl From<std::io::Error> for CommandError {
    fn from(error: std::io::Error) -> (r: Self)
        ensures
            r.error_type@ == "io_error"@,
    {
        Self::io_error(io_error_text(&error))
    }
}

impl FromSpecImpl<std::io::Error> for CommandError {
    open spec fn obeys_from_spec() -> bool {
        false
    }

    open spec fn from_spec(v: std::io::Error) -> Self {
        arbitrary()
    }
}

impl From<serde_json::Error> for CommandError {
    fn from(error: serde_json::Error) -> (r: Self)
        ensures
            r.error_type@ == "json_error"@,
    {
        Self::new(json_error_text(&error), String::from_str("json_error"))
    }
}

impl FromSpecImpl<serde_json::Error> for CommandError {
    open spec fn obeys_from_spec() -> bool {
        false
    }

    open spec fn from_spec(v: serde_json::Error) -> Self {
        arbitrary()
    }
}

/// A video editing project.
#[derive(Debug, Clone)]
pub struct Project {
    pub id: String,
    pub name: String,
    pub description: Option<String>,
    pub project_path: String,
    pub assets_path: String,
    pub thumbnails_path: String,
    pub created_at: String,
    pub updated_at: String,
    pub is_active: bool,
}

/// The configuration of a project.
#[derive(Debug, Clone)]
pub struct ProjectSettings {
    pub project_id: String,
    pub default_video_format: String,
    pub default_resolution: String,
    pub default_framerate: u32,
    pub auto_save: bool,
    pub auto_save_interval: u32,
}

/// Counters kept beside a project. `total_duration` is in millionths of a
/// second.
#[derive(Debug, Clone)]
pub struct ProjectMetadata {
    pub project_id: String,
    pub total_clips: u32,
    pub total_duration: i64,
    pub export_count: u32,
    pub file_size: u64,
}

/// Where the application keeps its data below a home directory.
pub open spec fn app_data_dir_spec(home: Seq<char>) -> Seq<char> {
    join_all(home, seq!["Library"@, "Application Support"@, "com.clipforge.app"@])
}

/// Where the application keeps its data below the home directory `home`.
pub fn app_data_dir_path(home: &str) -> (r: String)
    ensures
        r@ == app_data_dir_spec(home@),
{
    let a = join(home, "Library");
    let b = join(a.as_str(), "Application Support");
    let c = join(b.as_str(), "com.clipforge.app");
    proof {
        let parts = seq!["Library"@, "Application Support"@, "com.clipforge.app"@];
        let p2 = parts.drop_last();
        let p1 = p2.drop_last();
        assert(p1.drop_last() =~= Seq::<Seq<char>>::empty());
        assert(join_all(home@, p1.drop_last()) == home@);
        assert(join_all(home@, p1) == a@);
        assert(join_all(home@, p2) == b@);
    }
    c
}

/// Where thumbnails are cached below the home directory `home`.
pub fn thumbnails_dir_path(home: &str) -> (r: String)
    ensures
        r@ == path_join(app_data_dir_spec(home@), "thumbnails"@),
{
    let d = app_data_dir_path(home);
    join(d.as_str(), "thumbnails")
}

/// The directory that holds scratch files.
pub open spec fn temp_dir_spec() -> Seq<char> {
    path_join("/tmp"@, "clipforge"@)
}

/// The directory that holds scratch files.
pub fn temp_dir_path() -> (r: String)
    ensures
        r@ == temp_dir_spec(),
{
    join("/tmp", "clipforge")
}

/// The hash that `std::collections::hash_map::DefaultHasher`, as `new` makes
/// it, gives the string `s`.
pub uninterp spec fn default_hash(s: Seq<char>) -> u64;

/// Feeds `s` to a `DefaultHasher` made by `DefaultHasher::new` and calls
/// `finish`. Trusted: the same string gives the same hash, which is what the
/// documentation of `new` says of hashers made by it.
#[verifier::external_body]
fn default_hash_of(s: &str) -> (r: u64)
    ensures
        r == default_hash(s@),
{
    let mut hasher = std::collections::hash_map::DefaultHasher::new();
    std::hash::Hash::hash(s, &mut hasher);
    std::hash::Hasher::finish(&hasher)
}

/// A short name for a file path, for cache files: the path's hash in
/// hexadecimal.
pub fn hash_file_path(file_path: &str) -> (r: String)
    ensures
        r@ == hex_digits(default_hash(file_path@) as nat),
        r@.len() > 0,
{
    let h = default_hash_of(file_path);
    let mut out = String::new();
    push_hex(&mut out, h);
    assert(out@ =~= hex_digits(h as nat));
    proof {
        lemma_hex_digits_nonempty(h as nat);
    }
    out
}

/// Every number has at least one hexadecimal digit.
pub proof fn lemma_hex_digits_nonempty(n: nat)
    ensures
        hex_digits(n).len() > 0,
{
}

/// What is wrong with a file path, given what the file system says of it:
/// nothing where the path exists and is a file.
pub open spec fn file_path_problem(file_path: Seq<char>, exists: bool, is_file: bool) -> Option<
    Seq<char>,
> {
    if !exists {
        Some("File does not exist: "@ + file_path)
    } else if !is_file {
        Some("Path is not a file: "@ + file_path)
    } else {
        None
    }
}

/// Accepts a path that exists and is a file, and names what is wrong with any
/// other. `exists` and `is_file` are what the file system says of the path.
pub fn check_file_path(file_path: &str, exists: bool, is_file: bool) -> (r: CommandResult<()>)
    ensures
        r is Ok <==> file_path_problem(file_path@, exists, is_file) is None,
        r matches Err(e) ==> e.is(
            "validation_error"@,
            file_path_problem(file_path@, exists, is_file)->0,
        ),
{
    if !exists {
        let mut m = String::from_str("File does not exist: ");
        m.append(file_path);
        return Err(CommandError::validation_error(m));
    }
    if !is_file {
        let mut m = String::from_str("Path is not a file: ");
        m.append(file_path);
        return Err(CommandError::validation_error(m));
    }
    Ok(())
}

/// Whether `ext` is the extension of a video container the editor imports.
pub open spec fn is_video_extension(ext: Seq<char>) -> bool {
    ext == "mp4"@ || ext == "mov"@ || ext == "webm"@ || ext == "avi"@ || ext == "mkv"@
}

/// Whether the path's extension, in lower case, is one the editor imports.
pub open spec fn is_supported_video_format_spec(file_path: Seq<char>) -> bool {
    match lower_extension(file_path) {
        Some(e) => is_video_extension(e),
        None => false,
    }
}

/// Whether the file is of a video format the editor imports.
pub fn is_supported_video_format(file_path: &str) -> (r: bool)
    ensures
        r == is_supported_video_format_spec(file_path@),
{
    match lower_extension_of(file_path) {
        Some(e) => {
            let e = e.as_str();
            str_eq(e, "mp4") || str_eq(e, "mov") || str_eq(e, "webm") || str_eq(e, "avi")
                || str_eq(e, "mkv")
        },
        None => false,
    }
}

/// The extension of the path in lower case.
pub fn get_file_extension(file_path: &str) -> (r: Option<String>)
    ensures
        opt_view(r) == lower_extension(file_path@),
{
    lower_extension_of(file_path)
}

/// The file name of the path without its extension.
pub fn get_filename_without_extension(file_path: &str) -> (r: Option<String>)
    ensures
        opt_view(r) == path_file_stem(file_path@),
{
    file_stem_of(file_path)
}

/// The file name of the path with its extension.
pub fn get_filename_with_extension(file_path: &str) -> (r: Option<String>)
    ensures
        opt_view(r) == path_file_name(file_path@),
{
    file_name_of(file_path)
}

/// The unit a size is shown in: 0 for bytes, 1 for KB, 2 for MB, 3 for GB.
pub open spec fn size_unit(bytes: nat) -> nat {
    if bytes < 1024 {
        0
    } else if bytes < 1024 * 1024 {
        1
    } else if bytes < 1024 * 1024 * 1024 {
        2
    } else {
        3
    }
}

/// How many bytes make one of the unit.
pub open spec fn unit_bytes(unit: nat) -> nat {
    if unit == 0 {
        1
    } else if unit == 1 {
        1024
    } else if unit == 2 {
        1024 * 1024
    } else {
        1024 * 1024 * 1024
    }
}

/// The name of the unit.
pub open spec fn unit_name(unit: nat) -> Seq<char> {
    if unit == 0 {
        "B"@
    } else if unit == 1 {
        "KB"@
    } else if unit == 2 {
        "MB"@
    } else {
        "GB"@
    }
}

/// `n / d` in tenths, rounded to the nearest tenth, a half to the even one.
pub open spec fn rounded_tenths(n: nat, d: nat) -> nat {
    let q = n * 10 / d;
    let r = n * 10 % d;
    if 2 * r > d || (2 * r == d && q % 2 == 1) {
        q + 1
    } else {
        q
    }
}

/// A size for people to read: bytes as they are, larger sizes in the largest
/// unit up to GB that they reach, with one digit after the point.
pub open spec fn file_size_text(bytes: nat) -> Seq<char> {
    if bytes == 0 {
        "0 B"@
    } else if size_unit(bytes) == 0 {
        decimal_digits(bytes) + " "@ + "B"@
    } else {
        tenths_text(rounded_tenths(bytes, unit_bytes(size_unit(bytes)))) + " "@ + unit_name(
            size_unit(bytes),
        )
    }
}

/// A size in bytes, for people to read.
pub fn format_file_size(bytes: u64) -> (r: String)
    ensures
        r@ == file_size_text(bytes as nat),
{
    if bytes == 0 {
        return String::from_str("0 B");
    }
    let mut out = String::new();
    if bytes < 1024 {
        push_decimal(&mut out, bytes as u128);
        out.append(" ");
        out.append("B");
        assert(out@ =~= decimal_digits(bytes as nat) + " "@ + "B"@);
        return out;
    }
    let (d, name): (u64, &str) = if bytes < 1024 * 1024 {
        (1024, "KB")
    } else if bytes < 1024 * 1024 * 1024 {
        (1024 * 1024, "MB")
    } else {
        (1024 * 1024 * 1024, "GB")
    };
    let n: u128 = bytes as u128 * 10;
    let q: u128 = n / (d as u128);
    let rem: u128 = n % (d as u128);
    let t: u128 = if 2 * rem > d as u128 || (2 * rem == d as u128 && q % 2 == 1) {
        q + 1
    } else {
        q
    };
    assert(t == rounded_tenths(bytes as nat, d as nat));
    assert(t <= u64::MAX);
    push_tenths(&mut out, t as u64);
    out.append(" ");
    out.append(name);
    assert(out@ =~= tenths_text(t as nat) + " "@ + name@);
    out
}

/// Whether the path starts at the root.
pub fn is_absolute_path(file_path: &str) -> (r: bool)
    ensures
        r == is_absolute_spec(file_path@),
{
    is_absolute(file_path)
}

/// Calls `dirs::home_dir`: the home directory of the user, where the system
/// names one whose path is text. Nothing is claimed of the value, which
/// depends on the machine and the user.
#[verifier::external_body]
pub(crate) fn home_dir() -> (r: Option<String>) {
    dirs::home_dir().and_then(|p| p.to_str().map(|s| s.to_string()))
}

/// Where the projects are kept below a home directory.
pub open spec fn projects_dir_spec(home: Seq<char>) -> Seq<char> {
    path_join(app_data_dir_spec(home), "projects"@)
}

/// Where a project is kept below a home directory.
pub open spec fn project_dir_spec(home: Seq<char>, project_id: Seq<char>) -> Seq<char> {
    path_join(projects_dir_spec(home), project_id)
}

/// Where the media of a project are kept below a home directory.
pub open spec fn project_assets_spec(home: Seq<char>, project_id: Seq<char>) -> Seq<char> {
    path_join(project_dir_spec(home, project_id), "assets"@)
}

/// Where the projects are kept below the home directory `home`.
pub fn projects_dir_path(home: &str) -> (r: String)
    ensures
        r@ == projects_dir_spec(home@),
{
    let d = app_data_dir_path(home);
    join(d.as_str(), "projects")
}

/// Where a project is kept below the home directory `home`.
pub fn project_dir_path(home: &str, project_id: &str) -> (r: String)
    ensures
        r@ == project_dir_spec(home@, project_id@),
{
    let d = projects_dir_path(home);
    join(d.as_str(), project_id)
}

/// Where the media of a project are kept below the home directory `home`.
pub fn project_assets_path(home: &str, project_id: &str) -> (r: String)
    ensures
        r@ == project_assets_spec(home@, project_id@),
{
    let d = project_dir_path(home, project_id);
    join(d.as_str(), "assets")
}

/// Calls `uuid::Uuid::new_v4` and writes the result as text: a new random
/// identifier. Nothing is claimed of the value.
#[verifier::external_body]
pub(crate) fn new_uuid() -> (r: String) {
    uuid::Uuid::new_v4().to_string()
}

} // verus!
