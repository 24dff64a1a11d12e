//! Commands around recording: what the editor sends and what it is told.

use crate::commands::{CommandError, CommandResult};
use crate::decimal::{push_signed_decimal, signed_decimal};
use crate::ffmpeg::probe::VideoMetadata;
use crate::paths::{join, opt_view, path_join};
use crate::recording::permissions::{
    check_permissions_for_recording_type, is_recording_type, missing_permission,
    request_permissions_for_recording_type,
};
use crate::recording::pip::{PiPPosition, PiPRecordingSettings, PiPSize};
use crate::recording::screen::ScreenRecordingSettings;
use crate::recording::session::{
    status_name, status_text, RecordingProgress, RecordingSessionInfo,
};
use crate::text::{clone_opt, str_eq};
use vstd::prelude::*;
use vstd::string::*;

verus! {

/// How the editor wants something recorded.
#[derive(Debug, Clone)]
pub struct RecordingSettingsRequest {
    pub recording_type: String,
    pub screen_id: Option<String>,
    pub camera_id: Option<String>,
    pub quality: String,
    pub frame_rate: u32,
    pub audio_enabled: bool,
    pub audio_device_id: Option<String>,
    pub show_preview: Option<bool>,
    pub pip_position: Option<String>,
    pub pip_size: Option<String>,
    pub project_id: String,
}

/// What the editor is told of a recording session.
#[derive(Debug, Clone)]
pub struct RecordingSessionResponse {
    pub session_id: String,
    pub file_path: Option<String>,
    pub thumbnail_path: Option<String>,
    pub status: String,
    pub metadata: Option<VideoMetadata>,
}

/// How far a recording has come. `duration` is in millionths of a second.
#[derive(Debug, Clone)]
pub struct RecordingProgressUpdate {
    pub session_id: String,
    pub duration: i64,
    pub file_size: u64,
    pub frame_count: u64,
    pub is_recording: bool,
}

/// What is wrong with a request to record, if anything: the first of a frame
/// rate that is not from 1 to 60, and a screen or camera that the kind of
/// recording needs and that is not named, or a kind that is not known.
pub open spec fn recording_settings_issue(
    recording_type: Seq<char>,
    frame_rate: u32,
    has_screen: bool,
    has_camera: bool,
) -> Option<Seq<char>> {
    if !(1 <= frame_rate <= 60) {
        Some("Frame rate must be between 1 and 60 fps"@)
    } else if recording_type == "screen"@ {
        if !has_screen {
            Some("Screen ID is required for screen recording"@)
        } else {
            None
        }
    } else if recording_type == "webcam"@ {
        if !has_camera {
            Some("Camera ID is required for webcam recording"@)
        } else {
            None
        }
    } else if recording_type == "pip"@ {
        if !has_screen || !has_camera {
            Some("Both screen ID and camera ID are required for PiP recording"@)
        } else {
            None
        }
    } else {
        Some("Unknown recording type: "@ + recording_type)
    }
}

impl RecordingSettingsRequest {
    /// What is wrong with this request, if anything.
    pub open spec fn issue(&self) -> Option<Seq<char>> {
        recording_settings_issue(
            self.recording_type@,
            self.frame_rate,
            self.screen_id is Some,
            self.camera_id is Some,
        )
    }
}

/// Checks a request to record.
pub fn validate_recording_settings(settings: &RecordingSettingsRequest) -> (r: Result<
    (),
    CommandError,
>)
    ensures
        r is Ok <==> settings.issue() is None,
        r matches Err(e) ==> e.is("validation_error"@, settings.issue()->0),
{
    if settings.frame_rate == 0 || settings.frame_rate > 60 {
        return Err(
            CommandError::validation_error(
                String::from_str("Frame rate must be between 1 and 60 fps"),
            ),
        );
    }
    let kind = settings.recording_type.as_str();
    if str_eq(kind, "screen") {
        if settings.screen_id.is_none() {
            return Err(
                CommandError::validation_error(
                    String::from_str("Screen ID is required for screen recording"),
                ),
            );
        }
    } else if str_eq(kind, "webcam") {
        if settings.camera_id.is_none() {
            return Err(
                CommandError::validation_error(
                    String::from_str("Camera ID is required for webcam recording"),
                ),
            );
        }
    } else if str_eq(kind, "pip") {
        if settings.screen_id.is_none() || settings.camera_id.is_none() {
            return Err(
                CommandError::validation_error(
                    String::from_str("Both screen ID and camera ID are required for PiP recording"),
                ),
            );
        }
    } else {
        let mut m = String::from_str("Unknown recording type: ");
        m.append(kind);
        return Err(CommandError::validation_error(m));
    }
    Ok(())
}

/// Makes sure of the permissions for a kind of recording: what is not
/// granted is asked for and checked again. As nothing is granted by asking,
/// this fails for every kind: with what is still missing for a kind of
/// recording, and with the unknown kind for anything else.
pub fn ensure_permissions(recording_type: &str) -> (r: CommandResult<()>)
    ensures
        r matches Err(e) && e.is(
            "validation_error"@,
            if is_recording_type(recording_type@) {
                "Permission not granted: "@ + missing_permission(
                    recording_type@,
                    false,
                    false,
                    false,
                )->0
            } else {
                "Permission error: "@ + ("Unknown recording type: "@ + recording_type@)
            },
        ),
{
    match check_permissions_for_recording_type(recording_type) {
        Ok(_) => Ok(()),
        Err(_) => {
            match request_permissions_for_recording_type(recording_type) {
                Ok(_) => {},
                Err(e) => {
                    let mut m = String::from_str("Permission error: ");
                    m.append(e.as_str());
                    return Err(CommandError::validation_error(m));
                },
            }
            match check_permissions_for_recording_type(recording_type) {
                Ok(_) => Ok(()),
                Err(e) => {
                    let mut m = String::from_str("Permission not granted: ");
                    m.append(e.as_str());
                    Err(CommandError::validation_error(m))
                },
            }
        },
    }
}

/// How a screen is to be recorded for a request. Fails where the request
/// names no screen.
pub fn screen_settings_from_request(settings: &RecordingSettingsRequest) -> (r: CommandResult<
    ScreenRecordingSettings,
>)
    ensures
        r is Ok <==> settings.screen_id is Some,
        r matches Ok(s) ==> s.screen_id@ == settings.screen_id->0@ && s.quality@
            == settings.quality@ && s.frame_rate == settings.frame_rate && s.audio_enabled
            == settings.audio_enabled && s.capture_area is None,
        r matches Err(e) ==> e.is(
            "validation_error"@,
            "Screen ID is required for screen recording"@,
        ),
{
    match &settings.screen_id {
        Some(id) => Ok(
            ScreenRecordingSettings {
                screen_id: id.clone(),
                quality: settings.quality.clone(),
                frame_rate: settings.frame_rate,
                audio_enabled: settings.audio_enabled,
                capture_area: None,
            },
        ),
        None => Err(
            CommandError::validation_error(
                String::from_str("Screen ID is required for screen recording"),
            ),
        ),
    }
}

/// The corner that a request names: the lower left one where it names none
/// or one that is not known.
pub open spec fn position_of(name: Option<Seq<char>>) -> PiPPosition {
    if name == Some("top-left"@) {
        PiPPosition::TopLeft
    } else if name == Some("top-right"@) {
        PiPPosition::TopRight
    } else if name == Some("bottom-right"@) {
        PiPPosition::BottomRight
    } else {
        PiPPosition::BottomLeft
    }
}

/// The size that a request names: medium where it names none or one that is
/// not known.
pub open spec fn size_of(name: Option<Seq<char>>) -> PiPSize {
    if name == Some("small"@) {
        PiPSize::Small
    } else if name == Some("large"@) {
        PiPSize::Large
    } else {
        PiPSize::Medium
    }
}

/// How picture in picture is to be recorded for a request: a screen or camera
/// that is not named is left empty.
pub fn pip_settings_from_request(settings: &RecordingSettingsRequest) -> (r: PiPRecordingSettings)
    ensures
        r.screen_id@ == (match settings.screen_id {
            Some(s) => s@,
            None => Seq::<char>::empty(),
        }),
        r.camera_id@ == (match settings.camera_id {
            Some(s) => s@,
            None => Seq::<char>::empty(),
        }),
        r.quality@ == settings.quality@,
        r.frame_rate == settings.frame_rate,
        r.audio_enabled == settings.audio_enabled,
        r.pip_position == position_of(opt_view(settings.pip_position)),
        r.pip_size == size_of(opt_view(settings.pip_size)),
        r.capture_area is None,
        r.audio_device_id == settings.audio_device_id,
{
    let position = match &settings.pip_position {
        Some(p) => {
            if str_eq(p.as_str(), "top-left") {
                PiPPosition::TopLeft
            } else if str_eq(p.as_str(), "top-right") {
                PiPPosition::TopRight
            } else if str_eq(p.as_str(), "bottom-right") {
                PiPPosition::BottomRight
            } else {
                PiPPosition::BottomLeft
            }
        },
        None => PiPPosition::BottomLeft,
    };
    let size = match &settings.pip_size {
        Some(s) => {
            if str_eq(s.as_str(), "small") {
                PiPSize::Small
            } else if str_eq(s.as_str(), "large") {
                PiPSize::Large
            } else {
                PiPSize::Medium
            }
        },
        None => PiPSize::Medium,
    };
    PiPRecordingSettings {
        screen_id: match &settings.screen_id {
            Some(s) => s.clone(),
            None => String::new(),
        },
        camera_id: match &settings.camera_id {
            Some(s) => s.clone(),
            None => String::new(),
        },
        quality: settings.quality.clone(),
        frame_rate: settings.frame_rate,
        audio_enabled: settings.audio_enabled,
        pip_position: position,
        pip_size: size,
        capture_area: None,
        audio_device_id: clone_opt(&settings.audio_device_id),
    }
}

/// The file that a recording from the webcam started at a second is written
/// to, in the directory of the recordings.
pub fn webcam_recording_path_at(recordings_dir: &str, timestamp: i64) -> (r: String)
    ensures
        r@ == path_join(recordings_dir@, "webcam_"@ + signed_decimal(timestamp as int) + ".webm"@),
{
    let mut name = String::from_str("webcam_");
    push_signed_decimal(&mut name, timestamp as i128);
    name.append(".webm");
    join(recordings_dir, name.as_str())
}

/// What the editor is told when a recording has started.
pub fn started_response(session_id: String) -> (r: RecordingSessionResponse)
    ensures
        r.session_id == session_id,
        r.file_path is None,
        r.thumbnail_path is None,
        r.status@ == "recording"@,
        r.metadata is None,
{
    RecordingSessionResponse {
        session_id,
        file_path: None,
        thumbnail_path: None,
        status: String::from_str("recording"),
        metadata: None,
    }
}

/// What the editor is told when a recording has stopped.
pub fn stopped_response(
    session_id: String,
    file_path: Option<String>,
    thumbnail_path: Option<String>,
    metadata: Option<VideoMetadata>,
) -> (r: RecordingSessionResponse)
    ensures
        r.session_id == session_id,
        r.file_path == file_path,
        r.thumbnail_path == thumbnail_path,
        r.status@ == "stopped"@,
        r.metadata == metadata,
{
    RecordingSessionResponse {
        session_id,
        file_path,
        thumbnail_path,
        status: String::from_str("stopped"),
        metadata,
    }
}

/// What the editor is told of a session that is asked about.
pub fn session_response(session: RecordingSessionInfo) -> (r: RecordingSessionResponse)
    ensures
        r.session_id == session.id,
        r.file_path == session.file_path,
        r.thumbnail_path is None,
        r.status@ == status_text(session.status),
        r.metadata is None,
{
    RecordingSessionResponse {
        session_id: session.id,
        file_path: session.file_path,
        thumbnail_path: None,
        status: status_name(session.status),
        metadata: None,
    }
}

/// What the editor is told of how far a recording has come.
pub fn progress_update(progress: RecordingProgress) -> (r: RecordingProgressUpdate)
    ensures
        r.session_id == progress.session_id,
        r.duration == progress.duration,
        r.file_size == progress.file_size,
        r.frame_count == progress.frame_count,
        r.is_recording == progress.is_recording,
{
    RecordingProgressUpdate {
        session_id: progress.session_id,
        duration: progress.duration,
        file_size: progress.file_size,
        frame_count: progress.frame_count,
        is_recording: progress.is_recording,
    }
}

} // verus!
