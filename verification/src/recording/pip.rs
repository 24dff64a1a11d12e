//! Picture in picture: recording a screen with a camera laid over it.

use crate::clock::{duration_from_elapsed, elapsed_duration, elapsed_micros, instant_now};
use crate::commands::{home_dir, project_assets_path, project_assets_spec};
use crate::recording::process_manager::RecordingLaunch;
use crate::paths::{join, path_join};
use crate::recording::screen::{
    args_view, display_id_of, parse_display_id, screen_index, CaptureArea,
};
use crate::text::{
    decimal_digits, decimal_string, parse_u32, parse_u32_spec, push_decimal, push_string,
    push_text, str_eq, views,
};
use vstd::prelude::*;
use vstd::string::*;

verus! {

/// How a screen and a camera are to be recorded into one picture.
#[derive(Debug, Clone)]
pub struct PiPRecordingSettings {
    pub screen_id: String,
    pub camera_id: String,
    pub quality: String,
    pub frame_rate: u32,
    pub audio_enabled: bool,
    pub pip_position: PiPPosition,
    pub pip_size: PiPSize,
    pub capture_area: Option<CaptureArea>,
    pub audio_device_id: Option<String>,
}

/// The corner in which the camera's picture lies.
#[derive(Debug, Clone, Copy, PartialEq, Eq, Structural)]
pub enum PiPPosition {
    TopLeft,
    TopRight,
    BottomLeft,
    BottomRight,
}

/// How large the camera's picture is.
#[derive(Debug, Clone, Copy, PartialEq, Eq, Structural)]
pub enum PiPSize {
    Small,
    Medium,
    Large,
}

/// One recording of a screen with a camera laid over it.
#[derive(Debug, Clone)]
pub struct PiPRecordingSession {
    pub id: String,
    pub settings: PiPRecordingSettings,
    pub is_recording: bool,
    pub start_time: Option<std::time::Instant>,
    pub file_path: Option<String>,
    pub screen_session: Option<String>,
    pub camera_session: Option<String>,
}

impl PiPRecordingSession {
    /// A session that has not started to record.
    pub fn new(id: String, settings: PiPRecordingSettings) -> (r: Self)
        ensures
            r.id == id,
            r.settings == settings,
            !r.is_recording,
            r.start_time is None,
            r.file_path is None,
            r.screen_session is None,
            r.camera_session is None,
    {
        Self {
            id,
            settings,
            is_recording: false,
            start_time: None,
            file_path: None,
            screen_session: None,
            camera_session: None,
        }
    }
}

/// What is wrong with settings for picture in picture, if anything: the first
/// of no screen, no camera, a frame rate that is not from 1 to 60, and a
/// capture area without width or height.
pub open spec fn pip_settings_issue(
    screen_id: Seq<char>,
    camera_id: Seq<char>,
    frame_rate: u32,
    capture_area: Option<CaptureArea>,
) -> Option<Seq<char>> {
    if screen_id.len() == 0 {
        Some("Screen ID is required"@)
    } else if camera_id.len() == 0 {
        Some("Camera ID is required"@)
    } else if !(1 <= frame_rate <= 60) {
        Some("Frame rate must be between 1 and 60 fps"@)
    } else if capture_area matches Some(area) && (area.width == 0 || area.height == 0) {
        Some("Capture area dimensions must be greater than 0"@)
    } else {
        None
    }
}

impl PiPRecordingSettings {
    /// What is wrong with these settings, if anything.
    pub open spec fn issue(&self) -> Option<Seq<char>> {
        pip_settings_issue(self.screen_id@, self.camera_id@, self.frame_rate, self.capture_area)
    }
}

/// Checks settings for picture in picture.
pub fn validate_pip_settings(settings: &PiPRecordingSettings) -> (r: Result<(), String>)
    ensures
        r is Ok <==> settings.issue() is None,
        r matches Err(m) ==> Some(m@) == settings.issue(),
{
    if settings.screen_id.as_str().unicode_len() == 0 {
        return Err(String::from_str("Screen ID is required"));
    }
    if settings.camera_id.as_str().unicode_len() == 0 {
        return Err(String::from_str("Camera ID is required"));
    }
    if settings.frame_rate == 0 || settings.frame_rate > 60 {
        return Err(String::from_str("Frame rate must be between 1 and 60 fps"));
    }
    match settings.capture_area {
        Some(area) => {
            if area.width == 0 || area.height == 0 {
                return Err(String::from_str("Capture area dimensions must be greater than 0"));
            }
        },
        None => {},
    }
    Ok(())
}

/// The number of the camera device that a camera's name stands for: the
/// number it writes, and nothing where it writes none.
pub open spec fn camera_device(camera_id: Seq<char>) -> u32 {
    match parse_u32_spec(camera_id) {
        Some(v) => v,
        None => 0,
    }
}

/// The rate factor for a quality.
pub open spec fn pip_crf(quality: Seq<char>) -> Seq<char> {
    if quality == "high"@ {
        "18"@
    } else if quality == "low"@ {
        "28"@
    } else {
        "23"@
    }
}

/// The arguments that ask the tool to record a display with a camera laid
/// over it in the lower left corner, a quarter as wide and as high, into a
/// file: both inputs at the frame rate, the camera's sound where sound is
/// wanted.
pub open spec fn pip_args(
    display_id: u32,
    camera_id: Seq<char>,
    frame_rate: u32,
    audio_enabled: bool,
    quality: Seq<char>,
    output_path: Seq<char>,
) -> Seq<Seq<char>> {
    let inputs = seq![
        "-f"@,
        "avfoundation"@,
        "-r"@,
        decimal_digits(frame_rate as nat),
        "-i"@,
        "Capture screen "@ + decimal_digits(screen_index(display_id)) + ":"@,
        "-f"@,
        "avfoundation"@,
        "-r"@,
        decimal_digits(frame_rate as nat),
        "-i"@,
        decimal_digits(camera_device(camera_id) as nat) + ":0"@,
        "-use_wallclock_as_timestamps"@,
        "1"@,
        "-filter_complex"@,
        "[0:v]setpts=PTS-STARTPTS[screen];[1:v]setpts=PTS-STARTPTS,scale=iw/4:ih/4[pip];[screen][pip]overlay=20:main_h-overlay_h-20[vout]"@,
        "-map"@,
        "[vout]"@,
    ];
    let audio = if audio_enabled {
        seq![
            "-map"@,
            "1:a?"@,
            "-c:a"@,
            "aac"@,
            "-b:a"@,
            "128k"@,
            "-af"@,
            "aresample=async=1:first_pts=0"@,
        ]
    } else {
        Seq::<Seq<char>>::empty()
    };
    let video = seq![
        "-c:v"@,
        "libx264"@,
        "-preset"@,
        "ultrafast"@,
        "-crf"@,
        pip_crf(quality),
        "-pix_fmt"@,
        "yuv420p"@,
        "-vsync"@,
        "1"@,
        "-y"@,
        output_path,
    ];
    inputs + audio + video
}

/// The arguments for picture in picture, or what is wrong with the screen's
/// name.
pub open spec fn pip_recording_args_spec(settings: PiPRecordingSettings, output_path: Seq<char>)
    -> Result<Seq<Seq<char>>, Seq<char>> {
    match display_id_of(settings.screen_id@) {
        Ok(id) => Ok(
            pip_args(
                id,
                settings.camera_id@,
                settings.frame_rate,
                settings.audio_enabled,
                settings.quality@,
                output_path,
            ),
        ),
        Err(m) => Err(m),
    }
}

/// The arguments that ask the tool to record picture in picture into a file.
pub fn pip_recording_args(settings: &PiPRecordingSettings, output_path: &str) -> (r: Result<
    Vec<String>,
    String,
>)
    ensures
        args_view(r) == pip_recording_args_spec(*settings, output_path@),
{
    let display_id = match parse_display_id(settings.screen_id.as_str()) {
        Ok(v) => v,
        Err(m) => {
            return Err(m);
        },
    };
    let index: u32 = if display_id > 0 {
        display_id - 1
    } else {
        0
    };
    let camera: u32 = match parse_u32(settings.camera_id.as_str()) {
        Some(v) => v,
        None => 0,
    };
    let quality = settings.quality.as_str();
    let mut args: Vec<String> = Vec::new();
    assert(views(args@) =~= Seq::<Seq<char>>::empty());
    push_text(&mut args, "-f");
    push_text(&mut args, "avfoundation");
    push_text(&mut args, "-r");
    push_string(&mut args, decimal_string(settings.frame_rate as u64));
    push_text(&mut args, "-i");
    let mut screen = String::from_str("Capture screen ");
    push_decimal(&mut screen, index as u128);
    screen.append(":");
    push_string(&mut args, screen);
    push_text(&mut args, "-f");
    push_text(&mut args, "avfoundation");
    push_text(&mut args, "-r");
    push_string(&mut args, decimal_string(settings.frame_rate as u64));
    push_text(&mut args, "-i");
    let mut device = decimal_string(camera as u64);
    device.append(":0");
    push_string(&mut args, device);
    push_text(&mut args, "-use_wallclock_as_timestamps");
    push_text(&mut args, "1");
    push_text(&mut args, "-filter_complex");
    push_text(
        &mut args,
        "[0:v]setpts=PTS-STARTPTS[screen];[1:v]setpts=PTS-STARTPTS,scale=iw/4:ih/4[pip];[screen][pip]overlay=20:main_h-overlay_h-20[vout]",
    );
    push_text(&mut args, "-map");
    push_text(&mut args, "[vout]");
    if settings.audio_enabled {
        push_text(&mut args, "-map");
        push_text(&mut args, "1:a?");
        push_text(&mut args, "-c:a");
        push_text(&mut args, "aac");
        push_text(&mut args, "-b:a");
        push_text(&mut args, "128k");
        push_text(&mut args, "-af");
        push_text(&mut args, "aresample=async=1:first_pts=0");
    }
    push_text(&mut args, "-c:v");
    push_text(&mut args, "libx264");
    push_text(&mut args, "-preset");
    push_text(&mut args, "ultrafast");
    push_text(&mut args, "-crf");
    if str_eq(quality, "high") {
        push_text(&mut args, "18");
    } else if str_eq(quality, "low") {
        push_text(&mut args, "28");
    } else {
        push_text(&mut args, "23");
    }
    push_text(&mut args, "-pix_fmt");
    push_text(&mut args, "yuv420p");
    push_text(&mut args, "-vsync");
    push_text(&mut args, "1");
    push_text(&mut args, "-y");
    push_text(&mut args, output_path);
    assert(views(args@) =~= pip_args(
        display_id,
        settings.camera_id@,
        settings.frame_rate,
        settings.audio_enabled,
        settings.quality@,
        output_path@,
    ));
    Ok(args)
}

/// The file that a recording of a session is written to, in a directory.
pub open spec fn pip_recording_file(assets_dir: Seq<char>, session_id: Seq<char>) -> Seq<char> {
    path_join(assets_dir, "pip_recording_"@ + session_id + ".mp4"@)
}

/// Why a recording of picture in picture cannot be started, if anything: what
/// is wrong with the settings, or with the screen's name.
pub open spec fn pip_start_issue(settings: PiPRecordingSettings) -> Option<Seq<char>> {
    if settings.issue() is Some {
        settings.issue()
    } else {
        match display_id_of(settings.screen_id@) {
            Ok(_) => None,
            Err(m) => Some(m),
        }
    }
}

/// Whether `p` is what it takes to record picture in picture into a
/// directory: the process that writes the session's file in the directory.
pub open spec fn is_pip_launch(
    p: RecordingLaunch,
    session_id: Seq<char>,
    settings: PiPRecordingSettings,
    ffmpeg_path: Seq<char>,
    assets_dir: Seq<char>,
) -> bool {
    &&& p.program@ == ffmpeg_path
    &&& p.output_path@ == pip_recording_file(assets_dir, session_id)
    &&& Ok::<Seq<Seq<char>>, Seq<char>>(views(p.args@)) == pip_recording_args_spec(
        settings,
        pip_recording_file(assets_dir, session_id),
    )
}

/// What it takes to record picture in picture into the directory
/// `assets_dir`, or why it cannot be started.
pub fn start_pip_recording_in(
    session_id: String,
    settings: PiPRecordingSettings,
    ffmpeg_path: &str,
    assets_dir: &str,
) -> (r: Result<RecordingLaunch, String>)
    ensures
        r is Ok <==> pip_start_issue(settings) is None,
        r matches Err(m) ==> Some(m@) == pip_start_issue(settings),
        r matches Ok(p) ==> is_pip_launch(p, session_id@, settings, ffmpeg_path@, assets_dir@),
{
    match validate_pip_settings(&settings) {
        Ok(_) => {},
        Err(m) => {
            return Err(m);
        },
    }
    let mut name = String::from_str("pip_recording_");
    name.append(session_id.as_str());
    name.append(".mp4");
    let file_path = join(assets_dir, name.as_str());
    match pip_recording_args(&settings, file_path.as_str()) {
        Ok(args) => Ok(
            RecordingLaunch { program: String::from_str(ffmpeg_path), args, output_path: file_path },
        ),
        Err(m) => Err(m),
    }
}

/// What it takes to record picture in picture into the media of a project,
/// or why it cannot be started: what is wrong with the settings, that the
/// home directory is not known, or what is wrong with the screen's name.
pub fn start_pip_recording_with_id(
    session_id: String,
    settings: PiPRecordingSettings,
    ffmpeg_path: &str,
    project_id: String,
) -> (r: Result<RecordingLaunch, String>)
    ensures
        pip_start_issue(settings) is Some ==> r is Err,
        r matches Ok(p) ==> exists|home: Seq<char>|
            is_pip_launch(
                p,
                session_id@,
                settings,
                ffmpeg_path@,
                #[trigger] project_assets_spec(home, project_id@),
            ),
        r matches Err(m) ==> Some(m@) == pip_start_issue(settings) || (settings.issue() is None
            && m@ == "Failed to get home directory"@),
        settings.issue() is Some ==> r is Err && Some(r->Err_0@) == settings.issue(),
{
    match validate_pip_settings(&settings) {
        Ok(_) => {},
        Err(m) => {
            return Err(m);
        },
    }
    match home_dir() {
        Some(home) => {
            let assets = project_assets_path(home.as_str(), project_id.as_str());
            start_pip_recording_in(session_id, settings, ffmpeg_path, assets.as_str())
        },
        None => Err(String::from_str("Failed to get home directory")),
    }
}

/// What it takes to record picture in picture into the media of a project,
/// or why it cannot be started.
pub fn start_pip_recording(
    session_id: String,
    settings: PiPRecordingSettings,
    ffmpeg_path: &str,
    project_id: String,
) -> (r: Result<RecordingLaunch, String>)
    ensures
        pip_start_issue(settings) is Some ==> r is Err,
        r matches Ok(p) ==> exists|home: Seq<char>|
            is_pip_launch(
                p,
                session_id@,
                settings,
                ffmpeg_path@,
                #[trigger] project_assets_spec(home, project_id@),
            ),
        r matches Err(m) ==> Some(m@) == pip_start_issue(settings) || (settings.issue() is None
            && m@ == "Failed to get home directory"@),
        settings.issue() is Some ==> r is Err && Some(r->Err_0@) == settings.issue(),
{
    start_pip_recording_with_id(session_id, settings, ffmpeg_path, project_id)
}

/// Stops a recording. Fails where the session does not record.
pub fn stop_pip_recording(session: &mut PiPRecordingSession) -> (r: Result<(), String>)
    ensures
        r is Ok <==> old(session).is_recording,
        r is Ok ==> *final(session) == (PiPRecordingSession {
            is_recording: false,
            start_time: None,
            screen_session: None,
            camera_session: None,
            ..*old(session)
        }),
        r matches Err(m) ==> m@ == "No active recording session"@ && *final(session) == *old(session),
{
    if !session.is_recording {
        return Err(String::from_str("No active recording session"));
    }
    session.is_recording = false;
    session.start_time = None;
    session.screen_session = None;
    session.camera_session = None;
    Ok(())
}

/// Pauses a recording, which stops it. Fails where the session does not
/// record.
pub fn pause_pip_recording(session: &mut PiPRecordingSession) -> (r: Result<(), String>)
    ensures
        r is Ok <==> old(session).is_recording,
        r is Ok ==> *final(session) == (PiPRecordingSession {
            is_recording: false,
            start_time: None,
            screen_session: None,
            camera_session: None,
            ..*old(session)
        }),
        r matches Err(m) ==> m@ == "No active recording session"@ && *final(session) == *old(session),
{
    if !session.is_recording {
        return Err(String::from_str("No active recording session"));
    }
    stop_pip_recording(session)
}

/// Takes a recording up again. Fails where the session records already.
pub fn resume_pip_recording(session: &mut PiPRecordingSession) -> (r: Result<(), String>)
    ensures
        r is Ok <==> !old(session).is_recording,
        r is Ok ==> final(session).is_recording && final(session).start_time is Some && final(session).id == old(session).id && final(session).settings == old(session).settings && final(session).file_path == old(session).file_path && final(session).screen_session == old(session).screen_session && final(session).camera_session == old(session).camera_session,
        r matches Err(m) ==> m@ == "Recording session is already active"@ && *final(session)
            == *old(session),
{
    if session.is_recording {
        return Err(String::from_str("Recording session is already active"));
    }
    session.is_recording = true;
    session.start_time = Some(instant_now());
    Ok(())
}

/// How long the session has been recording, in millionths of a second:
/// nothing where it has not started, and otherwise the duration that stands
/// for the time gone by since it started, as the clock has it at the call.
pub fn get_recording_duration(session: &PiPRecordingSession) -> (r: i64)
    ensures
        session.start_time is None ==> r == 0,
        session.start_time is Some ==> exists|elapsed: u128|
            r == #[trigger] elapsed_duration(elapsed as nat),
        r >= 0,
{
    match &session.start_time {
        Some(start) => duration_from_elapsed(elapsed_micros(start)),
        None => 0,
    }
}

/// The width and height of the camera's picture on a screen: a quarter of the
/// screen's for medium, half of that for small, twice that for large.
pub open spec fn pip_dimensions(screen_width: u32, screen_height: u32, pip_size: PiPSize) -> (
    int,
    int,
) {
    match pip_size {
        PiPSize::Small => (screen_width as int / 4 / 2, screen_height as int / 4 / 2),
        PiPSize::Medium => (screen_width as int / 4, screen_height as int / 4),
        PiPSize::Large => (screen_width as int / 4 * 2, screen_height as int / 4 * 2),
    }
}

/// The width and height of the camera's picture on a screen.
pub fn calculate_pip_dimensions(screen_width: u32, screen_height: u32, pip_size: &PiPSize) -> (r: (
    u32,
    u32,
))
    ensures
        (r.0 as int, r.1 as int) == pip_dimensions(screen_width, screen_height, *pip_size),
{
    let base_width = screen_width / 4;
    let base_height = screen_height / 4;
    match pip_size {
        PiPSize::Small => (base_width / 2, base_height / 2),
        PiPSize::Medium => (base_width, base_height),
        PiPSize::Large => (base_width * 2, base_height * 2),
    }
}

/// Where the upper left corner of the camera's picture lies on the screen,
/// for a picture that fits on the screen.
pub open spec fn pip_position(
    screen_width: u32,
    screen_height: u32,
    pip_width: u32,
    pip_height: u32,
    position: PiPPosition,
) -> (int, int) {
    match position {
        PiPPosition::TopLeft => (0, 0),
        PiPPosition::TopRight => (screen_width - pip_width, 0),
        PiPPosition::BottomLeft => (0, screen_height - pip_height),
        PiPPosition::BottomRight => (screen_width - pip_width, screen_height - pip_height),
    }
}

/// Where the upper left corner of the camera's picture lies on the screen.
/// The picture has to fit on the screen, and what the screen is wider and
/// higher than the picture into the range of the coordinates.
pub fn calculate_pip_position(
    screen_width: u32,
    screen_height: u32,
    pip_width: u32,
    pip_height: u32,
    position: &PiPPosition,
) -> (r: (i32, i32))
    requires
        pip_width <= screen_width,
        pip_height <= screen_height,
        screen_width - pip_width <= i32::MAX,
        screen_height - pip_height <= i32::MAX,
    ensures
        (r.0 as int, r.1 as int) == pip_position(
            screen_width,
            screen_height,
            pip_width,
            pip_height,
            *position,
        ),
{
    match position {
        PiPPosition::TopLeft => (0, 0),
        PiPPosition::TopRight => ((screen_width - pip_width) as i32, 0),
        PiPPosition::BottomLeft => (0, (screen_height - pip_height) as i32),
        PiPPosition::BottomRight => (
            (screen_width - pip_width) as i32,
            (screen_height - pip_height) as i32,
        ),
    }
}

/// The picture of a preview of picture in picture: there is none yet.
pub fn get_pip_preview(_screen_id: &str, _camera_id: &str) -> (r: Result<Vec<u8>, String>)
    ensures
        r matches Ok(v) && v@.len() == 0,
{
    Ok(Vec::new())
}

} // verus!
