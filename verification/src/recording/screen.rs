//! Screens: what is known of them, and recording one with the tool.

use crate::clock::{duration_from_elapsed, elapsed_duration, elapsed_micros, instant_now};
use crate::commands::{home_dir, project_assets_path, project_assets_spec};
use crate::recording::process_manager::RecordingLaunch;
use crate::paths::{join, opt_view, path_join};
use crate::text::{
    chars_occur_at, chars_of, decimal_digits, decimal_string, has_prefix, parse_u32_chars,
    parse_u32_spec, push_decimal, push_string, push_text, str_eq, views,
};
use vstd::prelude::*;
use vstd::string::*;

verus! {

/// What is known of a screen. `scale_factor` is in millionths.
#[derive(Debug, Clone)]
pub struct ScreenInfo {
    pub id: String,
    pub name: String,
    pub width: u32,
    pub height: u32,
    pub x: i32,
    pub y: i32,
    pub is_primary: bool,
    pub scale_factor: i64,
}

/// How a screen is to be recorded.
#[derive(Debug, Clone)]
pub struct ScreenRecordingSettings {
    pub screen_id: String,
    pub quality: String,
    pub frame_rate: u32,
    pub audio_enabled: bool,
    pub capture_area: Option<CaptureArea>,
}

/// The part of a screen that is recorded.
#[derive(Debug, Clone, Copy)]
pub struct CaptureArea {
    pub x: i32,
    pub y: i32,
    pub width: u32,
    pub height: u32,
}

/// One recording of a screen.
#[derive(Debug, Clone)]
pub struct ScreenRecordingSession {
    pub id: String,
    pub settings: ScreenRecordingSettings,
    pub is_recording: bool,
    pub start_time: Option<std::time::Instant>,
    pub file_path: Option<String>,
}

impl ScreenRecordingSettings {
    /// A copy of the settings.
    pub fn duplicate(&self) -> (r: Self)
        ensures
            r == *self,
    {
        Self {
            screen_id: self.screen_id.clone(),
            quality: self.quality.clone(),
            frame_rate: self.frame_rate,
            audio_enabled: self.audio_enabled,
            capture_area: self.capture_area,
        }
    }
}

impl ScreenRecordingSession {
    /// A session that has not started to record.
    pub fn new(id: String, settings: ScreenRecordingSettings) -> (r: Self)
        ensures
            r.id == id,
            r.settings == settings,
            !r.is_recording,
            r.start_time is None,
            r.file_path is None,
    {
        Self { id, settings, is_recording: false, start_time: None, file_path: None }
    }
}

/// The name shown for a display: that of the built-in display for the main
/// one, a number counted from one for any other.
pub fn get_display_name(display_id: u32, main_display_id: u32, index: usize) -> (r: String)
    ensures
        r@ == if display_id == main_display_id {
            "Built-in Retina Display"@
        } else {
            "Display "@ + decimal_digits((index + 1) as nat)
        },
{
    if display_id == main_display_id {
        String::from_str("Built-in Retina Display")
    } else {
        let mut name = String::from_str("Display ");
        push_decimal(&mut name, index as u128 + 1);
        name
    }
}

/// What is known of the display found at `index`, given its bounds: the main
/// display is the primary screen and is scaled twice, any other once.
pub fn screen_info(
    display_id: u32,
    main_display_id: u32,
    index: usize,
    width: u32,
    height: u32,
    x: i32,
    y: i32,
) -> (r: ScreenInfo)
    ensures
        r.id@ == "screen-"@ + decimal_digits(display_id as nat),
        r.name@ == if display_id == main_display_id {
            "Built-in Retina Display"@
        } else {
            "Display "@ + decimal_digits((index + 1) as nat)
        },
        r.width == width && r.height == height && r.x == x && r.y == y,
        r.is_primary == (display_id == main_display_id),
        r.scale_factor == if display_id == main_display_id { 2_000_000i64 } else { 1_000_000i64 },
{
    let mut id = String::from_str("screen-");
    push_decimal(&mut id, display_id as u128);
    ScreenInfo {
        id,
        name: get_display_name(display_id, main_display_id, index),
        width,
        height,
        x,
        y,
        is_primary: display_id == main_display_id,
        scale_factor: if display_id == main_display_id {
            2_000_000
        } else {
            1_000_000
        },
    }
}

/// The number of the display that a screen's name stands for, or what is
/// wrong with the name: it is `screen-` and the number.
pub open spec fn display_id_of(screen_id: Seq<char>) -> Result<u32, Seq<char>> {
    if !has_prefix(screen_id, "screen-"@) {
        Err("Invalid screen ID format"@)
    } else {
        match parse_u32_spec(screen_id.skip(7)) {
            Some(v) => Ok(v),
            None => Err("Invalid screen ID"@),
        }
    }
}

/// A result with its text, if any, as mathematics sees it.
pub open spec fn err_view<T>(r: Result<T, String>) -> Result<T, Seq<char>> {
    match r {
        Ok(v) => Ok(v),
        Err(m) => Err(m@),
    }
}

/// The number of the display that a screen's name stands for.
pub fn parse_display_id(screen_id: &str) -> (r: Result<u32, String>)
    ensures
        err_view(r) == display_id_of(screen_id@),
{
    proof {
        reveal_strlit("screen-");
    }
    let cs = chars_of(screen_id);
    let prefix = chars_of("screen-");
    if !chars_occur_at(&cs, &prefix, 0) {
        return Err(String::from_str("Invalid screen ID format"));
    }
    match parse_u32_chars(&cs, 7) {
        Some(v) => Ok(v),
        None => Err(String::from_str("Invalid screen ID")),
    }
}

/// The index by which the tool knows a display: one less than its number,
/// and nothing for the display of number nothing.
pub open spec fn screen_index(display_id: u32) -> nat {
    if display_id > 0 {
        (display_id - 1) as nat
    } else {
        0
    }
}

/// How fast the encoder is to work for a quality.
pub open spec fn quality_preset(quality: Seq<char>) -> Seq<char> {
    if quality == "low"@ {
        "veryfast"@
    } else if quality == "high"@ {
        "slow"@
    } else {
        "medium"@
    }
}

/// The rate factor for a quality.
pub open spec fn quality_crf(quality: Seq<char>) -> Seq<char> {
    if quality == "low"@ {
        "28"@
    } else if quality == "high"@ {
        "18"@
    } else {
        "23"@
    }
}

/// The arguments that ask the tool to record a display into a file.
pub open spec fn screen_args(
    display_id: u32,
    frame_rate: u32,
    quality: Seq<char>,
    output_path: Seq<char>,
) -> Seq<Seq<char>> {
    seq![
        "-f"@,
        "avfoundation"@,
        "-capture_cursor"@,
        "1"@,
        "-capture_mouse_clicks"@,
        "1"@,
        "-r"@,
        decimal_digits(frame_rate as nat),
        "-i"@,
        "Capture screen "@ + decimal_digits(screen_index(display_id)) + ":"@,
        "-c:v"@,
        "libx264"@,
        "-preset"@,
        quality_preset(quality),
        "-crf"@,
        quality_crf(quality),
        "-pix_fmt"@,
        "yuv420p"@,
        "-y"@,
        output_path,
    ]
}

/// The arguments for recording a screen, or what is wrong with the screen's
/// name.
pub open spec fn screen_recording_args_spec(
    screen_id: Seq<char>,
    frame_rate: u32,
    quality: Seq<char>,
    output_path: Seq<char>,
) -> Result<Seq<Seq<char>>, Seq<char>> {
    match display_id_of(screen_id) {
        Ok(id) => Ok(screen_args(id, frame_rate, quality, output_path)),
        Err(m) => Err(m),
    }
}

/// A result of arguments, as mathematics sees it.
pub open spec fn args_view(r: Result<Vec<String>, String>) -> Result<Seq<Seq<char>>, Seq<char>> {
    match r {
        Ok(v) => Ok(views(v@)),
        Err(m) => Err(m@),
    }
}

/// The arguments that ask the tool to record a screen into a file.
pub fn screen_recording_args(settings: &ScreenRecordingSettings, output_path: &str) -> (r: Result<
    Vec<String>,
    String,
>)
    ensures
        args_view(r) == screen_recording_args_spec(
            settings.screen_id@,
            settings.frame_rate,
            settings.quality@,
            output_path@,
        ),
{
    let display_id = match parse_display_id(settings.screen_id.as_str()) {
        Ok(v) => v,
        Err(m) => {
            return Err(m);
        },
    };
    let index: u32 = if display_id > 0 {
        display_id - 1
    } else {
        0
    };
    let quality = settings.quality.as_str();
    let mut args: Vec<String> = Vec::new();
    assert(views(args@) =~= Seq::<Seq<char>>::empty());
    push_text(&mut args, "-f");
    push_text(&mut args, "avfoundation");
    push_text(&mut args, "-capture_cursor");
    push_text(&mut args, "1");
    push_text(&mut args, "-capture_mouse_clicks");
    push_text(&mut args, "1");
    push_text(&mut args, "-r");
    push_string(&mut args, decimal_string(settings.frame_rate as u64));
    push_text(&mut args, "-i");
    let mut device = String::from_str("Capture screen ");
    push_decimal(&mut device, index as u128);
    device.append(":");
    push_string(&mut args, device);
    push_text(&mut args, "-c:v");
    push_text(&mut args, "libx264");
    push_text(&mut args, "-preset");
    if str_eq(quality, "low") {
        push_text(&mut args, "veryfast");
    } else if str_eq(quality, "high") {
        push_text(&mut args, "slow");
    } else {
        push_text(&mut args, "medium");
    }
    push_text(&mut args, "-crf");
    if str_eq(quality, "low") {
        push_text(&mut args, "28");
    } else if str_eq(quality, "high") {
        push_text(&mut args, "18");
    } else {
        push_text(&mut args, "23");
    }
    push_text(&mut args, "-pix_fmt");
    push_text(&mut args, "yuv420p");
    push_text(&mut args, "-y");
    push_text(&mut args, output_path);
    assert(views(args@) =~= screen_args(
        display_id,
        settings.frame_rate,
        settings.quality@,
        output_path@,
    ));
    Ok(args)
}

/// The file that a recording of a session is written to, in a directory.
pub open spec fn recording_file(assets_dir: Seq<char>, session_id: Seq<char>) -> Seq<char> {
    path_join(assets_dir, "recording_"@ + session_id + ".mp4"@)
}

/// Whether `p` is what it takes to record a screen into a directory: the
/// session, recording into its file in the directory, and the process that
/// writes the file.
pub open spec fn is_screen_launch(
    p: (ScreenRecordingSession, RecordingLaunch),
    session_id: String,
    settings: ScreenRecordingSettings,
    ffmpeg_path: String,
    assets_dir: Seq<char>,
) -> bool {
    &&& p.0.id == session_id
    &&& p.0.settings == settings
    &&& p.0.is_recording
    &&& p.0.start_time is Some
    &&& opt_view(p.0.file_path) == Some(recording_file(assets_dir, session_id@))
    &&& p.1.program == ffmpeg_path
    &&& p.1.output_path@ == recording_file(assets_dir, session_id@)
    &&& Ok::<Seq<Seq<char>>, Seq<char>>(views(p.1.args@)) == screen_recording_args_spec(
        settings.screen_id@,
        settings.frame_rate,
        settings.quality@,
        recording_file(assets_dir, session_id@),
    )
}

/// What it takes to record a screen into the directory `assets_dir`, or why
/// it cannot be started: the session, recording, and the process to start.
pub fn start_screen_recording_in(
    session_id: String,
    settings: ScreenRecordingSettings,
    ffmpeg_path: String,
    assets_dir: &str,
) -> (r: Result<(ScreenRecordingSession, RecordingLaunch), String>)
    ensures
        r is Ok <==> display_id_of(settings.screen_id@) is Ok,
        r matches Err(m) ==> m@ == "Failed to start screen recording: "@ + display_id_of(
            settings.screen_id@,
        )->Err_0,
        r matches Ok(p) ==> is_screen_launch(p, session_id, settings, ffmpeg_path, assets_dir@),
{
    let mut name = String::from_str("recording_");
    name.append(session_id.as_str());
    name.append(".mp4");
    let file_path = join(assets_dir, name.as_str());
    match screen_recording_args(&settings, file_path.as_str()) {
        Ok(args) => {
            let mut session = ScreenRecordingSession::new(session_id, settings);
            session.file_path = Some(file_path.clone());
            session.is_recording = true;
            session.start_time = Some(instant_now());
            Ok((session, RecordingLaunch { program: ffmpeg_path, args, output_path: file_path }))
        },
        Err(e) => {
            let mut m = String::from_str("Failed to start screen recording: ");
            m.append(e.as_str());
            Err(m)
        },
    }
}

/// What it takes to record a screen into the media of a project, or why it
/// cannot be started: that the home directory is not known, or what
/// `start_screen_recording_in` finds.
pub fn start_screen_recording_with_id(
    session_id: String,
    settings: ScreenRecordingSettings,
    ffmpeg_path: String,
    project_id: String,
) -> (r: Result<(ScreenRecordingSession, RecordingLaunch), String>)
    ensures
        display_id_of(settings.screen_id@) is Err ==> r is Err,
        r matches Ok(p) ==> exists|home: Seq<char>|
            is_screen_launch(
                p,
                session_id,
                settings,
                ffmpeg_path,
                #[trigger] project_assets_spec(home, project_id@),
            ),
        r matches Err(m) ==> m@ == "Could not find home directory"@ || (display_id_of(
            settings.screen_id@,
        ) is Err && m@ == "Failed to start screen recording: "@ + display_id_of(
            settings.screen_id@,
        )->Err_0),
{
    match home_dir() {
        Some(home) => {
            let assets = project_assets_path(home.as_str(), project_id.as_str());
            start_screen_recording_in(session_id, settings, ffmpeg_path, assets.as_str())
        },
        None => Err(String::from_str("Could not find home directory")),
    }
}

/// Stops a recording. Fails where the session does not record.
pub fn stop_screen_recording(session: &mut ScreenRecordingSession) -> (r: Result<(), String>)
    ensures
        r is Ok <==> old(session).is_recording,
        r is Ok ==> *final(session) == (ScreenRecordingSession {
            is_recording: false,
            start_time: None,
            ..*old(session)
        }),
        r matches Err(m) ==> m@ == "No active recording session"@ && *final(session) == *old(session),
{
    if !session.is_recording {
        return Err(String::from_str("No active recording session"));
    }
    session.is_recording = false;
    session.start_time = None;
    Ok(())
}

/// Pauses a recording, which stops it. Fails where the session does not
/// record.
pub fn pause_screen_recording(session: &mut ScreenRecordingSession) -> (r: Result<(), String>)
    ensures
        r is Ok <==> old(session).is_recording,
        r is Ok ==> *final(session) == (ScreenRecordingSession {
            is_recording: false,
            start_time: None,
            ..*old(session)
        }),
        r matches Err(m) ==> m@ == "No active recording session"@ && *final(session) == *old(session),
{
    if !session.is_recording {
        return Err(String::from_str("No active recording session"));
    }
    stop_screen_recording(session)
}

/// Takes a recording up again. Fails where the session records already.
pub fn resume_screen_recording(session: &mut ScreenRecordingSession) -> (r: Result<(), String>)
    ensures
        r is Ok <==> !old(session).is_recording,
        r is Ok ==> final(session).is_recording && final(session).start_time is Some && final(session).id == old(session).id && final(session).settings == old(session).settings && final(session).file_path == old(session).file_path,
        r matches Err(m) ==> m@ == "Recording session is already active"@ && *final(session)
            == *old(session),
{
    if session.is_recording {
        return Err(String::from_str("Recording session is already active"));
    }
    session.is_recording = true;
    session.start_time = Some(instant_now());
    Ok(())
}

/// How long the session has been recording, in millionths of a second:
/// nothing where it has not started, and otherwise the duration that stands
/// for the time gone by since it started, as the clock has it at the call.
pub fn get_recording_duration(session: &ScreenRecordingSession) -> (r: i64)
    ensures
        session.start_time is None ==> r == 0,
        session.start_time is Some ==> exists|elapsed: u128|
            r == #[trigger] elapsed_duration(elapsed as nat),
        r >= 0,
{
    match &session.start_time {
        Some(start) => duration_from_elapsed(elapsed_micros(start)),
        None => 0,
    }
}

/// What is wrong with settings for recording a screen, if anything: the
/// first of no screen, a frame rate that is not from 1 to 60, and a capture
/// area without width or height.
pub open spec fn screen_settings_issue(
    screen_id: Seq<char>,
    frame_rate: u32,
    capture_area: Option<CaptureArea>,
) -> Option<Seq<char>> {
    if screen_id.len() == 0 {
        Some("Screen ID is required"@)
    } else if !(1 <= frame_rate <= 60) {
        Some("Frame rate must be between 1 and 60 fps"@)
    } else if capture_area matches Some(area) && (area.width == 0 || area.height == 0) {
        Some("Capture area dimensions must be greater than 0"@)
    } else {
        None
    }
}

/// Checks settings for recording a screen.
pub fn validate_screen_settings(settings: &ScreenRecordingSettings) -> (r: Result<(), String>)
    ensures
        r is Ok <==> screen_settings_issue(
            settings.screen_id@,
            settings.frame_rate,
            settings.capture_area,
        ) is None,
        r matches Err(m) ==> Some(m@) == screen_settings_issue(
            settings.screen_id@,
            settings.frame_rate,
            settings.capture_area,
        ),
{
    if settings.screen_id.as_str().unicode_len() == 0 {
        return Err(String::from_str("Screen ID is required"));
    }
    if settings.frame_rate == 0 || settings.frame_rate > 60 {
        return Err(String::from_str("Frame rate must be between 1 and 60 fps"));
    }
    match settings.capture_area {
        Some(area) => {
            if area.width == 0 || area.height == 0 {
                return Err(String::from_str("Capture area dimensions must be greater than 0"));
            }
        },
        None => {},
    }
    Ok(())
}

} // verus!
