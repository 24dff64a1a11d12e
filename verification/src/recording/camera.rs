//! Cameras: which there are, recording from one, and the live preview.

use crate::clock::{
    duration_from_elapsed, elapsed_duration, elapsed_micros, instant_now, utc_timestamp_millis,
};
use crate::decimal::{push_signed_decimal, signed_decimal};
use crate::paths::{join, opt_view, path_join};
use crate::text::{decimal_digits, push_decimal, push_text, str_eq, views};
use vstd::prelude::*;
use vstd::string::*;

verus! {

/// What is known of a camera.
#[derive(Debug, Clone)]
pub struct CameraInfo {
    pub id: String,
    pub name: String,
    pub is_default: bool,
    pub is_available: bool,
    pub capabilities: CameraCapabilities,
}

/// What a camera can do.
#[derive(Debug, Clone)]
pub struct CameraCapabilities {
    pub max_width: u32,
    pub max_height: u32,
    pub supported_formats: Vec<String>,
    pub has_audio: bool,
}

/// How a camera is to be recorded.
#[derive(Debug, Clone)]
pub struct CameraRecordingSettings {
    pub camera_id: String,
    pub quality: String,
    pub frame_rate: u32,
    pub audio_enabled: bool,
    pub show_preview: bool,
    pub audio_device_id: Option<String>,
}

/// One recording from a camera.
#[derive(Debug, Clone)]
pub struct CameraRecordingSession {
    pub id: String,
    pub settings: CameraRecordingSettings,
    pub is_recording: bool,
    pub start_time: Option<std::time::Instant>,
    pub file_path: Option<String>,
}

impl CameraRecordingSession {
    /// A session that has not started to record.
    pub fn new(id: String, settings: CameraRecordingSettings) -> (r: Self)
        ensures
            r.id == id,
            r.settings == settings,
            !r.is_recording,
            r.start_time is None,
            r.file_path is None,
    {
        Self { id, settings, is_recording: false, start_time: None, file_path: None }
    }
}

/// Whether `c` describes a camera of the given name and number: the first
/// camera is the default, takes pictures of 1920 by 1080 and has sound, any
/// other takes pictures of 1280 by 720 and has none; all are available and
/// record MP4 and MOV.
pub open spec fn is_camera(c: CameraInfo, index: int, id: Seq<char>, name: Seq<char>) -> bool {
    &&& c.id@ == id
    &&& c.name@ == name
    &&& c.is_default == (index == 0)
    &&& c.is_available
    &&& c.capabilities.max_width == if index == 0 { 1920u32 } else { 1280u32 }
    &&& c.capabilities.max_height == if index == 0 { 1080u32 } else { 720u32 }
    &&& c.capabilities.has_audio == (index == 0)
    &&& views(c.capabilities.supported_formats@) == seq!["mp4"@, "mov"@]
}

/// Whether `c` describes the camera found at `index`: the built-in camera
/// first, then cameras numbered from two.
pub open spec fn is_camera_at(c: CameraInfo, index: int) -> bool {
    is_camera(
        c,
        index,
        "camera-"@ + decimal_digits((index + 1) as nat),
        if index == 0 {
            "FaceTime HD Camera"@
        } else {
            "Camera "@ + decimal_digits((index + 1) as nat)
        },
    )
}

/// Whether the cameras are the two that stand in where none can be found:
/// the built-in camera and one external camera.
pub open spec fn are_mock_cameras(cameras: Seq<CameraInfo>) -> bool {
    &&& cameras.len() == 2
    &&& is_camera(cameras[0], 0, "camera-1"@, "FaceTime HD Camera"@)
    &&& is_camera(cameras[1], 1, "camera-2"@, "External USB Camera"@)
}

/// The camera found at `index`.
pub fn camera_info_at(index: usize) -> (r: CameraInfo)
    ensures
        is_camera_at(r, index as int),
{
    let mut formats: Vec<String> = Vec::new();
    assert(views(formats@) =~= Seq::<Seq<char>>::empty());
    push_text(&mut formats, "mp4");
    push_text(&mut formats, "mov");
    assert(views(formats@) =~= seq!["mp4"@, "mov"@]);
    let mut id = String::from_str("camera-");
    push_decimal(&mut id, index as u128 + 1);
    if index == 0 {
        CameraInfo {
            id,
            name: String::from_str("FaceTime HD Camera"),
            is_default: true,
            is_available: true,
            capabilities: CameraCapabilities {
                max_width: 1920,
                max_height: 1080,
                supported_formats: formats,
                has_audio: true,
            },
        }
    } else {
        let mut name = String::from_str("Camera ");
        push_decimal(&mut name, index as u128 + 1);
        CameraInfo {
            id,
            name,
            is_default: false,
            is_available: true,
            capabilities: CameraCapabilities {
                max_width: 1280,
                max_height: 720,
                supported_formats: formats,
                has_audio: false,
            },
        }
    }
}

/// The cameras that stand in where none can be found: the built-in camera
/// and one external camera.
pub fn get_mock_cameras() -> (r: Vec<CameraInfo>)
    ensures
        are_mock_cameras(r@),
{
    let mut first = camera_info_at(0);
    let mut second = camera_info_at(1);
    first.id = String::from_str("camera-1");
    second.id = String::from_str("camera-2");
    second.name = String::from_str("External USB Camera");
    let mut out: Vec<CameraInfo> = Vec::new();
    out.push(first);
    out.push(second);
    out
}

/// The cameras there are: one for each device found, and the stand-ins where
/// none was found.
pub fn cameras_for_devices(device_count: usize) -> (r: Vec<CameraInfo>)
    ensures
        device_count == 0 ==> are_mock_cameras(r@),
        device_count > 0 ==> r@.len() == device_count && forall|i: int|
            0 <= i < device_count ==> is_camera_at(#[trigger] r@[i], i),
{
    if device_count == 0 {
        return get_mock_cameras();
    }
    let mut cameras: Vec<CameraInfo> = Vec::new();
    let mut index: usize = 0;
    while index < device_count
        invariant
            index <= device_count,
            cameras@.len() == index,
            forall|i: int| 0 <= i < index ==> is_camera_at(#[trigger] cameras@[i], i),
        decreases device_count - index,
    {
        cameras.push(camera_info_at(index));
        index += 1;
    }
    cameras
}

/// The name of a recording session started at a millisecond.
pub open spec fn camera_session_id(millis: int) -> Seq<char> {
    "camera_recording_"@ + signed_decimal(millis)
}

/// A session that records from a camera into a file in `output_dir`, started
/// at the millisecond `now_millis`.
pub fn start_camera_recording_at(
    settings: CameraRecordingSettings,
    now_millis: i64,
    output_dir: &str,
) -> (r: CameraRecordingSession)
    ensures
        r.id@ == camera_session_id(now_millis as int),
        r.settings == settings,
        r.is_recording,
        r.start_time is Some,
        opt_view(r.file_path) == Some(
            path_join(
                output_dir@,
                "camera_recording_"@ + camera_session_id(now_millis as int) + ".mp4"@,
            ),
        ),
{
    let mut id = String::from_str("camera_recording_");
    push_signed_decimal(&mut id, now_millis as i128);
    let mut name = String::from_str("camera_recording_");
    name.append(id.as_str());
    name.append(".mp4");
    let mut session = CameraRecordingSession::new(id, settings);
    session.is_recording = true;
    session.start_time = Some(instant_now());
    session.file_path = Some(join(output_dir, name.as_str()));
    session
}

/// A session that records from a camera into a file in `output_dir`, named
/// after the moment of the call.
pub fn start_camera_recording(settings: CameraRecordingSettings, output_dir: &str) -> (r: Result<
    CameraRecordingSession,
    String,
>)
    ensures
        r matches Ok(s) && s.settings == settings && s.is_recording && s.start_time is Some
            && exists|millis: i64|
            s.id@ == camera_session_id(millis as int) && opt_view(s.file_path) == Some(
                path_join(
                    output_dir@,
                    "camera_recording_"@ + camera_session_id(millis as int) + ".mp4"@,
                ),
            ),
{
    Ok(start_camera_recording_at(settings, utc_timestamp_millis(), output_dir))
}

/// Stops a recording. Fails where the session does not record.
pub fn stop_camera_recording(session: &mut CameraRecordingSession) -> (r: Result<(), String>)
    ensures
        r is Ok <==> old(session).is_recording,
        r is Ok ==> *final(session) == (CameraRecordingSession {
            is_recording: false,
            start_time: None,
            ..*old(session)
        }),
        r matches Err(m) ==> m@ == "No active recording session"@ && *final(session) == *old(session),
{
    if !session.is_recording {
        return Err(String::from_str("No active recording session"));
    }
    session.is_recording = false;
    session.start_time = None;
    Ok(())
}

/// Pauses a recording, which stops it. Fails where the session does not
/// record.
pub fn pause_camera_recording(session: &mut CameraRecordingSession) -> (r: Result<(), String>)
    ensures
        r is Ok <==> old(session).is_recording,
        r is Ok ==> *final(session) == (CameraRecordingSession {
            is_recording: false,
            start_time: None,
            ..*old(session)
        }),
        r matches Err(m) ==> m@ == "No active recording session"@ && *final(session) == *old(session),
{
    if !session.is_recording {
        return Err(String::from_str("No active recording session"));
    }
    stop_camera_recording(session)
}

/// Takes a recording up again. Fails where the session records already.
pub fn resume_camera_recording(session: &mut CameraRecordingSession) -> (r: Result<(), String>)
    ensures
        r is Ok <==> !old(session).is_recording,
        r is Ok ==> final(session).is_recording && final(session).start_time is Some && final(session).id == old(session).id && final(session).settings == old(session).settings && final(session).file_path == old(session).file_path,
        r matches Err(m) ==> m@ == "Recording session is already active"@ && *final(session)
            == *old(session),
{
    if session.is_recording {
        return Err(String::from_str("Recording session is already active"));
    }
    session.is_recording = true;
    session.start_time = Some(instant_now());
    Ok(())
}

/// How long the session has been recording, in millionths of a second:
/// nothing where it has not started, and otherwise the duration that stands
/// for the time gone by since it started, as the clock has it at the call.
pub fn get_recording_duration(session: &CameraRecordingSession) -> (r: i64)
    ensures
        session.start_time is None ==> r == 0,
        session.start_time is Some ==> exists|elapsed: u128|
            r == #[trigger] elapsed_duration(elapsed as nat),
        r >= 0,
{
    match &session.start_time {
        Some(start) => duration_from_elapsed(elapsed_micros(start)),
        None => 0,
    }
}

/// What is wrong with a frame rate: it has to be from 1 to 60.
pub open spec fn frame_rate_ok(frame_rate: u32) -> bool {
    1 <= frame_rate <= 60
}

/// What is wrong with settings for recording a camera, if anything.
pub open spec fn camera_settings_issue(camera_id: Seq<char>, frame_rate: u32) -> Option<
    Seq<char>,
> {
    if camera_id.len() == 0 {
        Some("Camera ID is required"@)
    } else if !frame_rate_ok(frame_rate) {
        Some("Frame rate must be between 1 and 60 fps"@)
    } else {
        None
    }
}

/// Checks settings for recording a camera.
pub fn validate_camera_settings(settings: &CameraRecordingSettings) -> (r: Result<(), String>)
    ensures
        r is Ok <==> camera_settings_issue(settings.camera_id@, settings.frame_rate) is None,
        r matches Err(m) ==> Some(m@) == camera_settings_issue(
            settings.camera_id@,
            settings.frame_rate,
        ),
{
    if settings.camera_id.as_str().unicode_len() == 0 {
        return Err(String::from_str("Camera ID is required"));
    }
    if settings.frame_rate == 0 || settings.frame_rate > 60 {
        return Err(String::from_str("Frame rate must be between 1 and 60 fps"));
    }
    Ok(())
}

/// One live preview of a camera.
#[derive(Debug, Clone)]
pub struct CameraPreviewSession {
    pub id: String,
    pub camera_id: String,
    pub is_active: bool,
    pub frame_data: Vec<u8>,
    pub width: u32,
    pub height: u32,
}

impl CameraPreviewSession {
    /// A preview that has not started.
    pub fn new(id: String, camera_id: String) -> (r: Self)
        ensures
            r.id == id,
            r.camera_id == camera_id,
            !r.is_active,
            r.frame_data@.len() == 0,
            r.width == 0,
            r.height == 0,
    {
        Self { id, camera_id, is_active: false, frame_data: Vec::new(), width: 0, height: 0 }
    }
}

/// The live previews there are, the newest last.
#[derive(Debug, Clone)]
pub struct CameraPreviewStore {
    pub sessions: Vec<CameraPreviewSession>,
}

/// The index of the first preview with this name, or the number of previews
/// where there is none.
pub open spec fn preview_index(sessions: Seq<CameraPreviewSession>, id: Seq<char>) -> int
    decreases sessions.len(),
{
    if sessions.len() == 0 {
        0
    } else if sessions[0].id@ == id {
        0
    } else {
        1 + preview_index(sessions.drop_first(), id)
    }
}

/// `preview_index` is the first place where a preview has the name.
pub proof fn lemma_preview_index(sessions: Seq<CameraPreviewSession>, id: Seq<char>)
    ensures
        0 <= preview_index(sessions, id) <= sessions.len(),
        forall|j: int| 0 <= j < preview_index(sessions, id) ==> sessions[j].id@ != id,
        preview_index(sessions, id) < sessions.len() ==> sessions[preview_index(
            sessions,
            id,
        )].id@ == id,
    decreases sessions.len(),
{
    if sessions.len() > 0 && sessions[0].id@ != id {
        let t = sessions.drop_first();
        lemma_preview_index(t, id);
        assert forall|j: int| 0 <= j < preview_index(sessions, id) implies sessions[j].id@
            != id by {
            if j > 0 {
                assert(sessions[j] == t[j - 1]);
            }
        }
    }
}

/// One colour of one pixel of the moving test picture at a millisecond.
pub open spec fn preview_byte(x: int, y: int, time: int, channel: int) -> int {
    if channel == 0 {
        (x + time / 10) % 255
    } else if channel == 1 {
        (y + time / 15) % 255
    } else {
        (x + y + time / 20) % 255
    }
}

/// Whether `frame` is the moving test picture of the given size at a
/// millisecond: three bytes for each pixel, row by row.
pub open spec fn is_preview_frame(frame: Seq<u8>, width: int, height: int, time: int) -> bool {
    &&& frame.len() == width * height * 3
    &&& forall|y: int, x: int, c: int|
        0 <= y < height && 0 <= x < width && 0 <= c < 3 ==> #[trigger] frame[(y * width + x) * 3
            + c] == preview_byte(x, y, time, c)
}

/// The moving test picture of the given size at the millisecond `time`.
pub fn preview_frame(width: u32, height: u32, time: u32) -> (r: Vec<u8>)
    requires
        width * height * 3 <= u32::MAX,
    ensures
        is_preview_frame(r@, width as int, height as int, time as int),
{
    let mut frame: Vec<u8> = Vec::new();
    let w = width as u64;
    let h = height as u64;
    let t = time as u64;
    let mut y: u64 = 0;
    while y < h
        invariant
            y <= h,
            w == width,
            h == height,
            t == time,
            width * height * 3 <= u32::MAX,
            frame@.len() == y * w * 3,
            forall|yy: int, x: int, c: int|
                0 <= yy < y && 0 <= x < w && 0 <= c < 3 ==> #[trigger] frame@[(yy * w + x) * 3
                    + c] == preview_byte(x, yy, t as int, c),
        decreases h - y,
    {
        let mut x: u64 = 0;
        while x < w
            invariant
                x <= w,
                y < h,
                w == width,
                h == height,
                t == time,
                width * height * 3 <= u32::MAX,
                frame@.len() == (y * w + x) * 3,
                forall|yy: int, xx: int, c: int|
                    0 <= yy < y && 0 <= xx < w && 0 <= c < 3 ==> #[trigger] frame@[(yy * w + xx)
                        * 3 + c] == preview_byte(xx, yy, t as int, c),
                forall|xx: int, c: int|
                    0 <= xx < x && 0 <= c < 3 ==> #[trigger] frame@[(y * w + xx) * 3 + c]
                        == preview_byte(xx, y as int, t as int, c),
            decreases w - x,
        {
            let ghost before = frame@;
            let ghost base = (y * w + x) * 3;
            frame.push(((x + t / 10) % 255) as u8);
            frame.push(((y + t / 15) % 255) as u8);
            frame.push(((x + y + t / 20) % 255) as u8);
            proof {
                assert forall|yy: int, xx: int, c: int|
                    0 <= yy < y && 0 <= xx < w && 0 <= c < 3 implies #[trigger] frame@[(yy * w
                    + xx) * 3 + c] == preview_byte(xx, yy, t as int, c) by {
                    assert((yy * w + xx) * 3 + c < base) by (nonlinear_arith)
                        requires
                            0 <= yy < y,
                            0 <= xx < w,
                            0 <= c < 3,
                            0 <= x,
                            base == (y * w + x) * 3,
                    ;
                    assert(frame@[(yy * w + xx) * 3 + c] == before[(yy * w + xx) * 3 + c]);
                }
                assert forall|xx: int, c: int| 0 <= xx < x + 1 && 0 <= c < 3 implies #[trigger] frame@[(
                y * w + xx) * 3 + c] == preview_byte(xx, y as int, t as int, c) by {
                    if xx < x {
                        assert((y * w + xx) * 3 + c < base) by (nonlinear_arith)
                            requires
                                0 <= xx < x,
                                0 <= c < 3,
                                base == (y * w + x) * 3,
                        ;
                        assert(frame@[(y * w + xx) * 3 + c] == before[(y * w + xx) * 3 + c]);
                    } else {
                        assert((y * w + xx) * 3 + c == base + c) by (nonlinear_arith)
                            requires
                                xx == x,
                                base == (y * w + x) * 3,
                        ;
                    }
                }
                assert((y * w + (x + 1)) * 3 == base + 3) by (nonlinear_arith)
                    requires
                        base == (y * w + x) * 3,
                ;
            }
            x += 1;
        }
        proof {
            assert((y * w + w) * 3 == (y + 1) * w * 3) by (nonlinear_arith);
            assert forall|yy: int, xx: int, c: int|
                0 <= yy < y + 1 && 0 <= xx < w && 0 <= c < 3 implies #[trigger] frame@[(yy * w
                + xx) * 3 + c] == preview_byte(xx, yy, t as int, c) by {
                if yy == y {
                    assert(frame@[(y * w + xx) * 3 + c] == preview_byte(xx, y as int, t as int, c));
                }
            }
        }
        y += 1;
    }
    assert(h * w * 3 == width * height * 3) by (nonlinear_arith)
        requires
            h == height,
            w == width,
    ;
    frame
}

impl CameraPreviewStore {
    /// A store without previews.
    pub fn new() -> (r: Self)
        ensures
            r.sessions@.len() == 0,
    {
        Self { sessions: Vec::new() }
    }

    /// The index of the first preview with this name.
    pub fn find(&self, session_id: &str) -> (r: Option<usize>)
        ensures
            r matches Some(i) ==> i == preview_index(self.sessions@, session_id@) && i
                < self.sessions@.len(),
            r is None ==> preview_index(self.sessions@, session_id@) == self.sessions@.len(),
    {
        let mut i: usize = 0;
        while i < self.sessions.len()
            invariant
                i <= self.sessions.len(),
                forall|j: int| 0 <= j < i ==> self.sessions@[j].id@ != session_id@,
            decreases self.sessions.len() - i,
        {
            if str_eq(self.sessions[i].id.as_str(), session_id) {
                proof {
                    lemma_preview_index(self.sessions@, session_id@);
                }
                return Some(i);
            }
            i += 1;
        }
        proof {
            lemma_preview_index(self.sessions@, session_id@);
        }
        None
    }
}

/// The name of a preview started at a millisecond.
pub open spec fn preview_session_id(millis: int) -> Seq<char> {
    "preview_"@ + signed_decimal(millis)
}

/// Starts a preview of a camera at the millisecond `now_millis` and gives its
/// name: an active preview of 1280 by 720 pixels that shows a grey picture.
/// A preview of the same name is replaced.
pub fn start_camera_preview_at(store: &mut CameraPreviewStore, camera_id: &str, now_millis: i64)
    -> (r: Result<String, String>)
    ensures
        r matches Ok(id) && id@ == preview_session_id(now_millis as int) && ({
            let i = preview_index(old(store).sessions@, id@);
            let s = final(store).sessions@[i];
            &&& final(store).sessions@.len() == if i < old(store).sessions@.len() {
                old(store).sessions@.len()
            } else {
                old(store).sessions@.len() + 1
            }
            &&& s.id@ == id@ && s.camera_id@ == camera_id@ && s.is_active && s.width == 1280
                && s.height == 720 && s.frame_data@.len() == 1280 * 720 * 3
            &&& forall|k: int| 0 <= k < s.frame_data@.len() ==> s.frame_data@[k] == 128
            &&& forall|j: int|
                0 <= j < old(store).sessions@.len() && j != i ==> final(store).sessions@[j] == old(store).sessions@[j]
        }),
{
    let mut id = String::from_str("preview_");
    push_signed_decimal(&mut id, now_millis as i128);
    let mut session = CameraPreviewSession::new(id.clone(), String::from_str(camera_id));
    session.is_active = true;
    session.width = 1280;
    session.height = 720;
    let mut frame: Vec<u8> = Vec::new();
    let mut k: usize = 0;
    while k < 1280 * 720 * 3
        invariant
            k <= 1280 * 720 * 3,
            frame@.len() == k,
            forall|j: int| 0 <= j < k ==> frame@[j] == 128,
        decreases 1280 * 720 * 3 - k,
    {
        frame.push(128);
        k += 1;
    }
    session.frame_data = frame;
    match store.find(id.as_str()) {
        Some(i) => {
            store.sessions.set(i, session);
        },
        None => {
            store.sessions.push(session);
        },
    }
    Ok(id)
}

/// Starts a preview of a camera and gives its name, which is taken from the
/// moment of the call.
pub fn start_camera_preview(store: &mut CameraPreviewStore, camera_id: &str) -> (r: Result<
    String,
    String,
>)
    ensures
        r matches Ok(id) && (exists|millis: i64| id@ == preview_session_id(millis as int)) && ({
            let i = preview_index(old(store).sessions@, id@);
            let s = final(store).sessions@[i];
            &&& final(store).sessions@.len() == if i < old(store).sessions@.len() {
                old(store).sessions@.len()
            } else {
                old(store).sessions@.len() + 1
            }
            &&& s.id@ == id@ && s.camera_id@ == camera_id@ && s.is_active && s.width == 1280
                && s.height == 720 && s.frame_data@.len() == 1280 * 720 * 3
            &&& forall|k: int| 0 <= k < s.frame_data@.len() ==> s.frame_data@[k] == 128
            &&& forall|j: int|
                0 <= j < old(store).sessions@.len() && j != i ==> final(store).sessions@[j] == old(store).sessions@[j]
        }),
{
    start_camera_preview_at(store, camera_id, utc_timestamp_millis())
}

/// Stops a preview: from now on it is not active and holds no picture. A name
/// that no preview has changes nothing.
pub fn stop_camera_preview(store: &mut CameraPreviewStore, session_id: &str) -> (r: Result<
    (),
    String,
>)
    ensures
        r is Ok,
        final(store).sessions@.len() == old(store).sessions@.len(),
        ({
            let i = preview_index(old(store).sessions@, session_id@);
            &&& i < old(store).sessions@.len() ==> final(store).sessions@[i] == (
            CameraPreviewSession {
                is_active: false,
                frame_data: final(store).sessions@[i].frame_data,
                ..old(store).sessions@[i]
            }) && final(store).sessions@[i].frame_data@.len() == 0
            &&& forall|j: int|
                0 <= j < old(store).sessions@.len() && j != i ==> final(store).sessions@[j] == old(store).sessions@[j]
        }),
{
    match store.find(session_id) {
        Some(i) => {
            let old_session = &store.sessions[i];
            let stopped = CameraPreviewSession {
                id: old_session.id.clone(),
                camera_id: old_session.camera_id.clone(),
                is_active: false,
                frame_data: Vec::new(),
                width: old_session.width,
                height: old_session.height,
            };
            store.sessions.set(i, stopped);
        },
        None => {},
    }
    Ok(())
}

/// What keeps a preview from giving a picture: that there is none of the
/// name, that it is not active, or that its picture is too large to hold.
pub open spec fn preview_issue(sessions: Seq<CameraPreviewSession>, session_id: Seq<char>)
    -> Option<Seq<char>> {
    let i = preview_index(sessions, session_id);
    if i >= sessions.len() {
        Some("Preview session not found"@)
    } else if !sessions[i].is_active {
        Some("Preview session is not active"@)
    } else if sessions[i].width * sessions[i].height * 3 > u32::MAX {
        Some("Preview frame is too large"@)
    } else {
        None
    }
}

/// The picture that a preview shows at the millisecond `time`, with its width
/// and height: the moving test picture, which the preview holds from now on.
pub fn camera_preview_frame(store: &mut CameraPreviewStore, session_id: &str, time: u32) -> (r:
    Result<(Vec<u8>, u32, u32), String>)
    ensures
        r is Ok <==> preview_issue(old(store).sessions@, session_id@) is None,
        r matches Err(m) ==> Some(m@) == preview_issue(old(store).sessions@, session_id@)
            && *final(store) == *old(store),
        r matches Ok(f) ==> ({
            let i = preview_index(old(store).sessions@, session_id@);
            &&& f.1 == old(store).sessions@[i].width
            &&& f.2 == old(store).sessions@[i].height
            &&& is_preview_frame(f.0@, f.1 as int, f.2 as int, time as int)
            &&& final(store).sessions@.len() == old(store).sessions@.len()
            &&& final(store).sessions@[i].frame_data@ == f.0@
            &&& forall|j: int|
                0 <= j < old(store).sessions@.len() && j != i ==> final(store).sessions@[j] == old(store).sessions@[j]
        }),
{
    let i = match store.find(session_id) {
        Some(i) => i,
        None => {
            return Err(String::from_str("Preview session not found"));
        },
    };
    let session = &store.sessions[i];
    if !session.is_active {
        return Err(String::from_str("Preview session is not active"));
    }
    let width = session.width;
    let height = session.height;
    assert(width * height <= 0xffff_ffff * 0xffff_ffff) by (nonlinear_arith)
        requires
            width <= 0xffff_ffff,
            height <= 0xffff_ffff,
    ;
    let pixels: u128 = width as u128 * height as u128;
    if pixels * 3 > u32::MAX as u128 {
        return Err(String::from_str("Preview frame is too large"));
    }
    let frame = preview_frame(width, height, time);
    let shown = CameraPreviewSession {
        id: session.id.clone(),
        camera_id: session.camera_id.clone(),
        is_active: true,
        frame_data: frame.clone(),
        width,
        height,
    };
    store.sessions.set(i, shown);
    Ok((frame, width, height))
}

/// The picture that a preview shows at the moment of the call.
pub fn get_camera_preview_data(store: &mut CameraPreviewStore, session_id: &str) -> (r: Result<
    (Vec<u8>, u32, u32),
    String,
>)
    ensures
        r is Ok <==> preview_issue(old(store).sessions@, session_id@) is None,
        r matches Err(m) ==> Some(m@) == preview_issue(old(store).sessions@, session_id@)
            && *final(store) == *old(store),
        r matches Ok(f) ==> ({
            let i = preview_index(old(store).sessions@, session_id@);
            &&& f.1 == old(store).sessions@[i].width
            &&& f.2 == old(store).sessions@[i].height
            &&& exists|time: u32| is_preview_frame(f.0@, f.1 as int, f.2 as int, time as int)
            &&& final(store).sessions@.len() == old(store).sessions@.len()
            &&& final(store).sessions@[i].frame_data@ == f.0@
            &&& forall|j: int|
                0 <= j < old(store).sessions@.len() && j != i ==> final(store).sessions@[j] == old(store).sessions@[j]
        }),
{
    let millis = utc_timestamp_millis();
    let time: u32 = (millis % 4_294_967_296i64) as u32;
    camera_preview_frame(store, session_id, time)
}

/// Whether a camera of this name can be used: the two that are known can.
pub fn is_camera_available(camera_id: &str) -> (r: bool)
    ensures
        r == (camera_id@ == "camera-1"@ || camera_id@ == "camera-2"@),
{
    str_eq(camera_id, "camera-1") || str_eq(camera_id, "camera-2")
}

} // verus!
