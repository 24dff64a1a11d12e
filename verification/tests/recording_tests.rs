use clipforge::commands::recording::{
    ensure_permissions, pip_settings_from_request, validate_recording_settings,
    RecordingSettingsRequest,
};
use clipforge::recording::camera::{
    camera_preview_frame, cameras_for_devices, get_mock_cameras, is_camera_available,
    pause_camera_recording, resume_camera_recording, start_camera_preview_at,
    start_camera_recording_at, stop_camera_preview, stop_camera_recording,
    validate_camera_settings, CameraPreviewStore, CameraRecordingSession, CameraRecordingSettings,
};
use clipforge::recording::permissions::{
    check_camera_permission, check_microphone_permission, check_permissions_for_recording_type,
    check_screen_recording_permission, request_camera_permission, request_microphone_permission,
    request_permissions_for_recording_type, request_screen_recording_permission,
};
use clipforge::recording::pip::{
    calculate_pip_dimensions, calculate_pip_position, get_pip_preview, pip_recording_args,
    start_pip_recording_in, stop_pip_recording, validate_pip_settings, PiPPosition,
    PiPRecordingSession, PiPRecordingSettings, PiPSize,
};
use clipforge::recording::process_manager::is_error_line;
use clipforge::recording::screen::{
    get_display_name, parse_display_id, pause_screen_recording, resume_screen_recording,
    screen_info, screen_recording_args, start_screen_recording_in, stop_screen_recording,
    validate_screen_settings, CaptureArea, ScreenRecordingSession, ScreenRecordingSettings,
};
use clipforge::recording::session::{
    status_name, RecordingSessionManager, RecordingSessionStatus, RecordingSessionType,
};

#[test]
fn test_get_available_cameras() {
    let cameras = cameras_for_devices(0);
    assert!(!cameras.is_empty());
    assert!(cameras.iter().any(|c| c.is_default));
    assert_eq!(cameras.len(), get_mock_cameras().len());
    assert_eq!(cameras[0].id, "camera-1");
    assert_eq!(cameras[1].name, "External USB Camera");

    let found = cameras_for_devices(3);
    assert_eq!(found.len(), 3);
    assert_eq!(found[0].name, "FaceTime HD Camera");
    assert_eq!(found[2].id, "camera-3");
    assert_eq!(found[2].name, "Camera 3");
    assert_eq!(found[2].capabilities.supported_formats, vec!["mp4", "mov"]);
}

#[test]
fn test_camera_recording_session_creation() {
    let settings = CameraRecordingSettings {
        camera_id: "camera-1".to_string(),
        quality: "medium".to_string(),
        frame_rate: 30,
        audio_enabled: true,
        show_preview: true,
        audio_device_id: None,
    };

    let session = CameraRecordingSession::new("test-session".to_string(), settings);
    assert_eq!(session.id, "test-session");
    assert!(!session.is_recording);
    assert!(session.start_time.is_none());
}

#[test]
fn test_validate_camera_settings() {
    let valid_settings = CameraRecordingSettings {
        camera_id: "camera-1".to_string(),
        quality: "medium".to_string(),
        frame_rate: 30,
        audio_enabled: true,
        show_preview: true,
        audio_device_id: None,
    };

    assert!(validate_camera_settings(&valid_settings).is_ok());

    let invalid_settings = CameraRecordingSettings {
        camera_id: "".to_string(),
        quality: "medium".to_string(),
        frame_rate: 30,
        audio_enabled: true,
        show_preview: true,
        audio_device_id: None,
    };

    assert!(validate_camera_settings(&invalid_settings).is_err());
}

#[test]
fn test_validate_camera_settings_messages() {
    let mut settings = CameraRecordingSettings {
        camera_id: "".to_string(),
        quality: "medium".to_string(),
        frame_rate: 0,
        audio_enabled: true,
        show_preview: true,
        audio_device_id: None,
    };
    assert_eq!(validate_camera_settings(&settings).unwrap_err(), "Camera ID is required");
    settings.camera_id = "camera-1".to_string();
    assert_eq!(
        validate_camera_settings(&settings).unwrap_err(),
        "Frame rate must be between 1 and 60 fps"
    );
    settings.frame_rate = 61;
    assert!(validate_camera_settings(&settings).is_err());
    settings.frame_rate = 60;
    assert!(validate_camera_settings(&settings).is_ok());
    settings.frame_rate = 1;
    assert!(validate_camera_settings(&settings).is_ok());
}

#[test]
fn test_camera_availability() {
    assert!(is_camera_available("camera-1"));
    assert!(is_camera_available("camera-2"));
    assert!(!is_camera_available("non-existent-camera"));
}

#[test]
fn test_camera_recording_lifecycle() {
    let settings = CameraRecordingSettings {
        camera_id: "camera-1".to_string(),
        quality: "medium".to_string(),
        frame_rate: 30,
        audio_enabled: true,
        show_preview: true,
        audio_device_id: None,
    };
    let mut session = start_camera_recording_at(settings, 1700000000123, "/tmp/rec");
    assert_eq!(session.id, "camera_recording_1700000000123");
    assert!(session.is_recording);
    assert!(session.start_time.is_some());
    assert_eq!(
        session.file_path,
        Some("/tmp/rec/camera_recording_camera_recording_1700000000123.mp4".to_string())
    );
    assert_eq!(
        resume_camera_recording(&mut session).unwrap_err(),
        "Recording session is already active"
    );
    assert!(pause_camera_recording(&mut session).is_ok());
    assert!(!session.is_recording);
    assert!(session.start_time.is_none());
    assert_eq!(stop_camera_recording(&mut session).unwrap_err(), "No active recording session");
    assert_eq!(pause_camera_recording(&mut session).unwrap_err(), "No active recording session");
    assert!(resume_camera_recording(&mut session).is_ok());
    assert!(session.is_recording);
    assert!(stop_camera_recording(&mut session).is_ok());
    assert!(!session.is_recording);
}

#[test]
fn test_camera_preview() {
    let mut store = CameraPreviewStore::new();
    let id = start_camera_preview_at(&mut store, "camera-1", 42).unwrap();
    assert_eq!(id, "preview_42");
    assert_eq!(store.sessions.len(), 1);
    assert!(store.sessions[0].is_active);
    assert_eq!(store.sessions[0].frame_data.len(), 1280 * 720 * 3);
    assert!(store.sessions[0].frame_data.iter().all(|b| *b == 128));

    // a second preview of the same name takes the place of the first
    let again = start_camera_preview_at(&mut store, "camera-2", 42).unwrap();
    assert_eq!(again, id);
    assert_eq!(store.sessions.len(), 1);
    assert_eq!(store.sessions[0].camera_id, "camera-2");

    let (frame, width, height) = camera_preview_frame(&mut store, &id, 3000).unwrap();
    assert_eq!((width, height), (1280, 720));
    assert_eq!(frame.len(), 1280 * 720 * 3);
    // pixel x = 7, y = 2 at 3000 ms
    let at = (2 * 1280 + 7) * 3;
    assert_eq!(frame[at], ((7 + 300) % 255) as u8);
    assert_eq!(frame[at + 1], ((2 + 200) % 255) as u8);
    assert_eq!(frame[at + 2], ((7 + 2 + 150) % 255) as u8);
    assert_eq!(store.sessions[0].frame_data, frame);

    assert_eq!(
        camera_preview_frame(&mut store, "preview_0", 0).unwrap_err(),
        "Preview session not found"
    );
    assert!(stop_camera_preview(&mut store, &id).is_ok());
    assert!(!store.sessions[0].is_active);
    assert!(store.sessions[0].frame_data.is_empty());
    assert_eq!(
        camera_preview_frame(&mut store, &id, 0).unwrap_err(),
        "Preview session is not active"
    );
    assert!(stop_camera_preview(&mut store, "preview_0").is_ok());

    // a picture that cannot be held
    let again = start_camera_preview_at(&mut store, "camera-1", 43).unwrap();
    store.sessions[1].width = 40000;
    store.sessions[1].height = 40000;
    assert_eq!(
        camera_preview_frame(&mut store, &again, 0).unwrap_err(),
        "Preview frame is too large"
    );
    store.sessions[1].width = 2;
    store.sessions[1].height = 1;
    let (frame, _, _) = camera_preview_frame(&mut store, &again, 2550).unwrap();
    assert_eq!(frame, vec![0, 170, 127, 1, 170, 128]);
}

#[test]
fn test_check_permissions_for_recording_type() {
    // These tests will fail until we implement actual permission checks
    // But they validate the logic flow
    let result = check_permissions_for_recording_type("screen");
    // Should either return Ok or Err depending on permission status
    assert!(result.is_ok() || result.is_err());
}

#[test]
fn test_invalid_recording_type() {
    let result = check_permissions_for_recording_type("invalid");
    assert!(result.is_err());
}

#[test]
fn test_permission_answers() {
    assert!(!check_screen_recording_permission());
    assert!(!check_camera_permission());
    assert!(!check_microphone_permission());
    assert!(request_screen_recording_permission());
    assert!(request_camera_permission());
    assert!(request_microphone_permission());
    assert_eq!(
        check_permissions_for_recording_type("screen").unwrap_err(),
        "Screen recording permission not granted"
    );
    assert_eq!(
        check_permissions_for_recording_type("webcam").unwrap_err(),
        "Camera permission not granted"
    );
    assert_eq!(
        check_permissions_for_recording_type("pip").unwrap_err(),
        "Screen recording permission not granted"
    );
    assert_eq!(
        check_permissions_for_recording_type("invalid").unwrap_err(),
        "Unknown recording type: invalid"
    );
    assert!(request_permissions_for_recording_type("screen").is_ok());
    assert!(request_permissions_for_recording_type("webcam").is_ok());
    assert!(request_permissions_for_recording_type("pip").is_ok());
    assert_eq!(
        request_permissions_for_recording_type("tape").unwrap_err(),
        "Unknown recording type: tape"
    );
    let e = ensure_permissions("webcam").unwrap_err();
    assert_eq!(e.error_type, "validation_error");
    assert_eq!(e.message, "Permission not granted: Camera permission not granted");
    let e = ensure_permissions("tape").unwrap_err();
    assert_eq!(e.message, "Permission error: Unknown recording type: tape");
}

fn pip_settings(screen_id: &str) -> PiPRecordingSettings {
    PiPRecordingSettings {
        screen_id: screen_id.to_string(),
        camera_id: "camera-1".to_string(),
        quality: "medium".to_string(),
        frame_rate: 30,
        audio_enabled: true,
        pip_position: PiPPosition::BottomRight,
        pip_size: PiPSize::Medium,
        capture_area: None,
        audio_device_id: None,
    }
}

#[test]
fn test_pip_recording_session_creation() {
    let settings = PiPRecordingSettings {
        screen_id: "screen-1".to_string(),
        camera_id: "camera-1".to_string(),
        quality: "medium".to_string(),
        frame_rate: 30,
        audio_enabled: true,
        pip_position: PiPPosition::BottomRight,
        pip_size: PiPSize::Medium,
        capture_area: None,
        audio_device_id: None,
    };

    let session = PiPRecordingSession::new("test-session".to_string(), settings);
    assert_eq!(session.id, "test-session");
    assert!(!session.is_recording);
    assert!(session.start_time.is_none());
}

#[test]
fn test_validate_pip_settings() {
    let valid_settings = PiPRecordingSettings {
        screen_id: "screen-1".to_string(),
        camera_id: "camera-1".to_string(),
        quality: "medium".to_string(),
        frame_rate: 30,
        audio_enabled: true,
        pip_position: PiPPosition::BottomRight,
        pip_size: PiPSize::Medium,
        capture_area: None,
        audio_device_id: None,
    };

    assert!(validate_pip_settings(&valid_settings).is_ok());

    let invalid_settings = PiPRecordingSettings {
        screen_id: "".to_string(),
        camera_id: "camera-1".to_string(),
        quality: "medium".to_string(),
        frame_rate: 30,
        audio_enabled: true,
        pip_position: PiPPosition::BottomRight,
        pip_size: PiPSize::Medium,
        capture_area: None,
        audio_device_id: None,
    };

    assert!(validate_pip_settings(&invalid_settings).is_err());
}

#[test]
fn test_validate_pip_settings_messages() {
    let mut settings = pip_settings("");
    assert_eq!(validate_pip_settings(&settings).unwrap_err(), "Screen ID is required");
    settings.screen_id = "screen-1".to_string();
    settings.camera_id = String::new();
    assert_eq!(validate_pip_settings(&settings).unwrap_err(), "Camera ID is required");
    settings.camera_id = "camera-1".to_string();
    settings.frame_rate = 0;
    assert_eq!(
        validate_pip_settings(&settings).unwrap_err(),
        "Frame rate must be between 1 and 60 fps"
    );
    settings.frame_rate = 24;
    settings.capture_area = Some(CaptureArea { x: 0, y: 0, width: 0, height: 10 });
    assert_eq!(
        validate_pip_settings(&settings).unwrap_err(),
        "Capture area dimensions must be greater than 0"
    );
    settings.capture_area = Some(CaptureArea { x: 0, y: 0, width: 10, height: 10 });
    assert!(validate_pip_settings(&settings).is_ok());
}

#[test]
fn test_calculate_pip_dimensions() {
    let (width, height) = calculate_pip_dimensions(1920, 1080, &PiPSize::Medium);
    assert_eq!(width, 480); // 1920 / 4
    assert_eq!(height, 270); // 1080 / 4

    let (width, height) = calculate_pip_dimensions(1920, 1080, &PiPSize::Small);
    assert_eq!(width, 240); // 1920 / 4 / 2
    assert_eq!(height, 135); // 1080 / 4 / 2
}

#[test]
fn test_calculate_pip_dimensions_large() {
    assert_eq!(calculate_pip_dimensions(1920, 1080, &PiPSize::Large), (960, 540));
    assert_eq!(calculate_pip_dimensions(u32::MAX, 7, &PiPSize::Large), (2147483646, 2));
    assert_eq!(calculate_pip_dimensions(0, 0, &PiPSize::Small), (0, 0));
}

#[test]
fn test_calculate_pip_position() {
    let (x, y) = calculate_pip_position(1920, 1080, 480, 270, &PiPPosition::TopLeft);
    assert_eq!(x, 0);
    assert_eq!(y, 0);

    let (x, y) = calculate_pip_position(1920, 1080, 480, 270, &PiPPosition::BottomRight);
    assert_eq!(x, 1440); // 1920 - 480
    assert_eq!(y, 810); // 1080 - 270
}

#[test]
fn test_calculate_pip_position_other_corners() {
    assert_eq!(calculate_pip_position(1920, 1080, 480, 270, &PiPPosition::TopRight), (1440, 0));
    assert_eq!(calculate_pip_position(1920, 1080, 480, 270, &PiPPosition::BottomLeft), (0, 810));
    // a screen wider than the coordinates reach, with a picture that leaves
    // a difference within their reach
    assert_eq!(
        calculate_pip_position(
            3_000_000_000,
            4_000_000_000,
            2_000_000_000,
            4_000_000_000,
            &PiPPosition::BottomRight
        ),
        (1_000_000_000, 0)
    );
    assert_eq!(
        calculate_pip_position(u32::MAX, 7, u32::MAX - 2147483647, 7, &PiPPosition::TopRight),
        (i32::MAX, 0)
    );
}

#[test]
fn test_pip_recording_args() {
    let args = pip_recording_args(&pip_settings("screen-2"), "/out/pip.mp4").unwrap();
    let expected = vec![
        "-f", "avfoundation", "-r", "30", "-i", "Capture screen 1:",
        "-f", "avfoundation", "-r", "30", "-i", "0:0",
        "-use_wallclock_as_timestamps", "1",
        "-filter_complex",
        "[0:v]setpts=PTS-STARTPTS[screen];[1:v]setpts=PTS-STARTPTS,scale=iw/4:ih/4[pip];[screen][pip]overlay=20:main_h-overlay_h-20[vout]",
        "-map", "[vout]",
        "-map", "1:a?", "-c:a", "aac", "-b:a", "128k", "-af", "aresample=async=1:first_pts=0",
        "-c:v", "libx264", "-preset", "ultrafast", "-crf", "23", "-pix_fmt", "yuv420p",
        "-vsync", "1", "-y", "/out/pip.mp4",
    ];
    assert_eq!(args, expected);

    let mut silent = pip_settings("screen-0");
    silent.audio_enabled = false;
    silent.camera_id = "3".to_string();
    silent.quality = "high".to_string();
    let args = pip_recording_args(&silent, "o.mp4").unwrap();
    assert_eq!(args[5], "Capture screen 0:");
    assert_eq!(args[11], "3:0");
    assert!(!args.contains(&"1:a?".to_string()));
    assert_eq!(args[args.len() - 7], "18");

    assert_eq!(
        pip_recording_args(&pip_settings("display-1"), "o.mp4").unwrap_err(),
        "Invalid screen ID format"
    );
    assert_eq!(
        pip_recording_args(&pip_settings("screen-x"), "o.mp4").unwrap_err(),
        "Invalid screen ID"
    );
}

#[test]
fn test_start_and_stop_pip_recording() {
    let launch =
        start_pip_recording_in("s1".to_string(), pip_settings("screen-1"), "/bin/ffmpeg", "/a")
            .unwrap();
    assert_eq!(launch.program, "/bin/ffmpeg");
    assert_eq!(launch.output_path, "/a/pip_recording_s1.mp4");
    assert_eq!(launch.args.last().unwrap(), "/a/pip_recording_s1.mp4");
    assert_eq!(
        start_pip_recording_in("s1".to_string(), pip_settings(""), "/bin/ffmpeg", "/a")
            .unwrap_err(),
        "Screen ID is required"
    );

    let mut session = PiPRecordingSession::new("s1".to_string(), pip_settings("screen-1"));
    assert_eq!(stop_pip_recording(&mut session).unwrap_err(), "No active recording session");
    session.is_recording = true;
    session.screen_session = Some("a".to_string());
    assert!(stop_pip_recording(&mut session).is_ok());
    assert!(!session.is_recording);
    assert!(session.screen_session.is_none());
    assert_eq!(get_pip_preview("screen-1", "camera-1").unwrap(), Vec::<u8>::new());
}

#[test]
fn test_get_available_screens() {
    let main = screen_info(1, 1, 0, 2560, 1440, 0, 0);
    let second = screen_info(5, 1, 1, 1920, 1080, 2560, 0);
    let screens = vec![main, second];
    assert!(!screens.is_empty());
    assert!(screens.iter().any(|s| s.is_primary));
    assert_eq!(screens[0].id, "screen-1");
    assert_eq!(screens[0].name, "Built-in Retina Display");
    assert_eq!(screens[0].scale_factor, 2_000_000);
    assert_eq!(screens[1].id, "screen-5");
    assert_eq!(screens[1].name, "Display 2");
    assert_eq!(screens[1].scale_factor, 1_000_000);
    assert_eq!((screens[1].width, screens[1].height, screens[1].x), (1920, 1080, 2560));
    assert_eq!(get_display_name(3, 1, 4), "Display 5");
}

#[test]
fn test_screen_recording_session_creation() {
    let settings = ScreenRecordingSettings {
        screen_id: "screen-1".to_string(),
        quality: "medium".to_string(),
        frame_rate: 30,
        audio_enabled: false,
        capture_area: None,
    };

    let session = ScreenRecordingSession::new("test-session".to_string(), settings);
    assert_eq!(session.id, "test-session");
    assert!(!session.is_recording);
    assert!(session.start_time.is_none());
}

#[test]
fn test_validate_screen_settings() {
    let valid_settings = ScreenRecordingSettings {
        screen_id: "screen-1".to_string(),
        quality: "medium".to_string(),
        frame_rate: 30,
        audio_enabled: false,
        capture_area: None,
    };

    assert!(validate_screen_settings(&valid_settings).is_ok());

    let invalid_settings = ScreenRecordingSettings {
        screen_id: "".to_string(),
        quality: "medium".to_string(),
        frame_rate: 30,
        audio_enabled: false,
        capture_area: None,
    };

    assert!(validate_screen_settings(&invalid_settings).is_err());
}

#[test]
fn test_screen_recording_args_and_start() {
    let settings = ScreenRecordingSettings {
        screen_id: "screen-3".to_string(),
        quality: "low".to_string(),
        frame_rate: 25,
        audio_enabled: false,
        capture_area: None,
    };
    let args = screen_recording_args(&settings, "/out/r.mp4").unwrap();
    assert_eq!(
        args,
        vec![
            "-f", "avfoundation", "-capture_cursor", "1", "-capture_mouse_clicks", "1", "-r",
            "25", "-i", "Capture screen 2:", "-c:v", "libx264", "-preset", "veryfast", "-crf",
            "28", "-pix_fmt", "yuv420p", "-y", "/out/r.mp4",
        ]
    );
    assert_eq!(parse_display_id("screen-12").unwrap(), 12);
    assert_eq!(parse_display_id("screen-+12").unwrap(), 12);
    assert_eq!(parse_display_id("screen-").unwrap_err(), "Invalid screen ID");
    assert_eq!(parse_display_id("screen-4294967296").unwrap_err(), "Invalid screen ID");
    assert_eq!(parse_display_id("screen-4294967295").unwrap(), u32::MAX);
    assert_eq!(parse_display_id("Screen-1").unwrap_err(), "Invalid screen ID format");

    let (mut session, launch) = start_screen_recording_in(
        "abc".to_string(),
        settings.clone(),
        "/bin/ffmpeg".to_string(),
        "/assets",
    )
    .unwrap();
    assert!(session.is_recording);
    assert_eq!(session.file_path, Some("/assets/recording_abc.mp4".to_string()));
    assert_eq!(launch.output_path, "/assets/recording_abc.mp4");
    assert_eq!(launch.program, "/bin/ffmpeg");
    assert_eq!(launch.args.last().unwrap(), "/assets/recording_abc.mp4");
    assert!(pause_screen_recording(&mut session).is_ok());
    assert_eq!(stop_screen_recording(&mut session).unwrap_err(), "No active recording session");
    assert!(resume_screen_recording(&mut session).is_ok());
    assert_eq!(
        resume_screen_recording(&mut session).unwrap_err(),
        "Recording session is already active"
    );

    let mut bad = settings;
    bad.screen_id = "monitor".to_string();
    let e = start_screen_recording_in("abc".to_string(), bad, "ffmpeg".to_string(), "/assets")
        .unwrap_err();
    assert_eq!(e, "Failed to start screen recording: Invalid screen ID format");
}

#[test]
fn test_create_session() {
    let mut manager = RecordingSessionManager::new();
    let session_id = manager.create_session(RecordingSessionType::Screen).unwrap();
    assert!(!session_id.is_empty());

    let session = manager.get_session(&session_id).unwrap();
    assert_eq!(session.session_type, RecordingSessionType::Screen);
    assert_eq!(session.status, RecordingSessionStatus::Idle);
}

#[test]
fn test_start_stop_session() {
    let mut manager = RecordingSessionManager::new();
    let session_id = manager.create_session(RecordingSessionType::Camera).unwrap();

    manager.start_session(&session_id).unwrap();
    let session = manager.get_session(&session_id).unwrap();
    assert_eq!(session.status, RecordingSessionStatus::Recording);

    manager.stop_session(&session_id).unwrap();
    let session = manager.get_session(&session_id).unwrap();
    assert_eq!(session.status, RecordingSessionStatus::Stopping);
}

#[test]
fn test_pause_resume_session() {
    let mut manager = RecordingSessionManager::new();
    let session_id = manager.create_session(RecordingSessionType::PiP).unwrap();

    manager.start_session(&session_id).unwrap();
    manager.pause_session(&session_id).unwrap();
    let session = manager.get_session(&session_id).unwrap();
    assert_eq!(session.status, RecordingSessionStatus::Paused);

    manager.resume_session(&session_id).unwrap();
    let session = manager.get_session(&session_id).unwrap();
    assert_eq!(session.status, RecordingSessionStatus::Recording);
}

#[test]
fn test_update_progress() {
    let mut manager = RecordingSessionManager::new();
    let session_id = manager.create_session(RecordingSessionType::Screen).unwrap();

    manager.update_progress(&session_id, 30_500_000, 1024000, 900).unwrap();
    let session = manager.get_session(&session_id).unwrap();
    assert_eq!(session.duration, 30_500_000);
}

#[test]
fn test_set_session_error() {
    let mut manager = RecordingSessionManager::new();
    let session_id = manager.create_session(RecordingSessionType::Camera).unwrap();

    manager.set_session_error(&session_id, "Test error".to_string()).unwrap();
    let session = manager.get_session(&session_id).unwrap();
    assert_eq!(session.status, RecordingSessionStatus::Error);
    assert_eq!(session.error, Some("Test error".to_string()));
}

#[test]
fn test_session_manager_bookkeeping() {
    let mut manager = RecordingSessionManager::new();
    let a = manager.create_session_at(RecordingSessionType::Screen, 1000).unwrap();
    let b = manager.create_session_at(RecordingSessionType::Camera, 2000).unwrap();
    assert_eq!(a, "recording_1000");
    assert_eq!(b, "recording_2000");
    assert_eq!(manager.start_session("nobody").unwrap_err(), "Session not found");
    assert_eq!(manager.get_session("nobody").unwrap_err(), "Session not found");

    manager.start_session_at(&a, "2020-01-01T00:00:00+00:00".to_string()).unwrap();
    manager.start_session_at(&b, "2020-01-01T01:30:00+00:00".to_string()).unwrap();
    manager.start_session_at(&a, "2020-01-01T00:00:00+00:00".to_string()).unwrap();
    assert_eq!(manager.active_sessions, vec![a.clone(), b.clone()]);
    assert_eq!(manager.get_active_sessions().unwrap().len(), 2);
    manager.update_file_path(&a, "/x.mp4".to_string()).unwrap();
    assert_eq!(manager.get_session(&a).unwrap().file_path, Some("/x.mp4".to_string()));
    let progress = manager.get_session_progress(&a).unwrap();
    assert!(progress.is_recording);
    assert_eq!(progress.session_id, a);

    manager.stop_session(&a).unwrap();
    assert_eq!(manager.active_sessions, vec![b.clone()]);
    assert!(!manager.get_session_progress(&a).unwrap().is_recording);

    // two hours after the first start: the stopped session is forgotten, the
    // active one is kept although it is as old
    let two_hours_later = 1_577_836_800_000_000 + 2 * 3_600_000_000;
    manager.cleanup_completed_sessions_at(two_hours_later).unwrap();
    assert_eq!(manager.sessions.len(), 1);
    assert_eq!(manager.sessions[0].id, b);

    // a session that never started is kept
    let c = manager.create_session_at(RecordingSessionType::PiP, 3000).unwrap();
    manager.stop_session(&b).unwrap();
    manager.cleanup_completed_sessions_at(two_hours_later).unwrap();
    assert_eq!(manager.sessions.len(), 2);
    manager.cleanup_completed_sessions_at(two_hours_later + 3_600_000_000).unwrap();
    assert_eq!(manager.sessions.len(), 1);
    assert_eq!(manager.sessions[0].id, c);
    assert_eq!(status_name(RecordingSessionStatus::Stopping), "stopping");
    assert_eq!(status_name(RecordingSessionStatus::Idle), "idle");
}

#[test]
fn test_validate_recording_settings() {
    let mut request = RecordingSettingsRequest {
        recording_type: "pip".to_string(),
        screen_id: Some("screen-1".to_string()),
        camera_id: None,
        quality: "high".to_string(),
        frame_rate: 30,
        audio_enabled: true,
        audio_device_id: None,
        show_preview: None,
        pip_position: Some("top-right".to_string()),
        pip_size: Some("huge".to_string()),
        project_id: "p".to_string(),
    };
    let e = validate_recording_settings(&request).unwrap_err();
    assert_eq!(e.error_type, "validation_error");
    assert_eq!(e.message, "Both screen ID and camera ID are required for PiP recording");
    request.camera_id = Some("camera-1".to_string());
    assert!(validate_recording_settings(&request).is_ok());
    let pip = pip_settings_from_request(&request);
    assert_eq!(pip.pip_position, PiPPosition::TopRight);
    assert_eq!(pip.pip_size, PiPSize::Medium);
    assert_eq!(pip.screen_id, "screen-1");

    request.recording_type = "screen".to_string();
    request.screen_id = None;
    assert_eq!(
        validate_recording_settings(&request).unwrap_err().message,
        "Screen ID is required for screen recording"
    );
    request.recording_type = "webcam".to_string();
    request.camera_id = None;
    assert_eq!(
        validate_recording_settings(&request).unwrap_err().message,
        "Camera ID is required for webcam recording"
    );
    request.recording_type = "tape".to_string();
    assert_eq!(
        validate_recording_settings(&request).unwrap_err().message,
        "Unknown recording type: tape"
    );
    request.frame_rate = 61;
    assert_eq!(
        validate_recording_settings(&request).unwrap_err().message,
        "Frame rate must be between 1 and 60 fps"
    );
}

#[test]
fn test_is_error_line() {
    assert!(is_error_line("[h264] Error while decoding"));
    assert!(is_error_line("fatal error"));
    assert!(is_error_line("ERROR: x"));
    assert!(!is_error_line("frame= 10 fps=30"));
    assert!(!is_error_line("eRRor"));
}
