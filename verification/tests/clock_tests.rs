use clipforge::clock::duration_from_elapsed;
use clipforge::commands::export::ExportStatus;
use clipforge::commands::file_ops::create_media_clip;
use clipforge::commands::project::{
    create_project, get_app_support_dir, get_project_dir, get_projects_dir, CreateProjectRequest,
};
use clipforge::commands::project_import::{
    generate_project_asset_filename, get_project_asset_path, get_project_assets_directory,
    get_project_directory, get_project_thumbnails_directory,
};
use clipforge::commands::recording::{
    progress_update, screen_settings_from_request, session_response, started_response,
    stopped_response, webcam_recording_path_at, RecordingSettingsRequest,
};
use clipforge::ffmpeg::probe::{extract_metadata_from_ffmpeg_output, VideoMetadata};
use clipforge::ffmpeg::temp::{
    create_and_track_temp_dir, create_and_track_temp_file, TempFileTracker,
};
use clipforge::recording::camera::{
    get_camera_preview_data, get_recording_duration, start_camera_preview,
    start_camera_recording, CameraPreviewStore, CameraRecordingSettings,
};
use clipforge::recording::pip::{
    get_recording_duration as pip_recording_duration, pause_pip_recording, resume_pip_recording,
    start_pip_recording, PiPPosition, PiPRecordingSession, PiPRecordingSettings, PiPSize,
};
use clipforge::recording::screen::{
    get_recording_duration as screen_recording_duration, start_screen_recording_with_id,
    ScreenRecordingSession, ScreenRecordingSettings,
};
use clipforge::recording::session::{RecordingSessionManager, RecordingSessionType};

fn metadata() -> VideoMetadata {
    extract_metadata_from_ffmpeg_output(
        "Duration: 00:00:02.00\nStream #0:0: Video: h264, 320x240, 24 fps\n",
        "a.mp4",
        7,
    )
    .unwrap()
}

#[test]
fn test_create_and_track_temp_file() {
    let mut tracker = TempFileTracker::new();
    let file = create_and_track_temp_file(&mut tracker, "concat", "txt").unwrap();
    assert!(file.starts_with("/tmp/clipforge/concat_"));
    assert!(file.ends_with(".txt"));
    assert_eq!(tracker.files, vec![file.clone()]);
    let second = create_and_track_temp_file(&mut tracker, "trimmed_clip", "mov").unwrap();
    assert_eq!(tracker.files, vec![file, second]);
    let dir = create_and_track_temp_dir(&mut tracker, "export").unwrap();
    assert!(dir.starts_with("/tmp/clipforge/export_"));
    assert_eq!(tracker.directories, vec![dir]);
    assert_eq!((tracker.file_count(), tracker.directory_count()), (2, 1));
    // the name holds the second and the nanosecond of its making
    let parts: Vec<&str> = tracker.files[0]
        .trim_start_matches("/tmp/clipforge/concat_")
        .trim_end_matches(".txt")
        .split('_')
        .collect();
    assert_eq!(parts.len(), 2);
    assert!(parts[0].parse::<i64>().unwrap() > 1_600_000_000);
    assert!((0..1_000_000_000).contains(&parts[1].parse::<i64>().unwrap()));
}

#[test]
fn test_project_directories() {
    match get_app_support_dir() {
        Ok(dir) => {
            assert!(dir.ends_with("Library/Application Support/com.clipforge.app"));
            assert_eq!(get_projects_dir().unwrap(), format!("{}/projects", dir));
            assert_eq!(get_project_dir("p1").unwrap(), format!("{}/projects/p1", dir));
            assert_eq!(get_project_directory("p1").unwrap(), format!("{}/projects/p1", dir));
            assert_eq!(
                get_project_assets_directory("p1").unwrap(),
                format!("{}/projects/p1/assets", dir)
            );
            assert_eq!(
                get_project_thumbnails_directory("p1").unwrap(),
                format!("{}/projects/p1/thumbnails", dir)
            );
            let request =
                CreateProjectRequest { name: "Film".to_string(), description: "d".to_string() };
            let project = create_project(request).unwrap();
            assert_eq!(project.id.len(), 36);
            assert_eq!(project.project_path, format!("{}/projects/{}", dir, project.id));
            assert_eq!(project.assets_path, format!("{}/assets", project.project_path));
            assert_eq!(project.created_at, project.updated_at);
            assert!(!project.is_active);
        }
        Err(e) => {
            assert_eq!(e.error_type, "validation_error");
            assert_eq!(e.message, "Could not find home directory");
            assert!(get_project_dir("p1").is_err());
        }
    }
    let name = generate_project_asset_filename("holiday.mov", "p1");
    assert!(name.starts_with("holiday_p1_") && name.ends_with(".mov"));
    assert_eq!(get_project_asset_path("/a", "x.mp4", true).unwrap(), "/a/x.mp4");
    assert_eq!(
        get_project_asset_path("/a", "x.mp4", false).unwrap_err().message,
        "Asset not found: x.mp4"
    );
    let clip = create_media_clip(
        "id".to_string(),
        "a.mp4".to_string(),
        "/m/a.mp4".to_string(),
        metadata(),
        "/t.jpg".to_string(),
    );
    assert_eq!((clip.id.as_str(), clip.filename.as_str()), ("id", "a.mp4"));
    assert!(clip.created_at.contains('T'));
    assert_eq!(clip.metadata.width, 320);
}

#[test]
fn test_recordings_with_the_clock() {
    let settings = CameraRecordingSettings {
        camera_id: "camera-1".to_string(),
        quality: "medium".to_string(),
        frame_rate: 30,
        audio_enabled: true,
        show_preview: true,
        audio_device_id: None,
    };
    let session = start_camera_recording(settings, "/tmp/rec").unwrap();
    assert!(session.id.starts_with("camera_recording_"));
    assert_eq!(
        session.file_path,
        Some(format!("/tmp/rec/camera_recording_{}.mp4", session.id))
    );
    assert!(get_recording_duration(&session) >= 0);

    let mut store = CameraPreviewStore::new();
    let id = start_camera_preview(&mut store, "camera-1").unwrap();
    assert!(id.starts_with("preview_"));
    let (frame, width, height) = get_camera_preview_data(&mut store, &id).unwrap();
    assert_eq!(frame.len(), (width * height * 3) as usize);
    assert!(frame.iter().all(|b| *b < 255));
    assert_eq!(
        get_camera_preview_data(&mut store, "preview_x").unwrap_err(),
        "Preview session not found"
    );

    let pip = PiPRecordingSettings {
        screen_id: "screen-1".to_string(),
        camera_id: "camera-1".to_string(),
        quality: "medium".to_string(),
        frame_rate: 30,
        audio_enabled: true,
        pip_position: PiPPosition::BottomRight,
        pip_size: PiPSize::Medium,
        capture_area: None,
        audio_device_id: None,
    };
    let mut pip_session = PiPRecordingSession::new("s".to_string(), pip.clone());
    assert_eq!(pip_recording_duration(&pip_session), 0);
    assert_eq!(pause_pip_recording(&mut pip_session).unwrap_err(), "No active recording session");
    assert!(resume_pip_recording(&mut pip_session).is_ok());
    assert!(pip_session.is_recording && pip_session.start_time.is_some());
    assert_eq!(
        resume_pip_recording(&mut pip_session).unwrap_err(),
        "Recording session is already active"
    );
    assert!(pause_pip_recording(&mut pip_session).is_ok());
    assert!(!pip_session.is_recording);
    match start_pip_recording("s".to_string(), pip.clone(), "/bin/ffmpeg", "p1".to_string()) {
        Ok(launch) => {
            assert!(launch.output_path.ends_with("/projects/p1/assets/pip_recording_s.mp4"));
            assert_eq!(launch.args.last(), Some(&launch.output_path));
        }
        Err(e) => assert_eq!(e, "Failed to get home directory"),
    }
    let mut wrong = pip;
    wrong.camera_id = String::new();
    assert_eq!(
        start_pip_recording("s".to_string(), wrong, "/bin/ffmpeg", "p1".to_string()).unwrap_err(),
        "Camera ID is required"
    );

    let screen = ScreenRecordingSettings {
        screen_id: "screen-1".to_string(),
        quality: "high".to_string(),
        frame_rate: 30,
        audio_enabled: false,
        capture_area: None,
    };
    assert_eq!(
        screen_recording_duration(&ScreenRecordingSession::new("s".to_string(), screen.clone())),
        0
    );
    match start_screen_recording_with_id(
        "s".to_string(),
        screen,
        "/bin/ffmpeg".to_string(),
        "p1".to_string(),
    ) {
        Ok((session, launch)) => {
            assert!(session.is_recording);
            assert_eq!(session.file_path, Some(launch.output_path.clone()));
            assert!(launch.output_path.ends_with("/projects/p1/assets/recording_s.mp4"));
            assert!(launch.args.contains(&"slow".to_string()));
        }
        Err(e) => assert_eq!(e, "Could not find home directory"),
    }
}

#[test]
fn test_sessions_with_the_clock() {
    let mut manager = RecordingSessionManager::new();
    let id = manager.create_session(RecordingSessionType::Screen).unwrap();
    assert!(id.starts_with("recording_"));
    manager.start_session(&id).unwrap();
    let session = manager.get_session(&id).unwrap();
    assert!(session.start_time.is_some());
    manager.stop_session(&id).unwrap();
    // it started a moment ago, so it is kept
    manager.cleanup_completed_sessions().unwrap();
    assert_eq!(manager.sessions.len(), 1);
    // one that started long ago and is not active is forgotten
    manager.start_session_at(&id, "2001-01-01T00:00:00Z".to_string()).unwrap();
    manager.cleanup_completed_sessions().unwrap();
    assert_eq!(manager.sessions.len(), 1);
    manager.stop_session(&id).unwrap();
    manager.cleanup_completed_sessions().unwrap();
    assert!(manager.sessions.is_empty());
    // a start time that cannot be read counts as recent
    let id = manager.create_session_at(RecordingSessionType::Camera, 5).unwrap();
    manager.start_session_at(&id, "yesterday".to_string()).unwrap();
    manager.stop_session(&id).unwrap();
    manager.cleanup_completed_sessions().unwrap();
    assert_eq!(manager.sessions.len(), 1);

    let info = manager.get_session(&id).unwrap();
    let told = session_response(info);
    assert_eq!((told.session_id.as_str(), told.status.as_str()), ("recording_5", "stopping"));
    let told = started_response("s".to_string());
    assert_eq!(told.status, "recording");
    let told = stopped_response("s".to_string(), Some("/f".to_string()), None, Some(metadata()));
    assert_eq!(told.status, "stopped");
    assert_eq!(told.file_path, Some("/f".to_string()));
    let update = progress_update(manager.get_session_progress(&id).unwrap());
    assert_eq!((update.session_id.as_str(), update.is_recording), ("recording_5", false));
    assert_eq!(webcam_recording_path_at("/r", 17), "/r/webcam_17.webm");
    let request = RecordingSettingsRequest {
        recording_type: "screen".to_string(),
        screen_id: Some("screen-2".to_string()),
        camera_id: None,
        quality: "low".to_string(),
        frame_rate: 15,
        audio_enabled: false,
        audio_device_id: None,
        show_preview: None,
        pip_position: None,
        pip_size: None,
        project_id: "p".to_string(),
    };
    let screen = screen_settings_from_request(&request).unwrap();
    assert_eq!((screen.screen_id.as_str(), screen.frame_rate), ("screen-2", 15));
    let mut without = request;
    without.screen_id = None;
    assert_eq!(
        screen_settings_from_request(&without).unwrap_err().message,
        "Screen ID is required for screen recording"
    );
    assert_ne!(Some(ExportStatus::Cancelled), Some(ExportStatus::Failed));
}

#[test]
fn test_duration_from_elapsed() {
    assert_eq!(duration_from_elapsed(0), 0);
    assert_eq!(duration_from_elapsed(1_500_000), 1_500_000);
    assert_eq!(duration_from_elapsed(i64::MAX as u128), i64::MAX);
    assert_eq!(duration_from_elapsed(i64::MAX as u128 + 1), i64::MAX);
    assert_eq!(duration_from_elapsed(u128::MAX), i64::MAX);
}
