use clipforge::commands::export::{
    ExportJob, ExportProgressUpdate, ExportStatus, ExportTimelineRequest, TimelineExportClip,
};
use clipforge::ffmpeg::concat::generate_concat_content;
use clipforge::ffmpeg::estimate::{estimate_export_size, estimate_export_time};
use clipforge::ffmpeg::export::{
    check_clip_compatibility, get_file_extension, get_quality_args, get_resolution_args,
    supports_copy_codec, validate_export_settings, ExportClip, ExportProgress, ExportSettings,
};
use clipforge::ffmpeg::progress::{
    create_export_complete_progress, create_export_error_progress, create_export_start_progress,
    parse_ffmpeg_progress, parse_time_to_seconds,
};
use clipforge::ffmpeg::temp::{
    create_temp_dir_path, create_temp_file_path, create_temp_trim_file_path,
    generate_unique_temp_filename, TempFileTracker,
};
use clipforge::ffmpeg::timeline::{
    check_for_overlapping_clips, get_timeline_duration, get_unique_track_ids,
    sort_clips_by_timeline_position, sort_clips_by_track_and_timeline_position,
    validate_timeline_chronological_order, validate_timeline_clips_for_export,
    validate_track_ordering,
};
use clipforge::ffmpeg::trim::{
    calculate_trimmed_duration, clip_needs_trimming, generate_trim_command_args,
    get_clips_needing_trimming, get_clips_not_needing_trimming, needs_trimming,
    set_trimmed_file_path, validate_export_clips_trim_data, validate_trim_data,
};

/// Seconds, percent and rates as the library holds them: in millionths.
fn secs(x: f64) -> i64 {
    (x * 1_000_000.0).round() as i64
}

#[test]
fn test_parse_ffmpeg_progress() {
    let stderr_line = "frame= 1234 fps=30.0 q=23.0 size=   10240kB time=00:00:41.13 bitrate=2048.0kbits/s speed=1.0x";
    let total_duration = secs(60.0); // 60 seconds

    let progress = parse_ffmpeg_progress(stderr_line, total_duration);

    assert!(progress.is_some());
    let progress = progress.unwrap();

    assert_eq!(progress.current_frame, Some(1234));
    assert_eq!(progress.fps, Some(secs(30.0)));
    assert_eq!(progress.bitrate, Some(secs(2048.0)));
    assert_eq!(progress.time, Some("00:00:41.13".to_string()));
    assert!(progress.progress > secs(0.0));
    assert!(progress.progress < secs(100.0));
    assert_eq!(progress.current_step, "Exporting");
}

#[test]
fn test_parse_ffmpeg_progress_invalid_line() {
    let stderr_line = "This is not a progress line";
    let total_duration = secs(60.0);

    let progress = parse_ffmpeg_progress(stderr_line, total_duration);
    assert!(progress.is_none());
}

#[test]
fn test_parse_ffmpeg_progress_complete() {
    let stderr_line = "frame= 1800 fps=30.0 q=23.0 size=   15360kB time=00:01:00.00 bitrate=2048.0kbits/s speed=1.0x";
    let total_duration = secs(60.0); // 60 seconds

    let progress = parse_ffmpeg_progress(stderr_line, total_duration);

    assert!(progress.is_some());
    let progress = progress.unwrap();

    assert_eq!(progress.progress, secs(100.0));
    assert_eq!(progress.current_step, "Exporting");
}

#[test]
fn test_parse_time_to_seconds() {
    assert_eq!(parse_time_to_seconds("00:00:30.50").unwrap(), secs(30.5));
    assert_eq!(parse_time_to_seconds("00:01:30.00").unwrap(), secs(90.0));
    assert_eq!(parse_time_to_seconds("01:00:00.00").unwrap(), secs(3600.0));
    assert_eq!(parse_time_to_seconds("01:30:45.25").unwrap(), secs(5445.25));
}

#[test]
fn test_parse_time_to_seconds_invalid() {
    assert!(parse_time_to_seconds("invalid").is_err());
    assert!(parse_time_to_seconds("00:00").is_err());
    assert!(parse_time_to_seconds("").is_err());
}

#[test]
fn test_create_export_start_progress() {
    let progress = create_export_start_progress();

    assert_eq!(progress.progress, secs(0.0));
    assert_eq!(progress.current_step, "Preparing");
    assert_eq!(progress.estimated_time_remaining, secs(0.0));
    assert!(progress.error.is_none());
}

#[test]
fn test_create_export_complete_progress() {
    let progress = create_export_complete_progress();

    assert_eq!(progress.progress, secs(100.0));
    assert_eq!(progress.current_step, "Completed");
    assert_eq!(progress.estimated_time_remaining, secs(0.0));
    assert!(progress.error.is_none());
}

#[test]
fn test_create_export_error_progress() {
    let error_message = "Export failed".to_string();
    let progress = create_export_error_progress(error_message.clone());

    assert_eq!(progress.progress, secs(0.0));
    assert_eq!(progress.current_step, "Failed");
    assert_eq!(progress.estimated_time_remaining, secs(0.0));
    assert_eq!(progress.error, Some(error_message));
}

#[test]
fn test_validate_export_settings() {
    let valid_settings = ExportSettings {
        resolution: "1080p".to_string(),
        quality: "high".to_string(),
        format: "mp4".to_string(),
        codec: "h264".to_string(),
    };

    assert!(validate_export_settings(&valid_settings).is_ok());
}

#[test]
fn test_validate_export_settings_invalid_resolution() {
    let invalid_settings = ExportSettings {
        resolution: "invalid".to_string(),
        quality: "high".to_string(),
        format: "mp4".to_string(),
        codec: "h264".to_string(),
    };

    assert!(validate_export_settings(&invalid_settings).is_err());
}

#[test]
fn test_validate_export_settings_invalid_quality() {
    let invalid_settings = ExportSettings {
        resolution: "1080p".to_string(),
        quality: "invalid".to_string(),
        format: "mp4".to_string(),
        codec: "h264".to_string(),
    };

    assert!(validate_export_settings(&invalid_settings).is_err());
}

#[test]
fn test_validate_export_settings_invalid_format() {
    let invalid_settings = ExportSettings {
        resolution: "1080p".to_string(),
        quality: "high".to_string(),
        format: "avi".to_string(),
        codec: "h264".to_string(),
    };

    assert!(validate_export_settings(&invalid_settings).is_err());
}

#[test]
fn test_validate_export_settings_invalid_codec() {
    let invalid_settings = ExportSettings {
        resolution: "1080p".to_string(),
        quality: "high".to_string(),
        format: "mp4".to_string(),
        codec: "h265".to_string(),
    };

    assert!(validate_export_settings(&invalid_settings).is_err());
}

#[test]
fn test_get_resolution_args() {
    assert_eq!(get_resolution_args("1080p", 1920, 1080), vec!["-vf", "scale=1920:1080"]);
    assert_eq!(get_resolution_args("720p", 1920, 1080), vec!["-vf", "scale=1280:720"]);
    assert_eq!(get_resolution_args("source", 1920, 1080), Vec::<String>::new());
    assert_eq!(get_resolution_args("invalid", 1920, 1080), Vec::<String>::new());
}

#[test]
fn test_get_quality_args() {
    assert_eq!(get_quality_args("high"), vec!["-crf", "18"]);
    assert_eq!(get_quality_args("medium"), vec!["-crf", "23"]);
    assert_eq!(get_quality_args("low"), vec!["-crf", "28"]);
    assert_eq!(get_quality_args("invalid"), vec!["-crf", "23"]);
}

#[test]
fn test_estimate_export_time() {
    let clips = vec![
    ExportClip {
        file_path: "clip1.mp4".to_string(),
        start_time: secs(0.0),
        duration: secs(10.0),
        trim_start: secs(0.0),
        trim_end: secs(10.0),
        track_id: "track1".to_string(),
        trimmed_file_path: None,
    },
        ExportClip {
            file_path: "clip2.mp4".to_string(),
            start_time: secs(10.0),
            duration: secs(20.0),
            trim_start: secs(0.0),
            trim_end: secs(20.0),
        track_id: "track1".to_string(),
        trimmed_file_path: None,
    },
    ];

    let settings = ExportSettings {
        resolution: "1080p".to_string(),
        quality: "high".to_string(),
        format: "mp4".to_string(),
        codec: "h264".to_string(),
    };

    let estimated_time = estimate_export_time(&clips, &settings);
    assert!(estimated_time > secs(0.0));
    assert!(estimated_time < secs(30.0)); // Should be reasonable
}

#[test]
fn test_check_clip_compatibility() {
    let clips = vec![
    ExportClip {
        file_path: "clip1.mp4".to_string(),
        start_time: secs(0.0),
        duration: secs(10.0),
        trim_start: secs(0.0),
        trim_end: secs(10.0),
        track_id: "track1".to_string(),
        trimmed_file_path: None,
    },
    ];

    assert!(check_clip_compatibility(&clips).is_ok());
}

#[test]
fn test_check_clip_compatibility_empty() {
    let clips = vec![];
    assert!(check_clip_compatibility(&clips).is_err());
}

#[test]
fn test_estimate_export_size() {
    let clips = vec![
    ExportClip {
        file_path: "clip1.mp4".to_string(),
        start_time: secs(0.0),
        duration: secs(10.0),
        trim_start: secs(0.0),
        trim_end: secs(10.0),
        track_id: "track1".to_string(),
        trimmed_file_path: None,
    },
    ];

    let settings = ExportSettings {
        resolution: "1080p".to_string(),
        quality: "high".to_string(),
        format: "mp4".to_string(),
        codec: "h264".to_string(),
    };

    let estimated_size = estimate_export_size(&clips, &settings);
    assert!(estimated_size > 0);
}

#[test]
fn test_export_clip_creation() {
    let clip = ExportClip {
        file_path: "test.mp4".to_string(),
        start_time: secs(0.0),
        duration: secs(10.0),
        trim_start: secs(0.0),
        trim_end: secs(10.0),
        track_id: "track1".to_string(),
        trimmed_file_path: None,
    };

    assert_eq!(clip.file_path, "test.mp4");
    assert_eq!(clip.start_time, secs(0.0));
    assert_eq!(clip.duration, secs(10.0));
    assert_eq!(clip.trim_start, secs(0.0));
    assert_eq!(clip.trim_end, secs(10.0));
}

#[test]
fn test_export_settings_creation() {
    let settings = ExportSettings {
        resolution: "1080p".to_string(),
        quality: "high".to_string(),
        format: "mp4".to_string(),
        codec: "h264".to_string(),
    };

    assert_eq!(settings.resolution, "1080p");
    assert_eq!(settings.quality, "high");
    assert_eq!(settings.format, "mp4");
    assert_eq!(settings.codec, "h264");
}

#[test]
fn test_export_progress_creation() {
    let progress = ExportProgress {
        progress: secs(50.0),
        current_step: "Exporting".to_string(),
        estimated_time_remaining: secs(30.0),
        error: None,
        current_frame: Some(1000),
        total_frames: Some(2000),
        fps: Some(secs(30.0)),
        bitrate: Some(secs(2048.0)),
        time: Some("00:00:30.00".to_string()),
    };

    assert_eq!(progress.progress, secs(50.0));
    assert_eq!(progress.current_step, "Exporting");
    assert_eq!(progress.estimated_time_remaining, secs(30.0));
    assert!(progress.error.is_none());
    assert_eq!(progress.current_frame, Some(1000));
    assert_eq!(progress.total_frames, Some(2000));
    assert_eq!(progress.fps, Some(secs(30.0)));
    assert_eq!(progress.bitrate, Some(secs(2048.0)));
    assert_eq!(progress.time, Some("00:00:30.00".to_string()));
}

#[test]
fn test_export_timeline_request_creation() {
    let request = ExportTimelineRequest {
        timeline_clips: vec![
            TimelineExportClip {
                file_path: "clip1.mp4".to_string(),
                start_time: secs(0.0),
                duration: secs(10.0),
                trim_start: secs(0.0),
                trim_end: secs(10.0),
                track_id: "track1".to_string(),
            }
        ],
        output_path: "/path/to/output.mp4".to_string(),
        filename: "output.mp4".to_string(),
        settings: ExportSettings {
            resolution: "1080p".to_string(),
            quality: "high".to_string(),
            format: "mp4".to_string(),
            codec: "h264".to_string(),
        },
    };

    assert_eq!(request.timeline_clips.len(), 1);
    assert_eq!(request.output_path, "/path/to/output.mp4");
    assert_eq!(request.filename, "output.mp4");
    assert_eq!(request.settings.resolution, "1080p");
}

#[test]
fn test_export_progress_update_creation() {
    let progress = ExportProgressUpdate {
        progress: secs(50.0),
        current_step: "Exporting".to_string(),
        estimated_time_remaining: secs(30.0),
        error: None,
    };

    assert_eq!(progress.progress, secs(50.0));
    assert_eq!(progress.current_step, "Exporting");
    assert_eq!(progress.estimated_time_remaining, secs(30.0));
    assert!(progress.error.is_none());
}

#[test]
fn test_export_status_enum() {
    let status = ExportStatus::Preparing;
    assert!(matches!(status, ExportStatus::Preparing));

    let status = ExportStatus::Exporting;
    assert!(matches!(status, ExportStatus::Exporting));

    let status = ExportStatus::Completed;
    assert!(matches!(status, ExportStatus::Completed));

    let status = ExportStatus::Failed;
    assert!(matches!(status, ExportStatus::Failed));

    let status = ExportStatus::Cancelled;
    assert!(matches!(status, ExportStatus::Cancelled));
}

#[test]
fn test_export_job_creation() {
    let job = ExportJob {
        id: "export_123".to_string(),
        status: ExportStatus::Exporting,
        progress: secs(75.0),
        output_path: Some("/path/to/output.mp4".to_string()),
        error_message: None,
        created_at: chrono::Utc::now().to_rfc3339(),
    };

    assert_eq!(job.id, "export_123");
    assert!(matches!(job.status, ExportStatus::Exporting));
    assert_eq!(job.progress, secs(75.0));
    assert_eq!(job.output_path, Some("/path/to/output.mp4".to_string()));
    assert!(job.error_message.is_none());
}

// Trim Validation Tests

#[test]
fn test_validate_trim_data_valid() {
    let result = validate_trim_data(secs(5.0), secs(10.0), secs(15.0), 0);
    assert!(result.is_ok());
}

#[test]
fn test_validate_trim_data_negative_start() {
    let result = validate_trim_data(secs(-1.0), secs(10.0), secs(15.0), 0);
    assert!(result.is_err());
    assert!(result.unwrap_err().message.contains("negative trim start"));
}

#[test]
fn test_validate_trim_data_invalid_range() {
    let result = validate_trim_data(secs(10.0), secs(5.0), secs(15.0), 0);
    assert!(result.is_err());
    assert!(result.unwrap_err().message.contains("invalid trim range"));
}

#[test]
fn test_validate_trim_data_end_equals_start() {
    let result = validate_trim_data(secs(5.0), secs(5.0), secs(15.0), 0);
    assert!(result.is_err());
    assert!(result.unwrap_err().message.contains("invalid trim range"));
}

#[test]
fn test_validate_trim_data_exceeds_duration() {
    let result = validate_trim_data(secs(5.0), secs(20.0), secs(15.0), 0);
    assert!(result.is_err());
    assert!(result.unwrap_err().message.contains("exceeds original video duration"));
}

#[test]
fn test_validate_trim_data_too_short() {
    let result = validate_trim_data(secs(5.0), secs(5.05), secs(15.0), 0);
    assert!(result.is_err());
    assert!(result.unwrap_err().message.contains("duration too short"));
}

#[test]
fn test_validate_trim_data_minimum_duration() {
    let result = validate_trim_data(secs(5.0), secs(5.11), secs(15.0), 0);
    assert!(result.is_ok());
}

#[test]
fn test_needs_trimming_true() {
    assert!(needs_trimming(secs(5.0), secs(10.0), secs(15.0)));
    assert!(needs_trimming(secs(0.0), secs(10.0), secs(15.0)));
    assert!(needs_trimming(secs(5.0), secs(15.0), secs(15.0)));
}

#[test]
fn test_needs_trimming_false() {
    assert!(!needs_trimming(secs(0.0), secs(15.0), secs(15.0)));
    assert!(!needs_trimming(secs(0.01), secs(14.99), secs(15.0))); // Within tolerance
}

#[test]
fn test_calculate_trimmed_duration() {
    assert_eq!(calculate_trimmed_duration(secs(5.0), secs(10.0)), secs(5.0));
    assert_eq!(calculate_trimmed_duration(secs(0.0), secs(15.0)), secs(15.0));
    assert_eq!(calculate_trimmed_duration(secs(2.5), secs(7.5)), secs(5.0));
}

#[test]
fn test_validate_export_clips_trim_data_valid() {
    let clips = vec![
        ExportClip {
            file_path: "clip1.mp4".to_string(),
            start_time: secs(0.0),
            duration: secs(5.0),
            trim_start: secs(0.0),
            trim_end: secs(5.0),
        track_id: "track1".to_string(),
        trimmed_file_path: None,
    },
        ExportClip {
            file_path: "clip2.mp4".to_string(),
            start_time: secs(5.0),
            duration: secs(3.0),
            trim_start: secs(2.0),
            trim_end: secs(5.0),
        track_id: "track1".to_string(),
        trimmed_file_path: None,
    },
    ];

    let result = validate_export_clips_trim_data(&clips);
    assert!(result.is_ok());
}

#[test]
fn test_validate_export_clips_trim_data_empty() {
    let clips = vec![];
    let result = validate_export_clips_trim_data(&clips);
    assert!(result.is_err());
    assert!(result.unwrap_err().message.contains("No clips to export"));
}

#[test]
fn test_validate_export_clips_trim_data_invalid() {
    let clips = vec![
        ExportClip {
            file_path: "clip1.mp4".to_string(),
            start_time: secs(0.0),
            duration: secs(5.0),
            trim_start: secs(-1.0), // Invalid
            trim_end: secs(5.0),
        track_id: "track1".to_string(),
        trimmed_file_path: None,
    },
    ];

    let result = validate_export_clips_trim_data(&clips);
    assert!(result.is_err());
    assert!(result.unwrap_err().message.contains("negative trim start"));
}

#[test]
fn test_get_clips_needing_trimming() {
    let clips = vec![
        ExportClip {
            file_path: "clip1.mp4".to_string(),
            start_time: secs(0.0),
            duration: secs(5.0),
            trim_start: secs(0.0),
            trim_end: secs(5.0), // No trimming needed
        track_id: "track1".to_string(),
        trimmed_file_path: None,
    },
        ExportClip {
            file_path: "clip2.mp4".to_string(),
            start_time: secs(5.0),
            duration: secs(3.0),
            trim_start: secs(2.0),
            trim_end: secs(5.0), // Trimming needed
        track_id: "track1".to_string(),
        trimmed_file_path: None,
    },
        ExportClip {
            file_path: "clip3.mp4".to_string(),
            start_time: secs(8.0),
            duration: secs(2.0),
            trim_start: secs(0.0),
            trim_end: secs(2.0), // No trimming needed
        track_id: "track1".to_string(),
        trimmed_file_path: None,
    },
    ];

    let indices = get_clips_needing_trimming(&clips);
    assert_eq!(indices, vec![1]); // Only clip 2 needs trimming
}

#[test]
fn test_get_clips_not_needing_trimming() {
    let clips = vec![
        ExportClip {
            file_path: "clip1.mp4".to_string(),
            start_time: secs(0.0),
            duration: secs(5.0),
            trim_start: secs(0.0),
            trim_end: secs(5.0), // No trimming needed
        track_id: "track1".to_string(),
        trimmed_file_path: None,
    },
        ExportClip {
            file_path: "clip2.mp4".to_string(),
            start_time: secs(5.0),
            duration: secs(3.0),
            trim_start: secs(2.0),
            trim_end: secs(5.0), // Trimming needed
        track_id: "track1".to_string(),
        trimmed_file_path: None,
    },
        ExportClip {
            file_path: "clip3.mp4".to_string(),
            start_time: secs(8.0),
            duration: secs(2.0),
            trim_start: secs(0.0),
            trim_end: secs(2.0), // No trimming needed
        track_id: "track1".to_string(),
        trimmed_file_path: None,
    },
    ];

    let indices = get_clips_not_needing_trimming(&clips);
    assert_eq!(indices, vec![0, 2]); // Clips 1 and 3 don't need trimming
}

// Ffmpeg Trim Functionality Tests

#[test]
fn test_generate_trim_command_args_with_copy_codec() {
    let args = generate_trim_command_args(
        "input.mp4",
        "output.mp4",
        secs(5.0),
        secs(10.0),
        true, // use_copy_codec
    );

    assert!(args.contains(&"-i".to_string()));
    assert!(args.contains(&"input.mp4".to_string()));
    assert!(args.contains(&"-ss".to_string()));
    assert!(args.contains(&"5.000".to_string()));
    assert!(args.contains(&"-t".to_string()));
    assert!(args.contains(&"10.000".to_string()));
    assert!(args.contains(&"-c".to_string()));
    assert!(args.contains(&"copy".to_string()));
    assert!(args.contains(&"-y".to_string()));
    assert!(args.contains(&"output.mp4".to_string()));
}

#[test]
fn test_generate_trim_command_args_without_copy_codec() {
    let args = generate_trim_command_args(
        "input.mp4",
        "output.mp4",
        secs(5.0),
        secs(10.0),
        false, // use_copy_codec
    );

    assert!(args.contains(&"-i".to_string()));
    assert!(args.contains(&"input.mp4".to_string()));
    assert!(args.contains(&"-ss".to_string()));
    assert!(args.contains(&"5.000".to_string()));
    assert!(args.contains(&"-t".to_string()));
    assert!(args.contains(&"10.000".to_string()));
    assert!(args.contains(&"-c:v".to_string()));
    assert!(args.contains(&"libx264".to_string()));
    assert!(args.contains(&"-c:a".to_string()));
    assert!(args.contains(&"aac".to_string()));
    assert!(args.contains(&"-y".to_string()));
    assert!(args.contains(&"output.mp4".to_string()));
}

#[test]
fn test_create_temp_trim_file_path() {
    let result = create_temp_trim_file_path(0, "mp4");
    assert!(result.is_ok());
    let path = result.unwrap();
    assert!(path.contains("trimmed_clip_0_"));
    assert!(path.ends_with(".mp4"));
}

#[test]
fn export_test_get_file_extension() {
    assert_eq!(get_file_extension("video.mp4"), "mp4");
    assert_eq!(get_file_extension("video.MOV"), "mov");
    assert_eq!(get_file_extension("video.avi"), "avi");
    assert_eq!(get_file_extension("video"), "mp4"); // default
    assert_eq!(get_file_extension("video.mkv"), "mkv");
}

#[test]
fn test_supports_copy_codec() {
    assert!(supports_copy_codec("mp4"));
    assert!(supports_copy_codec("mov"));
    assert!(supports_copy_codec("avi"));
    assert!(supports_copy_codec("mkv"));
    assert!(supports_copy_codec("webm"));
    assert!(!supports_copy_codec("wmv"));
    assert!(!supports_copy_codec("flv"));
    assert!(!supports_copy_codec("unknown"));
}

#[test]
fn test_trim_command_precision() {
    let args = generate_trim_command_args(
        "input.mp4",
        "output.mp4",
        secs(1.234567),
        secs(5.678901),
        true,
    );

    // Check that precision is limited to 3 decimal places
    assert!(args.contains(&"1.235".to_string()));
    assert!(args.contains(&"5.679".to_string()));
}

// Temporary File Management Tests

#[test]
fn test_temp_file_tracker_creation() {
    let tracker = TempFileTracker::new();
    assert!(tracker.is_empty());
    assert_eq!(tracker.file_count(), 0);
    assert_eq!(tracker.directory_count(), 0);
}

#[test]
fn test_temp_file_tracker_add_file() {
    let mut tracker = TempFileTracker::new();
    tracker.add_file("test_file.txt".to_string());
    assert!(!tracker.is_empty());
    assert_eq!(tracker.file_count(), 1);
    assert_eq!(tracker.directory_count(), 0);
}

#[test]
fn test_temp_file_tracker_add_directory() {
    let mut tracker = TempFileTracker::new();
    tracker.add_directory("test_dir".to_string());
    assert!(!tracker.is_empty());
    assert_eq!(tracker.file_count(), 0);
    assert_eq!(tracker.directory_count(), 1);
}

#[test]
fn test_temp_file_tracker_add_multiple() {
    let mut tracker = TempFileTracker::new();
    tracker.add_file("file1.txt".to_string());
    tracker.add_file("file2.txt".to_string());
    tracker.add_directory("dir1".to_string());
    tracker.add_directory("dir2".to_string());
    
    assert!(!tracker.is_empty());
    assert_eq!(tracker.file_count(), 2);
    assert_eq!(tracker.directory_count(), 2);
}

#[test]
fn test_generate_unique_temp_filename() {
    let result1 = generate_unique_temp_filename("test", "txt");
    let result2 = generate_unique_temp_filename("test", "txt");
    
    assert!(result1.is_ok());
    assert!(result2.is_ok());
    
    let filename1 = result1.unwrap();
    let filename2 = result2.unwrap();
    
    // Should be different due to nanosecond precision
    assert_ne!(filename1, filename2);
    
    // Should contain the prefix and extension
    assert!(filename1.contains("test_"));
    assert!(filename1.ends_with(".txt"));
    assert!(filename2.contains("test_"));
    assert!(filename2.ends_with(".txt"));
}

#[test]
fn test_create_temp_file_path() {
    let result = create_temp_file_path("export", "mp4");
    assert!(result.is_ok());
    
    let file_path = result.unwrap();
    assert!(file_path.contains("export_"));
    assert!(file_path.ends_with(".mp4"));
}

#[test]
fn test_create_temp_dir_path() {
    let result = create_temp_dir_path("export");
    assert!(result.is_ok());
    
    let dir_path = result.unwrap();
    assert!(dir_path.contains("export_"));
}



#[test]
fn test_create_temp_trim_file_path_different_index() {
    let result1 = create_temp_trim_file_path(0, "mp4");
    let result2 = create_temp_trim_file_path(1, "mp4");
    
    assert!(result1.is_ok());
    assert!(result2.is_ok());
    
    let path1 = result1.unwrap();
    let path2 = result2.unwrap();
    
    // Should be different due to different indices
    assert_ne!(path1, path2);
    
    // Should contain correct indices
    assert!(path1.contains("trimmed_clip_0_"));
    assert!(path2.contains("trimmed_clip_1_"));
}

// Timeline Order Preservation Tests

#[test]
fn test_sort_clips_by_timeline_position() {
    let clips = vec![
        ExportClip {
            file_path: "clip3.mp4".to_string(),
            start_time: secs(20.0),
            duration: secs(5.0),
            trim_start: secs(0.0),
            trim_end: secs(5.0),
        track_id: "track1".to_string(),
        trimmed_file_path: None,
    },
    ExportClip {
        file_path: "clip1.mp4".to_string(),
        start_time: secs(0.0),
        duration: secs(10.0),
        trim_start: secs(0.0),
        trim_end: secs(10.0),
        track_id: "track1".to_string(),
        trimmed_file_path: None,
    },
    ExportClip {
        file_path: "clip2.mp4".to_string(),
        start_time: secs(10.0),
        duration: secs(5.0),
        trim_start: secs(0.0),
        trim_end: secs(5.0),
        track_id: "track1".to_string(),
        trimmed_file_path: None,
    },
    ];

    let sorted_clips = sort_clips_by_timeline_position(&clips);

    assert_eq!(sorted_clips[0].file_path, "clip1.mp4");
    assert_eq!(sorted_clips[0].start_time, secs(0.0));
    assert_eq!(sorted_clips[1].file_path, "clip2.mp4");
    assert_eq!(sorted_clips[1].start_time, secs(10.0));
    assert_eq!(sorted_clips[2].file_path, "clip3.mp4");
    assert_eq!(sorted_clips[2].start_time, secs(20.0));
}

#[test]
fn test_sort_clips_by_track_and_timeline_position() {
    let clips = vec![
        ExportClip {
            file_path: "clip3.mp4".to_string(),
            start_time: secs(20.0),
            duration: secs(5.0),
            trim_start: secs(0.0),
            trim_end: secs(5.0),
        track_id: "track2".to_string(),
        trimmed_file_path: None,
    },
    ExportClip {
        file_path: "clip1.mp4".to_string(),
        start_time: secs(0.0),
        duration: secs(10.0),
        trim_start: secs(0.0),
        trim_end: secs(10.0),
        track_id: "track1".to_string(),
        trimmed_file_path: None,
    },
    ExportClip {
        file_path: "clip2.mp4".to_string(),
        start_time: secs(10.0),
        duration: secs(5.0),
        trim_start: secs(0.0),
        trim_end: secs(5.0),
        track_id: "track1".to_string(),
        trimmed_file_path: None,
    },
        ExportClip {
            file_path: "clip4.mp4".to_string(),
            start_time: secs(0.0),
            duration: secs(5.0),
            trim_start: secs(0.0),
            trim_end: secs(5.0),
        track_id: "track2".to_string(),
        trimmed_file_path: None,
    },
    ];

    let sorted_clips = sort_clips_by_track_and_timeline_position(&clips);

    // Should be sorted by track first, then by start time within each track
    assert_eq!(sorted_clips[0].file_path, "clip1.mp4"); // track1, 0.0s
    assert_eq!(sorted_clips[0].track_id, "track1");
    assert_eq!(sorted_clips[1].file_path, "clip2.mp4"); // track1, 10.0s
    assert_eq!(sorted_clips[1].track_id, "track1");
    assert_eq!(sorted_clips[2].file_path, "clip4.mp4"); // track2, 0.0s
    assert_eq!(sorted_clips[2].track_id, "track2");
    assert_eq!(sorted_clips[3].file_path, "clip3.mp4"); // track2, 20.0s
    assert_eq!(sorted_clips[3].track_id, "track2");
}

#[test]
fn test_validate_timeline_chronological_order_valid() {
    let clips = vec![
    ExportClip {
        file_path: "clip1.mp4".to_string(),
        start_time: secs(0.0),
        duration: secs(10.0),
        trim_start: secs(0.0),
        trim_end: secs(10.0),
        track_id: "track1".to_string(),
        trimmed_file_path: None,
    },
    ExportClip {
        file_path: "clip2.mp4".to_string(),
        start_time: secs(10.0),
        duration: secs(5.0),
        trim_start: secs(0.0),
        trim_end: secs(5.0),
        track_id: "track1".to_string(),
        trimmed_file_path: None,
    },
        ExportClip {
            file_path: "clip3.mp4".to_string(),
            start_time: secs(15.0),
            duration: secs(5.0),
            trim_start: secs(0.0),
            trim_end: secs(5.0),
        track_id: "track1".to_string(),
        trimmed_file_path: None,
    },
    ];

    let result = validate_timeline_chronological_order(&clips);
    assert!(result.is_ok());
}

#[test]
fn test_validate_timeline_chronological_order_invalid() {
    let clips = vec![
        ExportClip {
            file_path: "clip1.mp4".to_string(),
            start_time: secs(10.0),
            duration: secs(5.0),
            trim_start: secs(0.0),
            trim_end: secs(5.0),
        track_id: "track1".to_string(),
        trimmed_file_path: None,
    },
        ExportClip {
            file_path: "clip2.mp4".to_string(),
            start_time: secs(0.0),
            duration: secs(10.0),
            trim_start: secs(0.0),
            trim_end: secs(10.0),
        track_id: "track1".to_string(),
        trimmed_file_path: None,
    },
    ];

    let result = validate_timeline_chronological_order(&clips);
    assert!(result.is_err());
    assert!(result.unwrap_err().message.contains("not in chronological order"));
}

#[test]
fn test_check_for_overlapping_clips_no_overlap() {
    let clips = vec![
    ExportClip {
        file_path: "clip1.mp4".to_string(),
        start_time: secs(0.0),
        duration: secs(10.0),
        trim_start: secs(0.0),
        trim_end: secs(10.0),
        track_id: "track1".to_string(),
        trimmed_file_path: None,
    },
    ExportClip {
        file_path: "clip2.mp4".to_string(),
        start_time: secs(10.0),
        duration: secs(5.0),
        trim_start: secs(0.0),
        trim_end: secs(5.0),
        track_id: "track1".to_string(),
        trimmed_file_path: None,
    },
    ];

    let result = check_for_overlapping_clips(&clips);
    assert!(result.is_ok());
}

#[test]
fn test_check_for_overlapping_clips_with_overlap() {
    let clips = vec![
    ExportClip {
        file_path: "clip1.mp4".to_string(),
        start_time: secs(0.0),
        duration: secs(10.0),
        trim_start: secs(0.0),
        trim_end: secs(10.0),
        track_id: "track1".to_string(),
        trimmed_file_path: None,
    },
        ExportClip {
            file_path: "clip2.mp4".to_string(),
            start_time: secs(5.0), // Overlaps with clip1
            duration: secs(5.0),
            trim_start: secs(0.0),
            trim_end: secs(5.0),
        track_id: "track1".to_string(),
        trimmed_file_path: None,
    },
    ];

    let result = check_for_overlapping_clips(&clips);
    assert!(result.is_err());
    assert!(result.unwrap_err().message.contains("Overlapping clips detected"));
}

#[test]
fn test_get_timeline_duration() {
    let clips = vec![
    ExportClip {
        file_path: "clip1.mp4".to_string(),
        start_time: secs(0.0),
        duration: secs(10.0),
        trim_start: secs(0.0),
        trim_end: secs(10.0),
        track_id: "track1".to_string(),
        trimmed_file_path: None,
    },
    ExportClip {
        file_path: "clip2.mp4".to_string(),
        start_time: secs(10.0),
        duration: secs(5.0),
        trim_start: secs(0.0),
        trim_end: secs(5.0),
        track_id: "track1".to_string(),
        trimmed_file_path: None,
    },
    ];

    let duration = get_timeline_duration(&clips);
    assert_eq!(duration, secs(15.0)); // 10 + 5
}

#[test]
fn test_get_timeline_duration_empty() {
    let clips = vec![];
    let duration = get_timeline_duration(&clips);
    assert_eq!(duration, secs(0.0));
}

#[test]
fn test_validate_timeline_clips_for_export_valid() {
    let clips = vec![
    ExportClip {
        file_path: "clip1.mp4".to_string(),
        start_time: secs(0.0),
        duration: secs(10.0),
        trim_start: secs(0.0),
        trim_end: secs(10.0),
        track_id: "track1".to_string(),
        trimmed_file_path: None,
    },
    ExportClip {
        file_path: "clip2.mp4".to_string(),
        start_time: secs(10.0),
        duration: secs(5.0),
        trim_start: secs(0.0),
        trim_end: secs(5.0),
        track_id: "track1".to_string(),
        trimmed_file_path: None,
    },
    ];

    let result = validate_timeline_clips_for_export(&clips);
    assert!(result.is_ok());
}

#[test]
fn test_validate_timeline_clips_for_export_empty() {
    let clips = vec![];
    let result = validate_timeline_clips_for_export(&clips);
    assert!(result.is_err());
    assert!(result.unwrap_err().message.contains("No clips provided"));
}

#[test]
fn test_validate_timeline_clips_for_export_negative_start_time() {
    let clips = vec![
        ExportClip {
            file_path: "clip1.mp4".to_string(),
            start_time: secs(-1.0), // Invalid
            duration: secs(10.0),
            trim_start: secs(0.0),
            trim_end: secs(10.0),
        track_id: "track1".to_string(),
        trimmed_file_path: None,
    },
    ];

    let result = validate_timeline_clips_for_export(&clips);
    assert!(result.is_err());
    assert!(result.unwrap_err().message.contains("negative start time"));
}

#[test]
fn test_validate_timeline_clips_for_export_invalid_duration() {
    let clips = vec![
        ExportClip {
            file_path: "clip1.mp4".to_string(),
            start_time: secs(0.0),
            duration: secs(0.0), // Invalid
            trim_start: secs(0.0),
            trim_end: secs(10.0),
        track_id: "track1".to_string(),
        trimmed_file_path: None,
    },
    ];

    let result = validate_timeline_clips_for_export(&clips);
    assert!(result.is_err());
    assert!(result.unwrap_err().message.contains("invalid duration"));
}

#[test]
fn test_validate_timeline_clips_for_export_out_of_order() {
    let clips = vec![
        ExportClip {
            file_path: "clip1.mp4".to_string(),
            start_time: secs(10.0),
            duration: secs(5.0),
            trim_start: secs(0.0),
            trim_end: secs(5.0),
        track_id: "track1".to_string(),
        trimmed_file_path: None,
    },
        ExportClip {
            file_path: "clip2.mp4".to_string(),
            start_time: secs(0.0),
            duration: secs(10.0),
            trim_start: secs(0.0),
            trim_end: secs(10.0),
        track_id: "track1".to_string(),
        trimmed_file_path: None,
    },
    ];

    // The clips of a track are put in the order of their start times before
    // they are held against each other: these two only touch
    let result = validate_timeline_clips_for_export(&clips);
    assert!(result.is_ok());
}

#[test]
fn test_validate_track_ordering_valid() {
    let clips = vec![
    ExportClip {
        file_path: "clip1.mp4".to_string(),
        start_time: secs(0.0),
        duration: secs(10.0),
        trim_start: secs(0.0),
        trim_end: secs(10.0),
        track_id: "track1".to_string(),
        trimmed_file_path: None,
    },
    ExportClip {
        file_path: "clip2.mp4".to_string(),
        start_time: secs(10.0),
        duration: secs(5.0),
        trim_start: secs(0.0),
        trim_end: secs(5.0),
        track_id: "track1".to_string(),
        trimmed_file_path: None,
    },
        ExportClip {
            file_path: "clip3.mp4".to_string(),
            start_time: secs(0.0),
            duration: secs(5.0),
            trim_start: secs(0.0),
            trim_end: secs(5.0),
        track_id: "track2".to_string(),
        trimmed_file_path: None,
    },
    ];

    let result = validate_track_ordering(&clips);
    assert!(result.is_ok());
}

#[test]
fn test_validate_track_ordering_invalid() {
    let clips = vec![
        ExportClip {
            file_path: "clip1.mp4".to_string(),
            start_time: secs(10.0),
            duration: secs(5.0),
            trim_start: secs(0.0),
            trim_end: secs(5.0),
        track_id: "track1".to_string(),
        trimmed_file_path: None,
    },
        ExportClip {
            file_path: "clip2.mp4".to_string(),
            start_time: secs(0.0),
            duration: secs(10.0),
            trim_start: secs(0.0),
            trim_end: secs(10.0),
        track_id: "track1".to_string(),
        trimmed_file_path: None,
    },
    ];

    let result = validate_track_ordering(&clips);
    assert!(result.is_err());
    assert!(result.unwrap_err().message.contains("not in chronological order"));
}

#[test]
fn test_get_unique_track_ids() {
    let clips = vec![
    ExportClip {
        file_path: "clip1.mp4".to_string(),
        start_time: secs(0.0),
        duration: secs(10.0),
        trim_start: secs(0.0),
        trim_end: secs(10.0),
        track_id: "track1".to_string(),
        trimmed_file_path: None,
    },
        ExportClip {
            file_path: "clip2.mp4".to_string(),
            start_time: secs(10.0),
            duration: secs(5.0),
            trim_start: secs(0.0),
            trim_end: secs(5.0),
        track_id: "track2".to_string(),
        trimmed_file_path: None,
    },
        ExportClip {
            file_path: "clip3.mp4".to_string(),
            start_time: secs(0.0),
            duration: secs(5.0),
            trim_start: secs(0.0),
            trim_end: secs(5.0),
        track_id: "track1".to_string(),
        trimmed_file_path: None,
    },
    ];

    let track_ids = get_unique_track_ids(&clips);
    assert_eq!(track_ids, vec!["track1", "track2"]);
    assert_eq!(track_ids.len(), 2);
    assert!(track_ids.contains(&"track1".to_string()));
    assert!(track_ids.contains(&"track2".to_string()));
}

#[test]
fn test_validate_timeline_clips_for_export_empty_track_id() {
    let clips = vec![
        ExportClip {
            file_path: "clip1.mp4".to_string(),
            start_time: secs(0.0),
            duration: secs(10.0),
            trim_start: secs(0.0),
            trim_end: secs(10.0),
        track_id: "".to_string(), // Empty track ID
        trimmed_file_path: None,
    },
    ];

    let result = validate_timeline_clips_for_export(&clips);
    assert!(result.is_err());
    assert!(result.unwrap_err().message.contains("empty track ID"));
}

#[test]
fn test_check_for_overlapping_clips_different_tracks_ok() {
    let clips = vec![
    ExportClip {
        file_path: "clip1.mp4".to_string(),
        start_time: secs(0.0),
        duration: secs(10.0),
        trim_start: secs(0.0),
        trim_end: secs(10.0),
        track_id: "track1".to_string(),
        trimmed_file_path: None,
    },
        ExportClip {
            file_path: "clip2.mp4".to_string(),
            start_time: secs(5.0), // Overlaps with clip1 but on different track
            duration: secs(5.0),
            trim_start: secs(0.0),
            trim_end: secs(5.0),
        track_id: "track2".to_string(),
        trimmed_file_path: None,
    },
    ];

    let result = check_for_overlapping_clips(&clips);
    assert!(result.is_ok()); // Should be OK since they're on different tracks
}

#[test]
fn test_check_for_overlapping_clips_same_track_error() {
    let clips = vec![
        ExportClip {
            file_path: "clip1.mp4".to_string(),
            start_time: secs(0.0),
            duration: secs(10.0),
            trim_start: secs(0.0),
            trim_end: secs(10.0),
            track_id: "track1".to_string(),
            trimmed_file_path: None,
        },
        ExportClip {
            file_path: "clip2.mp4".to_string(),
            start_time: secs(5.0), // Overlaps with clip1 on same track
            duration: secs(5.0),
            trim_start: secs(0.0),
            trim_end: secs(5.0),
            track_id: "track1".to_string(),
            trimmed_file_path: None,
        },
    ];

    let result = check_for_overlapping_clips(&clips);
    assert!(result.is_err());
    assert!(result.unwrap_err().message.contains("Overlapping clips detected on track"));
}

#[test]
fn test_clip_needs_trimming() {
    // Clip that doesn't need trimming
    let clip_no_trim = ExportClip {
        file_path: "clip1.mp4".to_string(),
        start_time: secs(0.0),
        duration: secs(10.0),
        trim_start: secs(0.0),
        trim_end: secs(10.0),
        track_id: "track1".to_string(),
        trimmed_file_path: None,
    };
    assert!(!clip_needs_trimming(&clip_no_trim));

    // Clip that needs trimming (trim_start > 0)
    let clip_trim_start = ExportClip {
        file_path: "clip2.mp4".to_string(),
        start_time: secs(0.0),
        duration: secs(10.0),
        trim_start: secs(2.0),
        trim_end: secs(10.0),
        track_id: "track1".to_string(),
        trimmed_file_path: None,
    };
    assert!(clip_needs_trimming(&clip_trim_start));

    // Clip that needs trimming (trim_end < full duration)
    let clip_trim_end = ExportClip {
        file_path: "clip3.mp4".to_string(),
        start_time: secs(0.0),
        duration: secs(10.0),
        trim_start: secs(0.0),
        trim_end: secs(8.0),
        track_id: "track1".to_string(),
        trimmed_file_path: None,
    };
    assert!(clip_needs_trimming(&clip_trim_end));
}

#[test]
fn test_set_trimmed_file_path() {
    let mut clip = ExportClip {
        file_path: "original.mp4".to_string(),
        start_time: secs(0.0),
        duration: secs(10.0),
        trim_start: secs(0.0),
        trim_end: secs(10.0),
        track_id: "track1".to_string(),
        trimmed_file_path: None,
    };

    set_trimmed_file_path(&mut clip, "trimmed.mp4".to_string());
    assert_eq!(clip.trimmed_file_path, Some("trimmed.mp4".to_string()));
}

#[test]
fn test_concat_file_generation_with_trimmed_files() {
    let clips = vec![
        ExportClip {
            file_path: "original1.mp4".to_string(),
            start_time: secs(0.0),
            duration: secs(10.0),
            trim_start: secs(0.0),
            trim_end: secs(10.0),
            track_id: "track1".to_string(),
            trimmed_file_path: Some("trimmed1.mp4".to_string()),
        },
        ExportClip {
            file_path: "original2.mp4".to_string(),
            start_time: secs(10.0),
            duration: secs(5.0),
            trim_start: secs(0.0),
            trim_end: secs(5.0),
            track_id: "track1".to_string(),
            trimmed_file_path: None, // No trimming
        },
    ];

    // The manifest names the trimmed file where there is one
    let content = generate_concat_content(&clips);

    // Should contain trimmed file for first clip, original file for second clip
    assert!(content.contains("file 'trimmed1.mp4'"));
    assert!(content.contains("file 'original2.mp4'"));
    assert_eq!(content, "file 'trimmed1.mp4'\nfile 'original2.mp4'\n");
}
