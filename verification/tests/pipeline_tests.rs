use clipforge::commands::export::{get_default_export_settings, ExportStatus};
use clipforge::ffmpeg::concat::{concat_entries, generate_concat_content};
use clipforge::ffmpeg::estimate::{estimate_export_size, estimate_export_time, total_duration};
use clipforge::ffmpeg::export::{ExportClip, ExportSettings, ExportVideoRequest};
use clipforge::ffmpeg::pipeline::{
    output_directory, ActionOutcome, ExportAction, ExportPhase, ExportSession,
};
use clipforge::ffmpeg::progress::{parse_ffmpeg_progress, progress_from_fields};
use clipforge::ffmpeg::temp::{
    is_export_temp_file, is_older_than, is_temp_dir, is_temp_file, trimmed_clip_files,
    unique_temp_path_at, CleanupStep, TempFileTracker,
};
use clipforge::ffmpeg::timeline::{
    check_for_overlapping_clips, sort_clips_by_track_and_timeline_position,
    validate_timeline_clips_for_export, validate_track_ordering,
};
use clipforge::ffmpeg::trim::{
    calculate_trimmed_duration, needs_trimming, trimmed_clip, validate_trim_data,
};
use std::collections::HashSet;

/// Seconds, percent and rates as the library holds them: in millionths.
fn secs(x: f64) -> i64 {
    (x * 1_000_000.0).round() as i64
}

fn clip(file: &str, track: &str, start: f64, duration: f64, trim: (f64, f64)) -> ExportClip {
    ExportClip {
        file_path: file.to_string(),
        start_time: secs(start),
        duration: secs(duration),
        trim_start: secs(trim.0),
        trim_end: secs(trim.1),
        track_id: track.to_string(),
        trimmed_file_path: None,
    }
}

fn settings(resolution: &str, quality: &str) -> ExportSettings {
    ExportSettings {
        resolution: resolution.to_string(),
        quality: quality.to_string(),
        format: "mp4".to_string(),
        codec: "h264".to_string(),
    }
}

fn two_clips() -> Vec<ExportClip> {
    vec![
        clip("/media/a.mp4", "t1", 0.0, 10.0, (0.0, 10.0)),
        clip("/media/b.MOV", "t1", 10.0, 5.0, (2.0, 5.0)),
    ]
}

/// Runs a session to its end against a file system held in memory. The tool
/// fails at its `fail_at`-th run, counted from one, if that is given.
fn run(
    session: ExportSession,
    fail_at: Option<usize>,
) -> (Vec<ExportAction>, HashSet<String>, ExportSession) {
    let mut disk: HashSet<String> = HashSet::new();
    let mut actions = Vec::new();
    let mut session = session;
    let mut outcome = ActionOutcome::Done;
    let mut runs = 0;
    let mut tick = 0;
    while !session.is_done() {
        tick += 1;
        let (next, action) = session.step_at(outcome, 1700000000, tick);
        session = next;
        outcome = ActionOutcome::Done;
        match &action {
            ExportAction::RunTool(args) => {
                runs += 1;
                // every file the tool writes is owned before it is written
                let target = args.last().unwrap().clone();
                if session.phase() == ExportPhase::Trimming {
                    assert!(session.tracker().files.contains(&target));
                }
                if fail_at == Some(runs) {
                    outcome = ActionOutcome::ToolFailed("boom".to_string());
                } else {
                    disk.insert(target);
                }
            }
            ExportAction::WriteFile { path, .. } => {
                assert!(session.tracker().files.contains(path));
                disk.insert(path.clone());
            }
            ExportAction::Cleanup(steps) => {
                for step in steps {
                    match step {
                        CleanupStep::RemoveFile(p) => {
                            disk.remove(p);
                        }
                        CleanupStep::RemoveDirectory(p) => {
                            disk.remove(p);
                        }
                    }
                }
            }
            _ => {}
        }
        actions.push(action);
        assert!(tick < 100);
    }
    (actions, disk, session)
}

#[test]
fn test_export_end_to_end() {
    let request = ExportVideoRequest {
        clips: two_clips(),
        output_path: "/out/final.mp4".to_string(),
        settings: get_default_export_settings(),
    };
    let session = ExportSession::new(request, true).unwrap();
    assert_eq!(session.phase(), ExportPhase::Idle);
    assert_eq!(session.status(), None);
    let (actions, disk, session) = run(session, None);

    let artifact = "/tmp/clipforge/trimmed_clip_1700000000_2.mov";
    let manifest = "/tmp/clipforge/concat_1700000000_3.txt";
    assert_eq!(actions.len(), 7);
    match &actions[0] {
        ExportAction::Emit(p) => {
            assert_eq!(p.current_step, "Preparing");
            assert_eq!(p.progress, 0);
        }
        other => panic!("unexpected action {:?}", other),
    }
    match &actions[1] {
        ExportAction::RunTool(args) => assert_eq!(
            args,
            &vec![
                "-i", "/media/b.MOV", "-ss", "2.000", "-t", "3.000", "-c", "copy", "-y", artifact
            ]
        ),
        other => panic!("unexpected action {:?}", other),
    }
    match &actions[2] {
        ExportAction::WriteFile { path, content } => {
            assert_eq!(path, manifest);
            // exactly two lines, A then B, and B's line names its trimmed copy
            let lines: Vec<&str> = content.lines().collect();
            assert_eq!(lines.len(), 2);
            assert_eq!(lines[0], "file '/media/a.mp4'");
            assert_eq!(lines[1], format!("file '{}'", artifact));
            assert!(!content.contains("/media/b.MOV"));
        }
        other => panic!("unexpected action {:?}", other),
    }
    match &actions[3] {
        ExportAction::RunTool(args) => assert_eq!(
            args,
            &vec![
                "-f", "concat", "-safe", "0", "-i", manifest, "-c", "copy", "-y",
                "/out/final.mp4"
            ]
        ),
        other => panic!("unexpected action {:?}", other),
    }
    match &actions[4] {
        ExportAction::Emit(p) => {
            assert_eq!(p.current_step, "Completed");
            assert_eq!(p.progress, secs(100.0));
        }
        other => panic!("unexpected action {:?}", other),
    }
    match &actions[5] {
        ExportAction::Cleanup(steps) => {
            assert_eq!(steps.len(), 2);
            assert!(matches!(&steps[0], CleanupStep::RemoveFile(p) if p == artifact));
            assert!(matches!(&steps[1], CleanupStep::RemoveFile(p) if p == manifest));
        }
        other => panic!("unexpected action {:?}", other),
    }
    match &actions[6] {
        ExportAction::Finish(r) => {
            assert!(r.success);
            assert_eq!(r.output_path, Some("/out/final.mp4".to_string()));
            assert_eq!(r.error_message, None);
        }
        other => panic!("unexpected action {:?}", other),
    }
    // none of the intermediate artifacts remain, the output does
    assert_eq!(disk, HashSet::from(["/out/final.mp4".to_string()]));
    assert!(session.tracker().is_empty());
    assert_eq!(session.status(), Some(ExportStatus::Completed));

    // the ready clips: A as it came, B standing for its trimmed copy
    let ready = session.ready_clips();
    assert_eq!(ready.len(), 2);
    assert_eq!(ready[0].file_path, "/media/a.mp4");
    assert_eq!(ready[1].file_path, artifact);
    assert_eq!(ready[1].duration, secs(3.0));
    assert_eq!((ready[1].trim_start, ready[1].trim_end), (0, secs(3.0)));
    assert_eq!(ready[1].start_time, secs(10.0));
    assert_eq!(ready[1].trimmed_file_path, Some(artifact.to_string()));
}

#[test]
fn test_export_failure_still_cleans_up() {
    // the trim fails
    let request = ExportVideoRequest {
        clips: two_clips(),
        output_path: "/out/final.mp4".to_string(),
        settings: get_default_export_settings(),
    };
    let (actions, disk, session) = run(ExportSession::new(request, true).unwrap(), Some(1));
    assert_eq!(actions.len(), 5);
    assert!(matches!(&actions[2], ExportAction::Emit(p)
        if p.current_step == "Failed" && p.error == Some("FFmpeg trim failed: boom".to_string())));
    assert!(matches!(&actions[3], ExportAction::Cleanup(steps) if steps.len() == 1));
    assert!(matches!(&actions[4], ExportAction::Finish(r)
        if !r.success && r.output_path.is_none()
            && r.error_message == Some("FFmpeg trim failed: boom".to_string())));
    assert!(disk.is_empty());
    assert_eq!(session.status(), Some(ExportStatus::Failed));

    // the encode fails
    let request = ExportVideoRequest {
        clips: two_clips(),
        output_path: "/out/final.mp4".to_string(),
        settings: get_default_export_settings(),
    };
    let (actions, disk, _) = run(ExportSession::new(request, true).unwrap(), Some(2));
    assert_eq!(actions.len(), 7);
    assert!(matches!(&actions[5], ExportAction::Cleanup(steps) if steps.len() == 2));
    assert!(matches!(&actions[6], ExportAction::Finish(r)
        if !r.success && r.error_message == Some("FFmpeg export failed: boom".to_string())));
    assert!(disk.is_empty());
}

#[test]
fn test_export_failure_messages() {
    let make = || {
        ExportSession::new(
            ExportVideoRequest {
                clips: two_clips(),
                output_path: "/out/final.mp4".to_string(),
                settings: get_default_export_settings(),
            },
            true,
        )
        .unwrap()
    };
    let error_of = |action: &ExportAction| match action {
        ExportAction::Emit(p) => p.error.clone().unwrap(),
        other => panic!("unexpected action {:?}", other),
    };
    // the announcement cannot be delivered
    let (s, _) = make().step_at(ActionOutcome::Done, 1, 1);
    assert_eq!(s.status(), Some(ExportStatus::Preparing));
    let (s, a) = s.step_at(ActionOutcome::Failed("sink closed".to_string()), 1, 1);
    assert_eq!(error_of(&a), "Failed to emit start progress: sink closed");
    assert_eq!(s.phase(), ExportPhase::Reporting);
    // the tool cannot be started for the trim
    let (s, _) = make().step_at(ActionOutcome::Done, 1, 1);
    let (s, _) = s.step_at(ActionOutcome::Done, 1, 1);
    assert_eq!(s.phase(), ExportPhase::Trimming);
    let (_, a) = s.step_at(ActionOutcome::Failed("not found".to_string()), 1, 1);
    assert_eq!(error_of(&a), "Failed to execute ffmpeg trim: not found");
    // the manifest cannot be written
    let (s, _) = make().step_at(ActionOutcome::Done, 1, 1);
    let (s, _) = s.step_at(ActionOutcome::Done, 1, 1);
    let (s, _) = s.step_at(ActionOutcome::Done, 1, 1);
    assert_eq!(s.phase(), ExportPhase::WritingManifest);
    let (_, a) = s.step_at(ActionOutcome::Failed("disk full".to_string()), 1, 1);
    assert_eq!(error_of(&a), "Failed to write concat file: disk full");
    // the tool cannot be started for the encode
    let (s, _) = make().step_at(ActionOutcome::Done, 1, 1);
    let (s, _) = s.step_at(ActionOutcome::Done, 1, 1);
    let (s, _) = s.step_at(ActionOutcome::Done, 1, 1);
    let (s, _) = s.step_at(ActionOutcome::Done, 1, 1);
    assert_eq!(s.phase(), ExportPhase::Encoding);
    assert_eq!(s.status(), Some(ExportStatus::Exporting));
    let (s, a) = s.step_at(ActionOutcome::Failed("not found".to_string()), 1, 1);
    assert_eq!(error_of(&a), "Failed to execute ffmpeg: not found");
    // a tool reports failure where none was run
    let (s2, _) = make().step_at(ActionOutcome::Done, 1, 1);
    let (_, a2) = s2.step_at(ActionOutcome::ToolFailed("odd".to_string()), 1, 1);
    assert_eq!(error_of(&a2), "Failed to emit start progress: odd");
    // once done, the answer is handed out again
    let (s, _) = s.step_at(ActionOutcome::Done, 1, 1);
    let (s, a1) = s.step_at(ActionOutcome::Done, 1, 1);
    assert!(s.is_done());
    let (s, a2) = s.step_at(ActionOutcome::Done, 1, 1);
    assert!(s.is_done());
    assert!(matches!((&a1, &a2), (ExportAction::Finish(x), ExportAction::Finish(y))
        if x.error_message == y.error_message && !x.success && !y.success));
}

#[test]
fn test_export_with_the_clock() {
    let request = ExportVideoRequest {
        clips: two_clips(),
        output_path: "/out/final.mp4".to_string(),
        settings: get_default_export_settings(),
    };
    let (s, _) = ExportSession::new(request, true).unwrap().step(ActionOutcome::Done);
    let (s, a) = s.step(ActionOutcome::Done);
    match a {
        ExportAction::RunTool(args) => {
            let target = args.last().unwrap();
            assert!(target.starts_with("/tmp/clipforge/trimmed_clip_"));
            assert!(target.ends_with(".mov"));
            assert_eq!(s.tracker().files, vec![target.clone()]);
        }
        other => panic!("unexpected action {:?}", other),
    }
}

#[test]
fn test_export_is_refused() {
    let attempt = |clips: Vec<ExportClip>, settings: ExportSettings, dir: bool| {
        let request =
            ExportVideoRequest { clips, output_path: "/out/final.mp4".to_string(), settings };
        match ExportSession::new(request, dir) {
            Ok(_) => panic!("the export was accepted"),
            Err(e) => {
                assert_eq!(e.error_type, "validation_error");
                e.message
            }
        }
    };
    assert_eq!(
        attempt(vec![], settings("4k", "high"), false),
        "Invalid resolution. Must be 'source', '1080p', or '720p'"
    );
    assert_eq!(attempt(vec![], settings("720p", "high"), false), "No clips to export");
    assert_eq!(
        attempt(
            vec![clip("a.mp4", "t1", 0.0, 10.0, (5.0, 5.0))],
            settings("720p", "high"),
            false
        ),
        "Clip 1 has invalid trim range: 5 to 5 (end must be greater than start)"
    );
    assert_eq!(
        attempt(two_clips(), settings("720p", "high"), false),
        "Output directory does not exist"
    );
    let nowhere = ExportVideoRequest {
        clips: two_clips(),
        output_path: "/".to_string(),
        settings: settings("720p", "high"),
    };
    assert_eq!(ExportSession::new(nowhere, true).err().unwrap().message, "Invalid output path");
    assert_eq!(output_directory("/out/final.mp4"), Some("/out".to_string()));
    assert_eq!(output_directory("final.mp4"), Some(String::new()));
    assert_eq!(output_directory(""), None);
}

#[test]
fn test_manifest_follows_track_and_start() {
    let clips = vec![
        clip("c3.mp4", "track2", 20.0, 5.0, (0.0, 5.0)),
        clip("c1.mp4", "track1", 0.0, 10.0, (0.0, 10.0)),
        clip("c4.mp4", "track2", 0.0, 5.0, (0.0, 5.0)),
        clip("c2.mp4", "track1", 10.0, 5.0, (0.0, 5.0)),
    ];
    // the order in which the clips are listed plays no part
    assert!(validate_timeline_clips_for_export(&clips).is_ok());
    assert_eq!(concat_entries(&clips), vec!["c1.mp4", "c2.mp4", "c4.mp4", "c3.mp4"]);
    assert_eq!(
        generate_concat_content(&clips),
        "file 'c1.mp4'\nfile 'c2.mp4'\nfile 'c4.mp4'\nfile 'c3.mp4'\n"
    );
    let valid = vec![
        clip("c4.mp4", "track2", 0.0, 5.0, (0.0, 5.0)),
        clip("c1.mp4", "track1", 0.0, 10.0, (0.0, 10.0)),
        clip("c3.mp4", "track2", 20.0, 5.0, (0.0, 5.0)),
        clip("c2.mp4", "track1", 10.0, 5.0, (0.0, 5.0)),
    ];
    assert!(validate_timeline_clips_for_export(&valid).is_ok());
    assert_eq!(concat_entries(&valid), vec!["c1.mp4", "c2.mp4", "c4.mp4", "c3.mp4"]);
    assert_eq!(generate_concat_content(&[]), "");
}

#[test]
fn test_sort_is_stable_and_orders_tracks_by_bytes() {
    let clips = vec![
        clip("x.mp4", "b", 1.0, 1.0, (0.0, 1.0)),
        clip("y.mp4", "B", 1.0, 1.0, (0.0, 1.0)),
        clip("z.mp4", "b", 1.0, 1.0, (0.0, 1.0)),
        clip("w.mp4", "ab", 1.0, 1.0, (0.0, 1.0)),
        clip("v.mp4", "a", 9.0, 1.0, (0.0, 1.0)),
        clip("u.mp4", "é", 0.0, 1.0, (0.0, 1.0)),
        clip("t.mp4", "", 5.0, 1.0, (0.0, 1.0)),
    ];
    let sorted = sort_clips_by_track_and_timeline_position(&clips);
    let files: Vec<&str> = sorted.iter().map(|c| c.file_path.as_str()).collect();
    assert_eq!(files, vec!["t.mp4", "y.mp4", "v.mp4", "w.mp4", "x.mp4", "z.mp4", "u.mp4"]);
}

#[test]
fn test_inverted_trim_is_always_rejected() {
    for (start, end) in [(5.0, 5.0), (5.0, 4.0), (0.0, 0.0), (100.0, 0.1)] {
        assert!(validate_trim_data(secs(start), secs(end), secs(1000.0), 0).is_err());
        for other in [
            clip("ok.mp4", "t2", 0.0, 5.0, (0.0, 5.0)),
            clip("", "", -1.0, 0.0, (0.0, 5.0)),
        ] {
            let clips = vec![other, clip("a.mp4", "t1", 0.0, 10.0, (start, end))];
            assert!(validate_timeline_clips_for_export(&clips).is_err());
        }
    }
    let e = validate_trim_data(i64::MAX, i64::MIN, 0, usize::MAX).unwrap_err();
    assert_eq!(
        e.message,
        "Clip 18446744073709551616 has invalid trim range: 9223372036854.775807 to \
         -9223372036854.775808 (end must be greater than start)"
    );
}

#[test]
fn test_overlap_is_per_track() {
    let a = clip("a.mp4", "t1", 0.0, 10.0, (0.0, 10.0));
    let mut b = clip("b.mp4", "t1", 9.999999, 5.0, (0.0, 5.0));
    let e = validate_timeline_clips_for_export(&[a.clone(), b.clone()]).unwrap_err();
    assert_eq!(
        e.message,
        "Overlapping clips detected on track 't1': clip 2 starts at 9.999999s but previous \
         clip ends at 10s"
    );
    assert!(check_for_overlapping_clips(&[b.clone(), a.clone()]).is_err());
    b.track_id = "t2".to_string();
    assert!(validate_timeline_clips_for_export(&[a.clone(), b.clone()]).is_ok());
    assert!(validate_timeline_clips_for_export(&[b.clone(), a.clone()]).is_ok());
    // touching windows do not overlap
    b.track_id = "t1".to_string();
    b.start_time = secs(10.0);
    assert!(validate_timeline_clips_for_export(&[a, b]).is_ok());
}

#[test]
fn test_validation_messages() {
    let message = |clips: &[ExportClip]| validate_timeline_clips_for_export(clips).unwrap_err().message;
    assert_eq!(
        message(&[clip("a.mp4", "t", -0.5, 1.0, (0.0, 1.0))]),
        "Clip 1 has negative start time: -0.5s"
    );
    assert_eq!(
        message(&[
            clip("a.mp4", "t", 0.0, 1.0, (0.0, 1.0)),
            clip("b.mp4", "t", 1.0, -2.25, (0.0, 1.0))
        ]),
        "Clip 2 has invalid duration: -2.25s"
    );
    assert_eq!(message(&[clip("a.mp4", "", 0.0, 1.0, (0.0, 1.0))]), "Clip 1 has empty track ID");
    assert_eq!(
        message(&[clip("a.mp4", "t", 0.0, 1.0, (-0.000001, 1.0))]),
        "Clip 1 has negative trim start: -0.000001"
    );
    assert_eq!(
        message(&[clip("a.mp4", "t", 0.0, 1.0, (1.0, 1.05))]),
        "Clip 1 duration too short: 0.05s (minimum 0.1s)"
    );
    assert_eq!(
        validate_trim_data(secs(5.0), secs(20.0), secs(15.0), 2).unwrap_err().message,
        "Clip 3 trim end (20s) exceeds original video duration (15s)"
    );
    let listed_backwards = [
        clip("a.mp4", "t", 10.0, 5.0, (0.0, 5.0)),
        clip("x.mp4", "u", 0.0, 5.0, (0.0, 5.0)),
        clip("b.mp4", "t", 0.0, 10.0, (0.0, 10.0)),
    ];
    assert_eq!(
        validate_track_ordering(&listed_backwards).unwrap_err().message,
        "Clips on track 't' are not in chronological order: clip 2 starts at 0s but previous \
         clip starts at 10s"
    );
    assert!(validate_timeline_clips_for_export(&listed_backwards).is_ok());
    assert_eq!(
        message(&[
            clip("a.mp4", "t", 10.0, 5.0, (0.0, 5.0)),
            clip("x.mp4", "u", 0.0, 5.0, (0.0, 5.0)),
            clip("b.mp4", "t", 0.0, 10.5, (0.0, 10.5))
        ]),
        "Overlapping clips detected on track 't': clip 2 starts at 10s but previous clip ends \
         at 10.5s"
    );
    assert!(validate_trim_data(secs(5.0), secs(5.1), secs(15.0), 0).is_ok());
    assert!(validate_trim_data(secs(5.0), secs(5.099999), secs(15.0), 0).is_err());
}

#[test]
fn test_needs_trimming_tolerance() {
    for (s, e, d) in [
        (0.0, 15.0, 15.0),
        (0.01, 15.0, 15.0),
        (-0.01, 15.01, 15.0),
        (0.0, 14.99, 15.0),
    ] {
        assert!(!needs_trimming(secs(s), secs(e), secs(d)));
    }
    for (s, e, d) in [
        (0.010001, 15.0, 15.0),
        (-0.010001, 15.0, 15.0),
        (0.0, 15.010001, 15.0),
        (0.0, 14.989999, 15.0),
    ] {
        assert!(needs_trimming(secs(s), secs(e), secs(d)));
    }
    assert!(needs_trimming(i64::MIN, i64::MAX, i64::MIN));
    assert_eq!(calculate_trimmed_duration(secs(2.5), secs(7.5)), secs(5.0));
    assert_eq!(calculate_trimmed_duration(0, i64::MAX), i64::MAX);
    let t = trimmed_clip(&clip("/m/b.mov", "t1", 10.0, 5.0, (2.0, 5.0)), "/tmp/x.mov");
    assert_eq!((t.duration, t.trim_start, t.trim_end), (secs(3.0), 0, secs(3.0)));
}

#[test]
fn test_cleanup_is_idempotent() {
    let mut tracker = TempFileTracker::new();
    tracker.add_file("f1".to_string());
    tracker.add_directory("outer".to_string());
    tracker.add_file("f2".to_string());
    tracker.add_directory("outer/inner".to_string());
    let described: Vec<String> = tracker
        .cleanup_steps()
        .iter()
        .map(|s| match s {
            CleanupStep::RemoveFile(p) => format!("file {}", p),
            CleanupStep::RemoveDirectory(p) => format!("dir {}", p),
        })
        .collect();
    assert_eq!(described, vec!["file f1", "file f2", "dir outer/inner", "dir outer"]);
    assert_eq!(tracker.file_count(), 2);
    let first = tracker.cleanup_all();
    assert_eq!(first.len(), 4);
    assert!(tracker.is_empty());
    assert_eq!((tracker.file_count(), tracker.directory_count()), (0, 0));
    let second = tracker.cleanup_all();
    assert!(second.is_empty());
    assert!(tracker.is_empty());
}

#[test]
fn test_estimates() {
    let clips = vec![
        clip("a.mp4", "t", 0.0, 10.0, (0.0, 10.0)),
        clip("b.mp4", "t", 10.0, 20.0, (0.0, 20.0)),
    ];
    assert_eq!(total_duration(&clips), secs(30.0));
    // 30 s * 0.1 * 1.2 * 1.5
    assert_eq!(estimate_export_time(&clips, &settings("1080p", "high")), secs(5.4));
    assert_eq!(estimate_export_time(&clips, &settings("720p", "low")), secs(1.68));
    assert_eq!(estimate_export_time(&clips, &settings("source", "medium")), secs(3.0));
    assert_eq!(estimate_export_time(&clips, &settings("other", "other")), secs(3.0));
    assert_eq!(estimate_export_time(&[], &settings("1080p", "high")), 0);
    // 30 s * 8 Mbit/s * 1.5 / 8
    assert_eq!(estimate_export_size(&clips, &settings("1080p", "high")), 45_000_000);
    assert_eq!(estimate_export_size(&clips, &settings("720p", "low")), 7_875_000);
    assert_eq!(estimate_export_size(&clips, &settings("source", "medium")), 18_750_000);
    assert_eq!(estimate_export_size(&[], &settings("source", "medium")), 0);
    let backwards = vec![clip("a.mp4", "t", 0.0, -10.0, (0.0, 10.0))];
    assert_eq!(estimate_export_size(&backwards, &settings("source", "medium")), 0);
    assert_eq!(estimate_export_time(&backwards, &settings("source", "high")), secs(-1.5));
    let huge = vec![clip("a.mp4", "t", 0.0, 1.0, (0.0, 1.0)); 3]
        .into_iter()
        .map(|mut c| {
            c.duration = i64::MAX;
            c
        })
        .collect::<Vec<_>>();
    assert_eq!(total_duration(&huge), i64::MAX);
    assert_eq!(estimate_export_size(&huge, &settings("1080p", "high")), 13835058055282163710);
}

#[test]
fn test_estimates_grow_with_duration() {
    let all_settings = [
        settings("1080p", "high"),
        settings("720p", "low"),
        settings("source", "medium"),
    ];
    let durations = [-3.0, 0.0, 0.000001, 0.1, 1.0, 59.999999, 60.0, 3600.0, 86400.0];
    for s in &all_settings {
        let mut last_time = i64::MIN;
        let mut last_size = 0;
        for d in durations {
            let clips = vec![clip("a.mp4", "t", 0.0, d, (0.0, 1.0))];
            let time = estimate_export_time(&clips, s);
            let size = estimate_export_size(&clips, s);
            assert!(time >= last_time);
            assert!(size >= last_size);
            last_time = time;
            last_size = size;
        }
    }
}

#[test]
fn test_progress_of_a_line() {
    let line = "frame= 1234 fps=30.0 q=23.0 size=   10240kB time=00:00:41.13 bitrate=2048.0kbits/s speed=1.0x";
    let p = parse_ffmpeg_progress(line, secs(60.0)).unwrap();
    assert_eq!(p.current_frame, Some(1234));
    assert_eq!(p.fps, Some(secs(30.0)));
    assert_eq!(p.progress, 68_550_000); // 41.13 / 60 of a hundred percent
    assert_eq!(p.estimated_time_remaining, secs(18.87));
    assert_eq!(p.total_frames, None);
    assert_eq!(p.error, None);

    // the elapsed time equals the total: a hundred percent, exactly
    let p = parse_ffmpeg_progress("time=00:01:00.00", secs(60.0)).unwrap();
    assert_eq!(p.progress, secs(100.0));
    assert_eq!((p.current_frame, p.fps, p.bitrate), (None, None, None));
    assert_eq!(p.estimated_time_remaining, 0);
    // beyond the total: still a hundred percent
    let p = parse_ffmpeg_progress("time=00:02:00.00 speed=2.0x", secs(60.0)).unwrap();
    assert_eq!(p.progress, secs(100.0));
    assert_eq!(p.estimated_time_remaining, secs(-30.0));
    // no total
    let p = parse_ffmpeg_progress("time=00:02:00.00 speed=0.0x", 0).unwrap();
    assert_eq!((p.progress, p.estimated_time_remaining), (0, 0));
    // no elapsed time
    assert!(parse_ffmpeg_progress("frame= 1234 fps=30.0 speed=1.0x", secs(60.0)).is_none());
    assert!(parse_ffmpeg_progress("time=0:01:00.00", secs(60.0)).is_none());
    assert!(parse_ffmpeg_progress("ffmpeg version 6.0", secs(60.0)).is_none());
    // a field that cannot be read is left out
    let p = parse_ffmpeg_progress("fps=1.2.3 time=00:00:01.00 frame=99999999999999999999", 0)
        .unwrap();
    assert_eq!((p.current_frame, p.fps), (None, None));
}

#[test]
fn test_progress_from_fields() {
    let some = |s: &str| Some(s.to_string());
    let p = progress_from_fields(
        &some("7"),
        &some("29.97"),
        &some("01:30:45.25"),
        &some(".5"),
        &some("0.5"),
        secs(10890.5),
    )
    .unwrap();
    assert_eq!(p.current_frame, Some(7));
    assert_eq!(p.fps, Some(29_970_000));
    assert_eq!(p.bitrate, Some(500_000));
    assert_eq!(p.time, some("01:30:45.25"));
    assert_eq!(p.progress, secs(50.0));
    assert_eq!(p.estimated_time_remaining, secs(10890.5));
    assert_eq!(p.current_step, "Exporting");
    assert!(progress_from_fields(&some("7"), &None, &None, &None, &None, 1).is_none());
    assert!(progress_from_fields(&None, &None, &some("1:2"), &None, &None, 1).is_none());
    assert!(progress_from_fields(&None, &None, &some("1:2:3:4"), &None, &None, 1).is_none());
    assert!(progress_from_fields(&None, &None, &some("a:b:c"), &None, &None, 1).is_none());
    let p = progress_from_fields(&some("x"), &some("."), &some("0:0:1."), &None, &some("-1"), 4)
        .unwrap();
    assert_eq!((p.current_frame, p.fps, p.estimated_time_remaining), (None, None, 0));
    assert_eq!(p.progress, secs(100.0));
}

#[test]
fn test_scratch_names() {
    assert_eq!(
        unique_temp_path_at("concat", "txt", 1700000000, 123456789),
        "/tmp/clipforge/concat_1700000000_123456789.txt"
    );
    assert_eq!(unique_temp_path_at("a", "b", -5, -7), "/tmp/clipforge/a_-5_-7.b");
    assert!(is_export_temp_file("concat_1.txt"));
    assert!(is_export_temp_file("trimmed_clip_0_1.mp4"));
    assert!(!is_export_temp_file("export_1.mp4"));
    assert!(is_temp_file("export_1.mp4") && is_temp_file("temp_x") && is_temp_file("a.txt"));
    assert!(!is_temp_file("movie.mp4") && !is_temp_file("txt"));
    assert!(is_temp_dir("temp_1") && is_temp_dir("export_") && !is_temp_dir("trimmed_clip_1"));
    assert!(is_older_than(0, 3601, 1));
    assert!(!is_older_than(1, 3601, 1));
    assert!(!is_older_than(i64::MIN, i64::MIN, u64::MAX));
    let clips = vec![
        clip("/tmp/clipforge/trimmed_clip_0_1.mp4", "t", 0.0, 1.0, (0.0, 1.0)),
        clip("/media/a.mp4", "t", 1.0, 1.0, (0.0, 1.0)),
        clip("trimmed_clip_", "t", 2.0, 1.0, (0.0, 1.0)),
    ];
    assert_eq!(
        trimmed_clip_files(&clips),
        vec!["/tmp/clipforge/trimmed_clip_0_1.mp4", "trimmed_clip_"]
    );
}
