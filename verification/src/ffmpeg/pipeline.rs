//! The export of a timeline, step by step: a session decides what is to be
//! done next, whoever drives it does it and reports how it went.
//!
//! A session starts idle. It announces that it prepares, has every clip that
//! needs it trimmed into a scratch file, has the manifest written, has the
//! tool join the files into the output, announces how the export ended, has
//! every scratch file cleaned up, and only then hands out the answer. Whatever
//! fails on the way, the announcement, the cleanup and the answer follow.

use crate::clock::{utc_timestamp, utc_timestamp_nanos};
use crate::commands::export::ExportStatus;
use crate::commands::{CommandError, CommandResult};
use crate::ffmpeg::concat::{concat_content_spec, generate_concat_content};
use crate::ffmpeg::export::{
    clip_views, copy_supported, get_file_extension, media_extension, supports_copy_codec,
    validate_export_settings, ClipView, ExportClip, ExportProgress, ExportSettings,
    ExportVideoRequest, ExportVideoResponse, ResponseView,
};
use crate::ffmpeg::progress::{
    create_export_complete_progress, create_export_error_progress, create_export_start_progress,
    plain_progress, ProgressView, FULL_PROGRESS,
};
use crate::ffmpeg::temp::{
    cleanup_plan, empty_tracker, step_views, unique_temp_path, unique_temp_path_at, CleanupStep,
    CleanupStepView, TempFileTracker, TrackerView,
};
use crate::ffmpeg::timeline::{timeline_issue, validate_timeline_clips_for_export};
use crate::ffmpeg::trim::{
    clip_wants_trim, first_trim_issue, generate_trim_command_args, needs_trimming,
    trim_command_args, trimmed_clip, trimmed_clip_spec,
};
use crate::paths::{opt_view, parent_of, path_parent};
use crate::text::{push_text, views};
use vstd::prelude::*;
use vstd::string::*;

verus! {

/// Where a session stands.
#[derive(Debug, Clone, Copy, PartialEq, Eq, Structural)]
pub enum ExportPhase {
    /// Nothing has been done yet.
    Idle,
    /// The start is being announced.
    Announcing,
    /// The tool is cutting a clip's window out of its source.
    Trimming,
    /// The manifest is being written.
    WritingManifest,
    /// The tool is joining the files into the output.
    Encoding,
    /// The end, good or bad, is being announced.
    Reporting,
    /// The scratch files are being cleaned up.
    Cleaning,
    /// The answer has been handed out.
    Done,
}

/// How the action went that a session handed out last.
#[derive(Debug, Clone)]
pub enum ActionOutcome {
    /// It was done.
    Done,
    /// The tool ran and reported failure; the text is what it wrote to its
    /// diagnostic stream.
    ToolFailed(String),
    /// It could not be done; the text says why.
    Failed(String),
}

/// An outcome, as mathematics sees it.
pub enum OutcomeView {
    Done,
    ToolFailed(Seq<char>),
    Failed(Seq<char>),
}

impl View for ActionOutcome {
    type V = OutcomeView;

    open spec fn view(&self) -> OutcomeView {
        match self {
            ActionOutcome::Done => OutcomeView::Done,
            ActionOutcome::ToolFailed(d) => OutcomeView::ToolFailed(d@),
            ActionOutcome::Failed(m) => OutcomeView::Failed(m@),
        }
    }
}

/// What a session wants done next.
#[derive(Debug, Clone)]
pub enum ExportAction {
    /// Deliver this progress event to the sink.
    Emit(ExportProgress),
    /// Run the tool with these arguments and wait for it to exit.
    RunTool(Vec<String>),
    /// Write this text to this file.
    WriteFile { path: String, content: String },
    /// Try each of these deletions, whether or not the one before succeeded.
    Cleanup(Vec<CleanupStep>),
    /// Return this answer; the export is over.
    Finish(ExportVideoResponse),
}

/// An action, as mathematics sees it.
pub enum ActionView {
    Emit(ProgressView),
    RunTool(Seq<Seq<char>>),
    WriteFile { path: Seq<char>, content: Seq<char> },
    Cleanup(Seq<CleanupStepView>),
    Finish(ResponseView),
}

impl View for ExportAction {
    type V = ActionView;

    open spec fn view(&self) -> ActionView {
        match self {
            ExportAction::Emit(p) => ActionView::Emit(p@),
            ExportAction::RunTool(args) => ActionView::RunTool(views(args@)),
            ExportAction::WriteFile { path, content } => ActionView::WriteFile {
                path: path@,
                content: content@,
            },
            ExportAction::Cleanup(steps) => ActionView::Cleanup(step_views(steps@)),
            ExportAction::Finish(r) => ActionView::Finish(r@),
        }
    }
}

/// One export attempt: its clips, how far it has come, and the scratch files
/// it owns.
pub struct ExportSession {
    phase: ExportPhase,
    clips: Vec<ExportClip>,
    done: Vec<ExportClip>,
    pending: Option<ExportClip>,
    tracker: TempFileTracker,
    manifest_path: Option<String>,
    output_path: String,
    failure: Option<String>,
}

/// A session, as mathematics sees it: the clips as they were requested; the
/// clips that are ready for the manifest, trimmed where they had to be; the
/// clip that stands for the one being trimmed; the scratch files owned; the
/// manifest's path once it has one; the output's path; and what went wrong,
/// if anything.
pub struct SessionView {
    pub phase: ExportPhase,
    pub clips: Seq<ClipView>,
    pub done: Seq<ClipView>,
    pub pending: Option<ClipView>,
    pub tracker: TrackerView,
    pub manifest_path: Option<Seq<char>>,
    pub output_path: Seq<char>,
    pub failure: Option<Seq<char>>,
}

/// An optional clip, as mathematics sees it.
pub open spec fn opt_clip_view(o: Option<ExportClip>) -> Option<ClipView> {
    match o {
        Some(c) => Some(c@),
        None => None,
    }
}

/// What holds of every session: no more clips are ready than there are; while
/// a clip is being trimmed its stand-in is at hand; once the manifest is being
/// written it has a path; once cleanup has been handed out nothing is owned
/// any more; and every trim window has a length that can be written down.
pub open spec fn session_wf(s: SessionView) -> bool {
    &&& s.done.len() <= s.clips.len()
    &&& s.phase == ExportPhase::Trimming ==> s.pending is Some && s.done.len() < s.clips.len()
    &&& s.phase == ExportPhase::WritingManifest ==> s.manifest_path is Some
    &&& (s.phase == ExportPhase::Cleaning || s.phase == ExportPhase::Done) ==> s.tracker
        == empty_tracker()
    &&& forall|i: int|
        0 <= i < s.clips.len() ==> i64::MIN <= #[trigger] s.clips[i].trim_end
            - s.clips[i].trim_start <= i64::MAX
}

/// What keeps an export from starting, if anything: the first of settings
/// that are not offered, no clips, a timeline that breaks a rule, an output
/// path that lies in no directory, and an output directory that does not
/// exist.
pub open spec fn request_issue(
    clips: Seq<ClipView>,
    settings: ExportSettings,
    output_path: Seq<char>,
    output_dir_exists: bool,
) -> Option<Seq<char>> {
    if settings.issue() is Some {
        settings.issue()
    } else if clips.len() == 0 {
        Some("No clips to export"@)
    } else if timeline_issue(clips) is Some {
        timeline_issue(clips)
    } else if path_parent(output_path) is None {
        Some("Invalid output path"@)
    } else if !output_dir_exists {
        Some("Output directory does not exist"@)
    } else {
        None
    }
}

/// The directory that an output path lies in, which has to exist before an
/// export to the path is started: none for a path that lies in no directory.
pub fn output_directory(output_path: &str) -> (r: Option<String>)
    ensures
        opt_view(r) == path_parent(output_path@),
{
    parent_of(output_path)
}

/// The session of a request before anything has been done.
pub open spec fn initial_session(clips: Seq<ClipView>, output_path: Seq<char>) -> SessionView {
    SessionView {
        phase: ExportPhase::Idle,
        clips,
        done: Seq::empty(),
        pending: None,
        tracker: empty_tracker(),
        manifest_path: None,
        output_path,
        failure: None,
    }
}

/// What went wrong, if the outcome of the action of a phase is a failure.
pub open spec fn failure_text(phase: ExportPhase, outcome: OutcomeView) -> Option<Seq<char>> {
    match outcome {
        OutcomeView::Done => None,
        OutcomeView::ToolFailed(d) => Some(
            match phase {
                ExportPhase::Announcing => "Failed to emit start progress: "@ + d,
                ExportPhase::Trimming => "FFmpeg trim failed: "@ + d,
                ExportPhase::WritingManifest => "Failed to write concat file: "@ + d,
                _ => "FFmpeg export failed: "@ + d,
            },
        ),
        OutcomeView::Failed(m) => Some(
            match phase {
                ExportPhase::Announcing => "Failed to emit start progress: "@ + m,
                ExportPhase::Trimming => "Failed to execute ffmpeg trim: "@ + m,
                ExportPhase::WritingManifest => "Failed to write concat file: "@ + m,
                _ => "Failed to execute ffmpeg: "@ + m,
            },
        ),
    }
}

/// The ready clips, and behind them the clips that follow and need no
/// trimming, up to the first that does.
pub open spec fn settle(clips: Seq<ClipView>, done: Seq<ClipView>) -> Seq<ClipView>
    decreases clips.len() - done.len(),
{
    if done.len() < clips.len() && !clip_wants_trim(clips[done.len() as int]) {
        settle(clips, done.push(clips[done.len() as int]))
    } else {
        done
    }
}

/// The arguments that ask the tool to join the files of a manifest into the
/// output, copying their streams.
pub open spec fn encode_args(manifest: Seq<char>, output_path: Seq<char>) -> Seq<Seq<char>> {
    seq![
        "-f"@,
        "concat"@,
        "-safe"@,
        "0"@,
        "-i"@,
        manifest,
        "-c"@,
        "copy"@,
        "-y"@,
        output_path,
    ]
}

/// The answer of a session: success with the output's path where nothing went
/// wrong, failure with what went wrong otherwise.
pub open spec fn response_of(s: SessionView) -> ResponseView {
    match s.failure {
        Some(m) => ResponseView { success: false, output_path: None, error_message: Some(m) },
        None => ResponseView {
            success: true,
            output_path: Some(s.output_path),
            error_message: None,
        },
    }
}

/// A failure: it is noted, and announced next.
pub open spec fn fail_spec(s: SessionView, message: Seq<char>) -> (SessionView, ActionView) {
    (
        SessionView {
            phase: ExportPhase::Reporting,
            pending: None,
            failure: Some(message),
            ..s
        },
        ActionView::Emit(plain_progress("Failed"@, 0, Some(message))),
    )
}

/// What comes once the clips up to here are ready: the next clip that needs
/// it is trimmed into a new scratch file, which is owned from now on; where
/// no clip is left, the manifest of the ready clips is written to a new
/// scratch file, which is owned from now on. The scratch file is named after
/// the moment given.
pub open spec fn proceed_spec(s: SessionView, timestamp: int, nanos: int) -> (
    SessionView,
    ActionView,
) {
    let done = settle(s.clips, s.done);
    if done.len() < s.clips.len() {
        let clip = s.clips[done.len() as int];
        let extension = media_extension(clip.file_path);
        let artifact = unique_temp_path("trimmed_clip"@, extension, timestamp, nanos);
        (
            SessionView {
                phase: ExportPhase::Trimming,
                done,
                pending: Some(trimmed_clip_spec(clip, artifact)),
                tracker: TrackerView { files: s.tracker.files.push(artifact), ..s.tracker },
                ..s
            },
            ActionView::RunTool(
                trim_command_args(
                    clip.file_path,
                    artifact,
                    clip.trim_start,
                    clip.trim_end - clip.trim_start,
                    copy_supported(extension),
                ),
            ),
        )
    } else {
        let manifest = unique_temp_path("concat"@, "txt"@, timestamp, nanos);
        (
            SessionView {
                phase: ExportPhase::WritingManifest,
                done,
                pending: None,
                tracker: TrackerView { files: s.tracker.files.push(manifest), ..s.tracker },
                manifest_path: Some(manifest),
                ..s
            },
            ActionView::WriteFile { path: manifest, content: concat_content_spec(done) },
        )
    }
}

/// The step of a session: from where it stands and how its last action went,
/// to where it stands next and what it wants done. `timestamp` and `nanos`
/// are the moment of the step, after which a scratch file made in it is
/// named.
pub open spec fn step_spec(s: SessionView, outcome: OutcomeView, timestamp: int, nanos: int) -> (
    SessionView,
    ActionView,
) {
    match s.phase {
        ExportPhase::Idle => (
            SessionView { phase: ExportPhase::Announcing, ..s },
            ActionView::Emit(plain_progress("Preparing"@, 0, None)),
        ),
        ExportPhase::Announcing => match failure_text(s.phase, outcome) {
            Some(m) => fail_spec(s, m),
            None => proceed_spec(s, timestamp, nanos),
        },
        ExportPhase::Trimming => match failure_text(s.phase, outcome) {
            Some(m) => fail_spec(s, m),
            None => proceed_spec(
                SessionView { done: s.done.push(s.pending->0), pending: None, ..s },
                timestamp,
                nanos,
            ),
        },
        ExportPhase::WritingManifest => match failure_text(s.phase, outcome) {
            Some(m) => fail_spec(s, m),
            None => (
                SessionView { phase: ExportPhase::Encoding, ..s },
                ActionView::RunTool(encode_args(s.manifest_path->0, s.output_path)),
            ),
        },
        ExportPhase::Encoding => match failure_text(s.phase, outcome) {
            Some(m) => fail_spec(s, m),
            None => (
                SessionView { phase: ExportPhase::Reporting, ..s },
                ActionView::Emit(plain_progress("Completed"@, FULL_PROGRESS as int, None)),
            ),
        },
        ExportPhase::Reporting => (
            SessionView { phase: ExportPhase::Cleaning, tracker: empty_tracker(), ..s },
            ActionView::Cleanup(cleanup_plan(s.tracker)),
        ),
        _ => (SessionView { phase: ExportPhase::Done, ..s }, ActionView::Finish(response_of(s))),
    }
}

/// The status that a phase shows to the outside: none before the start,
/// preparing up to the manifest, exporting while the tool joins the files,
/// and completed or failed from the announcement of the end on.
pub open spec fn status_of(s: SessionView) -> Option<ExportStatus> {
    match s.phase {
        ExportPhase::Idle => None,
        ExportPhase::Announcing | ExportPhase::Trimming | ExportPhase::WritingManifest => Some(
            ExportStatus::Preparing,
        ),
        ExportPhase::Encoding => Some(ExportStatus::Exporting),
        _ => if s.failure is Some {
            Some(ExportStatus::Failed)
        } else {
            Some(ExportStatus::Completed)
        },
    }
}

/// How many steps a session has before it at most, counted by the clips that
/// are not ready yet and the phases that follow.
pub open spec fn steps_left(s: SessionView) -> nat {
    match s.phase {
        ExportPhase::Idle => (s.clips.len() - s.done.len() + 6) as nat,
        ExportPhase::Announcing => (s.clips.len() - s.done.len() + 5) as nat,
        ExportPhase::Trimming => (s.clips.len() - s.done.len() + 4) as nat,
        ExportPhase::WritingManifest => 4,
        ExportPhase::Encoding => 3,
        ExportPhase::Reporting => 2,
        ExportPhase::Cleaning => 1,
        ExportPhase::Done => 0,
    }
}

/// Settling keeps what is ready, adds only clips that follow, and stops at
/// the end or in front of a clip that needs trimming.
pub proof fn lemma_settle(clips: Seq<ClipView>, done: Seq<ClipView>)
    requires
        done.len() <= clips.len(),
    ensures
        done.len() <= settle(clips, done).len() <= clips.len(),
        settle(clips, done).len() < clips.len() ==> clip_wants_trim(
            clips[settle(clips, done).len() as int],
        ),
    decreases clips.len() - done.len(),
{
    if done.len() < clips.len() && !clip_wants_trim(clips[done.len() as int]) {
        lemma_settle(clips, done.push(clips[done.len() as int]));
    }
}

/// A step leaves a session as every session is.
pub proof fn lemma_step_keeps_wf(s: SessionView, outcome: OutcomeView, timestamp: int, nanos: int)
    requires
        session_wf(s),
    ensures
        session_wf(step_spec(s, outcome, timestamp, nanos).0),
{
    lemma_settle(s.clips, s.done);
    if s.done.len() < s.clips.len() {
        lemma_settle(s.clips, s.done.push(s.pending->0));
    }
}

/// Every step brings a session closer to its end: the count of the steps
/// left goes down with each step, until the answer has been handed out.
pub proof fn lemma_step_makes_progress(
    s: SessionView,
    outcome: OutcomeView,
    timestamp: int,
    nanos: int,
)
    requires
        session_wf(s),
        s.phase != ExportPhase::Done,
    ensures
        steps_left(step_spec(s, outcome, timestamp, nanos).0) < steps_left(s),
{
    lemma_settle(s.clips, s.done);
    if s.done.len() < s.clips.len() {
        lemma_settle(s.clips, s.done.push(s.pending->0));
    }
}

/// A scratch file is owned before it is made: the file that the tool is to
/// cut a clip into, and the file that the manifest is to be written to, are
/// among the tracked files when the action is handed out.
pub proof fn lemma_artifact_owned_before_made(
    s: SessionView,
    outcome: OutcomeView,
    timestamp: int,
    nanos: int,
)
    requires
        session_wf(s),
    ensures
        ({
            let (next, action) = step_spec(s, outcome, timestamp, nanos);
            &&& action matches ActionView::WriteFile { path, .. } ==> next.tracker.files.contains(
                path,
            )
            &&& (action is RunTool && next.phase == ExportPhase::Trimming)
                ==> next.tracker.files.contains(action->RunTool_0.last())
        }),
{
    let (next, action) = step_spec(s, outcome, timestamp, nanos);
    if action is WriteFile {
        assert(next.tracker.files.last() == action->WriteFile_path);
    }
    if action is RunTool && next.phase == ExportPhase::Trimming {
        assert(next.tracker.files.last() == action->RunTool_0.last());
    }
}

/// The answer comes last, after the cleanup: when it is handed out the
/// session owns no scratch file any more. And it says what happened: success
/// with the output's path where nothing went wrong, failure with the message
/// otherwise.
pub proof fn lemma_answer_after_cleanup(
    s: SessionView,
    outcome: OutcomeView,
    timestamp: int,
    nanos: int,
)
    requires
        session_wf(s),
    ensures
        ({
            let (next, action) = step_spec(s, outcome, timestamp, nanos);
            action matches ActionView::Finish(r) ==> next.tracker == empty_tracker() && r.success
                == (s.failure is None) && (r.success ==> r.output_path == Some(s.output_path))
                && (!r.success ==> r.error_message == s.failure)
        }),
{
}

/// A failure is never lost and nothing is done after it but to announce it,
/// clean up and answer: from a failed step on, the session reports, cleans up
/// and is done, whatever is reported to it.
pub proof fn lemma_failure_leads_to_cleanup(
    s: SessionView,
    outcome: OutcomeView,
    timestamp: int,
    nanos: int,
)
    requires
        session_wf(s),
        s.phase == ExportPhase::Announcing || s.phase == ExportPhase::Trimming || s.phase
            == ExportPhase::WritingManifest || s.phase == ExportPhase::Encoding,
        !(outcome is Done),
    ensures
        ({
            let (failed, announce) = step_spec(s, outcome, timestamp, nanos);
            let (cleaning, cleanup) = step_spec(failed, OutcomeView::Done, timestamp, nanos);
            let (done, answer) = step_spec(cleaning, OutcomeView::Done, timestamp, nanos);
            &&& announce == ActionView::Emit(
                plain_progress("Failed"@, 0, failure_text(s.phase, outcome)),
            )
            &&& cleanup == ActionView::Cleanup(cleanup_plan(s.tracker))
            &&& answer == ActionView::Finish(
                ResponseView {
                    success: false,
                    output_path: None,
                    error_message: failure_text(s.phase, outcome),
                },
            )
            &&& done.phase == ExportPhase::Done
        }),
{
}

/// The status never shows a cancelled export.
pub proof fn lemma_never_cancelled(s: SessionView)
    ensures
        status_of(s) != Some(ExportStatus::Cancelled),
{
}

/// A timeline that breaks no rule has trim windows that start at or after
/// nothing and end after they start.
pub proof fn lemma_valid_trim_windows(clips: Seq<ClipView>, from: int, i: int)
    requires
        0 <= from <= i < clips.len(),
        first_trim_issue(clips, from) is None,
    ensures
        0 <= clips[i].trim_start < clips[i].trim_end,
    decreases i - from,
{
    if from < i {
        lemma_valid_trim_windows(clips, from + 1, i);
    }
}

/// Nothing is started for clips that break a rule: where the timeline has an
/// issue, whatever the settings and the output directory, no session is made,
/// and so no tool is run and no scratch file is named.
pub proof fn lemma_invalid_timeline_never_starts(
    clips: Seq<ClipView>,
    settings: ExportSettings,
    output_path: Seq<char>,
    output_dir_exists: bool,
)
    requires
        timeline_issue(clips) is Some,
    ensures
        request_issue(clips, settings, output_path, output_dir_exists) is Some,
{
}

impl View for ExportSession {
    type V = SessionView;

    closed spec fn view(&self) -> SessionView {
        SessionView {
            phase: self.phase,
            clips: clip_views(self.clips@),
            done: clip_views(self.done@),
            pending: opt_clip_view(self.pending),
            tracker: self.tracker@,
            manifest_path: opt_view(self.manifest_path),
            output_path: self.output_path@,
            failure: opt_view(self.failure),
        }
    }
}

fn failure_message(phase: ExportPhase, outcome: ActionOutcome) -> (r: Option<String>)
    ensures
        opt_view(r) == failure_text(phase, outcome@),
{
    match outcome {
        ActionOutcome::Done => None,
        ActionOutcome::ToolFailed(d) => {
            let mut m = match phase {
                ExportPhase::Announcing => String::from_str("Failed to emit start progress: "),
                ExportPhase::Trimming => String::from_str("FFmpeg trim failed: "),
                ExportPhase::WritingManifest => String::from_str("Failed to write concat file: "),
                _ => String::from_str("FFmpeg export failed: "),
            };
            m.append(d.as_str());
            Some(m)
        },
        ActionOutcome::Failed(d) => {
            let mut m = match phase {
                ExportPhase::Announcing => String::from_str("Failed to emit start progress: "),
                ExportPhase::Trimming => String::from_str("Failed to execute ffmpeg trim: "),
                ExportPhase::WritingManifest => String::from_str("Failed to write concat file: "),
                _ => String::from_str("Failed to execute ffmpeg: "),
            };
            m.append(d.as_str());
            Some(m)
        },
    }
}

impl ExportSession {
    #[verifier::type_invariant]
    spec fn inv(self) -> bool {
        session_wf(self@)
    }

    /// Starts a session for a request, or says what keeps the export from
    /// starting. `output_dir_exists` is what the file system says of the
    /// directory that the output is to be written to, which is what
    /// `output_directory` gives for the request's output path.
    pub fn new(request: ExportVideoRequest, output_dir_exists: bool) -> (r: CommandResult<
        ExportSession,
    >)
        ensures
            r is Ok <==> request_issue(
                clip_views(request.clips@),
                request.settings,
                request.output_path@,
                output_dir_exists,
            ) is None,
            r matches Ok(s) ==> s@ == initial_session(
                clip_views(request.clips@),
                request.output_path@,
            ),
            r matches Err(e) ==> e.is(
                "validation_error"@,
                request_issue(
                    clip_views(request.clips@),
                    request.settings,
                    request.output_path@,
                    output_dir_exists,
                )->0,
            ),
    {
        match validate_export_settings(&request.settings) {
            Ok(_) => {},
            Err(e) => {
                return Err(e);
            },
        }
        if request.clips.len() == 0 {
            return Err(CommandError::validation_error(String::from_str("No clips to export")));
        }
        let clips = request.clips;
        let ordered = clips.as_slice();
        assert(ordered@ == clips@);
        match validate_timeline_clips_for_export(ordered) {
            Ok(_) => {},
            Err(e) => {
                return Err(e);
            },
        }
        if parent_of(request.output_path.as_str()).is_none() {
            return Err(CommandError::validation_error(String::from_str("Invalid output path")));
        }
        if !output_dir_exists {
            return Err(
                CommandError::validation_error(String::from_str("Output directory does not exist")),
            );
        }
        let done: Vec<ExportClip> = Vec::new();
        let tracker = TempFileTracker::new();
        proof {
            let all = clip_views(clips@);
            assert(clip_views(done@) =~= Seq::<ClipView>::empty());
            assert forall|i: int| 0 <= i < all.len() implies i64::MIN <= #[trigger] all[i].trim_end
                - all[i].trim_start <= i64::MAX by {
                lemma_valid_trim_windows(all, 0, i);
                assert(all[i] == clips@[i]@);
            }
        }
        Ok(
            ExportSession {
                phase: ExportPhase::Idle,
                clips,
                done,
                pending: None,
                tracker,
                manifest_path: None,
                output_path: request.output_path,
                failure: None,
            },
        )
    }

    /// Where the session stands.
    pub fn phase(&self) -> (r: ExportPhase)
        ensures
            r == self@.phase,
    {
        self.phase
    }

    /// Whether the answer has been handed out.
    pub fn is_done(&self) -> (r: bool)
        ensures
            r == (self@.phase == ExportPhase::Done),
    {
        self.phase == ExportPhase::Done
    }

    /// The status that the session shows to the outside.
    pub fn status(&self) -> (r: Option<ExportStatus>)
        ensures
            r == status_of(self@),
            r != Some(ExportStatus::Cancelled),
    {
        match self.phase {
            ExportPhase::Idle => None,
            ExportPhase::Announcing | ExportPhase::Trimming | ExportPhase::WritingManifest => Some(
                ExportStatus::Preparing,
            ),
            ExportPhase::Encoding => Some(ExportStatus::Exporting),
            _ => if self.failure.is_some() {
                Some(ExportStatus::Failed)
            } else {
                Some(ExportStatus::Completed)
            },
        }
    }

    /// The scratch files that the session owns.
    pub fn tracker(&self) -> (r: &TempFileTracker)
        ensures
            r@ == self@.tracker,
    {
        &self.tracker
    }

    /// The clips that are ready for the manifest, trimmed where they had to
    /// be.
    pub fn ready_clips(&self) -> (r: &Vec<ExportClip>)
        ensures
            clip_views(r@) == self@.done,
    {
        &self.done
    }

    /// Takes the step that follows on the outcome of the last action, at the
    /// moment given by `timestamp` and `nanos`.
    pub fn step_at(self, outcome: ActionOutcome, timestamp: i64, nanos: i64) -> (r: (
        ExportSession,
        ExportAction,
    ))
        ensures
            (r.0@, r.1@) == step_spec(self@, outcome@, timestamp as int, nanos as int),
    {
        proof {
            use_type_invariant(&self);
            lemma_step_keeps_wf(self@, outcome@, timestamp as int, nanos as int);
        }
        let ghost before = self@;
        let ExportSession {
            phase,
            clips,
            done,
            pending,
            tracker,
            manifest_path,
            output_path,
            failure,
        } = self;
        match phase {
            ExportPhase::Idle => {
                let next = ExportSession {
                    phase: ExportPhase::Announcing,
                    clips,
                    done,
                    pending,
                    tracker,
                    manifest_path,
                    output_path,
                    failure,
                };
                (next, ExportAction::Emit(create_export_start_progress()))
            },
            ExportPhase::Announcing => {
                match failure_message(phase, outcome) {
                    Some(m) => fail(clips, done, tracker, manifest_path, output_path, m),
                    None => proceed(
                        clips,
                        done,
                        tracker,
                        manifest_path,
                        output_path,
                        failure,
                        timestamp,
                        nanos,
                    ),
                }
            },
            ExportPhase::Trimming => {
                match failure_message(phase, outcome) {
                    Some(m) => fail(clips, done, tracker, manifest_path, output_path, m),
                    None => {
                        let mut done = done;
                        let ghost ready = clip_views(done@);
                        match pending {
                            Some(clip) => {
                                done.push(clip);
                                assert(clip_views(done@) =~= ready.push(clip@));
                            },
                            None => {},
                        }
                        proceed(
                            clips,
                            done,
                            tracker,
                            manifest_path,
                            output_path,
                            failure,
                            timestamp,
                            nanos,
                        )
                    },
                }
            },
            ExportPhase::WritingManifest => {
                match failure_message(phase, outcome) {
                    Some(m) => fail(clips, done, tracker, manifest_path, output_path, m),
                    None => {
                        let mut args: Vec<String> = Vec::new();
                        assert(views(args@) =~= Seq::<Seq<char>>::empty());
                        push_text(&mut args, "-f");
                        push_text(&mut args, "concat");
                        push_text(&mut args, "-safe");
                        push_text(&mut args, "0");
                        push_text(&mut args, "-i");
                        match &manifest_path {
                            Some(p) => {
                                push_text(&mut args, p.as_str());
                            },
                            None => {},
                        }
                        push_text(&mut args, "-c");
                        push_text(&mut args, "copy");
                        push_text(&mut args, "-y");
                        push_text(&mut args, output_path.as_str());
                        assert(views(args@) =~= encode_args(
                            before.manifest_path->0,
                            before.output_path,
                        ));
                        let next = ExportSession {
                            phase: ExportPhase::Encoding,
                            clips,
                            done,
                            pending,
                            tracker,
                            manifest_path,
                            output_path,
                            failure,
                        };
                        (next, ExportAction::RunTool(args))
                    },
                }
            },
            ExportPhase::Encoding => {
                match failure_message(phase, outcome) {
                    Some(m) => fail(clips, done, tracker, manifest_path, output_path, m),
                    None => {
                        let next = ExportSession {
                            phase: ExportPhase::Reporting,
                            clips,
                            done,
                            pending,
                            tracker,
                            manifest_path,
                            output_path,
                            failure,
                        };
                        (next, ExportAction::Emit(create_export_complete_progress()))
                    },
                }
            },
            ExportPhase::Reporting => {
                let mut tracker = tracker;
                let steps = tracker.cleanup_all();
                let next = ExportSession {
                    phase: ExportPhase::Cleaning,
                    clips,
                    done,
                    pending,
                    tracker,
                    manifest_path,
                    output_path,
                    failure,
                };
                (next, ExportAction::Cleanup(steps))
            },
            _ => {
                let response = match &failure {
                    Some(m) => ExportVideoResponse {
                        success: false,
                        output_path: None,
                        error_message: Some(m.clone()),
                    },
                    None => ExportVideoResponse {
                        success: true,
                        output_path: Some(output_path.clone()),
                        error_message: None,
                    },
                };
                let next = ExportSession {
                    phase: ExportPhase::Done,
                    clips,
                    done,
                    pending,
                    tracker,
                    manifest_path,
                    output_path,
                    failure,
                };
                (next, ExportAction::Finish(response))
            },
        }
    }

    /// Takes the step that follows on the outcome of the last action, at the
    /// moment of the call.
    pub fn step(self, outcome: ActionOutcome) -> (r: (ExportSession, ExportAction))
        ensures
            exists|timestamp: i64, nanos: i64|
                (r.0@, r.1@) == step_spec(self@, outcome@, timestamp as int, nanos as int),
    {
        let timestamp = utc_timestamp();
        let nanos: i64 = match utc_timestamp_nanos() {
            Some(n) => n % 1_000_000_000,
            None => 0,
        };
        self.step_at(outcome, timestamp, nanos)
    }
}

fn fail(
    clips: Vec<ExportClip>,
    done: Vec<ExportClip>,
    tracker: TempFileTracker,
    manifest_path: Option<String>,
    output_path: String,
    message: String,
) -> (r: (ExportSession, ExportAction))
    requires
        session_wf(
            SessionView {
                phase: ExportPhase::Reporting,
                clips: clip_views(clips@),
                done: clip_views(done@),
                pending: None,
                tracker: tracker@,
                manifest_path: opt_view(manifest_path),
                output_path: output_path@,
                failure: Some(message@),
            },
        ),
    ensures
        r.0@ == (SessionView {
            phase: ExportPhase::Reporting,
            clips: clip_views(clips@),
            done: clip_views(done@),
            pending: None,
            tracker: tracker@,
            manifest_path: opt_view(manifest_path),
            output_path: output_path@,
            failure: Some(message@),
        }),
        r.1@ == ActionView::Emit(plain_progress("Failed"@, 0, Some(message@))),
{
    let event = create_export_error_progress(message.clone());
    let next = ExportSession {
        phase: ExportPhase::Reporting,
        clips,
        done,
        pending: None,
        tracker,
        manifest_path,
        output_path,
        failure: Some(message),
    };
    (next, ExportAction::Emit(event))
}

fn proceed(
    clips: Vec<ExportClip>,
    done: Vec<ExportClip>,
    tracker: TempFileTracker,
    manifest_path: Option<String>,
    output_path: String,
    failure: Option<String>,
    timestamp: i64,
    nanos: i64,
) -> (r: (ExportSession, ExportAction))
    requires
        done@.len() <= clips@.len(),
        forall|i: int|
            0 <= i < clips@.len() ==> i64::MIN <= #[trigger] clip_views(clips@)[i].trim_end
                - clip_views(clips@)[i].trim_start <= i64::MAX,
    ensures
        (r.0@, r.1@) == proceed_spec(
            SessionView {
                phase: ExportPhase::Announcing,
                clips: clip_views(clips@),
                done: clip_views(done@),
                pending: None,
                tracker: tracker@,
                manifest_path: opt_view(manifest_path),
                output_path: output_path@,
                failure: opt_view(failure),
            },
            timestamp as int,
            nanos as int,
        ),
{
    let ghost all = clip_views(clips@);
    let ghost start = clip_views(done@);
    let mut done = done;
    let mut tracker = tracker;
    while done.len() < clips.len() && !needs_trimming(
        clips[done.len()].trim_start,
        clips[done.len()].trim_end,
        clips[done.len()].trim_end,
    )
        invariant
            done@.len() <= clips@.len(),
            all == clip_views(clips@),
            settle(all, start) == settle(all, clip_views(done@)),
        decreases clips.len() - done.len(),
    {
        let ghost ready = clip_views(done@);
        let clip = clips[done.len()].duplicate();
        assert(all[done.len() as int] == clip@);
        done.push(clip);
        assert(clip_views(done@) =~= ready.push(clip@));
    }
    let ghost ready = clip_views(done@);
    proof {
        if done.len() < clips.len() {
            assert(all[done.len() as int] == clips@[done.len() as int]@);
        }
        assert(settle(all, ready) == ready);
        lemma_settle(all, start);
    }
    if done.len() < clips.len() {
        let clip = &clips[done.len()];
        assert(all[done.len() as int] == clip@);
        let extension = get_file_extension(clip.file_path.as_str());
        let artifact = unique_temp_path_at("trimmed_clip", extension.as_str(), timestamp, nanos);
        tracker.add_file(artifact.clone());
        let length: i64 = clip.trim_end - clip.trim_start;
        let args = generate_trim_command_args(
            clip.file_path.as_str(),
            artifact.as_str(),
            clip.trim_start,
            length,
            supports_copy_codec(extension.as_str()),
        );
        let stand_in = trimmed_clip(clip, artifact.as_str());
        let next = ExportSession {
            phase: ExportPhase::Trimming,
            clips,
            done,
            pending: Some(stand_in),
            tracker,
            manifest_path,
            output_path,
            failure,
        };
        (next, ExportAction::RunTool(args))
    } else {
        let manifest = unique_temp_path_at("concat", "txt", timestamp, nanos);
        tracker.add_file(manifest.clone());
        let ordered = done.as_slice();
        assert(ordered@ == done@);
        let content = generate_concat_content(ordered);
        let next = ExportSession {
            phase: ExportPhase::WritingManifest,
            clips,
            done,
            pending: None,
            tracker,
            manifest_path: Some(manifest.clone()),
            output_path,
            failure,
        };
        (next, ExportAction::WriteFile { path: manifest, content })
    }
}

} // verus!
