//! The course of an export in which every action succeeds: what is done, in
//! which order, and what is left at the end.

use crate::ffmpeg::concat::{concat_content_spec, concat_source};
use crate::ffmpeg::export::{
    copy_supported, media_extension, ClipView, ExportSettings, ResponseView,
};
use crate::ffmpeg::pipeline::{
    encode_args, initial_session, lemma_step_keeps_wf, lemma_step_makes_progress, request_issue,
    session_wf, settle, step_spec, steps_left, ActionView, ExportPhase, OutcomeView, SessionView,
};
use crate::ffmpeg::progress::{plain_progress, FULL_PROGRESS};
use crate::ffmpeg::temp::{cleanup_plan, empty_tracker, unique_temp_path, TrackerView};
use crate::ffmpeg::trim::{clip_wants_trim, trim_command_args, trimmed_clip_spec};
use vstd::prelude::*;

verus! {

/// The scratch file that a clip is trimmed into in a step at the moment
/// given: it is named after the moment and has the extension of the clip's
/// source.
pub open spec fn scratch_for(clip: ClipView, timestamp: int, nanos: int) -> Seq<char> {
    unique_temp_path("trimmed_clip"@, media_extension(clip.file_path), timestamp, nanos)
}

/// The manifest's file in a step at the moment given.
pub open spec fn manifest_for(timestamp: int, nanos: int) -> Seq<char> {
    unique_temp_path("concat"@, "txt"@, timestamp, nanos)
}

/// The clip that is ready for the manifest in place of `clip`: the clip
/// itself where it needs no trimming, and otherwise the clip that stands for
/// its window cut out into its scratch file.
pub open spec fn ready_clip(clip: ClipView, timestamp: int, nanos: int) -> ClipView {
    if clip_wants_trim(clip) {
        trimmed_clip_spec(clip, scratch_for(clip, timestamp, nanos))
    } else {
        clip
    }
}

/// The clips that are ready for the manifest in place of `clips`, one for
/// each, in their order.
pub open spec fn ready_clips(clips: Seq<ClipView>, timestamp: int, nanos: int) -> Seq<ClipView> {
    Seq::new(clips.len(), |i: int| ready_clip(clips[i], timestamp, nanos))
}

/// The scratch files of the clips that need trimming, in the order of the
/// clips.
pub open spec fn scratch_files(clips: Seq<ClipView>, timestamp: int, nanos: int) -> Seq<Seq<char>>
    decreases clips.len(),
{
    if clips.len() == 0 {
        Seq::<Seq<char>>::empty()
    } else if clip_wants_trim(clips.last()) {
        scratch_files(clips.drop_last(), timestamp, nanos).push(
            scratch_for(clips.last(), timestamp, nanos),
        )
    } else {
        scratch_files(clips.drop_last(), timestamp, nanos)
    }
}

/// The tool's arguments for trimming a clip into its scratch file.
pub open spec fn trim_args_for(clip: ClipView, timestamp: int, nanos: int) -> Seq<Seq<char>> {
    trim_command_args(
        clip.file_path,
        scratch_for(clip, timestamp, nanos),
        clip.trim_start,
        clip.trim_end - clip.trim_start,
        copy_supported(media_extension(clip.file_path)),
    )
}

/// The session and the actions handed out after up to `fuel` steps from `s`,
/// each action reported done, each step taken at the moment given.
pub open spec fn run_done(s: SessionView, fuel: nat, timestamp: int, nanos: int) -> (
    SessionView,
    Seq<ActionView>,
)
    decreases fuel,
{
    if fuel == 0 || s.phase == ExportPhase::Done {
        (s, Seq::<ActionView>::empty())
    } else {
        let (next, action) = step_spec(s, OutcomeView::Done, timestamp, nanos);
        let (end, rest) = run_done(next, (fuel - 1) as nat, timestamp, nanos);
        (end, seq![action] + rest)
    }
}

/// Whether a session is on the course of an export in which nothing has
/// failed, with every step taken at the moment given: the clips that are
/// ready are the ready clips of the first clips, in their order; the scratch
/// files owned are those of the clips dealt with so far, and the manifest
/// once it has been named; and nothing has gone wrong.
pub open spec fn on_course(s: SessionView, timestamp: int, nanos: int) -> bool {
    let dealt = s.clips.take(s.done.len() as int);
    &&& session_wf(s)
    &&& s.failure is None
    &&& match s.phase {
        ExportPhase::Idle | ExportPhase::Announcing => {
            &&& s.done == ready_clips(dealt, timestamp, nanos)
            &&& s.tracker == TrackerView {
                files: scratch_files(dealt, timestamp, nanos),
                directories: Seq::empty(),
            }
        },
        ExportPhase::Trimming => {
            &&& s.done == ready_clips(dealt, timestamp, nanos)
            &&& clip_wants_trim(s.clips[s.done.len() as int])
            &&& s.pending == Some(ready_clip(s.clips[s.done.len() as int], timestamp, nanos))
            &&& s.tracker == TrackerView {
                files: scratch_files(s.clips.take(s.done.len() as int + 1), timestamp, nanos),
                directories: Seq::empty(),
            }
        },
        ExportPhase::WritingManifest | ExportPhase::Encoding | ExportPhase::Reporting => {
            &&& s.done == ready_clips(s.clips, timestamp, nanos)
            &&& s.manifest_path == Some(manifest_for(timestamp, nanos))
            &&& s.tracker == TrackerView {
                files: scratch_files(s.clips, timestamp, nanos).push(
                    manifest_for(timestamp, nanos),
                ),
                directories: Seq::empty(),
            }
        },
        _ => s.done == ready_clips(s.clips, timestamp, nanos),
    }
}

/// Settling on course: where the ready clips are the ready clips of the
/// first clips, they still are after settling, no scratch file is added, and
/// settling stops at the end or in front of a clip that needs trimming.
pub proof fn lemma_settle_on_course(
    clips: Seq<ClipView>,
    done: Seq<ClipView>,
    timestamp: int,
    nanos: int,
)
    requires
        done.len() <= clips.len(),
        done == ready_clips(clips.take(done.len() as int), timestamp, nanos),
    ensures
        ({
            let d = settle(clips, done);
            &&& done.len() <= d.len() <= clips.len()
            &&& d == ready_clips(clips.take(d.len() as int), timestamp, nanos)
            &&& scratch_files(clips.take(d.len() as int), timestamp, nanos) == scratch_files(
                clips.take(done.len() as int),
                timestamp,
                nanos,
            )
            &&& d.len() < clips.len() ==> clip_wants_trim(clips[d.len() as int])
        }),
    decreases clips.len() - done.len(),
{
    let k = done.len() as int;
    if k < clips.len() && !clip_wants_trim(clips[k]) {
        let more = done.push(clips[k]);
        let dealt = clips.take(k + 1);
        assert(dealt.drop_last() =~= clips.take(k));
        assert(dealt.last() == clips[k]);
        assert(more =~= ready_clips(dealt, timestamp, nanos)) by {
            assert forall|i: int| 0 <= i < more.len() implies more[i] == ready_clips(
                dealt,
                timestamp,
                nanos,
            )[i] by {
                if i < k {
                    assert(clips.take(k)[i] == dealt[i]);
                }
            }
        }
        lemma_settle_on_course(clips, more, timestamp, nanos);
    }
}

/// A step that is reported done keeps a session on course.
pub proof fn lemma_step_on_course(s: SessionView, timestamp: int, nanos: int)
    requires
        on_course(s, timestamp, nanos),
    ensures
        on_course(step_spec(s, OutcomeView::Done, timestamp, nanos).0, timestamp, nanos),
{
    lemma_step_keeps_wf(s, OutcomeView::Done, timestamp, nanos);
    let next = step_spec(s, OutcomeView::Done, timestamp, nanos).0;
    let k = s.done.len() as int;
    if s.phase == ExportPhase::Announcing || s.phase == ExportPhase::Trimming {
        let ready = if s.phase == ExportPhase::Trimming {
            s.done.push(s.pending->0)
        } else {
            s.done
        };
        if s.phase == ExportPhase::Trimming {
            let dealt = s.clips.take(k + 1);
            assert(dealt.drop_last() =~= s.clips.take(k));
            assert(dealt.last() == s.clips[k]);
            assert(ready =~= ready_clips(dealt, timestamp, nanos)) by {
                assert forall|i: int| 0 <= i < ready.len() implies ready[i] == ready_clips(
                    dealt,
                    timestamp,
                    nanos,
                )[i] by {
                    if i < k {
                        assert(s.clips.take(k)[i] == dealt[i]);
                    }
                }
            }
        }
        lemma_settle_on_course(s.clips, ready, timestamp, nanos);
        let d = settle(s.clips, ready);
        let m = d.len() as int;
        if m < s.clips.len() {
            let dealt = s.clips.take(m + 1);
            assert(dealt.drop_last() =~= s.clips.take(m));
            assert(dealt.last() == s.clips[m]);
        } else {
            assert(s.clips.take(m) =~= s.clips);
        }
    }
}

/// How many actions the tail of a course has from a phase on: the manifest,
/// the joining, the good news, the cleanup and the answer.
pub open spec fn tail_len(phase: ExportPhase) -> nat {
    match phase {
        ExportPhase::Done => 0,
        ExportPhase::Cleaning => 1,
        ExportPhase::Reporting => 2,
        ExportPhase::Encoding => 3,
        ExportPhase::WritingManifest => 4,
        _ => 5,
    }
}

/// The answer of an export that went well.
pub open spec fn success_response(output_path: Seq<char>) -> ResponseView {
    ResponseView { success: true, output_path: Some(output_path), error_message: None }
}

/// Whether `actions` end as a course that goes well ends from the phase of
/// `s` on: with the manifest of the ready clips written to its scratch file,
/// the tool joining the manifest's files into the output, the event that the
/// export is completed at a hundred percent, the cleanup of every scratch
/// file of the course, and, last, the answer that the export succeeded with
/// the output's path.
pub open spec fn ends_well(s: SessionView, actions: Seq<ActionView>, timestamp: int, nanos: int)
    -> bool {
    let n = actions.len() as int;
    let t = tail_len(s.phase);
    let manifest = manifest_for(timestamp, nanos);
    &&& n >= t
    &&& t < 5 ==> n == t
    &&& t >= 1 ==> actions[n - 1] == ActionView::Finish(success_response(s.output_path))
    &&& t >= 2 ==> actions[n - 2] == ActionView::Cleanup(
        cleanup_plan(
            TrackerView {
                files: scratch_files(s.clips, timestamp, nanos).push(manifest),
                directories: Seq::empty(),
            },
        ),
    )
    &&& t >= 3 ==> actions[n - 3] == ActionView::Emit(
        plain_progress("Completed"@, FULL_PROGRESS as int, None),
    )
    &&& t >= 4 ==> actions[n - 4] == ActionView::RunTool(encode_args(manifest, s.output_path))
    &&& t >= 5 ==> actions[n - 5] == ActionView::WriteFile {
        path: manifest,
        content: concat_content_spec(ready_clips(s.clips, timestamp, nanos)),
    }
}

/// Whether an action tells of a failure.
pub open spec fn tells_failure(action: ActionView) -> bool {
    action matches ActionView::Emit(p) && p.error is Some
}

/// Whether an action before the manifest is what a course that goes well has
/// there: the event that the export prepares, at nothing, or the tool
/// trimming one of the clips that need it into that clip's scratch file.
pub open spec fn prepares(action: ActionView, clips: Seq<ClipView>, timestamp: int, nanos: int)
    -> bool {
    ||| action == ActionView::Emit(plain_progress("Preparing"@, 0, None))
    ||| exists|i: int|
        0 <= i < clips.len() && clip_wants_trim(clips[i]) && action == ActionView::RunTool(
            #[trigger] trim_args_for(clips[i], timestamp, nanos),
        )
}

/// An export in which every action succeeds runs its course: from any
/// session on course it comes to its end within the steps counted for it;
/// the clips, one ready clip for each in their order, are those left
/// untouched that need no trimming and, for each other, the clip that stands
/// for its window; no action tells of a failure; everything before the
/// manifest prepares or trims a clip that needs it; the actions end with the
/// manifest, the joining, the event of completion, the cleanup of every
/// scratch file and the answer of success; and at the end no scratch file is
/// owned any more.
pub proof fn lemma_course(s: SessionView, fuel: nat, timestamp: int, nanos: int)
    requires
        on_course(s, timestamp, nanos),
        fuel >= steps_left(s),
    ensures
        ({
            let (end, actions) = run_done(s, fuel, timestamp, nanos);
            &&& end.phase == ExportPhase::Done
            &&& end.failure is None
            &&& end.clips == s.clips
            &&& end.output_path == s.output_path
            &&& end.done == ready_clips(s.clips, timestamp, nanos)
            &&& end.tracker == empty_tracker()
            &&& ends_well(s, actions, timestamp, nanos)
            &&& forall|k: int| 0 <= k < actions.len() ==> !tells_failure(#[trigger] actions[k])
            &&& forall|k: int|
                0 <= k < actions.len() - 5 ==> prepares(
                    #[trigger] actions[k],
                    s.clips,
                    timestamp,
                    nanos,
                )
            &&& s.phase == ExportPhase::Idle ==> actions[0] == ActionView::Emit(
                plain_progress("Preparing"@, 0, None),
            )
        }),
    decreases fuel,
{
    let (end, actions) = run_done(s, fuel, timestamp, nanos);
    if s.phase != ExportPhase::Done {
        let (next, action) = step_spec(s, OutcomeView::Done, timestamp, nanos);
        lemma_step_on_course(s, timestamp, nanos);
        lemma_step_makes_progress(s, OutcomeView::Done, timestamp, nanos);
        lemma_course(next, (fuel - 1) as nat, timestamp, nanos);
        let (end2, rest) = run_done(next, (fuel - 1) as nat, timestamp, nanos);
        assert(end == end2);
        assert(actions =~= seq![action] + rest);
        let n = actions.len() as int;
        assert(n == rest.len() + 1);
        assert forall|k: int| 1 <= k < n implies actions[k] == rest[k - 1] by {}
        assert(actions[0] == action);
        assert(!tells_failure(action));
        assert(ends_well(s, actions, timestamp, nanos)) by {
            let t = tail_len(s.phase);
            let tn = tail_len(next.phase);
            assert(rest.len() >= tn);
            if t >= 1 {
                assert(actions[n - 1] == if rest.len() == 0 {
                    action
                } else {
                    rest[rest.len() - 1]
                });
            }
        }
        assert forall|k: int| 0 <= k < actions.len() - 5 implies prepares(
            #[trigger] actions[k],
            s.clips,
            timestamp,
            nanos,
        ) by {
            if k == 0 {
                assert(tail_len(next.phase) <= 5);
                if s.phase == ExportPhase::Announcing || s.phase == ExportPhase::Trimming {
                    let i = next.done.len() as int;
                    assert(next.phase == ExportPhase::Trimming);
                    assert(action == ActionView::RunTool(
                        trim_args_for(s.clips[i], timestamp, nanos),
                    ));
                }
            } else {
                assert(actions[k] == rest[k - 1]);
            }
        }
    }
}

/// In the manifest a clip that was trimmed is named by its scratch file, not
/// by its source; a clip that was not is named as it was.
pub proof fn lemma_ready_clip_source(clip: ClipView, timestamp: int, nanos: int)
    ensures
        concat_source(ready_clip(clip, timestamp, nanos)) == if clip_wants_trim(clip) {
            scratch_for(clip, timestamp, nanos)
        } else {
            concat_source(clip)
        },
{
}

/// The course of an export from its start: for a request that is accepted,
/// with times that the machine can hold, and with every action succeeding,
/// the first action is the event that the export prepares, at nothing, and
/// the rest is as `lemma_course` says.
pub proof fn lemma_course_from_start(
    clips: Seq<ClipView>,
    settings: ExportSettings,
    output_path: Seq<char>,
    timestamp: int,
    nanos: int,
)
    requires
        request_issue(clips, settings, output_path, true) is None,
        session_wf(initial_session(clips, output_path)),
    ensures
        ({
            let start = initial_session(clips, output_path);
            let (end, actions) = run_done(start, steps_left(start), timestamp, nanos);
            &&& end.phase == ExportPhase::Done
            &&& end.tracker == empty_tracker()
            &&& end.done == ready_clips(clips, timestamp, nanos)
            &&& ends_well(start, actions, timestamp, nanos)
            &&& actions[0] == ActionView::Emit(plain_progress("Preparing"@, 0, None))
            &&& forall|k: int| 0 <= k < actions.len() ==> !tells_failure(#[trigger] actions[k])
        }),
{
    let start = initial_session(clips, output_path);
    assert(clips.take(0) =~= Seq::<ClipView>::empty());
    assert(start.done =~= ready_clips(clips.take(0), timestamp, nanos));
    assert(scratch_files(clips.take(0), timestamp, nanos) =~= Seq::<Seq<char>>::empty());
    assert(start.tracker == TrackerView {
        files: scratch_files(clips.take(0), timestamp, nanos),
        directories: Seq::empty(),
    });
    lemma_course(start, steps_left(start), timestamp, nanos);
}

} // verus!
