//! The order of clips on the timeline: sorting them, and checking that each
//! track runs forward in time without overlap.

use crate::commands::{CommandError, CommandResult};
use crate::decimal::{micros_text, push_micros};
use crate::ffmpeg::export::{clip_views, ClipView, ExportClip};
use crate::ffmpeg::trim::{
    clip_label, clip_label_text, clip_trim_issue, clip_wants_trim, first_trim_issue,
    trimmed_clip_spec, validate_trim_data, MIN_TRIM_LENGTH,
};
use crate::text::{decimal_digits, push_decimal, str_eq, views};
use vstd::prelude::*;
use vstd::string::*;
use vstd::utf8::{encode_utf8, encode_utf8_decode_utf8};

verus! {

/// Whether the bytes `a` come before the bytes `b` in dictionary order.
pub open spec fn bytes_precede(a: Seq<u8>, b: Seq<u8>) -> bool
    decreases a.len(),
{
    if b.len() == 0 {
        false
    } else if a.len() == 0 {
        true
    } else if a[0] != b[0] {
        a[0] < b[0]
    } else {
        bytes_precede(a.drop_first(), b.drop_first())
    }
}

/// Whether the text `a` comes before the text `b`: by the bytes of their
/// UTF-8 form, in dictionary order.
pub open spec fn text_precedes_spec(a: Seq<char>, b: Seq<char>) -> bool {
    bytes_precede(encode_utf8(a), encode_utf8(b))
}

/// Whether the text `a` comes before the text `b`.
pub fn text_precedes(a: &str, b: &str) -> (r: bool)
    ensures
        r == text_precedes_spec(a@, b@),
{
    let x = a.as_bytes();
    let y = b.as_bytes();
    let mut i: usize = 0;
    assert(x@.skip(0) =~= x@ && y@.skip(0) =~= y@);
    while i < x.len() && i < y.len() && x[i] == y[i]
        invariant
            i <= x.len(),
            i <= y.len(),
            bytes_precede(x@, y@) == bytes_precede(x@.skip(i as int), y@.skip(i as int)),
        decreases x.len() - i,
    {
        proof {
            let p = x@.skip(i as int);
            let q = y@.skip(i as int);
            assert(p[0] == q[0]);
            assert(p.drop_first() =~= x@.skip(i + 1));
            assert(q.drop_first() =~= y@.skip(i + 1));
        }
        i += 1;
    }
    proof {
        let p = x@.skip(i as int);
        let q = y@.skip(i as int);
        if i < x.len() && i < y.len() {
            assert(p[0] == x@[i as int] && q[0] == y@[i as int]);
        }
    }
    if i >= y.len() {
        false
    } else if i >= x.len() {
        true
    } else {
        x[i] < y[i]
    }
}

/// Whether clip `a` is sorted before clip `b`: by start time alone, or,
/// where `by_track` is set, by track first and by start time within a track.
pub open spec fn clip_precedes(a: ClipView, b: ClipView, by_track: bool) -> bool {
    if by_track {
        text_precedes_spec(a.track_id, b.track_id) || (a.track_id == b.track_id && a.start_time
            < b.start_time)
    } else {
        a.start_time < b.start_time
    }
}

fn precedes(a: &ExportClip, b: &ExportClip, by_track: bool) -> (r: bool)
    ensures
        r == clip_precedes(a@, b@, by_track),
{
    if by_track {
        text_precedes(a.track_id.as_str(), b.track_id.as_str()) || (str_eq(
            a.track_id.as_str(),
            b.track_id.as_str(),
        ) && a.start_time < b.start_time)
    } else {
        a.start_time < b.start_time
    }
}

/// `clip` put into the sorted list `sorted`: behind every clip that it is
/// not sorted before.
pub open spec fn insert_clip(sorted: Seq<ClipView>, clip: ClipView, by_track: bool) -> Seq<
    ClipView,
>
    decreases sorted.len(),
{
    if sorted.len() > 0 && clip_precedes(clip, sorted.last(), by_track) {
        insert_clip(sorted.drop_last(), clip, by_track).push(sorted.last())
    } else {
        sorted.push(clip)
    }
}

/// The clips in sorted order; clips that neither is sorted before the other
/// keep the order in which they came.
pub open spec fn sorted_clips(clips: Seq<ClipView>, by_track: bool) -> Seq<ClipView>
    decreases clips.len(),
{
    if clips.len() == 0 {
        Seq::<ClipView>::empty()
    } else {
        insert_clip(sorted_clips(clips.drop_last(), by_track), clips.last(), by_track)
    }
}

/// Where `insert_clip` puts the clip: at the one index before which nothing
/// has to come behind it and from which on everything does.
pub proof fn lemma_insert_position(sorted: Seq<ClipView>, clip: ClipView, p: int, by_track: bool)
    requires
        0 <= p <= sorted.len(),
        forall|j: int| p <= j < sorted.len() ==> clip_precedes(clip, #[trigger] sorted[j], by_track),
        p == 0 || !clip_precedes(clip, sorted[p - 1], by_track),
    ensures
        insert_clip(sorted, clip, by_track) == sorted.insert(p, clip),
    decreases sorted.len(),
{
    if p == sorted.len() {
        assert(sorted.insert(p, clip) =~= sorted.push(clip));
    } else {
        let rest = sorted.drop_last();
        assert(clip_precedes(clip, sorted[sorted.len() - 1], by_track));
        assert forall|j: int| p <= j < rest.len() implies clip_precedes(
            clip,
            #[trigger] rest[j],
            by_track,
        ) by {
            assert(rest[j] == sorted[j]);
        }
        lemma_insert_position(rest, clip, p, by_track);
        assert(rest.insert(p, clip).push(sorted.last()) =~= sorted.insert(p, clip));
    }
}

fn sort_clips(clips: &[ExportClip], by_track: bool) -> (r: Vec<ExportClip>)
    ensures
        clip_views(r@) == sorted_clips(clip_views(clips@), by_track),
{
    let ghost all = clip_views(clips@);
    let mut out: Vec<ExportClip> = Vec::new();
    assert(clip_views(out@) =~= sorted_clips(all.take(0), by_track));
    let mut i: usize = 0;
    while i < clips.len()
        invariant
            i <= clips.len(),
            all == clip_views(clips@),
            clip_views(out@) == sorted_clips(all.take(i as int), by_track),
        decreases clips.len() - i,
    {
        let clip = clips[i].duplicate();
        let mut p: usize = out.len();
        while p > 0 && precedes(&clip, &out[p - 1], by_track)
            invariant
                p <= out.len(),
                forall|j: int|
                    p <= j < out.len() ==> clip_precedes(
                        clip@,
                        #[trigger] clip_views(out@)[j],
                        by_track,
                    ),
            decreases p,
        {
            p -= 1;
        }
        proof {
            let before = clip_views(out@);
            lemma_insert_position(before, clip@, p as int, by_track);
            let t = all.take(i + 1);
            assert(t.drop_last() =~= all.take(i as int));
            assert(t.last() == clip@);
            assert(clip_views(out@.insert(p as int, clip)) =~= before.insert(p as int, clip@));
        }
        out.insert(p, clip);
        i += 1;
    }
    assert(all.take(clips.len() as int) =~= all);
    out
}

/// The clips sorted by start time.
pub fn sort_clips_by_timeline_position(clips: &[ExportClip]) -> (r: Vec<ExportClip>)
    ensures
        clip_views(r@) == sorted_clips(clip_views(clips@), false),
{
    sort_clips(clips, false)
}

/// The clips sorted by track, and by start time within each track.
pub fn sort_clips_by_track_and_timeline_position(clips: &[ExportClip]) -> (r: Vec<ExportClip>)
    ensures
        clip_views(r@) == sorted_clips(clip_views(clips@), true),
{
    sort_clips(clips, true)
}

/// `v` brought into the range of an `i64`.
pub open spec fn clamp_i64(v: int) -> int {
    if v < i64::MIN {
        i64::MIN as int
    } else if v > i64::MAX {
        i64::MAX as int
    } else {
        v
    }
}

fn clamp(v: i128) -> (r: i64)
    ensures
        r == clamp_i64(v as int),
{
    if v < i64::MIN as i128 {
        i64::MIN
    } else if v > i64::MAX as i128 {
        i64::MAX
    } else {
        v as i64
    }
}

/// Where the timeline ends: the end of the clip that starts last, nothing
/// for no clips.
pub open spec fn timeline_duration(clips: Seq<ClipView>) -> int {
    if clips.len() == 0 {
        0
    } else {
        clamp_i64(
            sorted_clips(clips, false).last().start_time + sorted_clips(
                clips,
                false,
            ).last().duration,
        )
    }
}

/// Sorting keeps the number of clips.
pub proof fn lemma_sorted_len(clips: Seq<ClipView>, by_track: bool)
    ensures
        sorted_clips(clips, by_track).len() == clips.len(),
    decreases clips.len(),
{
    if clips.len() > 0 {
        lemma_sorted_len(clips.drop_last(), by_track);
        lemma_insert_len(sorted_clips(clips.drop_last(), by_track), clips.last(), by_track);
    }
}

/// Inserting a clip makes the list one longer.
pub proof fn lemma_insert_len(sorted: Seq<ClipView>, clip: ClipView, by_track: bool)
    ensures
        insert_clip(sorted, clip, by_track).len() == sorted.len() + 1,
    decreases sorted.len(),
{
    if sorted.len() > 0 && clip_precedes(clip, sorted.last(), by_track) {
        lemma_insert_len(sorted.drop_last(), clip, by_track);
    }
}

/// Where the timeline ends, in millionths of a second.
pub fn get_timeline_duration(clips: &[ExportClip]) -> (r: i64)
    ensures
        r == timeline_duration(clip_views(clips@)),
{
    if clips.len() == 0 {
        return 0;
    }
    let sorted = sort_clips(clips, false);
    proof {
        lemma_sorted_len(clip_views(clips@), false);
        assert(clip_views(sorted@).len() == sorted@.len());
    }
    let last = &sorted[sorted.len() - 1];
    assert(clip_views(sorted@).last() == last@);
    clamp(last.start_time as i128 + last.duration as i128)
}

/// What is wrong with the order of the clips as they come: the first clip
/// that starts before the one in front of it.
pub open spec fn chronology_issue(clips: Seq<ClipView>, from: int) -> Option<Seq<char>>
    decreases clips.len() - from,
{
    if from < 0 || from >= clips.len() {
        None
    } else if from > 0 && clips[from].start_time < clips[from - 1].start_time {
        Some(
            "Clips are not in chronological order: clip "@ + decimal_digits((from + 1) as nat)
                + " starts at "@ + micros_text(clips[from].start_time)
                + "s but previous clip starts at "@ + micros_text(clips[from - 1].start_time)
                + "s"@,
        )
    } else {
        chronology_issue(clips, from + 1)
    }
}

/// Checks that no clip starts before the one in front of it.
pub fn validate_timeline_chronological_order(clips: &[ExportClip]) -> (r: CommandResult<()>)
    ensures
        r is Ok <==> chronology_issue(clip_views(clips@), 0) is None,
        r matches Err(e) ==> e.is("validation_error"@, chronology_issue(clip_views(clips@), 0)->0),
{
    let ghost all = clip_views(clips@);
    let mut i: usize = 0;
    while i < clips.len()
        invariant
            i <= clips.len(),
            all == clip_views(clips@),
            chronology_issue(all, 0) == chronology_issue(all, i as int),
        decreases clips.len() - i,
    {
        if i > 0 {
            let clip = &clips[i];
            let prev = &clips[i - 1];
            assert(all[i as int] == clip@ && all[i - 1] == prev@);
            if clip.start_time < prev.start_time {
                let mut m = String::from_str("Clips are not in chronological order: clip ");
                push_decimal(&mut m, i as u128 + 1);
                m.append(" starts at ");
                push_micros(&mut m, clip.start_time as i128);
                m.append("s but previous clip starts at ");
                push_micros(&mut m, prev.start_time as i128);
                m.append("s");
                return Err(CommandError::validation_error(m));
            }
        }
        i += 1;
    }
    Ok(())
}

/// The index of the nearest clip in front of index `below` that is on the
/// track of clip `k`, or -1 where there is none.
pub open spec fn previous_on_track(clips: Seq<ClipView>, k: int, below: int) -> int
    decreases below,
{
    if below <= 0 {
        -1
    } else if clips[below - 1].track_id == clips[k].track_id {
        below - 1
    } else {
        previous_on_track(clips, k, below - 1)
    }
}

/// How many clips in front of index `upto` are on the track of clip `k`.
pub open spec fn count_on_track(clips: Seq<ClipView>, k: int, upto: int) -> nat
    decreases upto,
{
    if upto <= 0 {
        0
    } else if clips[upto - 1].track_id == clips[k].track_id {
        count_on_track(clips, k, upto - 1) + 1
    } else {
        count_on_track(clips, k, upto - 1)
    }
}

fn find_previous_on_track(clips: &[ExportClip], k: usize) -> (r: Option<usize>)
    requires
        k < clips.len(),
    ensures
        r matches Some(j) ==> j == previous_on_track(clip_views(clips@), k as int, k as int) && j
            < k,
        r is None ==> previous_on_track(clip_views(clips@), k as int, k as int) == -1,
{
    let ghost all = clip_views(clips@);
    let mut j: usize = k;
    while j > 0
        invariant
            j <= k < clips.len(),
            all == clip_views(clips@),
            previous_on_track(all, k as int, k as int) == previous_on_track(all, k as int, j as int),
        decreases j,
    {
        assert(all[j - 1] == clips@[j - 1]@ && all[k as int] == clips@[k as int]@);
        if str_eq(clips[j - 1].track_id.as_str(), clips[k].track_id.as_str()) {
            return Some(j - 1);
        }
        j -= 1;
    }
    None
}

fn count_before_on_track(clips: &[ExportClip], k: usize) -> (r: usize)
    requires
        k < clips.len(),
    ensures
        r == count_on_track(clip_views(clips@), k as int, k as int),
{
    let ghost all = clip_views(clips@);
    let mut n: usize = 0;
    let mut j: usize = 0;
    while j < k
        invariant
            j <= k < clips.len(),
            all == clip_views(clips@),
            n == count_on_track(all, k as int, j as int),
            n <= j,
        decreases k - j,
    {
        assert(all[j as int] == clips@[j as int]@ && all[k as int] == clips@[k as int]@);
        if str_eq(clips[j].track_id.as_str(), clips[k].track_id.as_str()) {
            n += 1;
        }
        j += 1;
    }
    n
}

/// What is wrong with the order of clip `k` on its track: that it starts
/// before the clip in front of it on the same track.
pub open spec fn track_order_issue_at(clips: Seq<ClipView>, k: int) -> Option<Seq<char>> {
    let j = previous_on_track(clips, k, k);
    if j >= 0 && clips[k].start_time < clips[j].start_time {
        Some(
            "Clips on track '"@ + clips[k].track_id + "' are not in chronological order: clip "@
                + decimal_digits(count_on_track(clips, k, k) + 1) + " starts at "@ + micros_text(
                clips[k].start_time,
            ) + "s but previous clip starts at "@ + micros_text(clips[j].start_time) + "s"@,
        )
    } else {
        None
    }
}

/// The first issue of track order among the clips from index `from` on.
pub open spec fn track_order_issue(clips: Seq<ClipView>, from: int) -> Option<Seq<char>>
    decreases clips.len() - from,
{
    if from < 0 || from >= clips.len() {
        None
    } else if track_order_issue_at(clips, from) is Some {
        track_order_issue_at(clips, from)
    } else {
        track_order_issue(clips, from + 1)
    }
}

/// Checks that on every track the clips come in the order of their start
/// times.
pub fn validate_track_ordering(clips: &[ExportClip]) -> (r: CommandResult<()>)
    ensures
        r is Ok <==> track_order_issue(clip_views(clips@), 0) is None,
        r matches Err(e) ==> e.is("validation_error"@, track_order_issue(clip_views(clips@), 0)->0),
{
    let ghost all = clip_views(clips@);
    let mut k: usize = 0;
    while k < clips.len()
        invariant
            k <= clips.len(),
            all == clip_views(clips@),
            track_order_issue(all, 0) == track_order_issue(all, k as int),
        decreases clips.len() - k,
    {
        match find_previous_on_track(clips, k) {
            Some(j) => {
                let clip = &clips[k];
                let prev = &clips[j];
                assert(all[k as int] == clip@ && all[j as int] == prev@);
                if clip.start_time < prev.start_time {
                    let position = count_before_on_track(clips, k);
                    let mut m = String::from_str("Clips on track '");
                    m.append(clip.track_id.as_str());
                    m.append("' are not in chronological order: clip ");
                    push_decimal(&mut m, position as u128 + 1);
                    m.append(" starts at ");
                    push_micros(&mut m, clip.start_time as i128);
                    m.append("s but previous clip starts at ");
                    push_micros(&mut m, prev.start_time as i128);
                    m.append("s");
                    return Err(CommandError::validation_error(m));
                }
            },
            None => {},
        }
        k += 1;
    }
    Ok(())
}

/// What is wrong between clip `k` of a sorted list and the clip in front of
/// it: that they share a track and clip `k` starts before the other ends.
pub open spec fn overlap_issue_at(sorted: Seq<ClipView>, k: int) -> Option<Seq<char>> {
    if k > 0 && sorted[k].track_id == sorted[k - 1].track_id && sorted[k].start_time < sorted[k
        - 1].start_time + sorted[k - 1].duration {
        Some(
            "Overlapping clips detected on track '"@ + sorted[k].track_id + "': clip "@
                + decimal_digits(count_on_track(sorted, k, k) + 1) + " starts at "@ + micros_text(
                sorted[k].start_time,
            ) + "s but previous clip ends at "@ + micros_text(
                sorted[k - 1].start_time + sorted[k - 1].duration,
            ) + "s"@,
        )
    } else {
        None
    }
}

/// The first overlap in a sorted list from index `from` on.
pub open spec fn first_overlap_issue(sorted: Seq<ClipView>, from: int) -> Option<Seq<char>>
    decreases sorted.len() - from,
{
    if from < 0 || from >= sorted.len() {
        None
    } else if overlap_issue_at(sorted, from) is Some {
        overlap_issue_at(sorted, from)
    } else {
        first_overlap_issue(sorted, from + 1)
    }
}

/// The first overlap of two clips on one track: the clips sorted by track and
/// start time, the first clip that starts before its predecessor on the same
/// track has ended.
pub open spec fn overlap_issue(clips: Seq<ClipView>) -> Option<Seq<char>> {
    first_overlap_issue(sorted_clips(clips, true), 0)
}

/// Checks that no two clips of one track overlap in time.
pub fn check_for_overlapping_clips(clips: &[ExportClip]) -> (r: CommandResult<()>)
    ensures
        r is Ok <==> overlap_issue(clip_views(clips@)) is None,
        r matches Err(e) ==> e.is("validation_error"@, overlap_issue(clip_views(clips@))->0),
{
    let sorted = sort_clips(clips, true);
    let ghost all = clip_views(sorted@);
    let mut k: usize = 0;
    while k < sorted.len()
        invariant
            k <= sorted.len(),
            all == clip_views(sorted@),
            all == sorted_clips(clip_views(clips@), true),
            first_overlap_issue(all, 0) == first_overlap_issue(all, k as int),
        decreases sorted.len() - k,
    {
        if k > 0 {
            let clip = &sorted[k];
            let prev = &sorted[k - 1];
            assert(all[k as int] == clip@ && all[k - 1] == prev@);
            let prev_end: i128 = prev.start_time as i128 + prev.duration as i128;
            if str_eq(clip.track_id.as_str(), prev.track_id.as_str()) && (clip.start_time as i128)
                < prev_end {
                let ordered = sorted.as_slice();
                assert(ordered@ == sorted@);
                let position = count_before_on_track(ordered, k);
                let mut m = String::from_str("Overlapping clips detected on track '");
                m.append(clip.track_id.as_str());
                m.append("': clip ");
                push_decimal(&mut m, position as u128 + 1);
                m.append(" starts at ");
                push_micros(&mut m, clip.start_time as i128);
                m.append("s but previous clip ends at ");
                push_micros(&mut m, prev_end);
                m.append("s");
                return Err(CommandError::validation_error(m));
            }
        }
        k += 1;
    }
    Ok(())
}

/// What is wrong with where a clip lies on the timeline: the first of a
/// negative start time, a duration that is not positive, and an empty track.
pub open spec fn geometry_issue(clip: ClipView, index: nat) -> Option<Seq<char>> {
    if clip.start_time < 0 {
        Some(
            clip_label(index) + " has negative start time: "@ + micros_text(clip.start_time)
                + "s"@,
        )
    } else if clip.duration <= 0 {
        Some(clip_label(index) + " has invalid duration: "@ + micros_text(clip.duration) + "s"@)
    } else if clip.track_id.len() == 0 {
        Some(clip_label(index) + " has empty track ID"@)
    } else {
        None
    }
}

/// The first geometry issue among the clips from index `from` on.
pub open spec fn first_geometry_issue(clips: Seq<ClipView>, from: int) -> Option<Seq<char>>
    decreases clips.len() - from,
{
    if from < 0 || from >= clips.len() {
        None
    } else if geometry_issue(clips[from], from as nat) is Some {
        geometry_issue(clips[from], from as nat)
    } else {
        first_geometry_issue(clips, from + 1)
    }
}

/// What keeps a list of clips from being exported, if anything. The rules, in
/// the order in which they are held against the clips: there is a clip; every
/// clip lies on the timeline with a start that is not negative, a positive
/// duration and a track; every trim window is acceptable; the clips of each
/// track, put in the order of their start times, do not overlap. The order in
/// which the clips are listed plays no part.
pub open spec fn timeline_issue(clips: Seq<ClipView>) -> Option<Seq<char>> {
    if clips.len() == 0 {
        Some("No clips provided for export"@)
    } else if first_geometry_issue(clips, 0) is Some {
        first_geometry_issue(clips, 0)
    } else if first_trim_issue(clips, 0) is Some {
        first_trim_issue(clips, 0)
    } else {
        overlap_issue(clips)
    }
}

fn check_geometry(clip: &ExportClip, index: usize) -> (r: CommandResult<()>)
    ensures
        r is Ok <==> geometry_issue(clip@, index as nat) is None,
        r matches Err(e) ==> e.is("validation_error"@, geometry_issue(clip@, index as nat)->0),
{
    if clip.start_time < 0 {
        let mut m = clip_label_text(index);
        m.append(" has negative start time: ");
        push_micros(&mut m, clip.start_time as i128);
        m.append("s");
        return Err(CommandError::validation_error(m));
    }
    if clip.duration <= 0 {
        let mut m = clip_label_text(index);
        m.append(" has invalid duration: ");
        push_micros(&mut m, clip.duration as i128);
        m.append("s");
        return Err(CommandError::validation_error(m));
    }
    if clip.track_id.as_str().unicode_len() == 0 {
        let mut m = clip_label_text(index);
        m.append(" has empty track ID");
        return Err(CommandError::validation_error(m));
    }
    Ok(())
}

/// Checks a list of clips against every rule of the timeline.
pub fn validate_timeline_clips_for_export(clips: &[ExportClip]) -> (r: CommandResult<()>)
    ensures
        r is Ok <==> timeline_issue(clip_views(clips@)) is None,
        r matches Err(e) ==> e.is("validation_error"@, timeline_issue(clip_views(clips@))->0),
{
    if clips.len() == 0 {
        return Err(
            CommandError::validation_error(String::from_str("No clips provided for export")),
        );
    }
    let ghost all = clip_views(clips@);
    let mut i: usize = 0;
    while i < clips.len()
        invariant
            i <= clips.len(),
            all == clip_views(clips@),
            first_geometry_issue(all, 0) == first_geometry_issue(all, i as int),
        decreases clips.len() - i,
    {
        assert(all[i as int] == clips@[i as int]@);
        match check_geometry(&clips[i], i) {
            Ok(_) => {},
            Err(e) => {
                return Err(e);
            },
        }
        i += 1;
    }
    let mut i: usize = 0;
    while i < clips.len()
        invariant
            i <= clips.len(),
            all == clip_views(clips@),
            all.len() > 0,
            first_geometry_issue(all, 0) is None,
            first_trim_issue(all, 0) == first_trim_issue(all, i as int),
        decreases clips.len() - i,
    {
        let clip = &clips[i];
        assert(all[i as int] == clip@);
        match validate_trim_data(clip.trim_start, clip.trim_end, clip.trim_end, i) {
            Ok(_) => {},
            Err(e) => {
                return Err(e);
            },
        }
        i += 1;
    }
    check_for_overlapping_clips(clips)
}

/// The dictionary order of bytes is an order: of two lists of bytes at most
/// one comes before the other, and exactly one does unless they are the same.
pub proof fn lemma_bytes_order(a: Seq<u8>, b: Seq<u8>)
    ensures
        !(bytes_precede(a, b) && bytes_precede(b, a)),
        a == b || bytes_precede(a, b) || bytes_precede(b, a),
        a == b ==> !bytes_precede(a, b),
    decreases a.len(),
{
    if a.len() == 0 || b.len() == 0 {
        if a.len() == 0 && b.len() == 0 {
            assert(a =~= b);
        }
    } else if a[0] == b[0] {
        lemma_bytes_order(a.drop_first(), b.drop_first());
        if a.drop_first() == b.drop_first() {
            assert(a =~= seq![a[0]] + a.drop_first());
            assert(b =~= seq![b[0]] + b.drop_first());
        }
        if a == b {
            assert(a.drop_first() == b.drop_first());
        }
    }
}

/// What comes before something that comes before a third comes before the
/// third.
pub proof fn lemma_bytes_transitive(a: Seq<u8>, b: Seq<u8>, c: Seq<u8>)
    requires
        bytes_precede(a, b),
        bytes_precede(b, c),
    ensures
        bytes_precede(a, c),
    decreases a.len(),
{
    if a.len() > 0 && a[0] == b[0] && b[0] == c[0] {
        lemma_bytes_transitive(a.drop_first(), b.drop_first(), c.drop_first());
    }
}

/// Texts with the same UTF-8 form are the same text.
pub proof fn lemma_same_bytes_same_text(a: Seq<char>, b: Seq<char>)
    requires
        encode_utf8(a) == encode_utf8(b),
    ensures
        a == b,
{
    encode_utf8_decode_utf8(a);
    encode_utf8_decode_utf8(b);
}

/// Sorting by track and start time follows an order: of two clips at most one
/// is sorted before the other, and one is unless they share track and start
/// time.
pub proof fn lemma_clip_order(a: ClipView, b: ClipView)
    ensures
        !(clip_precedes(a, b, true) && clip_precedes(b, a, true)),
        clip_precedes(a, b, true) || clip_precedes(b, a, true) || (a.track_id == b.track_id
            && a.start_time == b.start_time),
{
    lemma_bytes_order(encode_utf8(a.track_id), encode_utf8(b.track_id));
    if encode_utf8(a.track_id) == encode_utf8(b.track_id) {
        lemma_same_bytes_same_text(a.track_id, b.track_id);
    }
}

/// A clip sorted before one that is sorted before a third is sorted before
/// the third.
pub proof fn lemma_clip_order_transitive(a: ClipView, b: ClipView, c: ClipView)
    requires
        clip_precedes(a, b, true),
        clip_precedes(b, c, true),
    ensures
        clip_precedes(a, c, true),
{
    let ka = encode_utf8(a.track_id);
    let kb = encode_utf8(b.track_id);
    let kc = encode_utf8(c.track_id);
    if bytes_precede(ka, kb) && bytes_precede(kb, kc) {
        lemma_bytes_transitive(ka, kb, kc);
    }
}

/// Whether no clip of the list is sorted before the clip in front of it.
pub open spec fn is_ordered(s: Seq<ClipView>, by_track: bool) -> bool {
    forall|i: int| 0 < i < s.len() ==> !clip_precedes(#[trigger] s[i], s[i - 1], by_track)
}

/// Of two clips at most one is sorted before the other, whatever the order.
pub proof fn lemma_precedes_one_way(a: ClipView, b: ClipView, by_track: bool)
    ensures
        !(clip_precedes(a, b, by_track) && clip_precedes(b, a, by_track)),
{
    if by_track {
        lemma_clip_order(a, b);
    }
}

/// Inserting a clip into an ordered list leaves it ordered, adds the clip and
/// nothing else, and ends the list with the clip or with what ended it before.
pub proof fn lemma_insert_clip(sorted: Seq<ClipView>, clip: ClipView, by_track: bool)
    ensures
        is_ordered(sorted, by_track) ==> is_ordered(insert_clip(sorted, clip, by_track), by_track),
        insert_clip(sorted, clip, by_track).to_multiset() == sorted.to_multiset().insert(clip),
        insert_clip(sorted, clip, by_track).len() == sorted.len() + 1,
        insert_clip(sorted, clip, by_track).last() == clip || (sorted.len() > 0 && insert_clip(
            sorted,
            clip,
            by_track,
        ).last() == sorted.last()),
    decreases sorted.len(),
{
    broadcast use vstd::seq_lib::to_multiset_build;

    let out = insert_clip(sorted, clip, by_track);
    if sorted.len() > 0 && clip_precedes(clip, sorted.last(), by_track) {
        let rest = sorted.drop_last();
        let inner = insert_clip(rest, clip, by_track);
        lemma_insert_clip(rest, clip, by_track);
        assert(sorted =~= rest.push(sorted.last()));
        assert(out.to_multiset() =~= sorted.to_multiset().insert(clip));
        if is_ordered(sorted, by_track) {
            assert(is_ordered(rest, by_track)) by {
                assert forall|i: int| 0 < i < rest.len() implies !clip_precedes(
                    #[trigger] rest[i],
                    rest[i - 1],
                    by_track,
                ) by {
                    assert(rest[i] == sorted[i] && rest[i - 1] == sorted[i - 1]);
                }
            }
            assert forall|i: int| 0 < i < out.len() implies !clip_precedes(
                #[trigger] out[i],
                out[i - 1],
                by_track,
            ) by {
                if i < inner.len() {
                    assert(out[i] == inner[i] && out[i - 1] == inner[i - 1]);
                } else {
                    assert(out[i] == sorted.last());
                    assert(out[i - 1] == inner.last());
                    if inner.last() == clip {
                        lemma_precedes_one_way(clip, sorted.last(), by_track);
                    } else {
                        assert(inner.last() == rest.last());
                        assert(rest.last() == sorted[sorted.len() - 2]);
                        assert(sorted.last() == sorted[sorted.len() - 1]);
                    }
                }
            }
        }
    } else {
        if is_ordered(sorted, by_track) {
            assert forall|i: int| 0 < i < out.len() implies !clip_precedes(
                #[trigger] out[i],
                out[i - 1],
                by_track,
            ) by {
                if i < sorted.len() {
                    assert(out[i] == sorted[i] && out[i - 1] == sorted[i - 1]);
                }
            }
        }
    }
}

/// Sorting gives the same clips, each as often as it came, in an order in
/// which no clip is sorted before the clip in front of it.
pub proof fn lemma_sorted_clips(clips: Seq<ClipView>, by_track: bool)
    ensures
        is_ordered(sorted_clips(clips, by_track), by_track),
        sorted_clips(clips, by_track).to_multiset() == clips.to_multiset(),
        sorted_clips(clips, by_track).len() == clips.len(),
    decreases clips.len(),
{
    broadcast use vstd::seq_lib::to_multiset_build;

    if clips.len() > 0 {
        lemma_sorted_clips(clips.drop_last(), by_track);
        lemma_insert_clip(sorted_clips(clips.drop_last(), by_track), clips.last(), by_track);
        assert(clips =~= clips.drop_last().push(clips.last()));
    } else {
        assert(sorted_clips(clips, by_track) =~= clips);
    }
}

/// Every clip of the sorted list is one of the clips.
pub proof fn lemma_sorted_member(clips: Seq<ClipView>, by_track: bool, i: int)
    requires
        0 <= i < sorted_clips(clips, by_track).len(),
    ensures
        clips.contains(sorted_clips(clips, by_track)[i]),
{
    broadcast use vstd::seq_lib::group_to_multiset_ensures;

    lemma_sorted_clips(clips, by_track);
    let sorted = sorted_clips(clips, by_track);
    assert(sorted.contains(sorted[i]));
    assert(sorted.to_multiset().count(sorted[i]) > 0);
}

/// Where a sorted list has no overlap from `from` on, it has none at any
/// index from there on.
pub proof fn lemma_no_overlap_at(sorted: Seq<ClipView>, from: int, k: int)
    requires
        0 <= from <= k < sorted.len(),
        first_overlap_issue(sorted, from) is None,
    ensures
        overlap_issue_at(sorted, k) is None,
    decreases k - from,
{
    if from < k {
        lemma_no_overlap_at(sorted, from + 1, k);
    }
}

/// Where the clips have no geometry issue from `from` on, none has one.
pub proof fn lemma_no_geometry_issue_at(clips: Seq<ClipView>, from: int, i: int)
    requires
        0 <= from <= i < clips.len(),
        first_geometry_issue(clips, from) is None,
    ensures
        clips[i].start_time >= 0,
        clips[i].duration > 0,
        clips[i].track_id.len() > 0,
    decreases i - from,
{
    if from < i {
        lemma_no_geometry_issue_at(clips, from + 1, i);
    }
}

/// In a timeline that breaks no rule the order is strict: sorted by track and
/// start time, every clip is sorted before every clip behind it.
pub proof fn lemma_valid_timeline_strictly_sorted(clips: Seq<ClipView>, i: int, j: int)
    requires
        timeline_issue(clips) is None,
        0 <= i < j < clips.len(),
    ensures
        sorted_clips(clips, true).len() == clips.len(),
        clip_precedes(sorted_clips(clips, true)[i], sorted_clips(clips, true)[j], true),
    decreases j - i,
{
    let sorted = sorted_clips(clips, true);
    lemma_sorted_clips(clips, true);
    if i + 1 < j {
        lemma_valid_timeline_strictly_sorted(clips, i, j - 1);
        lemma_valid_timeline_strictly_sorted(clips, j - 1, j);
        lemma_clip_order_transitive(sorted[i], sorted[j - 1], sorted[j]);
    } else {
        let a = sorted[i];
        let b = sorted[j];
        assert(!clip_precedes(b, a, true));
        lemma_clip_order(a, b);
        if a.track_id == b.track_id && a.start_time == b.start_time {
            lemma_no_overlap_at(sorted, 0, j);
            lemma_sorted_member(clips, true, i);
            let k = choose|k: int| 0 <= k < clips.len() && clips[k] == a;
            lemma_no_geometry_issue_at(clips, 0, k);
            assert(false);
        }
    }
}

/// A clip whose trim window ends at or before its start is rejected, whatever
/// else holds of it and of the clips around it.
pub proof fn lemma_inverted_trim_rejected(clips: Seq<ClipView>, i: int)
    requires
        0 <= i < clips.len(),
        clips[i].trim_end <= clips[i].trim_start,
    ensures
        timeline_issue(clips) is Some,
        first_trim_issue(clips, 0) is Some,
{
    lemma_trim_issue_found(clips, 0, i);
}

/// A trim issue of some clip shows in the first trim issue of the list.
pub proof fn lemma_trim_issue_found(clips: Seq<ClipView>, from: int, i: int)
    requires
        0 <= from <= i < clips.len(),
        clip_trim_issue(clips[i], i as nat) is Some,
    ensures
        first_trim_issue(clips, from) is Some,
    decreases i - from,
{
    if from < i {
        lemma_trim_issue_found(clips, from + 1, i);
    }
}

/// Whether the windows of two clips on the timeline have a moment in common.
pub open spec fn windows_overlap(a: ClipView, b: ClipView) -> bool {
    a.start_time < b.start_time + b.duration && b.start_time < a.start_time + a.duration
}

/// Two clips that share a track and overlap in time are rejected.
pub proof fn lemma_overlap_on_track_rejected(a: ClipView, b: ClipView)
    requires
        a.track_id == b.track_id,
        windows_overlap(a, b),
    ensures
        timeline_issue(seq![a, b]) is Some,
{
    let clips = seq![a, b];
    if first_geometry_issue(clips, 0) is None && first_trim_issue(clips, 0) is None {
        lemma_bytes_order(encode_utf8(a.track_id), encode_utf8(b.track_id));
        lemma_sort_pair(a, b);
        let sorted = sorted_clips(clips, true);
        reveal_with_fuel(first_overlap_issue, 3);
        assert(overlap_issue_at(sorted, 1) is Some);
    }
}

/// Two clips sorted: the second in front where it is sorted before the first,
/// as they came otherwise.
pub proof fn lemma_sort_pair(a: ClipView, b: ClipView)
    ensures
        sorted_clips(seq![a, b], true) == if clip_precedes(b, a, true) {
            seq![b, a]
        } else {
            seq![a, b]
        },
{
    let clips = seq![a, b];
    let one = clips.drop_last();
    assert(one =~= seq![a]);
    assert(one.drop_last() =~= Seq::<ClipView>::empty());
    reveal_with_fuel(sorted_clips, 3);
    reveal_with_fuel(insert_clip, 3);
    assert(sorted_clips(one.drop_last(), true) =~= Seq::<ClipView>::empty());
    assert(sorted_clips(one, true) =~= seq![a]);
    assert(clips.last() == b);
    if clip_precedes(b, a, true) {
        assert(seq![a].drop_last() =~= Seq::<ClipView>::empty());
        assert(insert_clip(seq![a], b, true) =~= seq![b, a]);
    } else {
        assert(insert_clip(seq![a], b, true) =~= seq![a, b]);
    }
}

/// The same two clips on different tracks are accepted, overlap or not, where
/// each of them is accepted alone.
pub proof fn lemma_overlap_across_tracks_accepted(a: ClipView, b: ClipView)
    requires
        a.track_id != b.track_id,
        timeline_issue(seq![a]) is None,
        timeline_issue(seq![b]) is None,
    ensures
        timeline_issue(seq![a, b]) is None,
{
    let clips = seq![a, b];
    reveal_with_fuel(first_geometry_issue, 3);
    reveal_with_fuel(first_trim_issue, 3);
    reveal_with_fuel(first_overlap_issue, 3);
    assert(seq![a][0] == a && seq![b][0] == b);
    assert(geometry_issue(a, 0) is None);
    assert(geometry_issue(b, 0) is None);
    assert(geometry_issue(b, 1) is None);
    assert(clip_trim_issue(a, 0) is None);
    assert(clip_trim_issue(b, 0) is None);
    assert(clip_trim_issue(b, 1) is None);
    assert(first_geometry_issue(clips, 0) is None);
    assert(first_trim_issue(clips, 0) is None);
    lemma_sort_pair(a, b);
    let sorted = sorted_clips(clips, true);
    assert(overlap_issue_at(sorted, 0) is None);
    assert(overlap_issue_at(sorted, 1) is None);
}

/// Whether some clip is on the track.
pub open spec fn is_track_of(clips: Seq<ClipView>, track: Seq<char>) -> bool {
    exists|i: int| 0 <= i < clips.len() && clips[i].track_id == track
}

/// Whether one of the texts is `text`.
pub open spec fn has_text(texts: Seq<Seq<char>>, text: Seq<char>) -> bool {
    exists|i: int| 0 <= i < texts.len() && texts[i] == text
}

/// Whether each text comes before the one behind it.
pub open spec fn is_rising(texts: Seq<Seq<char>>) -> bool {
    forall|i: int| 0 < i < texts.len() ==> text_precedes_spec(texts[i - 1], #[trigger] texts[i])
}

/// Of two texts that differ one comes before the other.
pub proof fn lemma_text_order_total(a: Seq<char>, b: Seq<char>)
    ensures
        a == b || text_precedes_spec(a, b) || text_precedes_spec(b, a),
        !(text_precedes_spec(a, b) && text_precedes_spec(b, a)),
        !text_precedes_spec(a, a),
{
    lemma_bytes_order(encode_utf8(a), encode_utf8(b));
    lemma_bytes_order(encode_utf8(a), encode_utf8(a));
    if encode_utf8(a) == encode_utf8(b) {
        lemma_same_bytes_same_text(a, b);
    }
}

/// The tracks of the clips, each once, in rising order.
pub fn get_unique_track_ids(clips: &[ExportClip]) -> (r: Vec<String>)
    ensures
        is_rising(views(r@)),
        forall|track: Seq<char>|
            has_text(views(r@), track) <==> is_track_of(clip_views(clips@), track),
{
    let ghost all = clip_views(clips@);
    let mut out: Vec<String> = Vec::new();
    let mut i: usize = 0;
    while i < clips.len()
        invariant
            i <= clips.len(),
            all == clip_views(clips@),
            is_rising(views(out@)),
            forall|track: Seq<char>|
                has_text(views(out@), track) <==> is_track_of(all.take(i as int), track),
        decreases clips.len() - i,
    {
        let track = clips[i].track_id.as_str();
        let ghost before = views(out@);
        let ghost seen = all.take(i as int);
        let ghost next = all.take(i + 1);
        assert(all[i as int] == clips@[i as int]@);
        let mut p: usize = out.len();
        while p > 0 && text_precedes(track, out[p - 1].as_str())
            invariant
                p <= out.len(),
                before == views(out@),
                forall|j: int| p <= j < out.len() ==> text_precedes_spec(track@, #[trigger] before[j]),
            decreases p,
        {
            assert(before[p - 1] == out@[p - 1]@);
            p -= 1;
        }
        let known = p > 0 && str_eq(out[p - 1].as_str(), track);
        proof {
            if p > 0 {
                assert(before[p - 1] == out@[p - 1]@);
            }
            assert forall|t: Seq<char>| is_track_of(next, t) <==> (is_track_of(seen, t) || t
                == track@) by {
                if is_track_of(next, t) {
                    let k = choose|k: int| 0 <= k < next.len() && next[k].track_id == t;
                    if k < i {
                        assert(seen[k] == next[k]);
                    }
                }
                if is_track_of(seen, t) {
                    let k = choose|k: int| 0 <= k < seen.len() && seen[k].track_id == t;
                    assert(next[k] == seen[k]);
                }
                if t == track@ {
                    assert(next[i as int].track_id == t);
                }
            }
        }
        if !known {
            out.insert(p, clips[i].track_id.clone());
            proof {
                let after = views(out@);
                assert(after =~= before.insert(p as int, track@));
                assert forall|k: int| 0 < k < after.len() implies text_precedes_spec(
                    after[k - 1],
                    #[trigger] after[k],
                ) by {
                    if k < p {
                        assert(after[k] == before[k] && after[k - 1] == before[k - 1]);
                    } else if k == p {
                        assert(after[k - 1] == before[p - 1]);
                        lemma_text_order_total(track@, before[p - 1]);
                    } else if k == p + 1 {
                        assert(after[k] == before[p as int]);
                    } else {
                        assert(after[k] == before[k - 1] && after[k - 1] == before[k - 2]);
                    }
                }
                assert forall|t: Seq<char>| has_text(after, t) <==> (has_text(before, t) || t
                    == track@) by {
                    if has_text(after, t) {
                        let k = choose|k: int| 0 <= k < after.len() && after[k] == t;
                        if k < p {
                            assert(before[k] == t);
                        } else if k > p {
                            assert(before[k - 1] == t);
                        }
                    }
                    if has_text(before, t) {
                        let k = choose|k: int| 0 <= k < before.len() && before[k] == t;
                        if k < p {
                            assert(after[k] == t);
                        } else {
                            assert(after[k + 1] == t);
                        }
                    }
                    if t == track@ {
                        assert(after[p as int] == t);
                    }
                }
            }
        } else {
            proof {
                assert(has_text(before, track@));
            }
        }
        i += 1;
    }
    assert(all.take(clips.len() as int) =~= all);
    out
}

/// Whether every clip of the list is sorted before every clip behind it.
pub open spec fn is_strictly_sorted(s: Seq<ClipView>) -> bool {
    forall|i: int, j: int| 0 <= i < j < s.len() ==> clip_precedes(s[i], s[j], true)
}

/// There is but one way to put clips in strict order: two lists of the same
/// clips, each with every clip sorted before every clip behind it, are the
/// same list.
pub proof fn lemma_strict_order_unique(a: Seq<ClipView>, b: Seq<ClipView>)
    requires
        a.to_multiset() == b.to_multiset(),
        is_strictly_sorted(a),
        is_strictly_sorted(b),
    ensures
        a == b,
    decreases a.len(),
{
    broadcast use vstd::seq_lib::group_to_multiset_ensures;

    a.to_multiset_ensures();
    b.to_multiset_ensures();
    assert(a.len() == b.len());
    if a.len() == 0 {
        assert(a =~= b);
    } else {
        assert(a.contains(a[0]));
        assert(b.to_multiset().count(a[0]) > 0);
        assert(b.contains(a[0]));
        assert(b.contains(b[0]));
        assert(a.to_multiset().count(b[0]) > 0);
        assert(a.contains(b[0]));
        let i = choose|i: int| 0 <= i < b.len() && b[i] == a[0];
        let j = choose|j: int| 0 <= j < a.len() && a[j] == b[0];
        if i > 0 && j > 0 {
            assert(clip_precedes(b[0], b[i], true));
            assert(clip_precedes(a[0], a[j], true));
            lemma_clip_order(a[0], b[0]);
        }
        if i > 0 && j == 0 {
            assert(clip_precedes(b[0], b[i], true));
            lemma_clip_order(a[0], a[0]);
        }
        if j > 0 && i == 0 {
            assert(clip_precedes(a[0], a[j], true));
            lemma_clip_order(b[0], b[0]);
        }
        assert(a[0] == b[0]);
        let ta = a.drop_first();
        let tb = b.drop_first();
        assert(ta =~= a.remove(0));
        assert(tb =~= b.remove(0));
        assert(ta.to_multiset() == tb.to_multiset());
        assert(is_strictly_sorted(ta)) by {
            assert forall|p: int, q: int| 0 <= p < q < ta.len() implies clip_precedes(
                ta[p],
                ta[q],
                true,
            ) by {
                assert(ta[p] == a[p + 1] && ta[q] == a[q + 1]);
            }
        }
        assert(is_strictly_sorted(tb)) by {
            assert forall|p: int, q: int| 0 <= p < q < tb.len() implies clip_precedes(
                tb[p],
                tb[q],
                true,
            ) by {
                assert(tb[p] == b[p + 1] && tb[q] == b[q + 1]);
            }
        }
        lemma_strict_order_unique(ta, tb);
        assert(a =~= seq![a[0]] + ta);
        assert(b =~= seq![b[0]] + tb);
    }
}

/// Sorting a timeline that breaks no rule gives the one strict order of its
/// clips: any list of the same clips in which every clip is sorted before
/// every clip behind it is the sorted list.
pub proof fn lemma_valid_timeline_order(clips: Seq<ClipView>, order: Seq<ClipView>)
    requires
        timeline_issue(clips) is None,
        order.to_multiset() == clips.to_multiset(),
        is_strictly_sorted(order),
    ensures
        sorted_clips(clips, true) == order,
{
    let sorted = sorted_clips(clips, true);
    lemma_sorted_clips(clips, true);
    assert forall|i: int, j: int| 0 <= i < j < sorted.len() implies clip_precedes(
        sorted[i],
        sorted[j],
        true,
    ) by {
        lemma_valid_timeline_strictly_sorted(clips, i, j);
    }
    lemma_strict_order_unique(sorted, order);
}

/// What holds of every clip of a timeline that breaks no rule: it starts at
/// or after the start of the timeline, lasts, is on a track, and has a trim
/// window that starts at or after the start of its source and is at least a
/// tenth of a second long.
pub open spec fn is_valid_clip(clip: ClipView) -> bool {
    &&& clip.start_time >= 0
    &&& clip.duration > 0
    &&& clip.track_id.len() > 0
    &&& clip.trim_start >= 0
    &&& clip.trim_end > clip.trim_start
    &&& clip.trim_end - clip.trim_start >= MIN_TRIM_LENGTH
}

/// Where the clips have no trim issue from `from` on, none has one.
pub proof fn lemma_no_trim_issue_at(clips: Seq<ClipView>, from: int, i: int)
    requires
        0 <= from <= i < clips.len(),
        first_trim_issue(clips, from) is None,
    ensures
        clip_trim_issue(clips[i], i as nat) is None,
    decreases i - from,
{
    if from < i {
        lemma_no_trim_issue_at(clips, from + 1, i);
    }
}

/// Every clip of a timeline that breaks no rule is a valid clip.
pub proof fn lemma_valid_timeline_has_valid_clips(clips: Seq<ClipView>, i: int)
    requires
        timeline_issue(clips) is None,
        0 <= i < clips.len(),
    ensures
        is_valid_clip(clips[i]),
{
    lemma_no_geometry_issue_at(clips, 0, i);
    lemma_no_trim_issue_at(clips, 0, i);
}

/// The clip that stands for a valid clip once its window has been cut out is
/// a valid clip, as long as the window, and needs no trimming any more.
pub proof fn lemma_trimmed_clip_is_valid(clip: ClipView, artifact: Seq<char>)
    requires
        is_valid_clip(clip),
    ensures
        is_valid_clip(trimmed_clip_spec(clip, artifact)),
        trimmed_clip_spec(clip, artifact).duration == clip.trim_end - clip.trim_start,
        !clip_wants_trim(trimmed_clip_spec(clip, artifact)),
{
}

/// Whether every clip of the list lasts.
pub open spec fn all_last(clips: Seq<ClipView>) -> bool {
    forall|i: int| 0 <= i < clips.len() ==> (#[trigger] clips[i]).duration > 0
}

/// Whether no two clips of the list that share a track have a moment in
/// common.
pub open spec fn tracks_free_of_overlap(clips: Seq<ClipView>) -> bool {
    forall|i: int, j: int|
        0 <= i < clips.len() && 0 <= j < clips.len() && i != j && (#[trigger] clips[i]).track_id
            == (#[trigger] clips[j]).track_id ==> !windows_overlap(clips[i], clips[j])
}

/// Every clip is one of the sorted clips.
pub proof fn lemma_clip_in_sorted(clips: Seq<ClipView>, by_track: bool, i: int)
    requires
        0 <= i < clips.len(),
    ensures
        sorted_clips(clips, by_track).contains(clips[i]),
{
    broadcast use vstd::seq_lib::group_to_multiset_ensures;

    lemma_sorted_clips(clips, by_track);
    let sorted = sorted_clips(clips, by_track);
    assert(clips.contains(clips[i]));
    assert(clips.to_multiset().count(clips[i]) > 0);
    assert(sorted.to_multiset().count(clips[i]) > 0);
}

/// A sorted list without an overlap at any index from `from` on has no first
/// overlap from there on.
pub proof fn lemma_no_overlap_anywhere(sorted: Seq<ClipView>, from: int)
    requires
        0 <= from,
        forall|k: int| from <= k < sorted.len() ==> overlap_issue_at(sorted, k) is None,
    ensures
        first_overlap_issue(sorted, from) is None,
    decreases sorted.len() - from,
{
    if from < sorted.len() {
        lemma_no_overlap_anywhere(sorted, from + 1);
    }
}

/// In an ordered list of clips that last and do not overlap, every clip is
/// sorted before every clip behind it.
pub proof fn lemma_strictly_sorted_without_overlap(sorted: Seq<ClipView>, i: int, j: int)
    requires
        is_ordered(sorted, true),
        first_overlap_issue(sorted, 0) is None,
        all_last(sorted),
        0 <= i < j < sorted.len(),
    ensures
        clip_precedes(sorted[i], sorted[j], true),
    decreases j - i,
{
    if i + 1 < j {
        lemma_strictly_sorted_without_overlap(sorted, i, j - 1);
        lemma_strictly_sorted_without_overlap(sorted, j - 1, j);
        lemma_clip_order_transitive(sorted[i], sorted[j - 1], sorted[j]);
    } else {
        let a = sorted[i];
        let b = sorted[j];
        assert(!clip_precedes(b, a, true));
        lemma_clip_order(a, b);
        if a.track_id == b.track_id && a.start_time == b.start_time {
            lemma_no_overlap_at(sorted, 0, j);
            assert(a.duration > 0);
            assert(false);
        }
    }
}

/// In a strictly sorted list of clips that last and do not overlap, a clip
/// has ended when a later clip of its track starts.
pub proof fn lemma_track_runs_forward(sorted: Seq<ClipView>, p: int, q: int)
    requires
        is_strictly_sorted(sorted),
        first_overlap_issue(sorted, 0) is None,
        all_last(sorted),
        0 <= p < q < sorted.len(),
        sorted[p].track_id == sorted[q].track_id,
    ensures
        sorted[p].start_time + sorted[p].duration <= sorted[q].start_time,
    decreases q - p,
{
    lemma_no_overlap_at(sorted, 0, q);
    if p + 1 < q {
        let m = q - 1;
        assert(clip_precedes(sorted[p], sorted[m], true));
        assert(clip_precedes(sorted[m], sorted[q], true));
        lemma_text_order_total(sorted[p].track_id, sorted[m].track_id);
        assert(sorted[m].track_id == sorted[p].track_id);
        lemma_track_runs_forward(sorted, p, m);
        assert(sorted[m].duration > 0);
    }
}

/// The overlap check says what it is to say: of clips that last, it passes
/// if and only if no two clips that share a track have a moment in common,
/// whatever the order in which the clips are listed. Windows that only touch
/// pass, and clips on different tracks are never held against each other.
pub proof fn lemma_overlap_rule(clips: Seq<ClipView>)
    requires
        all_last(clips),
    ensures
        overlap_issue(clips) is None <==> tracks_free_of_overlap(clips),
{
    broadcast use vstd::seq_lib::group_to_multiset_ensures;

    let sorted = sorted_clips(clips, true);
    lemma_sorted_clips(clips, true);
    assert(all_last(sorted)) by {
        assert forall|k: int| 0 <= k < sorted.len() implies (#[trigger] sorted[k]).duration
            > 0 by {
            lemma_sorted_member(clips, true, k);
            let i = choose|i: int| 0 <= i < clips.len() && clips[i] == sorted[k];
            assert(clips[i].duration > 0);
        }
    }
    if overlap_issue(clips) is None {
        assert(is_strictly_sorted(sorted)) by {
            assert forall|p: int, q: int| 0 <= p < q < sorted.len() implies clip_precedes(
                sorted[p],
                sorted[q],
                true,
            ) by {
                lemma_strictly_sorted_without_overlap(sorted, p, q);
            }
        }
        assert(sorted.no_duplicates()) by {
            assert forall|p: int, q: int|
                0 <= p < sorted.len() && 0 <= q < sorted.len() && p != q implies sorted[p]
                != sorted[q] by {
                lemma_clip_order(sorted[p], sorted[q]);
                if p < q {
                    assert(clip_precedes(sorted[p], sorted[q], true));
                } else {
                    assert(clip_precedes(sorted[q], sorted[p], true));
                }
            }
        }
        sorted.lemma_multiset_has_no_duplicates();
        clips.lemma_multiset_has_no_duplicates_conv();
        assert forall|i: int, j: int|
            0 <= i < clips.len() && 0 <= j < clips.len() && i != j && (#[trigger] clips[i]).track_id
                == (#[trigger] clips[j]).track_id implies !windows_overlap(clips[i], clips[j]) by {
            lemma_clip_in_sorted(clips, true, i);
            lemma_clip_in_sorted(clips, true, j);
            let p = choose|p: int| 0 <= p < sorted.len() && sorted[p] == clips[i];
            let q = choose|q: int| 0 <= q < sorted.len() && sorted[q] == clips[j];
            assert(clips[i] != clips[j]);
            if p < q {
                lemma_track_runs_forward(sorted, p, q);
            } else {
                lemma_track_runs_forward(sorted, q, p);
            }
        }
    }
    if tracks_free_of_overlap(clips) {
        assert(clips.no_duplicates()) by {
            assert forall|i: int, j: int|
                0 <= i < clips.len() && 0 <= j < clips.len() && i != j implies clips[i]
                != clips[j] by {
                if clips[i] == clips[j] {
                    assert(clips[i].duration > 0);
                    assert(windows_overlap(clips[i], clips[j]));
                }
            }
        }
        clips.lemma_multiset_has_no_duplicates();
        sorted.lemma_multiset_has_no_duplicates_conv();
        assert forall|k: int| 0 <= k < sorted.len() implies overlap_issue_at(
            sorted,
            k,
        ) is None by {
            if k > 0 && sorted[k].track_id == sorted[k - 1].track_id {
                let x = sorted[k - 1];
                let y = sorted[k];
                assert(x != y);
                lemma_sorted_member(clips, true, k - 1);
                lemma_sorted_member(clips, true, k);
                let i = choose|i: int| 0 <= i < clips.len() && clips[i] == x;
                let j = choose|j: int| 0 <= j < clips.len() && clips[j] == y;
                assert(!clip_precedes(y, x, true));
                assert(y.duration > 0);
                assert(!windows_overlap(clips[i], clips[j]));
            }
        }
        lemma_no_overlap_anywhere(sorted, 0);
    }
}

/// The rule of the timeline on overlap, for lists of any length: clips that
/// each pass the rules on where a clip lies and on its trim window are
/// accepted together if and only if no two of them that share a track have a
/// moment in common.
pub proof fn lemma_timeline_overlap_rule(clips: Seq<ClipView>)
    requires
        clips.len() > 0,
        first_geometry_issue(clips, 0) is None,
        first_trim_issue(clips, 0) is None,
    ensures
        timeline_issue(clips) is None <==> tracks_free_of_overlap(clips),
{
    assert(all_last(clips)) by {
        assert forall|i: int| 0 <= i < clips.len() implies (#[trigger] clips[i]).duration > 0 by {
            lemma_no_geometry_issue_at(clips, 0, i);
        }
    }
    lemma_overlap_rule(clips);
}

} // verus!
