//! The concatenation manifest: which files the tool is to join, in which
//! order.

use crate::ffmpeg::export::{clip_views, ClipView, ExportClip};
use crate::ffmpeg::timeline::{
    is_strictly_sorted, lemma_sorted_clips, lemma_valid_timeline_order,
    sort_clips_by_track_and_timeline_position, sorted_clips, timeline_issue,
};
use crate::text::views;
use vstd::prelude::*;
use vstd::string::*;

verus! {

/// The file that stands for a clip in the output: its trimmed copy where it
/// has one, its source otherwise.
pub open spec fn concat_source(clip: ClipView) -> Seq<char> {
    match clip.trimmed_file_path {
        Some(p) => p,
        None => clip.file_path,
    }
}

/// The files that stand for the clips, in the order of the clips.
pub open spec fn concat_sources(clips: Seq<ClipView>) -> Seq<Seq<char>> {
    clips.map_values(|c: ClipView| concat_source(c))
}

/// The manifest's line for one file.
pub open spec fn concat_line(source: Seq<char>) -> Seq<char> {
    "file '"@ + source + "'\n"@
}

/// The manifest's lines for a list of files, one after the other.
pub open spec fn concat_lines(sources: Seq<Seq<char>>) -> Seq<char>
    decreases sources.len(),
{
    if sources.len() == 0 {
        Seq::<char>::empty()
    } else {
        concat_lines(sources.drop_last()) + concat_line(sources.last())
    }
}

/// The files of the manifest, in its order: the clips sorted by track and by
/// start time within a track, each clip's trimmed copy or else its source.
pub open spec fn concat_entries_spec(clips: Seq<ClipView>) -> Seq<Seq<char>> {
    concat_sources(sorted_clips(clips, true))
}

/// The text of the manifest: one line for each of its files.
pub open spec fn concat_content_spec(clips: Seq<ClipView>) -> Seq<char> {
    concat_lines(concat_entries_spec(clips))
}

/// The files of the manifest, in its order.
pub fn concat_entries(clips: &[ExportClip]) -> (r: Vec<String>)
    ensures
        views(r@) == concat_entries_spec(clip_views(clips@)),
{
    let sorted = sort_clips_by_track_and_timeline_position(clips);
    let ghost all = clip_views(sorted@);
    let mut out: Vec<String> = Vec::new();
    let mut i: usize = 0;
    while i < sorted.len()
        invariant
            i <= sorted.len(),
            all == clip_views(sorted@),
            out@.len() == i,
            forall|j: int| 0 <= j < i ==> (#[trigger] out@[j])@ == concat_source(all[j]),
        decreases sorted.len() - i,
    {
        let clip = &sorted[i];
        assert(all[i as int] == clip@);
        let source = match &clip.trimmed_file_path {
            Some(p) => p.clone(),
            None => clip.file_path.clone(),
        };
        out.push(source);
        i += 1;
    }
    assert(views(out@) =~= concat_sources(all));
    out
}

/// The text of a manifest with a line for each of `sources`.
pub fn concat_text(sources: &Vec<String>) -> (r: String)
    ensures
        r@ == concat_lines(views(sources@)),
{
    let ghost all = views(sources@);
    let mut content = String::new();
    let mut i: usize = 0;
    assert(all.take(0) =~= Seq::<Seq<char>>::empty());
    while i < sources.len()
        invariant
            i <= sources.len(),
            all == views(sources@),
            content@ == concat_lines(all.take(i as int)),
        decreases sources.len() - i,
    {
        proof {
            let t = all.take(i + 1);
            assert(t.drop_last() =~= all.take(i as int));
            assert(t.last() == sources@[i as int]@);
        }
        content.append("file '");
        content.append(sources[i].as_str());
        content.append("'\n");
        assert(content@ =~= concat_lines(all.take(i as int)) + concat_line(sources@[i as int]@));
        i += 1;
    }
    assert(all.take(sources.len() as int) =~= all);
    content
}

/// The text of the manifest for the clips: a line for each clip, the clips
/// sorted by track and by start time within a track, each line naming the
/// clip's trimmed copy where it has one and its source otherwise.
pub fn generate_concat_content(clips: &[ExportClip]) -> (r: String)
    ensures
        r@ == concat_content_spec(clip_views(clips@)),
{
    let entries = concat_entries(clips);
    concat_text(&entries)
}

/// The order of the manifest is the order of the timeline: for clips that
/// break no rule, the manifest has one entry for each clip, and its entries
/// are the files of the clips in the one order in which every clip is sorted,
/// by track and by start time within a track, before every clip behind it.
pub proof fn lemma_manifest_order(clips: Seq<ClipView>, order: Seq<ClipView>)
    requires
        timeline_issue(clips) is None,
        order.to_multiset() == clips.to_multiset(),
        is_strictly_sorted(order),
    ensures
        concat_entries_spec(clips) == concat_sources(order),
        concat_entries_spec(clips).len() == clips.len(),
        concat_content_spec(clips) == concat_lines(concat_sources(order)),
{
    lemma_sorted_clips(clips, true);
    lemma_valid_timeline_order(clips, order);
}

} // verus!
