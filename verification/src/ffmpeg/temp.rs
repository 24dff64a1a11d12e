//! Scratch files of one export attempt: their names, and the tracker that
//! owns them until they are cleaned up.

use crate::clock::{utc_timestamp, utc_timestamp_nanos};
use crate::commands::{temp_dir_path, temp_dir_spec, CommandResult};
use crate::decimal::{push_signed_decimal, signed_decimal};
use crate::ffmpeg::export::{clip_views, ClipView, ExportClip};
use crate::paths::{join, path_join};
use crate::text::{
    contains, decimal_digits, ends_with, has_infix, has_prefix, has_suffix, push_decimal,
    starts_with, views,
};
use vstd::prelude::*;
use vstd::string::*;

verus! {

/// One deletion of a cleanup.
#[derive(Debug, Clone)]
pub enum CleanupStep {
    /// Delete this file.
    RemoveFile(String),
    /// Delete this directory and all that is in it.
    RemoveDirectory(String),
}

/// One deletion of a cleanup, as mathematics sees it.
pub enum CleanupStepView {
    RemoveFile(Seq<char>),
    RemoveDirectory(Seq<char>),
}

impl View for CleanupStep {
    type V = CleanupStepView;

    open spec fn view(&self) -> CleanupStepView {
        match self {
            CleanupStep::RemoveFile(p) => CleanupStepView::RemoveFile(p@),
            CleanupStep::RemoveDirectory(p) => CleanupStepView::RemoveDirectory(p@),
        }
    }
}

/// The steps of a list, each as mathematics sees it.
pub open spec fn step_views(steps: Seq<CleanupStep>) -> Seq<CleanupStepView> {
    steps.map_values(|s: CleanupStep| s@)
}

/// The scratch files and directories that one export attempt owns, each list
/// in the order of registration.
#[derive(Debug, Clone)]
pub struct TempFileTracker {
    pub files: Vec<String>,
    pub directories: Vec<String>,
}

/// What a tracker holds, as mathematics sees it.
pub struct TrackerView {
    pub files: Seq<Seq<char>>,
    pub directories: Seq<Seq<char>>,
}

impl View for TempFileTracker {
    type V = TrackerView;

    open spec fn view(&self) -> TrackerView {
        TrackerView { files: views(self.files@), directories: views(self.directories@) }
    }
}

/// A tracker that holds nothing.
pub open spec fn empty_tracker() -> TrackerView {
    TrackerView { files: Seq::empty(), directories: Seq::empty() }
}

/// What a tracker holds once it has been cleaned up: nothing, whatever it
/// held.
pub open spec fn after_cleanup(t: TrackerView) -> TrackerView {
    empty_tracker()
}

/// The deletions that clean up all that a tracker holds: every file in the
/// order of registration, then every directory, the last registered first.
pub open spec fn cleanup_plan(t: TrackerView) -> Seq<CleanupStepView> {
    Seq::new(
        t.files.len() + t.directories.len(),
        |i: int|
            if i < t.files.len() {
                CleanupStepView::RemoveFile(t.files[i])
            } else {
                CleanupStepView::RemoveDirectory(
                    t.directories[t.directories.len() - 1 - (i - t.files.len())],
                )
            },
    )
}

impl TempFileTracker {
    /// A tracker that holds nothing.
    pub fn new() -> (r: Self)
        ensures
            r@ == empty_tracker(),
    {
        let r = Self { files: Vec::new(), directories: Vec::new() };
        assert(r@.files =~= Seq::<Seq<char>>::empty());
        assert(r@.directories =~= Seq::<Seq<char>>::empty());
        r
    }

    /// Registers a file as owned by this tracker.
    pub fn add_file(&mut self, file_path: String)
        ensures
            final(self)@ == (TrackerView {
                files: old(self)@.files.push(file_path@),
                ..old(self)@
            }),
    {
        self.files.push(file_path);
        assert(final(self)@.files =~= old(self)@.files.push(file_path@));
    }

    /// Registers a directory as owned by this tracker.
    pub fn add_directory(&mut self, dir_path: String)
        ensures
            final(self)@ == (TrackerView {
                directories: old(self)@.directories.push(dir_path@),
                ..old(self)@
            }),
    {
        self.directories.push(dir_path);
        assert(final(self)@.directories =~= old(self)@.directories.push(dir_path@));
    }

    /// The deletions that clean up all that the tracker holds, in the order in
    /// which they are to be tried. The tracker keeps what it holds.
    pub fn cleanup_steps(&self) -> (r: Vec<CleanupStep>)
        ensures
            step_views(r@) == cleanup_plan(self@),
    {
        let mut steps: Vec<CleanupStep> = Vec::new();
        let mut i: usize = 0;
        while i < self.files.len()
            invariant
                i <= self.files.len(),
                steps@.len() == i,
                forall|j: int|
                    0 <= j < i ==> (#[trigger] steps@[j])@ == CleanupStepView::RemoveFile(
                        self.files@[j]@,
                    ),
            decreases self.files.len() - i,
        {
            steps.push(CleanupStep::RemoveFile(self.files[i].clone()));
            i += 1;
        }
        let n: usize = self.directories.len();
        let mut k: usize = 0;
        while k < n
            invariant
                k <= n,
                n == self.directories.len(),
                steps@.len() == self.files.len() + k,
                forall|j: int|
                    0 <= j < self.files.len() ==> (#[trigger] steps@[j])@
                        == CleanupStepView::RemoveFile(self.files@[j]@),
                forall|j: int|
                    self.files.len() <= j < self.files.len() + k ==> (#[trigger] steps@[j])@
                        == CleanupStepView::RemoveDirectory(
                        self.directories@[n - 1 - (j - self.files.len())]@,
                    ),
            decreases n - k,
        {
            steps.push(CleanupStep::RemoveDirectory(self.directories[n - 1 - k].clone()));
            k += 1;
        }
        assert(step_views(steps@) =~= cleanup_plan(self@));
        steps
    }

    /// Hands out the deletions that clean up all that the tracker holds and
    /// lets go of it all: the tracker holds nothing afterwards, so that a
    /// second call hands out no deletion. Each deletion is to be tried
    /// whether or not the one before it succeeded.
    pub fn cleanup_all(&mut self) -> (r: Vec<CleanupStep>)
        ensures
            step_views(r@) == cleanup_plan(old(self)@),
            final(self)@ == after_cleanup(old(self)@),
    {
        let steps = self.cleanup_steps();
        self.files = Vec::new();
        self.directories = Vec::new();
        assert(final(self)@.files =~= Seq::<Seq<char>>::empty());
        assert(final(self)@.directories =~= Seq::<Seq<char>>::empty());
        steps
    }

    /// How many files are tracked.
    pub fn file_count(&self) -> (r: usize)
        ensures
            r == self@.files.len(),
    {
        self.files.len()
    }

    /// How many directories are tracked.
    pub fn directory_count(&self) -> (r: usize)
        ensures
            r == self@.directories.len(),
    {
        self.directories.len()
    }

    /// Whether nothing is tracked.
    pub fn is_empty(&self) -> (r: bool)
        ensures
            r == (self@ == empty_tracker()),
    {
        let r = self.files.len() == 0 && self.directories.len() == 0;
        proof {
            assert(self@.files.len() == self.files@.len());
            assert(self@.directories.len() == self.directories@.len());
            if r {
                assert(self@.files =~= Seq::<Seq<char>>::empty());
                assert(self@.directories =~= Seq::<Seq<char>>::empty());
            }
        }
        r
    }
}

/// Cleaning up twice is cleaning up once: whatever a tracker held, a second
/// cleanup after the first has no step and leaves the tracker as the first
/// left it.
pub proof fn lemma_cleanup_is_idempotent(t: TrackerView)
    ensures
        cleanup_plan(after_cleanup(t)) == Seq::<CleanupStepView>::empty(),
        after_cleanup(after_cleanup(t)) == after_cleanup(t),
{
    assert(cleanup_plan(after_cleanup(t)) =~= Seq::<CleanupStepView>::empty());
}

/// A cleanup leaves nothing out and does nothing twice: it has one step for
/// every tracked file, in the order of registration, then one for every
/// tracked directory, the last registered first.
pub proof fn lemma_cleanup_covers_all(t: TrackerView)
    ensures
        cleanup_plan(t).len() == t.files.len() + t.directories.len(),
        forall|i: int|
            0 <= i < t.files.len() ==> cleanup_plan(t)[i] == CleanupStepView::RemoveFile(
                #[trigger] t.files[i],
            ),
        forall|i: int|
            0 <= i < t.directories.len() ==> cleanup_plan(t)[t.files.len() + t.directories.len()
                - 1 - i] == CleanupStepView::RemoveDirectory(#[trigger] t.directories[i]),
{
}

/// The name of a scratch file: the prefix, the second and the nanosecond of
/// its making, and the extension.
pub open spec fn unique_temp_name(
    prefix: Seq<char>,
    extension: Seq<char>,
    timestamp: int,
    nanos: int,
) -> Seq<char> {
    prefix + "_"@ + signed_decimal(timestamp) + "_"@ + signed_decimal(nanos) + "."@ + extension
}

/// The path of a scratch file made at the given second and nanosecond.
pub open spec fn unique_temp_path(
    prefix: Seq<char>,
    extension: Seq<char>,
    timestamp: int,
    nanos: int,
) -> Seq<char> {
    path_join(temp_dir_spec(), unique_temp_name(prefix, extension, timestamp, nanos))
}

/// The path of a scratch file made at the given second and nanosecond.
pub fn unique_temp_path_at(prefix: &str, extension: &str, timestamp: i64, nanos: i64) -> (r: String)
    ensures
        r@ == unique_temp_path(prefix@, extension@, timestamp as int, nanos as int),
{
    let mut name = String::from_str(prefix);
    name.append("_");
    push_signed_decimal(&mut name, timestamp as i128);
    name.append("_");
    push_signed_decimal(&mut name, nanos as i128);
    name.append(".");
    name.append(extension);
    let dir = temp_dir_path();
    join(dir.as_str(), name.as_str())
}

/// The path of a new scratch file, named after the moment of the call.
pub fn generate_unique_temp_filename(prefix: &str, extension: &str) -> (r: CommandResult<String>)
    ensures
        r matches Ok(p) && exists|timestamp: i64, nanos: i64|
            -1_000_000_000 < nanos < 1_000_000_000 && p@ == unique_temp_path(
                prefix@,
                extension@,
                timestamp as int,
                nanos as int,
            ),
{
    let timestamp = utc_timestamp();
    let nanos: i64 = match utc_timestamp_nanos() {
        Some(n) => n % 1_000_000_000,
        None => 0,
    };
    Ok(unique_temp_path_at(prefix, extension, timestamp, nanos))
}

/// The path of a new scratch file, named after the moment of the call.
pub fn create_temp_file_path(prefix: &str, extension: &str) -> (r: CommandResult<String>)
    ensures
        r matches Ok(p) && exists|timestamp: i64, nanos: i64|
            -1_000_000_000 < nanos < 1_000_000_000 && p@ == unique_temp_path(
                prefix@,
                extension@,
                timestamp as int,
                nanos as int,
            ),
{
    generate_unique_temp_filename(prefix, extension)
}

/// The path of the scratch file for the trimmed copy of a clip.
pub open spec fn temp_trim_path(clip_index: nat, extension: Seq<char>, timestamp: int) -> Seq<
    char,
> {
    path_join(
        temp_dir_spec(),
        "trimmed_clip_"@ + decimal_digits(clip_index) + "_"@ + signed_decimal(timestamp) + "."@
            + extension,
    )
}

/// The path of the scratch file for the trimmed copy of the clip at
/// `clip_index`, made at the given second.
pub fn temp_trim_path_at(clip_index: usize, extension: &str, timestamp: i64) -> (r: String)
    ensures
        r@ == temp_trim_path(clip_index as nat, extension@, timestamp as int),
{
    let mut name = String::from_str("trimmed_clip_");
    push_decimal(&mut name, clip_index as u128);
    name.append("_");
    push_signed_decimal(&mut name, timestamp as i128);
    name.append(".");
    name.append(extension);
    let dir = temp_dir_path();
    join(dir.as_str(), name.as_str())
}

/// The path of a new scratch file for the trimmed copy of the clip at
/// `clip_index`.
pub fn create_temp_trim_file_path(clip_index: usize, extension: &str) -> (r: CommandResult<String>)
    ensures
        r matches Ok(p) && exists|timestamp: i64|
            p@ == temp_trim_path(clip_index as nat, extension@, timestamp as int),
{
    let timestamp = utc_timestamp();
    Ok(temp_trim_path_at(clip_index, extension, timestamp))
}

/// The path of a scratch directory made at the given second.
pub open spec fn temp_dir_path_spec(dir_name: Seq<char>, timestamp: int) -> Seq<char> {
    path_join(temp_dir_spec(), dir_name + "_"@ + signed_decimal(timestamp))
}

/// The path of a scratch directory made at the given second.
pub fn temp_dir_path_at(dir_name: &str, timestamp: i64) -> (r: String)
    ensures
        r@ == temp_dir_path_spec(dir_name@, timestamp as int),
{
    let mut name = String::from_str(dir_name);
    name.append("_");
    push_signed_decimal(&mut name, timestamp as i128);
    let dir = temp_dir_path();
    join(dir.as_str(), name.as_str())
}

/// The path of a new scratch directory.
pub fn create_temp_dir_path(dir_name: &str) -> (r: CommandResult<String>)
    ensures
        r matches Ok(p) && exists|timestamp: i64|
            p@ == temp_dir_path_spec(dir_name@, timestamp as int),
{
    let timestamp = utc_timestamp();
    Ok(temp_dir_path_at(dir_name, timestamp))
}

/// Names a new scratch file and registers it with the tracker, before
/// anything is written to it.
pub fn create_and_track_temp_file(
    tracker: &mut TempFileTracker,
    prefix: &str,
    extension: &str,
) -> (r: CommandResult<String>)
    ensures
        r matches Ok(p) && final(tracker)@ == (TrackerView {
            files: old(tracker)@.files.push(p@),
            ..old(tracker)@
        }) && exists|timestamp: i64, nanos: i64|
            -1_000_000_000 < nanos < 1_000_000_000 && p@ == unique_temp_path(
                prefix@,
                extension@,
                timestamp as int,
                nanos as int,
            ),
{
    match create_temp_file_path(prefix, extension) {
        Ok(path) => {
            tracker.add_file(path.clone());
            Ok(path)
        },
        Err(e) => Err(e),
    }
}

/// Names a new scratch directory and registers it with the tracker, before
/// it is made.
pub fn create_and_track_temp_dir(tracker: &mut TempFileTracker, dir_name: &str) -> (r:
    CommandResult<String>)
    ensures
        r matches Ok(p) && final(tracker)@ == (TrackerView {
            directories: old(tracker)@.directories.push(p@),
            ..old(tracker)@
        }) && exists|timestamp: i64| p@ == temp_dir_path_spec(dir_name@, timestamp as int),
{
    match create_temp_dir_path(dir_name) {
        Ok(path) => {
            tracker.add_directory(path.clone());
            Ok(path)
        },
        Err(e) => Err(e),
    }
}

/// Whether a file of this name in the scratch directory is left over from an
/// export: a manifest, or the trimmed copy of a clip.
pub open spec fn is_export_temp_name(name: Seq<char>) -> bool {
    has_suffix(name, ".txt"@) || has_prefix(name, "trimmed_clip_"@)
}

/// Whether a file of this name in the scratch directory is left over from an
/// export.
pub fn is_export_temp_file(name: &str) -> (r: bool)
    ensures
        r == is_export_temp_name(name@),
{
    ends_with(name, ".txt") || starts_with(name, "trimmed_clip_")
}

/// Whether a file of this name in the scratch directory is a scratch file of
/// any kind.
pub open spec fn is_temp_file_name(name: Seq<char>) -> bool {
    has_suffix(name, ".txt"@) || has_prefix(name, "trimmed_clip_"@) || has_prefix(name, "temp_"@)
        || has_prefix(name, "export_"@)
}

/// Whether a file of this name in the scratch directory is a scratch file of
/// any kind.
pub fn is_temp_file(name: &str) -> (r: bool)
    ensures
        r == is_temp_file_name(name@),
{
    ends_with(name, ".txt") || starts_with(name, "trimmed_clip_") || starts_with(name, "temp_")
        || starts_with(name, "export_")
}

/// Whether a directory of this name in the scratch directory is a scratch
/// directory.
pub open spec fn is_temp_dir_name(name: Seq<char>) -> bool {
    has_prefix(name, "temp_"@) || has_prefix(name, "export_"@)
}

/// Whether a directory of this name in the scratch directory is a scratch
/// directory.
pub fn is_temp_dir(name: &str) -> (r: bool)
    ensures
        r == is_temp_dir_name(name@),
{
    starts_with(name, "temp_") || starts_with(name, "export_")
}

/// Whether something last modified at `modified` is older at `now` than
/// `max_age_hours` hours, all times in seconds since the Unix epoch.
pub fn is_older_than(modified: i64, now: i64, max_age_hours: u64) -> (r: bool)
    ensures
        r == (modified < now - max_age_hours * 3600),
{
    (modified as i128) < now as i128 - max_age_hours as i128 * 3600
}

/// The files of trimmed copies among the clips' files: those whose path has
/// `trimmed_clip_` in it, in the order of the clips.
pub open spec fn trimmed_clip_paths(clips: Seq<ClipView>) -> Seq<Seq<char>>
    decreases clips.len(),
{
    if clips.len() == 0 {
        Seq::<Seq<char>>::empty()
    } else if has_infix(clips.last().file_path, "trimmed_clip_"@) {
        trimmed_clip_paths(clips.drop_last()).push(clips.last().file_path)
    } else {
        trimmed_clip_paths(clips.drop_last())
    }
}

/// The files of trimmed copies among the clips' files, which are to be
/// deleted once the export is over.
pub fn trimmed_clip_files(clips: &[ExportClip]) -> (r: Vec<String>)
    ensures
        views(r@) == trimmed_clip_paths(clip_views(clips@)),
{
    let ghost all = clip_views(clips@);
    let mut out: Vec<String> = Vec::new();
    assert(views(out@) =~= trimmed_clip_paths(all.take(0)));
    let mut i: usize = 0;
    while i < clips.len()
        invariant
            i <= clips.len(),
            all == clip_views(clips@),
            views(out@) == trimmed_clip_paths(all.take(i as int)),
        decreases clips.len() - i,
    {
        let clip = &clips[i];
        proof {
            let t = all.take(i + 1);
            assert(t.drop_last() =~= all.take(i as int));
            assert(t.last() == clip@);
        }
        if contains(clip.file_path.as_str(), "trimmed_clip_") {
            let ghost before = views(out@);
            out.push(clip.file_path.clone());
            assert(views(out@) =~= before.push(clip.file_path@));
        }
        i += 1;
    }
    assert(all.take(clips.len() as int) =~= all);
    out
}

} // verus!
