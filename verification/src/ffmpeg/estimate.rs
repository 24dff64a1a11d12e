//! Estimates, before an export starts, of how long it takes and how large
//! its file gets.

use crate::ffmpeg::export::{clip_views, ClipView, ExportClip, ExportSettings};
use crate::ffmpeg::timeline::clamp_i64;
use crate::text::str_eq;
use vstd::prelude::*;
use vstd::string::*;

verus! {

/// The durations of the clips added up.
pub open spec fn duration_sum(clips: Seq<ClipView>) -> int
    decreases clips.len(),
{
    if clips.len() == 0 {
        0
    } else {
        duration_sum(clips.drop_last()) + clips.last().duration
    }
}

/// The total duration of the clips in millionths of a second, brought into
/// the range of an `i64`.
pub open spec fn total_duration_spec(clips: Seq<ClipView>) -> int {
    clamp_i64(duration_sum(clips))
}

/// The total duration of the clips, in millionths of a second.
pub fn total_duration(clips: &[ExportClip]) -> (r: i64)
    ensures
        r == total_duration_spec(clip_views(clips@)),
{
    let ghost all = clip_views(clips@);
    let mut sum: i128 = 0;
    let mut i: usize = 0;
    assert(all.take(0) =~= Seq::<ClipView>::empty());
    while i < clips.len()
        invariant
            i <= clips.len(),
            all == clip_views(clips@),
            sum == duration_sum(all.take(i as int)),
            -(i * 0x8000_0000_0000_0000) <= sum <= i * 0x8000_0000_0000_0000,
        decreases clips.len() - i,
    {
        proof {
            let t = all.take(i + 1);
            assert(t.drop_last() =~= all.take(i as int));
            assert(t.last() == clips@[i as int]@);
        }
        sum = sum + clips[i].duration as i128;
        i += 1;
    }
    assert(all.take(clips.len() as int) =~= all);
    if sum < i64::MIN as i128 {
        i64::MIN
    } else if sum > i64::MAX as i128 {
        i64::MAX
    } else {
        sum as i64
    }
}

/// How much longer an export takes at a resolution, in tenths: 1.2 times at
/// 1080p, 0.8 times at 720p, once at any other.
pub open spec fn resolution_tenths(resolution: Seq<char>) -> int {
    if resolution == "1080p"@ {
        12
    } else if resolution == "720p"@ {
        8
    } else {
        10
    }
}

/// How much longer an export takes and how much larger it gets at a quality,
/// in tenths: 1.5 times at high, 0.7 times at low, once at any other.
pub open spec fn quality_tenths(quality: Seq<char>) -> int {
    if quality == "high"@ {
        15
    } else if quality == "low"@ {
        7
    } else {
        10
    }
}

/// The bits per second of the output at a resolution and medium quality.
pub open spec fn base_bitrate(resolution: Seq<char>) -> int {
    if resolution == "1080p"@ {
        8_000_000
    } else if resolution == "720p"@ {
        3_000_000
    } else {
        5_000_000
    }
}

/// `a / b` rounded towards zero.
pub open spec fn div_to_zero(a: int, b: int) -> int {
    if a >= 0 {
        a / b
    } else {
        -((-a) / b)
    }
}

/// The time an export of `total` millionths of a second is expected to take,
/// in millionths of a second: a tenth of the total, times the factors of
/// resolution and quality.
pub open spec fn export_time_for(total: int, resolution: Seq<char>, quality: Seq<char>) -> int {
    div_to_zero(total * resolution_tenths(resolution) * quality_tenths(quality), 1000)
}

/// The size in bytes an export of `total` millionths of a second is expected
/// to have: its seconds times the bit rate of resolution and quality, in
/// bytes.
pub open spec fn export_size_for(total: int, resolution: Seq<char>, quality: Seq<char>) -> int {
    if total <= 0 {
        0
    } else {
        total * (base_bitrate(resolution) * quality_tenths(quality) / 10) / 8_000_000
    }
}

fn resolution_factor(resolution: &str) -> (r: i128)
    ensures
        r == resolution_tenths(resolution@),
{
    if str_eq(resolution, "1080p") {
        12
    } else if str_eq(resolution, "720p") {
        8
    } else {
        10
    }
}

fn quality_factor(quality: &str) -> (r: i128)
    ensures
        r == quality_tenths(quality@),
{
    if str_eq(quality, "high") {
        15
    } else if str_eq(quality, "low") {
        7
    } else {
        10
    }
}

fn bitrate_base(resolution: &str) -> (r: i128)
    ensures
        r == base_bitrate(resolution@),
{
    if str_eq(resolution, "1080p") {
        8_000_000
    } else if str_eq(resolution, "720p") {
        3_000_000
    } else {
        5_000_000
    }
}

/// The time the export of the clips is expected to take, in millionths of a
/// second.
pub fn estimate_export_time(clips: &[ExportClip], settings: &ExportSettings) -> (r: i64)
    ensures
        r == export_time_for(
            total_duration_spec(clip_views(clips@)),
            settings.resolution@,
            settings.quality@,
        ),
{
    let total = total_duration(clips) as i128;
    let rf = resolution_factor(settings.resolution.as_str());
    let qf = quality_factor(settings.quality.as_str());
    let k: i128 = rf * qf;
    assert(56 <= k <= 180) by (nonlinear_arith)
        requires
            k == rf * qf,
            rf == 12 || rf == 8 || rf == 10,
            qf == 15 || qf == 7 || qf == 10,
    ;
    assert(total * rf * qf == total * k) by (nonlinear_arith)
        requires
            k == rf * qf,
    ;
    let scaled: i128 = total * k;
    let t: i128 = scaled / 1000;
    t as i64
}

/// The size in bytes the export of the clips is expected to have.
pub fn estimate_export_size(clips: &[ExportClip], settings: &ExportSettings) -> (r: u64)
    ensures
        r == export_size_for(
            total_duration_spec(clip_views(clips@)),
            settings.resolution@,
            settings.quality@,
        ),
{
    let total = total_duration(clips) as i128;
    if total <= 0 {
        return 0;
    }
    let base = bitrate_base(settings.resolution.as_str());
    let qf = quality_factor(settings.quality.as_str());
    let bitrate: i128 = base * qf / 10;
    assert(0 < bitrate <= 12_000_000);
    assert(0 <= total * bitrate <= 0x7fff_ffff_ffff_ffff * 12_000_000) by (nonlinear_arith)
        requires
            0 < total <= 0x7fff_ffff_ffff_ffff,
            0 < bitrate <= 12_000_000,
    ;
    let bits: i128 = total * bitrate;
    let bytes: i128 = bits / 8_000_000;
    bytes as u64
}

/// The longer the clips, the longer the expected export: with the same
/// settings, a total duration that is not smaller gives an estimate that is
/// not smaller.
pub proof fn lemma_export_time_monotonic(
    shorter: int,
    longer: int,
    resolution: Seq<char>,
    quality: Seq<char>,
)
    requires
        shorter <= longer,
    ensures
        export_time_for(shorter, resolution, quality) <= export_time_for(
            longer,
            resolution,
            quality,
        ),
{
    let k = resolution_tenths(resolution) * quality_tenths(quality);
    assert(k > 0) by (nonlinear_arith)
        requires
            k == resolution_tenths(resolution) * quality_tenths(quality),
            resolution_tenths(resolution) > 0,
            quality_tenths(quality) > 0,
    ;
    assert(shorter * resolution_tenths(resolution) * quality_tenths(quality) == shorter * k)
        by (nonlinear_arith)
        requires
            k == resolution_tenths(resolution) * quality_tenths(quality),
    ;
    assert(longer * resolution_tenths(resolution) * quality_tenths(quality) == longer * k)
        by (nonlinear_arith)
        requires
            k == resolution_tenths(resolution) * quality_tenths(quality),
    ;
    assert(shorter * k <= longer * k) by (nonlinear_arith)
        requires
            shorter <= longer,
            k > 0,
    ;
    lemma_div_to_zero_monotonic(shorter * k, longer * k, 1000);
}

/// Division that rounds towards zero keeps the order of what it divides.
pub proof fn lemma_div_to_zero_monotonic(a: int, b: int, d: int)
    requires
        a <= b,
        d > 0,
    ensures
        div_to_zero(a, d) <= div_to_zero(b, d),
{
    if a >= 0 {
        assert(a / d <= b / d) by (nonlinear_arith)
            requires
                0 <= a <= b,
                d > 0,
        ;
    } else if b < 0 {
        assert((-b) / d <= (-a) / d) by (nonlinear_arith)
            requires
                0 <= -b <= -a,
                d > 0,
        ;
    } else {
        assert((-a) / d >= 0) by (nonlinear_arith)
            requires
                -a >= 0,
                d > 0,
        ;
        assert(b / d >= 0) by (nonlinear_arith)
            requires
                b >= 0,
                d > 0,
        ;
    }
}

/// The longer the clips, the larger the expected file: with the same
/// settings, a total duration that is not smaller gives an estimate that is
/// not smaller.
pub proof fn lemma_export_size_monotonic(
    shorter: int,
    longer: int,
    resolution: Seq<char>,
    quality: Seq<char>,
)
    requires
        shorter <= longer,
    ensures
        export_size_for(shorter, resolution, quality) <= export_size_for(
            longer,
            resolution,
            quality,
        ),
{
    let rate = base_bitrate(resolution) * quality_tenths(quality) / 10;
    assert(rate > 0);
    if longer > 0 {
        if shorter > 0 {
            assert(shorter * rate <= longer * rate) by (nonlinear_arith)
                requires
                    shorter <= longer,
                    rate > 0,
            ;
            assert(shorter * rate / 8_000_000 <= longer * rate / 8_000_000) by (nonlinear_arith)
                requires
                    0 <= shorter * rate <= longer * rate,
            ;
        } else {
            assert(longer * rate / 8_000_000 >= 0) by (nonlinear_arith)
                requires
                    longer > 0,
                    rate > 0,
            ;
        }
    }
}

/// Estimates grow with the clips: where the clips of one list last in total
/// no longer than those of another, an export of the one with some settings
/// is expected neither to take longer nor to get larger than an export of the
/// other with the same settings.
pub proof fn lemma_estimates_monotonic(
    shorter: Seq<ClipView>,
    longer: Seq<ClipView>,
    resolution: Seq<char>,
    quality: Seq<char>,
)
    requires
        duration_sum(shorter) <= duration_sum(longer),
    ensures
        export_time_for(total_duration_spec(shorter), resolution, quality) <= export_time_for(
            total_duration_spec(longer),
            resolution,
            quality,
        ),
        export_size_for(total_duration_spec(shorter), resolution, quality) <= export_size_for(
            total_duration_spec(longer),
            resolution,
            quality,
        ),
{
    lemma_export_time_monotonic(
        total_duration_spec(shorter),
        total_duration_spec(longer),
        resolution,
        quality,
    );
    lemma_export_size_monotonic(
        total_duration_spec(shorter),
        total_duration_spec(longer),
        resolution,
        quality,
    );
}

} // verus!
