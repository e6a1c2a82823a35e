//! Scenes: frame ranges of a video that are encoded independently, and the
//! ways a video is cut into them.

use vstd::prelude::*;
use crate::flowencode::TargetMetric;

verus! {

/// Settings that a zone overrides for the scenes inside it.
#[derive(Debug, Clone, Copy, PartialEq, Eq, Structural)]
pub struct ZoneOptions {
    /// The longest scene, in frames, before extra splits are made; `None`
    /// disables extra splits in the zone.
    pub extra_splits_len: Option<usize>,
    /// The shortest scene, in frames, that scene detection may produce.
    pub min_scene_len: usize,
    /// The target-quality settings of the zone, if it aims at a quality.
    pub target_quality: Option<ZoneTargetQuality>,
}

/// What a zone's target-quality settings tell about the tools they need:
/// whether a target is set, the metric, and how many frames are probed per
/// frame scored.
#[derive(Debug, Clone, Copy, PartialEq, Eq, Structural)]
pub struct ZoneTargetQuality {
    pub has_target: bool,
    pub metric: TargetMetric,
    pub probing_rate: usize,
}

/// A scene: frames `start_frame..end_frame`, with the zone settings that
/// apply to it.
#[derive(Debug, Clone, Copy, PartialEq, Eq, Structural)]
pub struct Scene {
    pub start_frame: usize,
    pub end_frame: usize,
    pub zone_overrides: Option<ZoneOptions>,
}

/// Scenes follow each other without gap or overlap.
pub open spec fn contiguous(scenes: Seq<Scene>) -> bool {
    forall|i: int| 0 <= i < scenes.len() - 1 ==> #[trigger] scenes[i].end_frame == scenes[i + 1].start_frame
}

/// No scene ends before it starts.
pub open spec fn well_ordered(scenes: Seq<Scene>) -> bool {
    forall|i: int| 0 <= i < scenes.len() ==> #[trigger] scenes[i].start_frame <= scenes[i].end_frame
}

/// The longest scene allowed before extra splits: the zone's own limit when
/// the scene is in a zone (no limit when the zone sets none), `split_size`
/// otherwise.
pub open spec fn effective_split_size(scene: Scene, split_size: usize) -> int {
    match scene.zone_overrides {
        Some(ovr) => match ovr.extra_splits_len {
            Some(len) => len as int,
            None => usize::MAX as int,
        },
        None => split_size as int,
    }
}

/// The number of pieces a scene of `distance` frames is cut into when the
/// longest allowed piece is `size` frames.
pub open spec fn piece_count(distance: int, size: int) -> int {
    if distance > size {
        distance / size + 1
    } else {
        1
    }
}

/// Piece `n` of a scene cut into `k` pieces: piece `n` ends at frame
/// `start + distance * (n + 1) / k`; the first piece starts at `first_start`
/// and each later one where the previous ended.
pub open spec fn piece(scene: Scene, first_start: int, k: int, n: int) -> Scene {
    let start = scene.start_frame as int;
    let distance = scene.end_frame - scene.start_frame;
    Scene {
        start_frame: (if n == 0 {
            first_start
        } else {
            start + distance * n / k
        }) as usize,
        end_frame: (start + distance * (n + 1) / k) as usize,
        zone_overrides: scene.zone_overrides,
    }
}

/// The pieces of one scene, the first starting at `first_start`.
pub open spec fn scene_pieces(scene: Scene, first_start: int, split_size: usize) -> Seq<Scene> {
    let distance = scene.end_frame - scene.start_frame;
    let k = piece_count(distance, effective_split_size(scene, split_size));
    Seq::new(k as nat, |n: int| piece(scene, first_start, k, n))
}

/// All scenes cut into pieces no longer than their split size, each piece
/// starting where the previous piece ended (the very first where the first
/// scene starts).
pub open spec fn spec_extra_splits(scenes: Seq<Scene>, split_size: usize) -> Seq<Scene>
    decreases scenes.len(),
{
    if scenes.len() == 0 {
        seq![]
    } else {
        let before = spec_extra_splits(scenes.drop_last(), split_size);
        let first_start = if before.len() == 0 {
            scenes.last().start_frame as int
        } else {
            before.last().end_frame as int
        };
        before + scene_pieces(scenes.last(), first_start, split_size)
    }
}

/// No scene ends before it starts, and every scene longer than its split
/// size has a positive split size (a split size of zero leaves only empty
/// scenes uncut).
pub open spec fn splittable(scenes: Seq<Scene>, split_size: usize) -> bool {
    forall|i: int|
        0 <= i < scenes.len() ==> #[trigger] scenes[i].start_frame <= scenes[i].end_frame
            && (effective_split_size(scenes[i], split_size) > 0 || scenes[i].start_frame == scenes[i].end_frame)
}

proof fn lemma_boundaries(distance: int, k: int, n: int)
    requires
        distance >= 0,
        k >= 1,
        0 <= n < k,
    ensures
        0 <= distance * n / k <= distance * (n + 1) / k <= distance,
        distance * (n + 1) / k - distance * n / k <= distance / k + 1,
        distance * (n + 1) / k - distance * n / k >= distance / k,
{
    let a = distance * n / k;
    let b = distance * (n + 1) / k;
    assert(0 <= distance * n) by (nonlinear_arith)
        requires distance >= 0, n >= 0;
    assert(distance * n <= distance * (n + 1)) by (nonlinear_arith)
        requires distance >= 0, n >= 0;
    assert(distance * (n + 1) <= distance * k) by (nonlinear_arith)
        requires distance >= 0, n + 1 <= k;
    assert(0 <= a) by (nonlinear_arith)
        requires a == distance * n / k, distance * n >= 0, k >= 1;
    assert(a <= b) by (nonlinear_arith)
        requires a == distance * n / k, b == distance * (n + 1) / k, distance * n <= distance * (
            n + 1), k >= 1;
    assert(b <= distance) by (nonlinear_arith)
        requires b == distance * (n + 1) / k, distance * (n + 1) <= distance * k, k >= 1;
    assert(b - a <= distance / k + 1) by (nonlinear_arith)
        requires
            a == distance * n / k,
            b == distance * (n + 1) / k,
            k >= 1,
            distance >= 0,
            n >= 0,
    {
        assert(a * k > distance * n - k);
        assert(b * k <= distance * n + distance);
        assert((distance / k) * k > distance - k);
        assert((b - a) * k < distance + k);
        assert((b - a) * k < (distance / k) * k + 2 * k);
    }
    assert(b - a >= distance / k) by (nonlinear_arith)
        requires
            a == distance * n / k,
            b == distance * (n + 1) / k,
            k >= 1,
            distance >= 0,
            n >= 0,
    {
        assert(a * k <= distance * n);
        assert(b * k > distance * n + distance - k);
        assert((distance / k) * k <= distance);
        assert((b - a) * k > (distance / k) * k - k);
    }
}

proof fn lemma_piece_fits(distance: int, size: int)
    requires
        distance >= 0,
        size >= 0,
        size > 0 || distance == 0,
    ensures
        piece_count(distance, size) >= 1,
        distance > size ==> distance / piece_count(distance, size) + 1 <= size,
        distance <= size ==> distance <= size,
{
    if distance > size {
        let k = distance / size + 1;
        assert(k >= 1) by (nonlinear_arith)
            requires k == distance / size + 1, distance >= 0, size > 0;
        assert(k * size > distance) by (nonlinear_arith)
            requires k == distance / size + 1, distance >= 0, size > 0;
        assert(distance / k < size) by (nonlinear_arith)
            requires k * size > distance, k >= 1, distance >= 0, size > 0;
    }
}

proof fn lemma_scene_pieces(scene: Scene, split_size: usize)
    requires
        scene.start_frame <= scene.end_frame,
        effective_split_size(scene, split_size) > 0 || scene.start_frame == scene.end_frame,
    ensures
        ({
            let p = scene_pieces(scene, scene.start_frame as int, split_size);
            &&& p.len() >= 1
            &&& p[0].start_frame == scene.start_frame
            &&& p.last().end_frame == scene.end_frame
            &&& contiguous(p)
            &&& well_ordered(p)
            &&& forall|j: int|
                0 <= j < p.len() ==> (#[trigger] p[j]).zone_overrides == scene.zone_overrides
                    && p[j].end_frame - p[j].start_frame <= effective_split_size(scene, split_size)
        }),
{
    let p = scene_pieces(scene, scene.start_frame as int, split_size);
    let distance = scene.end_frame - scene.start_frame;
    let size = effective_split_size(scene, split_size);
    let k = piece_count(distance, size);
    lemma_piece_fits(distance, size);
    assert(p.len() == k);
    assert forall|j: int| 0 <= j < p.len() implies {
        &&& (#[trigger] p[j]).start_frame == scene.start_frame + distance * j / k
        &&& p[j].end_frame == scene.start_frame + distance * (j + 1) / k
        &&& p[j].start_frame <= p[j].end_frame
        &&& p[j].zone_overrides == scene.zone_overrides
        &&& p[j].end_frame - p[j].start_frame <= size
    } by {
        lemma_boundaries(distance, k, j);
        if j == 0 {
            assert(distance * 0 / k == 0) by (nonlinear_arith)
                requires k >= 1;
        }
        if distance <= size {
            assert(k == 1);
            assert(distance * (j + 1) / k == distance) by (nonlinear_arith)
                requires k == 1, j == 0;
        }
    }
    assert(p[0].start_frame == scene.start_frame) by {
        assert(distance * 0 / k == 0) by (nonlinear_arith)
            requires k >= 1;
    }
    assert(p.last().end_frame == scene.end_frame) by {
        assert(distance * k / k == distance) by (nonlinear_arith)
            requires k >= 1;
    }
    assert forall|j: int| 0 <= j < p.len() - 1 implies #[trigger] p[j].end_frame == p[j + 1].start_frame by {
        assert(p[j + 1].start_frame == scene.start_frame + distance * (j + 1) / k);
    }
}

/// Cutting scenes keeps the cut of the whole: when the scenes follow each
/// other without gap and each that is not empty has a positive split size,
/// the pieces also follow
/// each other without gap, none ends before it starts, they begin where the
/// first scene begins and end where the last scene ends, every piece keeps the
/// zone settings of its scene and is no longer than the split size they give,
/// and every scene start is a piece start.
#[verifier::spinoff_prover]
#[verifier::rlimit(40)]
pub proof fn lemma_extra_splits_cover(scenes: Seq<Scene>, split_size: usize)
    requires
        scenes.len() > 0,
        contiguous(scenes),
        splittable(scenes, split_size),
    ensures
        ({
            let out = spec_extra_splits(scenes, split_size);
            &&& out.len() >= scenes.len()
            &&& contiguous(out)
            &&& well_ordered(out)
            &&& out[0].start_frame == scenes[0].start_frame
            &&& out.last().end_frame == scenes.last().end_frame
            &&& forall|j: int|
                0 <= j < out.len() ==> (#[trigger] out[j]).end_frame - out[j].start_frame
                    <= effective_split_size(out[j], split_size)
            &&& forall|i: int|
                0 <= i < scenes.len() ==> exists|j: int|
                    0 <= j < out.len() && (#[trigger] out[j]).start_frame == (#[trigger] scenes[i]).start_frame
        }),
    decreases scenes.len(),
{
    let last = scenes.last();
    let rest = scenes.drop_last();
    let before = spec_extra_splits(rest, split_size);
    let out = spec_extra_splits(scenes, split_size);
    assert(last == scenes[scenes.len() - 1]);
    if rest.len() > 0 {
        assert(contiguous(rest)) by {
            assert forall|i: int| 0 <= i < rest.len() - 1 implies #[trigger] rest[i].end_frame == rest[i + 1].start_frame by {
                assert(scenes[i].end_frame == scenes[i + 1].start_frame);
            }
        }
        assert(splittable(rest, split_size)) by {
            assert forall|i: int| 0 <= i < rest.len() implies #[trigger] rest[i].start_frame <= rest[i].end_frame
                && (effective_split_size(rest[i], split_size) > 0 || rest[i].start_frame == rest[i].end_frame) by {
                assert(rest[i] == scenes[i]);
            }
        }
        lemma_extra_splits_cover(rest, split_size);
        assert(before.len() > 0);
        assert(before.last().end_frame == scenes[scenes.len() - 2].end_frame);
        assert(scenes[scenes.len() - 2].end_frame == last.start_frame);
    } else {
        assert(before.len() == 0);
    }
    lemma_scene_pieces(last, split_size);
    let p = scene_pieces(last, last.start_frame as int, split_size);
    assert(out == before + p);
    assert forall|j: int| 0 <= j < out.len() - 1 implies #[trigger] out[j].end_frame == out[j + 1].start_frame by {
        if j < before.len() - 1 {
            assert(out[j] == before[j]);
            assert(out[j + 1] == before[j + 1]);
        } else if j == before.len() - 1 {
            assert(out[j] == before.last());
            assert(out[j + 1] == p[0]);
        } else {
            assert(out[j] == p[j - before.len()]);
            assert(out[j + 1] == p[j - before.len() + 1]);
        }
    }
    assert forall|j: int| 0 <= j < out.len() implies (#[trigger] out[j]).start_frame <= out[j].end_frame
        && out[j].end_frame - out[j].start_frame <= effective_split_size(out[j], split_size) by {
        if j < before.len() {
            assert(out[j] == before[j]);
        } else {
            assert(out[j] == p[j - before.len()]);
            assert(p[j - before.len()].zone_overrides == last.zone_overrides);
        }
    }
    if rest.len() > 0 {
        assert(out[0] == before[0]);
        assert(rest[0] == scenes[0]);
    } else {
        assert(out[0] == p[0]);
    }
    assert(out.last() == p.last());
    assert forall|i: int| 0 <= i < scenes.len() implies exists|j: int|
        0 <= j < out.len() && (#[trigger] out[j]).start_frame == (#[trigger] scenes[i]).start_frame by {
        if i < scenes.len() - 1 {
            assert(rest[i] == scenes[i]);
            let j = choose|j: int| 0 <= j < before.len() && (#[trigger] before[j]).start_frame == (#[trigger] rest[i]).start_frame;
            assert(out[j] == before[j]);
        } else {
            assert(out[before.len() as int] == p[0]);
        }
    }
}

fn effective_split_size_of(scene: &Scene, split_size: usize) -> (r: usize)
    ensures
        r as int == effective_split_size(*scene, split_size),
{
    match scene.zone_overrides {
        Some(ovr) => match ovr.extra_splits_len {
            Some(len) => len,
            None => usize::MAX,
        },
        None => split_size,
    }
}

/// Cuts every scene longer than its split size into equal-as-possible pieces
/// no longer than the split size: a scene of `distance` frames becomes
/// `distance / size + 1` pieces, piece `n` ending at frame
/// `start + distance * (n + 1) / pieces`. Each piece starts where the previous
/// piece ended. Scenes inside a zone use the zone's split size, or none.
pub fn simple_extra_splits(scenes: &Vec<Scene>, split_size: usize) -> (r: Vec<Scene>)
    requires
        splittable(scenes@, split_size),
    ensures
        r@ == spec_extra_splits(scenes@, split_size),
{
    let mut new_scenes: Vec<Scene> = Vec::new();
    let mut i: usize = 0;
    while i < scenes.len()
        invariant
            i <= scenes@.len(),
            splittable(scenes@, split_size),
            new_scenes@ == spec_extra_splits(scenes@.take(i as int), split_size),
        decreases scenes.len() - i,
    {
        let scene = scenes[i];
        let ghost before = new_scenes@;
        proof {
            assert(scenes@.take(i + 1).drop_last() =~= scenes@.take(i as int));
            assert(scenes@.take(i + 1).last() == scene);
            assert(scenes@[i as int] == scene);
        }
        let first_start: usize = if new_scenes.len() == 0 {
            scene.start_frame
        } else {
            new_scenes[new_scenes.len() - 1].end_frame
        };
        let distance = scene.end_frame - scene.start_frame;
        let size = effective_split_size_of(&scene, split_size);
        let pieces: u128 = if distance > size {
            (distance / size) as u128 + 1
        } else {
            1
        };
        let ghost k = pieces as int;
        proof {
            lemma_piece_fits(distance as int, size as int);
            assert(k == piece_count(distance as int, size as int));
            if distance > size {
                assert(distance / size <= distance) by (nonlinear_arith)
                    requires distance >= 0, size >= 1;
            }
        }
        let mut n: u128 = 0;
        while n < pieces
            invariant
                0 <= n <= pieces,
                k == pieces as int,
                k >= 1,
                pieces <= distance + 1,
                distance == scene.end_frame - scene.start_frame,
                scene.start_frame <= scene.end_frame,
                new_scenes@ == before + Seq::new(n as nat, |j: int| piece(scene, first_start as int, k, j)),
            decreases pieces - n,
        {
            proof {
                lemma_boundaries(distance as int, k, n as int);
                assert((distance as int) * (n + 1) <= (distance as int) * (distance + 1)) by (nonlinear_arith)
                    requires n + 1 <= distance + 1, distance >= 0;
                assert((distance as int) * (distance + 1) <= 0xffff_ffff_ffff_ffff * 0x1_0000_0000_0000_0000int) by (nonlinear_arith)
                    requires distance <= 0xffff_ffff_ffff_ffff;
                assert((distance as int) * n <= (distance as int) * (n + 1)) by (nonlinear_arith)
                    requires n >= 0, distance >= 0;
            }
            let d: u128 = distance as u128;
            let start: usize = if n == 0 {
                first_start
            } else {
                let q: u128 = d * n / pieces;
                scene.start_frame + q as usize
            };
            let q_end: u128 = d * (n + 1) / pieces;
            let end: usize = scene.start_frame + q_end as usize;
            new_scenes.push(Scene { start_frame: start, end_frame: end, zone_overrides: scene.zone_overrides });
            proof {
                assert(new_scenes@ =~= before + Seq::new((n + 1) as nat, |j: int| piece(scene, first_start as int, k, j)));
            }
            n = n + 1;
        }
        proof {
            assert(new_scenes@ =~= before + scene_pieces(scene, first_start as int, split_size));
        }
        i = i + 1;
    }
    assert(scenes@.take(scenes@.len() as int) =~= scenes@);
    new_scenes
}

/// A check that must pass before zones with target quality can be encoded:
/// the tool that computes their metric must be available.
#[derive(Debug, Clone, Copy, PartialEq, Eq, Structural)]
pub enum MetricCheck {
    Vmaf,
    Ssimulacra2,
    ButteraugliInf,
    Butteraugli3,
    /// XPSNR through VapourSynth (probing rate above one).
    XpsnrVapourSynth,
    /// XPSNR through FFmpeg (probing rate one).
    XpsnrFfmpeg,
}

/// A zone aims at a target quality that needs `check`.
pub open spec fn zone_needs(zone: Scene, check: MetricCheck) -> bool {
    match zone.zone_overrides {
        Some(ovr) => match ovr.target_quality {
            Some(tq) => tq.has_target && match check {
                MetricCheck::Vmaf => tq.metric == TargetMetric::VMAF,
                MetricCheck::Ssimulacra2 => tq.metric == TargetMetric::SSIMULACRA2,
                MetricCheck::ButteraugliInf => tq.metric == TargetMetric::ButteraugliINF,
                MetricCheck::Butteraugli3 => tq.metric == TargetMetric::Butteraugli3,
                MetricCheck::XpsnrVapourSynth => (tq.metric == TargetMetric::XPSNR || tq.metric
                    == TargetMetric::XPSNRWeighted) && tq.probing_rate > 1,
                MetricCheck::XpsnrFfmpeg => (tq.metric == TargetMetric::XPSNR || tq.metric
                    == TargetMetric::XPSNRWeighted) && tq.probing_rate == 1,
            },
            None => false,
        },
        None => false,
    }
}

/// Some zone needs `check`.
pub open spec fn zones_need(zones: Seq<Scene>, check: MetricCheck) -> bool {
    exists|i: int| 0 <= i < zones.len() && zone_needs(zones[i], check)
}

/// The checks in the order they are made.
pub open spec fn all_checks() -> Seq<MetricCheck> {
    seq![
        MetricCheck::Vmaf,
        MetricCheck::Ssimulacra2,
        MetricCheck::ButteraugliInf,
        MetricCheck::Butteraugli3,
        MetricCheck::XpsnrVapourSynth,
        MetricCheck::XpsnrFfmpeg,
    ]
}

/// The checks that the zones need, in order.
pub open spec fn spec_needed_checks(zones: Seq<Scene>, upto: int) -> Seq<MetricCheck>
    decreases upto,
{
    if upto <= 0 {
        seq![]
    } else {
        let rest = spec_needed_checks(zones, upto - 1);
        if zones_need(zones, all_checks()[upto - 1]) {
            rest.push(all_checks()[upto - 1])
        } else {
            rest
        }
    }
}

/// The zone aims at a target quality measured with `metric`, probing
/// `probing_rate`-th frames.
pub open spec fn aims_at(zone: Scene, metric: TargetMetric) -> bool {
    zone.zone_overrides matches Some(ovr) && (ovr.target_quality matches Some(tq) && tq.has_target && tq.metric
        == metric)
}

/// The zone aims at an XPSNR target (plain or weighted) with a probing
/// rate above one (`above_one`) or of exactly one (otherwise).
pub open spec fn aims_at_xpsnr(zone: Scene, above_one: bool) -> bool {
    zone.zone_overrides matches Some(ovr) && (ovr.target_quality matches Some(tq) && tq.has_target && (tq.metric
        == TargetMetric::XPSNR || tq.metric == TargetMetric::XPSNRWeighted) && (if above_one {
        tq.probing_rate > 1
    } else {
        tq.probing_rate == 1
    }))
}

proof fn lemma_needed_checks_contains(zones: Seq<Scene>, upto: int, c: MetricCheck)
    requires
        0 <= upto <= 6,
    ensures
        spec_needed_checks(zones, upto).contains(c) <==> exists|j: int|
            0 <= j < upto && all_checks()[j] == c && zones_need(zones, c),
    decreases upto,
{
    if upto > 0 {
        lemma_needed_checks_contains(zones, upto - 1, c);
        let rest = spec_needed_checks(zones, upto - 1);
        if zones_need(zones, all_checks()[upto - 1]) {
            let x = all_checks()[upto - 1];
            let p = rest.push(x);
            assert(p.contains(c) <==> (rest.contains(c) || x == c)) by {
                if p.contains(c) {
                    let k = choose|k: int| 0 <= k < p.len() && #[trigger] p[k] == c;
                    if k < rest.len() {
                        assert(rest[k] == c);
                    }
                }
                if rest.contains(c) {
                    let k = choose|k: int| 0 <= k < rest.len() && #[trigger] rest[k] == c;
                    assert(p[k] == c);
                }
                if x == c {
                    assert(p[rest.len() as int] == c);
                }
            }
        }
        if exists|j: int| 0 <= j < upto && all_checks()[j] == c && zones_need(zones, c) {
            let j = choose|j: int| 0 <= j < upto && all_checks()[j] == c && zones_need(zones, c);
            if j < upto - 1 {
                assert(exists|j: int| 0 <= j < upto - 1 && all_checks()[j] == c && zones_need(zones, c));
            }
        }
    }
}

/// Each tool check is asked for exactly when some zone aims at a target
/// with its metric: VMAF for VMAF, SSIMULACRA2 for SSIMULACRA2, the
/// Butteraugli infinity norm for ButteraugliINF, the Butteraugli 3-norm for
/// Butteraugli3, and XPSNR (plain or weighted) through VapourSynth with a
/// probing rate above one or through FFmpeg with a probing rate of one.
pub proof fn lemma_checks_follow_metrics(zones: Seq<Scene>)
    ensures
        spec_needed_checks(zones, 6).contains(MetricCheck::Vmaf) <==> exists|i: int|
            0 <= i < zones.len() && aims_at(#[trigger] zones[i], TargetMetric::VMAF),
        spec_needed_checks(zones, 6).contains(MetricCheck::Ssimulacra2) <==> exists|i: int|
            0 <= i < zones.len() && aims_at(#[trigger] zones[i], TargetMetric::SSIMULACRA2),
        spec_needed_checks(zones, 6).contains(MetricCheck::ButteraugliInf) <==> exists|i: int|
            0 <= i < zones.len() && aims_at(#[trigger] zones[i], TargetMetric::ButteraugliINF),
        spec_needed_checks(zones, 6).contains(MetricCheck::Butteraugli3) <==> exists|i: int|
            0 <= i < zones.len() && aims_at(#[trigger] zones[i], TargetMetric::Butteraugli3),
        spec_needed_checks(zones, 6).contains(MetricCheck::XpsnrVapourSynth) <==> exists|i: int|
            0 <= i < zones.len() && aims_at_xpsnr(#[trigger] zones[i], true),
        spec_needed_checks(zones, 6).contains(MetricCheck::XpsnrFfmpeg) <==> exists|i: int|
            0 <= i < zones.len() && aims_at_xpsnr(#[trigger] zones[i], false),
{
    lemma_needed_checks_contains(zones, 6, MetricCheck::Vmaf);
    lemma_needed_checks_contains(zones, 6, MetricCheck::Ssimulacra2);
    lemma_needed_checks_contains(zones, 6, MetricCheck::ButteraugliInf);
    lemma_needed_checks_contains(zones, 6, MetricCheck::Butteraugli3);
    lemma_needed_checks_contains(zones, 6, MetricCheck::XpsnrVapourSynth);
    lemma_needed_checks_contains(zones, 6, MetricCheck::XpsnrFfmpeg);
    assert(all_checks()[0] == MetricCheck::Vmaf);
    assert(all_checks()[1] == MetricCheck::Ssimulacra2);
    assert(all_checks()[2] == MetricCheck::ButteraugliInf);
    assert(all_checks()[3] == MetricCheck::Butteraugli3);
    assert(all_checks()[4] == MetricCheck::XpsnrVapourSynth);
    assert(all_checks()[5] == MetricCheck::XpsnrFfmpeg);
    assert forall|i: int| 0 <= i < zones.len() implies (zone_needs(zones[i], MetricCheck::Vmaf) == aims_at(
        #[trigger] zones[i],
        TargetMetric::VMAF,
    ) && zone_needs(zones[i], MetricCheck::Ssimulacra2) == aims_at(zones[i], TargetMetric::SSIMULACRA2)
        && zone_needs(zones[i], MetricCheck::ButteraugliInf) == aims_at(zones[i], TargetMetric::ButteraugliINF)
        && zone_needs(zones[i], MetricCheck::Butteraugli3) == aims_at(zones[i], TargetMetric::Butteraugli3)
        && zone_needs(zones[i], MetricCheck::XpsnrVapourSynth) == aims_at_xpsnr(zones[i], true) && zone_needs(
        zones[i],
        MetricCheck::XpsnrFfmpeg,
    ) == aims_at_xpsnr(zones[i], false)) by {}
}

fn zone_needs_check(zone: &Scene, check: MetricCheck) -> (r: bool)
    ensures
        r == zone_needs(*zone, check),
{
    match zone.zone_overrides {
        Some(ovr) => match ovr.target_quality {
            Some(tq) => tq.has_target && match check {
                MetricCheck::Vmaf => tq.metric == TargetMetric::VMAF,
                MetricCheck::Ssimulacra2 => tq.metric == TargetMetric::SSIMULACRA2,
                MetricCheck::ButteraugliInf => tq.metric == TargetMetric::ButteraugliINF,
                MetricCheck::Butteraugli3 => tq.metric == TargetMetric::Butteraugli3,
                MetricCheck::XpsnrVapourSynth => (tq.metric == TargetMetric::XPSNR || tq.metric
                    == TargetMetric::XPSNRWeighted) && tq.probing_rate > 1,
                MetricCheck::XpsnrFfmpeg => (tq.metric == TargetMetric::XPSNR || tq.metric
                    == TargetMetric::XPSNRWeighted) && tq.probing_rate == 1,
            },
            None => false,
        },
        None => false,
    }
}

fn any_zone_needs(zones: &Vec<Scene>, check: MetricCheck) -> (r: bool)
    ensures
        r == zones_need(zones@, check),
{
    let mut i: usize = 0;
    while i < zones.len()
        invariant
            i <= zones@.len(),
            forall|j: int| 0 <= j < i ==> !zone_needs(#[trigger] zones@[j], check),
        decreases zones.len() - i,
    {
        if zone_needs_check(&zones[i], check) {
            return true;
        }
        i = i + 1;
    }
    false
}

/// The tool checks that the zones need before encoding, in order: VMAF,
/// SSIMULACRA2, Butteraugli (infinity norm), Butteraugli (3-norm), XPSNR
/// through VapourSynth, XPSNR through FFmpeg; each when some zone aims at a
/// target with that metric (and, for XPSNR, the matching probing rate).
pub fn validate_zones(zones: &Vec<Scene>) -> (r: Vec<MetricCheck>)
    ensures
        r@ == spec_needed_checks(zones@, 6),
        r@.contains(MetricCheck::ButteraugliInf) <==> exists|i: int|
            0 <= i < zones@.len() && aims_at(#[trigger] zones@[i], TargetMetric::ButteraugliINF),
        r@.contains(MetricCheck::Butteraugli3) <==> exists|i: int|
            0 <= i < zones@.len() && aims_at(#[trigger] zones@[i], TargetMetric::Butteraugli3),
        r@.contains(MetricCheck::Vmaf) <==> exists|i: int|
            0 <= i < zones@.len() && aims_at(#[trigger] zones@[i], TargetMetric::VMAF),
        r@.contains(MetricCheck::Ssimulacra2) <==> exists|i: int|
            0 <= i < zones@.len() && aims_at(#[trigger] zones@[i], TargetMetric::SSIMULACRA2),
{
    proof {
        lemma_checks_follow_metrics(zones@);
    }
    let checks: [MetricCheck; 6] = [
        MetricCheck::Vmaf,
        MetricCheck::Ssimulacra2,
        MetricCheck::ButteraugliInf,
        MetricCheck::Butteraugli3,
        MetricCheck::XpsnrVapourSynth,
        MetricCheck::XpsnrFfmpeg,
    ];
    assert(checks@ =~= all_checks());
    let mut r: Vec<MetricCheck> = Vec::new();
    let mut k: usize = 0;
    while k < 6
        invariant
            k <= 6,
            checks@ == all_checks(),
            r@ == spec_needed_checks(zones@, k as int),
        decreases 6 - k,
    {
        let check = checks[k];
        if any_zone_needs(zones, check) {
            r.push(check);
        }
        k = k + 1;
    }
    r
}

/// Zones in order of their first frame.
pub open spec fn sorted_by_start(zones: Seq<Scene>) -> bool {
    forall|i: int, j: int| 0 <= i < j < zones.len() ==> zones[i].start_frame <= zones[j].start_frame
}

/// Zone `k` reaches past the start of the next one.
pub open spec fn overlaps_next(zones: Seq<Scene>, k: int) -> bool {
    0 <= k < zones.len() - 1 && zones[k].end_frame > zones[k + 1].start_frame
}

/// Zones in a zones file overlap.
#[derive(Debug, Clone, Copy, PartialEq, Eq, Structural)]
pub enum ZoneError {
    OverlappingZones,
}

/// The zones in order of their first frame, or an error when, in that
/// order, a zone reaches past the start of the next one. Of zones that start
/// on the same frame, no order is promised.
pub fn sort_zones(zones: Vec<Scene>) -> (r: Result<Vec<Scene>, ZoneError>)
    requires
        zones@.len() > 0,
    ensures
        match r {
            Ok(v) => {
                &&& v@.to_multiset() == zones@.to_multiset()
                &&& sorted_by_start(v@)
                &&& forall|k: int| !overlaps_next(v@, k)
            },
            Err(_) => exists|s: Seq<Scene>|
                s.to_multiset() == zones@.to_multiset() && sorted_by_start(s) && exists|k: int| overlaps_next(s, k),
        },
{
    broadcast use vstd::seq_lib::to_multiset_insert;

    let mut sorted: Vec<Scene> = Vec::new();
    proof {
        assert(sorted@ =~= zones@.take(0));
    }
    let mut i: usize = 0;
    while i < zones.len()
        invariant
            i <= zones@.len(),
            sorted_by_start(sorted@),
            sorted@.to_multiset() == zones@.take(i as int).to_multiset(),
        decreases zones.len() - i,
    {
        let z = zones[i];
        let mut p: usize = 0;
        while p < sorted.len() && sorted[p].start_frame <= z.start_frame
            invariant
                p <= sorted@.len(),
                forall|j: int| 0 <= j < p ==> #[trigger] sorted@[j].start_frame <= z.start_frame,
            decreases sorted.len() - p,
        {
            p = p + 1;
        }
        let ghost before = sorted@;
        sorted.insert(p, z);
        proof {
            assert(sorted@ == before.insert(p as int, z));
            assert(zones@.take(i + 1) =~= zones@.take(i as int).push(z));
            vstd::seq_lib::to_multiset_build(zones@.take(i as int), z);
            vstd::seq_lib::to_multiset_insert(before, p as int, z);
            assert forall|a: int, b: int| 0 <= a < b < sorted@.len() implies sorted@[a].start_frame
                <= sorted@[b].start_frame by {
                if b < p {
                    assert(sorted@[a] == before[a] && sorted@[b] == before[b]);
                } else if b == p {
                    assert(sorted@[a] == before[a]);
                } else if a > p {
                    assert(sorted@[a] == before[a - 1] && sorted@[b] == before[b - 1]);
                } else if a == p {
                    assert(sorted@[b] == before[b - 1]);
                    assert(before[p as int].start_frame > z.start_frame);
                    assert(before[p as int].start_frame <= before[b - 1].start_frame);
                } else {
                    assert(sorted@[a] == before[a] && sorted@[b] == before[b - 1]);
                    assert(before[a].start_frame <= z.start_frame);
                    assert(before[p as int].start_frame > z.start_frame);
                    assert(before[p as int].start_frame <= before[b - 1].start_frame);
                }
            }
        }
        i = i + 1;
    }
    assert(zones@.take(zones@.len() as int) =~= zones@);
    proof {
        vstd::seq_lib::to_multiset_len(sorted@);
        vstd::seq_lib::to_multiset_len(zones@);
    }
    let mut k: usize = 0;
    while k + 1 < sorted.len()
        invariant
            sorted@.to_multiset() == zones@.to_multiset(),
            sorted_by_start(sorted@),
            sorted@.len() == zones@.len(),
            sorted@.len() > 0,
            k < sorted@.len(),
            forall|j: int| 0 <= j < k ==> !overlaps_next(sorted@, j),
        decreases sorted.len() - k,
    {
        if sorted[k].end_frame > sorted[k + 1].start_frame {
            assert(overlaps_next(sorted@, k as int));
            return Err(ZoneError::OverlappingZones);
        }
        k = k + 1;
    }
    assert forall|j: int| !overlaps_next(sorted@, j) by {
        if 0 <= j < sorted@.len() - 1 {
            assert(j < k);
        }
    }
    Ok(sorted)
}

/// No scene is longer than its split size.
pub open spec fn none_too_long(scenes: Seq<Scene>, split_size: usize) -> bool {
    forall|i: int|
        0 <= i < scenes.len() ==> #[trigger] scenes[i].end_frame - scenes[i].start_frame <= effective_split_size(
            scenes[i],
            split_size,
        )
}

/// The scenes, each starting where the previous one ended (the first where
/// it starts). Choosing where to cut a scene longer than its split size by
/// scene-change scores is not defined, so no scene may be that long.
fn enhanced_extra_splits(scenes: &Vec<Scene>, split_size: usize) -> (r: Vec<Scene>)
    requires
        splittable(scenes@, split_size),
        none_too_long(scenes@, split_size),
    ensures
        r@ == spec_extra_splits(scenes@, split_size),
{
    let mut new_scenes: Vec<Scene> = Vec::new();
    let mut i: usize = 0;
    while i < scenes.len()
        invariant
            i <= scenes@.len(),
            splittable(scenes@, split_size),
            none_too_long(scenes@, split_size),
            new_scenes@ == spec_extra_splits(scenes@.take(i as int), split_size),
        decreases scenes.len() - i,
    {
        let scene = scenes[i];
        proof {
            assert(scenes@.take(i + 1).drop_last() =~= scenes@.take(i as int));
            assert(scenes@.take(i + 1).last() == scene);
            assert(scenes@[i as int] == scene);
        }
        let start: usize = if new_scenes.len() == 0 {
            scene.start_frame
        } else {
            new_scenes[new_scenes.len() - 1].end_frame
        };
        let ghost before = new_scenes@;
        new_scenes.push(Scene { start_frame: start, end_frame: scene.end_frame, zone_overrides: scene.zone_overrides });
        proof {
            let distance = scene.end_frame - scene.start_frame;
            let size = effective_split_size(scene, split_size);
            assert(distance <= size);
            assert(piece_count(distance, size) == 1);
            assert(distance * (0 + 1) / 1 == distance) by (nonlinear_arith);
            assert(scene_pieces(scene, start as int, split_size) =~= seq![
                Scene { start_frame: start, end_frame: scene.end_frame, zone_overrides: scene.zone_overrides },
            ]);
            assert(new_scenes@ =~= before + scene_pieces(scene, start as int, split_size));
        }
        i = i + 1;
    }
    assert(scenes@.take(scenes@.len() as int) =~= scenes@);
    new_scenes
}

/// Cuts scenes longer than their split size: evenly when there are no
/// scene-change scores (`scored_frames`, the frames that have a score, is
/// empty). With scores, the choice of where to cut is not defined, so no
/// scene may then be longer than its split size; the scenes are only
/// chained.
pub fn extra_splits(scenes: &Vec<Scene>, split_size: usize, scored_frames: &Vec<usize>) -> (r: Vec<Scene>)
    requires
        splittable(scenes@, split_size),
        scored_frames@.len() > 0 ==> none_too_long(scenes@, split_size),
    ensures
        r@ == spec_extra_splits(scenes@, split_size),
{
    if scored_frames.len() == 0 {
        simple_extra_splits(scenes, split_size)
    } else {
        enhanced_extra_splits(scenes, split_size)
    }
}

} // verus!
