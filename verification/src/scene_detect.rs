//! Scene detection through zones: the video is read in rounds, one for each
//! zone and one for each stretch between zones, so that every scene keeps
//! the settings of its zone and no scene crosses a zone border. Each round
//! asks the scene detector for the scene changes of a number of frames (or
//! of the rest of the video) and turns them into scenes.

use vstd::prelude::*;
use crate::scenes::{Scene, ZoneOptions, contiguous, well_ordered};

verus! {

/// Where a detection through zones stands: the zone being read (by its
/// position in the zone list), the next zone to reach, and the frames read
/// so far.
#[derive(Debug, Clone, Copy, PartialEq, Eq, Structural)]
pub struct SceneDetectProgress {
    pub current_zone: Option<usize>,
    pub next_zone: Option<usize>,
    pub frames_read: usize,
}

/// Why a round of detection is refused.
#[derive(Debug, Clone, Copy, PartialEq, Eq, Structural)]
pub enum SceneDetectError {
    /// The detector saw another number of frames than it was asked to read
    /// (asked, seen).
    FrameCountMismatch(usize, usize),
}

/// The progress before the first round: inside the first zone when it
/// starts at frame 0, with the zone after it next; otherwise before the
/// first zone.
pub open spec fn spec_start(zones: Seq<Scene>) -> SceneDetectProgress {
    let in_first = zones.len() > 0 && zones[0].start_frame == 0;
    SceneDetectProgress {
        current_zone: if in_first {
            Some(0usize)
        } else {
            None
        },
        next_zone: if zones.len() == 0 {
            None
        } else if in_first {
            if zones.len() == 1 {
                None
            } else {
                Some(1usize)
            }
        } else {
            Some(0usize)
        },
        frames_read: 0,
    }
}

/// The zone positions of the progress lie in the zone list.
pub open spec fn progress_in_range(p: SceneDetectProgress, zones: Seq<Scene>) -> bool {
    &&& p.current_zone matches Some(i) ==> i < zones.len()
    &&& p.next_zone matches Some(j) ==> j < zones.len()
}

/// The shortest scene of the round: the current zone's own, when it sets
/// one, `min_scene_len` otherwise.
pub open spec fn round_min_scene_len(p: SceneDetectProgress, zones: Seq<Scene>, min_scene_len: usize) -> usize {
    match p.current_zone {
        Some(i) => match zones[i as int].zone_overrides {
            Some(o) => o.min_scene_len,
            None => min_scene_len,
        },
        None => min_scene_len,
    }
}

/// How many frames the round reads: the length of the current zone, else
/// the frames up to the next zone, else all that are left (`None`).
pub open spec fn round_limit(p: SceneDetectProgress, zones: Seq<Scene>) -> Option<int> {
    match p.current_zone {
        Some(i) => Some(zones[i as int].end_frame - zones[i as int].start_frame),
        None => match p.next_zone {
            Some(j) => Some(zones[j as int].start_frame - p.frames_read),
            None => None,
        },
    }
}

/// The round's frame count is not negative: the current zone does not end
/// before it starts, and the next zone does not start before the frames
/// read.
pub open spec fn limit_defined(p: SceneDetectProgress, zones: Seq<Scene>) -> bool {
    match p.current_zone {
        Some(i) => zones[i as int].start_frame <= zones[i as int].end_frame,
        None => match p.next_zone {
            Some(j) => p.frames_read <= zones[j as int].start_frame,
            None => true,
        },
    }
}

/// The zone settings of the round's scenes: the current zone's, if any.
pub open spec fn round_overrides(p: SceneDetectProgress, zones: Seq<Scene>) -> Option<ZoneOptions> {
    match p.current_zone {
        Some(i) => zones[i as int].zone_overrides,
        None => None,
    }
}

/// The frame the round ends at: the frames read plus the round's frame
/// count, or the end of the video.
pub open spec fn round_end(p: SceneDetectProgress, zones: Seq<Scene>, total_frames: usize) -> int {
    match round_limit(p, zones) {
        Some(l) => p.frames_read + l,
        None => total_frames as int,
    }
}

/// The scenes between consecutive scene changes, moved by `offset` frames.
pub open spec fn window_scenes(changes: Seq<usize>, offset: int, overrides: Option<ZoneOptions>) -> Seq<Scene> {
    Seq::new(
        if changes.len() > 0 {
            (changes.len() - 1) as nat
        } else {
            0
        },
        |i: int|
            Scene {
                start_frame: (changes[i] + offset) as usize,
                end_frame: (changes[i + 1] + offset) as usize,
                zone_overrides: overrides,
            },
    )
}

/// The scenes a round adds: one between each two consecutive scene changes
/// (counted from the frames read), then one from the end of the last scene
/// (frame 0 when there is none) to the end of the round, all with the
/// round's zone settings.
pub open spec fn round_scenes(
    p: SceneDetectProgress,
    zones: Seq<Scene>,
    total_frames: usize,
    changes: Seq<usize>,
    previous: Seq<Scene>,
) -> Seq<Scene> {
    let overrides = round_overrides(p, zones);
    let windows = window_scenes(changes, p.frames_read as int, overrides);
    let before = previous + windows;
    windows.push(
        Scene {
            start_frame: if before.len() > 0 {
                before.last().end_frame
            } else {
                0
            },
            end_frame: round_end(p, zones, total_frames) as usize,
            zone_overrides: overrides,
        },
    )
}

/// The progress after a round, and whether the detection is over. The
/// frames read advance by the round's frame count. Having reached the next
/// zone (or leaving a zone that the next one follows directly), the next
/// zone becomes current; otherwise the stretch up to it is read next. With
/// no zone left, the detection is over once the video's end is reached.
pub open spec fn spec_advance(p: SceneDetectProgress, zones: Seq<Scene>, total_frames: usize) -> (
    SceneDetectProgress,
    bool,
) {
    let frames_read = match round_limit(p, zones) {
        Some(l) => (p.frames_read + l) as usize,
        None => p.frames_read,
    };
    let at_current_end = |end: usize|
        match p.current_zone {
            Some(i) => zones[i as int].end_frame == end,
            None => true,
        };
    match p.next_zone {
        Some(j) => if at_current_end(zones[j as int].start_frame) {
            (
                SceneDetectProgress {
                    current_zone: Some(j),
                    next_zone: if j + 1 == zones.len() {
                        None
                    } else {
                        Some((j + 1) as usize)
                    },
                    frames_read,
                },
                false,
            )
        } else {
            (SceneDetectProgress { current_zone: None, next_zone: Some(j), frames_read }, false)
        },
        None => if at_current_end(total_frames) {
            (SceneDetectProgress { current_zone: p.current_zone, next_zone: None, frames_read }, true)
        } else {
            (SceneDetectProgress { current_zone: None, next_zone: None, frames_read }, false)
        },
    }
}

impl SceneDetectProgress {
    /// The progress before the first round.
    pub fn start(zones: &Vec<Scene>) -> (r: Self)
        ensures
            r == spec_start(zones@),
            progress_in_range(r, zones@),
    {
        let in_first = zones.len() > 0 && zones[0].start_frame == 0;
        let next_zone = if zones.len() == 0 {
            None
        } else if in_first {
            if zones.len() == 1 {
                None
            } else {
                Some(1)
            }
        } else {
            Some(0)
        };
        SceneDetectProgress { current_zone: if in_first { Some(0) } else { None }, next_zone, frames_read: 0 }
    }

    /// What the next round asks of the scene detector: the shortest scene,
    /// and how many frames to read (`None`: the rest of the video).
    pub fn next_detection(&self, zones: &Vec<Scene>, min_scene_len: usize) -> (r: (usize, Option<usize>))
        requires
            progress_in_range(*self, zones@),
            limit_defined(*self, zones@),
        ensures
            r.0 == round_min_scene_len(*self, zones@, min_scene_len),
            match round_limit(*self, zones@) {
                Some(l) => r.1 == Some(l as usize),
                None => r.1 is None,
            },
    {
        let min = match self.current_zone {
            Some(i) => match zones[i].zone_overrides {
                Some(o) => o.min_scene_len,
                None => min_scene_len,
            },
            None => min_scene_len,
        };
        (min, self.frame_limit(zones))
    }

    /// How many frames the round reads.
    fn frame_limit(&self, zones: &Vec<Scene>) -> (r: Option<usize>)
        requires
            progress_in_range(*self, zones@),
            limit_defined(*self, zones@),
        ensures
            match round_limit(*self, zones@) {
                Some(l) => r == Some(l as usize),
                None => r is None,
            },
    {
        match self.current_zone {
            Some(i) => Some(zones[i].end_frame - zones[i].start_frame),
            None => match self.next_zone {
                Some(j) => Some(zones[j].start_frame - self.frames_read),
                None => None,
            },
        }
    }

    /// Records a round: the detector read `frame_count` frames and found
    /// `scene_changes`, frame numbers counted from the start of the round.
    /// When it read another number of frames than the round asked for,
    /// nothing changes and the mismatch is reported. Otherwise the round's
    /// scenes are appended to `scenes` (the scenes found so far), the
    /// progress advances, and the result tells whether the detection is
    /// over.
    pub fn record(
        &mut self,
        zones: &Vec<Scene>,
        total_frames: usize,
        frame_count: usize,
        scene_changes: &Vec<usize>,
        scenes: &mut Vec<Scene>,
    ) -> (r: Result<bool, SceneDetectError>)
        requires
            progress_in_range(*old(self), zones@),
            limit_defined(*old(self), zones@),
            round_end(*old(self), zones@, total_frames) <= usize::MAX,
            forall|i: int|
                0 <= i < scene_changes@.len() ==> old(self).frames_read + #[trigger] scene_changes@[i] <= usize::MAX,
        ensures
            match round_limit(*old(self), zones@) {
                Some(l) if l != frame_count => {
                    &&& r == Err::<bool, SceneDetectError>(SceneDetectError::FrameCountMismatch(l as usize, frame_count))
                    &&& *final(self) == *old(self)
                    &&& final(scenes)@ == old(scenes)@
                },
                _ => {
                    &&& final(scenes)@ == old(scenes)@ + round_scenes(
                        *old(self),
                        zones@,
                        total_frames,
                        scene_changes@,
                        old(scenes)@,
                    )
                    &&& *final(self) == spec_advance(*old(self), zones@, total_frames).0
                    &&& r == Ok::<bool, SceneDetectError>(spec_advance(*old(self), zones@, total_frames).1)
                    &&& progress_in_range(*final(self), zones@)
                },
            },
    {
        let limit = self.frame_limit(zones);
        let current = self.current_zone;
        let next = self.next_zone;
        if let Some(l) = limit {
            if l != frame_count {
                return Err(SceneDetectError::FrameCountMismatch(l, frame_count));
            }
        }
        let overrides = match self.current_zone {
            Some(i) => zones[i].zone_overrides,
            None => None,
        };
        let offset = self.frames_read;
        let ghost previous = scenes@;
        let ghost windows = window_scenes(scene_changes@, offset as int, overrides);
        let n = scene_changes.len();
        let mut k: usize = 1;
        while k < n
            invariant
                1 <= k <= n || n == 0,
                n == scene_changes@.len(),
                offset == old(self).frames_read,
                windows == window_scenes(scene_changes@, offset as int, overrides),
                forall|i: int| 0 <= i < n ==> offset + #[trigger] scene_changes@[i] <= usize::MAX,
                scenes@ == previous + windows.take(if n == 0 { 0int } else { k - 1 }),
            decreases n - k,
        {
            scenes.push(
                Scene {
                    start_frame: scene_changes[k - 1] + offset,
                    end_frame: scene_changes[k] + offset,
                    zone_overrides: overrides,
                },
            );
            assert(windows.take(k as int) =~= windows.take(k - 1).push(windows[k - 1]));
            k = k + 1;
        }
        assert(windows.take(windows.len() as int) =~= windows);
        assert(scenes@ =~= previous + windows);
        let start = if scenes.len() > 0 {
            scenes[scenes.len() - 1].end_frame
        } else {
            0
        };
        let end = match limit {
            Some(l) => offset + l,
            None => total_frames,
        };
        scenes.push(Scene { start_frame: start, end_frame: end, zone_overrides: overrides });
        assert(scenes@ =~= previous + round_scenes(*old(self), zones@, total_frames, scene_changes@, previous));
        self.frames_read = match limit {
            Some(l) => offset + l,
            None => offset,
        };
        match next {
            Some(j) => {
                let zone_count = zones.len();
                assert(j < zone_count);
                let reached = match current {
                    Some(i) => zones[i].end_frame == zones[j].start_frame,
                    None => true,
                };
                if reached {
                    self.current_zone = Some(j);
                    self.next_zone = if j + 1 == zone_count {
                        None
                    } else {
                        Some(j + 1)
                    };
                } else {
                    self.current_zone = None;
                }
                Ok(false)
            },
            None => {
                let over = match current {
                    Some(i) => zones[i].end_frame == total_frames,
                    None => true,
                };
                if over {
                    Ok(true)
                } else {
                    self.current_zone = None;
                    Ok(false)
                }
            },
        }
    }
}

/// Zones fit the video: each starts no later than it ends and ends within
/// the video, and each ends no later than any later one starts.
pub open spec fn zones_fit(zones: Seq<Scene>, total_frames: usize) -> bool {
    &&& forall|i: int|
        0 <= i < zones.len() ==> #[trigger] zones[i].start_frame <= zones[i].end_frame && zones[i].end_frame
            <= total_frames
    &&& forall|i: int, j: int| 0 <= i < j < zones.len() ==> #[trigger] zones[i].end_frame <= #[trigger] zones[j].start_frame
}

/// What holds between rounds: the scenes found so far follow each other
/// from frame 0 to the frames read, the current zone starts there, and the
/// next zone lies ahead of it (after the current one).
pub open spec fn walk_invariant(p: SceneDetectProgress, zones: Seq<Scene>, total_frames: usize, scenes: Seq<Scene>) -> bool {
    &&& progress_in_range(p, zones)
    &&& contiguous(scenes)
    &&& well_ordered(scenes)
    &&& if scenes.len() > 0 {
        scenes[0].start_frame == 0 && scenes.last().end_frame == p.frames_read
    } else {
        p.frames_read == 0
    }
    &&& p.frames_read <= total_frames
    &&& p.current_zone matches Some(i) ==> zones[i as int].start_frame == p.frames_read
    &&& p.next_zone matches Some(j) ==> p.frames_read <= zones[j as int].start_frame && (p.current_zone matches Some(
        i,
    ) ==> i < j)
}

/// The frames a round covers.
pub open spec fn round_span(p: SceneDetectProgress, zones: Seq<Scene>, total_frames: usize) -> int {
    round_end(p, zones, total_frames) - p.frames_read
}

/// Scene changes that a detector may report for `span` frames: in order,
/// within those frames, and starting at frame 0 when there are two or more.
pub open spec fn changes_fit(changes: Seq<usize>, span: int) -> bool {
    &&& changes.len() >= 2 ==> changes[0] == 0
    &&& forall|i: int, j: int| 0 <= i < j < changes.len() ==> changes[i] <= changes[j]
    &&& forall|i: int| 0 <= i < changes.len() ==> #[trigger] changes[i] <= span
}

/// How far the detection is from its end: two steps for each zone not yet
/// reached, and one more while reading a stretch outside zones, two more
/// while reading a zone.
pub open spec fn remaining_rounds(p: SceneDetectProgress, zones: Seq<Scene>) -> int {
    2 * (zones.len() - match p.next_zone {
        Some(j) => j as int,
        None => zones.len() as int,
    }) + if p.current_zone is None {
        1int
    } else {
        2int
    }
}

/// The scenes of a round extend scenes that end at the frames read: they
/// follow each other from there, none ends before it starts, and the last
/// ends at the round's end.
proof fn lemma_round_shape(
    p: SceneDetectProgress,
    zones: Seq<Scene>,
    total_frames: usize,
    changes: Seq<usize>,
    previous: Seq<Scene>,
)
    requires
        contiguous(previous),
        well_ordered(previous),
        if previous.len() > 0 {
            previous[0].start_frame == 0 && previous.last().end_frame == p.frames_read
        } else {
            p.frames_read == 0
        },
        p.frames_read <= round_end(p, zones, total_frames) <= usize::MAX,
        changes_fit(changes, round_span(p, zones, total_frames)),
    ensures
        ({
            let all = previous + round_scenes(p, zones, total_frames, changes, previous);
            &&& contiguous(all)
            &&& well_ordered(all)
            &&& all[0].start_frame == 0
            &&& all.last().end_frame == round_end(p, zones, total_frames)
            &&& all.len() == previous.len() + round_scenes(p, zones, total_frames, changes, previous).len()
        }),
{
    let fr = p.frames_read as int;
    let overrides = round_overrides(p, zones);
    let w = window_scenes(changes, fr, overrides);
    let rs = round_scenes(p, zones, total_frames, changes, previous);
    let all = previous + rs;
    let before = previous + w;
    let end = round_end(p, zones, total_frames);
    assert forall|i: int| 0 <= i < w.len() implies #[trigger] w[i].start_frame == changes[i] + fr
        && w[i].end_frame == changes[i + 1] + fr by {
        assert(changes[i] <= round_span(p, zones, total_frames));
        assert(changes[i + 1] <= round_span(p, zones, total_frames));
    }
    assert(rs.len() == w.len() + 1);
    assert forall|m: int| 0 <= m < w.len() implies #[trigger] rs[m] == w[m] by {}
    let last = rs[w.len() as int];
    assert(last.end_frame == end);
    if w.len() > 0 {
        assert(before.last() == w.last());
        assert(last.start_frame == changes[w.len() as int] + fr);
    } else {
        if previous.len() > 0 {
            assert(before.last() == previous.last());
        }
        assert(last.start_frame == fr);
    }
    assert(last.start_frame <= last.end_frame) by {
        if w.len() > 0 {
            assert(changes[w.len() as int] <= round_span(p, zones, total_frames));
        }
    }
    assert forall|k: int| 0 <= k < all.len() - 1 implies #[trigger] all[k].end_frame == all[k + 1].start_frame by {
        if k < previous.len() - 1 {
            assert(all[k] == previous[k] && all[k + 1] == previous[k + 1]);
        } else if k == previous.len() - 1 {
            assert(all[k] == previous.last());
            assert(all[k + 1] == rs[0]);
            if w.len() > 0 {
                assert(rs[0] == w[0]);
                assert(changes[0] == 0);
            }
        } else {
            let m = k - previous.len();
            assert(all[k] == rs[m] && all[k + 1] == rs[m + 1]);
            if m + 1 < w.len() {
            } else {
                assert(before.last() == w[m]);
            }
        }
    }
    assert forall|k: int| 0 <= k < all.len() implies #[trigger] all[k].start_frame <= all[k].end_frame by {
        if k < previous.len() {
            assert(all[k] == previous[k]);
        } else {
            let m = k - previous.len();
            assert(all[k] == rs[m]);
            if m < w.len() {
                assert(changes[m] <= changes[m + 1]);
            }
        }
    }
    if previous.len() == 0 {
        assert(all[0] == rs[0]);
        if w.len() > 0 {
            assert(changes[0] == 0);
        }
    } else {
        assert(all[0] == previous[0]);
    }
    assert(all.last() == last);
}

/// The detection starts well: before the first round no scene is found,
/// and the first zone read (if any) starts at frame 0.
pub proof fn lemma_start_invariant(zones: Seq<Scene>, total_frames: usize)
    requires
        zones_fit(zones, total_frames),
    ensures
        walk_invariant(spec_start(zones), zones, total_frames, Seq::<Scene>::empty()),
{
}

/// Each round keeps the detection on course, for any scene changes a
/// detector may report: the round can be recorded (its frame count is not
/// negative and no frame number overflows); the scenes found so far still
/// follow each other from frame 0 and none ends before it starts; when the
/// detection is over they end at the video's last frame, and otherwise the
/// invariant holds again and fewer rounds remain.
pub proof fn lemma_round_keeps_invariant(
    p: SceneDetectProgress,
    zones: Seq<Scene>,
    total_frames: usize,
    scenes: Seq<Scene>,
    changes: Seq<usize>,
)
    requires
        zones.len() <= usize::MAX,
        zones_fit(zones, total_frames),
        walk_invariant(p, zones, total_frames, scenes),
        changes_fit(changes, round_span(p, zones, total_frames)),
    ensures
        limit_defined(p, zones),
        round_end(p, zones, total_frames) <= usize::MAX,
        forall|i: int| 0 <= i < changes.len() ==> p.frames_read + #[trigger] changes[i] <= usize::MAX,
        ({
            let all = scenes + round_scenes(p, zones, total_frames, changes, scenes);
            let (next, over) = spec_advance(p, zones, total_frames);
            &&& contiguous(all)
            &&& well_ordered(all)
            &&& all[0].start_frame == 0
            &&& over ==> all.last().end_frame == total_frames
            &&& !over ==> walk_invariant(next, zones, total_frames, all)
            &&& !over ==> 0 <= remaining_rounds(next, zones) < remaining_rounds(p, zones)
        }),
{
    let end = round_end(p, zones, total_frames);
    match p.current_zone {
        Some(i) => {
            assert(zones[i as int].start_frame <= zones[i as int].end_frame);
            assert(zones[i as int].end_frame <= total_frames);
        },
        None => match p.next_zone {
            Some(j) => {
                assert(zones[j as int].start_frame <= zones[j as int].end_frame);
            },
            None => {},
        },
    }
    assert(p.frames_read <= end <= total_frames);
    assert forall|i: int| 0 <= i < changes.len() implies p.frames_read + #[trigger] changes[i] <= usize::MAX by {
        assert(changes[i] <= round_span(p, zones, total_frames));
    }
    lemma_round_shape(p, zones, total_frames, changes, scenes);
    let all = scenes + round_scenes(p, zones, total_frames, changes, scenes);
    let (next, over) = spec_advance(p, zones, total_frames);
    if !over {
        assert(next.frames_read == end);
        match p.next_zone {
            Some(j) => {
                assert(zones[j as int].start_frame <= zones[j as int].end_frame);
                if j + 1 < zones.len() {
                    assert(zones[j as int].end_frame <= zones[j + 1].start_frame);
                }
                match p.current_zone {
                    Some(i) => {
                        assert(zones[i as int].end_frame <= zones[j as int].start_frame);
                    },
                    None => {},
                }
            },
            None => {},
        }
    }
}

} // verus!
