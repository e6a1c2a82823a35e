//! Scene detection: how a video is cut into scenes, either at fixed length
//! or at the scene changes that a detector reports, and how the resulting
//! frame ranges extend the scenes already found.

use vstd::prelude::*;
use crate::input::Input;

verus! {

/// The shortest scene, in frames, that detection produces by default.
pub const DEFAULT_MIN_SCENE_LENGTH_FRAMES: u8 = 24;

/// The default longest scene, in seconds of video.
pub const DEFAULT_MAX_SCENE_LENGTH_SECONDS: u8 = 10;

/// How thoroughly the scene-change detector analyses the video.
#[derive(Debug, Clone, Copy, PartialEq, Eq, Structural)]
pub enum ScenecutMethod {
    Fast,
    Standard,
}

/// How a video is cut into scenes: at fixed length (`NoDetection`), or where the
/// scene-change detector finds a change.
#[derive(Debug, Clone, Copy, PartialEq, Eq, Structural)]
pub enum SceneDetectionMethod {
    NoDetection { minimum_length: usize, maximum_length: usize },
    AVSceneChange { minimum_length: usize, maximum_length: usize, method: ScenecutMethod },
}

/// The default method: the scene-change detector at standard speed, scenes
/// of 24 to 240 frames.
pub open spec fn spec_default_method() -> SceneDetectionMethod {
    SceneDetectionMethod::AVSceneChange {
        minimum_length: 24,
        maximum_length: 240,
        method: ScenecutMethod::Standard,
    }
}

impl Default for SceneDetectionMethod {
    fn default() -> (r: Self)
        ensures
            r == spec_default_method(),
    {
        let min: usize = DEFAULT_MIN_SCENE_LENGTH_FRAMES as usize;
        let seconds: usize = DEFAULT_MAX_SCENE_LENGTH_SECONDS as usize;
        assert(min == 24 && seconds == 10);
        assert(min * seconds == 240) by (nonlinear_arith)
            requires
                min == 24,
                seconds == 10,
        ;
        SceneDetectionMethod::AVSceneChange {
            minimum_length: min,
            maximum_length: min * seconds,
            method: ScenecutMethod::Standard,
        }
    }
}

/// A frame range `start..end`.
pub type FrameRange = (usize, usize);

/// Ranges follow each other without gap or overlap.
pub open spec fn ranges_contiguous(r: Seq<FrameRange>) -> bool {
    forall|i: int| 0 <= i < r.len() - 1 ==> #[trigger] r[i].1 == r[i + 1].0
}

/// The ranges that cut `prev_end..frames` into scenes of `max` frames, the
/// last one possibly shorter: they follow each other without gap, the first
/// starts at `prev_end`, the last ends at `frames`, none is empty, none is
/// longer than `max`, and all but the last are exactly `max` long. Nothing
/// is cut when `prev_end` is not before `frames`.
pub open spec fn is_fixed_length_cut(r: Seq<FrameRange>, prev_end: int, frames: int, max: int) -> bool {
    &&& prev_end >= frames ==> r.len() == 0
    &&& prev_end < frames ==> r.len() > 0 && r[0].0 == prev_end && r.last().1 == frames
    &&& ranges_contiguous(r)
    &&& forall|i: int| 0 <= i < r.len() ==> 0 < #[trigger] r[i].1 - r[i].0 <= max
    &&& forall|i: int| 0 <= i < r.len() - 1 ==> #[trigger] r[i].1 - r[i].0 == max
}

/// Cuts the frames from `prev_end` up to `frames` into scenes of
/// `maximum_length` frames; the last scene takes what is left.
pub fn fixed_length_scenes(prev_end: usize, frames: usize, maximum_length: usize) -> (r: Vec<FrameRange>)
    requires
        prev_end < frames ==> maximum_length > 0,
    ensures
        is_fixed_length_cut(r@, prev_end as int, frames as int, maximum_length as int),
{
    let mut r: Vec<FrameRange> = Vec::new();
    let mut cur: usize = prev_end;
    while cur < frames
        invariant
            prev_end < frames ==> maximum_length > 0,
            prev_end >= frames ==> r@.len() == 0,
            r@.len() == 0 ==> cur == prev_end,
            r@.len() > 0 ==> r@[0].0 == prev_end && r@.last().1 == cur && cur <= frames,
            ranges_contiguous(r@),
            forall|i: int| 0 <= i < r@.len() ==> 0 < #[trigger] r@[i].1 - r@[i].0 <= maximum_length,
            forall|i: int|
                0 <= i < r@.len() ==> #[trigger] r@[i].1 - r@[i].0 == maximum_length || r@[i].1 == frames,
        decreases frames - cur,
    {
        let end: usize = if frames - cur > maximum_length {
            cur + maximum_length
        } else {
            frames
        };
        let ghost old_r = r@;
        r.push((cur, end));
        proof {
            assert forall|i: int| 0 <= i < r@.len() - 1 implies #[trigger] r@[i].1 == r@[i + 1].0 by {
                if i < old_r.len() - 1 {
                    assert(r@[i] == old_r[i] && r@[i + 1] == old_r[i + 1]);
                } else {
                    assert(r@[i] == old_r.last());
                }
            }
            assert forall|i: int| 0 <= i < r@.len() implies 0 < #[trigger] r@[i].1 - r@[i].0 <= maximum_length
                && (r@[i].1 - r@[i].0 == maximum_length || r@[i].1 == frames) by {
                if i < old_r.len() {
                    assert(r@[i] == old_r[i]);
                }
            }
        }
        cur = end;
    }
    proof {
        assert forall|i: int| 0 <= i < r@.len() - 1 implies #[trigger] r@[i].1 - r@[i].0 == maximum_length by {
            assert(r@[i].1 == r@[i + 1].0);
            assert(r@[i + 1].1 - r@[i + 1].0 > 0);
            assert(r@[i + 1].1 <= frames) by {
                if i + 1 < r@.len() - 1 {
                    assert(r@[i + 1].1 - r@[i + 1].0 <= maximum_length);
                }
                assert(r@.last() == r@[r@.len() - 1]);
                assert forall|j: int| 0 <= j < r@.len() implies #[trigger] r@[j].1 <= cur by {
                    lemma_contiguous_ends_before_last(r@, j);
                }
            }
        }
    }
    r
}

/// The scenes between consecutive scene changes, the changes counted from
/// frame `last_frame`: scene `i` runs from change `i` to change `i + 1`.
pub open spec fn spec_detected_scenes(last_frame: int, changes: Seq<usize>) -> Seq<FrameRange> {
    Seq::new(
        if changes.len() >= 1 { (changes.len() - 1) as nat } else { 0 },
        |i: int| ((last_frame + changes[i]) as usize, (last_frame + changes[i + 1]) as usize),
    )
}

/// The scenes between consecutive scene changes reported by the detector,
/// shifted by `last_frame`, the frame where detection started.
pub fn detected_scenes(last_frame: usize, scene_changes: &Vec<usize>) -> (r: Vec<FrameRange>)
    requires
        forall|i: int| 0 <= i < scene_changes.len() ==> last_frame + #[trigger] scene_changes[i] <= usize::MAX,
    ensures
        r@ == spec_detected_scenes(last_frame as int, scene_changes@),
{
    let mut r: Vec<FrameRange> = Vec::new();
    let ghost all = spec_detected_scenes(last_frame as int, scene_changes@);
    let mut i: usize = 0;
    while i < scene_changes.len() && i + 1 < scene_changes.len()
        invariant
            i <= all.len(),
            all == spec_detected_scenes(last_frame as int, scene_changes@),
            forall|j: int| 0 <= j < scene_changes.len() ==> last_frame + #[trigger] scene_changes[j] <= usize::MAX,
            r@ == all.take(i as int),
        decreases scene_changes.len() - i,
    {
        let start: usize = last_frame + scene_changes[i];
        let end: usize = last_frame + scene_changes[i + 1];
        r.push((start, end));
        proof {
            assert(r@ =~= all.take(i + 1));
        }
        i = i + 1;
    }
    proof {
        assert(all.take(i as int) =~= all);
    }
    r
}

/// The scene that closes the video after detection: from the end of the
/// last scene to the last frame, when the last scene ends before it.
pub open spec fn spec_final_scene(last_end: Option<usize>, frames: usize) -> Option<FrameRange> {
    match last_end {
        Some(end) => if end < frames { Some((end, frames)) } else { None },
        None => None,
    }
}

/// The scene from the end of the last scene found to the last frame, if the
/// last scene ends before it.
pub fn final_scene(last_end: Option<usize>, frames: usize) -> (r: Option<FrameRange>)
    ensures
        r == spec_final_scene(last_end, frames),
{
    match last_end {
        Some(end) => if end < frames {
            Some((end, frames))
        } else {
            None
        },
        None => None,
    }
}

/// The end of the last of `existing` scenes followed by `added` ones.
pub open spec fn last_end_after(existing: Option<usize>, added: Seq<FrameRange>) -> Option<usize> {
    if added.len() > 0 {
        Some(added.last().1)
    } else {
        existing
    }
}

/// The scenes that detection appends after the scenes already found (the
/// last of which ends at `existing_end`): the scenes between the reported
/// changes, counted from that end, then a scene up to the last frame if they
/// stop before it.
pub open spec fn spec_plan_detected(existing_end: Option<usize>, changes: Seq<usize>, frames: usize) -> Seq<FrameRange> {
    let last_frame = match existing_end {
        Some(e) => e as int,
        None => 0,
    };
    let detected = spec_detected_scenes(last_frame, changes);
    match spec_final_scene(last_end_after(existing_end, detected), frames) {
        Some(f) => detected.push(f),
        None => detected,
    }
}

/// The scenes that detection appends after the existing scenes.
pub fn plan_detected_scenes(existing_end: Option<usize>, scene_changes: &Vec<usize>, frames: usize) -> (r: Vec<FrameRange>)
    requires
        forall|i: int|
            0 <= i < scene_changes.len() ==> (match existing_end {
                Some(e) => e as int,
                None => 0,
            }) + #[trigger] scene_changes[i] <= usize::MAX,
    ensures
        r@ == spec_plan_detected(existing_end, scene_changes@, frames),
{
    let last_frame: usize = match existing_end {
        Some(e) => e,
        None => 0,
    };
    let mut r = detected_scenes(last_frame, scene_changes);
    let last_end: Option<usize> = if r.len() > 0 {
        Some(r[r.len() - 1].1)
    } else {
        existing_end
    };
    match final_scene(last_end, frames) {
        Some(f) => {
            r.push(f);
        },
        None => {},
    }
    r
}

/// Scene changes as a detector reports them: the first at frame 0, each
/// after the one before.
pub open spec fn increasing_from_zero(changes: Seq<usize>) -> bool {
    &&& changes.len() > 0
    &&& changes[0] == 0
    &&& forall|i: int, j: int| 0 <= i < j < changes.len() ==> changes[i] < changes[j]
}

/// Detection continues the scenes already found: when the reported changes
/// start at frame 0, rise, and stay before the last frame counted from where
/// detection started, the appended scenes follow each other without gap,
/// none is empty, the first starts where the existing scenes end (frame 0
/// when there are none), and the last ends at the last frame, provided there
/// was anything to append (existing scenes, or at least two changes).
pub proof fn lemma_plan_detected_covers(existing_end: Option<usize>, changes: Seq<usize>, frames: usize)
    requires
        increasing_from_zero(changes),
        existing_end is Some || changes.len() >= 2,
        match existing_end {
            Some(e) => e + changes.last() < frames,
            None => changes.last() < frames,
        },
    ensures
        ({
            let start = match existing_end {
                Some(e) => e as int,
                None => 0,
            };
            let r = spec_plan_detected(existing_end, changes, frames);
            &&& r.len() > 0
            &&& r[0].0 == start
            &&& r.last().1 == frames
            &&& ranges_contiguous(r)
            &&& forall|i: int| 0 <= i < r.len() ==> #[trigger] r[i].0 < r[i].1
        }),
{
    let start: int = match existing_end {
        Some(e) => e as int,
        None => 0,
    };
    let detected = spec_detected_scenes(start, changes);
    let r = spec_plan_detected(existing_end, changes, frames);
    assert(changes.last() == changes[changes.len() - 1]);
    assert forall|i: int| 0 <= i < changes.len() implies start + #[trigger] changes[i] < frames by {
        if i < changes.len() - 1 {
            assert(changes[i] < changes[changes.len() - 1]);
        }
    }
    if detected.len() > 0 {
        assert(detected.last().1 == start + changes[changes.len() - 1]);
    }
    let last_end = last_end_after(existing_end, detected);
    assert(last_end is Some);
    assert(last_end->0 < frames);
    assert(r == detected.push((last_end->0, frames)));
    assert forall|i: int| 0 <= i < r.len() - 1 implies #[trigger] r[i].1 == r[i + 1].0 by {
        if i < detected.len() - 1 {
            assert(r[i] == detected[i] && r[i + 1] == detected[i + 1]);
        } else {
            assert(r[i] == detected.last());
        }
    }
    assert forall|i: int| 0 <= i < r.len() implies #[trigger] r[i].0 < r[i].1 by {
        if i < detected.len() {
            assert(r[i] == detected[i]);
            assert(changes[i] < changes[i + 1]);
        }
    }
    if detected.len() > 0 {
        assert(r[0] == detected[0]);
    }
}

/// The scene detector: its method, and the input it analyses when that is not
/// the job's own input.
pub struct SceneDetector {
    pub method: SceneDetectionMethod,
    pub input: Option<Input>,
}

/// What goes wrong in scene detection.
#[derive(Debug, Clone, PartialEq, Eq)]
pub enum SceneDetectorError {
    /// The detector's own input has another frame count than the job's input
    /// (job's count, detector input's count).
    InputFrameMismatch(usize, usize),
    SceneDetectionFailed(String),
}

impl SceneDetector {
    /// A detector with the given method that analyses the job's own input.
    pub fn new(method: SceneDetectionMethod) -> (r: Self)
        ensures
            r.method == method,
            r.input is None,
    {
        SceneDetector { method, input: None }
    }

    /// The warning for a detector input whose frame count differs from the
    /// job's input.
    pub fn frame_mismatch(condor_frames: usize, input_frames: usize) -> (r: Option<SceneDetectorError>)
        ensures
            r == (if condor_frames != input_frames {
                Some(SceneDetectorError::InputFrameMismatch(condor_frames, input_frames))
            } else {
                None
            }),
    {
        if input_frames != condor_frames {
            Some(SceneDetectorError::InputFrameMismatch(condor_frames, input_frames))
        } else {
            None
        }
    }

    /// The scenes to append after the existing ones, whose last ends at
    /// `existing_end`, for a video of `frames` frames: `None` when the
    /// existing scenes already end at the last frame; at fixed length with
    /// `NoDetection`; otherwise between the `scene_changes` that the detector
    /// reported, counted from the existing end, closed by a scene up to the
    /// last frame.
    pub fn plan(&self, existing_end: Option<usize>, frames: usize, scene_changes: &Vec<usize>) -> (r: Option<Vec<FrameRange>>)
        requires
            match self.method {
                SceneDetectionMethod::NoDetection { maximum_length, .. } => (match existing_end {
                    Some(e) => e as int,
                    None => 0,
                }) < frames && existing_end != Some(frames) ==> maximum_length > 0,
                SceneDetectionMethod::AVSceneChange { .. } => forall|i: int|
                    0 <= i < scene_changes.len() ==> (match existing_end {
                        Some(e) => e as int,
                        None => 0,
                    }) + #[trigger] scene_changes[i] <= usize::MAX,
            },
        ensures
            existing_end == Some(frames) <==> r is None,
            r matches Some(v) ==> match self.method {
                SceneDetectionMethod::NoDetection { maximum_length, .. } => is_fixed_length_cut(
                    v@,
                    match existing_end {
                        Some(e) => e as int,
                        None => 0,
                    },
                    frames as int,
                    maximum_length as int,
                ),
                SceneDetectionMethod::AVSceneChange { .. } => v@ == spec_plan_detected(existing_end, scene_changes@, frames),
            },
    {
        if existing_end == Some(frames) {
            return None;
        }
        match self.method {
            SceneDetectionMethod::NoDetection { maximum_length, .. } => {
                let prev_end: usize = match existing_end {
                    Some(e) => e,
                    None => 0,
                };
                Some(fixed_length_scenes(prev_end, frames, maximum_length))
            },
            SceneDetectionMethod::AVSceneChange { .. } => Some(plan_detected_scenes(existing_end, scene_changes, frames)),
        }
    }
}

/// The saved settings of a scene detector.
pub struct SceneDetectorConfig {
    pub method: SceneDetectionMethod,
    pub input: Option<Input>,
}

impl SceneDetectorConfig {
    /// The settings of `scene_detector`.
    pub fn from_scene_detector(scene_detector: &SceneDetector) -> (r: Self)
        ensures
            r.method == scene_detector.method,
            r.input.is_some() == scene_detector.input.is_some(),
            r.input matches Some(i) ==> i.same_as(&scene_detector.input->0),
    {
        let input = match &scene_detector.input {
            Some(i) => Some(i.duplicate()),
            None => None,
        };
        SceneDetectorConfig { method: scene_detector.method, input }
    }
}

impl Default for SceneDetectorConfig {
    fn default() -> (r: Self)
        ensures
            r.method == spec_default_method(),
            r.input is None,
    {
        SceneDetectorConfig { method: SceneDetectionMethod::default(), input: None }
    }
}

impl SceneDetectionMethod {
    /// The shortest scene of this method.
    pub open spec fn spec_minimum_length(self) -> usize {
        match self {
            SceneDetectionMethod::NoDetection { minimum_length, .. } => minimum_length,
            SceneDetectionMethod::AVSceneChange { minimum_length, .. } => minimum_length,
        }
    }

    /// The longest scene of this method.
    pub open spec fn spec_maximum_length(self) -> usize {
        match self {
            SceneDetectionMethod::NoDetection { maximum_length, .. } => maximum_length,
            SceneDetectionMethod::AVSceneChange { maximum_length, .. } => maximum_length,
        }
    }

    /// The same method with scenes of `minimum` to `maximum` frames.
    pub open spec fn with_lengths(self, minimum: usize, maximum: usize) -> SceneDetectionMethod {
        match self {
            SceneDetectionMethod::NoDetection { .. } => SceneDetectionMethod::NoDetection {
                minimum_length: minimum,
                maximum_length: maximum,
            },
            SceneDetectionMethod::AVSceneChange { method, .. } => SceneDetectionMethod::AVSceneChange {
                minimum_length: minimum,
                maximum_length: maximum,
                method,
            },
        }
    }

    /// The shortest scene of this method.
    pub fn minimum_length(&self) -> (r: usize)
        ensures
            r == self.spec_minimum_length(),
    {
        match self {
            SceneDetectionMethod::NoDetection { minimum_length, .. } => *minimum_length,
            SceneDetectionMethod::AVSceneChange { minimum_length, .. } => *minimum_length,
        }
    }

    /// The longest scene of this method.
    pub fn maximum_length(&self) -> (r: usize)
        ensures
            r == self.spec_maximum_length(),
    {
        match self {
            SceneDetectionMethod::NoDetection { maximum_length, .. } => *maximum_length,
            SceneDetectionMethod::AVSceneChange { maximum_length, .. } => *maximum_length,
        }
    }

    /// Sets the shortest and longest scene of this method.
    pub fn set_lengths(&mut self, minimum: usize, maximum: usize)
        ensures
            *final(self) == old(self).with_lengths(minimum, maximum),
    {
        *self = match *self {
            SceneDetectionMethod::NoDetection { .. } => SceneDetectionMethod::NoDetection {
                minimum_length: minimum,
                maximum_length: maximum,
            },
            SceneDetectionMethod::AVSceneChange { method, .. } => SceneDetectionMethod::AVSceneChange {
                minimum_length: minimum,
                maximum_length: maximum,
                method,
            },
        };
    }
}

/// Detection resumes where it stopped: once scenes that end at the last
/// frame are appended, the scenes as a whole end there, so the next plan
/// finds nothing to do.
pub proof fn lemma_appended_plan_completes(existing: Seq<FrameRange>, appended: Seq<FrameRange>, frames: usize)
    requires
        appended.len() > 0,
        appended.last().1 == frames,
    ensures
        (existing + appended).last().1 == frames,
{
}

proof fn lemma_contiguous_ends_before_last(r: Seq<FrameRange>, j: int)
    requires
        0 <= j < r.len(),
        ranges_contiguous(r),
        forall|i: int| 0 <= i < r.len() ==> 0 < #[trigger] r[i].1 - r[i].0,
    ensures
        r[j].1 <= r.last().1,
    decreases r.len() - j,
{
    if j < r.len() - 1 {
        assert(r[j].1 == r[j + 1].0);
        assert(r[j + 1].1 - r[j + 1].0 > 0);
        lemma_contiguous_ends_before_last(r, j + 1);
    }
}

} // verus!
