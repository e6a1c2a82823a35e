//! The progress state of the parallel encoder's console: which scenes are
//! being encoded, how far each is, and how many frames are done overall. The
//! console feeds it events (progress of a scene, a scene completed, a cancel
//! key) and acts on what each event returns: drawing, printing, quitting.

use vstd::prelude::*;
use std::collections::BTreeMap;
use crate::encoding::Encoder;
use vstd::std_specs::iter::IteratorSpec;

verus! {

broadcast use {vstd::std_specs::btree::group_btree_axioms, vstd::laws_cmp::group_laws_cmp};

/// A scene's progress: frames done so far and frames in the scene.
#[derive(Debug, Clone, Copy, PartialEq, Eq, Structural)]
pub struct SceneTally {
    pub completed: u64,
    pub length: u64,
}

/// A scene being encoded: its pass and frame counters.
#[derive(Debug, Clone, Copy, PartialEq, Eq, Structural)]
pub struct SceneEncoder {
    pub scene_index: u64,
    pub current_pass: u8,
    pub total_passes: u8,
    pub frames_processed: u64,
    pub total_frames: u64,
}

/// The progress of one scene, as printed on a console that is not a
/// terminal.
#[derive(Debug, Clone, Copy, PartialEq, Eq, Structural)]
pub struct SceneProgress {
    pub index: u64,
    pub current_pass: u8,
    pub total_passes: u8,
    pub current_frame: u64,
    pub total_frames: u64,
}

/// A line printed on a console that is not a terminal.
#[derive(Debug, Clone, Copy, PartialEq, Eq, Structural)]
pub enum ParallelEncoderConsoleEvent {
    /// A scene's progress and the frames done out of all frames.
    Progress { scene: SceneProgress, current_frame: u64, total_frames: u64 },
    /// A scene started; `time` is in milliseconds since the Unix epoch.
    NewScene { scene_index: u64, time: u128 },
}

/// What to do after a cancel key.
#[derive(Debug, Clone, Copy, PartialEq, Eq, Structural)]
pub enum CancelReaction {
    /// The run was already cancelled: restore the terminal and quit now.
    ForceQuit,
    /// The run is cancelled: running encoders finish first.
    WaitForEncoders,
}


/// The state of the parallel encoder's console.
pub struct ParallelEncoderApp {
    pub workers: u8,
    pub encoder: Encoder,
    /// Frames already done when the console started.
    pub initial_frames: u64,
    /// Every scene of the run, by scene index.
    pub scenes: BTreeMap<u64, SceneTally>,
    /// The scenes being encoded, by scene index.
    pub active_scenes: BTreeMap<u64, SceneEncoder>,
    pub attempted_cancel: bool,
}

/// The frames done over a list of scenes.
pub open spec fn sum_completed(s: Seq<SceneTally>) -> int
    decreases s.len(),
{
    if s.len() == 0 {
        0
    } else {
        sum_completed(s.drop_last()) + s.last().completed
    }
}

/// The frames of a list of scenes.
pub open spec fn sum_lengths(s: Seq<SceneTally>) -> int
    decreases s.len(),
{
    if s.len() == 0 {
        0
    } else {
        sum_lengths(s.drop_last()) + s.last().length
    }
}

/// Scene indices in strictly increasing order.
pub open spec fn increasing_indices(s: Seq<u64>) -> bool {
    forall|i: int, j: int| 0 <= i < j < s.len() ==> s[i] < s[j]
}

/// The scene indices of a set, in increasing order.
pub open spec fn scene_order(indices: Set<u64>) -> Seq<u64> {
    choose|s: Seq<u64>| increasing_indices(s) && forall|k: u64| #[trigger] s.contains(k) == indices.contains(k)
}

/// The tallies of all scenes, in increasing order of scene index.
pub open spec fn tallies(scenes: Map<u64, SceneTally>) -> Seq<SceneTally> {
    scene_order(scenes.dom()).map_values(|k: u64| scenes[k])
}

/// Every active scene is filed under its own index.
pub open spec fn filed_by_index(a: Map<u64, SceneEncoder>) -> bool {
    forall|k: u64| #[trigger] a.contains_key(k) ==> a[k].scene_index == k
}

/// The scenes with the frames done of scene `scene` set to `value`, if it
/// is a scene of the run.
pub open spec fn with_completed(s: Map<u64, SceneTally>, scene: u64, value: u64) -> Map<u64, SceneTally> {
    if s.contains_key(scene) {
        s.insert(scene, SceneTally { completed: value, length: s[scene].length })
    } else {
        s
    }
}

/// The scenes with scene `scene` marked as fully done, if it is a scene of
/// the run.
pub open spec fn with_scene_done(s: Map<u64, SceneTally>, scene: u64) -> Map<u64, SceneTally> {
    if s.contains_key(scene) {
        s.insert(scene, SceneTally { completed: s[scene].length, length: s[scene].length })
    } else {
        s
    }
}

/// The active scenes after a progress report of scene `scene`: its counters
/// set (the scene added with them if it was not active), or the scene
/// dropped when its last pass reached its last frame.
pub open spec fn active_after_progress(
    a: Map<u64, SceneEncoder>,
    scene: u64,
    current_pass: u8,
    total_passes: u8,
    current_frame: u64,
    total_frames: u64,
) -> Map<u64, SceneEncoder> {
    if current_pass == total_passes && current_frame == total_frames {
        a.remove(scene)
    } else {
        a.insert(
            scene,
            SceneEncoder { scene_index: scene, current_pass, total_passes, frames_processed: current_frame, total_frames },
        )
    }
}

/// Two increasing lists that hold the same scene indices are the same list.
proof fn lemma_increasing_unique(a: Seq<u64>, b: Seq<u64>)
    requires
        increasing_indices(a),
        increasing_indices(b),
        forall|k: u64| #[trigger] a.contains(k) == b.contains(k),
    ensures
        a == b,
    decreases a.len(),
{
    if a.len() == 0 {
        if b.len() > 0 {
            assert(b.contains(b[0]));
            assert(a.contains(b[0]));
        }
        assert(a =~= b);
    } else {
        assert(a.contains(a[0]));
        assert(b.contains(a[0]));
        assert(b.contains(b[0]));
        assert(a.contains(b[0]));
        let i = choose|i: int| 0 <= i < b.len() && b[i] == a[0];
        let j = choose|j: int| 0 <= j < a.len() && a[j] == b[0];
        if a[0] != b[0] {
            assert(i > 0 && j > 0);
            assert(b[0] < b[i]);
            assert(a[0] < a[j]);
        }
        let a1 = a.drop_first();
        let b1 = b.drop_first();
        assert forall|k: u64| #[trigger] a1.contains(k) == b1.contains(k) by {
            if a1.contains(k) {
                let p = choose|p: int| 0 <= p < a1.len() && a1[p] == k;
                assert(a[p + 1] == k && a[0] < a[p + 1]);
                assert(a.contains(k));
                assert(b.contains(k));
                let q = choose|q: int| 0 <= q < b.len() && b[q] == k;
                assert(b1[q - 1] == k);
            }
            if b1.contains(k) {
                let p = choose|p: int| 0 <= p < b1.len() && b1[p] == k;
                assert(b[p + 1] == k && b[0] < b[p + 1]);
                assert(a.contains(k));
                let q = choose|q: int| 0 <= q < a.len() && a[q] == k;
                assert(a1[q - 1] == k);
            }
        }
        lemma_increasing_unique(a1, b1);
        assert(a =~= seq![a[0]] + a1);
        assert(b =~= seq![b[0]] + b1);
    }
}

/// The keys of a walk over a map of scenes come in increasing order.
proof fn lemma_walk_increasing(w: Seq<(&u64, &SceneTally)>)
    requires
        vstd::std_specs::btree::increasing_seq(w.map_values(|kv: (&u64, &SceneTally)| *kv.0)),
    ensures
        forall|i: int, j: int| 0 <= i < j < w.len() ==> *w[i].0 < *w[j].0,
{
    let keys = w.map_values(|kv: (&u64, &SceneTally)| *kv.0);
    assert forall|i: int, j: int| 0 <= i < j < w.len() implies *w[i].0 < *w[j].0 by {
        assert(vstd::std_specs::cmp::OrdSpec::cmp_spec(&keys[i], &keys[j]) is Less);
    }
}

/// A walk over the scenes in increasing index order meets every scene
/// once, in the order of [`tallies`].
proof fn lemma_walk_is_tallies(m: Map<u64, SceneTally>, w: Seq<(&u64, &SceneTally)>)
    requires
        forall|i: int, j: int| 0 <= i < j < w.len() ==> *w[i].0 < *w[j].0,
        forall|i: int| 0 <= i < w.len() ==> m.contains_key(*w[i].0) && m[*w[i].0] == *w[i].1,
        forall|k: u64| #[trigger] m.contains_key(k) ==> w.contains((&k, &m[k])),
    ensures
        w.map_values(|kv: (&u64, &SceneTally)| *kv.1) == tallies(m),
{
    let keys = w.map_values(|kv: (&u64, &SceneTally)| *kv.0);
    assert(increasing_indices(keys));
    assert forall|k: u64| #[trigger] keys.contains(k) == m.dom().contains(k) by {
        if keys.contains(k) {
            let i = choose|i: int| 0 <= i < keys.len() && keys[i] == k;
            assert(m.contains_key(*w[i].0));
        }
        if m.dom().contains(k) {
            assert(m.contains_key(k));
            assert(w.contains((&k, &m[k])));
            let i = choose|i: int| 0 <= i < w.len() && w[i] == (&k, &m[k]);
            assert(keys[i] == k);
        }
    }
    let order = scene_order(m.dom());
    assert(increasing_indices(order) && forall|k: u64| #[trigger] order.contains(k) == m.dom().contains(k));
    lemma_increasing_unique(order, keys);
    assert forall|i: int| 0 <= i < w.len() implies #[trigger] tallies(m)[i] == *w[i].1 by {
        assert(m.contains_key(*w[i].0));
    }
    assert(w.map_values(|kv: (&u64, &SceneTally)| *kv.1) =~= tallies(m));
}

proof fn lemma_sums_push(s: Seq<SceneTally>, t: SceneTally)
    ensures
        sum_completed(s.push(t)) == sum_completed(s) + t.completed,
        sum_lengths(s.push(t)) == sum_lengths(s) + t.length,
{
    assert(s.push(t).drop_last() =~= s);
}

/// Lists of scenes of the same lengths, one by one, have the same frame
/// count.
proof fn lemma_same_lengths(a: Seq<SceneTally>, b: Seq<SceneTally>)
    requires
        a.len() == b.len(),
        forall|i: int| 0 <= i < a.len() ==> #[trigger] a[i].length == b[i].length,
    ensures
        sum_lengths(a) == sum_lengths(b),
    decreases a.len(),
{
    if a.len() > 0 {
        lemma_same_lengths(a.drop_last(), b.drop_last());
    }
}

/// Progress reports and completed scenes never change the frame count of the
/// run: only the frames done of a scene change.
pub proof fn lemma_lengths_kept(s: Map<u64, SceneTally>, scene: u64, value: u64)
    ensures
        sum_lengths(tallies(with_completed(s, scene, value))) == sum_lengths(tallies(s)),
        sum_lengths(tallies(with_scene_done(s, scene))) == sum_lengths(tallies(s)),
{
    assert(with_completed(s, scene, value).dom() =~= s.dom());
    assert(with_scene_done(s, scene).dom() =~= s.dom());
    lemma_same_lengths(tallies(with_completed(s, scene, value)), tallies(s));
    lemma_same_lengths(tallies(with_scene_done(s, scene)), tallies(s));
}

impl ParallelEncoderApp {
    /// Every active scene is filed under its own index.
    pub open spec fn wf(&self) -> bool {
        filed_by_index(self.active_scenes@)
    }

    /// A console for `workers` encoders running `encoder` over `scenes`; the
    /// frames already done are those the scenes report.
    pub fn new(workers: u8, encoder: Encoder, scenes: BTreeMap<u64, SceneTally>) -> (r: Self)
        requires
            sum_completed(tallies(scenes@)) <= u64::MAX,
        ensures
            r.wf(),
            r.workers == workers,
            r.encoder == encoder,
            r.initial_frames == sum_completed(tallies(scenes@)),
            r.scenes@ == scenes@,
            r.active_scenes@ == Map::<u64, SceneEncoder>::empty(),
            !r.attempted_cancel,
    {
        let (initial, _) = Self::sums(&scenes);
        let r = ParallelEncoderApp {
            workers,
            encoder,
            initial_frames: initial as u64,
            scenes,
            active_scenes: BTreeMap::new(),
            attempted_cancel: false,
        };
        assert(r.active_scenes@ =~= Map::<u64, SceneEncoder>::empty());
        r
    }

    /// The frames done and the frames of all scenes, each capped at one more
    /// than the largest 64-bit number.
    fn sums(scenes: &BTreeMap<u64, SceneTally>) -> (r: (u128, u128))
        ensures
            r.0 == if sum_completed(tallies(scenes@)) <= u64::MAX {
                sum_completed(tallies(scenes@))
            } else {
                u64::MAX + 1
            },
            r.1 == if sum_lengths(tallies(scenes@)) <= u64::MAX {
                sum_lengths(tallies(scenes@))
            } else {
                u64::MAX + 1
            },
    {
        let walk = scenes.iter();
        proof {
            lemma_walk_increasing(walk.remaining());
            lemma_walk_is_tallies(scenes@, walk.remaining());
        }
        let ghost all = tallies(scenes@);
        let mut done: u128 = 0;
        let mut total: u128 = 0;
        for kv in it: scenes.iter()
            invariant
                it.seq() == vstd::std_specs::btree::spec_btree_map_iter(scenes).remaining(),
                it.seq().map_values(|kv: (&u64, &SceneTally)| *kv.1) == all,
                all == tallies(scenes@),
                done == if sum_completed(all.take(it.index() as int)) <= u64::MAX {
                    sum_completed(all.take(it.index() as int))
                } else {
                    u64::MAX + 1
                },
                total == if sum_lengths(all.take(it.index() as int)) <= u64::MAX {
                    sum_lengths(all.take(it.index() as int))
                } else {
                    u64::MAX + 1
                },
        {
            let (_, t) = kv;
            let ghost i = it.index() as int;
            proof {
                assert(all[i] == *t);
                assert(all.take(i + 1) =~= all.take(i).push(all[i]));
                lemma_sums_push(all.take(i), all[i]);
            }
            if done <= u64::MAX as u128 {
                done = done + t.completed as u128;
                if done > u64::MAX as u128 {
                    done = u64::MAX as u128 + 1;
                }
            }
            if total <= u64::MAX as u128 {
                total = total + t.length as u128;
                if total > u64::MAX as u128 {
                    total = u64::MAX as u128 + 1;
                }
            }
        }
        assert(all.take(all.len() as int) =~= all);
        (done, total)
    }

    /// The frames done and the frames of all scenes.
    pub fn totals(&self) -> (r: (u64, u64))
        requires
            sum_completed(tallies(self.scenes@)) <= u64::MAX,
            sum_lengths(tallies(self.scenes@)) <= u64::MAX,
        ensures
            r.0 == sum_completed(tallies(self.scenes@)),
            r.1 == sum_lengths(tallies(self.scenes@)),
    {
        let (done, all) = Self::sums(&self.scenes);
        (done as u64, all as u64)
    }

    /// Whether the frame totals fit in 64 bits, so that a progress line can
    /// be printed.
    pub fn totals_fit(&self) -> (r: bool)
        ensures
            r == (sum_completed(tallies(self.scenes@)) <= u64::MAX && sum_lengths(tallies(self.scenes@)) <= u64::MAX),
    {
        let (done, all) = Self::sums(&self.scenes);
        done <= u64::MAX as u128 && all <= u64::MAX as u128
    }

    /// A progress report of scene `scene`: pass `current_pass` of
    /// `total_passes`, frame `current_frame` of `total_frames`. The scene's
    /// counters are updated, or it becomes active with them (`true` is
    /// returned then, so that its start can be announced); when its last pass
    /// is reported, its frames done become `current_frame`, and when that is
    /// its last frame it is no longer active.
    pub fn on_progress(
        &mut self,
        scene: u64,
        current_pass: u8,
        total_passes: u8,
        current_frame: u64,
        total_frames: u64,
    ) -> (started: bool)
        requires
            old(self).wf(),
            old(self).active_scenes@.contains_key(scene) || old(self).scenes@.contains_key(scene),
        ensures
            final(self).wf(),
            started == !old(self).active_scenes@.contains_key(scene),
            final(self).active_scenes@ == active_after_progress(
                old(self).active_scenes@,
                scene,
                current_pass,
                total_passes,
                current_frame,
                total_frames,
            ),
            final(self).scenes@ == (if current_pass == total_passes {
                with_completed(old(self).scenes@, scene, current_frame)
            } else {
                old(self).scenes@
            }),
            final(self).initial_frames == old(self).initial_frames,
            final(self).attempted_cancel == old(self).attempted_cancel,
            final(self).workers == old(self).workers,
            final(self).encoder == old(self).encoder,
    {
        let started = !self.active_scenes.contains_key(&scene);
        let e = SceneEncoder {
            scene_index: scene,
            current_pass,
            total_passes,
            frames_processed: current_frame,
            total_frames,
        };
        self.active_scenes.insert(scene, e);
        if current_pass == total_passes {
            Self::set_completed(&mut self.scenes, scene, current_frame);
            if current_frame == total_frames {
                let _ = self.active_scenes.remove(&scene);
                assert(self.active_scenes@ =~= old(self).active_scenes@.remove(scene));
            }
        }
        started
    }

    fn set_completed(scenes: &mut BTreeMap<u64, SceneTally>, scene: u64, value: u64)
        ensures
            final(scenes)@ == with_completed(old(scenes)@, scene, value),
    {
        let found = match scenes.get(&scene) {
            Some(t) => Some(*t),
            None => None,
        };
        if let Some(t) = found {
            scenes.insert(scene, SceneTally { completed: value, length: t.length });
        }
    }

    /// Scene `scene` finished: all its frames are done and it is no longer
    /// active.
    pub fn on_scene_completed(&mut self, scene: u64)
        requires
            old(self).wf(),
        ensures
            final(self).wf(),
            final(self).scenes@ == with_scene_done(old(self).scenes@, scene),
            final(self).active_scenes@ == old(self).active_scenes@.remove(scene),
            final(self).initial_frames == old(self).initial_frames,
            final(self).attempted_cancel == old(self).attempted_cancel,
            final(self).workers == old(self).workers,
            final(self).encoder == old(self).encoder,
    {
        let found = match self.scenes.get(&scene) {
            Some(t) => Some(*t),
            None => None,
        };
        if let Some(t) = found {
            self.scenes.insert(scene, SceneTally { completed: t.length, length: t.length });
        }
        let _ = self.active_scenes.remove(&scene);
    }

    /// The cancel key was pressed; `already_cancelled` tells whether the run
    /// had been cancelled before.
    pub fn on_cancel(&mut self, already_cancelled: bool) -> (r: CancelReaction)
        ensures
            final(self).attempted_cancel,
            final(self).scenes == old(self).scenes,
            final(self).active_scenes == old(self).active_scenes,
            final(self).initial_frames == old(self).initial_frames,
            r == (if already_cancelled { CancelReaction::ForceQuit } else { CancelReaction::WaitForEncoders }),
    {
        self.attempted_cancel = true;
        if already_cancelled {
            CancelReaction::ForceQuit
        } else {
            CancelReaction::WaitForEncoders
        }
    }

    /// The progress line printed after a progress report of scene `scene`.
    pub fn progress_event(
        &self,
        scene: u64,
        current_pass: u8,
        total_passes: u8,
        current_frame: u64,
        total_frames: u64,
    ) -> (r: ParallelEncoderConsoleEvent)
        requires
            sum_completed(tallies(self.scenes@)) <= u64::MAX,
            sum_lengths(tallies(self.scenes@)) <= u64::MAX,
        ensures
            r == (ParallelEncoderConsoleEvent::Progress {
                scene: SceneProgress { index: scene, current_pass, total_passes, current_frame, total_frames },
                current_frame: sum_completed(tallies(self.scenes@)) as u64,
                total_frames: sum_lengths(tallies(self.scenes@)) as u64,
            }),
    {
        let (done, all) = self.totals();
        ParallelEncoderConsoleEvent::Progress {
            scene: SceneProgress { index: scene, current_pass, total_passes, current_frame, total_frames },
            current_frame: done,
            total_frames: all,
        }
    }
}


/// A scene starts once: after a progress report of it, unless that report
/// is of the last frame of its last pass, it is active, so a later report
/// of it (see [`ParallelEncoderApp::on_progress`]) does not start it again.
pub proof fn lemma_scene_starts_once(
    a: Map<u64, SceneEncoder>,
    scene: u64,
    current_pass: u8,
    total_passes: u8,
    current_frame: u64,
    total_frames: u64,
)
    requires
        !(current_pass == total_passes && current_frame == total_frames),
    ensures
        active_after_progress(a, scene, current_pass, total_passes, current_frame, total_frames).contains_key(scene),
{
}

} // verus!
