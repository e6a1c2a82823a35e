use andean_condor::scene_detection::{
    detected_scenes, final_scene, fixed_length_scenes, plan_detected_scenes, SceneDetectionMethod, SceneDetector,
    SceneDetectorConfig, SceneDetectorError, ScenecutMethod,
};
use andean_condor::scene_detect::{SceneDetectError, SceneDetectProgress};
use andean_condor::scenes::{simple_extra_splits, Scene, ZoneOptions};
use andean_condor::flowencode::TargetMetric;
use andean_condor::scenes::{extra_splits, sort_zones, validate_zones, MetricCheck, ZoneError, ZoneTargetQuality};

fn scene(start: usize, end: usize) -> Scene {
    Scene { start_frame: start, end_frame: end, zone_overrides: None }
}

fn ranges(scenes: &[Scene]) -> Vec<(usize, usize)> {
    scenes.iter().map(|s| (s.start_frame, s.end_frame)).collect()
}

#[test]
fn extra_splits_leave_short_scenes_alone() {
    let scenes = vec![scene(0, 10), scene(10, 30)];
    let out = simple_extra_splits(&scenes, 100);
    assert_eq!(ranges(&out), vec![(0, 10), (10, 30)]);
}

#[test]
fn extra_splits_cut_long_scene_evenly() {
    // 100 frames with a split size of 30: 100 / 30 + 1 = 4 pieces.
    let scenes = vec![scene(0, 100)];
    let out = simple_extra_splits(&scenes, 30);
    assert_eq!(ranges(&out), vec![(0, 25), (25, 50), (50, 75), (75, 100)]);
}

#[test]
fn extra_splits_pieces_follow_previous_scene() {
    let scenes = vec![scene(0, 5), scene(5, 15)];
    let out = simple_extra_splits(&scenes, 5);
    // 10 frames, split size 5: 3 pieces ending at 5 + 10*1/3, 5 + 10*2/3, 15.
    assert_eq!(ranges(&out), vec![(0, 5), (5, 8), (8, 11), (11, 15)]);
    for w in out.windows(2) {
        assert_eq!(w[0].end_frame, w[1].start_frame);
    }
}

#[test]
fn extra_splits_use_zone_length() {
    let zone = ZoneOptions { extra_splits_len: Some(50), min_scene_len: 10, target_quality: None };
    let scenes = vec![
        Scene { start_frame: 0, end_frame: 100, zone_overrides: Some(zone) },
        Scene { start_frame: 100, end_frame: 200, zone_overrides: None },
    ];
    let out = simple_extra_splits(&scenes, 1000);
    assert_eq!(ranges(&out), vec![(0, 33), (33, 66), (66, 100), (100, 200)]);
}

#[test]
fn extra_splits_zone_without_limit_keeps_scene() {
    let zone = ZoneOptions { extra_splits_len: None, min_scene_len: 10, target_quality: None };
    let scenes = vec![Scene { start_frame: 0, end_frame: 5000, zone_overrides: Some(zone) }];
    let out = simple_extra_splits(&scenes, 10);
    assert_eq!(ranges(&out), vec![(0, 5000)]);
}

#[test]
fn fixed_length_cut_covers_frames() {
    assert_eq!(fixed_length_scenes(0, 25, 10), vec![(0, 10), (10, 20), (20, 25)]);
    assert_eq!(fixed_length_scenes(5, 25, 10), vec![(5, 15), (15, 25)]);
    assert_eq!(fixed_length_scenes(30, 25, 10), vec![]);
    assert_eq!(fixed_length_scenes(25, 25, 0), vec![]);
}

#[test]
fn detected_scenes_between_changes() {
    assert_eq!(detected_scenes(100, &vec![0, 10, 25]), vec![(100, 110), (110, 125)]);
    assert_eq!(detected_scenes(0, &vec![0]), vec![]);
    assert_eq!(detected_scenes(0, &vec![]), vec![]);
}

#[test]
fn final_scene_closes_video() {
    assert_eq!(final_scene(Some(90), 100), Some((90, 100)));
    assert_eq!(final_scene(Some(100), 100), None);
    assert_eq!(final_scene(None, 100), None);
}

#[test]
fn detection_plan_appends_closing_scene() {
    assert_eq!(plan_detected_scenes(None, &vec![0, 40, 70], 100), vec![(0, 40), (40, 70), (70, 100)]);
    assert_eq!(plan_detected_scenes(Some(50), &vec![0, 20], 100), vec![(50, 70), (70, 100)]);
    // Nothing found and nothing before: no scene at all.
    assert_eq!(plan_detected_scenes(None, &vec![0], 100), vec![]);
}

#[test]
fn detector_skips_finished_video() {
    let detector = SceneDetector::new(SceneDetectionMethod::NoDetection { minimum_length: 1, maximum_length: 10 });
    assert_eq!(detector.plan(Some(30), 30, &vec![]), None);
    assert_eq!(detector.plan(Some(20), 30, &vec![]), Some(vec![(20, 30)]));
    assert_eq!(detector.plan(None, 15, &vec![]), Some(vec![(0, 10), (10, 15)]));
}

#[test]
fn detector_uses_reported_changes() {
    let detector = SceneDetector::new(SceneDetectionMethod::default());
    assert_eq!(detector.plan(None, 50, &vec![0, 20]), Some(vec![(0, 20), (20, 50)]));
}

#[test]
fn default_detection_method() {
    assert_eq!(
        SceneDetectionMethod::default(),
        SceneDetectionMethod::AVSceneChange { minimum_length: 24, maximum_length: 240, method: ScenecutMethod::Standard }
    );
    let config = SceneDetectorConfig::default();
    assert_eq!(config.method, SceneDetectionMethod::default());
    assert!(config.input.is_none());
}

#[test]
fn frame_mismatch_warning() {
    assert_eq!(SceneDetector::frame_mismatch(10, 12), Some(SceneDetectorError::InputFrameMismatch(10, 12)));
    assert_eq!(SceneDetector::frame_mismatch(10, 10), None);
}


fn zone(start: usize, end: usize, tq: Option<ZoneTargetQuality>) -> Scene {
    Scene {
        start_frame: start,
        end_frame: end,
        zone_overrides: Some(ZoneOptions { extra_splits_len: None, min_scene_len: 24, target_quality: tq }),
    }
}

fn target(metric: TargetMetric, probing_rate: usize) -> Option<ZoneTargetQuality> {
    Some(ZoneTargetQuality { has_target: true, metric, probing_rate })
}

#[test]
fn zone_checks_in_order() {
    let zones = vec![
        zone(0, 10, target(TargetMetric::XPSNR, 1)),
        zone(10, 20, target(TargetMetric::SSIMULACRA2, 1)),
        zone(20, 30, target(TargetMetric::VMAF, 4)),
        zone(30, 40, Some(ZoneTargetQuality { has_target: false, metric: TargetMetric::Butteraugli3, probing_rate: 1 })),
        zone(40, 50, target(TargetMetric::XPSNRWeighted, 3)),
        zone(50, 60, None),
    ];
    assert_eq!(
        validate_zones(&zones),
        vec![MetricCheck::Vmaf, MetricCheck::Ssimulacra2, MetricCheck::XpsnrVapourSynth, MetricCheck::XpsnrFfmpeg]
    );
    assert_eq!(validate_zones(&vec![]), vec![]);
}

#[test]
fn zones_sorted_by_start() {
    let zones = vec![zone(50, 60, None), zone(0, 10, None), zone(10, 50, None)];
    let sorted = sort_zones(zones).expect("no overlap");
    assert_eq!(ranges(&sorted), vec![(0, 10), (10, 50), (50, 60)]);
}

#[test]
fn overlapping_zones_are_refused() {
    let zones = vec![zone(20, 40, None), zone(0, 25, None)];
    assert_eq!(sort_zones(zones).err(), Some(ZoneError::OverlappingZones));
}

#[test]
fn extra_splits_with_scores_only_chain_scenes() {
    let scenes = vec![scene(0, 10), scene(10, 20)];
    let out = extra_splits(&scenes, 100, &vec![3, 12]);
    assert_eq!(ranges(&out), vec![(0, 10), (10, 20)]);
    let out = extra_splits(&vec![scene(0, 100)], 30, &vec![]);
    assert_eq!(out.len(), 4);
}

fn detection_zone(start: usize, end: usize, min_scene_len: Option<usize>) -> Scene {
    Scene {
        start_frame: start,
        end_frame: end,
        zone_overrides: min_scene_len.map(|m| ZoneOptions {
            extra_splits_len: None,
            min_scene_len: m,
            target_quality: None,
        }),
    }
}

#[test]
fn detection_walks_through_zones_and_gaps() {
    let zones = vec![detection_zone(0, 10, Some(5)), detection_zone(20, 30, None)];
    let mut progress = SceneDetectProgress::start(&zones);
    let mut scenes = Vec::new();
    assert_eq!(progress.next_detection(&zones, 24), (5, Some(10)));
    let before = progress;
    assert_eq!(
        progress.record(&zones, 40, 9, &vec![0, 4], &mut scenes),
        Err(SceneDetectError::FrameCountMismatch(10, 9))
    );
    assert_eq!(progress, before);
    assert!(scenes.is_empty());
    assert_eq!(progress.record(&zones, 40, 10, &vec![0, 4], &mut scenes), Ok(false));
    assert_eq!(progress.next_detection(&zones, 24), (24, Some(10)));
    assert_eq!(progress.record(&zones, 40, 10, &vec![0], &mut scenes), Ok(false));
    assert_eq!(progress.next_detection(&zones, 24), (24, Some(10)));
    assert_eq!(progress.record(&zones, 40, 10, &vec![0, 5], &mut scenes), Ok(false));
    assert_eq!(progress.next_detection(&zones, 24), (24, None));
    assert_eq!(progress.record(&zones, 40, 999, &vec![0, 3], &mut scenes), Ok(true));
    let ranges: Vec<(usize, usize, bool)> =
        scenes.iter().map(|s| (s.start_frame, s.end_frame, s.zone_overrides.is_some())).collect();
    assert_eq!(
        ranges,
        vec![
            (0, 4, true),
            (4, 10, true),
            (10, 20, false),
            (20, 25, false),
            (25, 30, false),
            (30, 33, false),
            (33, 40, false),
        ]
    );
}

#[test]
fn detection_without_zones_reads_everything_once() {
    let zones = vec![];
    let mut progress = SceneDetectProgress::start(&zones);
    assert_eq!(progress.next_detection(&zones, 12), (12, None));
    let mut scenes = Vec::new();
    assert_eq!(progress.record(&zones, 100, 100, &vec![0, 40, 70], &mut scenes), Ok(true));
    let ranges: Vec<(usize, usize)> = scenes.iter().map(|s| (s.start_frame, s.end_frame)).collect();
    assert_eq!(ranges, vec![(0, 40), (40, 70), (70, 100)]);
}

#[test]
fn detection_of_adjacent_zones_ending_the_video() {
    let zones = vec![detection_zone(0, 50, None), detection_zone(50, 100, Some(8))];
    let mut progress = SceneDetectProgress::start(&zones);
    let mut scenes = Vec::new();
    assert_eq!(progress.record(&zones, 100, 50, &vec![0], &mut scenes), Ok(false));
    assert_eq!(progress.next_detection(&zones, 24), (8, Some(50)));
    assert_eq!(progress.record(&zones, 100, 50, &vec![0, 20], &mut scenes), Ok(true));
    let ranges: Vec<(usize, usize)> = scenes.iter().map(|s| (s.start_frame, s.end_frame)).collect();
    assert_eq!(ranges, vec![(0, 50), (50, 70), (70, 100)]);
}

#[test]
fn empty_scenes_need_no_split_size() {
    let scenes = vec![scene(0, 0), scene(0, 0)];
    let out = simple_extra_splits(&scenes, 0);
    assert_eq!(ranges(&out), vec![(0, 0), (0, 0)]);
}
