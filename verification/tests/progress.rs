use std::collections::BTreeMap;
use andean_condor::encoding::Encoder;
use andean_condor::ffmpeg::{compose_ffmpeg_pipe, escape_filter_path, escape_path_in_filter, get_keyframes, get_num_frames};
use andean_condor::flowencode::{
    capabilities, emit_chunk_plan, emit_chunk_progress, emit_input_probed, emit_run_completed, emit_run_failed,
    emit_run_started, encoder_name, metric_name, EventPayload, ProgressFormat, TargetMetric,
    FLOWENCODE_PROTOCOL_VERSION,
};
use andean_condor::parallel_encoder::{
    CancelReaction, ParallelEncoderApp, ParallelEncoderConsoleEvent, SceneProgress, SceneTally,
};
use andean_condor::settings::Encoder as ChunkEncoder;

#[test]
fn ffmpeg_pipe_arguments() {
    let params = vec!["-vf".to_string(), "scale=1280:-2".to_string()];
    let args = compose_ffmpeg_pipe(&params, "yuv420p10le");
    assert_eq!(
        args,
        vec![
            "ffmpeg", "-y", "-hide_banner", "-loglevel", "error", "-i", "-", "-vf", "scale=1280:-2", "-pix_fmt",
            "yuv420p10le", "-strict", "-1", "-f", "yuv4mpegpipe", "-",
        ]
    );
}

#[test]
fn frame_count_of_video_stream() {
    assert_eq!(get_num_frames(&vec![0, 1, 0, 0, 2, 0], 0), 4);
    assert_eq!(get_num_frames(&vec![1, 1], 0), 0);
    assert_eq!(get_num_frames(&vec![], 3), 0);
}

#[test]
fn keyframes_of_video_stream() {
    let packets = vec![(0, true), (1, true), (0, false), (0, false), (1, false), (0, true)];
    assert_eq!(get_keyframes(&packets, 0), vec![0, 3]);
    // No key packet: frame 0 alone.
    assert_eq!(get_keyframes(&vec![(0, false), (0, false)], 0), vec![0]);
    assert_eq!(get_keyframes(&vec![], 0), vec![0]);
}

#[test]
fn capabilities_lists() {
    let c = capabilities("1.2.3");
    assert_eq!(c.protocol, FLOWENCODE_PROTOCOL_VERSION);
    assert_eq!(c.backend_version, "1.2.3");
    assert_eq!(c.supported_encoders, vec!["x264", "x265", "svt-av1"]);
    assert_eq!(c.supported_metrics.len(), 6);
    assert_eq!(c.interp_methods.last(), Some(&"cubic-polynomial"));
    assert_eq!(c.probing_stats[0], "auto");
}

#[test]
fn names_in_protocol() {
    assert_eq!(encoder_name(ChunkEncoder::svt_av1), "svt-av1");
    assert_eq!(encoder_name(ChunkEncoder::vpx), "vpx");
    assert_eq!(metric_name(TargetMetric::ButteraugliINF), "butteraugli-inf");
    assert_eq!(metric_name(TargetMetric::XPSNRWeighted), "xpsnr-weighted");
}

#[test]
fn events_only_in_jsonl() {
    assert!(emit_run_completed(ProgressFormat::Human).is_none());
    assert!(emit_chunk_plan(ProgressFormat::Human, 3).is_none());
    let e = emit_run_completed(ProgressFormat::Jsonl).expect("event");
    assert_eq!(e.event_type, "run_completed");
    assert!(matches!(e.payload, EventPayload::RunFinished { exit_code: 0 }));
}

#[test]
fn event_payloads() {
    let e = emit_run_started(ProgressFormat::Jsonl, ChunkEncoder::aom, TargetMetric::VMAF).expect("event");
    assert_eq!(e.event_type, "run_started");
    match e.payload {
        EventPayload::RunStarted { protocol, encoder, target_metric } => {
            assert_eq!(protocol, 1);
            assert_eq!(encoder, "aom");
            assert_eq!(target_metric, "vmaf");
        },
        _ => panic!("wrong payload"),
    }
    let p = emit_input_probed(ProgressFormat::Jsonl, true, (1920, 1080), 240).expect("event");
    match p.payload {
        EventPayload::InputProbed { input_kind, width, height, total_frames } => {
            assert_eq!((input_kind, width, height, total_frames), ("vapoursynth", 1920, 1080, 240));
        },
        _ => panic!("wrong payload"),
    }
    let c = emit_chunk_progress(ProgressFormat::Jsonl, 3, 10, Some(7)).expect("event");
    assert_eq!(c.event_type, "encode_progress");
    assert!(matches!(c.payload, EventPayload::EncodeProgress { fraction_done: 3, fraction_total: 10, chunk_index: Some(7) }));
    let f = emit_run_failed(ProgressFormat::Jsonl, 2, "boom").expect("event");
    match f.payload {
        EventPayload::RunFailed { exit_code, message } => {
            assert_eq!(exit_code, 2);
            assert_eq!(message, "boom");
        },
        _ => panic!("wrong payload"),
    }
}

#[test]
fn chunk_count_is_cut_to_32_bits() {
    let e = emit_chunk_plan(ProgressFormat::Jsonl, (1usize << 32) + 5).expect("event");
    assert!(matches!(e.payload, EventPayload::ChunkPlan { chunk_count: 5 }));
}

fn app() -> ParallelEncoderApp {
    let scenes = BTreeMap::from([
        (0, SceneTally { completed: 10, length: 10 }),
        (1, SceneTally { completed: 0, length: 20 }),
        (2, SceneTally { completed: 5, length: 30 }),
    ]);
    ParallelEncoderApp::new(2, Encoder::default(), scenes)
}

#[test]
fn parallel_encoder_initial_state() {
    let a = app();
    assert_eq!(a.initial_frames, 15);
    assert_eq!(a.totals(), (15, 60));
    assert!(a.active_scenes.is_empty());
    assert!(a.totals_fit());
}

#[test]
fn parallel_encoder_progress_and_completion() {
    let mut a = app();
    assert!(a.on_progress(1, 1, 2, 4, 20));
    assert_eq!(a.active_scenes.len(), 1);
    // Not the last pass: frames done unchanged.
    assert_eq!(a.totals(), (15, 60));
    assert!(!a.on_progress(1, 2, 2, 12, 20));
    assert_eq!(a.totals(), (27, 60));
    assert_eq!(a.active_scenes[&1].current_pass, 2);
    assert_eq!(
        a.progress_event(1, 2, 2, 12, 20),
        ParallelEncoderConsoleEvent::Progress {
            scene: SceneProgress { index: 1, current_pass: 2, total_passes: 2, current_frame: 12, total_frames: 20 },
            current_frame: 27,
            total_frames: 60,
        }
    );
    // Last frame of the last pass: no longer active.
    assert!(!a.on_progress(1, 2, 2, 20, 20));
    assert!(a.active_scenes.is_empty());
    assert_eq!(a.totals(), (35, 60));
    a.on_progress(2, 1, 1, 7, 30);
    a.on_scene_completed(2);
    assert!(a.active_scenes.is_empty());
    assert_eq!(a.totals(), (60, 60));
}

#[test]
fn parallel_encoder_cancel() {
    let mut a = app();
    assert_eq!(a.on_cancel(false), CancelReaction::WaitForEncoders);
    assert!(a.attempted_cancel);
    assert_eq!(a.on_cancel(true), CancelReaction::ForceQuit);
}

#[test]
fn parallel_encoder_totals_overflow_detected() {
    let scenes = BTreeMap::from([
        (0, SceneTally { completed: 0, length: u64::MAX }),
        (1, SceneTally { completed: 0, length: 1 }),
    ]);
    let a = ParallelEncoderApp::new(1, Encoder::default(), scenes);
    assert!(!a.totals_fit());
}

#[test]
fn filter_paths_are_escaped() {
    assert_eq!(escape_filter_path("/videos/a[1],b.mkv", false), "/videos/a\\[1\\]\\,b.mkv");
    assert_eq!(escape_filter_path("C:\\videos\\a[1].mkv", true), "C\\\\:/videos/a\\[1\\].mkv");
    assert_eq!(escape_filter_path("C:\\x", false), "C:\\x");
    let here = escape_path_in_filter("/tmp/clip,1.mkv");
    assert!(here == "/tmp/clip\\,1.mkv");
}

#[test]
fn scene_starts_once() {
    let mut a = app();
    // First report of scene 1: it starts and stays active.
    assert!(a.on_progress(1, 1, 1, 3, 20));
    assert_eq!(a.active_scenes.len(), 1);
    assert_eq!(a.active_scenes[&1].scene_index, 1);
    // Later reports do not start it again.
    assert!(!a.on_progress(1, 1, 1, 4, 20));
    assert!(!a.on_progress(1, 1, 1, 5, 20));
    assert_eq!(a.active_scenes.len(), 1);
}

#[test]
fn completed_scene_keeps_workers_and_encoder() {
    let mut a = app();
    a.on_progress(1, 1, 1, 3, 20);
    a.on_scene_completed(1);
    assert_eq!(a.workers, 2);
    assert!(a.active_scenes.is_empty());
    assert_eq!(a.totals(), (35, 60));
}
