use andean_condor::condor::concat_tool_name;
use andean_condor::validation::{dgindex_tool_name, ffmpeg_tool_name};
use andean_condor::validation::model_path;
use andean_condor::settings::{
    Av1anSettings, ChunkMethod, ChunkOrdering, ChunkSettings, ConcatMethod, Encoder, EncoderSettings,
    RateControlWarning,
};
use andean_condor::flowencode::TargetMetric;
use andean_condor::input::{ImportMethod, Input, VapourSynthScriptSource};
use andean_condor::validation::{
    validate_av1an_settings, validate_chunk_settings, validate_chunk_settings_with, validate_encoder_settings,
    validate_io_settings_with, validate_tq_settings, validate_tq_settings_with, MetricPlugins, ProxyCheck, SettingsError, SettingsWarning, SourcePlugins,
    TargetQualityCheck, ZipPlugin,
};

fn run_settings(max_tries: usize, ignore_frame_mismatch: bool) -> Av1anSettings {
    Av1anSettings {
        resume: false,
        keep: false,
        force: false,
        ignore_frame_mismatch,
        max_tries,
        sc_only: false,
        workers: 1,
        set_thread_affinity: None,
    }
}

fn encoder_settings(encoder: Encoder, passes: u8, params: &[&str]) -> EncoderSettings {
    EncoderSettings {
        encoder,
        passes,
        video_params: params.iter().map(|p| p.to_string()).collect(),
        tiles: None,
        photon_noise: None,
        photon_noise_size: (None, None),
        chroma_noise: false,
        zones: None,
    }
}

fn chunks(chunk_method: ChunkMethod, concat: ConcatMethod) -> ChunkSettings {
    ChunkSettings { chunk_method, chunk_order: ChunkOrdering::LongestFirst, concat }
}

fn all_plugins() -> Option<SourcePlugins> {
    Some(SourcePlugins { lsmash: true, ffms2: true, dgdecnv: true, bestsource: true })
}

fn strings(v: &[&str]) -> Vec<String> {
    v.iter().map(|s| s.to_string()).collect()
}

#[test]
fn run_settings_need_a_try() {
    assert_eq!(validate_av1an_settings(&run_settings(0, true)), Err(SettingsError::NoTries));
    assert_eq!(validate_av1an_settings(&run_settings(3, false)), Ok(vec![]));
    assert_eq!(validate_av1an_settings(&run_settings(1, true)), Ok(vec![SettingsWarning::FrameCountMayDiffer]));
}

#[test]
fn encoder_checks_in_order() {
    let mut s = encoder_settings(Encoder::x264, 1, &[]);
    s.photon_noise = Some(10);
    assert_eq!(validate_encoder_settings(&mut s, false, false, &vec![]), Err(SettingsError::EncoderNotFound(Encoder::x264)));
    assert_eq!(
        validate_encoder_settings(&mut s, false, true, &vec![]),
        Err(SettingsError::PhotonNoiseUnsupported(Encoder::x264))
    );
    let mut strong = encoder_settings(Encoder::aom, 2, &["--rt"]);
    strong.photon_noise = Some(65);
    assert_eq!(validate_encoder_settings(&mut strong, true, true, &vec![]), Err(SettingsError::PhotonNoiseStrength(65)));
    assert_eq!(strong.passes, 2);
}

#[test]
fn realtime_aom_encodes_in_one_pass() {
    let mut s = encoder_settings(Encoder::aom, 2, &["--rt", "--end-usage=q", "--cq-level=30"]);
    let valid = strings(&["--rt", "--end-usage", "--cq-level"]);
    assert_eq!(validate_encoder_settings(&mut s, false, true, &valid), Ok(vec![]));
    assert_eq!(s.passes, 1);
    let mut x = encoder_settings(Encoder::x265, 2, &["--rt"]);
    assert_eq!(validate_encoder_settings(&mut x, true, true, &vec![]), Ok(vec![]));
    assert_eq!(x.passes, 2);
}

#[test]
fn unknown_encoder_options_are_refused_unless_forced() {
    let mut s = encoder_settings(Encoder::aom, 1, &["--cpu-used=4", "--bogus=1", "30", "--end-usage=q"]);
    let valid = strings(&["--cpu-used", "--end-usage"]);
    assert_eq!(
        validate_encoder_settings(&mut s, false, true, &valid),
        Err(SettingsError::InvalidParameters(strings(&["--bogus"])))
    );
    assert_eq!(validate_encoder_settings(&mut s, true, true, &valid), Ok(vec![]));
}

#[test]
fn encoder_rate_control_warnings_after_checks() {
    let mut s = encoder_settings(Encoder::aom, 1, &["--cpu-used=4"]);
    let valid = strings(&["--cpu-used"]);
    assert_eq!(
        validate_encoder_settings(&mut s, false, true, &valid),
        Ok(vec![RateControlWarning::EndUsageMissing, RateControlWarning::RateMissing])
    );
    let mut svt = encoder_settings(Encoder::svt_av1, 1, &["--preset", "4"]);
    svt.photon_noise = Some(8);
    assert_eq!(validate_encoder_settings(&mut svt, false, true, &vec![]), Ok(vec![]));
}

#[test]
fn ivf_holds_only_vp8_vp9_and_av1() {
    let x264 = encoder_settings(Encoder::x264, 1, &[]);
    let (w, r) = validate_chunk_settings_with(&chunks(ChunkMethod::Hybrid, ConcatMethod::Ivf), &x264, false, None, true, true);
    assert!(w.is_empty());
    assert_eq!(r, Err(SettingsError::IvfUnsupported(Encoder::x264)));
    let rav1e = encoder_settings(Encoder::rav1e, 1, &[]);
    let (w, r) = validate_chunk_settings_with(&chunks(ChunkMethod::Hybrid, ConcatMethod::Ivf), &rav1e, false, None, true, true);
    assert!(w.is_empty());
    assert_eq!(r, Ok(()));
}

#[test]
fn missing_mkvmerge_is_fatal_unless_only_detecting_scenes() {
    let svt = encoder_settings(Encoder::svt_av1, 1, &[]);
    let settings = chunks(ChunkMethod::LSMASH, ConcatMethod::MKVMerge);
    let (w, r) = validate_chunk_settings_with(&settings, &svt, false, all_plugins(), false, true);
    assert!(w.is_empty());
    assert_eq!(r, Err(SettingsError::MkvmergeNotFound));
    let (w, r) = validate_chunk_settings_with(&settings, &svt, true, all_plugins(), false, true);
    assert_eq!(w, vec![SettingsWarning::MkvmergeMissing]);
    assert_eq!(r, Ok(()));
}

#[test]
fn x265_and_vpx_want_mkvmerge() {
    let x265 = encoder_settings(Encoder::x265, 1, &[]);
    let (_, r) = validate_chunk_settings_with(&chunks(ChunkMethod::Hybrid, ConcatMethod::FFmpeg), &x265, false, None, true, true);
    assert_eq!(r, Err(SettingsError::X265NeedsMkvmerge));
    let vpx = encoder_settings(Encoder::vpx, 1, &[]);
    let (w, r) = validate_chunk_settings_with(&chunks(ChunkMethod::Select, ConcatMethod::FFmpeg), &vpx, false, None, true, true);
    assert_eq!(w, vec![SettingsWarning::VpxPrefersMkvmerge, SettingsWarning::SelectIsSlow]);
    assert_eq!(r, Ok(()));
}

#[test]
fn chunk_method_needs_its_plugin() {
    let aom = encoder_settings(Encoder::aom, 1, &[]);
    let none = Some(SourcePlugins { lsmash: false, ffms2: false, dgdecnv: true, bestsource: false });
    for method in [ChunkMethod::LSMASH, ChunkMethod::FFMS2, ChunkMethod::BESTSOURCE] {
        let (_, r) = validate_chunk_settings_with(&chunks(method, ConcatMethod::MKVMerge), &aom, false, none, true, true);
        assert_eq!(r, Err(SettingsError::ChunkMethodUnavailable(method)));
    }
    let dg = chunks(ChunkMethod::DGDECNV, ConcatMethod::MKVMerge);
    assert_eq!(validate_chunk_settings_with(&dg, &aom, false, none, true, false).1, Err(SettingsError::ChunkMethodUnavailable(ChunkMethod::DGDECNV)));
    assert_eq!(validate_chunk_settings_with(&dg, &aom, false, none, true, true).1, Ok(()));
    assert_eq!(
        validate_chunk_settings_with(&chunks(ChunkMethod::LSMASH, ConcatMethod::MKVMerge), &aom, false, None, true, true).1,
        Err(SettingsError::ChunkMethodUnavailable(ChunkMethod::LSMASH))
    );
}

#[test]
fn keyframe_filtering_two_needs_mkvmerge() {
    let aom = encoder_settings(Encoder::aom, 1, &["--enable-keyframe-filtering=2"]);
    let (_, r) = validate_chunk_settings_with(&chunks(ChunkMethod::Hybrid, ConcatMethod::FFmpeg), &aom, false, None, true, true);
    assert_eq!(r, Err(SettingsError::KeyframeFilteringNeedsMkvmerge));
    let (_, r) = validate_chunk_settings_with(&chunks(ChunkMethod::Hybrid, ConcatMethod::MKVMerge), &aom, false, None, true, true);
    assert_eq!(r, Ok(()));
}

#[test]
fn chunk_checks_without_tools_to_find() {
    let rav1e = encoder_settings(Encoder::rav1e, 1, &[]);
    let (w, r) = validate_chunk_settings(&chunks(ChunkMethod::Segment, ConcatMethod::FFmpeg), &rav1e, false, None);
    assert!(w.is_empty());
    assert_eq!(r, Ok(()));
}


fn video() -> Input {
    Input::Video { path: "in.mkv".to_string(), import_method: ImportMethod::FFmpeg }
}

fn tq(metric: TargetMetric, probing_rate: usize, probes: u32, probe_res: Option<&str>) -> Option<TargetQualityCheck> {
    Some(TargetQualityCheck { metric, probing_rate, probes, probe_res: probe_res.map(|s| s.to_string()), model: None })
}

fn plugins(vship: bool, vszip: ZipPlugin, julek: bool) -> Option<MetricPlugins> {
    Some(MetricPlugins { vship, vszip, julek })
}

#[test]
fn no_target_quality_nothing_to_check() {
    let (w, r) = validate_tq_settings_with(&None, &video(), None, ChunkMethod::Select, false, true, false);
    assert!(w.is_empty());
    assert_eq!(r, Ok(()));
}

#[test]
fn target_quality_model_must_exist() {
    let mut t = tq(TargetMetric::VMAF, 1, 4, None);
    t.as_mut().unwrap().model = Some("/no/such/model.json".to_string());
    let (_, r) = validate_tq_settings_with(&t, &video(), None, ChunkMethod::Hybrid, false, false, true);
    assert_eq!(r, Err(SettingsError::ModelNotFound));
    let (_, r) = validate_tq_settings(&t, &video(), None, ChunkMethod::Hybrid, false, true);
    assert_eq!(r, Err(SettingsError::ModelNotFound));
}

#[test]
fn metrics_need_their_library_or_plugin() {
    let (_, r) = validate_tq_settings_with(&tq(TargetMetric::VMAF, 1, 4, None), &video(), None, ChunkMethod::Hybrid, true, false, false);
    assert_eq!(r, Err(SettingsError::MetricLibraryMissing(TargetMetric::VMAF)));
    let (_, r) = validate_tq_settings_with(&tq(TargetMetric::XPSNR, 1, 4, None), &video(), None, ChunkMethod::Hybrid, true, false, true);
    assert_eq!(r, Ok(()));
    let older = plugins(false, ZipPlugin::BeforeR7, false);
    let (_, r) = validate_tq_settings_with(&tq(TargetMetric::XPSNRWeighted, 2, 4, None), &video(), older, ChunkMethod::LSMASH, true, false, true);
    assert_eq!(r, Err(SettingsError::MetricPluginMissing(TargetMetric::XPSNRWeighted)));
    let (_, r) = validate_tq_settings_with(&tq(TargetMetric::SSIMULACRA2, 1, 4, None), &video(), older, ChunkMethod::LSMASH, true, false, false);
    assert_eq!(r, Ok(()));
    let (_, r) = validate_tq_settings_with(&tq(TargetMetric::SSIMULACRA2, 1, 4, None), &video(), older, ChunkMethod::Hybrid, true, false, false);
    assert_eq!(r, Err(SettingsError::MetricChunkMethod(TargetMetric::SSIMULACRA2)));
    let julek = plugins(false, ZipPlugin::Missing, true);
    let (_, r) = validate_tq_settings_with(&tq(TargetMetric::ButteraugliINF, 1, 4, None), &video(), julek, ChunkMethod::FFMS2, true, false, false);
    assert_eq!(r, Ok(()));
    let (_, r) = validate_tq_settings_with(&tq(TargetMetric::Butteraugli3, 1, 4, None), &video(), julek, ChunkMethod::FFMS2, true, false, false);
    assert_eq!(r, Err(SettingsError::MetricPluginMissing(TargetMetric::Butteraugli3)));
}

#[test]
fn probe_resolution_and_probe_count() {
    let script = Input::VapourSynthScript { source: VapourSynthScriptSource::Path("a.vpy".to_string()), variables: vec![], index: 0 };
    let (w, r) = validate_tq_settings_with(&tq(TargetMetric::VMAF, 1, 3, Some("1280x720")), &script, None, ChunkMethod::Hybrid, true, true, true);
    assert_eq!(w, vec![SettingsWarning::ScriptOutsideWorkingDirectory, SettingsWarning::FewProbes]);
    assert_eq!(r, Ok(()));
    let (w, r) = validate_tq_settings_with(&tq(TargetMetric::VMAF, 1, 8, Some("1280x720")), &video(), None, ChunkMethod::Hybrid, true, true, true);
    assert!(w.is_empty());
    assert_eq!(r, Ok(()));
    for bad in ["1280", "1280x720x2", "x"] {
        let (_, r) = validate_tq_settings_with(&tq(TargetMetric::VMAF, 1, 8, Some(bad)), &video(), None, ChunkMethod::Hybrid, true, false, true);
        let expected = if bad == "x" { SettingsError::ProbeResolutionNumbers } else { SettingsError::ProbeResolutionFormat };
        assert_eq!(r, Err(expected));
    }
    for bad in ["-1x720", "1280x", "1280xabc", "4294967296x1"] {
        let (_, r) = validate_tq_settings_with(&tq(TargetMetric::VMAF, 1, 8, Some(bad)), &video(), None, ChunkMethod::Hybrid, true, false, true);
        assert_eq!(r, Err(SettingsError::ProbeResolutionNumbers));
    }
    let (_, r) = validate_tq_settings_with(&tq(TargetMetric::VMAF, 1, 8, Some("+64x4294967295")), &video(), None, ChunkMethod::Hybrid, true, false, true);
    assert_eq!(r, Ok(()));
}

#[test]
fn inputs_and_proxies_must_exist_and_agree() {
    assert_eq!(validate_io_settings_with(false, None), Err(SettingsError::InputNotFound));
    assert_eq!(validate_io_settings_with(true, None), Ok(()));
    let missing = ProxyCheck { found: false, input_frames: 0, proxy_frames: 0 };
    assert_eq!(validate_io_settings_with(true, Some(missing)), Err(SettingsError::ProxyNotFound));
    let short = ProxyCheck { found: true, input_frames: 100, proxy_frames: 99 };
    assert_eq!(validate_io_settings_with(true, Some(short)), Err(SettingsError::ProxyFrameMismatch(100, 99)));
    let same = ProxyCheck { found: true, input_frames: 100, proxy_frames: 100 };
    assert_eq!(validate_io_settings_with(true, Some(same)), Ok(()));
}

#[test]
fn tool_names_looked_up() {
    assert_eq!(concat_tool_name(ConcatMethod::FFmpeg), "ffmpeg");
    assert_eq!(concat_tool_name(ConcatMethod::MKVMerge), "mkvmerge");
    assert_eq!(ffmpeg_tool_name(), "ffmpeg");
    assert_eq!(dgindex_tool_name(), "dgindexnv");
}

#[test]
fn model_file_looked_for_only_when_set() {
    assert_eq!(model_path(&None), None);
    let mut t = TargetQualityCheck { metric: TargetMetric::VMAF, probing_rate: 1, probes: 4, probe_res: None, model: None };
    assert_eq!(model_path(&Some(t)), None);
    t = TargetQualityCheck {
        metric: TargetMetric::VMAF,
        probing_rate: 1,
        probes: 4,
        probe_res: None,
        model: Some("models/vmaf.json".to_string()),
    };
    assert_eq!(model_path(&Some(t)).map(|s| s.as_str()), Some("models/vmaf.json"));
}
