use andean_condor::cli::{DecoderMethod, SceneDetectionMethod as CliMethod};
use andean_condor::cli_parameter::CLIParameter;
use andean_condor::condor::{Condor, Output, OutputError, ParallelEncoderConfig, Scene};
use andean_condor::configuration::{vs_input_model_for, CondorCliError, Configuration};
use andean_condor::encoder_info::EncoderInfo;
use andean_condor::encoding::{Encoder, EncoderBase, EncoderPasses};
use andean_condor::input::{ImportMethod, Input, VapourSynthImportMethod, VapourSynthScriptSource};
use andean_condor::processing::{ParallelEncoderProcessing, SceneDetectionProcessing};
use andean_condor::scene_detection::{SceneDetectionMethod, SceneDetector, SceneDetectorConfig, ScenecutMethod};
use andean_condor::settings::ConcatMethod;

fn args(v: &[&str]) -> Vec<String> {
    v.iter().map(|s| s.to_string()).collect()
}

#[test]
fn cli_method_to_core_method() {
    assert_eq!(
        CliMethod::Fast.as_core_method(None, None),
        SceneDetectionMethod::AVSceneChange { minimum_length: 24, maximum_length: 240, method: ScenecutMethod::Fast }
    );
    assert_eq!(
        CliMethod::NoDetection.as_core_method(Some(10), Some(100)),
        SceneDetectionMethod::NoDetection { minimum_length: 10, maximum_length: 100 }
    );
    assert_eq!(
        CliMethod::Standard.as_core_method(Some(1), None),
        SceneDetectionMethod::AVSceneChange { minimum_length: 1, maximum_length: 240, method: ScenecutMethod::Standard }
    );
}

#[test]
fn decoder_names_round_trip() {
    for d in [
        DecoderMethod::BestSource,
        DecoderMethod::VSFFMS2,
        DecoderMethod::LSMASHWorks,
        DecoderMethod::DGDecodeNV,
        DecoderMethod::FFMS2,
    ] {
        assert_eq!(DecoderMethod::from_name(d.name()), Some(d));
    }
    assert_eq!(DecoderMethod::from_name("lsmash"), Some(DecoderMethod::LSMASHWorks));
    assert_eq!(DecoderMethod::from_name("nope"), None);
}

#[test]
fn script_input_with_variables() {
    let vs_args = args(&["a=1", "b", "a=2", "c=x=y"]);
    let input = vs_input_model_for("job.vpy", Some("vpy".to_string()), None, Some(&vs_args));
    match input {
        Input::VapourSynthScript { source, variables, index } => {
            assert_eq!(source, VapourSynthScriptSource::Path("job.vpy".to_string()));
            assert_eq!(index, 0);
            assert_eq!(
                variables,
                vec![
                    ("a".to_string(), "2".to_string()),
                    ("b".to_string(), String::new()),
                    ("c".to_string(), "x=y".to_string()),
                ]
            );
        },
        _ => panic!("expected a script input"),
    }
}

#[test]
fn video_input_through_vapoursynth() {
    let input = vs_input_model_for("movie.mkv", Some("mkv".to_string()), None, None);
    assert_eq!(
        input,
        Input::VapourSynth {
            path: "movie.mkv".to_string(),
            import_method: VapourSynthImportMethod::BestSource { index: None },
            cache_path: None,
        }
    );
    let with_decoder = Configuration::new_vs_input_model(
        "movie.mkv",
        Some(VapourSynthImportMethod::LSMASHWorks { index: Some(1) }),
        None,
    );
    assert_eq!(
        with_decoder,
        Input::VapourSynth {
            path: "movie.mkv".to_string(),
            import_method: VapourSynthImportMethod::LSMASHWorks { index: Some(1) },
            cache_path: None,
        }
    );
    let script = Configuration::new_vs_input_model("/jobs/run.py", None, None);
    assert!(matches!(script, Input::VapourSynthScript { .. }));
}

#[test]
fn input_model_for_decoder_choice() {
    assert_eq!(
        Configuration::new_input_model("a.mkv", Some(DecoderMethod::FFMS2), None),
        Input::Video { path: "a.mkv".to_string(), import_method: ImportMethod::FFMS2 }
    );
    assert_eq!(
        Configuration::new_input_model("a.mkv", Some(DecoderMethod::DGDecodeNV), None),
        Input::VapourSynth {
            path: "a.mkv".to_string(),
            import_method: VapourSynthImportMethod::DGDecNV { dgindexnv_executable: None },
            cache_path: None,
        }
    );
    assert_eq!(
        Configuration::new_input_model("a.mkv", None, None),
        Input::VapourSynth {
            path: "a.mkv".to_string(),
            import_method: VapourSynthImportMethod::BestSource { index: None },
            cache_path: None,
        }
    );
}

#[test]
fn decoder_change_keeps_path() {
    let script_text = Input::VapourSynthScript {
        source: VapourSynthScriptSource::Text("clip = ...".to_string()),
        variables: vec![],
        index: 0,
    };
    assert_eq!(
        Configuration::input_with_decoder(&script_text, DecoderMethod::BestSource, None),
        Err(CondorCliError::DecoderWithoutInput)
    );
    assert_eq!(
        Configuration::input_with_decoder(&script_text, DecoderMethod::FFMS2, Some("in.mkv")),
        Ok(Input::Video { path: "in.mkv".to_string(), import_method: ImportMethod::FFMS2 })
    );
    let video = Input::Video { path: "v.mkv".to_string(), import_method: ImportMethod::FFmpeg };
    assert_eq!(
        Configuration::input_with_decoder(&video, DecoderMethod::VSFFMS2, None),
        Ok(Input::VapourSynth {
            path: "v.mkv".to_string(),
            import_method: VapourSynthImportMethod::FFMS2 { index: None },
            cache_path: None,
        })
    );
}

#[test]
fn start_and_detect_requirements() {
    assert_eq!(Configuration::check_start(true, false, false, false), Err(CondorCliError::NoConfigOrInputOrOutput));
    assert_eq!(Configuration::check_start(false, false, true, false), Err(CondorCliError::NoConfigOrInputOrOutput));
    assert_eq!(Configuration::check_start(false, false, true, true), Ok(()));
    assert_eq!(Configuration::check_start(false, true, false, false), Ok(()));
    assert_eq!(Configuration::check_detect_scenes(true, false, false), Err(CondorCliError::NoConfigOrInput));
    assert_eq!(Configuration::check_detect_scenes(false, true, false), Ok(()));
    assert_eq!(Configuration::check_detect_scenes(false, false, true), Ok(()));
}

fn configuration() -> Configuration {
    Configuration::new("/in/movie.mkv", "/out/movie.mkv", "/tmp/condor", "/tmp/condor/scenes", None, 24)
}

#[test]
fn new_configuration_defaults() {
    let c = configuration();
    assert_eq!(c.input, "/in/movie.mkv");
    assert_eq!(c.condor.output.path, "/out/movie.mkv");
    assert_eq!(c.condor.encoder.base(), EncoderBase::SVTAV1);
    assert_eq!(c.condor.encoder.parameters().len(), 6);
    assert_eq!(
        c.condor.processor_config.scene_detection.method,
        SceneDetectionMethod::AVSceneChange { minimum_length: 24, maximum_length: 240, method: ScenecutMethod::Standard }
    );
    assert_eq!(c.condor.processor_config.parallel_encoder.workers, 1);
    assert_eq!(c.condor.processor_config.concat_method, ConcatMethod::MKVMerge);
}

#[test]
fn start_encoder_options() {
    let mut c = configuration();
    c.apply_encoder_options(Some(EncoderBase::AOM), Some(1), Some("--cq-level=20 --tune=ssim"), Some(800));
    let e = &c.condor.encoder;
    assert_eq!(e.base(), EncoderBase::AOM);
    assert_eq!(e.passes(), EncoderPasses::All(1));
    assert_eq!(e.parameters().get("cq-level"), Some(&CLIParameter::new_number("--", "=", 20)));
    assert_eq!(e.parameters().get("tune"), Some(&CLIParameter::new_string("--", "=", "ssim")));
    assert_eq!(e.parameters().get("cpu-used"), Some(&CLIParameter::new_number("--", "=", 6)));
    match e {
        Encoder::AOM { photon_noise: Some(n), .. } => assert_eq!(n.iso, 800),
        _ => panic!("expected aom with photon noise"),
    }
    let mut d = configuration();
    d.apply_encoder_options(None, None, Some("--crf 30"), None);
    assert_eq!(d.condor.encoder.base(), EncoderBase::SVTAV1);
    assert_eq!(d.condor.encoder.parameters().get("crf"), Some(&CLIParameter::new_number("--", " ", 30)));
}

#[test]
fn detect_scenes_lengths() {
    let mut c = configuration();
    c.apply_scene_detection(None, Some(12), None);
    assert_eq!(
        c.condor.processor_config.scene_detection.method,
        SceneDetectionMethod::AVSceneChange { minimum_length: 12, maximum_length: 240, method: ScenecutMethod::Standard }
    );
    c.apply_scene_detection(Some(CliMethod::NoDetection), None, Some(48));
    assert_eq!(
        c.condor.processor_config.scene_detection.method,
        SceneDetectionMethod::NoDetection { minimum_length: 12, maximum_length: 48 }
    );
}

fn output(method: ConcatMethod) -> Output {
    Output {
        path: "/out/a.mkv".to_string(),
        concatenation_method: method,
        tags: vec![("title".to_string(), "A".to_string())],
        video_tags: vec![],
    }
}

#[test]
fn output_checks() {
    let o = output(ConcatMethod::MKVMerge);
    assert_eq!(Output::check(&o, false, true), Ok(vec![]));
    assert_eq!(Output::check(&o, true, true), Ok(vec![OutputError::ValidationFailed("/out/a.mkv".to_string())]));
    assert_eq!(Output::check(&o, false, false), Err(OutputError::ToolNotFound("mkvmerge".to_string())));
    let f = output(ConcatMethod::FFmpeg);
    assert_eq!(Output::check(&f, false, false), Err(OutputError::ToolNotFound("ffmpeg".to_string())));
    let copy = o.as_data();
    assert_eq!(copy.tags, o.tags);
}

#[test]
fn condor_appends_planned_scenes() {
    let input = Input::Video { path: "a.mkv".to_string(), import_method: ImportMethod::FFmpeg };
    let mut condor: Condor<ParallelEncoderConfig> =
        Condor::new(input, output(ConcatMethod::MKVMerge), Encoder::default(), vec![], None);
    assert_eq!(condor.processor_config.workers, 1);
    assert_eq!(condor.last_scene_end(), None);
    let detector = SceneDetector::new(SceneDetectionMethod::NoDetection { minimum_length: 1, maximum_length: 10 });
    let plan = detector.plan(condor.last_scene_end(), 25, &vec![]).expect("not complete");
    condor.append_scenes(&plan);
    let ranges: Vec<(usize, usize)> = condor.scenes.iter().map(|s: &Scene| (s.start_frame, s.end_frame)).collect();
    assert_eq!(ranges, vec![(0, 10), (10, 20), (20, 25)]);
    assert_eq!(condor.last_scene_end(), Some(25));
    assert_eq!(detector.plan(condor.last_scene_end(), 25, &vec![]), None);
    assert!(condor.scenes.iter().all(|s| s.encoder.base() == EncoderBase::SVTAV1));
}

#[test]
fn encoder_info_hides_inherited_parameters() {
    let mut parent = Encoder::default();
    parent.parameters_mut().insert_number("crf", "--", " ", 30);
    parent.parameters_mut().insert_number("preset", "--", " ", 4);
    let mut scene = parent.duplicate();
    scene.parameters_mut().insert_number("crf", "--", " ", 25);
    let info = EncoderInfo::new(scene, Some(parent));
    let shown = info.scene_parameters();
    assert_eq!(shown.len(), 1);
    assert_eq!(shown.get("crf"), Some(&CLIParameter::new_number("--", " ", 25)));
    let alone = EncoderInfo::new(Encoder::default(), None);
    assert_eq!(alone.scene_parameters().len(), 0);
}

#[test]
fn processing_settings() {
    let mut sd = SceneDetector::new(SceneDetectionMethod::default());
    sd.set_scene_detection_method(SceneDetectionMethod::NoDetection { minimum_length: 2, maximum_length: 8 });
    assert_eq!(sd.get_scene_detection_method(), SceneDetectionMethod::NoDetection { minimum_length: 2, maximum_length: 8 });
    sd.set_scene_detection_input(Input::Video { path: "x".to_string(), import_method: ImportMethod::FFMS2 });
    let config = SceneDetectorConfig::from_scene_detector(&sd);
    assert_eq!(config.input, Some(Input::Video { path: "x".to_string(), import_method: ImportMethod::FFMS2 }));
    let mut pe = ParallelEncoderConfig::default();
    pe.set_workers(4);
    assert_eq!(pe.get_workers(), 4);
}

#[test]
fn scripts_in_folders_are_read_as_scripts() {
    let args = vec!["a=1".to_string()];
    match Configuration::new_input_model("scripts/v1.2/clip.vpy", None, Some(&args)) {
        Input::VapourSynthScript { source, variables, index } => {
            assert_eq!(source, VapourSynthScriptSource::Path("scripts/v1.2/clip.vpy".to_string()));
            assert_eq!(variables, vec![("a".to_string(), "1".to_string())]);
            assert_eq!(index, 0);
        },
        other => panic!("expected a script, got {other:?}"),
    }
    assert_eq!(
        Configuration::new_vs_input_model("videos.vpy/.hidden", None, None),
        Input::VapourSynth { path: "videos.vpy/.hidden".to_string(), import_method: VapourSynthImportMethod::BestSource { index: None }, cache_path: None }
    );
}
