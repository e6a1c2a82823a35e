use andean_condor::command::ExecutableNotFound;
use andean_condor::cli_parameter::{CLIParameter, ParameterMap};
use andean_condor::encoding::{default_quantizer_range, Encoder, EncoderBase, EncoderError, EncoderPasses};
use andean_condor::settings::{
    insert_noise_table_params, invalid_params, ChunkMethod, EncoderSettings, InputPixelFormat, NoiseTableError,
    PixelFormatError, RateControlWarning, Encoder as ChunkEncoder,
};

fn strings(v: &[&str]) -> Vec<String> {
    v.iter().map(|s| s.to_string()).collect()
}

fn settings(encoder: ChunkEncoder, params: &[&str]) -> EncoderSettings {
    EncoderSettings {
        encoder,
        passes: 1,
        video_params: strings(params),
        tiles: None,
        photon_noise: None,
        photon_noise_size: (None, None),
        chroma_noise: false,
        zones: None,
    }
}

#[test]
fn default_passes_and_ranges() {
    assert_eq!(EncoderBase::AOM.default_passes(), EncoderPasses::All(2));
    assert_eq!(EncoderBase::VPX.default_passes(), EncoderPasses::All(2));
    assert_eq!(EncoderBase::SVTAV1.default_passes(), EncoderPasses::All(1));
    assert_eq!(default_quantizer_range(&EncoderBase::RAV1E), (50, 140));
    assert_eq!(default_quantizer_range(&EncoderBase::SVTAV1), (15, 50));
    assert_eq!(default_quantizer_range(&EncoderBase::X264), (15, 35));
}

#[test]
fn names_and_extensions() {
    assert_eq!(EncoderBase::SVTAV1.friendly_name(), "Scalable Video Technology for AV1");
    assert_eq!(EncoderBase::X265.output_extension(), "hevc");
    assert_eq!(Encoder::output_extension_base(&EncoderBase::FFmpeg), ".mkv");
    assert_eq!(Encoder::default_from_base(&EncoderBase::AOM, true).output_extension(), "ivf");
}

#[test]
fn default_parameters_of_svt() {
    let p = EncoderBase::SVTAV1.default_parameters();
    assert_eq!(p.len(), 6);
    assert_eq!(p.get("crf"), Some(&CLIParameter::new_number("--", " ", 25)));
    assert_eq!(p.get("preset"), Some(&CLIParameter::new_number("--", " ", 4)));
}

#[test]
fn pass_parameters_of_two_pass_aom() {
    let p = EncoderBase::AOM.pass_parameters((2, 2), "scene_0001");
    assert_eq!(p.get("pass"), Some(&CLIParameter::new_number("--", "=", 2)));
    assert_eq!(p.get("fpf"), Some(&CLIParameter::new_string("--", "=", "scene_0001.log")));
    assert_eq!(EncoderBase::AOM.pass_parameters((1, 1), "x").len(), 0);
}

#[test]
fn default_encoder_is_svt() {
    let e = Encoder::default();
    assert_eq!(e.base(), EncoderBase::SVTAV1);
    assert_eq!(e.passes(), EncoderPasses::All(1));
    assert_eq!(e.parameters().len(), 0);
    assert_eq!(e.total_passes(), 1);
}

#[test]
fn command_line_of_svt_single_pass() {
    let mut e = Encoder::default_from_base(&EncoderBase::SVTAV1, true);
    e.parameters_mut().insert_number("crf", "--", " ", 30);
    let args = e.command_parameters_with((1, 1), "out.ivf", "out", "/dev/null");
    // Parameters in insertion order: no defaults were kept, so crf, then input and output.
    assert!(args.windows(2).any(|w| w == ["--crf", "30"]));
    assert!(args.windows(2).any(|w| w == ["-i", "stdin"]));
    assert!(args.windows(2).any(|w| w == ["-b", "out.ivf"]));
    assert!(args.windows(2).any(|w| w == ["--preset", "4"]));
}

#[test]
fn command_line_first_pass_writes_to_null() {
    let e = Encoder::default_from_base(&EncoderBase::AOM, false);
    let args = e.command_parameters_with((1, 2), "out.ivf", "stats", "/dev/null");
    assert_eq!(args[0], "-");
    assert!(args.windows(2).any(|w| w == ["-o", "/dev/null"]));
    assert!(args.iter().any(|a| a == "--pass=1"));
    assert!(args.iter().any(|a| a == "--fpf=stats.log"));
}

#[test]
fn command_line_of_ffmpeg_puts_codec_first_and_output_last() {
    let mut e = Encoder::default_from_base(&EncoderBase::FFmpeg, true);
    e.parameters_mut().insert_string("c:v", "-", " ", "libx264");
    e.parameters_mut().insert_number("crf", "-", " ", 20);
    let args = e.command_parameters_with((1, 1), "out.mkv", "out", "/dev/null");
    assert_eq!(args, vec!["-i", "-", "-c:v", "libx264", "-crf", "20", "out.mkv"]);
}

#[test]
fn executable_prefers_existing_configured_path() {
    let e = Encoder::default_from_base(&EncoderBase::X264, true);
    assert_eq!(e.executable_if(true), "x264");
    assert_eq!(e.executable(), "x264");
}

#[test]
fn photon_noise_parameters() {
    let mut aom = Encoder::default_from_base(&EncoderBase::AOM, true);
    assert_eq!(aom.apply_photon_noise_parameters("grain.tbl"), Ok(()));
    assert_eq!(aom.parameters().get("film-grain-table"), Some(&CLIParameter::new_string("--", "=", "grain.tbl")));
    let mut x264 = Encoder::default_from_base(&EncoderBase::X264, true);
    assert_eq!(
        x264.apply_photon_noise_parameters("grain.tbl"),
        Err(EncoderError::PhotonNoiseNotSupported(EncoderBase::X264))
    );
}

#[test]
fn passes_can_be_changed() {
    let mut e = Encoder::default_from_base(&EncoderBase::X265, true);
    if let Some(p) = e.passes_mut() {
        *p = EncoderPasses::Specific(1, 2);
    }
    assert_eq!(e.passes(), EncoderPasses::Specific(1, 2));
    assert_eq!(e.total_passes(), 1);
    let mut f = Encoder::default_from_base(&EncoderBase::FFmpeg, true);
    assert!(f.passes_mut().is_none());
}

#[test]
fn duplicate_encoder_keeps_settings() {
    let mut e = Encoder::default_from_base(&EncoderBase::RAV1E, false);
    e.parameters_mut().insert_number("speed", "--", " ", 4);
    let d = e.duplicate();
    assert_eq!(d.base(), EncoderBase::RAV1E);
    assert_eq!(d.parameters().get("speed"), Some(&CLIParameter::new_number("--", " ", 4)));
    assert_eq!(d.parameters().len(), e.parameters().len());
}

#[test]
fn rate_control_warnings_for_aom_only() {
    let none = settings(ChunkEncoder::aom, &["--cpu-used=6"]);
    assert_eq!(
        none.check_rate_control(),
        vec![RateControlWarning::EndUsageMissing, RateControlWarning::RateMissing]
    );
    let full = settings(ChunkEncoder::aom, &["--end-usage=q", "--cq-level=30"]);
    assert_eq!(full.check_rate_control(), vec![]);
    let bitrate = settings(ChunkEncoder::aom, &["--end-usage=vbr", "--target-bitrate=2000"]);
    assert_eq!(bitrate.check_rate_control(), vec![]);
    let bad = settings(ChunkEncoder::aom, &["--end-usage=q1", "--cq-level="]);
    assert_eq!(
        bad.check_rate_control(),
        vec![RateControlWarning::EndUsageMissing, RateControlWarning::RateMissing]
    );
    let empty_bitrate = settings(ChunkEncoder::aom, &["--end-usage=vbr", "--target-bitrate="]);
    assert_eq!(empty_bitrate.check_rate_control(), vec![RateControlWarning::RateMissing]);
    let svt = settings(ChunkEncoder::svt_av1, &[]);
    assert_eq!(svt.check_rate_control(), vec![]);
}

#[test]
fn option_names_to_validate() {
    let aom = settings(ChunkEncoder::aom, &["--cq-level=30", "-v", "plain", "--end-usage=q"]);
    assert_eq!(aom.params_to_validate(), strings(&["--cq-level", "-v", "--end-usage"]));
    let x264 = settings(ChunkEncoder::x264, &["--crf", "20"]);
    assert_eq!(x264.params_to_validate(), Vec::<String>::new());
}

#[test]
fn invalid_params_keep_order() {
    let params = strings(&["--crf", "--bogus", "--preset", "--nope"]);
    let valid = strings(&["--crf", "--preset"]);
    assert_eq!(invalid_params(&params, &valid), strings(&["--bogus", "--nope"]));
}

#[test]
fn noise_table_for_aom() {
    let mut v = strings(&["--cpu-used=6", "--denoise-noise-level=50", "--end-usage=q"]);
    assert_eq!(insert_noise_table_params(ChunkEncoder::aom, &mut v, "/tmp/grain.tbl"), Ok(()));
    assert_eq!(v, strings(&["--cpu-used=6", "--end-usage=q", "--film-grain-table=/tmp/grain.tbl"]));
}

#[test]
fn noise_table_for_svt_and_rav1e() {
    let mut v = strings(&["--preset", "4", "--film-grain", "8", "--crf", "30"]);
    assert_eq!(insert_noise_table_params(ChunkEncoder::svt_av1, &mut v, "t.tbl"), Ok(()));
    assert_eq!(v, strings(&["--preset", "4", "--crf", "30", "--fgs-table", "t.tbl"]));
    let mut r = strings(&["--speed", "6"]);
    assert_eq!(insert_noise_table_params(ChunkEncoder::rav1e, &mut r, "t.tbl"), Ok(()));
    assert_eq!(r, strings(&["--speed", "6", "--photon-noise-table", "t.tbl"]));
}

#[test]
fn noise_table_unsupported_encoder() {
    let mut v = strings(&["--crf", "20"]);
    assert_eq!(
        insert_noise_table_params(ChunkEncoder::x264, &mut v, "t.tbl"),
        Err(NoiseTableError::UnsupportedEncoder)
    );
    assert_eq!(v, strings(&["--crf", "20"]));
}

#[test]
fn pixel_format_queries() {
    let vs = InputPixelFormat::VapourSynth { bit_depth: 10 };
    assert_eq!(vs.as_bit_depth(), Ok(10));
    assert_eq!(vs.as_pixel_format(), Err(PixelFormatError::WrongInputType));
    let ff = InputPixelFormat::FFmpeg { format: "yuv420p10le".to_string() };
    assert_eq!(ff.as_bit_depth(), Err(PixelFormatError::WrongInputType));
    assert_eq!(ff.as_pixel_format(), Ok("yuv420p10le".to_string()));
    let _ = ChunkMethod::LSMASH;
}

#[test]
fn parameter_map_builds_from_parsed_text() {
    let mut base = ParameterMap::new();
    base.insert_number("crf", "--", " ", 30);
    let parsed = andean_condor::parameter_parser::EncoderParamsParser::parse_string("--crf 20 --tune 0");
    base.extend(&parsed);
    assert_eq!(base.get("crf"), Some(&CLIParameter::new_number("--", " ", 20)));
    assert_eq!(base.get("tune"), Some(&CLIParameter::new_number("--", " ", 0)));
}

#[test]
fn command_line_names_first_pass_after_output_stem() {
    let e = Encoder::default_from_base(&EncoderBase::AOM, false);
    let null = if std::path::MAIN_SEPARATOR == '\\' { "nul" } else { "/dev/null" };
    for (output, stem) in [("clip.tar.ivf", "clip.tar"), (".hidden", ".hidden"), ("noext", "noext"), ("trail.", "trail")] {
        assert_eq!(
            e.command_parameters((1, 2), output),
            Some(e.command_parameters_with((1, 2), output, stem, null)),
            "output {output}"
        );
    }
    assert_eq!(
        e.command_parameters((1, 2), "/tmp/enc/00001.ivf"),
        Some(e.command_parameters_with((1, 2), "/tmp/enc/00001.ivf", "00001", null))
    );
    assert_eq!(
        e.command_parameters((2, 2), "out/a.b/scene.ivf"),
        Some(e.command_parameters_with((2, 2), "out/a.b/scene.ivf", "scene", null))
    );
    assert_eq!(e.command_parameters((1, 1), ".."), None);
}

#[test]
fn output_parameter_occurs_once() {
    let mut e = Encoder::default_from_base(&EncoderBase::AOM, true);
    e.parameters_mut().insert_string("o", "-", " ", "elsewhere.ivf");
    let args = e.command_parameters_with((2, 2), "final.ivf", "final", "/dev/null");
    let at: Vec<usize> = args.iter().enumerate().filter(|(_, a)| a.as_str() == "-o").map(|(i, _)| i).collect();
    assert_eq!(at.len(), 1);
    assert_eq!(args[at[0] + 1], "final.ivf");
    assert!(!args.iter().any(|a| a == "elsewhere.ivf"));
    assert_eq!(args[0], "-");
    let first = e.command_parameters_with((1, 2), "final.ivf", "final", "/dev/null");
    let at: Vec<usize> = first.iter().enumerate().filter(|(_, a)| a.as_str() == "-o").map(|(i, _)| i).collect();
    assert_eq!(at.len(), 1);
    assert_eq!(first[at[0] + 1], "/dev/null");
}

#[test]
fn encoder_lookup_names_the_executable() {
    let e = Encoder::default_from_base(&EncoderBase::AOM, true);
    match e.validate() {
        Ok(()) => {}
        Err(ExecutableNotFound(name)) => assert_eq!(name, "aomenc"),
    }
}
