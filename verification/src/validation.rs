//! The checks a chunked encoding run makes on its settings before it starts:
//! the run's own settings, the encoder and its arguments, and how chunks are
//! read and joined. What the checks learn from the system (whether a program
//! is installed, which options an encoder's help lists, which VapourSynth
//! plugins are present) is handed to them.

use vstd::prelude::*;
use crate::condor::{concat_tool, concat_tool_name, tool_available};
use crate::flowencode::TargetMetric;
use crate::input::Input;
use crate::parameter_parser::{int_literal_value, is_int_literal, parse_int_literal};
use crate::platform::path_exists;
use crate::settings::{
    Av1anSettings, ChunkMethod, ChunkSettings, ConcatMethod, Encoder, EncoderSettings,
    RateControlWarning, is_aom_encoder_mode, is_aom_rate, spec_params_to_validate, unlisted, views,
};
use crate::text::{split_at_char, split_once_char, str_eq};

verus! {

/// Why the settings of a run are refused.
#[derive(Debug, Clone, PartialEq, Eq)]
pub enum SettingsError {
    /// A chunk may be tried no times at all.
    NoTries,
    /// The encoder's program is not installed.
    EncoderNotFound(Encoder),
    /// Photon-noise strength above 64.
    PhotonNoiseStrength(u8),
    /// Photon noise with an encoder other than aom, rav1e or SVT-AV1.
    PhotonNoiseUnsupported(Encoder),
    /// Encoder options that the encoder's help does not list, in their order.
    InvalidParameters(Vec<String>),
    /// An `.ivf` output with an encoder that is not VP8, VP9 or AV1.
    IvfUnsupported(Encoder),
    /// mkvmerge was chosen to join the chunks but is not installed.
    MkvmergeNotFound,
    /// x265 output can only be joined by mkvmerge.
    X265NeedsMkvmerge,
    /// The plugin (or tool) that the chunk method reads with is missing.
    ChunkMethodUnavailable(ChunkMethod),
    /// aom's keyframe filtering mode 2 needs mkvmerge to join the chunks.
    KeyframeFilteringNeedsMkvmerge,
    /// The quality model file of target quality does not exist.
    ModelNotFound,
    /// FFmpeg lacks the library that computes the target metric.
    MetricLibraryMissing(TargetMetric),
    /// The VapourSynth plugin that computes the target metric is missing.
    MetricPluginMissing(TargetMetric),
    /// The target metric needs frames read by L-SMASH, FFMS2, BestSource or
    /// DGDecNV.
    MetricChunkMethod(TargetMetric),
    /// The input file does not exist.
    InputNotFound,
    /// The proxy file does not exist.
    ProxyNotFound,
    /// The input and the proxy differ in frame count (input, proxy).
    ProxyFrameMismatch(usize, usize),
    /// FFmpeg is not installed.
    FfmpegNotFound,
    /// The probe resolution is not of the form `widthxheight`.
    ProbeResolutionFormat,
    /// The width or height of the probe resolution is not a number.
    ProbeResolutionNumbers,
}

/// What the checks advise against without refusing it.
#[derive(Debug, Clone, Copy, PartialEq, Eq, Structural)]
pub enum SettingsWarning {
    /// Frame mismatches are ignored, so the output's frame count and the
    /// target-metric results may be off.
    FrameCountMayDiffer,
    /// mkvmerge is missing, which only detecting scenes does not need.
    MkvmergeMissing,
    /// VPX output is best joined by mkvmerge, which fixes its frame rates.
    VpxPrefersMkvmerge,
    /// Reading chunks by selecting frames is very slow.
    SelectIsSlow,
    /// A VapourSynth script outside the working directory, with target
    /// quality.
    ScriptOutsideWorkingDirectory,
    /// Fewer than 4 probes for target quality.
    FewProbes,
}

/// Which VapourSynth source plugins are installed, as far as reading chunks
/// depends on them.
#[derive(Debug, Clone, Copy, PartialEq, Eq, Structural)]
pub struct SourcePlugins {
    pub lsmash: bool,
    pub ffms2: bool,
    pub dgdecnv: bool,
    pub bestsource: bool,
}

/// The outcome of checks that report warnings as they go and may stop at an
/// error: the warnings given before stopping, and the error, if any.
pub open spec fn report_matches(
    r: (Vec<SettingsWarning>, Result<(), SettingsError>),
    warnings: Seq<SettingsWarning>,
    error: Option<SettingsError>,
) -> bool {
    &&& r.0@ == warnings
    &&& r.1 == match error {
        Some(e) => Err::<(), SettingsError>(e),
        None => Ok::<(), SettingsError>(()),
    }
}

/// The run's own settings are refused when a chunk may be tried no times,
/// and ignoring frame mismatches is warned about.
pub fn validate_av1an_settings(settings: &Av1anSettings) -> (r: Result<Vec<SettingsWarning>, SettingsError>)
    ensures
        match r {
            Err(e) => settings.max_tries == 0 && e == SettingsError::NoTries,
            Ok(w) => settings.max_tries > 0 && w@ == (if settings.ignore_frame_mismatch {
                seq![SettingsWarning::FrameCountMayDiffer]
            } else {
                seq![]
            }),
        },
{
    if settings.max_tries == 0 {
        return Err(SettingsError::NoTries);
    }
    let mut warnings: Vec<SettingsWarning> = Vec::new();
    if settings.ignore_frame_mismatch {
        warnings.push(SettingsWarning::FrameCountMayDiffer);
    }
    Ok(warnings)
}

/// What is read of a proxy input: whether it exists, and the frame counts of
/// the input and of the proxy (read only once it is known to exist).
#[derive(Debug, Clone, Copy, PartialEq, Eq, Structural)]
pub struct ProxyCheck {
    pub found: bool,
    pub input_frames: usize,
    pub proxy_frames: usize,
}

/// The input checks: the input must exist, and so must a proxy, with as many
/// frames as the input; in that order.
pub fn validate_io_settings_with(input_found: bool, proxy: Option<ProxyCheck>) -> (r: Result<(), SettingsError>)
    ensures
        r == (if !input_found {
            Err::<(), SettingsError>(SettingsError::InputNotFound)
        } else {
            match proxy {
                None => Ok::<(), SettingsError>(()),
                Some(p) => if !p.found {
                    Err::<(), SettingsError>(SettingsError::ProxyNotFound)
                } else if p.input_frames != p.proxy_frames {
                    Err::<(), SettingsError>(SettingsError::ProxyFrameMismatch(p.input_frames, p.proxy_frames))
                } else {
                    Ok::<(), SettingsError>(())
                },
            }
        }),
{
    if !input_found {
        return Err(SettingsError::InputNotFound);
    }
    match proxy {
        None => Ok(()),
        Some(p) => if !p.found {
            Err(SettingsError::ProxyNotFound)
        } else if p.input_frames != p.proxy_frames {
            Err(SettingsError::ProxyFrameMismatch(p.input_frames, p.proxy_frames))
        } else {
            Ok(())
        },
    }
}

/// The name under which FFmpeg is looked for on the search path.
pub open spec fn ffmpeg_tool() -> Seq<char> {
    "ffmpeg"@
}

/// The name under which FFmpeg is looked for on the search path.
pub fn ffmpeg_tool_name() -> (r: &'static str)
    ensures
        r@ == ffmpeg_tool(),
{
    "ffmpeg"
}

/// The name under which DGDecNV's indexer is looked for on the search path.
pub open spec fn dgindex_tool() -> Seq<char> {
    "dgindexnv"@
}

/// The name under which DGDecNV's indexer is looked for on the search path.
pub fn dgindex_tool_name() -> (r: &'static str)
    ensures
        r@ == dgindex_tool(),
{
    "dgindexnv"
}

/// FFmpeg (the program named by [`ffmpeg_tool_name`]) must be on the search
/// path. What is installed decides, so only the form of the outcome is
/// stated.
pub fn validate_ffmpeg_settings() -> (r: Result<(), SettingsError>)
    ensures
        r == Ok::<(), SettingsError>(()) || r == Err::<(), SettingsError>(SettingsError::FfmpegNotFound),
{
    if tool_available(ffmpeg_tool_name()) {
        Ok(())
    } else {
        Err(SettingsError::FfmpegNotFound)
    }
}

/// Whether `--rt` is among the arguments.
pub open spec fn has_realtime_flag(params: Seq<Seq<char>>) -> bool {
    params.contains("--rt"@)
}

/// aom and VPX in real-time mode encode in one pass.
pub open spec fn forced_passes(s: EncoderSettings) -> u8 {
    if (s.encoder == Encoder::aom || s.encoder == Encoder::vpx) && s.passes != 1 && has_realtime_flag(
        views(s.video_params@),
    ) {
        1
    } else {
        s.passes
    }
}

/// The encoders that can take a photon-noise table.
pub open spec fn takes_photon_noise(e: Encoder) -> bool {
    e == Encoder::aom || e == Encoder::rav1e || e == Encoder::svt_av1
}

/// What is wrong with the photon noise of the settings: a strength above
/// 64, or an encoder that cannot take it.
pub open spec fn photon_noise_error(s: EncoderSettings) -> Option<SettingsError> {
    match s.photon_noise {
        Some(n) => if n > 64 {
            Some(SettingsError::PhotonNoiseStrength(n))
        } else if !takes_photon_noise(s.encoder) {
            Some(SettingsError::PhotonNoiseUnsupported(s.encoder))
        } else {
            None
        },
        None => None,
    }
}

/// The rate-control warnings of `check_rate_control` for these settings.
pub open spec fn rate_control_warnings(s: EncoderSettings) -> Seq<RateControlWarning> {
    if s.encoder == Encoder::aom {
        (if exists|i: int| 0 <= i < s.video_params.len() && is_aom_encoder_mode(#[trigger] s.video_params@[i]@) {
            seq![]
        } else {
            seq![RateControlWarning::EndUsageMissing]
        }) + (if exists|i: int| 0 <= i < s.video_params.len() && is_aom_rate(#[trigger] s.video_params@[i]@) {
            seq![]
        } else {
            seq![RateControlWarning::RateMissing]
        })
    } else {
        seq![]
    }
}

/// The options among the arguments that the encoder's help does not list.
pub open spec fn unknown_options(s: EncoderSettings, valid_options: Seq<Seq<char>>) -> Seq<Seq<char>> {
    unlisted(spec_params_to_validate(s.encoder, views(s.video_params@)), valid_options)
}

/// Whether `params` holds `flag`.
fn contains_flag(params: &Vec<String>, flag: &str) -> (r: bool)
    ensures
        r == views(params@).contains(flag@),
{
    let mut i: usize = 0;
    while i < params.len()
        invariant
            i <= params.len(),
            forall|j: int| 0 <= j < i ==> params@[j]@ != flag@,
        decreases params.len() - i,
    {
        if str_eq(params[i].as_str(), flag) {
            assert(views(params@)[i as int] == flag@);
            return true;
        }
        i = i + 1;
    }
    assert forall|j: int| 0 <= j < views(params@).len() implies views(params@)[j] != flag@ by {
        assert(views(params@)[j] == params@[j]@);
    }
    false
}

/// The encoder settings are refused when the encoder is not installed, when
/// photon noise is stronger than 64 or asked of an encoder that cannot take
/// it, and (unless `force`) when an option is not among `valid_options`, the
/// options the encoder's help lists; these checks come in that order. aom
/// and VPX in real-time mode (`--rt`) are set to one pass once the photon
/// noise checks pass. When all checks pass, the rate-control warnings are
/// given (none with `force`).
pub fn validate_encoder_settings(
    settings: &mut EncoderSettings,
    force: bool,
    encoder_found: bool,
    valid_options: &Vec<String>,
) -> (r: Result<Vec<RateControlWarning>, SettingsError>)
    ensures
        !encoder_found ==> r == Err::<Vec<RateControlWarning>, SettingsError>(
            SettingsError::EncoderNotFound(old(settings).encoder),
        ) && *final(settings) == *old(settings),
        encoder_found && photon_noise_error(*old(settings)) is Some ==> r == Err::<
            Vec<RateControlWarning>,
            SettingsError,
        >(photon_noise_error(*old(settings))->0) && *final(settings) == *old(settings),
        encoder_found && photon_noise_error(*old(settings)) is None ==> {
            &&& final(settings).passes == forced_passes(*old(settings))
            &&& final(settings).encoder == old(settings).encoder
            &&& final(settings).video_params == old(settings).video_params
            &&& final(settings).tiles == old(settings).tiles
            &&& final(settings).photon_noise == old(settings).photon_noise
            &&& final(settings).photon_noise_size == old(settings).photon_noise_size
            &&& final(settings).chroma_noise == old(settings).chroma_noise
            &&& final(settings).zones == old(settings).zones
            &&& if force {
                r matches Ok(w) && w@ == Seq::<RateControlWarning>::empty()
            } else if unknown_options(*old(settings), views(valid_options@)).len() > 0 {
                r matches Err(SettingsError::InvalidParameters(v)) && views(v@) == unknown_options(
                    *old(settings),
                    views(valid_options@),
                )
            } else {
                r matches Ok(w) && w@ == rate_control_warnings(*old(settings))
            }
        },
{
    if !encoder_found {
        return Err(SettingsError::EncoderNotFound(settings.encoder));
    }
    if let Some(strength) = settings.photon_noise {
        if strength > 64 {
            return Err(SettingsError::PhotonNoiseStrength(strength));
        }
        if !(settings.encoder == Encoder::aom || settings.encoder == Encoder::rav1e || settings.encoder
            == Encoder::svt_av1) {
            return Err(SettingsError::PhotonNoiseUnsupported(settings.encoder));
        }
    }
    if (settings.encoder == Encoder::aom || settings.encoder == Encoder::vpx) && settings.passes != 1
        && contains_flag(&settings.video_params, "--rt") {
        settings.passes = 1;
    }
    if force {
        return Ok(Vec::new());
    }
    let options = settings.params_to_validate();
    let unknown = crate::settings::invalid_params(&options, valid_options);
    if unknown.len() > 0 {
        return Err(SettingsError::InvalidParameters(unknown));
    }
    Ok(settings.check_rate_control())
}

/// The encoders whose output an `.ivf` file can hold: VP8, VP9 and AV1.
pub open spec fn ivf_capable(e: Encoder) -> bool {
    e == Encoder::rav1e || e == Encoder::aom || e == Encoder::svt_av1 || e == Encoder::vpx
}

/// Whether what `method` reads chunks with is installed: the matching
/// VapourSynth plugin, and for DGDecNV also the `dgindexnv` program. The
/// other methods need nothing.
pub open spec fn chunk_method_available(method: ChunkMethod, plugins: Option<SourcePlugins>, dgindexnv_found: bool) -> bool {
    match method {
        ChunkMethod::LSMASH => plugins matches Some(p) && p.lsmash,
        ChunkMethod::FFMS2 => plugins matches Some(p) && p.ffms2,
        ChunkMethod::DGDECNV => plugins matches Some(p) && p.dgdecnv && dgindexnv_found,
        ChunkMethod::BESTSOURCE => plugins matches Some(p) && p.bestsource,
        _ => true,
    }
}

/// The warnings and the error of the chunk checks, in the order they are
/// made: the output container against the encoder, mkvmerge's presence when
/// it joins the chunks, x265 without mkvmerge, VPX without mkvmerge (a
/// warning), the chunk method's plugin, the select method (a warning), and
/// aom's keyframe filtering mode 2 without mkvmerge.
pub open spec fn chunk_report(
    chunk: ChunkSettings,
    encoder: Encoder,
    params: Seq<Seq<char>>,
    sc_only: bool,
    plugins: Option<SourcePlugins>,
    mkvmerge_found: bool,
    dgindexnv_found: bool,
) -> (Seq<SettingsWarning>, Option<SettingsError>) {
    let mkv = chunk.concat == ConcatMethod::MKVMerge;
    if chunk.concat == ConcatMethod::Ivf && !ivf_capable(encoder) {
        (seq![], Some(SettingsError::IvfUnsupported(encoder)))
    } else if mkv && !mkvmerge_found && !sc_only {
        (seq![], Some(SettingsError::MkvmergeNotFound))
    } else {
        let w1 = if mkv && !mkvmerge_found {
            seq![SettingsWarning::MkvmergeMissing]
        } else {
            seq![]
        };
        if encoder == Encoder::x265 && !mkv {
            (w1, Some(SettingsError::X265NeedsMkvmerge))
        } else {
            let w2 = w1 + if encoder == Encoder::vpx && !mkv {
                seq![SettingsWarning::VpxPrefersMkvmerge]
            } else {
                seq![]
            };
            if !chunk_method_available(chunk.chunk_method, plugins, dgindexnv_found) {
                (w2, Some(SettingsError::ChunkMethodUnavailable(chunk.chunk_method)))
            } else {
                let w3 = w2 + if chunk.chunk_method == ChunkMethod::Select {
                    seq![SettingsWarning::SelectIsSlow]
                } else {
                    seq![]
                };
                if encoder == Encoder::aom && !mkv && params.contains("--enable-keyframe-filtering=2"@) {
                    (w3, Some(SettingsError::KeyframeFilteringNeedsMkvmerge))
                } else {
                    (w3, None)
                }
            }
        }
    }
}

/// Joining chunks into an `.ivf` file is refused exactly for the encoders
/// whose output such a file cannot hold: everything but rav1e, aom,
/// SVT-AV1 and VPX. With any other join, that refusal never comes.
pub proof fn lemma_ivf_encoders(
    chunk: ChunkSettings,
    encoder: Encoder,
    params: Seq<Seq<char>>,
    sc_only: bool,
    plugins: Option<SourcePlugins>,
    mkvmerge_found: bool,
    dgindexnv_found: bool,
)
    ensures
        ({
            let (w, e) = chunk_report(chunk, encoder, params, sc_only, plugins, mkvmerge_found, dgindexnv_found);
            &&& chunk.concat == ConcatMethod::Ivf ==> (e == Some(SettingsError::IvfUnsupported(encoder)) <==> !(
            encoder == Encoder::rav1e || encoder == Encoder::aom || encoder == Encoder::svt_av1 || encoder
                == Encoder::vpx))
            &&& chunk.concat != ConcatMethod::Ivf ==> !(e matches Some(SettingsError::IvfUnsupported(_)))
            &&& (chunk.concat == ConcatMethod::Ivf && encoder == Encoder::vpx && chunk_method_available(
                chunk.chunk_method,
                plugins,
                dgindexnv_found,
            )) ==> w.contains(SettingsWarning::VpxPrefersMkvmerge)
        }),
{
    let (w, e) = chunk_report(chunk, encoder, params, sc_only, plugins, mkvmerge_found, dgindexnv_found);
    if chunk.concat == ConcatMethod::Ivf && encoder == Encoder::vpx && chunk_method_available(
        chunk.chunk_method,
        plugins,
        dgindexnv_found,
    ) {
        let w1: Seq<SettingsWarning> = seq![];
        let w2 = w1 + seq![SettingsWarning::VpxPrefersMkvmerge];
        assert(w2[0] == SettingsWarning::VpxPrefersMkvmerge);
        if chunk.chunk_method == ChunkMethod::Select {
            let w3 = w2 + seq![SettingsWarning::SelectIsSlow];
            assert(w3[0] == SettingsWarning::VpxPrefersMkvmerge);
        } else {
            assert(w2 + seq![] =~= w2);
        }
    }
}

/// The chunk checks, given whether mkvmerge and `dgindexnv` are installed
/// (each asked only where it matters), with the warnings given before any
/// error. `sc_only` is set when the run only detects scenes.
pub fn validate_chunk_settings_with(
    chunk: &ChunkSettings,
    encoder: &EncoderSettings,
    sc_only: bool,
    plugins: Option<SourcePlugins>,
    mkvmerge_found: bool,
    dgindexnv_found: bool,
) -> (r: (Vec<SettingsWarning>, Result<(), SettingsError>))
    ensures
        ({
            let (w, e) = chunk_report(
                *chunk,
                encoder.encoder,
                views(encoder.video_params@),
                sc_only,
                plugins,
                mkvmerge_found,
                dgindexnv_found,
            );
            report_matches(r, w, e)
        }),
        chunk.concat == ConcatMethod::Ivf ==> (r.1 == Err::<(), SettingsError>(
            SettingsError::IvfUnsupported(encoder.encoder),
        ) <==> !(encoder.encoder == Encoder::rav1e || encoder.encoder == Encoder::aom || encoder.encoder
            == Encoder::svt_av1 || encoder.encoder == Encoder::vpx)),
{
    proof {
        lemma_ivf_encoders(
            *chunk,
            encoder.encoder,
            views(encoder.video_params@),
            sc_only,
            plugins,
            mkvmerge_found,
            dgindexnv_found,
        );
    }
    let mut warnings: Vec<SettingsWarning> = Vec::new();
    let e = encoder.encoder;
    let mkv = chunk.concat == ConcatMethod::MKVMerge;
    if chunk.concat == ConcatMethod::Ivf && !(e == Encoder::rav1e || e == Encoder::aom || e == Encoder::svt_av1
        || e == Encoder::vpx) {
        return (warnings, Err(SettingsError::IvfUnsupported(e)));
    }
    if mkv && !mkvmerge_found {
        if sc_only {
            warnings.push(SettingsWarning::MkvmergeMissing);
        } else {
            return (warnings, Err(SettingsError::MkvmergeNotFound));
        }
    }
    let ghost w1 = warnings@;
    assert(w1 =~= (if mkv && !mkvmerge_found {
        seq![SettingsWarning::MkvmergeMissing]
    } else {
        seq![]
    }));
    if e == Encoder::x265 && !mkv {
        return (warnings, Err(SettingsError::X265NeedsMkvmerge));
    }
    if e == Encoder::vpx && !mkv {
        warnings.push(SettingsWarning::VpxPrefersMkvmerge);
    }
    let ghost w2 = warnings@;
    assert(w2 =~= w1 + if e == Encoder::vpx && !mkv {
        seq![SettingsWarning::VpxPrefersMkvmerge]
    } else {
        seq![]
    });
    let available = match chunk.chunk_method {
        ChunkMethod::LSMASH => match plugins {
            Some(p) => p.lsmash,
            None => false,
        },
        ChunkMethod::FFMS2 => match plugins {
            Some(p) => p.ffms2,
            None => false,
        },
        ChunkMethod::DGDECNV => match plugins {
            Some(p) => p.dgdecnv && dgindexnv_found,
            None => false,
        },
        ChunkMethod::BESTSOURCE => match plugins {
            Some(p) => p.bestsource,
            None => false,
        },
        _ => true,
    };
    if !available {
        return (warnings, Err(SettingsError::ChunkMethodUnavailable(chunk.chunk_method)));
    }
    if chunk.chunk_method == ChunkMethod::Select {
        warnings.push(SettingsWarning::SelectIsSlow);
    }
    assert(warnings@ =~= w2 + if chunk.chunk_method == ChunkMethod::Select {
        seq![SettingsWarning::SelectIsSlow]
    } else {
        seq![]
    });
    if e == Encoder::aom && !mkv && contains_flag(&encoder.video_params, "--enable-keyframe-filtering=2") {
        return (warnings, Err(SettingsError::KeyframeFilteringNeedsMkvmerge));
    }
    (warnings, Ok(()))
}

/// Whether the chunk checks ask the search path for mkvmerge
/// ([`concat_tool_name`] of [`ConcatMethod::MKVMerge`]): only when it is to
/// join the chunks.
pub open spec fn looks_for_mkvmerge(chunk: ChunkSettings) -> bool {
    chunk.concat == ConcatMethod::MKVMerge
}

/// Whether the chunk checks ask the search path for DGDecNV's indexer
/// ([`dgindex_tool_name`]): only when DGDecNV reads the chunks and its
/// plugin is present.
pub open spec fn looks_for_dgindexnv(chunk: ChunkSettings, plugins: Option<SourcePlugins>) -> bool {
    chunk.chunk_method == ChunkMethod::DGDECNV && (plugins matches Some(p) && p.dgdecnv)
}

/// The chunk checks, asking the search path for mkvmerge when it is to join
/// the chunks and for `dgindexnv` when DGDecNV reads them. What is installed
/// decides, so the outcome is that of the checks for some answers; an
/// answer that was not asked for counts as found.
pub fn validate_chunk_settings(
    chunk: &ChunkSettings,
    encoder: &EncoderSettings,
    sc_only: bool,
    plugins: Option<SourcePlugins>,
) -> (r: (Vec<SettingsWarning>, Result<(), SettingsError>))
    ensures
        exists|mkvmerge_found: bool, dgindexnv_found: bool|
            {
                let (w, e) = #[trigger] chunk_report(
                    *chunk,
                    encoder.encoder,
                    views(encoder.video_params@),
                    sc_only,
                    plugins,
                    mkvmerge_found,
                    dgindexnv_found,
                );
                &&& !looks_for_mkvmerge(*chunk) ==> mkvmerge_found
                &&& !looks_for_dgindexnv(*chunk, plugins) ==> dgindexnv_found
                &&& report_matches(r, w, e)
            },
{
    let mkvmerge_found = if chunk.concat == ConcatMethod::MKVMerge {
        let name = concat_tool_name(ConcatMethod::MKVMerge);
        assert(name@ == concat_tool(ConcatMethod::MKVMerge));
        tool_available(name)
    } else {
        true
    };
    let dgindexnv_found = match (chunk.chunk_method, plugins) {
        (ChunkMethod::DGDECNV, Some(p)) => if p.dgdecnv {
            tool_available(dgindex_tool_name())
        } else {
            true
        },
        _ => true,
    };
    let r = validate_chunk_settings_with(chunk, encoder, sc_only, plugins, mkvmerge_found, dgindexnv_found);
    assert({
        let (w, e) = chunk_report(
            *chunk,
            encoder.encoder,
            views(encoder.video_params@),
            sc_only,
            plugins,
            mkvmerge_found,
            dgindexnv_found,
        );
        report_matches(r, w, e)
    });
    r
}

/// The target-quality settings that the checks read.
pub struct TargetQualityCheck {
    pub metric: TargetMetric,
    pub probing_rate: usize,
    pub probes: u32,
    /// The resolution probes are encoded at, `widthxheight`.
    pub probe_res: Option<String>,
    /// The path of the quality model file.
    pub model: Option<String>,
}

/// The release of the VapourSynth Zig Image Process plugin installed.
#[derive(Debug, Clone, Copy, PartialEq, Eq, Structural)]
pub enum ZipPlugin {
    Missing,
    BeforeR7,
    R7OrNewer,
}

/// The VapourSynth plugins that target metrics are computed with.
#[derive(Debug, Clone, Copy, PartialEq, Eq, Structural)]
pub struct MetricPlugins {
    /// Vapoursynth-HIP.
    pub vship: bool,
    pub vszip: ZipPlugin,
    /// vapoursynth-julek-plugin.
    pub julek: bool,
}

/// An optional `+` and decimal digits denoting a 32-bit unsigned number.
pub open spec fn is_u32_literal(v: Seq<char>) -> bool {
    is_int_literal(v) && v[0] != '-' && int_literal_value(v) <= u32::MAX
}

/// Whether `v` denotes a 32-bit unsigned number.
fn is_u32_text(v: &str) -> (r: bool)
    ensures
        r == is_u32_literal(v@),
{
    match parse_int_literal(v) {
        Some(x) => v.get_char(0) != '-' && x <= 0xffff_ffff,
        None => false,
    }
}

/// What is wrong with a probe resolution: not two parts around a single
/// `x`, or parts that are not 32-bit numbers.
pub open spec fn probe_resolution_error(res: Seq<char>) -> Option<SettingsError> {
    match split_at_char(res, 'x') {
        Some((w, h)) => if h.contains('x') {
            Some(SettingsError::ProbeResolutionFormat)
        } else if is_u32_literal(w) && is_u32_literal(h) {
            None
        } else {
            Some(SettingsError::ProbeResolutionNumbers)
        },
        None => Some(SettingsError::ProbeResolutionFormat),
    }
}

/// The chunk methods that read the frames the VapourSynth metrics compare.
pub open spec fn reads_frames_for_metrics(method: ChunkMethod) -> bool {
    method == ChunkMethod::LSMASH || method == ChunkMethod::FFMS2 || method == ChunkMethod::BESTSOURCE
        || method == ChunkMethod::DGDECNV
}

/// Whether the metric is computed by FFmpeg (VMAF, and XPSNR probing every
/// frame) rather than by a VapourSynth plugin.
pub open spec fn metric_uses_ffmpeg(metric: TargetMetric, probing_rate: usize) -> bool {
    metric == TargetMetric::VMAF || ((metric == TargetMetric::XPSNR || metric == TargetMetric::XPSNRWeighted)
        && probing_rate <= 1)
}

/// Whether the VapourSynth plugin the metric is computed with is installed:
/// Vapoursynth-HIP or Zig Image Process for SSIMULACRA2, Vapoursynth-HIP or
/// julek for Butteraugli INF, Vapoursynth-HIP for Butteraugli 3-norm, Zig
/// Image Process R7 or newer for XPSNR.
pub open spec fn metric_plugin_present(metric: TargetMetric, plugins: Option<MetricPlugins>) -> bool {
    match metric {
        TargetMetric::SSIMULACRA2 => plugins matches Some(p) && (p.vship || p.vszip != ZipPlugin::Missing),
        TargetMetric::ButteraugliINF => plugins matches Some(p) && (p.vship || p.julek),
        TargetMetric::Butteraugli3 => plugins matches Some(p) && p.vship,
        _ => plugins matches Some(p) && p.vszip == ZipPlugin::R7OrNewer,
    }
}

/// The error of the target metric's requirements, if any.
pub open spec fn metric_error(
    metric: TargetMetric,
    probing_rate: usize,
    plugins: Option<MetricPlugins>,
    chunk_method: ChunkMethod,
    metric_library_found: bool,
) -> Option<SettingsError> {
    if metric_uses_ffmpeg(metric, probing_rate) {
        if metric_library_found {
            None
        } else {
            Some(SettingsError::MetricLibraryMissing(metric))
        }
    } else if !metric_plugin_present(metric, plugins) {
        Some(SettingsError::MetricPluginMissing(metric))
    } else if !reads_frames_for_metrics(chunk_method) {
        Some(SettingsError::MetricChunkMethod(metric))
    } else {
        None
    }
}

/// The warnings and the error of the target-quality checks, in the order
/// they are made: the model file, the script's location (a warning), the
/// metric's requirements, few probes (a warning), and the probe resolution.
/// Nothing is checked without target quality.
pub open spec fn target_quality_report(
    tq: Option<TargetQualityCheck>,
    input_is_script: bool,
    plugins: Option<MetricPlugins>,
    chunk_method: ChunkMethod,
    model_found: bool,
    script_outside_working_dir: bool,
    metric_library_found: bool,
) -> (Seq<SettingsWarning>, Option<SettingsError>) {
    match tq {
        None => (seq![], None),
        Some(t) => if t.model is Some && !model_found {
            (seq![], Some(SettingsError::ModelNotFound))
        } else {
            let w1 = if input_is_script && script_outside_working_dir {
                seq![SettingsWarning::ScriptOutsideWorkingDirectory]
            } else {
                seq![]
            };
            match metric_error(t.metric, t.probing_rate, plugins, chunk_method, metric_library_found) {
                Some(e) => (w1, Some(e)),
                None => {
                    let w2 = w1 + if t.probes < 4 {
                        seq![SettingsWarning::FewProbes]
                    } else {
                        seq![]
                    };
                    match t.probe_res {
                        Some(res) => (w2, probe_resolution_error(res@)),
                        None => (w2, None),
                    }
                },
            }
        },
    }
}

/// The target-quality checks, given whether the model file exists, whether
/// a VapourSynth script input lies outside the working directory, and
/// whether FFmpeg has the library the metric needs (each asked only where it
/// matters), with the warnings given before any error.
pub fn validate_tq_settings_with(
    tq: &Option<TargetQualityCheck>,
    input: &Input,
    plugins: Option<MetricPlugins>,
    chunk_method: ChunkMethod,
    model_found: bool,
    script_outside_working_dir: bool,
    metric_library_found: bool,
) -> (r: (Vec<SettingsWarning>, Result<(), SettingsError>))
    ensures
        ({
            let (w, e) = target_quality_report(
                *tq,
                input.spec_is_vapoursynth(),
                plugins,
                chunk_method,
                model_found,
                script_outside_working_dir,
                metric_library_found,
            );
            report_matches(r, w, e)
        }),
{
    let mut warnings: Vec<SettingsWarning> = Vec::new();
    let t = match tq {
        Some(t) => t,
        None => {
            return (warnings, Ok(()));
        },
    };
    if t.model.is_some() && !model_found {
        return (warnings, Err(SettingsError::ModelNotFound));
    }
    if input.is_vapoursynth() && script_outside_working_dir {
        warnings.push(SettingsWarning::ScriptOutsideWorkingDirectory);
    }
    let ghost w1 = warnings@;
    let metric = t.metric;
    let xpsnr = metric == TargetMetric::XPSNR || metric == TargetMetric::XPSNRWeighted;
    if metric == TargetMetric::VMAF || (xpsnr && t.probing_rate <= 1) {
        if !metric_library_found {
            return (warnings, Err(SettingsError::MetricLibraryMissing(metric)));
        }
    } else {
        let present = match plugins {
            Some(p) => match metric {
                TargetMetric::SSIMULACRA2 => p.vship || p.vszip != ZipPlugin::Missing,
                TargetMetric::ButteraugliINF => p.vship || p.julek,
                TargetMetric::Butteraugli3 => p.vship,
                _ => p.vszip == ZipPlugin::R7OrNewer,
            },
            None => false,
        };
        if !present {
            return (warnings, Err(SettingsError::MetricPluginMissing(metric)));
        }
        if !(chunk_method == ChunkMethod::LSMASH || chunk_method == ChunkMethod::FFMS2 || chunk_method
            == ChunkMethod::BESTSOURCE || chunk_method == ChunkMethod::DGDECNV) {
            return (warnings, Err(SettingsError::MetricChunkMethod(metric)));
        }
    }
    if t.probes < 4 {
        warnings.push(SettingsWarning::FewProbes);
    }
    assert(warnings@ =~= w1 + if t.probes < 4 {
        seq![SettingsWarning::FewProbes]
    } else {
        seq![]
    });
    match &t.probe_res {
        Some(res) => match split_once_char(res.as_str(), 'x') {
            Some((w, h)) => {
                if crate::text::find_char(h.as_str(), 'x').is_some() {
                    return (warnings, Err(SettingsError::ProbeResolutionFormat));
                }
                if is_u32_text(w.as_str()) && is_u32_text(h.as_str()) {
                    (warnings, Ok(()))
                } else {
                    (warnings, Err(SettingsError::ProbeResolutionNumbers))
                }
            },
            None => (warnings, Err(SettingsError::ProbeResolutionFormat)),
        },
        None => (warnings, Ok(())),
    }
}

/// The path of the quality model file that the target-quality checks look
/// for, when target quality is on and a model is set.
pub open spec fn model_to_check(tq: Option<TargetQualityCheck>) -> Option<String> {
    match tq {
        Some(t) => t.model,
        None => None,
    }
}

/// The path of the quality model file that the target-quality checks look
/// for on disk.
pub fn model_path(tq: &Option<TargetQualityCheck>) -> (r: Option<&String>)
    ensures
        (match r {
            Some(p) => model_to_check(*tq) == Some(*p),
            None => model_to_check(*tq) is None,
        }),
{
    match tq {
        Some(t) => match &t.model {
            Some(path) => Some(path),
            None => None,
        },
        None => None,
    }
}

/// The target-quality checks, asking the file system whether the model
/// file ([`model_path`]) exists when one is set. What is on disk decides,
/// so the outcome is that of the checks for some answer; with no model to
/// look for, it counts as found.
pub fn validate_tq_settings(
    tq: &Option<TargetQualityCheck>,
    input: &Input,
    plugins: Option<MetricPlugins>,
    chunk_method: ChunkMethod,
    script_outside_working_dir: bool,
    metric_library_found: bool,
) -> (r: (Vec<SettingsWarning>, Result<(), SettingsError>))
    ensures
        exists|model_found: bool|
            {
                let (w, e) = #[trigger] target_quality_report(
                    *tq,
                    input.spec_is_vapoursynth(),
                    plugins,
                    chunk_method,
                    model_found,
                    script_outside_working_dir,
                    metric_library_found,
                );
                &&& model_to_check(*tq) is None ==> model_found
                &&& report_matches(r, w, e)
            },
{
    let model_found = match model_path(tq) {
        Some(path) => path_exists(path.as_str()),
        None => true,
    };
    let r = validate_tq_settings_with(
        tq,
        input,
        plugins,
        chunk_method,
        model_found,
        script_outside_working_dir,
        metric_library_found,
    );
    assert({
        let (w, e) = target_quality_report(
            *tq,
            input.spec_is_vapoursynth(),
            plugins,
            chunk_method,
            model_found,
            script_outside_working_dir,
            metric_library_found,
        );
        report_matches(r, w, e)
    });
    r
}

} // verus!
