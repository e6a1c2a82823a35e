//! The machine-readable progress protocol: what the backend announces it
//! supports, and which events a run reports. An event is reported only in the
//! JSON-lines progress format; writing it out, with its timestamp, is the
//! caller's part.

use vstd::prelude::*;
use crate::settings::Encoder;

verus! {

/// The version of the progress protocol.
pub const FLOWENCODE_PROTOCOL_VERSION: i32 = 1;

/// How progress is reported: for people, or as JSON lines.
#[derive(Debug, Clone, Copy, PartialEq, Eq, Structural)]
pub enum ProgressFormat {
    Human,
    Jsonl,
}

/// The quality metrics a target-quality run can aim at.
#[derive(Debug, Clone, Copy, PartialEq, Eq, Structural)]
pub enum TargetMetric {
    VMAF,
    SSIMULACRA2,
    ButteraugliINF,
    Butteraugli3,
    XPSNR,
    XPSNRWeighted,
}

/// What the backend supports.
pub struct Capabilities {
    pub protocol: i32,
    pub backend_version: &'static str,
    pub supported_metrics: Vec<&'static str>,
    pub supported_encoders: Vec<&'static str>,
    pub interp_methods: Vec<&'static str>,
    pub probing_stats: Vec<&'static str>,
}

/// The views of a sequence of string slices.
pub open spec fn str_views(v: Seq<&'static str>) -> Seq<Seq<char>> {
    Seq::new(v.len(), |i: int| v[i]@)
}

/// The name of an encoder in the protocol.
pub open spec fn spec_encoder_name(encoder: Encoder) -> Seq<char> {
    match encoder {
        Encoder::x264 => "x264"@,
        Encoder::x265 => "x265"@,
        Encoder::svt_av1 => "svt-av1"@,
        Encoder::aom => "aom"@,
        Encoder::rav1e => "rav1e"@,
        Encoder::vpx => "vpx"@,
    }
}

/// The name of a metric in the protocol.
pub open spec fn spec_metric_name(metric: TargetMetric) -> Seq<char> {
    match metric {
        TargetMetric::VMAF => "vmaf"@,
        TargetMetric::SSIMULACRA2 => "ssimulacra2"@,
        TargetMetric::ButteraugliINF => "butteraugli-inf"@,
        TargetMetric::Butteraugli3 => "butteraugli-3"@,
        TargetMetric::XPSNR => "xpsnr"@,
        TargetMetric::XPSNRWeighted => "xpsnr-weighted"@,
    }
}

/// The name of an encoder in the protocol.
pub fn encoder_name(encoder: Encoder) -> (r: &'static str)
    ensures
        r@ == spec_encoder_name(encoder),
{
    match encoder {
        Encoder::x264 => "x264",
        Encoder::x265 => "x265",
        Encoder::svt_av1 => "svt-av1",
        Encoder::aom => "aom",
        Encoder::rav1e => "rav1e",
        Encoder::vpx => "vpx",
    }
}

/// The name of a metric in the protocol.
pub fn metric_name(metric: TargetMetric) -> (r: &'static str)
    ensures
        r@ == spec_metric_name(metric),
{
    match metric {
        TargetMetric::VMAF => "vmaf",
        TargetMetric::SSIMULACRA2 => "ssimulacra2",
        TargetMetric::ButteraugliINF => "butteraugli-inf",
        TargetMetric::Butteraugli3 => "butteraugli-3",
        TargetMetric::XPSNR => "xpsnr",
        TargetMetric::XPSNRWeighted => "xpsnr-weighted",
    }
}

/// The metrics, encoders, interpolation methods and probe statistics that the
/// backend supports.
pub open spec fn spec_supported_metrics() -> Seq<Seq<char>> {
    seq!["vmaf"@, "ssimulacra2"@, "butteraugli-inf"@, "butteraugli-3"@, "xpsnr"@, "xpsnr-weighted"@]
}

pub open spec fn spec_supported_encoders() -> Seq<Seq<char>> {
    seq!["x264"@, "x265"@, "svt-av1"@]
}

pub open spec fn spec_interp_methods() -> Seq<Seq<char>> {
    seq!["linear"@, "quadratic"@, "natural"@, "pchip"@, "catmull"@, "akima"@, "cubic-polynomial"@]
}

pub open spec fn spec_probing_stats() -> Seq<Seq<char>> {
    seq![
        "auto"@,
        "mean"@,
        "median"@,
        "harmonic"@,
        "percentile"@,
        "standard-deviation"@,
        "mode"@,
        "minimum"@,
        "maximum"@,
        "root-mean-square"@,
    ]
}

/// What this backend, of version `backend_version`, supports.
pub fn capabilities(backend_version: &'static str) -> (r: Capabilities)
    ensures
        r.protocol == FLOWENCODE_PROTOCOL_VERSION,
        r.backend_version == backend_version,
        str_views(r.supported_metrics@) == spec_supported_metrics(),
        str_views(r.supported_encoders@) == spec_supported_encoders(),
        str_views(r.interp_methods@) == spec_interp_methods(),
        str_views(r.probing_stats@) == spec_probing_stats(),
{
    let supported_metrics: Vec<&'static str> = vec![
        "vmaf",
        "ssimulacra2",
        "butteraugli-inf",
        "butteraugli-3",
        "xpsnr",
        "xpsnr-weighted",
    ];
    let supported_encoders: Vec<&'static str> = vec!["x264", "x265", "svt-av1"];
    let interp_methods: Vec<&'static str> = vec![
        "linear",
        "quadratic",
        "natural",
        "pchip",
        "catmull",
        "akima",
        "cubic-polynomial",
    ];
    let probing_stats: Vec<&'static str> = vec![
        "auto",
        "mean",
        "median",
        "harmonic",
        "percentile",
        "standard-deviation",
        "mode",
        "minimum",
        "maximum",
        "root-mean-square",
    ];
    assert(str_views(supported_metrics@) =~= spec_supported_metrics());
    assert(str_views(supported_encoders@) =~= spec_supported_encoders());
    assert(str_views(interp_methods@) =~= spec_interp_methods());
    assert(str_views(probing_stats@) =~= spec_probing_stats());
    Capabilities {
        protocol: FLOWENCODE_PROTOCOL_VERSION,
        backend_version,
        supported_metrics,
        supported_encoders,
        interp_methods,
        probing_stats,
    }
}

/// The data an event carries.
pub enum EventPayload {
    /// The run began: protocol version, encoder and metric names.
    RunStarted { protocol: i32, encoder: &'static str, target_metric: &'static str },
    /// The input was opened: its kind (`vapoursynth` or `video`), frame size
    /// and frame count.
    InputProbed { input_kind: &'static str, width: u32, height: u32, total_frames: usize },
    /// The number of chunks the video was cut into.
    ChunkPlan { chunk_count: u32 },
    /// Chunks done out of all, and the chunk just finished.
    EncodeProgress { fraction_done: u32, fraction_total: u32, chunk_index: Option<usize> },
    RunFinished { exit_code: i32 },
    RunFailed { exit_code: i32, message: String },
}

/// An event of the protocol: its type name and its data.
pub struct ProgressEvent {
    pub event_type: &'static str,
    pub payload: EventPayload,
}

/// The event to report: `payload` under `event_type` in the JSON-lines
/// format, nothing in the human format.
fn emit(format: ProgressFormat, event_type: &'static str, payload: EventPayload) -> (r: Option<ProgressEvent>)
    ensures
        match r {
            Some(e) => format == ProgressFormat::Jsonl && e.event_type == event_type && e.payload == payload,
            None => format != ProgressFormat::Jsonl,
        },
{
    if format != ProgressFormat::Jsonl {
        return None;
    }
    Some(ProgressEvent { event_type, payload })
}

/// The `run_started` event of a run with `encoder` aiming at `metric`.
pub fn emit_run_started(format: ProgressFormat, encoder: Encoder, metric: TargetMetric) -> (r: Option<ProgressEvent>)
    ensures
        match r {
            Some(e) => {
                &&& format == ProgressFormat::Jsonl
                &&& e.event_type@ == "run_started"@
                &&& e.payload matches EventPayload::RunStarted { protocol, encoder: name, target_metric }
                &&& protocol == FLOWENCODE_PROTOCOL_VERSION
                &&& name@ == spec_encoder_name(encoder)
                &&& target_metric@ == spec_metric_name(metric)
            },
            None => format != ProgressFormat::Jsonl,
        },
{
    emit(
        format,
        "run_started",
        EventPayload::RunStarted {
            protocol: FLOWENCODE_PROTOCOL_VERSION,
            encoder: encoder_name(encoder),
            target_metric: metric_name(metric),
        },
    )
}

/// The `input_probed` event for an input of the given kind, frame size and
/// frame count.
pub fn emit_input_probed(format: ProgressFormat, is_vapoursynth: bool, resolution: (u32, u32), num_frames: usize) -> (r: Option<ProgressEvent>)
    ensures
        match r {
            Some(e) => {
                &&& format == ProgressFormat::Jsonl
                &&& e.event_type@ == "input_probed"@
                &&& e.payload matches EventPayload::InputProbed { input_kind, width, height, total_frames }
                &&& input_kind@ == (if is_vapoursynth { "vapoursynth"@ } else { "video"@ })
                &&& width == resolution.0
                &&& height == resolution.1
                &&& total_frames == num_frames
            },
            None => format != ProgressFormat::Jsonl,
        },
{
    let input_kind: &'static str = if is_vapoursynth {
        "vapoursynth"
    } else {
        "video"
    };
    emit(
        format,
        "input_probed",
        EventPayload::InputProbed {
            input_kind,
            width: resolution.0,
            height: resolution.1,
            total_frames: num_frames,
        },
    )
}

/// The `chunk_plan` event: the number of chunks, cut to 32 bits.
pub fn emit_chunk_plan(format: ProgressFormat, chunk_count: usize) -> (r: Option<ProgressEvent>)
    ensures
        match r {
            Some(e) => format == ProgressFormat::Jsonl && e.event_type@ == "chunk_plan"@ && e.payload
                == (EventPayload::ChunkPlan { chunk_count: chunk_count as u32 }),
            None => format != ProgressFormat::Jsonl,
        },
{
    let count: u32 = #[verifier::truncate] (chunk_count as u32);
    emit(format, "chunk_plan", EventPayload::ChunkPlan { chunk_count: count })
}

/// The `encode_progress` event: chunks done out of all (cut to 32 bits) and
/// the index of the chunk just finished, if any.
pub fn emit_chunk_progress(
    format: ProgressFormat,
    completed_chunks: usize,
    total_chunks: usize,
    chunk_index: Option<usize>,
) -> (r: Option<ProgressEvent>)
    ensures
        match r {
            Some(e) => format == ProgressFormat::Jsonl && e.event_type@ == "encode_progress"@ && e.payload
                == (EventPayload::EncodeProgress {
                fraction_done: completed_chunks as u32,
                fraction_total: total_chunks as u32,
                chunk_index,
            }),
            None => format != ProgressFormat::Jsonl,
        },
{
    let done: u32 = #[verifier::truncate] (completed_chunks as u32);
    let total: u32 = #[verifier::truncate] (total_chunks as u32);
    emit(
        format,
        "encode_progress",
        EventPayload::EncodeProgress { fraction_done: done, fraction_total: total, chunk_index },
    )
}

/// The `run_completed` event, with exit code 0.
pub fn emit_run_completed(format: ProgressFormat) -> (r: Option<ProgressEvent>)
    ensures
        match r {
            Some(e) => format == ProgressFormat::Jsonl && e.event_type@ == "run_completed"@ && e.payload
                == (EventPayload::RunFinished { exit_code: 0 }),
            None => format != ProgressFormat::Jsonl,
        },
{
    emit(format, "run_completed", EventPayload::RunFinished { exit_code: 0 })
}

/// The `run_failed` event with its exit code and message.
pub fn emit_run_failed(format: ProgressFormat, exit_code: i32, message: &str) -> (r: Option<ProgressEvent>)
    ensures
        match r {
            Some(e) => {
                &&& format == ProgressFormat::Jsonl
                &&& e.event_type@ == "run_failed"@
                &&& e.payload matches EventPayload::RunFailed { exit_code: code, message: m }
                &&& code == exit_code
                &&& m@ == message@
            },
            None => format != ProgressFormat::Jsonl,
        },
{
    emit(format, "run_failed", EventPayload::RunFailed { exit_code, message: message.to_owned() })
}

} // verus!
