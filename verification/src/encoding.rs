//! Encoders, their default parameters per pass, and the parameters that an
//! encoder configuration carries.

use vstd::prelude::*;

use crate::cli_parameter::{
    flag_param, number_param, text_param, CLIParameter, ParamView, ParameterMap,
};
use crate::text::concat2;

verus! {

/// The encoders that can be configured.
#[derive(Debug, Clone, Copy, PartialEq, Eq, Structural)]
pub enum EncoderBase {
    AOM,
    RAV1E,
    VPX,
    SVTAV1,
    X264,
    X265,
    VVenC,
    FFmpeg,
}

/// Which passes to run: all of `n` passes, or only pass `current` of `total`.
#[derive(Debug, Clone, Copy, PartialEq, Eq, Structural)]
pub enum EncoderPasses {
    All(u8),
    Specific(u8, u8),
}

/// The passes an encoder runs unless told otherwise.
pub open spec fn spec_default_passes(b: EncoderBase) -> EncoderPasses {
    match b {
        EncoderBase::AOM | EncoderBase::VPX => EncoderPasses::All(2),
        _ => EncoderPasses::All(1),
    }
}

/// The parameters an encoder starts from, whatever the pass.
pub open spec fn base_defaults(b: EncoderBase) -> Map<Seq<char>, ParamView> {
    match b {
        EncoderBase::AOM => map![
            "threads"@ => number_param("--"@, "="@, 8),
            "cpu-used"@ => number_param("--"@, "="@, 6),
            "cq-level"@ => number_param("--"@, "="@, 30),
            "kf-max-dist"@ => number_param("--"@, "="@, 9999),
            "end-usage"@ => text_param("--"@, "="@, "q"@),
        ],
        EncoderBase::RAV1E => map![
            "speed"@ => number_param("--"@, " "@, 8),
            "quantizer"@ => number_param("--"@, " "@, 100),
            "keyint"@ => number_param("--"@, " "@, 0),
            "no-scene-detection"@ => flag_param("--"@, true),
            "y"@ => flag_param("-"@, true),
        ],
        EncoderBase::VPX => map![
            "profile"@ => number_param("--"@, "="@, 2),
            "threads"@ => number_param("--"@, "="@, 4),
            "cpu-used"@ => number_param("--"@, "="@, 2),
            "cq-level"@ => number_param("--"@, "="@, 30),
            "row-mt"@ => number_param("--"@, "="@, 1),
            "auto-alt-ref"@ => number_param("--"@, "="@, 6),
            "kf-max-dist"@ => number_param("--"@, "="@, 9999),
            "b"@ => number_param("-"@, " "@, 10),
            "disable-kf"@ => flag_param("--"@, true),
            "codec"@ => text_param("--"@, "="@, "vp9"@),
            "end-usage"@ => text_param("--"@, "="@, "q"@),
        ],
        EncoderBase::SVTAV1 => map![
            "preset"@ => number_param("--"@, " "@, 4),
            "keyint"@ => number_param("--"@, " "@, 0),
            "scd"@ => number_param("--"@, " "@, 0),
            "rc"@ => number_param("--"@, " "@, 0),
            "crf"@ => number_param("--"@, " "@, 25),
            "progress"@ => number_param("--"@, " "@, 2),
        ],
        EncoderBase::X264 => map![
            "crf"@ => number_param("--"@, " "@, 25),
            "scenecut"@ => number_param("--"@, " "@, 0),
            "preset"@ => text_param("--"@, "="@, "slow"@),
            "keyint"@ => text_param("--"@, "="@, "infinite"@),
            "log-level"@ => text_param("--"@, "="@, "error"@),
            "demuxer"@ => text_param("--"@, "="@, "y4m"@),
            "stitchable"@ => flag_param("--"@, true),
        ],
        EncoderBase::X265 => map![
            "crf"@ => number_param("--"@, " "@, 25),
            "level-idc"@ => number_param("--"@, " "@, 5),
            "keyint"@ => number_param("--"@, " "@, -1),
            "scenecut"@ => number_param("--"@, " "@, 0),
            "D"@ => number_param("-"@, " "@, 10),
            "y4m"@ => flag_param("--"@, true),
            "preset"@ => text_param("--"@, " "@, "slow"@),
        ],
        EncoderBase::VVenC => Map::empty(),
        EncoderBase::FFmpeg => Map::empty(),
    }
}

/// The pass is the only one: `(1, 1)`.
pub open spec fn is_single_pass(pass: (u8, u8)) -> bool {
    pass.0 == 1 && pass.1 == 1
}

/// The parameters that select pass `pass`; `name` names the first-pass
/// statistics file.
pub open spec fn pass_defaults(b: EncoderBase, pass: (u8, u8), name: Seq<char>) -> Map<
    Seq<char>,
    ParamView,
> {
    let which: int = if pass.0 == 1 { 1 } else { 2 };
    match b {
        EncoderBase::AOM => if is_single_pass(pass) {
            Map::empty()
        } else {
            map![
                "passes"@ => number_param("--"@, "="@, 2),
                "pass"@ => number_param("--"@, "="@, which),
                "fpf"@ => text_param("--"@, "="@, name + ".log"@),
            ]
        },
        EncoderBase::RAV1E => if is_single_pass(pass) {
            Map::empty()
        } else if pass.0 == 1 {
            map![
                "passes"@ => number_param("--"@, " "@, 2),
                "pass"@ => number_param("--"@, " "@, 1),
                "quiet"@ => flag_param("--"@, true),
                "first-pass"@ => text_param("--"@, " "@, name + ".stat"@),
            ]
        } else {
            map![
                "passes"@ => number_param("--"@, " "@, 2),
                "pass"@ => number_param("--"@, " "@, 2),
                "quiet"@ => flag_param("--"@, true),
                "second-pass"@ => text_param("--"@, " "@, name + ".stat"@),
            ]
        },
        EncoderBase::VPX => if is_single_pass(pass) {
            map!["passes"@ => number_param("--"@, "="@, 1)]
        } else {
            map![
                "passes"@ => number_param("--"@, "="@, 2),
                "pass"@ => number_param("--"@, "="@, which),
                "fpf"@ => text_param("--"@, "="@, name + ".log"@),
            ]
        },
        EncoderBase::SVTAV1 => if is_single_pass(pass) {
            Map::empty()
        } else {
            map![
                "irefresh-type"@ => number_param("--"@, " "@, 2),
                "pass"@ => number_param("--"@, " "@, which),
                "stats"@ => text_param("-"@, " "@, name + ".stat"@),
            ]
        },
        EncoderBase::X264 => if is_single_pass(pass) {
            Map::empty()
        } else {
            map![
                "pass"@ => number_param("--"@, " "@, which),
                "stats"@ => text_param("--"@, " "@, name + ".log"@),
            ]
        },
        EncoderBase::X265 => if is_single_pass(pass) {
            Map::empty()
        } else {
            map![
                "repeat-headers"@ => flag_param("--"@, true),
                "pass"@ => number_param("--"@, " "@, which),
                "log-level"@ => text_param("--"@, " "@, "error"@),
                "stats"@ => text_param("--"@, " "@, name + ".log"@),
                "analysis-reuse-file"@ => text_param("--"@, " "@, name + "_analysis.dat"@),
            ]
        },
        EncoderBase::VVenC => Map::empty(),
        EncoderBase::FFmpeg => Map::empty(),
    }
}

/// The extension of the files an encoder writes.
pub open spec fn spec_output_extension(b: EncoderBase) -> Seq<char> {
    match b {
        EncoderBase::AOM | EncoderBase::RAV1E | EncoderBase::VPX | EncoderBase::SVTAV1 => "ivf"@,
        EncoderBase::X264 => "264"@,
        EncoderBase::X265 => "hevc"@,
        EncoderBase::VVenC => Seq::empty(),
        EncoderBase::FFmpeg => ".mkv"@,
    }
}

/// The display name of an encoder.
pub open spec fn spec_friendly_name(b: EncoderBase) -> Seq<char> {
    match b {
        EncoderBase::AOM => "Alliance for Open Media AV1"@,
        EncoderBase::RAV1E => "rav1e"@,
        EncoderBase::VPX => "WebM VP8/VP9"@,
        EncoderBase::SVTAV1 => "Scalable Video Technology for AV1"@,
        EncoderBase::X264 => "x264"@,
        EncoderBase::X265 => "x265"@,
        EncoderBase::VVenC => "Fraunhofer Versatile Video Encoder"@,
        EncoderBase::FFmpeg => "FFmpeg"@,
    }
}

/// The quantizer range, `(low, high)`, searched when aiming for a target
/// quality.
pub open spec fn spec_quantizer_range(b: EncoderBase) -> (u32, u32) {
    match b {
        EncoderBase::AOM | EncoderBase::VPX => (15, 55),
        EncoderBase::RAV1E => (50, 140),
        EncoderBase::SVTAV1 => (15, 50),
        _ => (15, 35),
    }
}

/// The default quantizer search range of an encoder. VVenC and FFmpeg have
/// none.
pub fn default_quantizer_range(encoder: &EncoderBase) -> (r: (u32, u32))
    requires
        *encoder != EncoderBase::VVenC,
        *encoder != EncoderBase::FFmpeg,
    ensures
        r == spec_quantizer_range(*encoder),
{
    match encoder {
        EncoderBase::AOM | EncoderBase::VPX => (15, 55),
        EncoderBase::RAV1E => (50, 140),
        EncoderBase::SVTAV1 => (15, 50),
        _ => (15, 35),
    }
}

impl EncoderBase {
    /// The passes this encoder runs unless told otherwise: two for aomenc and
    /// vpxenc, one for the others.
    pub fn default_passes(&self) -> (r: EncoderPasses)
        ensures
            r == spec_default_passes(*self),
    {
        match self {
            EncoderBase::AOM | EncoderBase::VPX => EncoderPasses::All(2),
            _ => EncoderPasses::All(1),
        }
    }

    /// The parameters this encoder starts from. VVenC has none defined.
    pub fn default_parameters(&self) -> (r: ParameterMap)
        requires
            *self != EncoderBase::VVenC,
        ensures
            r@ == base_defaults(*self),
    {
        let mut p = ParameterMap::new();
        match self {
            EncoderBase::AOM => {
                p.insert_number("threads", "--", "=", 8);
                p.insert_number("cpu-used", "--", "=", 6);
                p.insert_number("cq-level", "--", "=", 30);
                p.insert_number("kf-max-dist", "--", "=", 9999);
                p.insert_string("end-usage", "--", "=", "q");
            },
            EncoderBase::RAV1E => {
                p.insert_number("speed", "--", " ", 8);
                p.insert_number("quantizer", "--", " ", 100);
                p.insert_number("keyint", "--", " ", 0);
                p.insert_bool("no-scene-detection", "--", true);
                p.insert_bool("y", "-", true);
            },
            EncoderBase::VPX => {
                p.insert_number("profile", "--", "=", 2);
                p.insert_number("threads", "--", "=", 4);
                p.insert_number("cpu-used", "--", "=", 2);
                p.insert_number("cq-level", "--", "=", 30);
                p.insert_number("row-mt", "--", "=", 1);
                p.insert_number("auto-alt-ref", "--", "=", 6);
                p.insert_number("kf-max-dist", "--", "=", 9999);
                p.insert_number("b", "-", " ", 10);
                p.insert_bool("disable-kf", "--", true);
                p.insert_string("codec", "--", "=", "vp9");
                p.insert_string("end-usage", "--", "=", "q");
            },
            EncoderBase::SVTAV1 => {
                p.insert_number("preset", "--", " ", 4);
                p.insert_number("keyint", "--", " ", 0);
                p.insert_number("scd", "--", " ", 0);
                p.insert_number("rc", "--", " ", 0);
                p.insert_number("crf", "--", " ", 25);
                p.insert_number("progress", "--", " ", 2);
            },
            EncoderBase::X264 => {
                p.insert_number("crf", "--", " ", 25);
                p.insert_number("scenecut", "--", " ", 0);
                p.insert_string("preset", "--", "=", "slow");
                p.insert_string("keyint", "--", "=", "infinite");
                p.insert_string("log-level", "--", "=", "error");
                p.insert_string("demuxer", "--", "=", "y4m");
                p.insert_bool("stitchable", "--", true);
            },
            EncoderBase::X265 => {
                p.insert_number("crf", "--", " ", 25);
                p.insert_number("level-idc", "--", " ", 5);
                p.insert_number("keyint", "--", " ", -1);
                p.insert_number("scenecut", "--", " ", 0);
                p.insert_number("D", "-", " ", 10);
                p.insert_bool("y4m", "--", true);
                p.insert_string("preset", "--", " ", "slow");
            },
            EncoderBase::VVenC => {},
            EncoderBase::FFmpeg => {},
        }
        p
    }

    /// The parameters that select pass `pass` (current, total) for this
    /// encoder; `first_pass_file_name` names the statistics file that the
    /// passes share. VVenC has none defined.
    pub fn pass_parameters(&self, pass: (u8, u8), first_pass_file_name: &str) -> (r: ParameterMap)
        requires
            *self != EncoderBase::VVenC,
        ensures
            r@ == pass_defaults(*self, pass, first_pass_file_name@),
    {
        let mut p = ParameterMap::new();
        let single = pass.0 == 1 && pass.1 == 1;
        let which: i64 = if pass.0 == 1 { 1 } else { 2 };
        let log_file = concat2(first_pass_file_name, ".log");
        let stat_file = concat2(first_pass_file_name, ".stat");
        match self {
            EncoderBase::AOM => {
                if !single {
                    p.insert_number("passes", "--", "=", 2);
                    p.insert_number("pass", "--", "=", which);
                    p.insert_string("fpf", "--", "=", log_file.as_str());
                }
            },
            EncoderBase::RAV1E => {
                if !single {
                    p.insert_number("passes", "--", " ", 2);
                    p.insert_number("pass", "--", " ", which);
                    p.insert_bool("quiet", "--", true);
                    if pass.0 == 1 {
                        p.insert_string("first-pass", "--", " ", stat_file.as_str());
                    } else {
                        p.insert_string("second-pass", "--", " ", stat_file.as_str());
                    }
                }
            },
            EncoderBase::VPX => {
                if single {
                    p.insert_number("passes", "--", "=", 1);
                } else {
                    p.insert_number("passes", "--", "=", 2);
                    p.insert_number("pass", "--", "=", which);
                    p.insert_string("fpf", "--", "=", log_file.as_str());
                }
            },
            EncoderBase::SVTAV1 => {
                if !single {
                    p.insert_number("irefresh-type", "--", " ", 2);
                    p.insert_number("pass", "--", " ", which);
                    p.insert_string("stats", "-", " ", stat_file.as_str());
                }
            },
            EncoderBase::X264 => {
                if !single {
                    p.insert_number("pass", "--", " ", which);
                    p.insert_string("stats", "--", " ", log_file.as_str());
                }
            },
            EncoderBase::X265 => {
                if !single {
                    let analysis_file = concat2(first_pass_file_name, "_analysis.dat");
                    p.insert_bool("repeat-headers", "--", true);
                    p.insert_number("pass", "--", " ", which);
                    p.insert_string("log-level", "--", " ", "error");
                    p.insert_string("stats", "--", " ", log_file.as_str());
                    p.insert_string("analysis-reuse-file", "--", " ", analysis_file.as_str());
                }
            },
            EncoderBase::VVenC => {},
            EncoderBase::FFmpeg => {},
        }
        p
    }

    /// The extension of the files this encoder writes. VVenC has none defined.
    pub fn output_extension(&self) -> (r: &'static str)
        requires
            *self != EncoderBase::VVenC,
        ensures
            r@ == spec_output_extension(*self),
    {
        match self {
            EncoderBase::AOM | EncoderBase::RAV1E | EncoderBase::VPX | EncoderBase::SVTAV1 => "ivf",
            EncoderBase::X264 => "264",
            EncoderBase::X265 => "hevc",
            EncoderBase::VVenC => "",
            EncoderBase::FFmpeg => ".mkv",
        }
    }

    /// The display name of this encoder.
    pub fn friendly_name(&self) -> (r: &'static str)
        ensures
            r@ == spec_friendly_name(*self),
    {
        match self {
            EncoderBase::AOM => "Alliance for Open Media AV1",
            EncoderBase::RAV1E => "rav1e",
            EncoderBase::VPX => "WebM VP8/VP9",
            EncoderBase::SVTAV1 => "Scalable Video Technology for AV1",
            EncoderBase::X264 => "x264",
            EncoderBase::X265 => "x265",
            EncoderBase::VVenC => "Fraunhofer Versatile Video Encoder",
            EncoderBase::FFmpeg => "FFmpeg",
        }
    }
}

/// Photon-noise (synthetic film grain) settings: the ISO strength, an
/// optional separate chroma strength, an optional frame size to model the
/// grain for, and optional autoregressive coefficients for luma and chroma.
pub struct PhotonNoise {
    pub iso: u32,
    pub chroma_iso: Option<u32>,
    pub width: Option<u32>,
    pub height: Option<u32>,
    pub c_y: Option<Vec<i8>>,
    pub ccb: Option<Vec<i8>>,
    pub ccr: Option<Vec<i8>>,
}

/// An encoder configuration: which encoder, an optional executable path,
/// the passes to run, its parameters and, where supported, photon noise.
pub enum Encoder {
    AOM {
        executable: Option<String>,
        pass: EncoderPasses,
        options: ParameterMap,
        photon_noise: Option<PhotonNoise>,
    },
    RAV1E {
        executable: Option<String>,
        pass: EncoderPasses,
        options: ParameterMap,
        photon_noise: Option<PhotonNoise>,
    },
    VPX { executable: Option<String>, pass: EncoderPasses, options: ParameterMap },
    SVTAV1 {
        executable: Option<String>,
        pass: EncoderPasses,
        options: ParameterMap,
        photon_noise: Option<PhotonNoise>,
    },
    X264 { executable: Option<String>, pass: EncoderPasses, options: ParameterMap },
    X265 { executable: Option<String>, pass: EncoderPasses, options: ParameterMap },
    VVenC { executable: Option<String>, pass: EncoderPasses, options: ParameterMap },
    FFmpeg { executable: Option<String>, options: ParameterMap },
}

impl Encoder {
    /// Which encoder this is.
    pub open spec fn spec_base(&self) -> EncoderBase {
        match self {
            Encoder::AOM { .. } => EncoderBase::AOM,
            Encoder::RAV1E { .. } => EncoderBase::RAV1E,
            Encoder::VPX { .. } => EncoderBase::VPX,
            Encoder::SVTAV1 { .. } => EncoderBase::SVTAV1,
            Encoder::X264 { .. } => EncoderBase::X264,
            Encoder::X265 { .. } => EncoderBase::X265,
            Encoder::VVenC { .. } => EncoderBase::VVenC,
            Encoder::FFmpeg { .. } => EncoderBase::FFmpeg,
        }
    }

    /// The passes this configuration runs; FFmpeg always runs one.
    pub open spec fn spec_passes(&self) -> EncoderPasses {
        match self {
            Encoder::AOM { pass, .. } => *pass,
            Encoder::RAV1E { pass, .. } => *pass,
            Encoder::VPX { pass, .. } => *pass,
            Encoder::SVTAV1 { pass, .. } => *pass,
            Encoder::X264 { pass, .. } => *pass,
            Encoder::X265 { pass, .. } => *pass,
            Encoder::VVenC { pass, .. } => *pass,
            Encoder::FFmpeg { .. } => EncoderPasses::All(1),
        }
    }

    /// The parameters of this configuration.
    pub open spec fn spec_options(&self) -> ParameterMap {
        match self {
            Encoder::AOM { options, .. } => *options,
            Encoder::RAV1E { options, .. } => *options,
            Encoder::VPX { options, .. } => *options,
            Encoder::SVTAV1 { options, .. } => *options,
            Encoder::X264 { options, .. } => *options,
            Encoder::X265 { options, .. } => *options,
            Encoder::VVenC { options, .. } => *options,
            Encoder::FFmpeg { options, .. } => *options,
        }
    }

    /// The executable path of this configuration, if one is set.
    pub open spec fn spec_executable(&self) -> Option<String> {
        match self {
            Encoder::AOM { executable, .. } => *executable,
            Encoder::RAV1E { executable, .. } => *executable,
            Encoder::VPX { executable, .. } => *executable,
            Encoder::SVTAV1 { executable, .. } => *executable,
            Encoder::X264 { executable, .. } => *executable,
            Encoder::X265 { executable, .. } => *executable,
            Encoder::VVenC { executable, .. } => *executable,
            Encoder::FFmpeg { executable, .. } => *executable,
        }
    }

    /// The same configuration with its parameters replaced by `options`.
    pub open spec fn with_options(self, options: ParameterMap) -> Encoder {
        match self {
            Encoder::AOM { executable, pass, photon_noise, .. } => Encoder::AOM {
                executable,
                pass,
                options,
                photon_noise,
            },
            Encoder::RAV1E { executable, pass, photon_noise, .. } => Encoder::RAV1E {
                executable,
                pass,
                options,
                photon_noise,
            },
            Encoder::VPX { executable, pass, .. } => Encoder::VPX { executable, pass, options },
            Encoder::SVTAV1 { executable, pass, photon_noise, .. } => Encoder::SVTAV1 {
                executable,
                pass,
                options,
                photon_noise,
            },
            Encoder::X264 { executable, pass, .. } => Encoder::X264 { executable, pass, options },
            Encoder::X265 { executable, pass, .. } => Encoder::X265 { executable, pass, options },
            Encoder::VVenC { executable, pass, .. } => Encoder::VVenC { executable, pass, options },
            Encoder::FFmpeg { executable, .. } => Encoder::FFmpeg { executable, options },
        }
    }

    /// The same configuration with its passes replaced by `pass` (FFmpeg has
    /// no passes to replace).
    pub open spec fn with_passes(self, pass: EncoderPasses) -> Encoder {
        match self {
            Encoder::AOM { executable, options, photon_noise, .. } => Encoder::AOM {
                executable,
                pass,
                options,
                photon_noise,
            },
            Encoder::RAV1E { executable, options, photon_noise, .. } => Encoder::RAV1E {
                executable,
                pass,
                options,
                photon_noise,
            },
            Encoder::VPX { executable, options, .. } => Encoder::VPX { executable, pass, options },
            Encoder::SVTAV1 { executable, options, photon_noise, .. } => Encoder::SVTAV1 {
                executable,
                pass,
                options,
                photon_noise,
            },
            Encoder::X264 { executable, options, .. } => Encoder::X264 { executable, pass, options },
            Encoder::X265 { executable, options, .. } => Encoder::X265 { executable, pass, options },
            Encoder::VVenC { executable, options, .. } => Encoder::VVenC { executable, pass, options },
            Encoder::FFmpeg { executable, options } => Encoder::FFmpeg { executable, options },
        }
    }

    /// Which encoder this is.
    pub fn base(&self) -> (r: EncoderBase)
        ensures
            r == self.spec_base(),
    {
        match self {
            Encoder::AOM { .. } => EncoderBase::AOM,
            Encoder::RAV1E { .. } => EncoderBase::RAV1E,
            Encoder::VPX { .. } => EncoderBase::VPX,
            Encoder::SVTAV1 { .. } => EncoderBase::SVTAV1,
            Encoder::X264 { .. } => EncoderBase::X264,
            Encoder::X265 { .. } => EncoderBase::X265,
            Encoder::VVenC { .. } => EncoderBase::VVenC,
            Encoder::FFmpeg { .. } => EncoderBase::FFmpeg,
        }
    }

    /// The configured executable path, if one is set.
    pub fn configured_executable(&self) -> (r: &Option<String>)
        ensures
            *r == self.spec_executable(),
    {
        match self {
            Encoder::AOM { executable, .. } => executable,
            Encoder::RAV1E { executable, .. } => executable,
            Encoder::VPX { executable, .. } => executable,
            Encoder::SVTAV1 { executable, .. } => executable,
            Encoder::X264 { executable, .. } => executable,
            Encoder::X265 { executable, .. } => executable,
            Encoder::VVenC { executable, .. } => executable,
            Encoder::FFmpeg { executable, .. } => executable,
        }
    }

    /// A configuration of `encoder` with no executable path, its default
    /// passes, no photon noise, and either no parameters or its default ones.
    pub fn default_from_base(encoder: &EncoderBase, exclude_default_options: bool) -> (r: Self)
        requires
            exclude_default_options || *encoder != EncoderBase::VVenC,
        ensures
            r.spec_base() == *encoder,
            r.spec_executable() is None,
            *encoder != EncoderBase::FFmpeg ==> r.spec_passes() == spec_default_passes(*encoder),
            r.spec_options()@ == if exclude_default_options {
                Map::<Seq<char>, ParamView>::empty()
            } else {
                base_defaults(*encoder)
            },
            r matches Encoder::AOM { photon_noise, .. } ==> photon_noise is None,
            r matches Encoder::RAV1E { photon_noise, .. } ==> photon_noise is None,
            r matches Encoder::SVTAV1 { photon_noise, .. } ==> photon_noise is None,
    {
        let pass = encoder.default_passes();
        let options = if exclude_default_options {
            ParameterMap::new()
        } else {
            encoder.default_parameters()
        };
        match encoder {
            EncoderBase::AOM => Encoder::AOM { executable: None, pass, options, photon_noise: None },
            EncoderBase::RAV1E => Encoder::RAV1E {
                executable: None,
                pass,
                options,
                photon_noise: None,
            },
            EncoderBase::VPX => Encoder::VPX { executable: None, pass, options },
            EncoderBase::SVTAV1 => Encoder::SVTAV1 {
                executable: None,
                pass,
                options,
                photon_noise: None,
            },
            EncoderBase::X264 => Encoder::X264 { executable: None, pass, options },
            EncoderBase::X265 => Encoder::X265 { executable: None, pass, options },
            EncoderBase::VVenC => Encoder::VVenC { executable: None, pass, options },
            EncoderBase::FFmpeg => Encoder::FFmpeg { executable: None, options },
        }
    }

    /// The passes this configuration runs; FFmpeg always runs one.
    pub fn passes(&self) -> (r: EncoderPasses)
        ensures
            r == self.spec_passes(),
    {
        match self {
            Encoder::AOM { pass, .. } => *pass,
            Encoder::RAV1E { pass, .. } => *pass,
            Encoder::VPX { pass, .. } => *pass,
            Encoder::SVTAV1 { pass, .. } => *pass,
            Encoder::X264 { pass, .. } => *pass,
            Encoder::X265 { pass, .. } => *pass,
            Encoder::VVenC { pass, .. } => *pass,
            Encoder::FFmpeg { .. } => EncoderPasses::All(1),
        }
    }

    /// The passes of this configuration, to change them; FFmpeg has none.
    pub fn passes_mut(&mut self) -> (r: Option<&mut EncoderPasses>)
        ensures
            r is None <==> old(self).spec_base() == EncoderBase::FFmpeg,
            r is None ==> *final(self) == *old(self),
            r matches Some(p) ==> *p == old(self).spec_passes() && *final(self) == old(
                self,
            ).with_passes(*final(p)),
    {
        match self {
            Encoder::AOM { pass, .. } => Some(pass),
            Encoder::RAV1E { pass, .. } => Some(pass),
            Encoder::VPX { pass, .. } => Some(pass),
            Encoder::SVTAV1 { pass, .. } => Some(pass),
            Encoder::X264 { pass, .. } => Some(pass),
            Encoder::X265 { pass, .. } => Some(pass),
            Encoder::VVenC { pass, .. } => Some(pass),
            Encoder::FFmpeg { .. } => None,
        }
    }

    /// The number of passes that one run of this configuration encodes: all
    /// of them, or one when a specific pass is selected.
    pub fn total_passes(&self) -> (r: u8)
        ensures
            r == match self.spec_passes() {
                EncoderPasses::All(n) => n,
                EncoderPasses::Specific(_, _) => 1u8,
            },
    {
        match self.passes() {
            EncoderPasses::All(passes) => passes,
            EncoderPasses::Specific(_, _) => 1,
        }
    }

    /// The parameters of this configuration.
    pub fn parameters(&self) -> (r: &ParameterMap)
        ensures
            *r == self.spec_options(),
    {
        match self {
            Encoder::AOM { options, .. } => options,
            Encoder::RAV1E { options, .. } => options,
            Encoder::VPX { options, .. } => options,
            Encoder::SVTAV1 { options, .. } => options,
            Encoder::X264 { options, .. } => options,
            Encoder::X265 { options, .. } => options,
            Encoder::VVenC { options, .. } => options,
            Encoder::FFmpeg { options, .. } => options,
        }
    }

    /// The parameters of this configuration, to change them.
    pub fn parameters_mut(&mut self) -> (r: &mut ParameterMap)
        ensures
            *r == old(self).spec_options(),
            *final(self) == old(self).with_options(*final(r)),
    {
        match self {
            Encoder::AOM { options, .. } => options,
            Encoder::RAV1E { options, .. } => options,
            Encoder::VPX { options, .. } => options,
            Encoder::SVTAV1 { options, .. } => options,
            Encoder::X264 { options, .. } => options,
            Encoder::X265 { options, .. } => options,
            Encoder::VVenC { options, .. } => options,
            Encoder::FFmpeg { options, .. } => options,
        }
    }

    /// The extension of the files this configuration writes.
    pub fn output_extension(&self) -> (r: &'static str)
        requires
            self.spec_base() != EncoderBase::VVenC,
        ensures
            r@ == spec_output_extension(self.spec_base()),
    {
        self.base().output_extension()
    }

    /// The extension of the files that `encoder` writes.
    pub fn output_extension_base(encoder: &EncoderBase) -> (r: &'static str)
        requires
            *encoder != EncoderBase::VVenC,
        ensures
            r@ == spec_output_extension(*encoder),
    {
        encoder.output_extension()
    }
}

/// Why an encoder operation was refused.
#[derive(Debug, Clone, Copy, PartialEq, Eq, Structural)]
pub enum EncoderError {
    /// The encoder cannot take a photon-noise table.
    PhotonNoiseNotSupported(EncoderBase),
    /// More luma autoregressive coefficients than a grain table holds (24).
    TooManyLumaCoefficients,
    /// More Cb autoregressive coefficients than a grain table holds (25).
    TooManyCbCoefficients,
    /// More Cr autoregressive coefficients than a grain table holds (25).
    TooManyCrCoefficients,
}

/// The parameter that points an encoder at a photon-noise table file, if the
/// encoder takes one.
pub open spec fn noise_table_parameter(b: EncoderBase, table_path: Seq<char>) -> Option<
    (Seq<char>, ParamView),
> {
    match b {
        EncoderBase::AOM => Some(("film-grain-table"@, text_param("--"@, "="@, table_path))),
        EncoderBase::RAV1E => Some(("photon-noise-table"@, text_param("--"@, " "@, table_path))),
        EncoderBase::SVTAV1 => Some(("fgs-table"@, text_param("--"@, " "@, table_path))),
        _ => None,
    }
}

/// Exactly aomenc, rav1e and SVT-AV1 take a photon-noise table: aomenc as
/// `--film-grain-table=<path>`, rav1e as `--photon-noise-table <path>` and
/// SVT-AV1 as `--fgs-table <path>`; no other encoder takes one.
pub proof fn lemma_noise_table_encoders(b: EncoderBase, table_path: Seq<char>)
    ensures
        noise_table_parameter(b, table_path) is Some <==> (b == EncoderBase::AOM || b == EncoderBase::RAV1E || b
            == EncoderBase::SVTAV1),
        b == EncoderBase::AOM ==> noise_table_parameter(b, table_path) == Some(
            ("film-grain-table"@, text_param("--"@, "="@, table_path)),
        ),
        b == EncoderBase::RAV1E ==> noise_table_parameter(b, table_path) == Some(
            ("photon-noise-table"@, text_param("--"@, " "@, table_path)),
        ),
        b == EncoderBase::SVTAV1 ==> noise_table_parameter(b, table_path) == Some(
            ("fgs-table"@, text_param("--"@, " "@, table_path)),
        ),
{
}

impl Encoder {
    /// Points the encoder at the photon-noise table at `table_path`. Only
    /// aomenc, rav1e and SVT-AV1 take one; the others are refused and left
    /// unchanged.
    pub fn apply_photon_noise_parameters(&mut self, table_path: &str) -> (r: Result<(), EncoderError>)
        ensures
            match noise_table_parameter(old(self).spec_base(), table_path@) {
                Some((key, param)) => r is Ok && *final(self) == old(self).with_options(
                    final(self).spec_options(),
                ) && final(self).spec_options()@ == old(self).spec_options()@.insert(key, param),
                None => r == Err::<(), EncoderError>(
                    EncoderError::PhotonNoiseNotSupported(old(self).spec_base()),
                ) && *final(self) == *old(self),
            },
            r is Ok <==> (old(self).spec_base() == EncoderBase::AOM || old(self).spec_base() == EncoderBase::RAV1E
                || old(self).spec_base() == EncoderBase::SVTAV1),
            old(self).spec_base() == EncoderBase::RAV1E ==> final(self).spec_options()@ == old(self).spec_options()@.insert(
                "photon-noise-table"@,
                text_param("--"@, " "@, table_path@),
            ),
            old(self).spec_base() == EncoderBase::AOM ==> final(self).spec_options()@ == old(self).spec_options()@.insert(
                "film-grain-table"@,
                text_param("--"@, "="@, table_path@),
            ),
            old(self).spec_base() == EncoderBase::SVTAV1 ==> final(self).spec_options()@ == old(self).spec_options()@.insert(
                "fgs-table"@,
                text_param("--"@, " "@, table_path@),
            ),
    {
        proof {
            lemma_noise_table_encoders(self.spec_base(), table_path@);
        }
        match self.base() {
            EncoderBase::AOM => {
                self.parameters_mut().insert_string("film-grain-table", "--", "=", table_path);
                Ok(())
            },
            EncoderBase::RAV1E => {
                self.parameters_mut().insert_string("photon-noise-table", "--", " ", table_path);
                Ok(())
            },
            EncoderBase::SVTAV1 => {
                self.parameters_mut().insert_string("fgs-table", "--", " ", table_path);
                Ok(())
            },
            base => Err(EncoderError::PhotonNoiseNotSupported(base)),
        }
    }
}

/// The coefficients of an optional list, as a sequence.
pub open spec fn coefficients(v: Option<Vec<i8>>) -> Option<Seq<i8>> {
    match v {
        Some(c) => Some(c@),
        None => None,
    }
}

impl PhotonNoise {
    /// Two photon-noise settings are the same: equal fields, coefficient
    /// lists equal as sequences.
    pub open spec fn same_as(&self, other: &PhotonNoise) -> bool {
        &&& self.iso == other.iso
        &&& self.chroma_iso == other.chroma_iso
        &&& self.width == other.width
        &&& self.height == other.height
        &&& coefficients(self.c_y) == coefficients(other.c_y)
        &&& coefficients(self.ccb) == coefficients(other.ccb)
        &&& coefficients(self.ccr) == coefficients(other.ccr)
    }

    /// A copy of these settings.
    pub fn duplicate(&self) -> (r: PhotonNoise)
        ensures
            r.same_as(self),
    {
        PhotonNoise {
            iso: self.iso,
            chroma_iso: self.chroma_iso,
            width: self.width,
            height: self.height,
            c_y: copy_coefficients(&self.c_y),
            ccb: copy_coefficients(&self.ccb),
            ccr: copy_coefficients(&self.ccr),
        }
    }
}

/// A copy of an optional list of coefficients.
fn copy_coefficients(v: &Option<Vec<i8>>) -> (r: Option<Vec<i8>>)
    ensures
        coefficients(r) == coefficients(*v),
{
    match v {
        Some(c) => {
            let mut out: Vec<i8> = Vec::new();
            let mut i: usize = 0;
            while i < c.len()
                invariant
                    i <= c.len(),
                    out@ == c@.take(i as int),
                decreases c.len() - i,
            {
                out.push(c[i]);
                assert(c@.take(i + 1) =~= c@.take(i as int).push(c@[i as int]));
                i = i + 1;
            }
            assert(c@.take(c@.len() as int) =~= c@);
            Some(out)
        },
        None => None,
    }
}

/// Two optional photon-noise settings are the same.
pub open spec fn same_noise(a: Option<PhotonNoise>, b: Option<PhotonNoise>) -> bool {
    match (a, b) {
        (Some(x), Some(y)) => x.same_as(&y),
        (None, None) => true,
        _ => false,
    }
}

fn copy_noise(n: &Option<PhotonNoise>) -> (r: Option<PhotonNoise>)
    ensures
        same_noise(r, *n),
{
    match n {
        Some(p) => Some(p.duplicate()),
        None => None,
    }
}

fn copy_executable(e: &Option<String>) -> (r: Option<String>)
    ensures
        r == *e,
{
    match e {
        Some(s) => Some(s.clone()),
        None => None,
    }
}

impl Encoder {
    /// The photon-noise settings of this configuration, where the encoder
    /// supports them.
    pub open spec fn spec_photon_noise(&self) -> Option<PhotonNoise> {
        match self {
            Encoder::AOM { photon_noise, .. } => *photon_noise,
            Encoder::RAV1E { photon_noise, .. } => *photon_noise,
            Encoder::SVTAV1 { photon_noise, .. } => *photon_noise,
            _ => None,
        }
    }

    /// Two configurations are the same: same encoder, executable, passes,
    /// parameters in the same order, and photon noise.
    pub open spec fn same_as(&self, other: &Encoder) -> bool {
        &&& self.spec_base() == other.spec_base()
        &&& self.spec_executable() == other.spec_executable()
        &&& self.spec_passes() == other.spec_passes()
        &&& self.spec_options().entries() == other.spec_options().entries()
        &&& same_noise(self.spec_photon_noise(), other.spec_photon_noise())
    }

    /// A copy of this configuration.
    pub fn duplicate(&self) -> (r: Encoder)
        ensures
            r.same_as(self),
    {
        match self {
            Encoder::AOM { executable, pass, options, photon_noise } => Encoder::AOM {
                executable: copy_executable(executable),
                pass: *pass,
                options: options.duplicate(),
                photon_noise: copy_noise(photon_noise),
            },
            Encoder::RAV1E { executable, pass, options, photon_noise } => Encoder::RAV1E {
                executable: copy_executable(executable),
                pass: *pass,
                options: options.duplicate(),
                photon_noise: copy_noise(photon_noise),
            },
            Encoder::VPX { executable, pass, options } => Encoder::VPX {
                executable: copy_executable(executable),
                pass: *pass,
                options: options.duplicate(),
            },
            Encoder::SVTAV1 { executable, pass, options, photon_noise } => Encoder::SVTAV1 {
                executable: copy_executable(executable),
                pass: *pass,
                options: options.duplicate(),
                photon_noise: copy_noise(photon_noise),
            },
            Encoder::X264 { executable, pass, options } => Encoder::X264 {
                executable: copy_executable(executable),
                pass: *pass,
                options: options.duplicate(),
            },
            Encoder::X265 { executable, pass, options } => Encoder::X265 {
                executable: copy_executable(executable),
                pass: *pass,
                options: options.duplicate(),
            },
            Encoder::VVenC { executable, pass, options } => Encoder::VVenC {
                executable: copy_executable(executable),
                pass: *pass,
                options: options.duplicate(),
            },
            Encoder::FFmpeg { executable, options } => Encoder::FFmpeg {
                executable: copy_executable(executable),
                options: options.duplicate(),
            },
        }
    }
}

impl Default for Encoder {
    /// SVT-AV1, one pass, no parameters, no executable path, no photon noise.
    fn default() -> (r: Self)
        ensures
            r.spec_base() == EncoderBase::SVTAV1,
            r.spec_executable() is None,
            r.spec_passes() == EncoderPasses::All(1),
            r.spec_options()@ == Map::<Seq<char>, ParamView>::empty(),
            r.spec_photon_noise() is None,
    {
        Encoder::SVTAV1 { executable: None, pass: EncoderPasses::All(1), options: ParameterMap::new(), photon_noise: None }
    }
}

} // verus!
