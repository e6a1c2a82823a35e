//! The choices a user makes on the command line: the scene-detection method,
//! the decoder, and the settings the `config` command changes.

use vstd::prelude::*;
use crate::scene_detection::{
    DEFAULT_MAX_SCENE_LENGTH_SECONDS, DEFAULT_MIN_SCENE_LENGTH_FRAMES, SceneDetectionMethod as CoreMethod,
    ScenecutMethod,
};
use crate::settings::ConcatMethod;
use crate::text::str_eq;

verus! {

/// The scene-detection method named on the command line.
#[derive(Debug, Clone, Copy, PartialEq, Eq, Structural)]
pub enum SceneDetectionMethod {
    /// Fixed-length scenes, no detection.
    NoDetection,
    Fast,
    Standard,
}

/// The detection method to configure for a command-line choice: scenes of
/// `minimum_length` to `maximum_length` frames, 24 and 240 by default.
pub open spec fn spec_as_core_method(
    m: SceneDetectionMethod,
    minimum_length: Option<usize>,
    maximum_length: Option<usize>,
) -> CoreMethod {
    let min = match minimum_length {
        Some(v) => v,
        None => 24,
    };
    let max = match maximum_length {
        Some(v) => v,
        None => 240,
    };
    match m {
        SceneDetectionMethod::NoDetection => CoreMethod::NoDetection { minimum_length: min, maximum_length: max },
        SceneDetectionMethod::Fast => CoreMethod::AVSceneChange {
            minimum_length: min,
            maximum_length: max,
            method: ScenecutMethod::Fast,
        },
        SceneDetectionMethod::Standard => CoreMethod::AVSceneChange {
            minimum_length: min,
            maximum_length: max,
            method: ScenecutMethod::Standard,
        },
    }
}

impl SceneDetectionMethod {
    /// The detection method for this choice, with the given scene lengths or
    /// the defaults.
    pub fn as_core_method(&self, minimum_length: Option<usize>, maximum_length: Option<usize>) -> (r: CoreMethod)
        ensures
            r == spec_as_core_method(*self, minimum_length, maximum_length),
    {
        let default_min: usize = DEFAULT_MIN_SCENE_LENGTH_FRAMES as usize;
        let seconds: usize = DEFAULT_MAX_SCENE_LENGTH_SECONDS as usize;
        assert(default_min == 24 && seconds == 10);
        assert(seconds * default_min == 240) by (nonlinear_arith)
            requires
                default_min == 24,
                seconds == 10,
        ;
        let min_length: usize = match minimum_length {
            Some(v) => v,
            None => default_min,
        };
        let max_length: usize = match maximum_length {
            Some(v) => v,
            None => seconds * default_min,
        };
        match self {
            SceneDetectionMethod::NoDetection => CoreMethod::NoDetection {
                minimum_length: min_length,
                maximum_length: max_length,
            },
            SceneDetectionMethod::Fast => CoreMethod::AVSceneChange {
                method: ScenecutMethod::Fast,
                minimum_length: min_length,
                maximum_length: max_length,
            },
            SceneDetectionMethod::Standard => CoreMethod::AVSceneChange {
                method: ScenecutMethod::Standard,
                minimum_length: min_length,
                maximum_length: max_length,
            },
        }
    }
}

/// The decoder named on the command line.
#[derive(Debug, Clone, Copy, PartialEq, Eq, Structural)]
pub enum DecoderMethod {
    BestSource,
    VSFFMS2,
    LSMASHWorks,
    DGDecodeNV,
    FFMS2,
}

/// The command-line name of a decoder.
pub open spec fn spec_decoder_name(d: DecoderMethod) -> Seq<char> {
    match d {
        DecoderMethod::BestSource => "bestsource"@,
        DecoderMethod::VSFFMS2 => "vs-ffms2"@,
        DecoderMethod::LSMASHWorks => "lsmash"@,
        DecoderMethod::DGDecodeNV => "dgdecnv"@,
        DecoderMethod::FFMS2 => "ffms2"@,
    }
}

/// Each decoder has a name of its own, so reading a decoder's name back gives
/// that decoder.
pub proof fn lemma_decoder_names_distinct(d: DecoderMethod, e: DecoderMethod)
    ensures
        spec_decoder_name(d) == spec_decoder_name(e) ==> d == e,
{
    reveal_strlit("bestsource");
    reveal_strlit("vs-ffms2");
    reveal_strlit("lsmash");
    reveal_strlit("dgdecnv");
    reveal_strlit("ffms2");
    if spec_decoder_name(d) == spec_decoder_name(e) && d != e {
        let a = spec_decoder_name(d);
        let b = spec_decoder_name(e);
        assert(a.len() == b.len());
        assert(a[0] == b[0]);
        assert(a[1] == b[1]);
    }
}

impl DecoderMethod {
    /// The command-line name of this decoder.
    pub fn name(&self) -> (r: &'static str)
        ensures
            r@ == spec_decoder_name(*self),
    {
        match self {
            DecoderMethod::BestSource => "bestsource",
            DecoderMethod::VSFFMS2 => "vs-ffms2",
            DecoderMethod::LSMASHWorks => "lsmash",
            DecoderMethod::DGDecodeNV => "dgdecnv",
            DecoderMethod::FFMS2 => "ffms2",
        }
    }

    /// The decoder with command-line name `s`, if there is one.
    pub fn from_name(s: &str) -> (r: Option<DecoderMethod>)
        ensures
            match r {
                Some(d) => spec_decoder_name(d) == s@,
                None => forall|d: DecoderMethod| spec_decoder_name(d) != s@,
            },
    {
        if str_eq(s, "bestsource") {
            Some(DecoderMethod::BestSource)
        } else if str_eq(s, "vs-ffms2") {
            Some(DecoderMethod::VSFFMS2)
        } else if str_eq(s, "lsmash") {
            Some(DecoderMethod::LSMASHWorks)
        } else if str_eq(s, "dgdecnv") {
            Some(DecoderMethod::DGDecodeNV)
        } else if str_eq(s, "ffms2") {
            Some(DecoderMethod::FFMS2)
        } else {
            None
        }
    }
}

/// `config encoder set`: the encoder to use and, optionally, its parameters
/// as text.
pub enum ConfigEncoderSubcommand {
    Assign { encoder: String, params: Option<String> },
}

/// `config input set`: the input path and, optionally, the decoder.
pub enum ConfigInputSubcommand {
    Assign { path: String, decoder: Option<DecoderMethod> },
}

/// `config output set`: the output path and, optionally, how scenes are
/// joined.
pub enum ConfigOutputSubcommand {
    Assign { path: String, concat: Option<ConcatMethod> },
}

/// `config scene-detection set`: the method, optional scene lengths, and
/// optionally an input of its own.
pub enum ConfigSceneDetectionSubcommand {
    Assign {
        method: SceneDetectionMethod,
        min: Option<usize>,
        max: Option<usize>,
        input: Option<ConfigInputSubcommand>,
    },
}

} // verus!
