//! The command-line tool's configuration: how an input path and a decoder
//! choice become an input, and how the options of the `start` and
//! `detect-scenes` commands change a saved configuration.

use vstd::prelude::*;
use crate::cli::{DecoderMethod, SceneDetectionMethod as CliMethod, spec_as_core_method};
use crate::condor::{Condor, Output, ParallelEncoderConfig};
use crate::encoding::{Encoder, EncoderBase, EncoderPasses, PhotonNoise, base_defaults, spec_default_passes};
use crate::input::{ImportMethod, Input, VapourSynthImportMethod, VapourSynthScriptSource};
use crate::parameter_parser::{EncoderParamsParser, parse_items};
use crate::cli_parameter::entries_map;
use crate::platform::{extension_of, file_extension, is_plain_path, last_component};
use crate::scene_detection::{SceneDetectionMethod, SceneDetectorConfig, ScenecutMethod};
use crate::settings::ConcatMethod;
use crate::text::{split_at_char, split_once_char, str_eq};

verus! {

/// What the command-line tool refuses.
#[derive(Debug, Clone, PartialEq, Eq)]
pub enum CondorCliError {
    ConfigFileAlreadyExists(String),
    ConfigFileNotFound(String),
    ConfigLoadError(String),
    NoConfigOrInput,
    NoConfigOrInputOrOutput,
    DecoderWithoutInput,
}

/// Frame counts that disagree between the input and the scene-detection
/// input.
#[derive(Debug, Clone, Copy, PartialEq, Eq, Structural)]
pub enum TUIError {
    FramesMismatch(u64, u64),
    FramesMismatchWithInputFilters(u64, u64),
}

/// The key and value of a script argument `key=value`; an argument without
/// `=` is a key with an empty value.
pub open spec fn split_argument(a: Seq<char>) -> (Seq<char>, Seq<char>) {
    match split_at_char(a, '=') {
        Some((k, v)) => (k, v),
        None => (a, Seq::empty()),
    }
}

/// The script variables that arguments set, a later argument replacing an
/// earlier one with the same key.
pub open spec fn variables_map(args: Seq<Seq<char>>) -> Map<Seq<char>, Seq<char>>
    decreases args.len(),
{
    if args.len() == 0 {
        Map::empty()
    } else {
        let (k, v) = split_argument(args.last());
        variables_map(args.drop_last()).insert(k, v)
    }
}

/// The map that a list of variables denotes, a later entry replacing an
/// earlier one.
pub open spec fn pairs_as_map(v: Seq<(String, String)>) -> Map<Seq<char>, Seq<char>>
    decreases v.len(),
{
    if v.len() == 0 {
        Map::empty()
    } else {
        pairs_as_map(v.drop_last()).insert(v.last().0@, v.last().1@)
    }
}

/// No key occurs twice.
pub open spec fn distinct_variable_keys(v: Seq<(String, String)>) -> bool {
    forall|i: int, j: int| 0 <= i < j < v.len() ==> v[i].0@ != v[j].0@
}

proof fn lemma_pairs_as_map_lookup(v: Seq<(String, String)>, i: int)
    requires
        distinct_variable_keys(v),
        0 <= i < v.len(),
    ensures
        pairs_as_map(v).dom().contains(v[i].0@),
        pairs_as_map(v)[v[i].0@] == v[i].1@,
    decreases v.len(),
{
    if i < v.len() - 1 {
        lemma_pairs_as_map_lookup(v.drop_last(), i);
    }
}

proof fn lemma_pairs_as_map_absent(v: Seq<(String, String)>, k: Seq<char>)
    requires
        forall|i: int| 0 <= i < v.len() ==> v[i].0@ != k,
    ensures
        !pairs_as_map(v).dom().contains(k),
    decreases v.len(),
{
    if v.len() > 0 {
        lemma_pairs_as_map_absent(v.drop_last(), k);
    }
}

proof fn lemma_pairs_as_map_update(v: Seq<(String, String)>, i: int, value: String)
    requires
        distinct_variable_keys(v),
        0 <= i < v.len(),
    ensures
        pairs_as_map(v.update(i, (v[i].0, value))) == pairs_as_map(v).insert(v[i].0@, value@),
    decreases v.len(),
{
    let w = v.update(i, (v[i].0, value));
    if i == v.len() - 1 {
        assert(w.drop_last() =~= v.drop_last());
        lemma_pairs_as_map_absent(v.drop_last(), v[i].0@);
        assert(pairs_as_map(w) =~= pairs_as_map(v).insert(v[i].0@, value@));
    } else {
        assert(w.drop_last() =~= v.drop_last().update(i, (v[i].0, value)));
        lemma_pairs_as_map_update(v.drop_last(), i, value);
        assert(pairs_as_map(w) =~= pairs_as_map(v).insert(v[i].0@, value@));
    }
}

/// Sets variable `key` to `value`, replacing its value if it is present.
fn set_variable(vars: &mut Vec<(String, String)>, key: String, value: String)
    requires
        distinct_variable_keys(old(vars)@),
    ensures
        distinct_variable_keys(final(vars)@),
        pairs_as_map(final(vars)@) == pairs_as_map(old(vars)@).insert(key@, value@),
{
    let ghost original = vars@;
    let mut i: usize = 0;
    while i < vars.len()
        invariant
            i <= vars@.len(),
            vars@ == original,
            original == old(vars)@,
            distinct_variable_keys(original),
            forall|j: int| 0 <= j < i ==> #[trigger] vars@[j].0@ != key@,
        decreases vars.len() - i,
    {
        if str_eq(vars[i].0.as_str(), key.as_str()) {
            let k = vars[i].0.clone();
            vars.set(i, (k, value));
            proof {
                assert(original[i as int].0@ == key@);
                assert(vars@ == original.update(i as int, (original[i as int].0, value)));
                lemma_pairs_as_map_update(original, i as int, value);
                assert forall|a: int, b: int| 0 <= a < b < vars@.len() implies vars@[a].0@ != vars@[b].0@ by {
                    assert(vars@[a].0@ == original[a].0@);
                    assert(vars@[b].0@ == original[b].0@);
                }
            }
            return;
        }
        i = i + 1;
    }
    vars.push((key, value));
    proof {
        assert(vars@.drop_last() =~= original);
    }
}

/// The script variables that `args` set.
pub fn script_variables(args: &Vec<String>) -> (r: Vec<(String, String)>)
    ensures
        distinct_variable_keys(r@),
        pairs_as_map(r@) == variables_map(Seq::new(args@.len(), |i: int| args@[i]@)),
{
    let ghost views = Seq::new(args@.len(), |i: int| args@[i]@);
    let mut vars: Vec<(String, String)> = Vec::new();
    let mut i: usize = 0;
    while i < args.len()
        invariant
            i <= args@.len(),
            views == Seq::new(args@.len(), |i: int| args@[i]@),
            distinct_variable_keys(vars@),
            pairs_as_map(vars@) == variables_map(views.take(i as int)),
        decreases args.len() - i,
    {
        let arg = args[i].as_str();
        let (k, v) = match split_once_char(arg, '=') {
            Some((k, v)) => (k, v),
            None => (arg.to_owned(), String::new()),
        };
        proof {
            assert(views.take(i + 1).drop_last() =~= views.take(i as int));
            assert(views.take(i + 1).last() == arg@);
            assert(split_argument(arg@) == (k@, v@));
        }
        set_variable(&mut vars, k, v);
        i = i + 1;
    }
    assert(views.take(views.len() as int) =~= views);
    vars
}

/// A path whose extension is `vpy` or `py` is a VapourSynth script.
pub open spec fn is_script_extension(extension: Option<Seq<char>>) -> bool {
    extension == Some("vpy"@) || extension == Some("py"@)
}

/// The input that path `input` with extension `extension` becomes when read
/// through VapourSynth: the script itself when it is a script, with the
/// variables that `vs_args` set; otherwise the video opened with `decoder`
/// (BestSource by default).
pub open spec fn is_vs_input_model(
    r: Input,
    input: Seq<char>,
    extension: Option<Seq<char>>,
    decoder: Option<VapourSynthImportMethod>,
    vs_args: Option<Seq<Seq<char>>>,
) -> bool {
    if is_script_extension(extension) {
        &&& r matches Input::VapourSynthScript { source, variables, index }
        &&& source matches VapourSynthScriptSource::Path(p) && p@ == input
        &&& index == 0
        &&& distinct_variable_keys(variables@)
        &&& pairs_as_map(variables@) == match vs_args {
            Some(a) => variables_map(a),
            None => Map::empty(),
        }
    } else {
        &&& r matches Input::VapourSynth { path, import_method, cache_path }
        &&& path@ == input
        &&& import_method == match decoder {
            Some(d) => d,
            None => VapourSynthImportMethod::BestSource { index: None },
        }
        &&& cache_path is None
    }
}

/// The views of a list of strings.
pub open spec fn arg_views(v: Seq<String>) -> Seq<Seq<char>> {
    Seq::new(v.len(), |i: int| v[i]@)
}

/// The extension of a path, as a character sequence.
pub open spec fn extension_view(e: Option<String>) -> Option<Seq<char>> {
    match e {
        Some(s) => Some(s@),
        None => None,
    }
}

/// The arguments, as character sequences.
pub open spec fn args_view(a: Option<&Vec<String>>) -> Option<Seq<Seq<char>>> {
    match a {
        Some(v) => Some(arg_views(v@)),
        None => None,
    }
}

/// The input for `input`, whose extension is `extension`, read through
/// VapourSynth.
pub fn vs_input_model_for(
    input: &str,
    extension: Option<String>,
    decoder: Option<VapourSynthImportMethod>,
    vs_args: Option<&Vec<String>>,
) -> (r: Input)
    ensures
        is_vs_input_model(r, input@, extension_view(extension), decoder, args_view(vs_args)),
{
    proof {
        reveal_strlit("vpy");
        reveal_strlit("py");
    }
    let is_script = match &extension {
        Some(e) => str_eq(e.as_str(), "vpy") || str_eq(e.as_str(), "py"),
        None => false,
    };
    if is_script {
        let variables = match vs_args {
            Some(args) => script_variables(args),
            None => {
                let v: Vec<(String, String)> = Vec::new();
                assert(pairs_as_map(v@) =~= Map::<Seq<char>, Seq<char>>::empty());
                v
            },
        };
        Input::VapourSynthScript { source: VapourSynthScriptSource::Path(input.to_owned()), variables, index: 0 }
    } else {
        let import_method = match decoder {
            Some(d) => d,
            None => VapourSynthImportMethod::BestSource { index: None },
        };
        Input::VapourSynth { path: input.to_owned(), import_method, cache_path: None }
    }
}

/// The source filter for a VapourSynth decoder choice.
pub open spec fn vs_import_method(d: DecoderMethod) -> VapourSynthImportMethod {
    match d {
        DecoderMethod::BestSource => VapourSynthImportMethod::BestSource { index: None },
        DecoderMethod::DGDecodeNV => VapourSynthImportMethod::DGDecNV { dgindexnv_executable: None },
        DecoderMethod::LSMASHWorks => VapourSynthImportMethod::LSMASHWorks { index: None },
        _ => VapourSynthImportMethod::FFMS2 { index: None },
    }
}

fn import_method_for(d: DecoderMethod) -> (r: VapourSynthImportMethod)
    requires
        d != DecoderMethod::FFMS2,
    ensures
        r == vs_import_method(d),
{
    match d {
        DecoderMethod::BestSource => VapourSynthImportMethod::BestSource { index: None },
        DecoderMethod::DGDecodeNV => VapourSynthImportMethod::DGDecNV { dgindexnv_executable: None },
        DecoderMethod::LSMASHWorks => VapourSynthImportMethod::LSMASHWorks { index: None },
        _ => VapourSynthImportMethod::FFMS2 { index: None },
    }
}

/// The settings of the tool's processing steps.
pub struct CliSequenceConfig {
    pub scene_detection: SceneDetectorConfig,
    pub parallel_encoder: ParallelEncoderConfig,
    pub concat_method: ConcatMethod,
}

impl Default for CliSequenceConfig {
    fn default() -> (r: Self)
        ensures
            r.scene_detection.method == crate::scene_detection::spec_default_method(),
            r.scene_detection.input is None,
            r.parallel_encoder.workers == 1,
            r.parallel_encoder.scenes_directory@ == Seq::<char>::empty(),
            r.parallel_encoder.input is None,
            r.parallel_encoder.encoder is None,
            r.concat_method == ConcatMethod::MKVMerge,
    {
        CliSequenceConfig {
            scene_detection: SceneDetectorConfig::default(),
            parallel_encoder: ParallelEncoderConfig::default(),
            concat_method: ConcatMethod::MKVMerge,
        }
    }
}

/// The tool's configuration: the job, the input path and the folder for
/// temporary files.
pub struct Configuration {
    pub condor: Condor<CliSequenceConfig>,
    pub input: String,
    pub temp: String,
}

/// The path an input is read from, if it has one: the video or the script
/// file; a script given as text has none, and `fallback` stands in.
pub open spec fn spec_input_path(input: Input, fallback: Option<Seq<char>>) -> Option<Seq<char>> {
    match input {
        Input::Video { path, .. } => Some(path@),
        Input::VapourSynth { path, .. } => Some(path@),
        Input::VapourSynthScript { source, .. } => match source {
            VapourSynthScriptSource::Path(p) => Some(p@),
            VapourSynthScriptSource::Text(_) => fallback,
        },
    }
}

impl Configuration {
    /// The input for path `input` read with `decoder`: the video read by FFMS2
    /// directly for `ffms2`; otherwise read through VapourSynth with the
    /// chosen source filter (BestSource when none is chosen).
    pub fn new_input_model(input: &str, decoder: Option<DecoderMethod>, vs_args: Option<&Vec<String>>) -> (r: Input)
        ensures
            match decoder {
                Some(DecoderMethod::FFMS2) => (r matches Input::Video { path, import_method } && path@ == input@
                    && import_method == ImportMethod::FFMS2),
                Some(d) => exists|extension: Option<Seq<char>>|
                    is_vs_input_model(r, input@, extension, Some(vs_import_method(d)), args_view(vs_args)),
                None => exists|extension: Option<Seq<char>>|
                    is_vs_input_model(
                        r,
                        input@,
                        extension,
                        Some(VapourSynthImportMethod::BestSource { index: None }),
                        args_view(vs_args),
                    ),
            },
            is_plain_path(input@) && decoder != Some(DecoderMethod::FFMS2) ==> is_vs_input_model(
                r,
                input@,
                extension_of(last_component(input@)),
                Some(
                    match decoder {
                        Some(d) => vs_import_method(d),
                        None => VapourSynthImportMethod::BestSource { index: None },
                    },
                ),
                args_view(vs_args),
            ),
    {
        match decoder {
            Some(DecoderMethod::FFMS2) => Input::Video { path: input.to_owned(), import_method: ImportMethod::FFMS2 },
            Some(method) => Self::new_vs_input_model(input, Some(import_method_for(method)), vs_args),
            None => Self::new_vs_input_model(input, Some(VapourSynthImportMethod::BestSource { index: None }), vs_args),
        }
    }

    /// The input for path `input` read through VapourSynth: the script itself
    /// for a `.vpy` or `.py` path, otherwise the video opened with `decoder`.
    /// The extension comes from the platform's path rules; for a path whose
    /// file name is its text after the last `/` on every platform, it is the
    /// extension of that name.
    pub fn new_vs_input_model(input: &str, decoder: Option<VapourSynthImportMethod>, vs_args: Option<&Vec<String>>) -> (r: Input)
        ensures
            exists|extension: Option<Seq<char>>| is_vs_input_model(r, input@, extension, decoder, args_view(vs_args)),
            is_plain_path(input@) ==> is_vs_input_model(
                r,
                input@,
                extension_of(last_component(input@)),
                decoder,
                args_view(vs_args),
            ),
    {
        let extension = file_extension(input);
        let ghost e = extension_view(extension);
        let r = vs_input_model_for(input, extension, decoder, vs_args);
        assert(is_vs_input_model(r, input@, e, decoder, args_view(vs_args)));
        r
    }

    /// The input read from the same path with `decoder`; a script given as
    /// text has no path, and `fallback` (the input path given on the command
    /// line) stands in. Fails when there is no path.
    pub fn input_with_decoder(input: &Input, decoder: DecoderMethod, fallback: Option<&str>) -> (r: Result<Input, CondorCliError>)
        ensures
            match spec_input_path(*input, match fallback {
                Some(f) => Some(f@),
                None => None,
            }) {
                None => r == Err::<Input, CondorCliError>(CondorCliError::DecoderWithoutInput),
                Some(p) => r matches Ok(i) && if decoder == DecoderMethod::FFMS2 {
                    i matches Input::Video { path, import_method } && path@ == p && import_method == ImportMethod::FFMS2
                } else {
                    i matches Input::VapourSynth { path, import_method, cache_path } && path@ == p && import_method
                        == vs_import_method(decoder) && cache_path is None
                },
            },
    {
        let path: Option<String> = match input {
            Input::Video { path, .. } => Some(path.clone()),
            Input::VapourSynth { path, .. } => Some(path.clone()),
            Input::VapourSynthScript { source, .. } => match source {
                VapourSynthScriptSource::Path(p) => Some(p.clone()),
                VapourSynthScriptSource::Text(_) => match fallback {
                    Some(f) => Some(f.to_owned()),
                    None => None,
                },
            },
        };
        match path {
            None => Err(CondorCliError::DecoderWithoutInput),
            Some(p) => {
                if decoder == DecoderMethod::FFMS2 {
                    Ok(Input::Video { path: p, import_method: ImportMethod::FFMS2 })
                } else {
                    Ok(Input::VapourSynth { path: p, import_method: import_method_for(decoder), cache_path: None })
                }
            },
        }
    }

    /// Whether `start` can go on: a configuration file given but missing, with
    /// neither input nor output, is refused; without an existing
    /// configuration both an input and an output are needed.
    pub fn check_start(given_config_missing: bool, config_exists: bool, has_input: bool, has_output: bool) -> (r: Result<(), CondorCliError>)
        ensures
            r is Ok <==> !(given_config_missing && !has_input && !has_output) && (config_exists || (has_input && has_output)),
            r matches Err(e) ==> e == CondorCliError::NoConfigOrInputOrOutput,
    {
        if given_config_missing && !has_input && !has_output {
            return Err(CondorCliError::NoConfigOrInputOrOutput);
        }
        if !config_exists && !(has_input && has_output) {
            return Err(CondorCliError::NoConfigOrInputOrOutput);
        }
        Ok(())
    }

    /// Whether `detect-scenes` can go on: a configuration file given but
    /// missing, with no input, is refused, and so is the lack of both an
    /// existing configuration and an input.
    pub fn check_detect_scenes(given_config_missing: bool, config_exists: bool, has_input: bool) -> (r: Result<(), CondorCliError>)
        ensures
            r is Ok <==> (config_exists || has_input) && !(given_config_missing && !has_input),
            r matches Err(e) ==> e == CondorCliError::NoConfigOrInput,
    {
        if given_config_missing && !has_input {
            return Err(CondorCliError::NoConfigOrInput);
        }
        if !config_exists && !has_input {
            return Err(CondorCliError::NoConfigOrInput);
        }
        Ok(())
    }

    /// Applies the encoder options of `start`: a new encoder of the chosen
    /// kind with its default passes and parameters (and photon noise of the
    /// given strength where the encoder supports it), then the passes, then
    /// the parameters read from `params` on top of the present ones.
    pub fn apply_encoder_options(
        &mut self,
        encoder: Option<EncoderBase>,
        passes: Option<u8>,
        params: Option<&str>,
        photon_noise: Option<u32>,
    )
        requires
            encoder != Some(EncoderBase::VVenC),
        ensures
            final(self).input == old(self).input,
            final(self).temp == old(self).temp,
            final(self).condor.scenes == old(self).condor.scenes,
            final(self).condor.input == old(self).condor.input,
            final(self).condor.output == old(self).condor.output,
            final(self).condor.processor_config == old(self).condor.processor_config,
            final(self).condor.encoder.spec_executable() == match encoder {
                Some(b) => None,
                None => old(self).condor.encoder.spec_executable(),
            },
            final(self).condor.encoder.spec_base() == match encoder {
                Some(b) => b,
                None => old(self).condor.encoder.spec_base(),
            },
            final(self).condor.encoder.spec_options()@ == {
                let start = match encoder {
                    Some(b) => base_defaults(b),
                    None => old(self).condor.encoder.spec_options()@,
                };
                match params {
                    Some(p) => start.union_prefer_right(entries_map(parse_items(p@, 0))),
                    None => start,
                }
            },
            match encoder {
                Some(b) => if (b == EncoderBase::AOM || b == EncoderBase::RAV1E || b == EncoderBase::SVTAV1)
                    && photon_noise is Some {
                    final(self).condor.encoder.spec_photon_noise() matches Some(n) && n.iso == photon_noise->0
                        && n.chroma_iso is None && n.width is None && n.height is None && n.c_y is None
                        && n.ccb is None && n.ccr is None
                } else {
                    final(self).condor.encoder.spec_photon_noise() is None
                },
                None => final(self).condor.encoder.spec_photon_noise() == old(self).condor.encoder.spec_photon_noise(),
            },
            final(self).condor.encoder.spec_base() != EncoderBase::FFmpeg ==> final(self).condor.encoder.spec_passes() == match passes {
                Some(n) => EncoderPasses::All(n),
                None => match encoder {
                    Some(b) => spec_default_passes(b),
                    None => old(self).condor.encoder.spec_passes(),
                },
            },
    {
        if let Some(base) = encoder {
            let mut e = Encoder::default_from_base(&base, false);
            match &mut e {
                Encoder::AOM { photon_noise: noise, .. } => {
                    *noise = Self::noise_of(photon_noise);
                },
                Encoder::RAV1E { photon_noise: noise, .. } => {
                    *noise = Self::noise_of(photon_noise);
                },
                Encoder::SVTAV1 { photon_noise: noise, .. } => {
                    *noise = Self::noise_of(photon_noise);
                },
                _ => {},
            }
            self.condor.encoder = e;
        }
        if let Some(n) = passes {
            if let Some(p) = self.condor.encoder.passes_mut() {
                *p = EncoderPasses::All(n);
            }
        }
        if let Some(text) = params {
            let parameters = EncoderParamsParser::parse_string(text);
            self.condor.encoder.parameters_mut().extend(&parameters);
        }
    }

    /// Photon noise of ISO `iso`, nothing else set.
    fn noise_of(iso: Option<u32>) -> (r: Option<PhotonNoise>)
        ensures
            match iso {
                Some(i) => r matches Some(n) && n.iso == i && n.chroma_iso is None && n.width is None
                    && n.height is None && n.c_y is None && n.ccb is None && n.ccr is None,
                None => r is None,
            },
    {
        match iso {
            Some(i) => Some(
                PhotonNoise { iso: i, chroma_iso: None, width: None, height: None, c_y: None, ccb: None, ccr: None },
            ),
            None => None,
        }
    }
}

impl Configuration {
    /// Applies the scene options of `detect-scenes`: scene lengths in frames
    /// (the configured ones where not given) and, if given, a new method with
    /// those lengths.
    pub fn apply_scene_detection(&mut self, method: Option<CliMethod>, min_frames: Option<usize>, max_frames: Option<usize>)
        ensures
            final(self).condor.processor_config.scene_detection.method == {
                let previous = old(self).condor.processor_config.scene_detection.method;
                let min = match min_frames {
                    Some(v) => v,
                    None => previous.spec_minimum_length(),
                };
                let max = match max_frames {
                    Some(v) => v,
                    None => previous.spec_maximum_length(),
                };
                match method {
                    Some(m) => spec_as_core_method(m, Some(min), Some(max)),
                    None => previous.with_lengths(min, max),
                }
            },
            final(self).condor.processor_config.scene_detection.input == old(self).condor.processor_config.scene_detection.input,
            final(self).condor.processor_config.parallel_encoder == old(self).condor.processor_config.parallel_encoder,
            final(self).condor.processor_config.concat_method == old(self).condor.processor_config.concat_method,
            final(self).condor.input == old(self).condor.input,
            final(self).condor.output == old(self).condor.output,
            final(self).condor.encoder == old(self).condor.encoder,
            final(self).condor.scenes == old(self).condor.scenes,
            final(self).input == old(self).input,
            final(self).temp == old(self).temp,
    {
        let previous = self.condor.processor_config.scene_detection.method;
        let min: usize = match min_frames {
            Some(v) => v,
            None => previous.minimum_length(),
        };
        let max: usize = match max_frames {
            Some(v) => v,
            None => previous.maximum_length(),
        };
        if let Some(m) = method {
            self.condor.processor_config.scene_detection.method = m.as_core_method(Some(min), Some(max));
        }
        self.condor.processor_config.scene_detection.method.set_lengths(min, max);
    }
}

impl Configuration {
    /// A new configuration for encoding `input` (read through VapourSynth
    /// with BestSource, or run as a script) into `output`, with temporary
    /// files under `temp` and encoded scenes in `scenes_directory`: SVT-AV1
    /// with its default parameters; scene detection at standard speed with
    /// scenes of one to ten seconds, `fps` being the input's frame rate
    /// rounded to whole frames; one encoder at a time; scenes joined with
    /// mkvmerge.
    pub fn new(
        input: &str,
        output: &str,
        temp: &str,
        scenes_directory: &str,
        vs_args: Option<&Vec<String>>,
        fps: usize,
    ) -> (r: Configuration)
        requires
            fps * 10 <= usize::MAX,
        ensures
            r.input@ == input@,
            r.temp@ == temp@,
            exists|extension: Option<Seq<char>>|
                is_vs_input_model(
                    r.condor.input,
                    input@,
                    extension,
                    Some(VapourSynthImportMethod::BestSource { index: None }),
                    args_view(vs_args),
                ),
            r.condor.output.path@ == output@,
            r.condor.output.concatenation_method == ConcatMethod::MKVMerge,
            r.condor.output.tags@.len() == 0,
            r.condor.output.video_tags@.len() == 0,
            r.condor.encoder.spec_base() == EncoderBase::SVTAV1,
            r.condor.encoder.spec_passes() == EncoderPasses::All(1),
            r.condor.encoder.spec_options()@ == base_defaults(EncoderBase::SVTAV1),
            r.condor.scenes@.len() == 0,
            r.condor.processor_config.scene_detection.input is None,
            r.condor.processor_config.scene_detection.method == (SceneDetectionMethod::AVSceneChange {
                minimum_length: fps,
                maximum_length: (10 * fps) as usize,
                method: ScenecutMethod::Standard,
            }),
            r.condor.processor_config.parallel_encoder.workers == 1,
            r.condor.processor_config.parallel_encoder.scenes_directory@ == scenes_directory@,
            r.condor.processor_config.concat_method == ConcatMethod::MKVMerge,
    {
        let input_data = Self::new_input_model(input, Some(DecoderMethod::BestSource), vs_args);
        let mut encoder = Encoder::default();
        *encoder.parameters_mut() = EncoderBase::SVTAV1.default_parameters();
        let output_data = Output {
            path: output.to_owned(),
            concatenation_method: ConcatMethod::MKVMerge,
            tags: Vec::new(),
            video_tags: Vec::new(),
        };
        let sequence_config = CliSequenceConfig {
            scene_detection: SceneDetectorConfig {
                input: None,
                method: SceneDetectionMethod::AVSceneChange {
                    minimum_length: fps,
                    maximum_length: 10 * fps,
                    method: ScenecutMethod::Standard,
                },
            },
            parallel_encoder: ParallelEncoderConfig {
                workers: 1,
                scenes_directory: scenes_directory.to_owned(),
                input: None,
                encoder: None,
            },
            concat_method: ConcatMethod::MKVMerge,
        };
        let condor = Condor {
            input: input_data,
            output: output_data,
            encoder,
            scenes: Vec::new(),
            processor_config: sequence_config,
        };
        Configuration { condor, input: input.to_owned(), temp: temp.to_owned() }
    }
}

} // verus!
