//! The command line that runs an encoder for one pass.

use vstd::prelude::*;

use crate::cli_parameter::{
    is_listing, lemma_entries_map_dom, lemma_entries_map_lookup, render_entries, text_param,
    value_text, ParamView, ParameterMap,
};
use crate::condor::tool_available;
use crate::encoding::{base_defaults, pass_defaults, Encoder, EncoderBase};
use crate::platform::{file_stem, is_plain_path, last_component, main_separator, null_output_for, path_exists, spec_null_output, stem_of};

verus! {

/// The characters of each argument.
pub open spec fn string_views(v: Seq<String>) -> Seq<Seq<char>> {
    v.map_values(|a: String| a@)
}

/// Where a pass writes its bitstream: the output path on the last pass, the
/// null device on the others.
pub open spec fn output_target(pass: (u8, u8), output_path: Seq<char>, null_output: Seq<char>) -> Seq<
    char,
> {
    if pass.0 == pass.1 {
        output_path
    } else {
        null_output
    }
}

/// The parameters that name an encoder's input and output.
pub open spec fn io_parameters(b: EncoderBase, target: Seq<char>) -> Map<Seq<char>, ParamView> {
    match b {
        EncoderBase::AOM | EncoderBase::VPX | EncoderBase::X264 | EncoderBase::X265 => map![
            "o"@ => text_param("-"@, " "@, target),
        ],
        EncoderBase::RAV1E => map!["output"@ => text_param("--"@, " "@, target)],
        EncoderBase::SVTAV1 => map![
            "i"@ => text_param("-"@, " "@, "stdin"@),
            "b"@ => text_param("-"@, " "@, target),
        ],
        _ => Map::empty(),
    }
}

/// The name of the parameter that names an encoder's bitstream output.
pub open spec fn output_key(b: EncoderBase) -> Seq<char> {
    match b {
        EncoderBase::RAV1E => "output"@,
        EncoderBase::SVTAV1 => "b"@,
        _ => "o"@,
    }
}

/// The prefix of that parameter.
pub open spec fn output_prefix(b: EncoderBase) -> Seq<char> {
    match b {
        EncoderBase::RAV1E => "--"@,
        _ => "-"@,
    }
}

/// The parameters of one pass: the encoder's defaults, overridden by the
/// pass parameters, then by the configuration's own parameters, then by the
/// input and output parameters.
pub open spec fn merged_parameters(
    e: Encoder,
    pass: (u8, u8),
    name: Seq<char>,
    output_path: Seq<char>,
    null_output: Seq<char>,
) -> Map<Seq<char>, ParamView> {
    let b = e.spec_base();
    base_defaults(b).union_prefer_right(pass_defaults(b, pass, name)).union_prefer_right(
        e.spec_options()@,
    ).union_prefer_right(io_parameters(b, output_target(pass, output_path, null_output)))
}

/// The arguments that come before the parameters.
pub open spec fn leading_arguments(b: EncoderBase) -> Seq<Seq<char>> {
    match b {
        EncoderBase::SVTAV1 => seq![],
        EncoderBase::FFmpeg => seq!["-i"@, "-"@],
        _ => seq!["-"@],
    }
}

/// `args` is the command line of pass `pass` of `e`, writing to
/// `output_path`, with first-pass statistics named after `name` and
/// `null_output` as the null device. The parameters come in some order, each
/// once; FFmpeg takes its codec (`c:v`) first and its output path last.
pub open spec fn is_command_line(
    e: Encoder,
    pass: (u8, u8),
    output_path: Seq<char>,
    name: Seq<char>,
    null_output: Seq<char>,
    args: Seq<Seq<char>>,
) -> bool {
    let b = e.spec_base();
    let m = merged_parameters(e, pass, name, output_path, null_output);
    if b == EncoderBase::FFmpeg {
        if m.dom().contains("c:v"@) {
            exists|s: Seq<(Seq<char>, ParamView)>|
                #[trigger] is_listing(s, m.remove("c:v"@)) && args == seq!["-i"@, "-"@, "-c:v"@]
                    + seq![value_text(m["c:v"@])] + render_entries(s) + seq![output_path]
        } else {
            exists|s: Seq<(Seq<char>, ParamView)>|
                #[trigger] is_listing(s, m) && args == leading_arguments(b) + render_entries(s)
                    + seq![output_path]
        }
    } else {
        exists|s: Seq<(Seq<char>, ParamView)>|
            #[trigger] is_listing(s, m) && args == leading_arguments(b) + render_entries(s)
    }
}

/// The output parameter occurs once in a pass's command line: among the
/// parameters listed for the pass of an aom, rav1e, VPX, SVT-AV1, x264 or
/// x265 configuration, exactly one is named after the output (`o`, `output`
/// or `b`), and it gives the output path on the last pass and the null
/// device on the others, whatever the configuration's own parameters hold.
pub proof fn lemma_output_named_once(
    e: Encoder,
    pass: (u8, u8),
    name: Seq<char>,
    output_path: Seq<char>,
    null_output: Seq<char>,
    entries: Seq<(Seq<char>, ParamView)>,
)
    requires
        e.spec_base() != EncoderBase::FFmpeg,
        e.spec_base() != EncoderBase::VVenC,
        is_listing(entries, merged_parameters(e, pass, name, output_path, null_output)),
    ensures
        exists|i: int|
            0 <= i < entries.len() && #[trigger] entries[i].0 == output_key(e.spec_base()) && entries[i].1
                == text_param(output_prefix(e.spec_base()), " "@, output_target(pass, output_path, null_output)),
        forall|i: int, j: int|
            0 <= i < entries.len() && 0 <= j < entries.len() && #[trigger] entries[i].0 == output_key(e.spec_base())
                && #[trigger] entries[j].0 == output_key(e.spec_base()) ==> i == j,
{
    let b = e.spec_base();
    let key = output_key(b);
    let m = merged_parameters(e, pass, name, output_path, null_output);
    let io = io_parameters(b, output_target(pass, output_path, null_output));
    assert(io.dom().contains(key));
    assert(m.dom().contains(key) && m[key] == io[key]);
    lemma_entries_map_dom(entries, key);
    let i = choose|i: int| 0 <= i < entries.len() && #[trigger] entries[i].0 == key;
    lemma_entries_map_lookup(entries, i);
}

/// Every encoder but SVT-AV1 and FFmpeg reads the video from standard
/// input: the first argument of any pass's command line is `-`. FFmpeg's
/// command line starts with `-i -`, and SVT-AV1's with its parameters.
pub proof fn lemma_reads_standard_input(
    e: Encoder,
    pass: (u8, u8),
    output_path: Seq<char>,
    name: Seq<char>,
    null_output: Seq<char>,
    args: Seq<Seq<char>>,
)
    requires
        is_command_line(e, pass, output_path, name, null_output, args),
    ensures
        e.spec_base() != EncoderBase::SVTAV1 && e.spec_base() != EncoderBase::FFmpeg ==> args.len() > 0 && args[0]
            == "-"@,
        e.spec_base() == EncoderBase::FFmpeg ==> args.len() > 1 && args[0] == "-i"@ && args[1] == "-"@,
{
    let b = e.spec_base();
    let m = merged_parameters(e, pass, name, output_path, null_output);
    if b == EncoderBase::FFmpeg && m.dom().contains("c:v"@) {
        let s = choose|s: Seq<(Seq<char>, ParamView)>|
            #[trigger] is_listing(s, m.remove("c:v"@)) && args == seq!["-i"@, "-"@, "-c:v"@] + seq![value_text(m["c:v"@])]
                + render_entries(s) + seq![output_path];
        assert(args[0] == "-i"@ && args[1] == "-"@);
    } else if b == EncoderBase::FFmpeg {
        let s = choose|s: Seq<(Seq<char>, ParamView)>|
            #[trigger] is_listing(s, m) && args == leading_arguments(b) + render_entries(s) + seq![output_path];
        assert(args[0] == "-i"@ && args[1] == "-"@);
    } else {
        let s = choose|s: Seq<(Seq<char>, ParamView)>|
            #[trigger] is_listing(s, m) && args == leading_arguments(b) + render_entries(s);
        if b != EncoderBase::SVTAV1 {
            assert(args[0] == "-"@);
        }
    }
}

impl Encoder {
    /// The parameters of pass `pass` of `encoder` before any configuration:
    /// its defaults overridden by the pass parameters. VVenC has none defined.
    pub fn default_parameters(encoder: &EncoderBase, pass: (u8, u8), first_pass_file_name: &str) -> (r:
        ParameterMap)
        requires
            *encoder != EncoderBase::VVenC,
        ensures
            r@ == base_defaults(*encoder).union_prefer_right(
                pass_defaults(*encoder, pass, first_pass_file_name@),
            ),
    {
        let mut parameters = encoder.default_parameters();
        let pass_parameters = encoder.pass_parameters(pass, first_pass_file_name);
        parameters.extend(&pass_parameters);
        parameters
    }

    /// The command-line arguments of pass `pass` (current, total), given the
    /// output path, the name of the first-pass statistics file and the null
    /// device. VVenC has no command line defined.
    pub fn command_parameters_with(
        &self,
        pass: (u8, u8),
        output_path: &str,
        first_pass_file_name: &str,
        null_output: &str,
    ) -> (r: Vec<String>)
        requires
            self.spec_base() != EncoderBase::VVenC,
        ensures
            is_command_line(
                *self,
                pass,
                output_path@,
                first_pass_file_name@,
                null_output@,
                string_views(r@),
            ),
            self.spec_base() != EncoderBase::SVTAV1 && self.spec_base() != EncoderBase::FFmpeg ==> r@.len() > 0
                && r@[0]@ == "-"@,
    {
        let base = self.base();
        let mut params = Encoder::default_parameters(&base, pass, first_pass_file_name);
        params.extend(self.parameters());
        let target = if pass.0 == pass.1 {
            output_path
        } else {
            null_output
        };
        let mut args: Vec<String> = Vec::new();
        let ghost merged = merged_parameters(
            *self,
            pass,
            first_pass_file_name@,
            output_path@,
            null_output@,
        );
        match base {
            EncoderBase::AOM | EncoderBase::VPX | EncoderBase::X264 | EncoderBase::X265 => {
                args.push("-".to_owned());
                params.insert_string("o", "-", " ", target);
            },
            EncoderBase::RAV1E => {
                args.push("-".to_owned());
                params.insert_string("output", "--", " ", target);
            },
            EncoderBase::SVTAV1 => {
                params.insert_string("i", "-", " ", "stdin");
                params.insert_string("b", "-", " ", target);
            },
            _ => {
                args.push("-i".to_owned());
                args.push("-".to_owned());
            },
        }
        assert(params@ =~= merged);
        if base == EncoderBase::FFmpeg {
            let codec = params.remove("c:v");
            let ghost rest = params@;
            let ghost lead = string_views(args@);
            match codec {
                Some(codec) => {
                    args.push("-c:v".to_owned());
                    args.push(codec.to_string_value());
                    let ghost lead2 = string_views(args@);
                    params.push_all_arguments(&mut args);
                    args.push(output_path.to_owned());
                    proof {
                        assert(lead2 =~= seq!["-i"@, "-"@, "-c:v"@] + seq![value_text(merged["c:v"@])]);
                        assert(is_listing(params.entries(), merged.remove("c:v"@)));
                        assert(string_views(args@) =~= seq!["-i"@, "-"@, "-c:v"@] + seq![
                            value_text(merged["c:v"@]),
                        ] + render_entries(params.entries()) + seq![output_path@]);
                    }
                },
                None => {
                    assert(params@ =~= merged);
                    params.push_all_arguments(&mut args);
                    args.push(output_path.to_owned());
                    proof {
                        assert(lead =~= leading_arguments(base));
                        assert(is_listing(params.entries(), merged));
                        assert(string_views(args@) =~= leading_arguments(base) + render_entries(
                            params.entries(),
                        ) + seq![output_path@]);
                    }
                },
            }
        } else {
            let ghost lead = string_views(args@);
            params.push_all_arguments(&mut args);
            proof {
                assert(lead =~= leading_arguments(base));
                assert(is_listing(params.entries(), merged));
                assert(string_views(args@) =~= leading_arguments(base) + render_entries(
                    params.entries(),
                ));
            }
        }
        proof {
            assert(is_command_line(*self, pass, output_path@, first_pass_file_name@, null_output@, string_views(args@)));
            lemma_reads_standard_input(*self, pass, output_path@, first_pass_file_name@, null_output@, string_views(args@));
            if base != EncoderBase::SVTAV1 && base != EncoderBase::FFmpeg {
                assert(string_views(args@)[0] == args@[0]@);
            }
        }
        args
    }
}

/// `args` is the command line of pass `pass` of `e` writing to
/// `output_path`, for some first-pass file name and some platform path
/// separator.
pub open spec fn is_platform_command_line(
    e: Encoder,
    pass: (u8, u8),
    output_path: Seq<char>,
    args: Seq<Seq<char>>,
) -> bool {
    exists|name: Seq<char>, separator: char|
        #[trigger] is_command_line(e, pass, output_path, name, spec_null_output(separator), args)
}

/// The executable an encoder runs by default.
pub open spec fn default_executable_name(b: EncoderBase) -> Seq<char> {
    match b {
        EncoderBase::AOM => "aomenc"@,
        EncoderBase::RAV1E => "rav1e"@,
        EncoderBase::VPX => "vpxenc"@,
        EncoderBase::SVTAV1 => "SvtAv1EncApp"@,
        EncoderBase::X264 => "x264"@,
        EncoderBase::X265 => "x265"@,
        EncoderBase::VVenC => "vvenc"@,
        EncoderBase::FFmpeg => "ffmpeg"@,
    }
}

/// The executable to run: the configured path when one is set and it
/// exists, the encoder's default name otherwise.
pub open spec fn chosen_executable(e: Encoder, configured_exists: bool) -> Seq<char> {
    match e.spec_executable() {
        Some(path) => if configured_exists {
            path@
        } else {
            default_executable_name(e.spec_base())
        },
        None => default_executable_name(e.spec_base()),
    }
}

impl Encoder {
    /// The command-line arguments of pass `pass` (current, total) writing to
    /// `output`. The first-pass statistics file is named after the output's
    /// file stem, and the other passes write to the platform's null device.
    /// `None` when `output` has no file name. An output whose file name is,
    /// on every platform, its text after the last `/` always gets its command
    /// line, with the first-pass statistics named after the stem of that
    /// file name. VVenC has no command line defined.
    pub fn command_parameters(&self, pass: (u8, u8), output: &str) -> (r: Option<Vec<String>>)
        requires
            self.spec_base() != EncoderBase::VVenC,
        ensures
            r matches Some(args) ==> is_platform_command_line(*self, pass, output@, string_views(args@)),
            is_plain_path(output@) ==> r is Some,
            r matches Some(args) ==> (is_plain_path(output@) ==> exists|separator: char|
                #[trigger] is_command_line(
                    *self,
                    pass,
                    output@,
                    stem_of(last_component(output@)),
                    spec_null_output(separator),
                    string_views(args@),
                )),
    {
        match file_stem(output) {
            Some(stem) => {
                let separator = main_separator();
                let null_output = null_output_for(separator);
                let args = self.command_parameters_with(pass, output, stem.as_str(), null_output);
                assert(is_command_line(
                    *self,
                    pass,
                    output@,
                    stem@,
                    spec_null_output(separator),
                    string_views(args@),
                ));
                proof {
                    if is_plain_path(output@) {
                        assert(stem@ == stem_of(last_component(output@)));
                    }
                }
                let r = Some(args);
                assert(r->0 == args);
                r
            },
            None => None,
        }
    }

    /// The executable to run, given whether the configured path exists.
    pub fn executable_if(&self, configured_exists: bool) -> (r: &str)
        ensures
            r@ == chosen_executable(*self, configured_exists),
    {
        let (default_name, executable) = match self {
            Encoder::AOM { executable, .. } => ("aomenc", executable),
            Encoder::RAV1E { executable, .. } => ("rav1e", executable),
            Encoder::VPX { executable, .. } => ("vpxenc", executable),
            Encoder::SVTAV1 { executable, .. } => ("SvtAv1EncApp", executable),
            Encoder::X264 { executable, .. } => ("x264", executable),
            Encoder::X265 { executable, .. } => ("x265", executable),
            Encoder::VVenC { executable, .. } => ("vvenc", executable),
            Encoder::FFmpeg { executable, .. } => ("ffmpeg", executable),
        };
        match executable {
            Some(path) => if configured_exists {
                path.as_str()
            } else {
                default_name
            },
            None => default_name,
        }
    }

    /// The executable to run: the configured path when one is set and
    /// exists on disk, the encoder's default name otherwise.
    pub fn executable(&self) -> (r: &str)
        ensures
            r@ == chosen_executable(*self, true) || r@ == chosen_executable(*self, false),
    {
        let exists = match self.configured_executable() {
            Some(path) => path_exists(path.as_str()),
            None => false,
        };
        self.executable_if(exists)
    }

    /// Looks the executable to run ([`Encoder::executable`]) up on the search
    /// path: `Ok` when it is found, else an error that names it. What is
    /// installed decides which.
    pub fn validate(&self) -> (r: Result<(), ExecutableNotFound>)
        ensures
            r matches Err(ExecutableNotFound(name)) ==> name@ == chosen_executable(*self, true) || name@
                == chosen_executable(*self, false),
    {
        let name = self.executable();
        if tool_available(name) {
            Ok(())
        } else {
            Err(ExecutableNotFound(name.to_owned()))
        }
    }
}

/// An encoder's executable that was not found on the search path, by the
/// name it was looked up under.
#[derive(Debug, Clone, PartialEq, Eq)]
pub struct ExecutableNotFound(pub String);

} // verus!
