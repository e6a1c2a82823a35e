//! The saved state of a chunked-encoding job: its input, its output, the
//! encoder, the scenes found so far with the encoder of each, and the
//! settings of its processors.

use vstd::prelude::*;
use crate::encoding::Encoder;
use crate::input::Input;
use crate::scene_detection::FrameRange;
use crate::settings::ConcatMethod;

verus! {

/// Where and how the encoded scenes are joined, with the tags of the output
/// file and of its video track.
pub struct Output {
    pub path: String,
    pub concatenation_method: ConcatMethod,
    pub tags: Vec<(String, String)>,
    pub video_tags: Vec<(String, String)>,
}

/// What is wrong with an output.
#[derive(Debug, Clone, PartialEq, Eq)]
pub enum OutputError {
    /// The folder that should hold the output does not exist.
    ValidationFailed(String),
    /// The program that joins the scenes was not found.
    ToolNotFound(String),
}

/// A copy of a list of tags.
fn copy_tags(tags: &Vec<(String, String)>) -> (r: Vec<(String, String)>)
    ensures
        r@ == tags@,
{
    let mut r: Vec<(String, String)> = Vec::new();
    let mut i: usize = 0;
    while i < tags.len()
        invariant
            i <= tags.len(),
            r@ == tags@.take(i as int),
        decreases tags.len() - i,
    {
        let (k, v) = &tags[i];
        r.push((k.clone(), v.clone()));
        assert(tags@.take(i + 1) =~= tags@.take(i as int).push(tags@[i as int]));
        i = i + 1;
    }
    assert(tags@.take(tags@.len() as int) =~= tags@);
    r
}

/// `which::which`: whether an executable named `name` is found on the search
/// path at the time of the call. What is on disk decides, so nothing is
/// claimed of the result.
#[verifier::external_body]
pub(crate) fn tool_available(name: &str) -> (r: bool) {
    which::which(name).is_ok()
}

/// The program that joins scenes with `method`.
pub open spec fn concat_tool(method: ConcatMethod) -> Seq<char> {
    match method {
        ConcatMethod::FFmpeg => "ffmpeg"@,
        _ => "mkvmerge"@,
    }
}

/// The name of the program that joins scenes with `method`.
pub fn concat_tool_name(method: ConcatMethod) -> (r: &'static str)
    ensures
        r@ == concat_tool(method),
{
    match method {
        ConcatMethod::FFmpeg => "ffmpeg",
        _ => "mkvmerge",
    }
}

impl Output {
    /// A copy of the saved output settings.
    pub fn new(data: &Output) -> (r: Output)
        ensures
            r.path == data.path,
            r.concatenation_method == data.concatenation_method,
            r.tags@ == data.tags@,
            r.video_tags@ == data.video_tags@,
    {
        Output {
            path: data.path.clone(),
            concatenation_method: data.concatenation_method,
            tags: copy_tags(&data.tags),
            video_tags: copy_tags(&data.video_tags),
        }
    }

    /// The settings to save.
    pub fn as_data(&self) -> (r: Output)
        ensures
            r.path == self.path,
            r.concatenation_method == self.concatenation_method,
            r.tags@ == self.tags@,
            r.video_tags@ == self.video_tags@,
    {
        Output::new(self)
    }

    /// The warnings of an output whose parent folder is missing
    /// (`parent_missing`) or not, once the program that joins its scenes was
    /// looked for: `tool_found` tells whether it was found.
    pub fn check(data: &Output, parent_missing: bool, tool_found: bool) -> (r: Result<Vec<OutputError>, OutputError>)
        requires
            data.concatenation_method != ConcatMethod::Ivf,
        ensures
            r is Ok <==> tool_found,
            r matches Ok(w) ==> w@ == (if parent_missing {
                seq![OutputError::ValidationFailed(data.path)]
            } else {
                seq![]
            }),
            r matches Err(e) ==> e matches OutputError::ToolNotFound(t) && t@ == concat_tool(data.concatenation_method),
    {
        if !tool_found {
            let name = concat_tool_name(data.concatenation_method);
            return Err(OutputError::ToolNotFound(name.to_owned()));
        }
        let mut warnings: Vec<OutputError> = Vec::new();
        if parent_missing {
            warnings.push(OutputError::ValidationFailed(data.path.clone()));
        }
        assert(warnings@ =~= (if parent_missing { seq![OutputError::ValidationFailed(data.path)] } else { seq![] }));
        Ok(warnings)
    }

    /// Checks an output whose parent folder is missing (`parent_missing`) or
    /// not: looks for the program that joins its scenes (`ffmpeg` or
    /// `mkvmerge`) on the search path, then reports as [`Output::check`] does.
    pub fn validate(data: &Output, parent_missing: bool) -> (r: Result<Vec<OutputError>, OutputError>)
        requires
            data.concatenation_method != ConcatMethod::Ivf,
        ensures
            r matches Ok(w) ==> w@ == (if parent_missing {
                seq![OutputError::ValidationFailed(data.path)]
            } else {
                seq![]
            }),
            r matches Err(e) ==> e matches OutputError::ToolNotFound(t) && t@ == concat_tool(data.concatenation_method),
    {
        let found = tool_available(concat_tool_name(data.concatenation_method));
        Output::check(data, parent_missing, found)
    }
}

/// The stage of a processor that an event reports on.
#[derive(Debug, Clone, Copy, PartialEq, Eq, Structural)]
pub enum ProcessType {
    Validation,
    Initialization,
    Processing,
}

/// The name, description and version of a processor.
#[derive(Debug, Clone, Copy)]
pub struct ProcessorDetails {
    pub name: &'static str,
    pub description: &'static str,
    pub version: &'static str,
}

/// Where in a scene a probe of a subset of its frames is taken.
#[derive(Debug, Clone, Copy, PartialEq, Eq, Structural)]
pub enum SubsetProbePosition {
    Start,
    Middle,
    End,
}

/// The settings of a processor that has none.
#[derive(Debug, Clone, Copy, PartialEq, Eq, Structural, Default)]
pub struct BaseProcessorConfig {}

/// The settings of the parallel encoder: how many encoders run at once, the
/// folder of the encoded scenes, and optionally its own input and encoder.
pub struct ParallelEncoderConfig {
    pub workers: u8,
    pub scenes_directory: String,
    pub input: Option<Input>,
    pub encoder: Option<Encoder>,
}

impl Default for ParallelEncoderConfig {
    fn default() -> (r: Self)
        ensures
            r.workers == 1,
            r.scenes_directory@ == Seq::<char>::empty(),
            r.input is None,
            r.encoder is None,
    {
        ParallelEncoderConfig { workers: 1, scenes_directory: String::new(), input: None, encoder: None }
    }
}

/// A scene of the job: a frame range and the encoder that encodes it.
pub struct Scene {
    pub start_frame: usize,
    pub end_frame: usize,
    pub encoder: Encoder,
}

/// A job: input, output, encoder, scenes, and processor settings.
pub struct Condor<C> {
    pub input: Input,
    pub output: Output,
    pub encoder: Encoder,
    pub scenes: Vec<Scene>,
    pub processor_config: C,
}

/// The frame ranges of a list of scenes.
pub open spec fn scene_ranges(scenes: Seq<Scene>) -> Seq<FrameRange> {
    Seq::new(scenes.len(), |i: int| (scenes[i].start_frame, scenes[i].end_frame))
}

impl<C: Default> Condor<C> {
    /// A job from its parts; processor settings default when not given.
    pub fn new(input: Input, output: Output, encoder: Encoder, scenes: Vec<Scene>, processor_config: Option<C>) -> (r: Self)
        ensures
            r.input == input,
            r.output == output,
            r.encoder == encoder,
            r.scenes == scenes,
            processor_config matches Some(c) ==> r.processor_config == c,
            processor_config is None ==> call_ensures(C::default, (), r.processor_config),
    {
        let processor_config = match processor_config {
            Some(c) => c,
            None => C::default(),
        };
        Condor { input, output, encoder, scenes, processor_config }
    }
}

impl<C> Condor<C> {
    /// The end of the last scene, if there is one.
    pub fn last_scene_end(&self) -> (r: Option<usize>)
        ensures
            r == (if self.scenes@.len() > 0 { Some(self.scenes@.last().end_frame) } else { None::<usize> }),
    {
        if self.scenes.len() > 0 {
            Some(self.scenes[self.scenes.len() - 1].end_frame)
        } else {
            None
        }
    }

    /// Appends a scene for each frame range, each encoded with a copy of the
    /// job's encoder.
    pub fn append_scenes(&mut self, ranges: &Vec<FrameRange>)
        ensures
            scene_ranges(final(self).scenes@) == scene_ranges(old(self).scenes@) + ranges@,
            final(self).input == old(self).input,
            final(self).output == old(self).output,
            final(self).encoder == old(self).encoder,
            forall|i: int|
                old(self).scenes@.len() <= i < final(self).scenes@.len() ==> (#[trigger] final(self).scenes@[i]).encoder.same_as(&final(self).encoder),
            forall|i: int| 0 <= i < old(self).scenes@.len() ==> #[trigger] final(self).scenes@[i] == old(self).scenes@[i],
    {
        let ghost start = self.scenes@;
        let mut i: usize = 0;
        while i < ranges.len()
            invariant
                i <= ranges.len(),
                self.input == old(self).input,
                self.output == old(self).output,
                self.encoder == old(self).encoder,
                start == old(self).scenes@,
                self.scenes@.len() == start.len() + i,
                scene_ranges(self.scenes@) == scene_ranges(start) + ranges@.take(i as int),
                forall|k: int| start.len() <= k < self.scenes@.len() ==> (#[trigger] self.scenes@[k]).encoder.same_as(&self.encoder),
                forall|k: int| 0 <= k < start.len() ==> #[trigger] self.scenes@[k] == start[k],
            decreases ranges.len() - i,
        {
            let (s, e) = ranges[i];
            let encoder = self.encoder.duplicate();
            let ghost before = self.scenes@;
            self.scenes.push(Scene { start_frame: s, end_frame: e, encoder });
            proof {
                assert(scene_ranges(self.scenes@) =~= scene_ranges(before).push((s, e)));
                assert(ranges@.take(i + 1) =~= ranges@.take(i as int).push(ranges@[i as int]));
                assert(scene_ranges(self.scenes@) =~= scene_ranges(start) + ranges@.take(i + 1));
                assert forall|k: int| 0 <= k < start.len() implies #[trigger] self.scenes@[k] == start[k] by {
                    assert(self.scenes@[k] == before[k]);
                }
                assert forall|k: int| start.len() <= k < self.scenes@.len() implies (#[trigger] self.scenes@[k]).encoder.same_as(&self.encoder) by {
                    if k < before.len() {
                        assert(self.scenes@[k] == before[k]);
                    }
                }
            }
            i = i + 1;
        }
        assert(ranges@.take(ranges@.len() as int) =~= ranges@);
    }
}

} // verus!
