//! Where the frames of a job come from: a video file read directly, a video
//! file opened through a VapourSynth source filter, or a VapourSynth script.

use vstd::prelude::*;

verus! {

/// How a video file is read without VapourSynth.
#[derive(Debug, Clone, Copy, PartialEq, Eq, Structural)]
pub enum ImportMethod {
    FFmpeg,
    FFMS2,
}

/// The VapourSynth source filter that opens a video file, with its settings.
#[derive(Debug, Clone, PartialEq, Eq)]
pub enum VapourSynthImportMethod {
    LSMASHWorks { index: Option<u8> },
    DGDecNV { dgindexnv_executable: Option<String> },
    FFMS2 { index: Option<u8> },
    BestSource { index: Option<u8> },
}

/// Where a VapourSynth script is read from: a file, or the script text.
#[derive(Debug, Clone, PartialEq, Eq)]
pub enum VapourSynthScriptSource {
    Path(String),
    Text(String),
}

/// The input of a job.
#[derive(Debug, Clone, PartialEq, Eq)]
pub enum Input {
    Video { path: String, import_method: ImportMethod },
    VapourSynth {
        path: String,
        import_method: VapourSynthImportMethod,
        cache_path: Option<String>,
    },
    VapourSynthScript {
        source: VapourSynthScriptSource,
        variables: Vec<(String, String)>,
        index: u8,
    },
}

impl Input {
    /// Two inputs describe the same source: equal fields, script variables
    /// equal as sequences.
    pub open spec fn same_as(&self, other: &Input) -> bool {
        match (self, other) {
            (
                Input::VapourSynthScript { source: s1, variables: v1, index: i1 },
                Input::VapourSynthScript { source: s2, variables: v2, index: i2 },
            ) => *s1 == *s2 && v1@ == v2@ && *i1 == *i2,
            (Input::VapourSynthScript { .. }, _) => false,
            (_, Input::VapourSynthScript { .. }) => false,
            _ => *self == *other,
        }
    }

    /// A copy of this input.
    pub fn duplicate(&self) -> (r: Input)
        ensures
            r.same_as(self),
    {
        match self {
            Input::Video { path, import_method } => Input::Video {
                path: path.clone(),
                import_method: *import_method,
            },
            Input::VapourSynth { path, import_method, cache_path } => {
                let method = match import_method {
                    VapourSynthImportMethod::LSMASHWorks { index } => VapourSynthImportMethod::LSMASHWorks {
                        index: *index,
                    },
                    VapourSynthImportMethod::DGDecNV { dgindexnv_executable } => {
                        let exe = match dgindexnv_executable {
                            Some(e) => Some(e.clone()),
                            None => None,
                        };
                        VapourSynthImportMethod::DGDecNV { dgindexnv_executable: exe }
                    },
                    VapourSynthImportMethod::FFMS2 { index } => VapourSynthImportMethod::FFMS2 {
                        index: *index,
                    },
                    VapourSynthImportMethod::BestSource { index } => VapourSynthImportMethod::BestSource {
                        index: *index,
                    },
                };
                let cache = match cache_path {
                    Some(c) => Some(c.clone()),
                    None => None,
                };
                Input::VapourSynth { path: path.clone(), import_method: method, cache_path: cache }
            },
            Input::VapourSynthScript { source, variables, index } => {
                let src = match source {
                    VapourSynthScriptSource::Path(p) => VapourSynthScriptSource::Path(p.clone()),
                    VapourSynthScriptSource::Text(t) => VapourSynthScriptSource::Text(t.clone()),
                };
                let mut vars: Vec<(String, String)> = Vec::new();
                let mut i: usize = 0;
                while i < variables.len()
                    invariant
                        i <= variables.len(),
                        vars@ == variables@.take(i as int),
                    decreases variables.len() - i,
                {
                    let (k, v) = &variables[i];
                    vars.push((k.clone(), v.clone()));
                    proof {
                        assert(variables@.take(i + 1) =~= variables@.take(i as int).push(variables@[i as int]));
                    }
                    i = i + 1;
                }
                proof {
                    assert(variables@.take(variables@.len() as int) =~= variables@);
                }
                Input::VapourSynthScript { source: src, variables: vars, index: *index }
            },
        }
    }

    /// The input is read through VapourSynth (a source filter or a script).
    pub open spec fn spec_is_vapoursynth(&self) -> bool {
        !(self is Video)
    }

    /// Whether the input is read through VapourSynth.
    pub fn is_vapoursynth(&self) -> (r: bool)
        ensures
            r == self.spec_is_vapoursynth(),
    {
        match self {
            Input::Video { .. } => false,
            _ => true,
        }
    }
}

} // verus!
