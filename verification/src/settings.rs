//! Settings of an encoding run, and the checks made on the encoder
//! arguments: rate-control warnings, unknown options, and the arguments that
//! point an encoder at a film-grain table.

use vstd::prelude::*;
use crate::input::Input;
use crate::scene_detection::ScenecutMethod;
use crate::text::{seq_starts_with, starts_with, str_eq, concat2, before_char, prefix_before};

verus! {

/// The encoders that a chunked encoding run drives.
#[allow(non_camel_case_types)]
#[derive(Debug, Clone, Copy, PartialEq, Eq, Structural)]
pub enum Encoder {
    aom,
    rav1e,
    vpx,
    svt_av1,
    x264,
    x265,
}

/// A pixel format by its FFmpeg name, with its bit depth.
#[derive(Debug, Clone, PartialEq, Eq)]
pub struct PixelFormat {
    pub format: String,
    pub bit_depth: usize,
}

/// The pixel format of the input, as the reader that opened it reports it:
/// VapourSynth gives a bit depth, FFmpeg a pixel format name.
#[derive(Debug, Clone, PartialEq, Eq)]
pub enum InputPixelFormat {
    VapourSynth { bit_depth: usize },
    FFmpeg { format: String },
}

/// The question asked does not fit how the input was read.
#[derive(Debug, Clone, Copy, PartialEq, Eq, Structural)]
pub enum PixelFormatError {
    WrongInputType,
}

impl InputPixelFormat {
    /// The bit depth, known only for VapourSynth inputs.
    pub fn as_bit_depth(&self) -> (r: Result<usize, PixelFormatError>)
        ensures
            match self {
                InputPixelFormat::VapourSynth { bit_depth } => r == Ok::<usize, PixelFormatError>(*bit_depth),
                InputPixelFormat::FFmpeg { .. } => r == Err::<usize, PixelFormatError>(PixelFormatError::WrongInputType),
            },
    {
        match self {
            InputPixelFormat::VapourSynth { bit_depth } => Ok(*bit_depth),
            InputPixelFormat::FFmpeg { .. } => Err(PixelFormatError::WrongInputType),
        }
    }

    /// The pixel format name, known only for inputs read by FFmpeg.
    pub fn as_pixel_format(&self) -> (r: Result<String, PixelFormatError>)
        ensures
            match self {
                InputPixelFormat::VapourSynth { .. } => r == Err::<String, PixelFormatError>(PixelFormatError::WrongInputType),
                InputPixelFormat::FFmpeg { format } => r matches Ok(f) && f@ == format@,
            },
    {
        match self {
            InputPixelFormat::VapourSynth { .. } => Err(PixelFormatError::WrongInputType),
            InputPixelFormat::FFmpeg { format } => Ok(format.clone()),
        }
    }
}

/// How the video is cut into scenes before encoding.
#[derive(Debug, Clone, Copy, PartialEq, Eq, Structural)]
pub enum SplitMethod {
    AvScenechange,
    NoSplit,
}

/// How the chunks of the video are read for encoding.
#[derive(Debug, Clone, Copy, PartialEq, Eq, Structural)]
pub enum ChunkMethod {
    Select,
    Hybrid,
    Segment,
    FFMS2,
    LSMASH,
    DGDECNV,
    BESTSOURCE,
}

/// In which order the chunks are encoded.
#[derive(Debug, Clone, Copy, PartialEq, Eq, Structural)]
pub enum ChunkOrdering {
    LongestFirst,
    ShortestFirst,
    Sequential,
    Random,
}

/// How the encoded chunks are joined into the output.
#[derive(Debug, Clone, Copy, PartialEq, Eq, Structural)]
pub enum ConcatMethod {
    MKVMerge,
    FFmpeg,
    Ivf,
}

/// Where the run reads from and writes to, and the pixel formats involved.
pub struct InputOutputSettings {
    pub input: Input,
    pub proxy: Option<Input>,
    pub temp: String,
    pub output_file: String,
    pub input_pix_format: InputPixelFormat,
    pub output_pix_format: PixelFormat,
}

/// How the run itself behaves.
pub struct Av1anSettings {
    pub resume: bool,
    pub keep: bool,
    pub force: bool,
    pub ignore_frame_mismatch: bool,
    pub max_tries: usize,
    pub sc_only: bool,
    pub workers: usize,
    pub set_thread_affinity: Option<usize>,
}

/// The encoder and its arguments.
pub struct EncoderSettings {
    pub encoder: Encoder,
    pub passes: u8,
    pub video_params: Vec<String>,
    /// Tile columns and rows; `None` lets the run choose.
    pub tiles: Option<(u32, u32)>,
    pub photon_noise: Option<u8>,
    /// Width and height to model the photon noise for.
    pub photon_noise_size: (Option<u32>, Option<u32>),
    pub chroma_noise: bool,
    pub zones: Option<String>,
}

/// How scenes are found.
pub struct ScenecutSettings {
    pub scenes: Option<String>,
    pub split_method: SplitMethod,
    pub sc_pix_format: Option<String>,
    pub sc_method: ScenecutMethod,
    pub sc_downscale_height: Option<usize>,
    pub scaler: String,
    pub extra_splits_len: Option<usize>,
    pub min_scene_len: usize,
    pub force_keyframes: Vec<usize>,
}

/// How chunks are read, ordered and joined.
pub struct ChunkSettings {
    pub chunk_method: ChunkMethod,
    pub chunk_order: ChunkOrdering,
    pub concat: ConcatMethod,
}

/// Extra FFmpeg arguments for the video filter and the audio.
pub struct FfmpegSettings {
    pub ffmpeg_filter_args: Vec<String>,
    pub audio_params: Vec<String>,
}

/// A warning about rate control missing from the encoder arguments.
#[derive(Debug, Clone, Copy, PartialEq, Eq, Structural)]
pub enum RateControlWarning {
    /// No `--end-usage=` argument.
    EndUsageMissing,
    /// Neither `--cq-level=` nor `--target-bitrate=`.
    RateMissing,
}

pub open spec fn is_ascii_alphabetic(c: char) -> bool {
    ('a' <= c && c <= 'z') || ('A' <= c && c <= 'Z')
}

pub open spec fn is_ascii_digit(c: char) -> bool {
    '0' <= c && c <= '9'
}

/// `--end-usage=` followed by at least one letter and nothing else.
pub open spec fn is_aom_encoder_mode(s: Seq<char>) -> bool {
    &&& s.len() > END_USAGE@.len()
    &&& seq_starts_with(s, END_USAGE@)
    &&& forall|i: int| END_USAGE@.len() <= i < s.len() ==> is_ascii_alphabetic(#[trigger] s[i])
}

/// `--cq-level=` or `--target-bitrate=` followed by at least one digit and
/// nothing else.
pub open spec fn is_aom_rate(s: Seq<char>) -> bool {
    ||| s.len() > CQ_LEVEL@.len() && seq_starts_with(s, CQ_LEVEL@) && forall|i: int|
        CQ_LEVEL@.len() <= i < s.len() ==> is_ascii_digit(#[trigger] s[i])
    ||| s.len() > TARGET_BITRATE@.len() && seq_starts_with(s, TARGET_BITRATE@) && forall|i: int|
        TARGET_BITRATE@.len() <= i < s.len() ==> is_ascii_digit(#[trigger] s[i])
}

pub const END_USAGE: &'static str = "--end-usage=";
pub const CQ_LEVEL: &'static str = "--cq-level=";
pub const TARGET_BITRATE: &'static str = "--target-bitrate=";

/// Whether every character of `s` from position `from` on satisfies the
/// given class: letters when `letters`, digits otherwise.
fn all_from(s: &str, from: usize, letters: bool) -> (r: bool)
    requires
        from <= s@.len(),
    ensures
        r == (forall|i: int|
            from <= i < s@.len() ==> (if letters {
                is_ascii_alphabetic(#[trigger] s@[i])
            } else {
                is_ascii_digit(s@[i])
            })),
{
    let n = s.unicode_len();
    let mut i: usize = from;
    while i < n
        invariant
            n == s@.len(),
            from <= i <= n,
            forall|j: int|
                from <= j < i ==> (if letters {
                    is_ascii_alphabetic(#[trigger] s@[j])
                } else {
                    is_ascii_digit(s@[j])
                }),
        decreases n - i,
    {
        let c = s.get_char(i);
        let ok = if letters {
            ('a' <= c && c <= 'z') || ('A' <= c && c <= 'Z')
        } else {
            '0' <= c && c <= '9'
        };
        if !ok {
            return false;
        }
        i = i + 1;
    }
    true
}

impl EncoderSettings {
    /// Whether `s` selects an aom rate-control mode (`--end-usage=` and a
    /// word).
    fn check_aom_encoder_mode(s: &str) -> (r: bool)
        ensures
            r == is_aom_encoder_mode(s@),
    {
        proof {
            reveal_strlit("--end-usage=");
        }
        let prefix_len = END_USAGE.unicode_len();
        if s.unicode_len() <= prefix_len || !starts_with(s, END_USAGE) {
            return false;
        }
        all_from(s, prefix_len, true)
    }

    /// Whether `s` sets an aom rate (`--cq-level=` or `--target-bitrate=`
    /// and a number).
    fn check_aom_rate(s: &str) -> (r: bool)
        ensures
            r == is_aom_rate(s@),
    {
        let n = s.unicode_len();
        let cq_len = CQ_LEVEL.unicode_len();
        let tb_len = TARGET_BITRATE.unicode_len();
        if n > cq_len && starts_with(s, CQ_LEVEL) && all_from(s, cq_len, false) {
            return true;
        }
        n > tb_len && starts_with(s, TARGET_BITRATE) && all_from(s, tb_len, false)
    }

    /// The rate-control warnings for these arguments: only aom is checked; it
    /// warns when no argument selects a mode and when none sets a rate.
    pub fn check_rate_control(&self) -> (r: Vec<RateControlWarning>)
        ensures
            r@ == (if self.encoder == Encoder::aom {
                (if exists|i: int| 0 <= i < self.video_params.len() && is_aom_encoder_mode(#[trigger] self.video_params@[i]@) {
                    seq![]
                } else {
                    seq![RateControlWarning::EndUsageMissing]
                }) + (if exists|i: int| 0 <= i < self.video_params.len() && is_aom_rate(#[trigger] self.video_params@[i]@) {
                    seq![]
                } else {
                    seq![RateControlWarning::RateMissing]
                })
            } else {
                seq![]
            }),
    {
        let mut r: Vec<RateControlWarning> = Vec::new();
        if self.encoder == Encoder::aom {
            let mut has_mode = false;
            let mut has_rate = false;
            let mut i: usize = 0;
            while i < self.video_params.len()
                invariant
                    i <= self.video_params.len(),
                    has_mode == exists|j: int| 0 <= j < i && is_aom_encoder_mode(#[trigger] self.video_params@[j]@),
                    has_rate == exists|j: int| 0 <= j < i && is_aom_rate(#[trigger] self.video_params@[j]@),
                decreases self.video_params.len() - i,
            {
                let p = self.video_params[i].as_str();
                if Self::check_aom_encoder_mode(p) {
                    has_mode = true;
                }
                if Self::check_aom_rate(p) {
                    has_rate = true;
                }
                i = i + 1;
            }
            if !has_mode {
                r.push(RateControlWarning::EndUsageMissing);
            }
            if !has_rate {
                r.push(RateControlWarning::RateMissing);
            }
            assert(r@ =~= (if has_mode { seq![] } else { seq![RateControlWarning::EndUsageMissing] }) + (if has_rate {
                seq![]
            } else {
                seq![RateControlWarning::RateMissing]
            }));
        }
        r
    }
}

/// The views of a sequence of strings.
pub open spec fn views(v: Seq<String>) -> Seq<Seq<char>> {
    Seq::new(v.len(), |i: int| v[i]@)
}

/// The parameters that are not among the valid options, in their order.
pub open spec fn unlisted(params: Seq<Seq<char>>, valid: Seq<Seq<char>>) -> Seq<Seq<char>>
    decreases params.len(),
{
    if params.len() == 0 {
        seq![]
    } else {
        let rest = unlisted(params.drop_last(), valid);
        if valid.contains(params.last()) {
            rest
        } else {
            rest.push(params.last())
        }
    }
}

/// Whether `key` is one of `valid`.
fn listed(valid: &Vec<String>, key: &str) -> (r: bool)
    ensures
        r == views(valid@).contains(key@),
{
    let mut i: usize = 0;
    while i < valid.len()
        invariant
            i <= valid.len(),
            forall|j: int| 0 <= j < i ==> valid@[j]@ != key@,
        decreases valid.len() - i,
    {
        if str_eq(valid[i].as_str(), key) {
            assert(views(valid@)[i as int] == key@);
            return true;
        }
        i = i + 1;
    }
    assert forall|j: int| 0 <= j < views(valid@).len() implies views(valid@)[j] != key@ by {
        assert(views(valid@)[j] == valid@[j]@);
    }
    false
}

/// The parameters that are not valid options of the encoder, in their order.
pub fn invalid_params(params: &Vec<String>, valid_options: &Vec<String>) -> (r: Vec<String>)
    ensures
        views(r@) == unlisted(views(params@), views(valid_options@)),
{
    let mut r: Vec<String> = Vec::new();
    let mut i: usize = 0;
    while i < params.len()
        invariant
            i <= params.len(),
            views(r@) == unlisted(views(params@).take(i as int), views(valid_options@)),
        decreases params.len() - i,
    {
        let p = params[i].as_str();
        let known = listed(valid_options, p);
        proof {
            assert(views(params@).take(i + 1).drop_last() =~= views(params@).take(i as int));
            assert(views(params@).take(i + 1).last() == params@[i as int]@);
        }
        if !known {
            r.push(params[i].clone());
            assert(views(r@) =~= unlisted(views(params@).take(i + 1), views(valid_options@)));
        } else {
            assert(views(r@) =~= unlisted(views(params@).take(i + 1), views(valid_options@)));
        }
        i = i + 1;
    }
    assert(views(params@).take(params@.len() as int) =~= views(params@));
    r
}

/// The strings that do not begin with `prefix`, in their order.
pub open spec fn without_prefix(v: Seq<Seq<char>>, prefix: Seq<char>) -> Seq<Seq<char>>
    decreases v.len(),
{
    if v.len() == 0 {
        seq![]
    } else {
        let rest = without_prefix(v.drop_last(), prefix);
        if seq_starts_with(v.last(), prefix) {
            rest
        } else {
            rest.push(v.last())
        }
    }
}

/// `idx` is where `key` first occurs in `v`.
pub open spec fn first_occurrence(v: Seq<Seq<char>>, key: Seq<char>, idx: int) -> bool {
    0 <= idx < v.len() && v[idx] == key && forall|j: int| 0 <= j < idx ==> v[j] != key
}

/// The arguments with the first `key` and the value after it taken out (if
/// `key` occurs), then `flag` and `value` appended.
pub open spec fn replace_flag_pair(v: Seq<Seq<char>>, key: Seq<char>, flag: Seq<char>, value: Seq<char>) -> Seq<Seq<char>> {
    if exists|idx: int| first_occurrence(v, key, idx) {
        let idx = choose|idx: int| first_occurrence(v, key, idx);
        v.subrange(0, idx) + v.subrange(idx + 2, v.len() as int) + seq![flag, value]
    } else {
        v + seq![flag, value]
    }
}

/// The first occurrence of `key`, if it occurs, is not the last argument (so
/// that a value follows it).
pub open spec fn flag_has_value(v: Seq<Seq<char>>, key: Seq<char>) -> bool {
    forall|idx: int| first_occurrence(v, key, idx) ==> idx + 1 < v.len()
}

/// The arguments after pointing `encoder` at the film-grain table
/// `table`: aom drops its `--denoise-noise-level=` arguments and gets
/// `--film-grain-table=<table>`; SVT-AV1 drops `--film-grain <n>` and gets
/// `--fgs-table <table>`; rav1e drops `--photon-noise <n>` and gets
/// `--photon-noise-table <table>`. Other encoders have no such argument.
pub open spec fn spec_noise_table_params(encoder: Encoder, v: Seq<Seq<char>>, table: Seq<char>) -> Option<Seq<Seq<char>>> {
    match encoder {
        Encoder::aom => Some(without_prefix(v, DENOISE_LEVEL@).push(FILM_GRAIN_TABLE@ + table)),
        Encoder::svt_av1 => Some(replace_flag_pair(v, FILM_GRAIN@, FGS_TABLE@, table)),
        Encoder::rav1e => Some(replace_flag_pair(v, PHOTON_NOISE@, PHOTON_NOISE_TABLE@, table)),
        _ => None,
    }
}

pub const DENOISE_LEVEL: &'static str = "--denoise-noise-level=";
pub const FILM_GRAIN_TABLE: &'static str = "--film-grain-table=";
pub const FILM_GRAIN: &'static str = "--film-grain";
pub const FGS_TABLE: &'static str = "--fgs-table";
pub const PHOTON_NOISE: &'static str = "--photon-noise";
pub const PHOTON_NOISE_TABLE: &'static str = "--photon-noise-table";

/// The encoder cannot take a film-grain table through these arguments.
#[derive(Debug, Clone, Copy, PartialEq, Eq, Structural)]
pub enum NoiseTableError {
    UnsupportedEncoder,
}

/// The position of the first argument equal to `key`, if any.
fn find_position(v: &Vec<String>, key: &str) -> (r: Option<usize>)
    ensures
        match r {
            Some(idx) => first_occurrence(views(v@), key@, idx as int),
            None => forall|j: int| 0 <= j < v@.len() ==> v@[j]@ != key@,
        },
{
    let mut i: usize = 0;
    while i < v.len()
        invariant
            i <= v.len(),
            forall|j: int| 0 <= j < i ==> v@[j]@ != key@,
        decreases v.len() - i,
    {
        if str_eq(v[i].as_str(), key) {
            proof {
                assert forall|j: int| 0 <= j < i implies views(v@)[j] != key@ by {
                    assert(views(v@)[j] == v@[j]@);
                }
            }
            return Some(i);
        }
        i = i + 1;
    }
    None
}

/// Takes out the first `key` and the argument after it, then appends `flag`
/// and `value`.
fn replace_pair(v: &mut Vec<String>, key: &str, flag: &str, value: &str)
    requires
        flag_has_value(views(old(v)@), key@),
    ensures
        views(final(v)@) == replace_flag_pair(views(old(v)@), key@, flag@, value@),
{
    let ghost old_views = views(v@);
    match find_position(v, key) {
        Some(idx) => {
            proof {
                assert(first_occurrence(old_views, key@, idx as int));
                assert(flag_has_value(old_views, key@));
                assert(idx + 1 < old_views.len());
                assert(old_views.len() == v@.len());
            }
            assert(idx + 1 < v.len());
            let next: usize = idx + 1;
            v.remove(next);
            v.remove(idx);
            v.push(flag.to_owned());
            v.push(value.to_owned());
            proof {
                let chosen = choose|i: int| first_occurrence(old_views, key@, i);
                assert(chosen == idx) by {
                    if chosen < idx {
                        assert(old_views[chosen] != key@);
                    } else if chosen > idx {
                        assert(old_views[idx as int] != key@);
                    }
                }
                assert(views(v@) =~= old_views.subrange(0, idx as int) + old_views.subrange(idx + 2, old_views.len() as int)
                    + seq![flag@, value@]);
            }
        },
        None => {
            v.push(flag.to_owned());
            v.push(value.to_owned());
            proof {
                assert forall|i: int| !first_occurrence(old_views, key@, i) by {
                    if 0 <= i < old_views.len() {
                        assert(old_views[i] == old(v)@[i]@);
                    }
                }
                assert(views(v@) =~= old_views + seq![flag@, value@]);
            }
        },
    }
}

/// Points `encoder` at the film-grain table `table` through its arguments;
/// fails, leaving them unchanged, for encoders without such an argument.
pub fn insert_noise_table_params(encoder: Encoder, video_params: &mut Vec<String>, table: &str) -> (r: Result<(), NoiseTableError>)
    requires
        encoder == Encoder::svt_av1 ==> flag_has_value(views(old(video_params)@), FILM_GRAIN@),
        encoder == Encoder::rav1e ==> flag_has_value(views(old(video_params)@), PHOTON_NOISE@),
    ensures
        match spec_noise_table_params(encoder, views(old(video_params)@), table@) {
            Some(v) => r is Ok && views(final(video_params)@) == v,
            None => r == Err::<(), NoiseTableError>(NoiseTableError::UnsupportedEncoder) && final(video_params)@ == old(video_params)@,
        },
{
    match encoder {
        Encoder::aom => {
            let mut kept: Vec<String> = Vec::new();
            let mut i: usize = 0;
            while i < video_params.len()
                invariant
                    i <= video_params.len(),
                    views(kept@) == without_prefix(views(video_params@).take(i as int), DENOISE_LEVEL@),
                decreases video_params.len() - i,
            {
                let p = video_params[i].as_str();
                proof {
                    assert(views(video_params@).take(i + 1).drop_last() =~= views(video_params@).take(i as int));
                    assert(views(video_params@).take(i + 1).last() == video_params@[i as int]@);
                }
                if !starts_with(p, DENOISE_LEVEL) {
                    kept.push(video_params[i].clone());
                }
                assert(views(kept@) =~= without_prefix(views(video_params@).take(i + 1), DENOISE_LEVEL@));
                i = i + 1;
            }
            proof {
                assert(views(video_params@).take(video_params@.len() as int) =~= views(video_params@));
            }
            kept.push(concat2(FILM_GRAIN_TABLE, table));
            assert(views(kept@) =~= without_prefix(views(old(video_params)@), DENOISE_LEVEL@).push(FILM_GRAIN_TABLE@ + table@));
            *video_params = kept;
            Ok(())
        },
        Encoder::svt_av1 => {
            replace_pair(video_params, FILM_GRAIN, FGS_TABLE, table);
            Ok(())
        },
        Encoder::rav1e => {
            replace_pair(video_params, PHOTON_NOISE, PHOTON_NOISE_TABLE, table);
            Ok(())
        },
        _ => Err(NoiseTableError::UnsupportedEncoder),
    }
}

/// The option names to check against the encoder's help: for aom and VPX,
/// which take `--option=value`, the part before `=` of each argument that
/// begins with `-`; none for the other encoders, whose values are separate
/// arguments.
pub open spec fn spec_params_to_validate(encoder: Encoder, params: Seq<Seq<char>>) -> Seq<Seq<char>>
    decreases params.len(),
{
    if params.len() == 0 || !(encoder == Encoder::aom || encoder == Encoder::vpx) {
        seq![]
    } else {
        let rest = spec_params_to_validate(encoder, params.drop_last());
        let p = params.last();
        if p.len() > 0 && p[0] == '-' {
            rest.push(before_char(p, '='))
        } else {
            rest
        }
    }
}

impl EncoderSettings {
    /// The option names among the video arguments that the encoder's help
    /// must list.
    pub fn params_to_validate(&self) -> (r: Vec<String>)
        ensures
            views(r@) == spec_params_to_validate(self.encoder, views(self.video_params@)),
    {
        let mut r: Vec<String> = Vec::new();
        if !(self.encoder == Encoder::aom || self.encoder == Encoder::vpx) {
            proof {
                if views(self.video_params@).len() > 0 {
                    assert(spec_params_to_validate(self.encoder, views(self.video_params@)) == Seq::<Seq<char>>::empty());
                }
            }
            assert(views(r@) =~= Seq::<Seq<char>>::empty());
            return r;
        }
        let mut i: usize = 0;
        while i < self.video_params.len()
            invariant
                i <= self.video_params.len(),
                self.encoder == Encoder::aom || self.encoder == Encoder::vpx,
                views(r@) == spec_params_to_validate(self.encoder, views(self.video_params@).take(i as int)),
            decreases self.video_params.len() - i,
        {
            let p = self.video_params[i].as_str();
            proof {
                assert(views(self.video_params@).take(i + 1).drop_last() =~= views(self.video_params@).take(i as int));
                assert(views(self.video_params@).take(i + 1).last() == self.video_params@[i as int]@);
            }
            if p.unicode_len() > 0 && p.get_char(0) == '-' {
                r.push(prefix_before(p, '='));
            }
            assert(views(r@) =~= spec_params_to_validate(self.encoder, views(self.video_params@).take(i + 1)));
            i = i + 1;
        }
        assert(views(self.video_params@).take(self.video_params@.len() as int) =~= views(self.video_params@));
        r
    }
}

} // verus!
