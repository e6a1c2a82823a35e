//! The rescaling filter chain: the kernels it descales and scales with, which
//! dimensions it descales, and the neural doubler with its model, with the
//! names the scripts use for them, and the script lines that run the chain.

use vstd::prelude::*;
use crate::text::{decimal_nat, u64_to_decimal};
use crate::text_map::TextMap;
use crate::vapoursynth::{Imports, Line};
use crate::vs_plugins::VapourSynthPluginScript;

verus! {

/// What a kernel reads beyond the picture border.
#[derive(Debug, Clone, Copy, PartialEq, Eq, Structural)]
pub enum BorderHandling {
    Mirror,
    Zero,
    Repeat,
}

/// The name VapourSynth scripts use for a border handling.
pub open spec fn spec_border_handling_name(v: BorderHandling) -> Seq<char> {
    match v {
        BorderHandling::Mirror => "MIRROR"@,
        BorderHandling::Zero => "ZERO"@,
        BorderHandling::Repeat => "REPEAT"@,
    }
}

impl BorderHandling {
    /// The name VapourSynth scripts use for this value.
    pub fn name(&self) -> (r: &'static str)
        ensures
            r@ == spec_border_handling_name(*self),
    {
        match self {
            BorderHandling::Mirror => "MIRROR",
            BorderHandling::Zero => "ZERO",
            BorderHandling::Repeat => "REPEAT",
        }
    }

    /// The number of this value in the plugin's list.
    pub fn as_int(&self) -> (r: i64)
        ensures
            r == match *self {
                BorderHandling::Mirror => 0i64,
                BorderHandling::Zero => 1i64,
                BorderHandling::Repeat => 2i64,
            },
    {
        match self {
            BorderHandling::Mirror => 0,
            BorderHandling::Zero => 1,
            BorderHandling::Repeat => 2,
        }
    }
}
impl Default for BorderHandling {
    fn default() -> (r: Self)
        ensures
            r == BorderHandling::Mirror,
    {
        BorderHandling::Mirror
    }
}

/// Which dimensions are descaled: width, height or both.
#[derive(Debug, Clone, Copy, PartialEq, Eq, Structural)]
pub enum DescaleMode {
    Width,
    Height,
    Both,
}

/// The name VapourSynth scripts use for a descale mode.
pub open spec fn spec_descale_mode_name(v: DescaleMode) -> Seq<char> {
    match v {
        DescaleMode::Width => "w"@,
        DescaleMode::Height => "h"@,
        DescaleMode::Both => "hw"@,
    }
}

impl DescaleMode {
    /// The name VapourSynth scripts use for this value.
    pub fn name(&self) -> (r: &'static str)
        ensures
            r@ == spec_descale_mode_name(*self),
            *self == DescaleMode::Width ==> r@ == "w"@,
            *self == DescaleMode::Height ==> r@ == "h"@,
            *self == DescaleMode::Both ==> r@ == "hw"@,
    {
        match self {
            DescaleMode::Width => "w",
            DescaleMode::Height => "h",
            DescaleMode::Both => "hw",
        }
    }


}
impl Default for DescaleMode {
    fn default() -> (r: Self)
        ensures
            r == DescaleMode::Both,
    {
        DescaleMode::Both
    }
}

/// The models of the ArtCNN doubler.
#[derive(Debug, Clone, Copy, PartialEq, Eq, Structural)]
pub enum ArtCNNModel {
    C4F32,
    C4F32DS,
    C16F64,
    C16F64DS,
    R16F96,
    R8F64,
    R8F64DS,
    R8F64Chroma,
    C4F16,
    C4F16DS,
    R16F96Chroma,
}

/// The name VapourSynth scripts use for an ArtCNN model.
pub open spec fn spec_artcnn_model_name(v: ArtCNNModel) -> Seq<char> {
    match v {
        ArtCNNModel::C4F32 => "C4F32"@,
        ArtCNNModel::C4F32DS => "C4F32_DS"@,
        ArtCNNModel::C16F64 => "C16F64"@,
        ArtCNNModel::C16F64DS => "C16F64_DS"@,
        ArtCNNModel::R16F96 => "R16F96"@,
        ArtCNNModel::R8F64 => "R8F64"@,
        ArtCNNModel::R8F64DS => "R8F64_DS"@,
        ArtCNNModel::R8F64Chroma => "R8F64_Chroma"@,
        ArtCNNModel::C4F16 => "C4F16"@,
        ArtCNNModel::C4F16DS => "C4F16_DS"@,
        ArtCNNModel::R16F96Chroma => "R16F96_Chroma"@,
    }
}

impl ArtCNNModel {
    /// The name VapourSynth scripts use for this value.
    pub fn name(&self) -> (r: &'static str)
        ensures
            r@ == spec_artcnn_model_name(*self),
    {
        match self {
            ArtCNNModel::C4F32 => "C4F32",
            ArtCNNModel::C4F32DS => "C4F32_DS",
            ArtCNNModel::C16F64 => "C16F64",
            ArtCNNModel::C16F64DS => "C16F64_DS",
            ArtCNNModel::R16F96 => "R16F96",
            ArtCNNModel::R8F64 => "R8F64",
            ArtCNNModel::R8F64DS => "R8F64_DS",
            ArtCNNModel::R8F64Chroma => "R8F64_Chroma",
            ArtCNNModel::C4F16 => "C4F16",
            ArtCNNModel::C4F16DS => "C4F16_DS",
            ArtCNNModel::R16F96Chroma => "R16F96_Chroma",
        }
    }


}
impl Default for ArtCNNModel {
    fn default() -> (r: Self)
        ensures
            r == ArtCNNModel::R8F64,
    {
        ArtCNNModel::R8F64
    }
}

/// The models of the Waifu2x doubler.
#[derive(Debug, Clone, Copy, PartialEq, Eq, Structural)]
pub enum Waifu2xModel {
    AnimeStyleArt,
    AnimeStyleArtRGB,
    Photo,
    UpConv7AnimeStyleArt,
    UpConv7Photo,
    UpResNet10,
    Cunet,
    SwinUnetArt,
    SwinUnetPhoto,
    SwinUnetPhotoV2,
    SwinUnetArtScan,
}

/// The name VapourSynth scripts use for a waifu2x model.
pub open spec fn spec_waifu2x_model_name(v: Waifu2xModel) -> Seq<char> {
    match v {
        Waifu2xModel::AnimeStyleArt => "AnimeStyleArt"@,
        Waifu2xModel::AnimeStyleArtRGB => "AnimeStyleArtRGB"@,
        Waifu2xModel::Photo => "Photo"@,
        Waifu2xModel::UpConv7AnimeStyleArt => "UpConv7AnimeStyleArt"@,
        Waifu2xModel::UpConv7Photo => "UpConv7Photo"@,
        Waifu2xModel::UpResNet10 => "UpResNet10"@,
        Waifu2xModel::Cunet => "Cunet"@,
        Waifu2xModel::SwinUnetArt => "SwimUnetArt"@,
        Waifu2xModel::SwinUnetPhoto => "SwimUnetPhoto"@,
        Waifu2xModel::SwinUnetPhotoV2 => "SwimUnetPhotoV2"@,
        Waifu2xModel::SwinUnetArtScan => "SwimUnetArtScan"@,
    }
}

impl Waifu2xModel {
    /// The name VapourSynth scripts use for this value.
    pub fn name(&self) -> (r: &'static str)
        ensures
            r@ == spec_waifu2x_model_name(*self),
    {
        match self {
            Waifu2xModel::AnimeStyleArt => "AnimeStyleArt",
            Waifu2xModel::AnimeStyleArtRGB => "AnimeStyleArtRGB",
            Waifu2xModel::Photo => "Photo",
            Waifu2xModel::UpConv7AnimeStyleArt => "UpConv7AnimeStyleArt",
            Waifu2xModel::UpConv7Photo => "UpConv7Photo",
            Waifu2xModel::UpResNet10 => "UpResNet10",
            Waifu2xModel::Cunet => "Cunet",
            Waifu2xModel::SwinUnetArt => "SwimUnetArt",
            Waifu2xModel::SwinUnetPhoto => "SwimUnetPhoto",
            Waifu2xModel::SwinUnetPhotoV2 => "SwimUnetPhotoV2",
            Waifu2xModel::SwinUnetArtScan => "SwimUnetArtScan",
        }
    }


}
impl Default for Waifu2xModel {
    fn default() -> (r: Self)
        ensures
            r == Waifu2xModel::Cunet,
    {
        Waifu2xModel::Cunet
    }
}

/// The neural network that doubles the resolution, with its model.
#[derive(Debug, Clone, Copy, PartialEq, Eq, Structural)]
pub enum Doubler {
    ArtCNN(ArtCNNModel),
    Waifu2x(Waifu2xModel),
}

/// The name scripts use for a doubler.
pub open spec fn spec_doubler_name(d: Doubler) -> Seq<char> {
    match d {
        Doubler::ArtCNN(_) => "ArtCNN"@,
        Doubler::Waifu2x(_) => "Waifu2x"@,
    }
}

impl Doubler {
    /// The name scripts use for this doubler.
    pub fn name(&self) -> (r: &'static str)
        ensures
            r@ == spec_doubler_name(*self),
    {
        match self {
            Doubler::ArtCNN(_) => "ArtCNN",
            Doubler::Waifu2x(_) => "Waifu2x",
        }
    }
}

impl Default for Doubler {
    fn default() -> (r: Self)
        ensures
            r == Doubler::ArtCNN(ArtCNNModel::R8F64),
    {
        Doubler::ArtCNN(ArtCNNModel::R8F64)
    }
}

/// A kernel of the vs-kernels package, with the settings it is called with.
/// The parameters `b` and `c` of the Bicubic kernels are held as the decimal
/// text written into the script.
#[derive(Debug, Clone, PartialEq, Eq)]
pub enum VSJETKernel {
    Bicubic { b: String, c: String, linear: bool, border_handling: BorderHandling },
    BSpline { linear: bool, border_handling: BorderHandling },
    Hermite { linear: bool, border_handling: BorderHandling },
    Mitchell { linear: bool, border_handling: BorderHandling },
    Catrom { linear: bool, border_handling: BorderHandling },
    FFmpegBicubic { linear: bool, border_handling: BorderHandling },
    AdobeBicubic { linear: bool, border_handling: BorderHandling },
    AdobeBicubicSharper { linear: bool, border_handling: BorderHandling },
    AdobeBicubicSmoother { linear: bool, border_handling: BorderHandling },
    BicubicSharp { linear: bool, border_handling: BorderHandling },
    RobidouxSoft { linear: bool, border_handling: BorderHandling },
    Robidoux { linear: bool, border_handling: BorderHandling },
    RobidouxSharp { linear: bool, border_handling: BorderHandling },
    BicubicAuto { b: Option<String>, c: Option<String>, linear: bool, border_handling: BorderHandling },
    Spline16 { linear: bool, border_handling: BorderHandling },
    Spline36 { linear: bool, border_handling: BorderHandling },
    Spline64 { linear: bool, border_handling: BorderHandling },
    Bilinear { linear: bool, border_handling: BorderHandling },
    Lanczos { taps: Option<u32>, linear: bool, border_handling: BorderHandling },
    Point { linear: bool, border_handling: BorderHandling },
}

/// The name vs-kernels gives a kernel.
pub open spec fn spec_kernel_name(k: VSJETKernel) -> Seq<char> {
    match k {
        VSJETKernel::Bicubic { .. } => "Bicubic"@,
        VSJETKernel::BSpline { .. } => "BSpline"@,
        VSJETKernel::Hermite { .. } => "Hermite"@,
        VSJETKernel::Mitchell { .. } => "Mitchell"@,
        VSJETKernel::Catrom { .. } => "Catrom"@,
        VSJETKernel::FFmpegBicubic { .. } => "FFmpegBicubic"@,
        VSJETKernel::AdobeBicubic { .. } => "AdobeBicubic"@,
        VSJETKernel::AdobeBicubicSharper { .. } => "AdobeBicubicSharper"@,
        VSJETKernel::AdobeBicubicSmoother { .. } => "AdobeBicubicSmoother"@,
        VSJETKernel::BicubicSharp { .. } => "BicubicSharp"@,
        VSJETKernel::RobidouxSoft { .. } => "RobidouxSoft"@,
        VSJETKernel::Robidoux { .. } => "Robidoux"@,
        VSJETKernel::RobidouxSharp { .. } => "RobidouxSharp"@,
        VSJETKernel::BicubicAuto { .. } => "BicubicAuto"@,
        VSJETKernel::Spline16 { .. } => "Spline16"@,
        VSJETKernel::Spline36 { .. } => "Spline36"@,
        VSJETKernel::Spline64 { .. } => "Spline64"@,
        VSJETKernel::Bilinear { .. } => "Bilinear"@,
        VSJETKernel::Lanczos { .. } => "Lanczos"@,
        VSJETKernel::Point { .. } => "Point"@,
    }
}

/// Whether a kernel works in linear light, and how it handles borders.
pub open spec fn spec_kernel_settings(k: VSJETKernel) -> (bool, BorderHandling) {
    match k {
        VSJETKernel::Bicubic { linear, border_handling, .. } => (linear, border_handling),
        VSJETKernel::BSpline { linear, border_handling } => (linear, border_handling),
        VSJETKernel::Hermite { linear, border_handling } => (linear, border_handling),
        VSJETKernel::Mitchell { linear, border_handling } => (linear, border_handling),
        VSJETKernel::Catrom { linear, border_handling } => (linear, border_handling),
        VSJETKernel::FFmpegBicubic { linear, border_handling } => (linear, border_handling),
        VSJETKernel::AdobeBicubic { linear, border_handling } => (linear, border_handling),
        VSJETKernel::AdobeBicubicSharper { linear, border_handling } => (linear, border_handling),
        VSJETKernel::AdobeBicubicSmoother { linear, border_handling } => (linear, border_handling),
        VSJETKernel::BicubicSharp { linear, border_handling } => (linear, border_handling),
        VSJETKernel::RobidouxSoft { linear, border_handling } => (linear, border_handling),
        VSJETKernel::Robidoux { linear, border_handling } => (linear, border_handling),
        VSJETKernel::RobidouxSharp { linear, border_handling } => (linear, border_handling),
        VSJETKernel::BicubicAuto { linear, border_handling, .. } => (linear, border_handling),
        VSJETKernel::Spline16 { linear, border_handling } => (linear, border_handling),
        VSJETKernel::Spline36 { linear, border_handling } => (linear, border_handling),
        VSJETKernel::Spline64 { linear, border_handling } => (linear, border_handling),
        VSJETKernel::Bilinear { linear, border_handling } => (linear, border_handling),
        VSJETKernel::Lanczos { linear, border_handling, .. } => (linear, border_handling),
        VSJETKernel::Point { linear, border_handling } => (linear, border_handling),
    }
}

/// `True` or `False`, as Python writes them.
pub open spec fn python_bool(b: bool) -> Seq<char> {
    if b {
        "True"@
    } else {
        "False"@
    }
}

/// `linear = <True|False>, border_handling = BorderHandling.<name>)`, the
/// settings every kernel call ends with.
pub open spec fn kernel_settings_text(linear: bool, border_handling: BorderHandling) -> Seq<char> {
    "linear = "@ + python_bool(linear) + ", border_handling = BorderHandling."@ + spec_border_handling_name(
        border_handling,
    ) + ")"@
}

/// `<name> = <value>, ` for a value that is given, nothing otherwise.
pub open spec fn optional_setting(name: Seq<char>, value: Option<Seq<char>>) -> Seq<char> {
    match value {
        Some(v) => name + " = "@ + v + ", "@,
        None => Seq::empty(),
    }
}

/// The text of an optional string.
pub open spec fn optional_text(value: Option<String>) -> Option<Seq<char>> {
    match value {
        Some(v) => Some(v@),
        None => None,
    }
}

/// What a kernel call writes before its closing settings: its name and an
/// opening bracket, then `b` and `c` for Bicubic, the given `b` and `c` for
/// BicubicAuto, and the given taps for Lanczos.
pub open spec fn kernel_command_head(k: VSJETKernel) -> Seq<char> {
    let name = spec_kernel_name(k);
    match k {
        VSJETKernel::Bicubic { b, c, .. } => name + "(b = "@ + b@ + ", c = "@ + c@ + ", "@,
        VSJETKernel::BicubicAuto { b, c, .. } => name + "("@ + optional_setting("b"@, optional_text(b))
            + optional_setting("c"@, optional_text(c)),
        VSJETKernel::Lanczos { taps, .. } => name + "("@ + optional_setting(
            "taps"@,
            match taps {
                Some(t) => Some(decimal_nat(t as nat)),
                None => None,
            },
        ),
        _ => name + "("@,
    }
}

/// The call that creates a kernel: its head, then whether it works in
/// linear light and how it handles borders.
pub open spec fn spec_kernel_command(k: VSJETKernel) -> Seq<char> {
    kernel_command_head(k) + kernel_settings_text(spec_kernel_settings(k).0, spec_kernel_settings(k).1)
}

/// The modules a kernel call needs from vs-kernels: the kernel and
/// `BorderHandling`, without aliases.
pub open spec fn kernel_modules(k: VSJETKernel) -> Map<Seq<char>, Option<String>> {
    map![spec_kernel_name(k) => None::<String>, "BorderHandling"@ => None::<String>]
}

fn push_str(r: &mut String, s: &str)
    ensures
        final(r)@ == old(r)@ + s@,
{
    r.append(s);
}

impl VSJETKernel {
    /// The name vs-kernels gives this kernel.
    pub fn name(&self) -> (r: &'static str)
        ensures
            r@ == spec_kernel_name(*self),
    {
        match self {
            VSJETKernel::Bicubic { .. } => "Bicubic",
            VSJETKernel::BSpline { .. } => "BSpline",
            VSJETKernel::Hermite { .. } => "Hermite",
            VSJETKernel::Mitchell { .. } => "Mitchell",
            VSJETKernel::Catrom { .. } => "Catrom",
            VSJETKernel::FFmpegBicubic { .. } => "FFmpegBicubic",
            VSJETKernel::AdobeBicubic { .. } => "AdobeBicubic",
            VSJETKernel::AdobeBicubicSharper { .. } => "AdobeBicubicSharper",
            VSJETKernel::AdobeBicubicSmoother { .. } => "AdobeBicubicSmoother",
            VSJETKernel::BicubicSharp { .. } => "BicubicSharp",
            VSJETKernel::RobidouxSoft { .. } => "RobidouxSoft",
            VSJETKernel::Robidoux { .. } => "Robidoux",
            VSJETKernel::RobidouxSharp { .. } => "RobidouxSharp",
            VSJETKernel::BicubicAuto { .. } => "BicubicAuto",
            VSJETKernel::Spline16 { .. } => "Spline16",
            VSJETKernel::Spline36 { .. } => "Spline36",
            VSJETKernel::Spline64 { .. } => "Spline64",
            VSJETKernel::Bilinear { .. } => "Bilinear",
            VSJETKernel::Lanczos { .. } => "Lanczos",
            VSJETKernel::Point { .. } => "Point",
        }
    }

    /// Whether this kernel works in linear light, and how it handles
    /// borders.
    pub fn settings(&self) -> (r: (bool, BorderHandling))
        ensures
            r == spec_kernel_settings(*self),
    {
        match self {
            VSJETKernel::Bicubic { linear, border_handling, .. } => (*linear, *border_handling),
            VSJETKernel::BSpline { linear, border_handling } => (*linear, *border_handling),
            VSJETKernel::Hermite { linear, border_handling } => (*linear, *border_handling),
            VSJETKernel::Mitchell { linear, border_handling } => (*linear, *border_handling),
            VSJETKernel::Catrom { linear, border_handling } => (*linear, *border_handling),
            VSJETKernel::FFmpegBicubic { linear, border_handling } => (*linear, *border_handling),
            VSJETKernel::AdobeBicubic { linear, border_handling } => (*linear, *border_handling),
            VSJETKernel::AdobeBicubicSharper { linear, border_handling } => (*linear, *border_handling),
            VSJETKernel::AdobeBicubicSmoother { linear, border_handling } => (*linear, *border_handling),
            VSJETKernel::BicubicSharp { linear, border_handling } => (*linear, *border_handling),
            VSJETKernel::RobidouxSoft { linear, border_handling } => (*linear, *border_handling),
            VSJETKernel::Robidoux { linear, border_handling } => (*linear, *border_handling),
            VSJETKernel::RobidouxSharp { linear, border_handling } => (*linear, *border_handling),
            VSJETKernel::BicubicAuto { linear, border_handling, .. } => (*linear, *border_handling),
            VSJETKernel::Spline16 { linear, border_handling } => (*linear, *border_handling),
            VSJETKernel::Spline36 { linear, border_handling } => (*linear, *border_handling),
            VSJETKernel::Spline64 { linear, border_handling } => (*linear, *border_handling),
            VSJETKernel::Bilinear { linear, border_handling } => (*linear, *border_handling),
            VSJETKernel::Lanczos { linear, border_handling, .. } => (*linear, *border_handling),
            VSJETKernel::Point { linear, border_handling } => (*linear, *border_handling),
        }
    }
}

impl Default for VSJETKernel {
    fn default() -> (r: Self)
        ensures
            r matches VSJETKernel::Bicubic { b, c, linear, border_handling } && b@ == "0"@ && c@ == "0.5"@
                && !linear && border_handling == BorderHandling::Mirror,
    {
        VSJETKernel::Bicubic {
            b: "0".to_owned(),
            c: "0.5".to_owned(),
            linear: false,
            border_handling: BorderHandling::Mirror,
        }
    }
}

/// The name scripts use for the model of a doubler.
pub open spec fn spec_doubler_model_name(d: Doubler) -> Seq<char> {
    match d {
        Doubler::ArtCNN(m) => spec_artcnn_model_name(m),
        Doubler::Waifu2x(m) => spec_waifu2x_model_name(m),
    }
}

/// `<doubler>.<model>`, the doubler argument of the chain.
pub open spec fn doubler_command(d: Doubler) -> Seq<char> {
    spec_doubler_name(d) + "."@ + spec_doubler_model_name(d)
}

/// The module a doubler needs from vsscale: the doubler, without alias.
pub open spec fn doubler_modules(d: Doubler) -> Map<Seq<char>, Option<String>> {
    map![spec_doubler_name(d) => None::<String>]
}

/// The rescaling chain of vodesfunc: descale with a kernel to a size
/// (optionally a fractional one over a padded base size, and optionally in
/// one dimension only), double with a neural network, mask errors and lines,
/// and scale back down with a kernel. The target width and height are held
/// as the decimal text written into the script.
pub struct RescaleBuilder {
    pub descale_kernel: VSJETKernel,
    pub height: String,
    pub width: String,
    pub base_height: Option<u32>,
    pub base_width: Option<u32>,
    pub mode: Option<DescaleMode>,
    pub downscale_kernel: VSJETKernel,
    pub doubler: Doubler,
}

impl Default for RescaleBuilder {
    fn default() -> (r: Self)
        ensures
            r.width@ == "1280"@,
            r.height@ == "720"@,
            r.base_width is None,
            r.base_height is None,
            r.descale_kernel == (VSJETKernel::Bilinear { linear: false, border_handling: BorderHandling::Mirror }),
            r.mode == Some(DescaleMode::Both),
            r.doubler == Doubler::ArtCNN(ArtCNNModel::R8F64),
            r.downscale_kernel == (VSJETKernel::Hermite { linear: true, border_handling: BorderHandling::Mirror }),
    {
        RescaleBuilder {
            width: "1280".to_owned(),
            height: "720".to_owned(),
            base_width: None,
            base_height: None,
            descale_kernel: VSJETKernel::Bilinear { border_handling: BorderHandling::default(), linear: false },
            mode: Some(DescaleMode::default()),
            doubler: Doubler::ArtCNN(ArtCNNModel::R8F64),
            downscale_kernel: VSJETKernel::Hermite { linear: true, border_handling: BorderHandling::Mirror },
        }
    }
}

impl RescaleBuilder {
    /// The modules a kernel needs and the call that creates it.
    pub fn kernel_details(kernel: &VSJETKernel) -> (r: (TextMap<Option<String>>, String))
        ensures
            r.0@ == kernel_modules(*kernel),
            r.1@ == spec_kernel_command(*kernel),
    {
        let name = kernel.name();
        let (linear, border_handling) = kernel.settings();
        let mut modules: TextMap<Option<String>> = TextMap::new();
        modules.insert(name.to_owned(), None);
        modules.insert("BorderHandling".to_owned(), None);
        assert(modules@ =~= kernel_modules(*kernel));
        let mut command = String::new();
        match kernel {
            VSJETKernel::Bicubic { b, c, .. } => {
                push_str(&mut command, name);
                push_str(&mut command, "(b = ");
                push_str(&mut command, b.as_str());
                push_str(&mut command, ", c = ");
                push_str(&mut command, c.as_str());
                push_str(&mut command, ", ");
                assert(command@ =~= kernel_command_head(*kernel));
            },
            VSJETKernel::BicubicAuto { b, c, .. } => {
                push_str(&mut command, name);
                push_str(&mut command, "(");
                let ghost before_b = command@;
                if let Some(bv) = b {
                    push_str(&mut command, "b");
                    push_str(&mut command, " = ");
                    push_str(&mut command, bv.as_str());
                    push_str(&mut command, ", ");
                }
                assert(command@ =~= before_b + optional_setting("b"@, optional_text(*b)));
                let ghost before_c = command@;
                if let Some(cv) = c {
                    push_str(&mut command, "c");
                    push_str(&mut command, " = ");
                    push_str(&mut command, cv.as_str());
                    push_str(&mut command, ", ");
                }
                assert(command@ =~= before_c + optional_setting("c"@, optional_text(*c)));
                assert(command@ =~= kernel_command_head(*kernel));
            },
            VSJETKernel::Lanczos { taps, .. } => {
                push_str(&mut command, name);
                push_str(&mut command, "(");
                let ghost before_taps = command@;
                if let Some(t) = taps {
                    push_str(&mut command, "taps");
                    push_str(&mut command, " = ");
                    let digits = u64_to_decimal(*t as u64);
                    push_str(&mut command, digits.as_str());
                    push_str(&mut command, ", ");
                }
                assert(command@ =~= before_taps + optional_setting(
                    "taps"@,
                    match *taps {
                        Some(t) => Some(decimal_nat(t as nat)),
                        None => None,
                    },
                ));
                assert(command@ =~= kernel_command_head(*kernel));
            },
            _ => {
                push_str(&mut command, name);
                push_str(&mut command, "(");
                assert(command@ =~= kernel_command_head(*kernel));
            },
        }
        let ghost head = command@;
        push_str(&mut command, "linear = ");
        push_str(&mut command, if linear { "True" } else { "False" });
        push_str(&mut command, ", border_handling = BorderHandling.");
        push_str(&mut command, border_handling.name());
        push_str(&mut command, ")");
        assert(command@ =~= head + kernel_settings_text(linear, border_handling));
        (modules, command)
    }

    /// The module a doubler needs and the argument that selects it.
    pub fn doubler_details(doubler: &Doubler) -> (r: (TextMap<Option<String>>, String))
        ensures
            r.0@ == doubler_modules(*doubler),
            r.1@ == doubler_command(*doubler),
    {
        let name = doubler.name();
        let mut modules: TextMap<Option<String>> = TextMap::new();
        modules.insert(name.to_owned(), None);
        assert(modules@ =~= doubler_modules(*doubler));
        let mut command = String::new();
        push_str(&mut command, name);
        push_str(&mut command, ".");
        match doubler {
            Doubler::ArtCNN(model) => push_str(&mut command, model.name()),
            Doubler::Waifu2x(model) => push_str(&mut command, model.name()),
        }
        assert(command@ =~= doubler_command(*doubler));
        (modules, command)
    }
}

/// `, <name> = <number>` for a number that is given, nothing otherwise.
pub open spec fn optional_number_argument(name: Seq<char>, value: Option<u32>) -> Seq<char> {
    match value {
        Some(v) => ", "@ + name + " = "@ + decimal_nat(v as nat),
        None => Seq::empty(),
    }
}

/// The descale step: the descale kernel, the base width and height when
/// given, the target width and height, and the mode when given.
pub open spec fn descale_call(s: RescaleBuilder) -> Seq<char> {
    "rescale_builder.descale(kernel = "@ + spec_kernel_command(s.descale_kernel) + optional_number_argument(
        "base_width"@,
        s.base_width,
    ) + optional_number_argument("base_height"@, s.base_height) + ", width = "@ + s.width@ + ", height = "@
        + s.height@ + match s.mode {
        Some(m) => ", mode = "@ + spec_descale_mode_name(m),
        None => Seq::empty(),
    } + ")"@
}

/// The descale call names the dimension it descales last: it ends with
/// `mode = w)` for the width, `mode = h)` for the height and `mode = hw)`
/// for both.
pub proof fn lemma_descale_mode_text(s: RescaleBuilder)
    ensures
        s.mode == Some(DescaleMode::Width) ==> exists|head: Seq<char>| descale_call(s) == head + ", mode = w)"@,
        s.mode == Some(DescaleMode::Height) ==> exists|head: Seq<char>| descale_call(s) == head + ", mode = h)"@,
        s.mode == Some(DescaleMode::Both) ==> exists|head: Seq<char>| descale_call(s) == head + ", mode = hw)"@,
{
    let head = "rescale_builder.descale(kernel = "@ + spec_kernel_command(s.descale_kernel)
        + optional_number_argument("base_width"@, s.base_width) + optional_number_argument(
        "base_height"@,
        s.base_height,
    ) + ", width = "@ + s.width@ + ", height = "@ + s.height@;
    reveal_strlit(", mode = ");
    reveal_strlit(")");
    reveal_strlit("w");
    reveal_strlit("h");
    reveal_strlit("hw");
    reveal_strlit(", mode = w)");
    reveal_strlit(", mode = h)");
    reveal_strlit(", mode = hw)");
    if s.mode == Some(DescaleMode::Width) {
        assert(descale_call(s) =~= head + ", mode = w)"@);
    }
    if s.mode == Some(DescaleMode::Height) {
        assert(descale_call(s) =~= head + ", mode = h)"@);
    }
    if s.mode == Some(DescaleMode::Both) {
        assert(descale_call(s) =~= head + ", mode = hw)"@);
    }
}

/// The lines of the chain on clip `node`, as (variable, value) pairs: build
/// it, descale, double, mask errors and lines, scale down, and take the
/// final clips, the second of which replaces `node`.
pub open spec fn rescale_lines(s: RescaleBuilder, node: Seq<char>) -> Seq<(Seq<char>, Seq<char>)> {
    seq![
        ("rescale_builder"@, "RescaleBuilder("@ + node + ")"@),
        ("rescale_builder"@, descale_call(s)),
        ("rescale_builder"@, "rescale_builder.double("@ + doubler_command(s.doubler) + ")"@),
        ("rescale_builder"@, "rescale_builder.errormask()"@),
        ("rescale_builder"@, "rescale_builder.linemask()"@),
        ("rescale_builder"@, "rescale_builder.downscale(downscaler = "@ + spec_kernel_command(s.downscale_kernel)
            + ")"@),
        ("rescale_builder_final"@, "rescale_builder.final()"@),
        ("rescale_builder"@, "rescale_builder_final[0]"@),
        (node, "rescale_builder_final[1]"@),
    ]
}

/// Whether `line` assigns `value` to `name`.
pub open spec fn assigns(line: Line, name: Seq<char>, value: Seq<char>) -> bool {
    line matches Line::Expression(n, v) && n@ == name && v@ == value
}

/// The imports of the chain: `RescaleBuilder` from vodesfunc, the modules
/// of both kernels from vs-kernels, and the doubler from vsscale.
pub open spec fn rescale_imports(imports: Imports, s: RescaleBuilder) -> bool {
    &&& imports@.dom() == set!["vodesfunc"@, "vskernels"@, "vsscale"@]
    &&& imports@["vodesfunc"@]@ == map!["RescaleBuilder"@ => None::<String>]
    &&& imports@["vskernels"@]@ == kernel_modules(s.descale_kernel).union_prefer_right(
        kernel_modules(s.downscale_kernel),
    )
    &&& imports@["vsscale"@]@ == doubler_modules(s.doubler)
}

impl VapourSynthPluginScript for RescaleBuilder {
    /// The lines that run the chain on `node_name`, with their imports.
    fn generate_script(&self, node_name: String) -> (r: (Option<Imports>, Vec<Line>))
        ensures
            r.0 matches Some(imports) && rescale_imports(imports, *self),
            r.1@.len() == 9,
            forall|i: int|
                0 <= i < 9 ==> assigns(
                    #[trigger] r.1@[i],
                    rescale_lines(*self, node_name@)[i].0,
                    rescale_lines(*self, node_name@)[i].1,
                ),
    {
        let mut imports: Imports = TextMap::new();
        let mut builder_modules: TextMap<Option<String>> = TextMap::new();
        builder_modules.insert("RescaleBuilder".to_owned(), None);
        let ghost builder_view = builder_modules@;
        assert(builder_view =~= map!["RescaleBuilder"@ => None::<String>]);
        imports.insert("vodesfunc".to_owned(), builder_modules);
        let (descale_modules, descale_command) = Self::kernel_details(&self.descale_kernel);
        let (downscale_modules, downscale_command) = Self::kernel_details(&self.downscale_kernel);
        let (doubler_module, doubler_argument) = Self::doubler_details(&self.doubler);
        let mut kernels: TextMap<Option<String>> = TextMap::new();
        kernels.extend(descale_modules);
        kernels.extend(downscale_modules);
        assert(kernels@ =~= kernel_modules(self.descale_kernel).union_prefer_right(
            kernel_modules(self.downscale_kernel),
        ));
        let ghost kernels_view = kernels@;
        imports.insert("vskernels".to_owned(), kernels);
        let mut scalers: TextMap<Option<String>> = TextMap::new();
        scalers.extend(doubler_module);
        assert(scalers@ =~= doubler_modules(self.doubler));
        let ghost scalers_view = scalers@;
        imports.insert("vsscale".to_owned(), scalers);
        proof {
            reveal_strlit("vodesfunc");
            reveal_strlit("vskernels");
            reveal_strlit("vsscale");
            assert("vodesfunc"@ != "vskernels"@ && "vodesfunc"@ != "vsscale"@ && "vskernels"@ != "vsscale"@) by {
                assert("vodesfunc"@[1] != "vskernels"@[1]);
                assert("vodesfunc"@.len() != "vsscale"@.len());
                assert("vskernels"@.len() != "vsscale"@.len());
            }
        }
        assert(imports@.dom() =~= set!["vodesfunc"@, "vskernels"@, "vsscale"@]);
        assert(imports@["vodesfunc"@]@ == builder_view);
        assert(imports@["vskernels"@]@ == kernels_view);
        assert(imports@["vsscale"@]@ == scalers_view);

        let mut build = String::new();
        push_str(&mut build, "RescaleBuilder(");
        push_str(&mut build, node_name.as_str());
        push_str(&mut build, ")");

        let mut descale = String::new();
        push_str(&mut descale, "rescale_builder.descale(kernel = ");
        push_str(&mut descale, descale_command.as_str());
        let ghost after_kernel = descale@;
        if let Some(w) = self.base_width {
            push_str(&mut descale, ", ");
            push_str(&mut descale, "base_width");
            push_str(&mut descale, " = ");
            let digits = u64_to_decimal(w as u64);
            push_str(&mut descale, digits.as_str());
        }
        assert(descale@ =~= after_kernel + optional_number_argument("base_width"@, self.base_width));
        let ghost after_width = descale@;
        if let Some(h) = self.base_height {
            push_str(&mut descale, ", ");
            push_str(&mut descale, "base_height");
            push_str(&mut descale, " = ");
            let digits = u64_to_decimal(h as u64);
            push_str(&mut descale, digits.as_str());
        }
        assert(descale@ =~= after_width + optional_number_argument("base_height"@, self.base_height));
        push_str(&mut descale, ", width = ");
        push_str(&mut descale, self.width.as_str());
        push_str(&mut descale, ", height = ");
        push_str(&mut descale, self.height.as_str());
        let ghost after_size = descale@;
        if let Some(m) = self.mode {
            push_str(&mut descale, ", mode = ");
            push_str(&mut descale, m.name());
        }
        assert(descale@ =~= after_size + match self.mode {
            Some(m) => ", mode = "@ + spec_descale_mode_name(m),
            None => Seq::empty(),
        });
        push_str(&mut descale, ")");
        assert(descale@ =~= descale_call(*self));

        let mut double = String::new();
        push_str(&mut double, "rescale_builder.double(");
        push_str(&mut double, doubler_argument.as_str());
        push_str(&mut double, ")");

        let mut downscale = String::new();
        push_str(&mut downscale, "rescale_builder.downscale(downscaler = ");
        push_str(&mut downscale, downscale_command.as_str());
        push_str(&mut downscale, ")");

        let ghost node = node_name@;
        let mut lines: Vec<Line> = Vec::new();
        lines.push(Line::Expression("rescale_builder".to_owned(), build));
        lines.push(Line::Expression("rescale_builder".to_owned(), descale));
        lines.push(Line::Expression("rescale_builder".to_owned(), double));
        lines.push(Line::Expression("rescale_builder".to_owned(), "rescale_builder.errormask()".to_owned()));
        lines.push(Line::Expression("rescale_builder".to_owned(), "rescale_builder.linemask()".to_owned()));
        lines.push(Line::Expression("rescale_builder".to_owned(), downscale));
        lines.push(Line::Expression("rescale_builder_final".to_owned(), "rescale_builder.final()".to_owned()));
        lines.push(Line::Expression("rescale_builder".to_owned(), "rescale_builder_final[0]".to_owned()));
        lines.push(Line::Expression(node_name, "rescale_builder_final[1]".to_owned()));
        assert forall|i: int| 0 <= i < 9 implies assigns(
            #[trigger] lines@[i],
            rescale_lines(*self, node)[i].0,
            rescale_lines(*self, node)[i].1,
        ) by {
            if i == 0 {
            } else if i == 1 {
            } else if i == 2 {
            } else if i == 3 {
            } else if i == 4 {
            } else if i == 5 {
            } else if i == 6 {
            } else if i == 7 {
            } else {
            }
        }
        (Some(imports), lines)
    }
}

} // verus!
