//! The colour and resizing parameters of VapourSynth's resize plugin, with
//! the numbers it expects (ITU-T H.273 for the colour descriptions).

use vstd::prelude::*;

verus! {

/// Matrix coefficients, as in ITU-T H.273.
#[derive(Debug, Clone, Copy, PartialEq, Eq, Structural)]
pub enum MatrixCoefficients {
    RGB,
    BT709,
    Unspecified,
    Reserved,
    FCC,
    BT470BG,
    ST170M,
    ST240M,
    YCgCo,
    BT2020NCL,
    BT2020CL,
    ST2085,
    ChromaticityDerivedNCL,
    ChromaticityDerivedCL,
    ICTCP,
    IPTPQC2,
    YCgCoRe,
    YCgCoRo,
}

/// The H.273 code of the matrix coefficients.
pub open spec fn spec_matrix_coefficients_value(v: MatrixCoefficients) -> i64 {
    match v {
        MatrixCoefficients::RGB => 0,
        MatrixCoefficients::BT709 => 1,
        MatrixCoefficients::Unspecified => 2,
        MatrixCoefficients::Reserved => 3,
        MatrixCoefficients::FCC => 4,
        MatrixCoefficients::BT470BG => 5,
        MatrixCoefficients::ST170M => 6,
        MatrixCoefficients::ST240M => 7,
        MatrixCoefficients::YCgCo => 8,
        MatrixCoefficients::BT2020NCL => 9,
        MatrixCoefficients::BT2020CL => 10,
        MatrixCoefficients::ST2085 => 11,
        MatrixCoefficients::ChromaticityDerivedNCL => 12,
        MatrixCoefficients::ChromaticityDerivedCL => 13,
        MatrixCoefficients::ICTCP => 14,
        MatrixCoefficients::IPTPQC2 => 15,
        MatrixCoefficients::YCgCoRe => 16,
        MatrixCoefficients::YCgCoRo => 17,
    }
}

impl MatrixCoefficients {
    /// The H.273 code of the matrix coefficients.
    pub fn as_int(&self) -> (r: i64)
        ensures
            r == spec_matrix_coefficients_value(*self),
    {
        match self {
            MatrixCoefficients::RGB => 0,
            MatrixCoefficients::BT709 => 1,
            MatrixCoefficients::Unspecified => 2,
            MatrixCoefficients::Reserved => 3,
            MatrixCoefficients::FCC => 4,
            MatrixCoefficients::BT470BG => 5,
            MatrixCoefficients::ST170M => 6,
            MatrixCoefficients::ST240M => 7,
            MatrixCoefficients::YCgCo => 8,
            MatrixCoefficients::BT2020NCL => 9,
            MatrixCoefficients::BT2020CL => 10,
            MatrixCoefficients::ST2085 => 11,
            MatrixCoefficients::ChromaticityDerivedNCL => 12,
            MatrixCoefficients::ChromaticityDerivedCL => 13,
            MatrixCoefficients::ICTCP => 14,
            MatrixCoefficients::IPTPQC2 => 15,
            MatrixCoefficients::YCgCoRe => 16,
            MatrixCoefficients::YCgCoRo => 17,
        }
    }
}
/// Transfer characteristics, as in ITU-T H.273.
#[derive(Debug, Clone, Copy, PartialEq, Eq, Structural)]
pub enum TransferCharacteristics {
    BT709,
    Unspecified,
    BT470M,
    BT470BG,
    BT601,
    ST240M,
    LINEAR,
    LOG100,
    LOG316,
    IEC6196624,
    IEC6196621,
    BT202010,
    BT202012,
    ST2084,
    ST428,
    ARIBB67,
}

/// The H.273 code of the transfer characteristics.
pub open spec fn spec_transfer_characteristics_value(v: TransferCharacteristics) -> i64 {
    match v {
        TransferCharacteristics::BT709 => 1,
        TransferCharacteristics::Unspecified => 2,
        TransferCharacteristics::BT470M => 3,
        TransferCharacteristics::BT470BG => 4,
        TransferCharacteristics::BT601 => 5,
        TransferCharacteristics::ST240M => 6,
        TransferCharacteristics::LINEAR => 7,
        TransferCharacteristics::LOG100 => 8,
        TransferCharacteristics::LOG316 => 9,
        TransferCharacteristics::IEC6196624 => 10,
        TransferCharacteristics::IEC6196621 => 11,
        TransferCharacteristics::BT202010 => 12,
        TransferCharacteristics::BT202012 => 13,
        TransferCharacteristics::ST2084 => 14,
        TransferCharacteristics::ST428 => 15,
        TransferCharacteristics::ARIBB67 => 16,
    }
}

impl TransferCharacteristics {
    /// The H.273 code of the transfer characteristics.
    pub fn as_int(&self) -> (r: i64)
        ensures
            r == spec_transfer_characteristics_value(*self),
    {
        match self {
            TransferCharacteristics::BT709 => 1,
            TransferCharacteristics::Unspecified => 2,
            TransferCharacteristics::BT470M => 3,
            TransferCharacteristics::BT470BG => 4,
            TransferCharacteristics::BT601 => 5,
            TransferCharacteristics::ST240M => 6,
            TransferCharacteristics::LINEAR => 7,
            TransferCharacteristics::LOG100 => 8,
            TransferCharacteristics::LOG316 => 9,
            TransferCharacteristics::IEC6196624 => 10,
            TransferCharacteristics::IEC6196621 => 11,
            TransferCharacteristics::BT202010 => 12,
            TransferCharacteristics::BT202012 => 13,
            TransferCharacteristics::ST2084 => 14,
            TransferCharacteristics::ST428 => 15,
            TransferCharacteristics::ARIBB67 => 16,
        }
    }
}
/// Colour primaries, as in ITU-T H.273.
#[derive(Debug, Clone, Copy, PartialEq, Eq, Structural)]
pub enum ColorPrimaries {
    BT709,
    Unspecified,
    BT470M,
    BT470BG,
    ST170M,
    ST240M,
    Film,
    BT2020,
    ST428,
    ST4312,
    ST4321,
    JedecP22,
}

/// The H.273 code of the colour primaries.
pub open spec fn spec_color_primaries_value(v: ColorPrimaries) -> i64 {
    match v {
        ColorPrimaries::BT709 => 1,
        ColorPrimaries::Unspecified => 2,
        ColorPrimaries::BT470M => 4,
        ColorPrimaries::BT470BG => 5,
        ColorPrimaries::ST170M => 6,
        ColorPrimaries::ST240M => 7,
        ColorPrimaries::Film => 8,
        ColorPrimaries::BT2020 => 9,
        ColorPrimaries::ST428 => 10,
        ColorPrimaries::ST4312 => 11,
        ColorPrimaries::ST4321 => 12,
        ColorPrimaries::JedecP22 => 22,
    }
}

impl ColorPrimaries {
    /// The H.273 code of the colour primaries.
    pub fn as_int(&self) -> (r: i64)
        ensures
            r == spec_color_primaries_value(*self),
    {
        match self {
            ColorPrimaries::BT709 => 1,
            ColorPrimaries::Unspecified => 2,
            ColorPrimaries::BT470M => 4,
            ColorPrimaries::BT470BG => 5,
            ColorPrimaries::ST170M => 6,
            ColorPrimaries::ST240M => 7,
            ColorPrimaries::Film => 8,
            ColorPrimaries::BT2020 => 9,
            ColorPrimaries::ST428 => 10,
            ColorPrimaries::ST4312 => 11,
            ColorPrimaries::ST4321 => 12,
            ColorPrimaries::JedecP22 => 22,
        }
    }
}
/// Limited or full sample range.
#[derive(Debug, Clone, Copy, PartialEq, Eq, Structural)]
pub enum Range {
    Limited,
    Full,
}

/// The code of the range.
pub open spec fn spec_range_value(v: Range) -> i64 {
    match v {
        Range::Limited => 0,
        Range::Full => 1,
    }
}

impl Range {
    /// The code of the range.
    pub fn as_int(&self) -> (r: i64)
        ensures
            r == spec_range_value(*self),
    {
        match self {
            Range::Limited => 0,
            Range::Full => 1,
        }
    }
}
/// Where chroma samples sit relative to luma samples.
#[derive(Debug, Clone, Copy, PartialEq, Eq, Structural)]
pub enum ChromaLocation {
    Left,
    Center,
    TopLeft,
    Top,
    BottomLeft,
    Bottom,
}

/// The code of the chroma location.
pub open spec fn spec_chroma_location_value(v: ChromaLocation) -> i64 {
    match v {
        ChromaLocation::Left => 0,
        ChromaLocation::Center => 1,
        ChromaLocation::TopLeft => 2,
        ChromaLocation::Top => 3,
        ChromaLocation::BottomLeft => 4,
        ChromaLocation::Bottom => 5,
    }
}

impl ChromaLocation {
    /// The code of the chroma location.
    pub fn as_int(&self) -> (r: i64)
        ensures
            r == spec_chroma_location_value(*self),
    {
        match self {
            ChromaLocation::Left => 0,
            ChromaLocation::Center => 1,
            ChromaLocation::TopLeft => 2,
            ChromaLocation::Top => 3,
            ChromaLocation::BottomLeft => 4,
            ChromaLocation::Bottom => 5,
        }
    }
}
/// How the resizer dithers when it lowers the bit depth.
#[derive(Debug, Clone, Copy, PartialEq, Eq, Structural)]
pub enum DitherType {
    NoDither,
    Ordered,
    Random,
    ErrorDiffusion,
}

/// The name VapourSynth scripts use for a dither type.
pub open spec fn spec_dither_type_name(v: DitherType) -> Seq<char> {
    match v {
        DitherType::NoDither => "none"@,
        DitherType::Ordered => "ordered"@,
        DitherType::Random => "random"@,
        DitherType::ErrorDiffusion => "error_diffusion"@,
    }
}

impl DitherType {
    /// The name VapourSynth scripts use for this value.
    pub fn name(&self) -> (r: &'static str)
        ensures
            r@ == spec_dither_type_name(*self),
    {
        match self {
            DitherType::NoDither => "none",
            DitherType::Ordered => "ordered",
            DitherType::Random => "random",
            DitherType::ErrorDiffusion => "error_diffusion",
        }
    }

    /// The position of this value in the list of dither types.
    pub fn as_int(&self) -> (r: i64)
        ensures
            r == match *self {
                DitherType::NoDither => 0i64,
                DitherType::Ordered => 1i64,
                DitherType::Random => 2i64,
                DitherType::ErrorDiffusion => 3i64,
            },
    {
        match self {
            DitherType::NoDither => 0,
            DitherType::Ordered => 1,
            DitherType::Random => 2,
            DitherType::ErrorDiffusion => 3,
        }
    }
}
} // verus!
