//! Film-grain tables for photon noise: the grain parameters that
//! `av1-grain` generates for an ISO strength and frame size, adjusted by the
//! job's chroma strength and autoregressive coefficients.

use vstd::prelude::*;
use crate::encoding::{Encoder, EncoderError, PhotonNoise};
use av1_grain::TransferFunction;

verus! {

#[verifier::external_type_specification]
#[verifier::external_body]
pub struct ExTransferFunction(TransferFunction);

/// The film-grain parameters of a segment of video, field for field as
/// av1-grain's `GrainTableSegment` holds them: its time span (in
/// 10,000,000ths of a second), the luma and chroma scaling points, the
/// autoregressive coefficients with their lag and shift, the chroma
/// multipliers and offsets, and the synthesis flags and seed.
pub struct GrainParams {
    pub start_time: u64,
    pub end_time: u64,
    pub scaling_points_y: Vec<[u8; 2]>,
    pub scaling_points_cb: Vec<[u8; 2]>,
    pub scaling_points_cr: Vec<[u8; 2]>,
    pub scaling_shift: u8,
    pub ar_coeff_lag: u8,
    pub ar_coeffs_y: Vec<i8>,
    pub ar_coeffs_cb: Vec<i8>,
    pub ar_coeffs_cr: Vec<i8>,
    pub ar_coeff_shift: u8,
    pub cb_mult: u8,
    pub cb_luma_mult: u8,
    pub cb_offset: u16,
    pub cr_mult: u8,
    pub cr_luma_mult: u8,
    pub cr_offset: u16,
    pub overlap_flag: bool,
    pub chroma_scaling_from_luma: bool,
    pub grain_scale_shift: u8,
    pub random_seed: u16,
}

/// `av1_grain::generate_photon_noise_params` for the whole video (time 0 to
/// the end), as plain values: the grain of photon noise at ISO `iso` for
/// frames of `width`×`height` with transfer function `transfer`, limited
/// range, the default seed, with chroma grain or not. Its source builds
/// every field but the luma scaling points from constants and
/// `chroma_grain`, as stated here; the luma points fill a list of at most
/// 14. Their values are computed in `f32` with `powf`, whose precision Rust
/// leaves to the platform, so nothing more is claimed of them. The source
/// multiplies `width` by `height` in `u32`, which panics on overflow.
#[verifier::external_body]
fn noise_params(iso: u32, width: u32, height: u32, transfer: TransferFunction, chroma_grain: bool) -> (r: GrainParams)
    requires
        width * height <= u32::MAX,
    ensures
        r.start_time == 0,
        r.end_time == u64::MAX,
        r.scaling_points_y@.len() <= 14,
        r.scaling_points_cb@ == Seq::<[u8; 2]>::empty(),
        r.scaling_points_cr@ == Seq::<[u8; 2]>::empty(),
        r.scaling_shift == 8,
        r.ar_coeff_lag == 0,
        r.ar_coeffs_y@ == Seq::<i8>::empty(),
        r.ar_coeffs_cb@ == seq![0i8],
        r.ar_coeffs_cr@ == seq![0i8],
        r.ar_coeff_shift == 6,
        r.cb_mult == 0 && r.cb_luma_mult == 0 && r.cb_offset == 0,
        r.cr_mult == 0 && r.cr_luma_mult == 0 && r.cr_offset == 0,
        r.overlap_flag,
        r.chroma_scaling_from_luma == chroma_grain,
        r.grain_scale_shift == 0,
        r.random_seed == 10956,
{
    let av1_grain::GrainTableSegment {
        start_time, end_time, scaling_points_y, scaling_points_cb, scaling_points_cr, scaling_shift,
        ar_coeff_lag, ar_coeffs_y, ar_coeffs_cb, ar_coeffs_cr, ar_coeff_shift, cb_mult, cb_luma_mult,
        cb_offset, cr_mult, cr_luma_mult, cr_offset, overlap_flag, chroma_scaling_from_luma,
        grain_scale_shift, random_seed,
    } = av1_grain::generate_photon_noise_params(0, u64::MAX, av1_grain::NoiseGenArgs {
        iso_setting: iso, width, height, transfer_function: transfer, full_range: false, chroma_grain,
        random_seed: None,
    });
    GrainParams {
        start_time, end_time, scaling_points_y: scaling_points_y.to_vec(), scaling_points_cb: scaling_points_cb.to_vec(),
        scaling_points_cr: scaling_points_cr.to_vec(), scaling_shift, ar_coeff_lag, ar_coeffs_y: ar_coeffs_y.to_vec(),
        ar_coeffs_cb: ar_coeffs_cb.to_vec(), ar_coeffs_cr: ar_coeffs_cr.to_vec(), ar_coeff_shift, cb_mult, cb_luma_mult,
        cb_offset, cr_mult, cr_luma_mult, cr_offset, overlap_flag, chroma_scaling_from_luma, grain_scale_shift, random_seed,
    }
}

/// A copy of a list of coefficients.
fn copy_coefficients(v: &Vec<i8>) -> (r: Vec<i8>)
    ensures
        r@ == v@,
{
    let mut r: Vec<i8> = Vec::new();
    let mut i: usize = 0;
    while i < v.len()
        invariant
            i <= v@.len(),
            r@ == v@.take(i as int),
        decreases v.len() - i,
    {
        r.push(v[i]);
        assert(v@.take(i + 1) =~= v@.take(i as int).push(v@[i as int]));
        i = i + 1;
    }
    assert(v@.take(v@.len() as int) =~= v@);
    r
}

/// The length of an optional coefficient list, 0 when absent.
pub open spec fn coefficient_count(c: Option<Vec<i8>>) -> int {
    match c {
        Some(v) => v@.len() as int,
        None => 0,
    }
}

/// The coefficients of an optional list, `absent` when there is none.
pub open spec fn coefficients_or(c: Option<Vec<i8>>, absent: Seq<i8>) -> Seq<i8> {
    match c {
        Some(v) => v@,
        None => absent,
    }
}

/// The frame size the grain of `noise` is generated for: its own, where it
/// sets one, else `width`×`height`.
pub open spec fn noise_frame_size(noise: PhotonNoise, width: u32, height: u32) -> (u32, u32) {
    (
        match noise.width {
            Some(w) => w,
            None => width,
        },
        match noise.height {
            Some(h) => h,
            None => height,
        },
    )
}

/// What the grain of `noise` is generated with, for frames of
/// `width`×`height`: its luma strength, its frame size, and chroma grain
/// exactly when the chroma strength equals the luma strength.
pub fn grain_request(noise: &PhotonNoise, width: u32, height: u32) -> (r: (u32, u32, u32, bool))
    ensures
        r.0 == noise.iso,
        (r.1, r.2) == noise_frame_size(*noise, width, height),
        r.3 == (noise.chroma_iso == Some(noise.iso)),
{
    let w = match noise.width {
        Some(v) => v,
        None => width,
    };
    let h = match noise.height {
        Some(v) => v,
        None => height,
    };
    let chroma_grain = match noise.chroma_iso {
        Some(c) => c == noise.iso,
        None => false,
    };
    (noise.iso, w, h, chroma_grain)
}

/// What the chroma grain of `noise` is generated with, when its chroma
/// strength is set and differs from the luma strength: that strength, the
/// frame size of the luma grain, and chroma grain on.
pub fn chroma_grain_request(noise: &PhotonNoise, width: u32, height: u32) -> (r: Option<(u32, u32, u32, bool)>)
    ensures
        match noise.chroma_iso {
            Some(c) => if c != noise.iso {
                r == Some((c, noise_frame_size(*noise, width, height).0, noise_frame_size(*noise, width, height).1, true))
            } else {
                r is None
            },
            None => r is None,
        },
{
    match noise.chroma_iso {
        Some(c) => if c != noise.iso {
            let (_, w, h, _) = grain_request(noise, width, height);
            Some((c, w, h, true))
        } else {
            None
        },
        None => None,
    }
}

/// Whether `segment` is the grain table of `noise`: photon noise over the
/// whole video with the fixed parameters of generated grain, no chroma
/// scaling points, chroma grain scaled from luma exactly when the chroma
/// strength equals the luma strength, and the coefficients of `noise` where
/// it has them (none for luma, a single zero for Cb and Cr otherwise).
pub open spec fn is_noise_table(segment: GrainParams, noise: PhotonNoise) -> bool {
    &&& segment.start_time == 0
    &&& segment.end_time == u64::MAX
    &&& segment.scaling_points_y@.len() <= 14
    &&& segment.scaling_points_cb@ == Seq::<[u8; 2]>::empty()
    &&& segment.scaling_points_cr@ == Seq::<[u8; 2]>::empty()
    &&& segment.scaling_shift == 8
    &&& segment.ar_coeff_lag == 0
    &&& segment.ar_coeffs_y@ == coefficients_or(noise.c_y, Seq::empty())
    &&& segment.ar_coeffs_cb@ == coefficients_or(noise.ccb, seq![0i8])
    &&& segment.ar_coeffs_cr@ == coefficients_or(noise.ccr, seq![0i8])
    &&& segment.ar_coeff_shift == 6
    &&& segment.cb_mult == 0 && segment.cb_luma_mult == 0 && segment.cb_offset == 0
    &&& segment.cr_mult == 0 && segment.cr_luma_mult == 0 && segment.cr_offset == 0
    &&& segment.overlap_flag
    &&& segment.chroma_scaling_from_luma == (noise.chroma_iso == Some(noise.iso))
    &&& segment.grain_scale_shift == 0
    &&& segment.random_seed == 10956
}

impl Encoder {
    /// The film-grain table of this configuration's photon noise, for frames
    /// of `width`×`height` (unless the noise sets its own size) with transfer
    /// function `transfer`: `None` without photon noise; an error when it has
    /// more luma (24), Cb (25) or Cr (25) coefficients than a grain table
    /// holds, checked in that order. The grain is that of the luma strength;
    /// chroma grain is scaled from luma when the chroma strength equals it.
    /// A different chroma strength contributes its chroma scaling points,
    /// which generated grain leaves empty. The grain is generated with what
    /// [`grain_request`] and [`chroma_grain_request`] give; its luma scaling
    /// points are computed in floating point by av1-grain, so the contract
    /// bounds only their number.
    pub fn generate_photon_noise_table(&self, width: u32, height: u32, transfer: TransferFunction) -> (r: Result<
        Option<GrainParams>,
        EncoderError,
    >)
        requires
            self.spec_photon_noise() matches Some(n) ==> noise_frame_size(n, width, height).0 * noise_frame_size(
                n,
                width,
                height,
            ).1 <= u32::MAX,
        ensures
            match self.spec_photon_noise() {
                None => r matches Ok(None),
                Some(n) => if coefficient_count(n.c_y) > 24 {
                    r == Err::<Option<GrainParams>, EncoderError>(EncoderError::TooManyLumaCoefficients)
                } else if coefficient_count(n.ccb) > 25 {
                    r == Err::<Option<GrainParams>, EncoderError>(EncoderError::TooManyCbCoefficients)
                } else if coefficient_count(n.ccr) > 25 {
                    r == Err::<Option<GrainParams>, EncoderError>(EncoderError::TooManyCrCoefficients)
                } else {
                    r matches Ok(Some(segment)) && is_noise_table(segment, n)
                },
            },
    {
        let noise = match self {
            Encoder::AOM { photon_noise, .. } => photon_noise,
            Encoder::RAV1E { photon_noise, .. } => photon_noise,
            Encoder::SVTAV1 { photon_noise, .. } => photon_noise,
            _ => {
                return Ok(None);
            },
        };
        let noise = match noise {
            Some(n) => n,
            None => {
                return Ok(None);
            },
        };
        let (iso, w, h, chroma_grain) = grain_request(noise, width, height);
        let mut params = noise_params(iso, w, h, transfer, chroma_grain);
        if let Some((chroma_iso, cw, ch, chroma_on)) = chroma_grain_request(noise, width, height) {
            let chroma = noise_params(chroma_iso, cw, ch, transfer, chroma_on);
            params.scaling_points_cr = chroma.scaling_points_cr;
            params.scaling_points_cb = chroma.scaling_points_cb;
        }
        if let Some(c_y) = &noise.c_y {
            if c_y.len() > 24 {
                return Err(EncoderError::TooManyLumaCoefficients);
            }
            params.ar_coeffs_y = copy_coefficients(c_y);
        }
        if let Some(ccb) = &noise.ccb {
            if ccb.len() > 25 {
                return Err(EncoderError::TooManyCbCoefficients);
            }
            params.ar_coeffs_cb = copy_coefficients(ccb);
        }
        if let Some(ccr) = &noise.ccr {
            if ccr.len() > 25 {
                return Err(EncoderError::TooManyCrCoefficients);
            }
            params.ar_coeffs_cr = copy_coefficients(ccr);
        }
        Ok(Some(params))
    }
}

} // verus!
