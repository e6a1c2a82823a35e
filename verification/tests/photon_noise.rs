use andean_condor::photon_noise::{chroma_grain_request, grain_request};
use andean_condor::encoding::{Encoder, EncoderBase, EncoderError, EncoderPasses, PhotonNoise};
use andean_condor::cli_parameter::ParameterMap;
use av1_grain::TransferFunction;

fn svt_with_noise(noise: PhotonNoise) -> Encoder {
    Encoder::SVTAV1 {
        executable: None,
        pass: EncoderPasses::All(1),
        options: ParameterMap::new(),
        photon_noise: Some(noise),
    }
}

fn noise(iso: u32) -> PhotonNoise {
    PhotonNoise { iso, chroma_iso: None, width: None, height: None, c_y: None, ccb: None, ccr: None }
}

#[test]
fn no_photon_noise_no_table() {
    let e = Encoder::default_from_base(&EncoderBase::X264, true);
    assert!(matches!(e.generate_photon_noise_table(1920, 1080, TransferFunction::BT1886), Ok(None)));
    let svt = Encoder::default();
    assert!(matches!(svt.generate_photon_noise_table(1920, 1080, TransferFunction::BT1886), Ok(None)));
}

#[test]
fn photon_noise_table_with_coefficients() {
    let mut n = noise(800);
    n.c_y = Some(vec![1, -1, 2]);
    n.ccb = Some(vec![0; 25]);
    n.chroma_iso = Some(400);
    let table = svt_with_noise(n).generate_photon_noise_table(1920, 1080, TransferFunction::BT1886);
    let segment = match table {
        Ok(Some(s)) => s,
        _ => panic!("expected a table"),
    };
    assert_eq!(segment.ar_coeffs_y.as_slice(), &[1, -1, 2]);
    assert_eq!(segment.ar_coeffs_cb.len(), 25);
    assert_eq!(segment.start_time, 0);
    assert!(!segment.scaling_points_y.is_empty());
}

#[test]
fn too_many_coefficients() {
    let mut luma = noise(400);
    luma.c_y = Some(vec![0; 25]);
    assert!(matches!(
        svt_with_noise(luma).generate_photon_noise_table(64, 64, TransferFunction::SMPTE2084),
        Err(EncoderError::TooManyLumaCoefficients)
    ));
    let mut cr = noise(400);
    cr.ccr = Some(vec![0; 26]);
    assert!(matches!(
        svt_with_noise(cr).generate_photon_noise_table(64, 64, TransferFunction::BT1886),
        Err(EncoderError::TooManyCrCoefficients)
    ));
}

#[test]
fn photon_noise_table_fixed_fields() {
    let mut n = noise(1600);
    n.chroma_iso = Some(1600);
    n.width = Some(640);
    n.height = Some(360);
    let segment = match svt_with_noise(n).generate_photon_noise_table(1920, 1080, TransferFunction::BT1886) {
        Ok(Some(s)) => s,
        _ => panic!("expected a table"),
    };
    assert_eq!(segment.end_time, u64::MAX);
    assert!(segment.chroma_scaling_from_luma);
    assert!(segment.scaling_points_cb.is_empty());
    assert!(segment.scaling_points_cr.is_empty());
    assert!(segment.ar_coeffs_y.is_empty());
    assert_eq!(segment.ar_coeffs_cb.as_slice(), &[0]);
    assert_eq!(segment.ar_coeffs_cr.as_slice(), &[0]);
    assert_eq!(segment.scaling_shift, 8);
    assert_eq!(segment.ar_coeff_shift, 6);
    assert_eq!(segment.random_seed, 10956);
    assert!(segment.overlap_flag);

    let mut separate = noise(1600);
    separate.chroma_iso = Some(400);
    let segment = match svt_with_noise(separate).generate_photon_noise_table(1920, 1080, TransferFunction::BT1886) {
        Ok(Some(s)) => s,
        _ => panic!("expected a table"),
    };
    assert!(!segment.chroma_scaling_from_luma);
    assert!(segment.scaling_points_cb.is_empty());
}

#[test]
fn grain_is_requested_with_the_noise_settings() {
    let mut n = noise(800);
    assert_eq!(grain_request(&n, 1920, 1080), (800, 1920, 1080, false));
    assert_eq!(chroma_grain_request(&n, 1920, 1080), None);
    n.width = Some(1280);
    n.chroma_iso = Some(800);
    assert_eq!(grain_request(&n, 1920, 1080), (800, 1280, 1080, true));
    assert_eq!(chroma_grain_request(&n, 1920, 1080), None);
    n.chroma_iso = Some(400);
    n.height = Some(720);
    assert_eq!(grain_request(&n, 1920, 1080), (800, 1280, 720, false));
    assert_eq!(chroma_grain_request(&n, 1920, 1080), Some((400, 1280, 720, true)));
}
