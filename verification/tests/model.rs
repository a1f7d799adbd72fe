use speaker_port::arith::{isqrt_u128, round_micro};
use speaker_port::cabinet::{CabinetDimensions, CabinetModel, ModelError};

fn default_model() -> CabinetModel {
    CabinetModel::from(CabinetDimensions::default())
}

#[test]
fn default_dimensions_match_reference() {
    let d = CabinetDimensions::default();
    assert_eq!(d.port_length, 120);
    assert_eq!(d.port_flare_radius, 120);
    assert_eq!(d.port_external_width, 100);
    assert_eq!(d.port_external_height, 92);
    assert_eq!(d.box_volume, 161);
}

#[test]
fn model_widens_dimensions() {
    let m = default_model();
    assert_eq!(m.port_length, 120);
    assert_eq!(m.port_flare_radius, 120);
    assert_eq!(m.port_external_width, 100);
    assert_eq!(m.port_external_height, 92);
    assert_eq!(m.box_volume, 161);
}

#[test]
fn model_derivation_idempotent() {
    let d = CabinetDimensions::default();
    let m1 = CabinetModel::from(d);
    let m2 = CabinetModel::from(d);
    assert_eq!(m1, m2);
    assert_eq!(m1.port_flare_arc_start(), m2.port_flare_arc_start());
    assert_eq!(m1.port_min_diameter(), m2.port_min_diameter());
    assert_eq!(m1.nfr_ratio(), m2.nfr_ratio());
    assert_eq!(m1.resonant_frequency(), m2.resonant_frequency());
}

#[test]
fn arc_start_reference_cosine() {
    let a = default_model().port_flare_arc_start().unwrap();
    assert_eq!(a.cos_micro, 500_000);
    let alpha = (a.cos_micro as f64 / 1e6).acos();
    assert!((alpha - 1.04719755).abs() < 1e-6);
}

#[test]
fn arc_start_within_first_quadrant() {
    for (l, r) in [(0u32, 1u32), (1, 1), (2, 1), (120, 120), (120, 60), (9999, 10000)] {
        let m = CabinetModel::from(CabinetDimensions {
            port_length: l,
            port_flare_radius: r,
            port_external_width: 100,
            port_external_height: 92,
            box_volume: 161,
        });
        let a = m.port_flare_arc_start().unwrap();
        assert!(a.cos_micro <= 1_000_000);
        let alpha = (a.cos_micro as f64 / 1e6).acos();
        assert!((0.0..=std::f64::consts::FRAC_PI_2).contains(&alpha));
    }
}

#[test]
fn arc_start_boundary_is_zero_angle() {
    let m = CabinetModel::from(CabinetDimensions {
        port_length: 120,
        port_flare_radius: 60,
        port_external_width: 100,
        port_external_height: 92,
        box_volume: 161,
    });
    let a = m.port_flare_arc_start().unwrap();
    assert_eq!(a.cos_micro, 1_000_000);
    assert_eq!((a.cos_micro as f64 / 1e6).acos(), 0.0);
}

#[test]
fn arc_start_rejects_radius_below_half_length() {
    let m = CabinetModel::from(CabinetDimensions {
        port_length: 120,
        port_flare_radius: 59,
        port_external_width: 100,
        port_external_height: 92,
        box_volume: 161,
    });
    assert_eq!(m.port_flare_arc_start(), Err(ModelError::InvalidGeometry));
}

#[test]
fn arc_start_rejects_zero_radius() {
    let m = CabinetModel::from(CabinetDimensions {
        port_length: 0,
        port_flare_radius: 0,
        port_external_width: 100,
        port_external_height: 92,
        box_volume: 161,
    });
    assert_eq!(m.port_flare_arc_start(), Err(ModelError::InvalidGeometry));
}

#[test]
fn min_diameter_reference_value() {
    let d = default_model().port_min_diameter().unwrap();
    assert_eq!(d, 59_846_096);
    assert!((d as f64 / 1e6 - 59.846096).abs() < 1e-6);
}

#[test]
fn min_diameter_negative_when_flare_too_aggressive() {
    let m = CabinetModel::from(CabinetDimensions {
        port_length: 120,
        port_flare_radius: 60,
        port_external_width: 100,
        port_external_height: 10,
        box_volume: 161,
    });
    assert_eq!(m.port_min_diameter(), Ok(-110_000_000));
}

#[test]
fn min_diameter_rejects_narrow_radius() {
    let m = CabinetModel::from(CabinetDimensions {
        port_length: 121,
        port_flare_radius: 60,
        port_external_width: 100,
        port_external_height: 92,
        box_volume: 161,
    });
    assert_eq!(m.port_min_diameter(), Err(ModelError::InvalidGeometry));
}

#[test]
fn nfr_reference_value() {
    assert_eq!(default_model().nfr_ratio(), Ok(500_000));
}

#[test]
fn nfr_rejects_zero_radius() {
    let m = CabinetModel::from(CabinetDimensions {
        port_length: 120,
        port_flare_radius: 0,
        port_external_width: 100,
        port_external_height: 92,
        box_volume: 161,
    });
    assert_eq!(m.nfr_ratio(), Err(ModelError::DegenerateConfiguration));
}

#[test]
fn frequency_reference_value() {
    let f = default_model().resonant_frequency().unwrap();
    assert_eq!(f, 28_166_058);
    assert!((f as f64 / 1e6 - 28.17).abs() <= 0.05);
}

#[test]
fn frequency_decreases_with_box_volume() {
    let smaller_box = default_model().resonant_frequency().unwrap();
    let m = CabinetModel::from(CabinetDimensions {
        box_volume: 200,
        ..CabinetDimensions::default()
    });
    let larger_box = m.resonant_frequency().unwrap();
    assert!(larger_box < smaller_box);
}

#[test]
fn frequency_decreases_with_port_length() {
    let shorter_port = default_model().resonant_frequency().unwrap();
    let m = CabinetModel::from(CabinetDimensions {
        port_length: 150,
        ..CabinetDimensions::default()
    });
    let longer_port = m.resonant_frequency().unwrap();
    assert_eq!(longer_port, 22_872_288);
    assert!(longer_port < shorter_port);
}

#[test]
fn frequency_rejects_degenerate_configuration() {
    let zero_volume = CabinetModel::from(CabinetDimensions {
        box_volume: 0,
        ..CabinetDimensions::default()
    });
    assert_eq!(
        zero_volume.resonant_frequency(),
        Err(ModelError::DegenerateConfiguration)
    );
    let zero_radius = CabinetModel::from(CabinetDimensions {
        port_flare_radius: 0,
        ..CabinetDimensions::default()
    });
    assert_eq!(
        zero_radius.resonant_frequency(),
        Err(ModelError::DegenerateConfiguration)
    );
}

#[test]
fn frequency_rejects_invalid_geometry() {
    let narrow_radius = CabinetModel::from(CabinetDimensions {
        port_flare_radius: 59,
        ..CabinetDimensions::default()
    });
    assert_eq!(
        narrow_radius.resonant_frequency(),
        Err(ModelError::InvalidGeometry)
    );
    let negative_diameter = CabinetModel::from(CabinetDimensions {
        port_length: 120,
        port_flare_radius: 60,
        port_external_width: 100,
        port_external_height: 10,
        box_volume: 161,
    });
    assert_eq!(
        negative_diameter.resonant_frequency(),
        Err(ModelError::InvalidGeometry)
    );
    let pointlike_duct = CabinetModel::from(CabinetDimensions {
        port_length: 0,
        port_flare_radius: 120,
        port_external_width: 100,
        port_external_height: 0,
        box_volume: 161,
    });
    assert_eq!(
        pointlike_duct.resonant_frequency(),
        Err(ModelError::InvalidGeometry)
    );
}

#[test]
fn range_guard_accepts_and_rejects() {
    assert!(CabinetDimensions::default().fits());
    assert!(default_model().fits());
    let too_long = CabinetModel::from(CabinetDimensions {
        port_length: 10_001,
        ..CabinetDimensions::default()
    });
    assert!(!too_long.fits());
}

#[test]
fn isqrt_reference_values() {
    assert_eq!(isqrt_u128(0), 0);
    assert_eq!(isqrt_u128(1), 1);
    assert_eq!(isqrt_u128(3), 1);
    assert_eq!(isqrt_u128(4), 2);
    assert_eq!(isqrt_u128(10_800_000_000_000_000), 103_923_048);
    assert_eq!(isqrt_u128(1_000_000_000_000_000_000), 1_000_000_000);
    assert_eq!(isqrt_u128(u64::MAX as u128), 4_294_967_295);
}

#[test]
fn rounding_is_nearest_ties_to_even() {
    assert_eq!(round_micro(59_846_096), 60);
    assert_eq!(round_micro(500_000), 0);
    assert_eq!(round_micro(1_500_000), 2);
    assert_eq!(round_micro(2_500_000), 2);
    assert_eq!(round_micro(3_500_000), 4);
    assert_eq!(round_micro(123_400_000), 123);
    assert_eq!(round_micro(123_600_000), 124);
}
