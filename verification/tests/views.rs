use speaker_port::cabinet::{CabinetDimensions, CabinetModel, ModelError};
use speaker_port::schematic::{
    arrow_segments, label_anchor, Angle, LabelText, Primitive, Segment,
};

const SCALE_3PX_PER_MM: u64 = 3_000_000;

fn default_model() -> CabinetModel {
    CabinetModel::from(CabinetDimensions::default())
}

fn zero_angle() -> Angle {
    Angle { pi_num: 0, pi_den: 1, alpha_coef: 0 }
}

fn quarter_turn() -> Angle {
    Angle { pi_num: 1, pi_den: 2, alpha_coef: 0 }
}

#[test]
fn front_view_reference_primitives() {
    let view = default_model().front_view(SCALE_3PX_PER_MM);
    let expected = vec![
        Primitive::Line { x1: 0, y1: 0, x2: 0, y2: 92_000_000 },
        Primitive::Line { x1: 100_000_000, y1: 92_000_000, x2: 100_000_000, y2: 0 },
        Primitive::FilledRect { x: 0, y: 0, width: 100_000_000, height: 16_076_952 },
        Primitive::FilledRect {
            x: 0,
            y: 75_923_048,
            width: 100_000_000,
            height: 16_076_952,
        },
        Primitive::LabeledArrow {
            x: 0,
            y: -10_000_000,
            length: 100_000_000,
            angle: zero_angle(),
            label_mm: 100,
        },
        Primitive::LabeledArrow {
            x: 110_000_000,
            y: 0,
            length: 92_000_000,
            angle: quarter_turn(),
            label_mm: 92,
        },
        Primitive::LabeledArrow {
            x: 50_000_000,
            y: 16_076_952,
            length: 59_846_096,
            angle: quarter_turn(),
            label_mm: 60,
        },
    ];
    assert_eq!(view.primitives, expected);
}

#[test]
fn front_view_canvas_extent_adds_border() {
    let view = default_model().front_view(SCALE_3PX_PER_MM);
    assert_eq!(view.canvas_width_micro, 380_000_000);
    assert_eq!(view.canvas_height_micro, 356_000_000);
}

#[test]
fn front_view_deterministic() {
    let m = default_model();
    assert_eq!(m.front_view(SCALE_3PX_PER_MM), m.front_view(SCALE_3PX_PER_MM));
}

#[test]
fn front_view_without_flare_keeps_outline() {
    let m = CabinetModel::from(CabinetDimensions {
        port_flare_radius: 59,
        ..CabinetDimensions::default()
    });
    let view = m.front_view(SCALE_3PX_PER_MM);
    let expected = vec![
        Primitive::Line { x1: 0, y1: 0, x2: 0, y2: 92_000_000 },
        Primitive::Line { x1: 100_000_000, y1: 92_000_000, x2: 100_000_000, y2: 0 },
        Primitive::LabeledArrow {
            x: 0,
            y: -10_000_000,
            length: 100_000_000,
            angle: zero_angle(),
            label_mm: 100,
        },
        Primitive::LabeledArrow {
            x: 110_000_000,
            y: 0,
            length: 92_000_000,
            angle: quarter_turn(),
            label_mm: 92,
        },
    ];
    assert_eq!(view.primitives, expected);
    assert_eq!(view.canvas_width_micro, 380_000_000);
}

#[test]
fn front_view_omits_baffles_for_negative_diameter() {
    let m = CabinetModel::from(CabinetDimensions {
        port_length: 120,
        port_flare_radius: 60,
        port_external_width: 100,
        port_external_height: 10,
        box_volume: 161,
    });
    let view = m.front_view(SCALE_3PX_PER_MM);
    assert_eq!(view.primitives.len(), 4);
}

#[test]
fn side_view_reference_primitives() {
    let view = default_model().side_view(SCALE_3PX_PER_MM).unwrap();
    let expected = vec![
        Primitive::Arc {
            center_x: 60_000_000,
            center_y: -103_923_048,
            radius: 120_000_000,
            start: Angle { pi_num: 0, pi_den: 1, alpha_coef: 1 },
            end: Angle { pi_num: 1, pi_den: 1, alpha_coef: -1 },
        },
        Primitive::Arc {
            center_x: 60_000_000,
            center_y: 195_923_048,
            radius: 120_000_000,
            start: Angle { pi_num: 1, pi_den: 1, alpha_coef: 1 },
            end: Angle { pi_num: 2, pi_den: 1, alpha_coef: -1 },
        },
        Primitive::LabeledArrow {
            x: 0,
            y: -10_000_000,
            length: 120_000_000,
            angle: zero_angle(),
            label_mm: 120,
        },
        Primitive::LabeledArrow {
            x: 130_000_000,
            y: 0,
            length: 92_000_000,
            angle: quarter_turn(),
            label_mm: 92,
        },
        Primitive::LabeledArrow {
            x: 60_000_000,
            y: 16_076_952,
            length: 59_846_096,
            angle: quarter_turn(),
            label_mm: 60,
        },
        Primitive::Arrow {
            x: 60_000_000,
            y: 195_923_048,
            length: 120_000_000,
            angle: Angle { pi_num: -4, pi_den: 9, alpha_coef: 0 },
        },
        Primitive::Label {
            x: 0,
            y: 112_000_000,
            text: LabelText::FlareRadiusMillimetres(120),
        },
    ];
    assert_eq!(view.primitives, expected);
    assert_eq!(view.flare_cos_micro, 500_000);
    assert_eq!(view.canvas_width_micro, 440_000_000);
    assert_eq!(view.canvas_height_micro, 356_000_000);
}

#[test]
fn side_view_deterministic() {
    let m = default_model();
    assert_eq!(m.side_view(SCALE_3PX_PER_MM), m.side_view(SCALE_3PX_PER_MM));
}

#[test]
fn side_view_cosine_recovers_arc_start() {
    let view = default_model().side_view(SCALE_3PX_PER_MM).unwrap();
    let alpha = (view.flare_cos_micro as f64 / 1e6).acos();
    assert!((alpha - 1.04719755).abs() < 1e-6);
}

#[test]
fn side_view_rejects_invalid_flare() {
    let narrow = CabinetModel::from(CabinetDimensions {
        port_flare_radius: 59,
        ..CabinetDimensions::default()
    });
    assert_eq!(
        narrow.side_view(SCALE_3PX_PER_MM).unwrap_err(),
        ModelError::InvalidGeometry
    );
    let zero_radius = CabinetModel::from(CabinetDimensions {
        port_flare_radius: 0,
        ..CabinetDimensions::default()
    });
    assert_eq!(
        zero_radius.side_view(SCALE_3PX_PER_MM).unwrap_err(),
        ModelError::InvalidGeometry
    );
    let negative_diameter = CabinetModel::from(CabinetDimensions {
        port_length: 120,
        port_flare_radius: 60,
        port_external_width: 100,
        port_external_height: 10,
        box_volume: 161,
    });
    assert_eq!(
        negative_diameter.side_view(SCALE_3PX_PER_MM).unwrap_err(),
        ModelError::InvalidGeometry
    );
}

#[test]
fn arrow_segments_reference() {
    let segs = arrow_segments(50_000_000);
    let expected = vec![
        Segment { x1: 0, y1: 0, x2: 4_000_000, y2: -3_000_000 },
        Segment { x1: 0, y1: 0, x2: 4_000_000, y2: 3_000_000 },
        Segment { x1: 0, y1: 0, x2: 50_000_000, y2: 0 },
        Segment { x1: 50_000_000, y1: 0, x2: 46_000_000, y2: -3_000_000 },
        Segment { x1: 50_000_000, y1: 0, x2: 46_000_000, y2: 3_000_000 },
    ];
    assert_eq!(segs, expected);
}

#[test]
fn label_anchor_centres_label() {
    assert_eq!(label_anchor(100_000_000), (35_000_000, -5_000_000));
    assert_eq!(label_anchor(0), (-15_000_000, -5_000_000));
}
