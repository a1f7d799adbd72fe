//! The schematic projector: maps a cabinet model and a pixel scale onto
//! renderable two-dimensional primitives for a front view and a side view,
//! without doing any drawing itself.
//!
//! Coordinates are in micro-millimetres of model space; the renderer applies
//! the pixel scale and the border translation.  Canvas extents come out in
//! micro-pixels.  Angles are exact: a rational multiple of pi plus an
//! integer multiple of the flare start angle `alpha`, whose cosine rides
//! along in the side view, so that equal models always yield bit-identical
//! primitive sets.

use vstd::prelude::*;

verus! {

use crate::arith::{round_micro, round_micro_to_unit};
use crate::cabinet::{
    lemma_min_diameter_upper, min_radius_micro, CabinetModel, ModelError,
};

/// Border margin around each view, in pixels.
pub const BORDER_PX: u64 = 40;

/// An exact angle: `pi * pi_num / pi_den + alpha_coef * alpha`, where
/// `alpha` is the flare start angle of the model being drawn.
#[derive(Clone, Copy, Debug, PartialEq, Eq, Structural)]
pub struct Angle {
    pub pi_num: i64,
    pub pi_den: u64,
    pub alpha_coef: i64,
}

/// One straight stroke, in micro-millimetres.
#[derive(Clone, Copy, Debug, PartialEq, Eq, Structural)]
pub struct Segment {
    pub x1: i64,
    pub y1: i64,
    pub x2: i64,
    pub y2: i64,
}

/// What a text label says; the renderer formats the number and appends
/// the unit suffix.
#[derive(Clone, Copy, Debug, PartialEq, Eq, Structural)]
pub enum LabelText {
    /// A length in whole millimetres.
    Millimetres(u64),
    /// The flare radius in whole millimetres, announced as such.
    FlareRadiusMillimetres(u64),
}

/// One renderable primitive, in micro-millimetres of model space.
#[derive(Clone, Copy, Debug, PartialEq, Eq, Structural)]
pub enum Primitive {
    /// A stroked line.
    Line { x1: i64, y1: i64, x2: i64, y2: i64 },
    /// A filled rectangle.
    FilledRect { x: i64, y: i64, width: i64, height: i64 },
    /// A circular arc swept from `start` to `end`.
    Arc { center_x: i64, center_y: i64, radius: i64, start: Angle, end: Angle },
    /// A double-headed dimension arrow from `(x, y)`, rotated by `angle`,
    /// labelled with a rounded millimetre value.
    LabeledArrow { x: i64, y: i64, length: i64, angle: Angle, label_mm: u64 },
    /// A bare arrow with no label of its own.
    Arrow { x: i64, y: i64, length: i64, angle: Angle },
    /// A free-standing text label.
    Label { x: i64, y: i64, text: LabelText },
}

/// The projected front view: the enclosure face, the solid baffle above
/// and below the duct opening, and the dimension arrows.
#[derive(Clone, Debug, PartialEq, Eq)]
pub struct FrontView {
    pub primitives: Vec<Primitive>,
    pub canvas_width_micro: u64,
    pub canvas_height_micro: u64,
}

/// The projected side view: the flare's two-arc silhouette, the dimension
/// arrows, and the radius label, together with the cosine of the flare
/// start angle the arc spans refer to.
#[derive(Clone, Debug, PartialEq, Eq)]
pub struct SideView {
    pub primitives: Vec<Primitive>,
    pub flare_cos_micro: u64,
    pub canvas_width_micro: u64,
    pub canvas_height_micro: u64,
}

/// A view's canvas extent in micro-pixels: the scaled content dimension
/// plus the border margin on both sides.
pub open spec fn canvas_extent_micro(dim_mm: int, scale_micro: int) -> int {
    dim_mm * scale_micro + 2 * (BORDER_PX as int) * 1_000_000
}

/// The angle `0`.
pub open spec fn angle_zero() -> Angle {
    Angle { pi_num: 0, pi_den: 1, alpha_coef: 0 }
}

/// The angle `pi / 2`: a quarter turn, pointing down the canvas.
pub open spec fn angle_quarter_turn() -> Angle {
    Angle { pi_num: 1, pi_den: 2, alpha_coef: 0 }
}

/// The primitives of the front view, in drawing order.  The enclosure
/// outline and the overall width and height arrows do not depend on the
/// flare; the baffle rectangles and the opening-gap arrow exist only when
/// the geometry is buildable.
pub open spec fn front_view_primitives(m: CabinetModel) -> Seq<Primitive> {
    let w = m.port_external_width as int;
    let h = m.port_external_height as int;
    let l = m.port_length as int;
    let r = m.port_flare_radius as int;
    let wm = (w * 1_000_000) as i64;
    let hm = (h * 1_000_000) as i64;
    let mr = min_radius_micro(l, r, h);
    let box_h = (h * 500_000 - mr) as i64;
    let outline = seq![
        Primitive::Line { x1: 0, y1: 0, x2: 0, y2: hm },
        Primitive::Line { x1: wm, y1: hm, x2: wm, y2: 0 },
    ];
    let baffles = seq![
        Primitive::FilledRect { x: 0, y: 0, width: wm, height: box_h },
        Primitive::FilledRect {
            x: 0,
            y: (h * 1_000_000 - (h * 500_000 - mr)) as i64,
            width: wm,
            height: box_h,
        },
    ];
    let overall_arrows = seq![
        Primitive::LabeledArrow {
            x: 0,
            y: -10_000_000i64,
            length: wm,
            angle: angle_zero(),
            label_mm: m.port_external_width,
        },
        Primitive::LabeledArrow {
            x: (wm + 10_000_000) as i64,
            y: 0,
            length: hm,
            angle: angle_quarter_turn(),
            label_mm: m.port_external_height,
        },
    ];
    let gap_arrow = seq![
        Primitive::LabeledArrow {
            x: (w * 500_000) as i64,
            y: box_h,
            length: (2 * mr) as i64,
            angle: angle_quarter_turn(),
            label_mm: round_micro_to_unit(2 * mr) as u64,
        },
    ];
    if m.geometry_ok() {
        outline + baffles + overall_arrows + gap_arrow
    } else {
        outline + overall_arrows
    }
}

/// The primitives of the side view, in drawing order: the two mirror-image
/// flare arcs, three labelled dimension arrows, the bare flare-radius
/// arrow, and the radius label.
pub open spec fn side_view_primitives(m: CabinetModel) -> Seq<Primitive> {
    let l = m.port_length as int;
    let r = m.port_flare_radius as int;
    let h = m.port_external_height as int;
    let lm = (l * 1_000_000) as i64;
    let hm = (h * 1_000_000) as i64;
    let rm = (r * 1_000_000) as i64;
    let cx = (l * 500_000) as i64;
    let mid = h * 500_000;
    let mr = min_radius_micro(l, r, h);
    seq![
        Primitive::Arc {
            center_x: cx,
            center_y: (mid - mr - r * 1_000_000) as i64,
            radius: rm,
            start: Angle { pi_num: 0, pi_den: 1, alpha_coef: 1 },
            end: Angle { pi_num: 1, pi_den: 1, alpha_coef: -1i64 },
        },
        Primitive::Arc {
            center_x: cx,
            center_y: (mid + mr + r * 1_000_000) as i64,
            radius: rm,
            start: Angle { pi_num: 1, pi_den: 1, alpha_coef: 1 },
            end: Angle { pi_num: 2, pi_den: 1, alpha_coef: -1i64 },
        },
        Primitive::LabeledArrow {
            x: 0,
            y: -10_000_000i64,
            length: lm,
            angle: angle_zero(),
            label_mm: m.port_length,
        },
        Primitive::LabeledArrow {
            x: (lm + 10_000_000) as i64,
            y: 0,
            length: hm,
            angle: angle_quarter_turn(),
            label_mm: m.port_external_height,
        },
        Primitive::LabeledArrow {
            x: cx,
            y: (mid - mr) as i64,
            length: (2 * mr) as i64,
            angle: angle_quarter_turn(),
            label_mm: round_micro_to_unit(2 * mr) as u64,
        },
        Primitive::Arrow {
            x: cx,
            y: (mid + mr + r * 1_000_000) as i64,
            length: rm,
            angle: Angle { pi_num: -4i64, pi_den: 9, alpha_coef: 0 },
        },
        Primitive::Label {
            x: 0,
            y: (hm + 20_000_000) as i64,
            text: LabelText::FlareRadiusMillimetres(m.port_flare_radius),
        },
    ]
}

/// The side view exists exactly when the flare arcs do: the arc formulas
/// on their domain and a non-negative minimum diameter.
pub open spec fn side_view_defined(m: CabinetModel) -> bool {
    m.port_flare_radius > 0 && m.geometry_ok()
}

impl CabinetModel {
    /// Projects the front view.  The outline and the overall arrows are
    /// always present; the baffle rectangles and the opening-gap arrow
    /// only when the geometry is buildable, so an invalid flare never
    /// leaks a bogus coordinate into the drawing.
    pub fn front_view(&self, scale_micro: u64) -> (view: FrontView)
        requires
            self.in_range(),
            scale_micro <= 1_000_000_000_000,
        ensures
            view.primitives@ == front_view_primitives(*self),
            view.canvas_width_micro as int == canvas_extent_micro(
                self.port_external_width as int,
                scale_micro as int,
            ),
            view.canvas_height_micro as int == canvas_extent_micro(
                self.port_external_height as int,
                scale_micro as int,
            ),
    {
        let w = self.port_external_width;
        let h = self.port_external_height;
        let wm: i64 = (w as i64) * 1_000_000;
        let hm: i64 = (h as i64) * 1_000_000;
        let mut prims: Vec<Primitive> = Vec::new();
        prims.push(Primitive::Line { x1: 0, y1: 0, x2: 0, y2: hm });
        prims.push(Primitive::Line { x1: wm, y1: hm, x2: wm, y2: 0 });
        let opening: Option<i64> = match self.port_min_diameter() {
            Ok(d) => if d >= 0 {
                Some(d)
            } else {
                None
            },
            Err(_) => None,
        };
        proof {
            if self.port_length <= 2 * self.port_flare_radius {
                lemma_min_diameter_upper(
                    self.port_length as int,
                    self.port_flare_radius as int,
                    h as int,
                );
            }
        }
        if let Some(d) = opening {
            let mr: i64 = d / 2;
            let box_h: i64 = (h as i64) * 500_000 - mr;
            prims.push(Primitive::FilledRect { x: 0, y: 0, width: wm, height: box_h });
            prims.push(
                Primitive::FilledRect { x: 0, y: hm - box_h, width: wm, height: box_h },
            );
        }
        prims.push(
            Primitive::LabeledArrow {
                x: 0,
                y: -10_000_000,
                length: wm,
                angle: Angle { pi_num: 0, pi_den: 1, alpha_coef: 0 },
                label_mm: w,
            },
        );
        prims.push(
            Primitive::LabeledArrow {
                x: wm + 10_000_000,
                y: 0,
                length: hm,
                angle: Angle { pi_num: 1, pi_den: 2, alpha_coef: 0 },
                label_mm: h,
            },
        );
        if let Some(d) = opening {
            let mr: i64 = d / 2;
            let box_h: i64 = (h as i64) * 500_000 - mr;
            let label = round_micro(d as u64);
            prims.push(
                Primitive::LabeledArrow {
                    x: (w as i64) * 500_000,
                    y: box_h,
                    length: d,
                    angle: Angle { pi_num: 1, pi_den: 2, alpha_coef: 0 },
                    label_mm: label,
                },
            );
        }
        proof {
            assert(prims@ =~= front_view_primitives(*self));
        }
        proof {
            assert(w * scale_micro + 80_000_000 <= u64::MAX) by (nonlinear_arith)
                requires
                    w <= 10_000,
                    scale_micro <= 1_000_000_000_000,
            ;
            assert(h * scale_micro + 80_000_000 <= u64::MAX) by (nonlinear_arith)
                requires
                    h <= 10_000,
                    scale_micro <= 1_000_000_000_000,
            ;
        }
        let canvas_width_micro = w * scale_micro + 80_000_000;
        let canvas_height_micro = h * scale_micro + 80_000_000;
        FrontView { primitives: prims, canvas_width_micro, canvas_height_micro }
    }

    /// Projects the side view: the bell-mouth silhouette as two symmetric
    /// arcs plus its dimension arrows.  Undefined whenever the flare arcs
    /// are, reported as `InvalidGeometry` rather than drawn wrong.
    pub fn side_view(&self, scale_micro: u64) -> (res: Result<SideView, ModelError>)
        requires
            self.in_range(),
            scale_micro <= 1_000_000_000_000,
        ensures
            res is Ok <==> side_view_defined(*self),
            res matches Err(e) ==> e is InvalidGeometry,
            res matches Ok(view) ==> view.primitives@ == side_view_primitives(*self),
            res matches Ok(view) ==> view.flare_cos_micro as int == self.spec_flare_cos_micro()
                && view.flare_cos_micro <= 1_000_000,
            res matches Ok(view) ==> view.canvas_width_micro as int == canvas_extent_micro(
                self.port_length as int,
                scale_micro as int,
            ) && view.canvas_height_micro as int == canvas_extent_micro(
                self.port_external_height as int,
                scale_micro as int,
            ),
    {
        let l = self.port_length;
        let r = self.port_flare_radius;
        let h = self.port_external_height;
        if r == 0 {
            return Err(ModelError::InvalidGeometry);
        }
        let d = match self.port_min_diameter() {
            Ok(d) => d,
            Err(e) => {
                return Err(e);
            },
        };
        if d < 0 {
            return Err(ModelError::InvalidGeometry);
        }
        let angle = match self.port_flare_arc_start() {
            Ok(a) => a,
            Err(e) => {
                return Err(e);
            },
        };
        proof {
            lemma_min_diameter_upper(l as int, r as int, h as int);
        }
        let lm: i64 = (l as i64) * 1_000_000;
        let hm: i64 = (h as i64) * 1_000_000;
        let rm: i64 = (r as i64) * 1_000_000;
        let cx: i64 = (l as i64) * 500_000;
        let mid: i64 = (h as i64) * 500_000;
        let mr: i64 = d / 2;
        let mut prims: Vec<Primitive> = Vec::new();
        prims.push(
            Primitive::Arc {
                center_x: cx,
                center_y: mid - mr - rm,
                radius: rm,
                start: Angle { pi_num: 0, pi_den: 1, alpha_coef: 1 },
                end: Angle { pi_num: 1, pi_den: 1, alpha_coef: -1i64 },
            },
        );
        prims.push(
            Primitive::Arc {
                center_x: cx,
                center_y: mid + mr + rm,
                radius: rm,
                start: Angle { pi_num: 1, pi_den: 1, alpha_coef: 1 },
                end: Angle { pi_num: 2, pi_den: 1, alpha_coef: -1i64 },
            },
        );
        prims.push(
            Primitive::LabeledArrow {
                x: 0,
                y: -10_000_000,
                length: lm,
                angle: Angle { pi_num: 0, pi_den: 1, alpha_coef: 0 },
                label_mm: l,
            },
        );
        prims.push(
            Primitive::LabeledArrow {
                x: lm + 10_000_000,
                y: 0,
                length: hm,
                angle: Angle { pi_num: 1, pi_den: 2, alpha_coef: 0 },
                label_mm: h,
            },
        );
        let gap_label = round_micro(d as u64);
        prims.push(
            Primitive::LabeledArrow {
                x: cx,
                y: mid - mr,
                length: d,
                angle: Angle { pi_num: 1, pi_den: 2, alpha_coef: 0 },
                label_mm: gap_label,
            },
        );
        prims.push(
            Primitive::Arrow {
                x: cx,
                y: mid + mr + rm,
                length: rm,
                angle: Angle { pi_num: -4i64, pi_den: 9, alpha_coef: 0 },
            },
        );
        prims.push(
            Primitive::Label {
                x: 0,
                y: hm + 20_000_000,
                text: LabelText::FlareRadiusMillimetres(r),
            },
        );
        proof {
            assert(prims@ =~= side_view_primitives(*self));
            assert(l * scale_micro + 80_000_000 <= u64::MAX) by (nonlinear_arith)
                requires
                    l <= 10_000,
                    scale_micro <= 1_000_000_000_000,
            ;
            assert(h * scale_micro + 80_000_000 <= u64::MAX) by (nonlinear_arith)
                requires
                    h <= 10_000,
                    scale_micro <= 1_000_000_000_000,
            ;
        }
        Ok(
            SideView {
                primitives: prims,
                flare_cos_micro: angle.cos_micro,
                canvas_width_micro: l * scale_micro + 80_000_000,
                canvas_height_micro: h * scale_micro + 80_000_000,
            },
        )
    }
}

/// The stroke list of a dimension arrow, in the arrow's own frame before
/// rotation: a head of two short diagonal strokes at each end and the main
/// line between them.
pub open spec fn arrow_segments_spec(length: int) -> Seq<Segment> {
    seq![
        Segment { x1: 0, y1: 0, x2: 4_000_000, y2: -3_000_000i64 },
        Segment { x1: 0, y1: 0, x2: 4_000_000, y2: 3_000_000 },
        Segment { x1: 0, y1: 0, x2: length as i64, y2: 0 },
        Segment { x1: length as i64, y1: 0, x2: (length - 4_000_000) as i64, y2: -3_000_000i64 },
        Segment { x1: length as i64, y1: 0, x2: (length - 4_000_000) as i64, y2: 3_000_000 },
    ]
}

/// The strokes a renderer draws for one dimension arrow of the given
/// length, in the arrow's own frame.
pub fn arrow_segments(length_micro: i64) -> (segs: Vec<Segment>)
    requires
        -1_000_000_000_000 <= length_micro <= 1_000_000_000_000,
    ensures
        segs@ == arrow_segments_spec(length_micro as int),
{
    let mut segs: Vec<Segment> = Vec::new();
    segs.push(Segment { x1: 0, y1: 0, x2: 4_000_000, y2: -3_000_000 });
    segs.push(Segment { x1: 0, y1: 0, x2: 4_000_000, y2: 3_000_000 });
    segs.push(Segment { x1: 0, y1: 0, x2: length_micro, y2: 0 });
    segs.push(
        Segment { x1: length_micro, y1: 0, x2: length_micro - 4_000_000, y2: -3_000_000 },
    );
    segs.push(
        Segment { x1: length_micro, y1: 0, x2: length_micro - 4_000_000, y2: 3_000_000 },
    );
    proof {
        assert(segs@ =~= arrow_segments_spec(length_micro as int));
    }
    segs
}

/// Where an arrow's label sits in the arrow's own frame: centred on the
/// line, offset perpendicular to it.
pub fn label_anchor(length_micro: i64) -> (pos: (i64, i64))
    requires
        0 <= length_micro <= 1_000_000_000_000,
    ensures
        pos.0 as int == length_micro / 2 - 15_000_000,
        pos.1 == -5_000_000,
{
    (length_micro / 2 - 15_000_000, -5_000_000)
}

/// The projector is deterministic: two front views produced from the same
/// model and scale hold identical primitive sets and canvas extents.
pub proof fn lemma_front_view_deterministic(
    m: CabinetModel,
    scale_micro: u64,
    v1: FrontView,
    v2: FrontView,
)
    requires
        v1.primitives@ == front_view_primitives(m),
        v2.primitives@ == front_view_primitives(m),
        v1.canvas_width_micro as int == canvas_extent_micro(
            m.port_external_width as int,
            scale_micro as int,
        ),
        v2.canvas_width_micro as int == canvas_extent_micro(
            m.port_external_width as int,
            scale_micro as int,
        ),
        v1.canvas_height_micro as int == canvas_extent_micro(
            m.port_external_height as int,
            scale_micro as int,
        ),
        v2.canvas_height_micro as int == canvas_extent_micro(
            m.port_external_height as int,
            scale_micro as int,
        ),
    ensures
        v1.primitives@ == v2.primitives@,
        v1.canvas_width_micro == v2.canvas_width_micro,
        v1.canvas_height_micro == v2.canvas_height_micro,
{
}

/// The projector is deterministic: two side views produced from the same
/// model and scale hold identical primitive sets, flare cosines, and
/// canvas extents.
pub proof fn lemma_side_view_deterministic(
    m: CabinetModel,
    scale_micro: u64,
    v1: SideView,
    v2: SideView,
)
    requires
        v1.primitives@ == side_view_primitives(m),
        v2.primitives@ == side_view_primitives(m),
        v1.flare_cos_micro as int == m.spec_flare_cos_micro(),
        v2.flare_cos_micro as int == m.spec_flare_cos_micro(),
        v1.canvas_width_micro as int == canvas_extent_micro(
            m.port_length as int,
            scale_micro as int,
        ),
        v2.canvas_width_micro as int == canvas_extent_micro(
            m.port_length as int,
            scale_micro as int,
        ),
        v1.canvas_height_micro as int == canvas_extent_micro(
            m.port_external_height as int,
            scale_micro as int,
        ),
        v2.canvas_height_micro as int == canvas_extent_micro(
            m.port_external_height as int,
            scale_micro as int,
        ),
    ensures
        v1.primitives@ == v2.primitives@,
        v1.flare_cos_micro == v2.flare_cos_micro,
        v1.canvas_width_micro == v2.canvas_width_micro,
        v1.canvas_height_micro == v2.canvas_height_micro,
{
}

} // verus!
