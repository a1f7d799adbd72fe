//! The dimension model: raw integer port dimensions, their widened
//! fixed-point counterpart, and the derived acoustic quantities.
//!
//! A `CabinetDimensions` value is what the editing collaborator owns: five
//! non-negative integers, millimetres except the box volume in litres.  A
//! `CabinetModel` is the snapshot the computations run on, with every field
//! widened to 64 bits.  The derived quantities come out in micro-units
//! (micro-millimetres, micro-hertz, and a dimensionless micro-ratio), each
//! pinned to an exact integer formula; domain violations surface as a
//! `ModelError` instead of a number.

use vstd::prelude::*;

verus! {

use crate::arith::{
    isqrt_u128, lemma_sqrt_floor_exists, lemma_sqrt_floor_monotonic, lemma_sqrt_floor_of_square,
    sqrt_floor, MICRO,
};

/// Largest accepted value for any raw dimension (millimetres or litres).
/// Within this range every fixed-point intermediate of the model fits in
/// 128 bits and every result in 64; ten metres of duct or ten cubic metres
/// of box are far beyond any speaker cabinet.
pub const MAX_DIMENSION: u64 = 10_000;

/// Speed of sound in air at room temperature, metres per second.
pub const SPEED_OF_SOUND: u64 = 343;

/// Empirical end-correction coefficient for this flare profile (0.576),
/// carried as a per-mille numerator.
pub const END_CORRECTION_PER_MILLE: u64 = 576;

/// The circle constant scaled by `10^15`: pi = PI_FEMTO / 10^15.
pub const PI_FEMTO: u64 = 3_141_592_653_589_793;

/// Raw user-entered dimensions: millimetres, except `box_volume` in litres.
#[derive(Clone, Copy, Debug, PartialEq, Eq, Structural)]
pub struct CabinetDimensions {
    pub port_length: u32,
    pub port_flare_radius: u32,
    pub port_external_width: u32,
    pub port_external_height: u32,
    pub box_volume: u32,
}

/// The starting dimensions offered when the application opens.
pub open spec fn default_dimensions() -> CabinetDimensions {
    CabinetDimensions {
        port_length: 120,
        port_flare_radius: 120,
        port_external_width: 100,
        port_external_height: 92,
        box_volume: 161,
    }
}

impl Default for CabinetDimensions {
    /// The dimensions of a well-proportioned reference cabinet.
    fn default() -> (d: Self)
        ensures
            d == default_dimensions(),
    {
        CabinetDimensions {
            port_length: 120,
            port_flare_radius: 120,
            port_external_width: 100,
            port_external_height: 92,
            box_volume: 161,
        }
    }
}

impl CabinetDimensions {
    /// All five dimensions lie within the supported range.
    pub open spec fn in_range(self) -> bool {
        &&& self.port_length <= MAX_DIMENSION
        &&& self.port_flare_radius <= MAX_DIMENSION
        &&& self.port_external_width <= MAX_DIMENSION
        &&& self.port_external_height <= MAX_DIMENSION
        &&& self.box_volume <= MAX_DIMENSION
    }

    /// Tests whether the dimensions lie within the supported range.
    pub fn fits(&self) -> (b: bool)
        ensures
            b == self.in_range(),
    {
        self.port_length as u64 <= MAX_DIMENSION && self.port_flare_radius as u64 <= MAX_DIMENSION
            && self.port_external_width as u64 <= MAX_DIMENSION
            && self.port_external_height as u64 <= MAX_DIMENSION
            && self.box_volume as u64 <= MAX_DIMENSION
    }
}

/// Why a derived quantity is undefined for the current dimensions.
#[derive(Clone, Copy, Debug, PartialEq, Eq, Structural)]
pub enum ModelError {
    /// The flare radius is smaller than half the duct length (the arc
    /// formulas leave their domain), or the derived minimum diameter is
    /// negative, or the duct degenerates to a point.
    InvalidGeometry,
    /// A zero box volume or flare radius would divide by zero.
    DegenerateConfiguration,
}

/// The model snapshot the computations run on: the raw dimensions widened
/// to 64 bits, units unchanged (millimetres; litres for `box_volume`).
#[derive(Clone, Copy, Debug, PartialEq, Eq, Structural)]
pub struct CabinetModel {
    pub port_length: u64,
    pub port_flare_radius: u64,
    pub port_external_width: u64,
    pub port_external_height: u64,
    pub box_volume: u64,
}

/// The model a dimensions snapshot widens to.
pub open spec fn model_of_dimensions(d: CabinetDimensions) -> CabinetModel {
    CabinetModel {
        port_length: d.port_length as u64,
        port_flare_radius: d.port_flare_radius as u64,
        port_external_width: d.port_external_width as u64,
        port_external_height: d.port_external_height as u64,
        box_volume: d.box_volume as u64,
    }
}

impl From<CabinetDimensions> for CabinetModel {
    fn from(d: CabinetDimensions) -> (m: Self) {
        CabinetModel {
            port_length: d.port_length as u64,
            port_flare_radius: d.port_flare_radius as u64,
            port_external_width: d.port_external_width as u64,
            port_external_height: d.port_external_height as u64,
            box_volume: d.box_volume as u64,
        }
    }
}

impl vstd::std_specs::convert::FromSpecImpl<CabinetDimensions> for CabinetModel {
    open spec fn obeys_from_spec() -> bool {
        true
    }

    open spec fn from_spec(d: CabinetDimensions) -> CabinetModel {
        model_of_dimensions(d)
    }
}

/// Cosine of the flare start angle in micro-units: `(l/2) / r`, rounded
/// down at the sixth decimal place.
pub open spec fn flare_cos_micro(l: int, r: int) -> int
    recommends
        r > 0,
{
    l * 500_000 / r
}

/// The square root term of the minimum-diameter formula,
/// `sqrt(r^2 - (l/2)^2)`, in micro-millimetres rounded down.
pub open spec fn flare_sqrt_micro(l: int, r: int) -> int
    recommends
        0 <= l <= 2 * r,
{
    sqrt_floor(r * r * 1_000_000_000_000 - l * l * 250_000_000_000)
}

/// Minimum duct radius in micro-millimetres: `h/2 - (r - sqrt(r^2 - (l/2)^2))`.
/// Negative when the flare recedes past the midline.
pub open spec fn min_radius_micro(l: int, r: int, h: int) -> int {
    h * 500_000 + flare_sqrt_micro(l, r) - r * 1_000_000
}

/// Minimum internal duct diameter in micro-millimetres; twice the minimum
/// radius.
pub open spec fn min_diameter_micro(l: int, r: int, h: int) -> int {
    2 * min_radius_micro(l, r, h)
}

/// Normalized flare ratio in micro-units: duct length over twice the flare
/// radius, `l / (2 r)`, rounded down at the sixth decimal place.
pub open spec fn nfr_micro(l: int, r: int) -> int
    recommends
        r > 0,
{
    l * 500_000 / r
}

/// Helmholtz resonant frequency in micro-hertz, as the exact fixed-point
/// evaluation of `(343 / 2 pi) * sqrt(A_eff / (L_eff * V))` with all
/// lengths in metres: the effective area `A_eff` is the minimum
/// rectangular opening `d * w` inflated by the end-correction factor
/// `1 + 0.576 * l / (2 r)`, and the effective length `L_eff` is the duct
/// lengthened by one minimum diameter of end-effect mass loading.
pub open spec fn frequency_micro(l: int, r: int, w: int, h: int, v: int) -> int
    recommends
        r > 0,
        v > 0,
        0 <= l <= 2 * r,
        min_diameter_micro(l, r, h) >= 0,
        l + h > 0,
{
    let d = min_diameter_micro(l, r, h);
    let numer = d * w * (2000 * r + (END_CORRECTION_PER_MILLE as int) * l);
    let denom = 2000 * r * (l * 1_000_000 + d) * v;
    let root = sqrt_floor(numer * 1_000_000_000_000 / denom);
    (SPEED_OF_SOUND as int) * root * 1_000_000_000_000_000 / (2 * (PI_FEMTO as int))
}

/// The square-root term of the minimum-diameter formula never exceeds the
/// flare radius, so the minimum diameter never exceeds the external height.
pub proof fn lemma_min_diameter_upper(l: int, r: int, h: int)
    requires
        0 <= l <= 2 * r,
    ensures
        0 <= flare_sqrt_micro(l, r) <= r * 1_000_000,
        min_diameter_micro(l, r, h) <= h * 1_000_000,
{
    let n = r * r * 1_000_000_000_000 - l * l * 250_000_000_000;
    assert(0 <= n <= (r * 1_000_000) * (r * 1_000_000)) by (nonlinear_arith)
        requires
            0 <= l <= 2 * r,
            n == r * r * 1_000_000_000_000 - l * l * 250_000_000_000,
    ;
    lemma_sqrt_floor_exists(n);
    lemma_sqrt_floor_monotonic(n, (r * 1_000_000) * (r * 1_000_000));
    lemma_sqrt_floor_of_square(r * 1_000_000);
}

/// With no straight duct section the flare arc spans a half circle and the
/// minimum diameter equals the external height.
pub proof fn lemma_min_diameter_zero_length(r: int, h: int)
    requires
        r >= 0,
    ensures
        min_diameter_micro(0, r, h) == h * 1_000_000,
{
    assert(r * r * 1_000_000_000_000 - 0 * 0 * 250_000_000_000 == (r * 1_000_000) * (r
        * 1_000_000)) by (nonlinear_arith);
    lemma_sqrt_floor_of_square(r * 1_000_000);
}

/// The flare start angle `alpha = acos((l/2) / r)`, represented exactly by
/// its cosine in micro-units.  `alpha` itself is transcendental; a renderer
/// recovers it as `acos(cos_micro / 10^6)`, which lies in `[0, pi/2]`
/// because the cosine lies in `[0, 1]`.
#[derive(Clone, Copy, Debug, PartialEq, Eq, Structural)]
pub struct FlareAngle {
    pub cos_micro: u64,
}

impl CabinetModel {
    /// All five dimensions lie within the supported range.
    pub open spec fn in_range(self) -> bool {
        &&& self.port_length <= MAX_DIMENSION
        &&& self.port_flare_radius <= MAX_DIMENSION
        &&& self.port_external_width <= MAX_DIMENSION
        &&& self.port_external_height <= MAX_DIMENSION
        &&& self.box_volume <= MAX_DIMENSION
    }

    /// Tests whether the model lies within the supported range.
    pub fn fits(&self) -> (b: bool)
        ensures
            b == self.in_range(),
    {
        self.port_length <= MAX_DIMENSION && self.port_flare_radius <= MAX_DIMENSION
            && self.port_external_width <= MAX_DIMENSION
            && self.port_external_height <= MAX_DIMENSION && self.box_volume <= MAX_DIMENSION
    }

    /// The arc formulas are on their domain: a positive flare radius at
    /// least half the duct length.
    pub open spec fn flare_domain_ok(self) -> bool {
        self.port_flare_radius > 0 && self.port_length <= 2 * self.port_flare_radius
    }

    /// Cosine of the flare start angle, over the model's own fields.
    pub open spec fn spec_flare_cos_micro(self) -> int {
        flare_cos_micro(self.port_length as int, self.port_flare_radius as int)
    }

    /// Minimum internal diameter, over the model's own fields.
    pub open spec fn spec_min_diameter_micro(self) -> int {
        min_diameter_micro(
            self.port_length as int,
            self.port_flare_radius as int,
            self.port_external_height as int,
        )
    }

    /// Normalized flare ratio, over the model's own fields.
    pub open spec fn spec_nfr_micro(self) -> int {
        nfr_micro(self.port_length as int, self.port_flare_radius as int)
    }

    /// Resonant frequency, over the model's own fields.
    pub open spec fn spec_frequency_micro(self) -> int {
        frequency_micro(
            self.port_length as int,
            self.port_flare_radius as int,
            self.port_external_width as int,
            self.port_external_height as int,
            self.box_volume as int,
        )
    }

    /// The geometry is physically buildable: the arc formulas are on their
    /// domain and the minimum diameter is not negative.
    pub open spec fn geometry_ok(self) -> bool {
        self.port_length <= 2 * self.port_flare_radius && self.spec_min_diameter_micro() >= 0
    }

    /// A zero box volume or flare radius makes the resonance formula
    /// divide by zero.
    pub open spec fn degenerate(self) -> bool {
        self.box_volume == 0 || self.port_flare_radius == 0
    }

    /// The resonant frequency is defined: nothing degenerate, a buildable
    /// geometry, and an effective duct of positive length.
    pub open spec fn frequency_defined(self) -> bool {
        &&& !self.degenerate()
        &&& self.geometry_ok()
        &&& !(self.port_length == 0 && self.port_external_height == 0)
    }

    /// The angular position on the flare arc where the straight duct
    /// section begins, `alpha = acos((l/2) / r)`, as its exact cosine.
    /// Undefined (never a silent not-a-number) outside the arc domain.
    pub fn port_flare_arc_start(&self) -> (res: Result<FlareAngle, ModelError>)
        ensures
            res is Ok <==> self.flare_domain_ok(),
            res matches Err(e) ==> e is InvalidGeometry,
            res matches Ok(a) ==> a.cos_micro as int == self.spec_flare_cos_micro(),
            res matches Ok(a) ==> 0 <= a.cos_micro <= MICRO,
    {
        let l = self.port_length;
        let r = self.port_flare_radius;
        if r == 0 || (l as u128) > 2 * (r as u128) {
            return Err(ModelError::InvalidGeometry);
        }
        let cos_wide: u128 = (l as u128) * 500_000 / (r as u128);
        proof {
            assert((l as int) * 500_000 / (r as int) <= (r as int) * 1_000_000 / (r as int)) by {
                assert((l as int) * 500_000 <= (r as int) * 1_000_000) by (nonlinear_arith)
                    requires
                        l <= 2 * (r as int),
                ;
                vstd::arithmetic::div_mod::lemma_div_is_ordered(
                    (l as int) * 500_000,
                    (r as int) * 1_000_000,
                    r as int,
                );
            }
            assert((r as int) * 1_000_000 / (r as int) == 1_000_000) by (nonlinear_arith)
                requires
                    r > 0,
            ;
        }
        Ok(FlareAngle { cos_micro: cos_wide as u64 })
    }

    /// The minimum internal duct diameter in micro-millimetres:
    /// `h - 2 (r - sqrt(r^2 - (l/2)^2))`.  A negative result means the
    /// flare is too aggressive for this height; it is reported, not hidden.
    pub fn port_min_diameter(&self) -> (res: Result<i64, ModelError>)
        requires
            self.in_range(),
        ensures
            res is Ok <==> self.port_length <= 2 * self.port_flare_radius,
            res matches Err(e) ==> e is InvalidGeometry,
            res matches Ok(d) ==> d as int == self.spec_min_diameter_micro(),
    {
        let l = self.port_length;
        let r = self.port_flare_radius;
        let h = self.port_external_height;
        if l > 2 * r {
            return Err(ModelError::InvalidGeometry);
        }
        let r_micro: u128 = (r as u128) * 1_000_000;
        let half_l_micro: u128 = (l as u128) * 500_000;
        proof {
            assert(half_l_micro * half_l_micro <= r_micro * r_micro
                <= 100_000_000_000_000_000_000) by (nonlinear_arith)
                requires
                    0 <= half_l_micro <= r_micro <= 10_000_000_000,
            ;
            assert((r_micro as int) * (r_micro as int) == (r as int) * (r as int)
                * 1_000_000_000_000) by (nonlinear_arith)
                requires
                    r_micro == (r as int) * 1_000_000,
            ;
            assert((half_l_micro as int) * (half_l_micro as int) == (l as int) * (l as int)
                * 250_000_000_000) by (nonlinear_arith)
                requires
                    half_l_micro == (l as int) * 500_000,
            ;
        }
        let s: u128 = isqrt_u128(r_micro * r_micro - half_l_micro * half_l_micro);
        proof {
            lemma_sqrt_floor_monotonic(
                (r as int) * (r as int) * 1_000_000_000_000 - (l as int) * (l as int)
                    * 250_000_000_000,
                (r_micro as int) * (r_micro as int),
            );
            lemma_sqrt_floor_of_square(r_micro as int);
        }
        let min_radius: i128 = (h as i128) * 500_000 + (s as i128) - (r as i128) * 1_000_000;
        Ok((2 * min_radius) as i64)
    }

    /// The normalized flare ratio in micro-units: duct length over twice
    /// the flare radius.  Near one half counts as well proportioned; the
    /// value is advisory and computed whenever the radius is non-zero.
    pub fn nfr_ratio(&self) -> (res: Result<u64, ModelError>)
        requires
            self.in_range(),
        ensures
            res is Ok <==> self.port_flare_radius > 0,
            res matches Err(e) ==> e is DegenerateConfiguration,
            res matches Ok(q) ==> q as int == self.spec_nfr_micro(),
    {
        let r = self.port_flare_radius;
        if r == 0 {
            return Err(ModelError::DegenerateConfiguration);
        }
        Ok(self.port_length * 500_000 / r)
    }

    /// The Helmholtz resonant frequency estimate in micro-hertz, with the
    /// empirical end correction for this flare profile.  Degenerate
    /// dimensions (zero box volume or flare radius) and unbuildable
    /// geometry are reported as errors, never as a number.
    pub fn resonant_frequency(&self) -> (res: Result<u64, ModelError>)
        requires
            self.in_range(),
        ensures
            res is Ok <==> self.frequency_defined(),
            res matches Ok(f) ==> f as int == self.spec_frequency_micro(),
            res matches Err(e) ==> (e is DegenerateConfiguration <==> self.degenerate()),
    {
        let l = self.port_length;
        let r = self.port_flare_radius;
        let w = self.port_external_width;
        let h = self.port_external_height;
        let v = self.box_volume;
        if v == 0 || r == 0 {
            return Err(ModelError::DegenerateConfiguration);
        }
        let d_signed = match self.port_min_diameter() {
            Ok(d) => d,
            Err(e) => {
                return Err(e);
            },
        };
        if d_signed < 0 {
            return Err(ModelError::InvalidGeometry);
        }
        if l == 0 && h == 0 {
            return Err(ModelError::InvalidGeometry);
        }
        let du: u128 = d_signed as u128;
        proof {
            lemma_min_diameter_upper(l as int, r as int, h as int);
            if l == 0 {
                lemma_min_diameter_zero_length(r as int, h as int);
            }
            assert(du * (w as int) <= 100_000_000_000_000) by (nonlinear_arith)
                requires
                    0 <= du <= 10_000_000_000,
                    0 <= w <= 10_000,
            ;
            assert(du * (w as int) * (2000 * (r as int) + 576 * (l as int))
                <= 2_576_000_000_000_000_000_000) by (nonlinear_arith)
                requires
                    0 <= du * (w as int) <= 100_000_000_000_000,
                    0 <= 2000 * (r as int) + 576 * (l as int) <= 25_760_000,
            ;
        }
        let factor: u128 = 2000 * (r as u128) + (END_CORRECTION_PER_MILLE as u128) * (l as u128);
        let numer: u128 = du * (w as u128) * factor;
        let l_micro: u128 = (l as u128) * 1_000_000;
        proof {
            assert(2000 * (r as int) * (l_micro + du) <= 400_000_000_000_000_000)
                by (nonlinear_arith)
                requires
                    0 <= 2000 * (r as int) <= 20_000_000,
                    0 <= l_micro + du <= 20_000_000_000,
            ;
            assert(2000 * (r as int) * ((l_micro + du) as int) * (v as int)
                <= 4_000_000_000_000_000_000_000) by (nonlinear_arith)
                requires
                    0 <= 2000 * (r as int) * ((l_micro + du) as int) <= 400_000_000_000_000_000,
                    0 <= v <= 10_000,
            ;
            assert(l_micro + du >= 1_000_000);
            assert(2000 * (r as int) * ((l_micro + du) as int) * (v as int) >= 1)
                by (nonlinear_arith)
                requires
                    r >= 1,
                    v >= 1,
                    l_micro + du >= 1,
            ;
        }
        let denom: u128 = 2000 * (r as u128) * (l_micro + du) * (v as u128);
        let scaled: u128 = numer * 1_000_000_000_000 / denom;
        proof {
            vstd::arithmetic::div_mod::lemma_div_nonincreasing(
                (numer * 1_000_000_000_000) as int,
                denom as int,
            );
        }
        let root: u128 = isqrt_u128(scaled);
        proof {
            assert(root <= 60_000_000_000_000_000) by (nonlinear_arith)
                requires
                    0 <= root,
                    root * root <= 2_576_000_000_000_000_000_000_000_000_000_000,
            ;
            vstd::arithmetic::div_mod::lemma_div_is_ordered(
                (343 * root * 1_000_000_000_000_000) as int,
                20_580_000_000_000_000_000_000_000_000_000_000int,
                6_283_185_307_179_586int,
            );
        }
        let f: u128 = (SPEED_OF_SOUND as u128) * root * 1_000_000_000_000_000 / (2
            * (PI_FEMTO as u128));
        Ok(f as u64)
    }
}

/// Holding every other dimension fixed, a larger box volume never raises
/// the resonant frequency.  In exact real arithmetic the decrease is
/// strict; the fixed-point result may round two nearby frequencies to the
/// same micro-hertz value, so the order here is non-strict.
pub proof fn lemma_frequency_antitone_in_volume(m1: CabinetModel, m2: CabinetModel)
    requires
        m1.port_length == m2.port_length,
        m1.port_flare_radius == m2.port_flare_radius,
        m1.port_external_width == m2.port_external_width,
        m1.port_external_height == m2.port_external_height,
        m1.box_volume <= m2.box_volume,
        m1.frequency_defined(),
    ensures
        m2.frequency_defined(),
        m2.spec_frequency_micro() <= m1.spec_frequency_micro(),
{
    let l = m1.port_length as int;
    let r = m1.port_flare_radius as int;
    let w = m1.port_external_width as int;
    let h = m1.port_external_height as int;
    let v1 = m1.box_volume as int;
    let v2 = m2.box_volume as int;
    let d = min_diameter_micro(l, r, h);
    lemma_min_diameter_upper(l, r, h);
    if l == 0 {
        lemma_min_diameter_zero_length(r, h);
    }
    let numer = d * w * (2000 * r + 576 * l);
    let base = 2000 * r * (l * 1_000_000 + d);
    assert(numer >= 0) by (nonlinear_arith)
        requires
            d >= 0,
            w >= 0,
            2000 * r + 576 * l >= 0,
            numer == d * w * (2000 * r + 576 * l),
    ;
    assert(1 <= base * v1 <= base * v2) by (nonlinear_arith)
        requires
            r >= 1,
            l * 1_000_000 + d >= 1,
            1 <= v1 <= v2,
            base == 2000 * r * (l * 1_000_000 + d),
    ;
    vstd::arithmetic::div_mod::lemma_div_is_ordered_by_denominator(
        numer * 1_000_000_000_000,
        base * v1,
        base * v2,
    );
    let s1 = numer * 1_000_000_000_000 / (base * v1);
    let s2 = numer * 1_000_000_000_000 / (base * v2);
    vstd::arithmetic::div_mod::lemma_div_pos_is_pos(numer * 1_000_000_000_000, base * v2);
    lemma_sqrt_floor_monotonic(s2, s1);
    vstd::arithmetic::div_mod::lemma_div_is_ordered(
        343 * sqrt_floor(s2) * 1_000_000_000_000_000,
        343 * sqrt_floor(s1) * 1_000_000_000_000_000,
        2 * 3_141_592_653_589_793int,
    );
}

/// Re-deriving the physical model from the same raw dimensions yields
/// identical results, as do the quantities derived from it: the model is
/// a pure function of its snapshot, with no hidden state.
pub proof fn lemma_model_derivation_deterministic(
    d: CabinetDimensions,
    m1: CabinetModel,
    m2: CabinetModel,
)
    requires
        m1 == model_of_dimensions(d),
        m2 == model_of_dimensions(d),
    ensures
        m1 == m2,
        m1.spec_flare_cos_micro() == m2.spec_flare_cos_micro(),
        m1.spec_min_diameter_micro() == m2.spec_min_diameter_micro(),
        m1.spec_nfr_micro() == m2.spec_nfr_micro(),
        m1.spec_frequency_micro() == m2.spec_frequency_micro(),
{
}

/// At the boundary of the arc domain, where the flare radius is exactly
/// half the duct length, the start angle is zero: its cosine is one.
pub proof fn lemma_arc_start_at_boundary(m: CabinetModel)
    requires
        m.port_flare_radius > 0,
        m.port_length == 2 * m.port_flare_radius,
    ensures
        m.spec_flare_cos_micro() == MICRO,
{
    let r = m.port_flare_radius as int;
    assert(r * 1_000_000 / r == 1_000_000) by (nonlinear_arith)
        requires
            r > 0,
    ;
    assert((2 * r) * 500_000 == r * 1_000_000);
}

} // verus!
