use vstd::arithmetic::div_mod::{
    lemma_basic_div, lemma_div_nonincreasing, lemma_div_pos_is_pos, lemma_fundamental_div_mod,
    lemma_hoist_over_denominator, lemma_mod_bound,
};
use vstd::arithmetic::mul::{
    lemma_mul_nonnegative, lemma_mul_strictly_positive, lemma_mul_upper_bound,
};
use vstd::prelude::*;

use crate::axis::Axis;
use crate::bounding_box::{spec_max, BoundingBox};
use crate::vec3::Vec3;

verus! {

/// Fixed-point scale for tangent values: a field of view whose half-angle
/// tangent is `x` is passed as the integer `x * TAN_SCALE`, rounded.
pub const TAN_SCALE: i64 = 1_000_000;

/// Fallback camera distance, in coordinate units, for a volume that imposes
/// no constraint at all (a single point or an empty mesh).
pub const MIN_CAMERA_DISTANCE: i64 = 65536;

/// Largest camera distance the planner can represent; a configuration whose
/// required distance exceeds this cannot be framed.
pub const MAX_CAMERA_DISTANCE: i64 = 0x2000_0000_0000_0000;

/// A rejected render configuration.
#[derive(Clone, Copy, PartialEq, Eq, Structural, Debug)]
pub enum ConfigError {
    /// The output image width or height is zero.
    InvalidDimensions,
    /// The vertical field of view is out of range: its scaled half-angle
    /// tangent is not positive.
    InvalidFieldOfView,
}

/// A perspective camera placement: a position on one world axis, looking at
/// the origin, with the configured image size and field of view, and clip
/// distances that bracket the framed volume. Produced once per render,
/// immutable thereafter.
#[derive(Clone, Copy, PartialEq, Eq, Structural, Debug)]
pub struct CameraPlacement {
    /// Where the camera stands: `distance` along the chosen axis.
    pub position: Vec3,
    /// What the camera looks at: always the world origin.
    pub target: Vec3,
    /// Output image width in pixels.
    pub width: u32,
    /// Output image height in pixels.
    pub height: u32,
    /// The vertical field of view, as its scaled half-angle tangent.
    pub tan_half_fovy: i64,
    /// Distance from the origin to the camera, in coordinate units.
    pub distance: i64,
    /// Near clip distance: strictly between zero and the volume's near face.
    pub znear: i64,
    /// Far clip distance: strictly beyond the volume's far face.
    pub zfar: i64,
}

/// The quotient of `a` and `b`, rounded up.
pub open spec fn spec_ceil_div(a: int, b: int) -> int {
    (a + b - 1) / b
}

/// Half of `d`, rounded up.
pub open spec fn spec_half_up(d: int) -> int {
    (d + 1) / 2
}

/// The point `dist` along the positive direction of `axis`.
pub open spec fn spec_axis_point(axis: Axis, dist: i64) -> Vec3 {
    match axis {
        Axis::X => Vec3 { x: dist, y: 0, z: 0 },
        Axis::Y => Vec3 { x: 0, y: dist, z: 0 },
        Axis::Z => Vec3 { x: 0, y: 0, z: dist },
    }
}

/// Camera distance needed for the volume's projected height to fit the
/// vertical field of view: `(h/2) / tan(fovy/2) + d/2`, in fixed point,
/// rounded up.
pub open spec fn spec_dist_vertical(h: int, d: int, t: int) -> int {
    spec_ceil_div(h * TAN_SCALE, 2 * t) + spec_half_up(d)
}

/// Camera distance needed for the volume's projected width to fit the
/// horizontal field of view, whose half-angle tangent is the vertical one
/// times the aspect ratio `width / height`: `(w/2) / (tan(fovy/2) *
/// width/height) + d/2`, in fixed point, rounded up.
pub open spec fn spec_dist_horizontal(w: int, d: int, t: int, width: int, height: int) -> int {
    spec_ceil_div(w * TAN_SCALE * height, 2 * t * width) + spec_half_up(d)
}

impl BoundingBox {
    /// The volume's extent along `axis`.
    pub open spec fn spec_extent_along(self, axis: Axis) -> int {
        match axis {
            Axis::X => self.spec_dx(),
            Axis::Y => self.spec_dy(),
            Axis::Z => self.spec_dz(),
        }
    }

    /// The volume extent that maps to the screen's horizontal direction when
    /// looking down `axis`.
    pub open spec fn spec_width_across(self, axis: Axis) -> int {
        match axis {
            Axis::X => self.spec_dz(),
            Axis::Y => self.spec_dx(),
            Axis::Z => self.spec_dx(),
        }
    }

    /// The volume extent that maps to the screen's vertical direction when
    /// looking down `axis`.
    pub open spec fn spec_height_across(self, axis: Axis) -> int {
        match axis {
            Axis::X => self.spec_dy(),
            Axis::Y => self.spec_dz(),
            Axis::Z => self.spec_dy(),
        }
    }
}

/// The planned camera distance: the larger of the vertical and horizontal
/// required distances, padded by a safety margin of one eighth plus two
/// units, and never below the fixed minimum distance.
pub open spec fn spec_camera_distance(
    bb: BoundingBox,
    width: int,
    height: int,
    t: int,
    axis: Axis,
) -> int {
    let dv = spec_dist_vertical(bb.spec_height_across(axis), bb.spec_extent_along(axis), t);
    let dh = spec_dist_horizontal(
        bb.spec_width_across(axis),
        bb.spec_extent_along(axis),
        t,
        width,
        height,
    );
    let raw = spec_max(dv, dh);
    spec_max(raw + raw / 8 + 2, MIN_CAMERA_DISTANCE as int)
}

/// The planned near clip distance: half way between the origin plane and the
/// volume's near face.
pub open spec fn spec_znear(bb: BoundingBox, width: int, height: int, t: int, axis: Axis) -> int {
    (spec_camera_distance(bb, width, height, t, axis) - spec_half_up(bb.spec_extent_along(axis)))
        / 2
}

/// The planned far clip distance: one unit beyond the volume's far face.
pub open spec fn spec_zfar(bb: BoundingBox, width: int, height: int, t: int, axis: Axis) -> int {
    spec_camera_distance(bb, width, height, t, axis) + spec_half_up(bb.spec_extent_along(axis)) + 1
}

/// The quotient of `a` and `b`, rounded up.
fn ceil_div_u128(a: u128, b: u128) -> (r: u128)
    requires
        1 <= b,
    ensures
        r == spec_ceil_div(a as int, b as int),
        r <= a,
{
    if a == 0 {
        proof {
            lemma_basic_div(b - 1, b as int);
        }
        0
    } else {
        proof {
            lemma_div_nonincreasing(a - 1, b as int);
            lemma_hoist_over_denominator(a - 1, 1, b as nat);
        }
        (a - 1) / b + 1
    }
}

/// Rounding a quotient up never under-shoots: `b * ceil(a / b) >= a`.
proof fn lemma_ceil_div_lower(a: int, b: int)
    requires
        0 <= a,
        1 <= b,
    ensures
        0 <= spec_ceil_div(a, b),
        b * spec_ceil_div(a, b) >= a,
{
    lemma_fundamental_div_mod(a + b - 1, b);
    lemma_mod_bound(a + b - 1, b);
    lemma_div_pos_is_pos(a + b - 1, b);
}

/// Half rounded up is at least half: `2 * spec_half_up(d) >= d`.
proof fn lemma_half_up_at_least_half(d: int)
    ensures
        2 * spec_half_up(d) >= d,
        d >= 0 ==> spec_half_up(d) >= 0,
{
    lemma_fundamental_div_mod(d + 1, 2);
    lemma_mod_bound(d + 1, 2);
    if d >= 0 {
        lemma_div_pos_is_pos(d + 1, 2);
    }
}

impl BoundingBox {
    /// Place the camera on `axis`, looking at the origin, far enough away
    /// that the whole volume fits inside the view frustum both vertically
    /// and horizontally, with clip planes bracketing the volume.
    ///
    /// An invalid configuration (zero image dimension, or a field of view
    /// whose scaled half-angle tangent is not positive) is rejected, not
    /// clamped. A volume that imposes no constraint at all yields the fixed
    /// minimum distance; a zero extent contributes no constraint and no
    /// division by it ever happens.
    pub fn pick_camera_position(
        &self,
        width: u32,
        height: u32,
        tan_half_fovy: i64,
        axis: &Axis,
    ) -> (r: Result<CameraPlacement, ConfigError>)
        requires
            self.wf(),
            width > 0 && height > 0 && tan_half_fovy > 0 ==> spec_camera_distance(
                *self,
                width as int,
                height as int,
                tan_half_fovy as int,
                *axis,
            ) <= MAX_CAMERA_DISTANCE,
        ensures
            r is Err <==> (width == 0 || height == 0 || tan_half_fovy <= 0),
            (width == 0 || height == 0) ==> r == Result::<CameraPlacement, ConfigError>::Err(
                ConfigError::InvalidDimensions,
            ),
            (width > 0 && height > 0 && tan_half_fovy <= 0) ==> r == Result::<
                CameraPlacement,
                ConfigError,
            >::Err(ConfigError::InvalidFieldOfView),
            r is Ok ==> r->Ok_0.distance == spec_camera_distance(
                *self,
                width as int,
                height as int,
                tan_half_fovy as int,
                *axis,
            ),
            r is Ok ==> r->Ok_0.distance >= MIN_CAMERA_DISTANCE,
            r is Ok ==> r->Ok_0.position == spec_axis_point(*axis, r->Ok_0.distance),
            r is Ok ==> r->Ok_0.target == (Vec3 { x: 0, y: 0, z: 0 }),
            r is Ok ==> r->Ok_0.width == width && r->Ok_0.height == height
                && r->Ok_0.tan_half_fovy == tan_half_fovy,
            r is Ok ==> r->Ok_0.znear == spec_znear(
                *self,
                width as int,
                height as int,
                tan_half_fovy as int,
                *axis,
            ),
            r is Ok ==> r->Ok_0.zfar == spec_zfar(
                *self,
                width as int,
                height as int,
                tan_half_fovy as int,
                *axis,
            ),
            r is Ok ==> 0 < r->Ok_0.znear,
            r is Ok ==> 2 * r->Ok_0.znear < 2 * r->Ok_0.distance - self.spec_extent_along(*axis),
            r is Ok ==> 2 * r->Ok_0.zfar > 2 * r->Ok_0.distance + self.spec_extent_along(*axis),
    {
        if width == 0 || height == 0 {
            return Err(ConfigError::InvalidDimensions);
        }
        if tan_half_fovy <= 0 {
            return Err(ConfigError::InvalidFieldOfView);
        }

        let ex = self.dx();
        let ey = self.dy();
        let ez = self.dz();
        let (w, h, d): (i64, i64, i64) = match axis {
            Axis::X => (ez, ey, ex),
            Axis::Y => (ex, ez, ey),
            Axis::Z => (ex, ey, ez),
        };
        let wu: u128 = w as u128;
        let hu: u128 = h as u128;
        let du: u128 = d as u128;
        let tu: u128 = tan_half_fovy as u128;
        let wpx: u128 = width as u128;
        let hpx: u128 = height as u128;
        let s: u128 = TAN_SCALE as u128;

        let half_d = ceil_div_u128(du, 2);

        proof {
            lemma_mul_upper_bound(hu as int, 0x4000_0000_0000_0000int, s as int, 0x10_0000int);
        }
        let a1: u128 = hu * s;
        let b1: u128 = 2 * tu;
        let qv = ceil_div_u128(a1, b1);
        let dv: u128 = qv + half_d;

        proof {
            lemma_mul_upper_bound(wu as int, 0x4000_0000_0000_0000int, s as int, 0x10_0000int);
        }
        let ws: u128 = wu * s;
        proof {
            lemma_mul_upper_bound(
                ws as int,
                0x4_0000_0000_0000_0000_0000int,
                hpx as int,
                0x1_0000_0000int,
            );
        }
        let a2: u128 = ws * hpx;
        let t2: u128 = 2 * tu;
        proof {
            lemma_mul_upper_bound(
                t2 as int,
                0x1_0000_0000_0000_0000int,
                wpx as int,
                0x1_0000_0000int,
            );
        }
        let b2: u128 = t2 * wpx;
        proof {
            lemma_mul_strictly_positive(t2 as int, wpx as int);
        }
        let qh = ceil_div_u128(a2, b2);
        let dh: u128 = qh + half_d;

        let raw: u128 = if dv >= dh {
            dv
        } else {
            dh
        };
        let padded: u128 = raw + raw / 8 + 2;
        let min_u: u128 = MIN_CAMERA_DISTANCE as u128;
        let dist_u: u128 = if padded >= min_u {
            padded
        } else {
            min_u
        };

        let dist: i64 = dist_u as i64;
        let znear: i64 = ((dist_u - half_d) / 2) as i64;
        let zfar: i64 = dist + (half_d as i64) + 1;

        let position = match axis {
            Axis::X => Vec3 { x: dist, y: 0, z: 0 },
            Axis::Y => Vec3 { x: 0, y: dist, z: 0 },
            Axis::Z => Vec3 { x: 0, y: 0, z: dist },
        };
        let target = Vec3::origin();
        Ok(
            CameraPlacement {
                position,
                target,
                width,
                height,
                tan_half_fovy,
                distance: dist,
                znear,
                zfar,
            },
        )
    }
}

/// The frustum-fit law: at the planned camera distance, the volume's half
/// extents, projected through the frustum, stay inside the half-angle
/// bounds on both screen axes. In fixed point, with `dist` the planned
/// distance, `d` the extent along the axis, `h` and `w` the extents across
/// it, and `t` the scaled half-angle tangent:
/// `t * (2*dist - d) >= h * TAN_SCALE` (the vertical fit, the integer form
/// of `h/2 <= (dist - d/2) * tan(fovy/2)`), and
/// `(t*width) * (2*dist - d) >= (w * TAN_SCALE) * height` (the horizontal
/// fit, the integer form of `w/2 <= (dist - d/2) * tan(fovx/2)` with
/// `tan(fovx/2) = tan(fovy/2) * width/height`).
pub proof fn lemma_frustum_fit(bb: BoundingBox, width: int, height: int, t: int, axis: Axis)
    requires
        bb.wf(),
        1 <= t,
        1 <= width,
        1 <= height,
    ensures
        t * (2 * spec_camera_distance(bb, width, height, t, axis) - bb.spec_extent_along(axis))
            >= bb.spec_height_across(axis) * TAN_SCALE,
        (t * width) * (2 * spec_camera_distance(bb, width, height, t, axis)
            - bb.spec_extent_along(axis)) >= (bb.spec_width_across(axis) * TAN_SCALE) * height,
{
    let d = bb.spec_extent_along(axis);
    let h = bb.spec_height_across(axis);
    let w = bb.spec_width_across(axis);
    let hd = spec_half_up(d);
    let dv = spec_dist_vertical(h, d, t);
    let dh = spec_dist_horizontal(w, d, t, width, height);
    let raw = spec_max(dv, dh);
    let dist = spec_camera_distance(bb, width, height, t, axis);

    lemma_half_up_at_least_half(d);
    lemma_mul_nonnegative(h, TAN_SCALE as int);
    lemma_ceil_div_lower(h * TAN_SCALE, 2 * t);
    let qv = spec_ceil_div(h * TAN_SCALE, 2 * t);

    lemma_mul_nonnegative(w, TAN_SCALE as int);
    lemma_mul_nonnegative(w * TAN_SCALE, height);
    lemma_mul_strictly_positive(2 * t, width);
    lemma_ceil_div_lower(w * TAN_SCALE * height, 2 * t * width);
    let qh = spec_ceil_div(w * TAN_SCALE * height, 2 * t * width);

    lemma_div_pos_is_pos(raw, 8);
    assert(dist >= raw + 2);

    assert(2 * dist - d >= 2 * qv);
    assert(t * (2 * dist - d) >= h * TAN_SCALE) by (nonlinear_arith)
        requires
            (2 * t) * qv >= h * TAN_SCALE,
            2 * dist - d >= 2 * qv,
            t >= 1,
    ;

    assert(2 * dist - d >= 2 * qh);
    assert((t * width) * (2 * dist - d) >= (w * TAN_SCALE) * height) by (nonlinear_arith)
        requires
            (2 * t * width) * qh >= (w * TAN_SCALE) * height,
            2 * dist - d >= 2 * qh,
            t >= 1,
            width >= 1,
    ;
}

} // verus!
