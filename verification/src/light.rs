use vstd::prelude::*;

use crate::axis::Axis;
use crate::bounding_box::BoundingBox;
use crate::vec3::Vec3;

verus! {

/// Base offset, in coordinate units, added to the light's distance so that
/// even a degenerate volume gets a light away from the origin.
pub const LIGHT_OFFSET: i64 = 65536;

/// An RGB light color; each channel ranges over the full `u8`.
#[derive(Clone, Copy, PartialEq, Eq, Structural, Debug)]
pub struct LightColor {
    pub red: u8,
    pub green: u8,
    pub blue: u8,
}

/// A point light: a single position and a fixed color. Produced once per
/// render, immutable thereafter.
#[derive(Clone, Copy, PartialEq, Eq, Structural, Debug)]
pub struct LightPlacement {
    pub position: Vec3,
    pub color: LightColor,
}

/// The point `p` lies on the world line through the origin along `axis` —
/// the line the camera looks along.
pub open spec fn spec_on_axis_line(p: Vec3, axis: Axis) -> bool {
    match axis {
        Axis::X => p.y == 0 && p.z == 0,
        Axis::Y => p.x == 0 && p.z == 0,
        Axis::Z => p.x == 0 && p.y == 0,
    }
}

impl BoundingBox {
    /// The light's coordinate on every world axis: the volume's largest
    /// extent plus a fixed offset, so the distance grows with the model and
    /// is positive even for a degenerate volume.
    pub open spec fn spec_light_coord(self) -> int {
        crate::bounding_box::spec_max(
            self.spec_dx(),
            crate::bounding_box::spec_max(self.spec_dy(), self.spec_dz()),
        ) + LIGHT_OFFSET
    }

    /// Place the point light diagonally off every world axis — above and to
    /// one side of the volume, at a distance proportional to its largest
    /// extent — with a fixed white color. Whatever axis the camera looks
    /// down, the light is never collinear with it, so the visible faces are
    /// not flatly front-lit.
    pub fn pick_light_position(&self, axis: &Axis) -> (r: LightPlacement)
        requires
            self.wf(),
        ensures
            r.position.x == self.spec_light_coord(),
            r.position.y == self.spec_light_coord(),
            r.position.z == self.spec_light_coord(),
            r.color == (LightColor { red: 255, green: 255, blue: 255 }),
            !spec_on_axis_line(r.position, *axis),
    {
        let ex = self.dx();
        let ey = self.dy();
        let ez = self.dz();
        let mut largest = ex;
        if ey > largest {
            largest = ey;
        }
        if ez > largest {
            largest = ez;
        }
        let coord = largest + LIGHT_OFFSET;
        LightPlacement {
            position: Vec3 { x: coord, y: coord, z: coord },
            color: LightColor { red: 255, green: 255, blue: 255 },
        }
    }
}

} // verus!
