use vstd::arithmetic::mul::lemma_mul_upper_bound;
use vstd::prelude::*;

use crate::bounding_box::BoundingBox;

verus! {

/// A world axis tag — not a vector; it names the axis the camera travels
/// along.
#[derive(Clone, Copy, PartialEq, Eq, Structural, Debug)]
pub enum Axis {
    X,
    Y,
    Z,
}

impl BoundingBox {
    /// The cross-section area seen when looking down the x axis.
    pub open spec fn spec_area_x(self) -> int {
        self.spec_dy() * self.spec_dz()
    }

    /// The cross-section area seen when looking down the y axis.
    pub open spec fn spec_area_y(self) -> int {
        self.spec_dx() * self.spec_dz()
    }

    /// The cross-section area seen when looking down the z axis.
    pub open spec fn spec_area_z(self) -> int {
        self.spec_dx() * self.spec_dy()
    }

    /// The cross-section area seen when looking down `axis`.
    pub open spec fn spec_axis_area(self, axis: Axis) -> int {
        match axis {
            Axis::X => self.spec_area_x(),
            Axis::Y => self.spec_area_y(),
            Axis::Z => self.spec_area_z(),
        }
    }

    /// The axis to view the volume down: the one whose orthogonal
    /// cross-section is largest, ties broken in the fixed order `Z`, then
    /// `Y`, then `X`.
    pub open spec fn spec_view_axis(self) -> Axis {
        if self.spec_area_y() > self.spec_area_z() {
            if self.spec_area_x() > self.spec_area_y() {
                Axis::X
            } else {
                Axis::Y
            }
        } else {
            if self.spec_area_x() > self.spec_area_z() {
                Axis::X
            } else {
                Axis::Z
            }
        }
    }

    /// Choose the world axis to view the volume down: the one exposing the
    /// largest cross-section to the camera. Candidates are taken in the
    /// fixed order `Z`, `Y`, `X` and replaced only by a strictly larger
    /// area, so ties resolve to `Z`, then `Y`, then `X`, deterministically;
    /// a degenerate all-zero volume yields `Z`.
    pub fn largest_cross_section_axis(&self) -> (r: Axis)
        requires
            self.wf(),
        ensures
            r == self.spec_view_axis(),
            self.spec_axis_area(r) >= self.spec_area_x(),
            self.spec_axis_area(r) >= self.spec_area_y(),
            self.spec_axis_area(r) >= self.spec_area_z(),
    {
        let ex = self.dx();
        let ey = self.dy();
        let ez = self.dz();
        proof {
            lemma_mul_upper_bound(
                ey as int,
                0x4000_0000_0000_0000int,
                ez as int,
                0x4000_0000_0000_0000int,
            );
            lemma_mul_upper_bound(
                ex as int,
                0x4000_0000_0000_0000int,
                ez as int,
                0x4000_0000_0000_0000int,
            );
            lemma_mul_upper_bound(
                ex as int,
                0x4000_0000_0000_0000int,
                ey as int,
                0x4000_0000_0000_0000int,
            );
        }
        let area_x: u128 = (ey as u128) * (ez as u128);
        let area_y: u128 = (ex as u128) * (ez as u128);
        let area_z: u128 = (ex as u128) * (ey as u128);

        let mut best: Axis = Axis::Z;
        let mut best_area: u128 = area_z;
        if area_y > best_area {
            best = Axis::Y;
            best_area = area_y;
        }
        if area_x > best_area {
            best = Axis::X;
            best_area = area_x;
        }
        best
    }
}

/// For a volume with equal extents on all three axes — a cube, or a single
/// point — the three cross-sections tie, and the tie-break selects `Z`.
pub proof fn lemma_equal_extents_select_z(bb: BoundingBox)
    requires
        bb.spec_dx() == bb.spec_dy(),
        bb.spec_dy() == bb.spec_dz(),
    ensures
        bb.spec_view_axis() == Axis::Z,
{
}

} // verus!
