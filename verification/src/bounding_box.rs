use vstd::arithmetic::div_mod::{
    lemma_fundamental_div_mod, lemma_fundamental_div_mod_converse, lemma_hoist_over_denominator,
    lemma_mod_bound,
};
use vstd::prelude::*;

use crate::mesh::{Mesh, Triangle};
use crate::vec3::{Vec3, COORD_LIMIT, VERTEX_LIMIT};

verus! {

/// The smaller of two integers.
pub open spec fn spec_min(a: int, b: int) -> int {
    if a <= b {
        a
    } else {
        b
    }
}

/// The larger of two integers.
pub open spec fn spec_max(a: int, b: int) -> int {
    if a >= b {
        a
    } else {
        b
    }
}

/// The midpoint of `lo` and `hi`, rounded toward negative infinity.
pub open spec fn spec_mid(lo: int, hi: int) -> int {
    (lo + hi) / 2
}

/// The minimal axis-aligned box around a mesh: six bounds, one min/max pair
/// per world axis.
///
/// A volume built from an empty mesh degenerates to a single point at the
/// origin (all six bounds zero); that is a documented edge case, not an
/// error.
#[derive(Clone, Copy, PartialEq, Eq, Structural, Debug)]
pub struct BoundingBox {
    pub x_min: i64,
    pub x_max: i64,
    pub y_min: i64,
    pub y_max: i64,
    pub z_min: i64,
    pub z_max: i64,
}

impl BoundingBox {
    /// Bounds are ordered on every axis and within the coordinate limit.
    pub open spec fn wf(self) -> bool {
        &&& -COORD_LIMIT <= self.x_min <= self.x_max <= COORD_LIMIT
        &&& -COORD_LIMIT <= self.y_min <= self.y_max <= COORD_LIMIT
        &&& -COORD_LIMIT <= self.z_min <= self.z_max <= COORD_LIMIT
    }

    /// Every bound is within the vertex coordinate range; holds of every
    /// freshly built volume, and leaves room to recenter it.
    pub open spec fn within_vertex_limit(self) -> bool {
        &&& -VERTEX_LIMIT <= self.x_min && self.x_max <= VERTEX_LIMIT
        &&& -VERTEX_LIMIT <= self.y_min && self.y_max <= VERTEX_LIMIT
        &&& -VERTEX_LIMIT <= self.z_min && self.z_max <= VERTEX_LIMIT
    }

    /// The point `v` lies inside this volume.
    pub open spec fn contains(self, v: Vec3) -> bool {
        &&& self.x_min <= v.x <= self.x_max
        &&& self.y_min <= v.y <= self.y_max
        &&& self.z_min <= v.z <= self.z_max
    }

    /// This volume is the minimal axis-aligned box around the points `vs`:
    /// it contains every point, and every bound is attained by some point.
    /// For no points at all, it is the degenerate all-zero box.
    pub open spec fn is_bounding_box_of(self, vs: Seq<Vec3>) -> bool {
        if vs.len() == 0 {
            self == (BoundingBox { x_min: 0, x_max: 0, y_min: 0, y_max: 0, z_min: 0, z_max: 0 })
        } else {
            &&& forall|i: int| 0 <= i < vs.len() ==> self.contains(#[trigger] vs[i])
            &&& exists|i: int| 0 <= i < vs.len() && (#[trigger] vs[i]).x == self.x_min
            &&& exists|i: int| 0 <= i < vs.len() && (#[trigger] vs[i]).x == self.x_max
            &&& exists|i: int| 0 <= i < vs.len() && (#[trigger] vs[i]).y == self.y_min
            &&& exists|i: int| 0 <= i < vs.len() && (#[trigger] vs[i]).y == self.y_max
            &&& exists|i: int| 0 <= i < vs.len() && (#[trigger] vs[i]).z == self.z_min
            &&& exists|i: int| 0 <= i < vs.len() && (#[trigger] vs[i]).z == self.z_max
        }
    }

    /// Widen this volume just enough to also contain `v`.
    fn expand(self, v: Vec3) -> (r: BoundingBox)
        ensures
            r.x_min == spec_min(self.x_min as int, v.x as int),
            r.x_max == spec_max(self.x_max as int, v.x as int),
            r.y_min == spec_min(self.y_min as int, v.y as int),
            r.y_max == spec_max(self.y_max as int, v.y as int),
            r.z_min == spec_min(self.z_min as int, v.z as int),
            r.z_max == spec_max(self.z_max as int, v.z as int),
    {
        BoundingBox {
            x_min: if v.x < self.x_min { v.x } else { self.x_min },
            x_max: if v.x > self.x_max { v.x } else { self.x_max },
            y_min: if v.y < self.y_min { v.y } else { self.y_min },
            y_max: if v.y > self.y_max { v.y } else { self.y_max },
            z_min: if v.z < self.z_min { v.z } else { self.z_min },
            z_max: if v.z > self.z_max { v.z } else { self.z_max },
        }
    }

    /// Scan all mesh vertices once and return the minimal axis-aligned box
    /// containing them; an empty mesh yields the degenerate all-zero box.
    pub fn new(mesh: &Mesh) -> (r: BoundingBox)
        requires
            mesh.wf(),
        ensures
            r.wf(),
            r.within_vertex_limit(),
            r.is_bounding_box_of(mesh.vertex_seq()),
    {
        let n = mesh.triangles.len();
        if n == 0 {
            let r = BoundingBox { x_min: 0, x_max: 0, y_min: 0, y_max: 0, z_min: 0, z_max: 0 };
            proof {
                assert(mesh.triangles@.len() == 0);
                assert(mesh.vertex_seq() =~= Seq::<Vec3>::empty());
            }
            return r;
        }

        let t = mesh.triangles[0];
        let mut bb = BoundingBox {
            x_min: t.a.x,
            x_max: t.a.x,
            y_min: t.a.y,
            y_max: t.a.y,
            z_min: t.a.z,
            z_max: t.a.z,
        };
        proof {
            assert(bb.is_bounding_box_of(seq![t.a])) by {
                assert(seq![t.a][0] == t.a);
            }
        }
        let bb1 = bb.expand(t.b);
        proof {
            lemma_expand_bounding_box(bb, bb1, seq![t.a], t.b);
        }
        let bb2 = bb1.expand(t.c);
        proof {
            lemma_expand_bounding_box(bb1, bb2, seq![t.a].push(t.b), t.c);
            lemma_verts_of_take_step(mesh.triangles@, 0);
            assert(Mesh::verts_of(mesh.triangles@.take(0)) =~= Seq::<Vec3>::empty());
            assert(Mesh::verts_of(mesh.triangles@.take(1)) =~= seq![t.a].push(t.b).push(t.c));
        }
        bb = bb2;

        let mut i: usize = 1;
        while i < n
            invariant
                1 <= i <= n,
                n == mesh.triangles@.len(),
                mesh.wf(),
                bb.is_bounding_box_of(Mesh::verts_of(mesh.triangles@.take(i as int))),
                bb.wf(),
                bb.within_vertex_limit(),
            decreases n - i,
        {
            let t = mesh.triangles[i];
            let ghost vs0 = Mesh::verts_of(mesh.triangles@.take(i as int));
            proof {
                lemma_verts_of_nonempty(mesh.triangles@.take(i as int));
            }
            let bba = bb.expand(t.a);
            proof {
                lemma_expand_bounding_box(bb, bba, vs0, t.a);
            }
            let bbb = bba.expand(t.b);
            proof {
                lemma_expand_bounding_box(bba, bbb, vs0.push(t.a), t.b);
            }
            let bbc = bbb.expand(t.c);
            proof {
                lemma_expand_bounding_box(bbb, bbc, vs0.push(t.a).push(t.b), t.c);
                lemma_verts_of_take_step(mesh.triangles@, i as int);
                assert(Mesh::verts_of(mesh.triangles@.take(i + 1)) =~= vs0.push(t.a).push(
                    t.b,
                ).push(t.c));
            }
            bb = bbc;
            i = i + 1;
        }
        proof {
            assert(mesh.triangles@.take(n as int) =~= mesh.triangles@);
        }
        bb
    }

    /// The volume's extent along the x axis.
    pub open spec fn spec_dx(self) -> int {
        self.x_max - self.x_min
    }

    /// The volume's extent along the y axis.
    pub open spec fn spec_dy(self) -> int {
        self.y_max - self.y_min
    }

    /// The volume's extent along the z axis.
    pub open spec fn spec_dz(self) -> int {
        self.z_max - self.z_min
    }

    /// The midpoint of the volume's x range, rounded toward negative
    /// infinity.
    pub open spec fn spec_center_x(self) -> int {
        spec_mid(self.x_min as int, self.x_max as int)
    }

    /// The midpoint of the volume's y range, rounded toward negative
    /// infinity.
    pub open spec fn spec_center_y(self) -> int {
        spec_mid(self.y_min as int, self.y_max as int)
    }

    /// The midpoint of the volume's z range, rounded toward negative
    /// infinity.
    pub open spec fn spec_center_z(self) -> int {
        spec_mid(self.z_min as int, self.z_max as int)
    }

    /// The volume's center: the midpoint of each axis range. It always lies
    /// inside the volume.
    pub fn center(&self) -> (r: Vec3)
        requires
            self.wf(),
        ensures
            r.x == self.spec_center_x(),
            r.y == self.spec_center_y(),
            r.z == self.spec_center_z(),
            self.contains(r),
    {
        let r = Vec3 {
            x: div2_floor(self.x_min + self.x_max),
            y: div2_floor(self.y_min + self.y_max),
            z: div2_floor(self.z_min + self.z_max),
        };
        proof {
            lemma_mid_between(self.x_min as int, self.x_max as int);
            lemma_mid_between(self.y_min as int, self.y_max as int);
            lemma_mid_between(self.z_min as int, self.z_max as int);
        }
        r
    }

    /// The translation that moves the volume's center to the world origin:
    /// `origin - center`.
    pub fn center_to_origin(&self) -> (r: Vec3)
        requires
            self.wf(),
        ensures
            r.x == -self.spec_center_x(),
            r.y == -self.spec_center_y(),
            r.z == -self.spec_center_z(),
    {
        let c = self.center();
        Vec3 { x: -c.x, y: -c.y, z: -c.z }
    }

    /// Translate the volume by `v`: both bounds of each axis move by the same
    /// amount, so the ordering of the bounds is preserved.
    ///
    /// Used after the mesh itself has been translated by `v`, so the volume
    /// stays consistent with the moved geometry.
    pub fn shift(&self, v: Vec3) -> (r: BoundingBox)
        requires
            self.wf(),
            -COORD_LIMIT <= self.x_min + v.x,
            self.x_max + v.x <= COORD_LIMIT,
            -COORD_LIMIT <= self.y_min + v.y,
            self.y_max + v.y <= COORD_LIMIT,
            -COORD_LIMIT <= self.z_min + v.z,
            self.z_max + v.z <= COORD_LIMIT,
        ensures
            r.x_min == self.x_min + v.x,
            r.x_max == self.x_max + v.x,
            r.y_min == self.y_min + v.y,
            r.y_max == self.y_max + v.y,
            r.z_min == self.z_min + v.z,
            r.z_max == self.z_max + v.z,
            r.wf(),
    {
        BoundingBox {
            x_min: self.x_min + v.x,
            x_max: self.x_max + v.x,
            y_min: self.y_min + v.y,
            y_max: self.y_max + v.y,
            z_min: self.z_min + v.z,
            z_max: self.z_max + v.z,
        }
    }

    /// The volume's extent along the x axis; never negative.
    pub fn dx(&self) -> (r: i64)
        requires
            self.wf(),
        ensures
            r == self.spec_dx(),
            r >= 0,
    {
        self.x_max - self.x_min
    }

    /// The volume's extent along the y axis; never negative.
    pub fn dy(&self) -> (r: i64)
        requires
            self.wf(),
        ensures
            r == self.spec_dy(),
            r >= 0,
    {
        self.y_max - self.y_min
    }

    /// The volume's extent along the z axis; never negative.
    pub fn dz(&self) -> (r: i64)
        requires
            self.wf(),
        ensures
            r == self.spec_dz(),
            r >= 0,
    {
        self.z_max - self.z_min
    }
}

/// Divide by two, rounding toward negative infinity.
fn div2_floor(a: i64) -> (r: i64)
    requires
        -0x4000_0000_0000_0000 <= a <= 0x4000_0000_0000_0000,
    ensures
        r == a as int / 2,
{
    if a >= 0 {
        let q: u64 = (a as u64) / 2;
        q as i64
    } else {
        let k: u64 = (-a) as u64;
        let q: u64 = (k + 1) / 2;
        proof {
            let ki = k as int;
            lemma_fundamental_div_mod(ki + 1, 2);
            lemma_mod_bound(ki + 1, 2);
            let rr = (ki + 1) % 2;
            lemma_fundamental_div_mod_converse(a as int, 2, -((ki + 1) / 2), 1 - rr);
        }
        -(q as i64)
    }
}

/// The floor midpoint of an ordered pair lies between the two.
proof fn lemma_mid_between(lo: int, hi: int)
    requires
        lo <= hi,
    ensures
        lo <= spec_mid(lo, hi) <= hi,
{
    lemma_fundamental_div_mod(lo + hi, 2);
    lemma_mod_bound(lo + hi, 2);
}

/// Translating both bounds of an axis range translates its midpoint by the
/// same amount: the center of a shifted volume is the shifted center.
pub proof fn lemma_shift_preserves_center(bb: BoundingBox, r: BoundingBox, v: Vec3)
    requires
        r.x_min == bb.x_min + v.x,
        r.x_max == bb.x_max + v.x,
        r.y_min == bb.y_min + v.y,
        r.y_max == bb.y_max + v.y,
        r.z_min == bb.z_min + v.z,
        r.z_max == bb.z_max + v.z,
    ensures
        r.spec_center_x() == bb.spec_center_x() + v.x,
        r.spec_center_y() == bb.spec_center_y() + v.y,
        r.spec_center_z() == bb.spec_center_z() + v.z,
{
    lemma_mid_translate(bb.x_min as int, bb.x_max as int, v.x as int);
    lemma_mid_translate(bb.y_min as int, bb.y_max as int, v.y as int);
    lemma_mid_translate(bb.z_min as int, bb.z_max as int, v.z as int);
}

/// Shifting a volume by its own centering translation yields a volume whose
/// center is exactly the origin.
pub proof fn lemma_recenter_centers_at_origin(bb: BoundingBox, r: BoundingBox)
    requires
        r.x_min == bb.x_min - bb.spec_center_x(),
        r.x_max == bb.x_max - bb.spec_center_x(),
        r.y_min == bb.y_min - bb.spec_center_y(),
        r.y_max == bb.y_max - bb.spec_center_y(),
        r.z_min == bb.z_min - bb.spec_center_z(),
        r.z_max == bb.z_max - bb.spec_center_z(),
    ensures
        r.spec_center_x() == 0,
        r.spec_center_y() == 0,
        r.spec_center_z() == 0,
{
    lemma_mid_shift_to_zero(bb.x_min as int, bb.x_max as int);
    lemma_mid_shift_to_zero(bb.y_min as int, bb.y_max as int);
    lemma_mid_shift_to_zero(bb.z_min as int, bb.z_max as int);
}

/// Translating both ends of a range translates its floor midpoint.
proof fn lemma_mid_translate(lo: int, hi: int, k: int)
    ensures
        spec_mid(lo + k, hi + k) == spec_mid(lo, hi) + k,
{
    lemma_hoist_over_denominator(lo + hi, k, 2nat);
}

/// Subtracting the floor midpoint from both ends of a range leaves a range
/// whose floor midpoint is zero.
proof fn lemma_mid_shift_to_zero(lo: int, hi: int)
    ensures
        spec_mid(lo - spec_mid(lo, hi), hi - spec_mid(lo, hi)) == 0,
{
    let c = spec_mid(lo, hi);
    lemma_fundamental_div_mod(lo + hi, 2);
    lemma_mod_bound(lo + hi, 2);
    let rr = (lo + hi) % 2;
    assert(lo - c + (hi - c) == rr);
    lemma_fundamental_div_mod_converse(rr, 2, 0, rr);
}

/// A non-empty triangle sequence has a non-empty vertex sequence.
proof fn lemma_verts_of_nonempty(ts: Seq<Triangle>)
    requires
        ts.len() > 0,
    ensures
        Mesh::verts_of(ts).len() > 0,
{
}

/// Taking one more triangle appends that triangle's three vertices.
proof fn lemma_verts_of_take_step(ts: Seq<Triangle>, i: int)
    requires
        0 <= i < ts.len(),
    ensures
        Mesh::verts_of(ts.take(i + 1)) == Mesh::verts_of(ts.take(i)) + ts[i].verts(),
{
    let t1 = ts.take(i + 1);
    assert(t1.drop_last() =~= ts.take(i));
    assert(t1.last() == ts[i]);
}

/// Widening a bounding box of `vs` by the six min/max updates for `v` yields
/// a bounding box of `vs` with `v` appended.
proof fn lemma_expand_bounding_box(bb: BoundingBox, r: BoundingBox, vs: Seq<Vec3>, v: Vec3)
    requires
        vs.len() > 0,
        bb.is_bounding_box_of(vs),
        r.x_min == spec_min(bb.x_min as int, v.x as int),
        r.x_max == spec_max(bb.x_max as int, v.x as int),
        r.y_min == spec_min(bb.y_min as int, v.y as int),
        r.y_max == spec_max(bb.y_max as int, v.y as int),
        r.z_min == spec_min(bb.z_min as int, v.z as int),
        r.z_max == spec_max(bb.z_max as int, v.z as int),
    ensures
        r.is_bounding_box_of(vs.push(v)),
{
    let ws = vs.push(v);
    assert(ws[vs.len() as int] == v);
    assert forall|i: int| 0 <= i < ws.len() implies r.contains(#[trigger] ws[i]) by {
        if i < vs.len() {
            assert(bb.contains(vs[i]));
            assert(ws[i] == vs[i]);
        }
    }
    if v.x <= bb.x_min {
        assert(ws[vs.len() as int].x == r.x_min);
    } else {
        let i = choose|i: int| 0 <= i < vs.len() && (#[trigger] vs[i]).x == bb.x_min;
        assert(ws[i].x == r.x_min);
    }
    if v.x >= bb.x_max {
        assert(ws[vs.len() as int].x == r.x_max);
    } else {
        let i = choose|i: int| 0 <= i < vs.len() && (#[trigger] vs[i]).x == bb.x_max;
        assert(ws[i].x == r.x_max);
    }
    if v.y <= bb.y_min {
        assert(ws[vs.len() as int].y == r.y_min);
    } else {
        let i = choose|i: int| 0 <= i < vs.len() && (#[trigger] vs[i]).y == bb.y_min;
        assert(ws[i].y == r.y_min);
    }
    if v.y >= bb.y_max {
        assert(ws[vs.len() as int].y == r.y_max);
    } else {
        let i = choose|i: int| 0 <= i < vs.len() && (#[trigger] vs[i]).y == bb.y_max;
        assert(ws[i].y == r.y_max);
    }
    if v.z <= bb.z_min {
        assert(ws[vs.len() as int].z == r.z_min);
    } else {
        let i = choose|i: int| 0 <= i < vs.len() && (#[trigger] vs[i]).z == bb.z_min;
        assert(ws[i].z == r.z_min);
    }
    if v.z >= bb.z_max {
        assert(ws[vs.len() as int].z == r.z_max);
    } else {
        let i = choose|i: int| 0 <= i < vs.len() && (#[trigger] vs[i]).z == bb.z_max;
        assert(ws[i].z == r.z_max);
    }
}

} // verus!
