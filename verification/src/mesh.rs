use vstd::prelude::*;

use crate::vec3::{in_vertex_range, Vec3};

verus! {

/// One mesh triangle: three vertex positions and one normal vector.
///
/// The framing computations read only the vertex positions; the normal is
/// carried along for the renderer.
#[derive(Clone, Copy, PartialEq, Eq, Structural, Debug)]
pub struct Triangle {
    pub a: Vec3,
    pub b: Vec3,
    pub c: Vec3,
    pub normal: Vec3,
}

impl Triangle {
    /// The triangle's vertex positions, in order.
    pub open spec fn verts(self) -> Seq<Vec3> {
        seq![self.a, self.b, self.c]
    }

    /// All three vertices are within the vertex coordinate range.
    pub open spec fn in_range(self) -> bool {
        &&& in_vertex_range(self.a)
        &&& in_vertex_range(self.b)
        &&& in_vertex_range(self.c)
    }
}

/// A triangle mesh: a finite, possibly empty, ordered sequence of triangles.
#[derive(Debug)]
pub struct Mesh {
    pub triangles: Vec<Triangle>,
}

impl Mesh {
    /// The vertex positions of a sequence of triangles, three per triangle,
    /// in mesh order.
    pub open spec fn verts_of(ts: Seq<Triangle>) -> Seq<Vec3>
        decreases ts.len(),
    {
        if ts.len() == 0 {
            Seq::empty()
        } else {
            Self::verts_of(ts.drop_last()) + ts.last().verts()
        }
    }

    /// All vertex positions of this mesh, in mesh order.
    pub open spec fn vertex_seq(self) -> Seq<Vec3> {
        Self::verts_of(self.triangles@)
    }

    /// Every vertex coordinate is within the vertex coordinate range.
    pub open spec fn wf(self) -> bool {
        forall|i: int|
            0 <= i < self.triangles@.len() ==> (#[trigger] self.triangles@[i]).in_range()
    }
}

} // verus!
