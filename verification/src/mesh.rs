//! The size of a mesh, checked once.
//!
//! A [`MeshSize`] is a pair of counts that is known to give a mesh: at least
//! one step per edge, and few enough vertices for 16-bit indices. What is
//! built from it needs no further checks and cannot fail.

use vstd::prelude::*;
use crate::error::ConfigError;
use crate::indices::{build_indices, is_line_list, is_triangle_list, MAX_VERTICES};
use crate::layout::{generate, layout, vertex_count, vertex_total, VertexSlot};

verus! {

/// The size of a mesh that can be laid out and indexed: at least one step
/// per edge, and no more than `MAX_VERTICES` vertices in all.
#[derive(Clone, Copy, Debug, PartialEq, Eq)]
pub struct MeshSize {
    num_triangles: usize,
    subdivisions: usize,
}

impl MeshSize {
    #[verifier::type_invariant]
    spec fn buildable(&self) -> bool {
        &&& self.subdivisions >= 1
        &&& vertex_count(self.num_triangles as nat, self.subdivisions as nat) <= MAX_VERTICES
    }

    /// The number of triangles.
    pub closed spec fn triangles(&self) -> nat {
        self.num_triangles as nat
    }

    /// The number of steps into which every edge is cut.
    pub closed spec fn steps(&self) -> nat {
        self.subdivisions as nat
    }

    /// Accepts the size of a mesh of `num_triangles` triangles with
    /// `subdivisions` steps per edge.
    ///
    /// Fails with `ZeroSubdivisions` exactly when `subdivisions` is 0, and
    /// with `TooManyVertices` exactly when it is not and the mesh would have
    /// more than `MAX_VERTICES` vertices.
    pub fn new(num_triangles: usize, subdivisions: usize) -> (r: Result<MeshSize, ConfigError>)
        ensures
            subdivisions == 0 ==> r == Err::<MeshSize, ConfigError>(ConfigError::ZeroSubdivisions),
            subdivisions > 0 && vertex_count(num_triangles as nat, subdivisions as nat)
                > MAX_VERTICES ==> r == Err::<MeshSize, ConfigError>(ConfigError::TooManyVertices),
            subdivisions > 0 && vertex_count(num_triangles as nat, subdivisions as nat)
                <= MAX_VERTICES ==> r is Ok && r->Ok_0.triangles() == num_triangles
                && r->Ok_0.steps() == subdivisions,
    {
        if subdivisions == 0 {
            return Err(ConfigError::ZeroSubdivisions);
        }
        match vertex_total(num_triangles, subdivisions) {
            Some(total) if total <= MAX_VERTICES => Ok(MeshSize { num_triangles, subdivisions }),
            _ => Err(ConfigError::TooManyVertices),
        }
    }

    /// The number of triangles.
    pub fn num_triangles(&self) -> (n: usize)
        ensures
            n == self.triangles(),
    {
        self.num_triangles
    }

    /// The number of steps into which every edge is cut; at least 1.
    pub fn subdivisions(&self) -> (s: usize)
        ensures
            s == self.steps(),
            s >= 1,
    {
        proof {
            use_type_invariant(self);
        }
        self.subdivisions
    }

    /// The number of vertices of the mesh.
    pub fn vertices(&self) -> (count: usize)
        ensures
            count == vertex_count(self.triangles(), self.steps()),
            count <= MAX_VERTICES,
    {
        proof {
            use_type_invariant(self);
        }
        let ghost n = self.num_triangles as nat;
        let ghost s = self.subdivisions as nat;
        assert(n * 3 <= n * 3 * s) by (nonlinear_arith)
            requires
                s >= 1,
        ;
        self.num_triangles * 3 * self.subdivisions
    }

    /// The vertex layout of the mesh: `layout(triangles, steps)`.
    pub fn layout(&self) -> (slots: Vec<VertexSlot>)
        ensures
            slots@ == layout(self.triangles(), self.steps()),
            slots@.len() == vertex_count(self.triangles(), self.steps()),
    {
        proof {
            use_type_invariant(self);
        }
        generate(self.num_triangles, self.subdivisions).unwrap()
    }

    /// The line list and the triangle list of the mesh, in this order.
    pub fn indices(&self) -> (lists: (Vec<u16>, Vec<u16>))
        ensures
            is_line_list(lists.0@, self.triangles(), self.steps()),
            is_triangle_list(lists.1@, self.triangles(), self.steps()),
            forall|p: int|
                0 <= p < lists.0@.len() ==> (#[trigger] lists.0@[p]) < vertex_count(
                    self.triangles(),
                    self.steps(),
                ),
            forall|p: int|
                0 <= p < lists.1@.len() ==> (#[trigger] lists.1@[p]) < vertex_count(
                    self.triangles(),
                    self.steps(),
                ),
    {
        proof {
            use_type_invariant(self);
        }
        build_indices(self.num_triangles, self.subdivisions).unwrap()
    }
}

} // verus!
