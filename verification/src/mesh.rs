//! Index topology of a triangle mesh.
//!
//! A mesh stores vertex positions (and optional per-vertex normals and UVs)
//! as floating-point arrays owned by the renderer, plus a flat index list:
//! three consecutive entries per triangle. The index bookkeeping lives
//! here: a topology is only built once every index is in range, so corner
//! lookups provably never reach outside the vertex arrays.

use vstd::prelude::*;

verus! {

/// The index list of a triangle mesh: entry `3 * t + k` names the vertex at
/// corner `k` of triangle `t`. `n_vertices` is the length of the vertex
/// arrays the indices point into.
pub struct MeshTopology {
    pub vertex_indices: Vec<usize>,
    pub n_vertices: usize,
}

impl MeshTopology {
    /// Every index points at an existing vertex.
    pub open spec fn wf(self) -> bool {
        forall|i: int|
            0 <= i < self.vertex_indices@.len() ==> #[trigger] self.vertex_indices@[i]
                < self.n_vertices
    }

    /// How many whole triangles the index list describes.
    pub open spec fn triangle_count(self) -> int {
        self.vertex_indices@.len() as int / 3
    }

    /// Build a topology over `n_vertices` vertices, or return nothing if
    /// some index points past them. A trailing partial triple is kept but
    /// never reached through `corner`.
    pub fn new(vertex_indices: Vec<usize>, n_vertices: usize) -> (r: Option<MeshTopology>)
        ensures
            match r {
                Some(m) => {
                    &&& m.vertex_indices@ == vertex_indices@
                    &&& m.n_vertices == n_vertices
                    &&& m.wf()
                },
                None => exists|i: int|
                    0 <= i < vertex_indices@.len() && #[trigger] vertex_indices@[i]
                        >= n_vertices,
            },
    {
        let mut k: usize = 0;
        while k < vertex_indices.len()
            invariant
                k <= vertex_indices@.len(),
                forall|i: int| 0 <= i < k ==> #[trigger] vertex_indices@[i] < n_vertices,
            decreases vertex_indices@.len() - k,
        {
            if vertex_indices[k] >= n_vertices {
                return None;
            }
            k = k + 1;
        }
        Some(MeshTopology { vertex_indices, n_vertices })
    }

    /// How many whole triangles the index list describes.
    pub fn n_triangles(&self) -> (n: usize)
        ensures
            n == self.triangle_count(),
    {
        self.vertex_indices.len() / 3
    }

    /// The vertex index at corner `k` of triangle `tri`; always a valid
    /// index into the vertex arrays.
    pub fn corner(&self, tri: usize, k: usize) -> (v: usize)
        requires
            self.wf(),
            tri < self.triangle_count(),
            k < 3,
        ensures
            v == self.vertex_indices@[3 * tri + k],
            v < self.n_vertices,
    {
        let len: usize = self.vertex_indices.len();
        proof {
            vstd::arithmetic::div_mod::lemma_fundamental_div_mod(len as int, 3);
            vstd::arithmetic::div_mod::lemma_mod_bound(len as int, 3);
            assert(3 * tri + k < len);
        }
        self.vertex_indices[3 * tri + k]
    }
}

} // verus!
