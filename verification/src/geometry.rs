//! Geometry as a draw call reads it.
//!
//! A draw call walks vertex indices in order — the index buffer's contents
//! for an indexed draw, the vertex positions themselves otherwise — and
//! forms one triangle from every three consecutive indices. The draw only
//! reads the buffers; it never changes them.

use vstd::prelude::*;

verus! {

/// One triangle of a triangle list, as three vertex indices.
#[derive(Clone, Copy, PartialEq, Eq, Structural, Debug)]
pub struct Triangle {
    pub a: u32,
    pub b: u32,
    pub c: u32,
}

/// An index buffer: the driver's handle for it, and the indices it holds.
#[derive(Clone, PartialEq, Eq, Debug)]
pub struct IndexBuffer {
    pub buffer: u32,
    pub indices: Vec<u32>,
}

/// The geometry one draw call reads: a vertex array with its backing
/// buffer and vertex count, and an index buffer if the draw is indexed.
/// Created once before the loop and immutable thereafter.
#[derive(Clone, PartialEq, Eq, Debug)]
pub struct GeometryBuffers {
    pub vertex_array: u32,
    pub vertex_buffer: u32,
    pub vertex_count: usize,
    pub index_buffer: Option<IndexBuffer>,
}

/// Standard triangle-list semantics: every three consecutive indices form
/// one triangle; a trailing one or two indices form none.
pub open spec fn triangle_list(indices: Seq<u32>) -> Seq<Triangle> {
    Seq::new(
        indices.len() / 3,
        |i: int| Triangle { a: indices[3 * i], b: indices[3 * i + 1], c: indices[3 * i + 2] },
    )
}

impl GeometryBuffers {
    /// Validity: every index points at one of the vertices, and the vertex
    /// count fits the driver's index type.
    pub open spec fn wf(self) -> bool {
        &&& self.vertex_count <= u32::MAX
        &&& match self.index_buffer {
            Some(ib) => forall|i: int|
                0 <= i < ib.indices@.len() ==> (#[trigger] ib.indices@[i]) < self.vertex_count,
            None => true,
        }
    }

    /// The vertex indices the draw walks, in order.
    pub open spec fn drawn_indices(self) -> Seq<u32> {
        match self.index_buffer {
            Some(ib) => ib.indices@,
            None => Seq::new(self.vertex_count as nat, |i: int| i as u32),
        }
    }

    /// How many indices the draw covers.
    pub fn draw_count(&self) -> (n: usize)
        ensures
            n == self.drawn_indices().len(),
    {
        match &self.index_buffer {
            Some(ib) => ib.indices.len(),
            None => self.vertex_count,
        }
    }

    /// How many whole triangles the draw produces.
    pub fn triangle_count(&self) -> (n: usize)
        ensures
            n == triangle_list(self.drawn_indices()).len(),
    {
        self.draw_count() / 3
    }

    /// The triangles the draw produces, in order.
    pub fn triangles(&self) -> (r: Vec<Triangle>)
        requires
            self.wf(),
        ensures
            r@ == triangle_list(self.drawn_indices()),
    {
        let n: usize = self.draw_count();
        let m: usize = n / 3;
        let mut r: Vec<Triangle> = Vec::new();
        let mut t: usize = 0;
        while t < m
            invariant
                m == self.drawn_indices().len() / 3,
                n == self.drawn_indices().len(),
                self.wf(),
                0 <= t <= m,
                r@.len() == t,
                forall|j: int| 0 <= j < t ==> r@[j] == triangle_list(self.drawn_indices())[j],
            decreases m - t,
        {
            assert(3 * t + 2 < n);
            let tri: Triangle = match &self.index_buffer {
                Some(ib) => Triangle {
                    a: ib.indices[3 * t],
                    b: ib.indices[3 * t + 1],
                    c: ib.indices[3 * t + 2],
                },
                None => Triangle {
                    a: (3 * t) as u32,
                    b: (3 * t + 1) as u32,
                    c: (3 * t + 2) as u32,
                },
            };
            r.push(tri);
            t += 1;
        }
        proof {
            assert(r@ =~= triangle_list(self.drawn_indices()));
        }
        r
    }
}

} // verus!
