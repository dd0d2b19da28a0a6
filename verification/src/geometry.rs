//! Shape geometry cache: one shared index buffer holding the fixed
//! triangulation of a quad, created lazily and never re-created, plus a
//! fresh vertex buffer per shape instance.
//!
//! Device buffers are modelled as records: the cache remembers, in
//! allocation order, what each buffer was created with, and a [`BufferId`]
//! is the index of its record.  The number of records is therefore exactly
//! the number of allocations the device has been asked for.

use vstd::prelude::*;

use crate::math::Vertex;

verus! {

/// Handle to one allocated device buffer.
#[derive(Clone, Copy, PartialEq, Eq, Structural, Debug)]
pub struct BufferId {
    pub id: usize,
}

/// What one device buffer was created with.
#[derive(Debug)]
pub enum BufferRecord {
    /// An index buffer holding 16-bit indices.
    Index { indices: Vec<u16> },
    /// A vertex buffer holding packed vertices.
    Vertex { vertices: Vec<Vertex> },
}

/// The fixed triangulation of a 4-vertex quad: two triangles in the
/// winding order the pipeline culls against.
pub open spec fn spec_quad_indices() -> Seq<u16> {
    seq![0u16, 1u16, 2u16, 2u16, 3u16, 0u16]
}

/// Builds the quad triangulation `[0, 1, 2, 2, 3, 0]`.
pub fn quad_indices() -> (v: Vec<u16>)
    ensures
        v@ == spec_quad_indices(),
{
    let mut v: Vec<u16> = Vec::new();
    v.push(0);
    v.push(1);
    v.push(2);
    v.push(2);
    v.push(3);
    v.push(0);
    proof {
        assert(v@ =~= spec_quad_indices());
    }
    v
}

/// The four corners of the rectangle at `(x, y)` with extent
/// `(width, height)`, in the fixed winding order: top-left, top-right,
/// bottom-right, bottom-left, all at depth zero.
pub open spec fn spec_quad_corners(x: int, y: int, width: int, height: int) -> Seq<Vertex> {
    seq![
        Vertex { x: x as i64, y: y as i64, z: 0 },
        Vertex { x: (x + width) as i64, y: y as i64, z: 0 },
        Vertex { x: (x + width) as i64, y: (y + height) as i64, z: 0 },
        Vertex { x: x as i64, y: (y + height) as i64, z: 0 },
    ]
}

/// Builds the corner vertices of a rectangle in the fixed winding order.
pub fn quad_corners(x: i64, y: i64, width: i64, height: i64) -> (v: Vec<Vertex>)
    requires
        i64::MIN <= x + width <= i64::MAX,
        i64::MIN <= y + height <= i64::MAX,
    ensures
        v@ == spec_quad_corners(x as int, y as int, width as int, height as int),
{
    let mut v: Vec<Vertex> = Vec::new();
    v.push(Vertex { x, y, z: 0 });
    v.push(Vertex { x: x + width, y, z: 0 });
    v.push(Vertex { x: x + width, y: y + height, z: 0 });
    v.push(Vertex { x, y: y + height, z: 0 });
    proof {
        assert(v@ =~= spec_quad_corners(x as int, y as int, width as int, height as int));
    }
    v
}

/// Owner of every buffer the engine allocates, and of the one shared
/// quad index buffer.
#[derive(Debug)]
pub struct GeometryCache {
    /// Every allocation made so far, in order; a [`BufferId`] indexes here.
    pub buffers: Vec<BufferRecord>,
    /// The shared quad index buffer, once the first shape has forced it.
    pub shared_index: Option<BufferId>,
}

impl GeometryCache {
    /// The shared index buffer, when present, is an allocated index
    /// buffer holding exactly the quad triangulation.
    pub open spec fn wf(self) -> bool {
        match self.shared_index {
            Some(b) => {
                &&& b.id < self.buffers@.len()
                &&& self.buffers@[b.id as int] matches BufferRecord::Index { indices }
                    && indices@ == spec_quad_indices()
            },
            None => true,
        }
    }

    /// A cache with no allocations and no shared index buffer yet.
    pub fn new() -> (c: GeometryCache)
        ensures
            c.buffers@.len() == 0,
            c.shared_index is None,
            c.wf(),
    {
        GeometryCache { buffers: Vec::new(), shared_index: None }
    }

    /// Returns the shared quad index buffer, allocating it on the first
    /// call only: later calls return the same handle and leave the cache
    /// untouched, so exactly one allocation ever occurs for it.
    pub fn ensure_shared_index_buffer(&mut self) -> (b: BufferId)
        requires
            old(self).wf(),
            old(self).buffers@.len() < usize::MAX,
        ensures
            final(self).wf(),
            final(self).shared_index == Some(b),
            old(self).shared_index matches Some(prior) ==> {
                &&& b == prior
                &&& *final(self) == *old(self)
            },
            old(self).shared_index is None ==> {
                &&& b.id == old(self).buffers@.len()
                &&& final(self).buffers@.len() == old(self).buffers@.len() + 1
                &&& forall|i: int|
                    0 <= i < old(self).buffers@.len() ==> final(self).buffers@[i]
                        == old(self).buffers@[i]
                &&& final(self).buffers@[b.id as int] matches BufferRecord::Index { indices }
                    && indices@ == spec_quad_indices()
            },
    {
        match self.shared_index {
            Some(b) => b,
            None => {
                let indices = quad_indices();
                let b = BufferId { id: self.buffers.len() };
                self.buffers.push(BufferRecord::Index { indices });
                self.shared_index = Some(b);
                b
            },
        }
    }

    /// Allocates a fresh vertex buffer holding `vertices`; no pooling, no
    /// reuse: every call adds exactly one allocation.
    pub fn make_vertex_buffer(&mut self, vertices: Vec<Vertex>) -> (b: BufferId)
        requires
            old(self).wf(),
            old(self).buffers@.len() < usize::MAX,
        ensures
            final(self).wf(),
            b.id == old(self).buffers@.len(),
            final(self).buffers@ == old(self).buffers@.push(
                BufferRecord::Vertex { vertices },
            ),
            final(self).shared_index == old(self).shared_index,
    {
        let b = BufferId { id: self.buffers.len() };
        self.buffers.push(BufferRecord::Vertex { vertices });
        b
    }

    /// Number of device allocations made through this cache.
    pub fn allocation_count(&self) -> (n: usize)
        ensures
            n == self.buffers@.len(),
    {
        self.buffers.len()
    }
}

} // verus!
