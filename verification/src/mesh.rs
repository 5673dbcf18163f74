use vstd::prelude::*;

use crate::ids::BufferId;

verus! {

/// Number of indices one sprite draw consumes: two triangles over the shared
/// unit quad.
pub const QUAD_INDEX_COUNT: u32 = 6;

/// A corner of the shared unit quad, in integer unit coordinates. The host
/// converts these to its vertex format when it uploads the buffer.
#[derive(Clone, Copy, PartialEq, Eq, Structural, Debug)]
pub struct QuadVertex {
    pub x: u32,
    pub y: u32,
    pub z: u32,
}

/// The one shared quad geometry: four corners of the unit square and six
/// indices forming its two triangles, built once at startup, plus the handles
/// of the GPU copies once the host has uploaded them. The vertex and index
/// data never change after construction.
#[derive(Clone, Debug)]
pub struct FixedQuadMesh {
    pub vertex_buffer: Vec<QuadVertex>,
    pub index_buffer: Vec<u32>,
    pub vertex_buffer_gpu: Option<BufferId>,
    pub index_buffer_gpu: Option<BufferId>,
}

/// The four corners of the unit square, in winding order.
pub open spec fn quad_vertices_spec() -> Seq<QuadVertex> {
    seq![
        (QuadVertex { x: 0, y: 0, z: 0 }),
        (QuadVertex { x: 1, y: 0, z: 0 }),
        (QuadVertex { x: 1, y: 1, z: 0 }),
        (QuadVertex { x: 0, y: 1, z: 0 }),
    ]
}

/// The six indices forming the quad's two triangles.
pub open spec fn quad_indices_spec() -> Seq<u32> {
    seq![0u32, 1u32, 2u32, 0u32, 2u32, 3u32]
}

impl FixedQuadMesh {
    /// Build the quad data. The GPU handles start absent; the host records
    /// them with `write_buffers` once the upload has happened.
    pub fn new() -> (r: FixedQuadMesh)
        ensures
            r.vertex_buffer@ == quad_vertices_spec(),
            r.index_buffer@ == quad_indices_spec(),
            r.vertex_buffer_gpu is None,
            r.index_buffer_gpu is None,
    {
        let mut vertex_buffer: Vec<QuadVertex> = Vec::new();
        vertex_buffer.push(QuadVertex { x: 0, y: 0, z: 0 });
        vertex_buffer.push(QuadVertex { x: 1, y: 0, z: 0 });
        vertex_buffer.push(QuadVertex { x: 1, y: 1, z: 0 });
        vertex_buffer.push(QuadVertex { x: 0, y: 1, z: 0 });
        let mut index_buffer: Vec<u32> = Vec::new();
        index_buffer.push(0);
        index_buffer.push(1);
        index_buffer.push(2);
        index_buffer.push(0);
        index_buffer.push(2);
        index_buffer.push(3);
        proof {
            assert(vertex_buffer@ =~= quad_vertices_spec());
            assert(index_buffer@ =~= quad_indices_spec());
        }
        FixedQuadMesh { vertex_buffer, index_buffer, vertex_buffer_gpu: None, index_buffer_gpu: None }
    }

    /// Record the GPU handles of the uploaded copies. The quad data itself is
    /// left untouched.
    pub fn write_buffers(&mut self, vertex: BufferId, index: BufferId)
        ensures
            final(self).vertex_buffer@ == old(self).vertex_buffer@,
            final(self).index_buffer@ == old(self).index_buffer@,
            final(self).vertex_buffer_gpu == Some(vertex),
            final(self).index_buffer_gpu == Some(index),
    {
        self.vertex_buffer_gpu = Some(vertex);
        self.index_buffer_gpu = Some(index);
    }
}

} // verus!
