//! Meshes as handed over through the C interface, and their assembly into
//! interleaved vertices.
//!
//! `P` is the type of a position or normal and `U` the type of a texture
//! coordinate; the assembly only moves them and never looks inside.

use vstd::prelude::*;

use crate::handles::{buffer_is_null, memory_is_null, null_buffer, null_memory};

verus! {

/// Separate attribute arrays of a mesh, as the host application hands them
/// over: `vertices_length` entries of each vertex attribute and
/// `indices_length` triangle indices.
pub struct RawMesh<'a, P, U> {
    pub vertices: &'a [P],
    pub normals: &'a [P],
    pub uvs: &'a [U],
    pub indices: &'a [u32],
    pub vertices_length: u32,
    pub indices_length: u32,
}

impl<'a, P, U> RawMesh<'a, P, U> {
    /// Every attribute array holds at least as many entries as the lengths say.
    pub open spec fn well_formed(self) -> bool {
        &&& self.vertices@.len() >= self.vertices_length
        &&& self.normals@.len() >= self.vertices_length
        &&& self.uvs@.len() >= self.vertices_length
        &&& self.indices@.len() >= self.indices_length
    }
}

/// One interleaved vertex: position, normal and texture coordinate.
pub struct Vertex<P, U> {
    position: P,
    normal: P,
    uv: U,
}

impl<P, U> Vertex<P, U> {
    /// The vertex position.
    pub closed spec fn spec_position(self) -> P {
        self.position
    }

    /// The vertex normal.
    pub closed spec fn spec_normal(self) -> P {
        self.normal
    }

    /// The vertex texture coordinate.
    pub closed spec fn spec_uv(self) -> U {
        self.uv
    }

    /// The vertex position.
    pub fn position(&self) -> (r: &P)
        ensures
            *r == self.spec_position(),
    {
        &self.position
    }

    /// The vertex normal.
    pub fn normal(&self) -> (r: &P)
        ensures
            *r == self.spec_normal(),
    {
        &self.normal
    }

    /// The vertex texture coordinate.
    pub fn uv(&self) -> (r: &U)
        ensures
            *r == self.spec_uv(),
    {
        &self.uv
    }
}

/// A mesh held by the baker: interleaved vertices and triangle indices.
pub struct Mesh<P, U> {
    pub vertices: Vec<Vertex<P, U>>,
    pub indices: Vec<u32>,
}

/// `v` is made of entry `i` of each of the raw attribute arrays.
pub open spec fn vertex_matches<'a, P, U>(v: Vertex<P, U>, raw: RawMesh<'a, P, U>, i: int) -> bool {
    &&& v.spec_position() == raw.vertices@[i]
    &&& v.spec_normal() == raw.normals@[i]
    &&& v.spec_uv() == raw.uvs@[i]
}

/// `m` is the mesh that `raw` describes: one vertex per raw vertex, made of the
/// entries at the same place in each attribute array, and the first
/// `indices_length` indices in their order.
pub open spec fn assembled_from<'a, P, U>(m: Mesh<P, U>, raw: RawMesh<'a, P, U>) -> bool {
    &&& m.vertices@.len() == raw.vertices_length
    &&& forall|i: int|
        0 <= i < raw.vertices_length ==> #[trigger] vertex_matches(m.vertices@[i], raw, i)
    &&& m.indices@ == raw.indices@.take(raw.indices_length as int)
}

impl<P: Copy, U: Copy> Mesh<P, U> {
    /// Interleaves the separate attribute arrays of `raw` into vertices and
    /// copies its indices.
    pub fn from_raw_mesh<'a>(raw: RawMesh<'a, P, U>) -> (m: Self)
        requires
            raw.well_formed(),
        ensures
            assembled_from(m, raw),
            m.vertices@.len() == raw.vertices_length,
            forall|i: int|
                0 <= i < raw.vertices_length ==> {
                    &&& (#[trigger] m.vertices@[i]).spec_position() == raw.vertices@[i]
                    &&& m.vertices@[i].spec_normal() == raw.normals@[i]
                    &&& m.vertices@[i].spec_uv() == raw.uvs@[i]
                },
            m.indices@.len() == raw.indices_length,
            forall|j: int| 0 <= j < raw.indices_length ==> #[trigger] m.indices@[j] == raw.indices@[j],
    {
        let vertex_count = raw.vertices_length as usize;
        let index_count = raw.indices_length as usize;

        let mut vertices_copy: Vec<Vertex<P, U>> = Vec::with_capacity(vertex_count);
        let mut triangles_copy: Vec<u32> = Vec::with_capacity(index_count);

        for i in 0..vertex_count
            invariant
                vertex_count == raw.vertices_length,
                raw.well_formed(),
                vertices_copy@.len() == i,
                forall|j: int| 0 <= j < i ==> #[trigger] vertex_matches(vertices_copy@[j], raw, j),
        {
            let vertex = Vertex { position: raw.vertices[i], normal: raw.normals[i], uv: raw.uvs[i] };
            vertices_copy.push(vertex);
        }

        for i in 0..index_count
            invariant
                index_count == raw.indices_length,
                raw.well_formed(),
                triangles_copy@ == raw.indices@.take(i as int),
        {
            triangles_copy.push(raw.indices[i]);
            assert(raw.indices@.take(i + 1) == raw.indices@.take(i as int).push(raw.indices@[i as int]));
        }

        assert forall|i: int| 0 <= i < raw.vertices_length implies {
            &&& (#[trigger] vertices_copy@[i]).spec_position() == raw.vertices@[i]
            &&& vertices_copy@[i].spec_normal() == raw.normals@[i]
            &&& vertices_copy@[i].spec_uv() == raw.uvs@[i]
        } by {
            assert(vertex_matches(vertices_copy@[i], raw, i));
        }

        Mesh { vertices: vertices_copy, indices: triangles_copy }
    }
}

/// In an assembled mesh, vertex `i` has the position, normal and texture
/// coordinate found at entry `i` of the raw vertex, normal and uv arrays.
pub proof fn lemma_assembled_vertex_attributes<'a, P, U>(m: Mesh<P, U>, raw: RawMesh<'a, P, U>, i: int)
    requires
        assembled_from(m, raw),
        0 <= i < raw.vertices_length,
    ensures
        m.vertices@[i].spec_position() == raw.vertices@[i],
        m.vertices@[i].spec_normal() == raw.normals@[i],
        m.vertices@[i].spec_uv() == raw.uvs@[i],
{
    assert(vertex_matches(m.vertices@[i], raw, i));
}

/// Two vertices of an assembled mesh whose raw entries differ in some
/// attribute differ in that attribute too: no vertex borrows another's data.
pub proof fn lemma_assembled_vertices_keep_their_own_entries<'a, P, U>(
    m: Mesh<P, U>,
    raw: RawMesh<'a, P, U>,
    i: int,
    j: int,
)
    requires
        assembled_from(m, raw),
        0 <= i < raw.vertices_length,
        0 <= j < raw.vertices_length,
    ensures
        raw.normals@[i] != raw.normals@[j] ==> m.vertices@[i].spec_normal() != m.vertices@[j].spec_normal(),
        raw.vertices@[i] != raw.vertices@[j] ==> m.vertices@[i].spec_position() != m.vertices@[j].spec_position(),
        raw.uvs@[i] != raw.uvs@[j] ==> m.vertices@[i].spec_uv() != m.vertices@[j].spec_uv(),
{
    assert(vertex_matches(m.vertices@[i], raw, i));
    assert(vertex_matches(m.vertices@[j], raw, j));
}

/// An assembled mesh holds exactly `indices_length` indices, each the raw index
/// at the same place.
pub proof fn lemma_assembled_indices<'a, P, U>(m: Mesh<P, U>, raw: RawMesh<'a, P, U>, j: int)
    requires
        assembled_from(m, raw),
        raw.well_formed(),
        0 <= j < raw.indices_length,
    ensures
        m.indices@.len() == raw.indices_length,
        m.indices@[j] == raw.indices@[j],
{
}

impl<P, U> Mesh<P, U> {
    /// Size in bytes of the vertex buffer that holds the mesh's vertices.
    pub fn vertex_bytes(&self) -> (r: u64)
        requires
            self.vertices@.len() * vstd::layout::size_of::<Vertex<P, U>>() <= usize::MAX,
        ensures
            r == self.vertices@.len() * vstd::layout::size_of::<Vertex<P, U>>(),
    {
        let stride = core::mem::size_of::<Vertex<P, U>>();
        let count = self.vertices.len();
        proof {
            vstd::arithmetic::mul::lemma_mul_is_commutative(count as int, stride as int);
        }
        (count * stride) as u64
    }

    /// Size in bytes of the index buffer that holds the mesh's indices.
    pub fn index_bytes(&self) -> (r: u64)
        requires
            self.indices@.len() * vstd::layout::size_of::<u32>() <= usize::MAX,
        ensures
            r == self.indices@.len() * vstd::layout::size_of::<u32>(),
    {
        let stride = core::mem::size_of::<u32>();
        let count = self.indices.len();
        (count * stride) as u64
    }
}

/// A mesh uploaded to the GPU: a vertex buffer and an index buffer, the memory
/// bound to each, and their device addresses. Handles are raw Vulkan values,
/// zero when released.
pub struct GpuMesh {
    vertex_buffer: u64,
    vertex_memory: u64,
    vertex_address: u64,
    index_buffer: u64,
    index_memory: u64,
    index_address: u64,
}

impl GpuMesh {
    /// The vertex buffer handle.
    pub closed spec fn spec_vertex_buffer(self) -> u64 {
        self.vertex_buffer
    }

    /// The memory bound to the vertex buffer.
    pub closed spec fn spec_vertex_memory(self) -> u64 {
        self.vertex_memory
    }

    /// The device address of the vertex buffer.
    pub closed spec fn spec_vertex_address(self) -> u64 {
        self.vertex_address
    }

    /// The index buffer handle.
    pub closed spec fn spec_index_buffer(self) -> u64 {
        self.index_buffer
    }

    /// The memory bound to the index buffer.
    pub closed spec fn spec_index_memory(self) -> u64 {
        self.index_memory
    }

    /// The device address of the index buffer.
    pub closed spec fn spec_index_address(self) -> u64 {
        self.index_address
    }

    /// All four buffer and memory handles are live (not null).
    pub open spec fn holds_resources(self) -> bool {
        &&& self.spec_vertex_buffer() != 0
        &&& self.spec_vertex_memory() != 0
        &&& self.spec_index_buffer() != 0
        &&& self.spec_index_memory() != 0
    }

    /// A GPU mesh made of freshly created and uploaded buffers.
    pub fn new(
        vertex_buffer: u64,
        vertex_memory: u64,
        vertex_address: u64,
        index_buffer: u64,
        index_memory: u64,
        index_address: u64,
    ) -> (g: Self)
        ensures
            g.spec_vertex_buffer() == vertex_buffer,
            g.spec_vertex_memory() == vertex_memory,
            g.spec_vertex_address() == vertex_address,
            g.spec_index_buffer() == index_buffer,
            g.spec_index_memory() == index_memory,
            g.spec_index_address() == index_address,
    {
        GpuMesh { vertex_buffer, vertex_memory, vertex_address, index_buffer, index_memory, index_address }
    }

    /// Whether all four buffer and memory handles are live, which
    /// [`GpuMesh::destroy`] needs.
    pub fn is_live(&self) -> (r: bool)
        ensures
            r == self.holds_resources(),
    {
        !buffer_is_null(self.vertex_buffer) && !memory_is_null(self.vertex_memory)
            && !buffer_is_null(self.index_buffer) && !memory_is_null(self.index_memory)
    }

    /// Marks the mesh released. Returns the handles the caller has to release,
    /// in order: vertex buffer, vertex memory, index buffer, index memory. All
    /// handles and addresses become null.
    pub fn destroy(&mut self) -> (released: (u64, u64, u64, u64))
        requires
            old(self).holds_resources(),
        ensures
            release_step(*old(self), *final(self), released),
            released.0 == old(self).spec_vertex_buffer(),
            released.1 == old(self).spec_vertex_memory(),
            released.2 == old(self).spec_index_buffer(),
            released.3 == old(self).spec_index_memory(),
            final(self).spec_vertex_buffer() == 0 && final(self).spec_vertex_memory() == 0,
            final(self).spec_index_buffer() == 0 && final(self).spec_index_memory() == 0,
            final(self).spec_vertex_address() == 0 && final(self).spec_index_address() == 0,
    {
        let released = (self.vertex_buffer, self.vertex_memory, self.index_buffer, self.index_memory);

        self.vertex_buffer = null_buffer();
        self.vertex_memory = null_memory();

        self.index_buffer = null_buffer();
        self.index_memory = null_memory();

        self.index_address = 0;
        self.vertex_address = 0;

        released
    }
}

/// What [`GpuMesh::destroy`] does to `before`, leaving `after` and handing back
/// `released`: the vertex buffer, vertex memory, index buffer and index memory
/// handles in that order, with every handle and address of `after` null.
pub open spec fn release_step(before: GpuMesh, after: GpuMesh, released: (u64, u64, u64, u64)) -> bool {
    &&& released == (
        before.spec_vertex_buffer(),
        before.spec_vertex_memory(),
        before.spec_index_buffer(),
        before.spec_index_memory(),
    )
    &&& after.spec_vertex_buffer() == 0
    &&& after.spec_vertex_memory() == 0
    &&& after.spec_vertex_address() == 0
    &&& after.spec_index_buffer() == 0
    &&& after.spec_index_memory() == 0
    &&& after.spec_index_address() == 0
}

/// A released GPU mesh holds no resources, so it can be released only once:
/// [`GpuMesh::is_live`] is false for it and [`GpuMesh::destroy`] no longer
/// applies.
pub proof fn lemma_released_mesh_holds_nothing(before: GpuMesh, after: GpuMesh, released: (u64, u64, u64, u64))
    requires
        release_step(before, after, released),
    ensures
        !after.holds_resources(),
{
}

/// A release hands back the mesh's own handles, in the order vertex buffer,
/// vertex memory, index buffer, index memory, and leaves nothing behind.
pub proof fn lemma_release_hands_back_own_handles(before: GpuMesh, after: GpuMesh, released: (u64, u64, u64, u64))
    requires
        release_step(before, after, released),
    ensures
        released.0 == before.spec_vertex_buffer(),
        released.1 == before.spec_vertex_memory(),
        released.2 == before.spec_index_buffer(),
        released.3 == before.spec_index_memory(),
        after.spec_vertex_buffer() == 0 && after.spec_vertex_memory() == 0,
        after.spec_index_buffer() == 0 && after.spec_index_memory() == 0,
        after.spec_vertex_address() == 0 && after.spec_index_address() == 0,
{
}

/// Each of the four handles handed back by a release is live: a release never
/// asks the caller to free a null handle.
pub proof fn lemma_release_hands_back_live_handles(before: GpuMesh, after: GpuMesh, released: (u64, u64, u64, u64))
    requires
        before.holds_resources(),
        release_step(before, after, released),
    ensures
        released.0 != 0 && released.1 != 0 && released.2 != 0 && released.3 != 0,
{
}

} // verus!
