use vstd::prelude::*;

use crate::bytes::{
    bytes32, image32, lemma_flat_chunk, lemma_flat_len, lemma_image16_len, lemma_image32_len,
    lemma_image32_word, memory_image16, memory_image32, words16_as_bytes, words32_as_bytes,
};

verus! {

/// Size in bytes of one vertex in the vertex buffer: a position of three
/// 32-bit floats and a texture coordinate of two, tightly packed.
pub const VERTEX_SIZE: u64 = 20;

/// Offset in bytes of the position within a vertex.
pub const POSITION_OFFSET: u64 = 0;

/// Offset in bytes of the texture coordinate within a vertex.
pub const UV_OFFSET: u64 = 12;

/// One vertex as the vertex buffer holds it; each float is held as its
/// IEEE-754 bit pattern.
#[derive(Clone, Copy, Debug, PartialEq, Eq)]
pub struct Vertex {
    pub position: [u32; 3],
    pub uv: [u32; 2],
}

/// The vertex that pairs position `p` with texture coordinate `t`.
pub open spec fn vertex_of(p: [u32; 3], t: [u32; 2]) -> Vertex {
    Vertex { position: p, uv: t }
}

/// The five words of a vertex in buffer order: position, then texture
/// coordinate.
pub open spec fn vertex_words(v: Vertex) -> Seq<u32> {
    v.position@ + v.uv@
}

/// The words of `vs` in buffer order, one vertex after the other.
pub open spec fn vertices_words(vs: Seq<Vertex>) -> Seq<u32> {
    vs.map_values(|v: Vertex| vertex_words(v)).flatten()
}

impl Vertex {
    /// The position, as three float bit patterns.
    pub fn position(&self) -> (r: [u32; 3])
        ensures
            r == self.position,
    {
        self.position
    }

    /// The texture coordinate, as two float bit patterns.
    pub fn uv(&self) -> (r: [u32; 2])
        ensures
            r == self.uv,
    {
        self.uv
    }
}

/// Raw geometry: vertex positions, their texture coordinates, and the
/// triangle list that indexes them. Nothing ties the lengths together: a
/// vertex exists only where both a position and a coordinate do, and the
/// indices are passed on as they are.
pub struct ModelData {
    positions: Vec<[u32; 3]>,
    uvs: Vec<[u32; 2]>,
    indices: Vec<u16>,
}

impl ModelData {
    /// The positions, in order.
    pub closed spec fn position_seq(&self) -> Seq<[u32; 3]> {
        self.positions@
    }

    /// The texture coordinates, in order.
    pub closed spec fn uv_seq(&self) -> Seq<[u32; 2]> {
        self.uvs@
    }

    /// The triangle-list indices, in order.
    pub closed spec fn index_seq(&self) -> Seq<u16> {
        self.indices@
    }

    /// The vertices: the i-th position paired with the i-th texture
    /// coordinate, for as many as both sequences have.
    pub open spec fn vertex_seq(&self) -> Seq<Vertex> {
        let n = if self.position_seq().len() <= self.uv_seq().len() {
            self.position_seq().len()
        } else {
            self.uv_seq().len()
        };
        Seq::new(n, |i: int| vertex_of(self.position_seq()[i], self.uv_seq()[i]))
    }

    /// Geometry made of the three sequences as they are.
    pub fn new(positions: Vec<[u32; 3]>, uvs: Vec<[u32; 2]>, indices: Vec<u16>) -> (r: ModelData)
        ensures
            r.position_seq() == positions@,
            r.uv_seq() == uvs@,
            r.index_seq() == indices@,
    {
        ModelData { positions, uvs, indices }
    }

    /// The vertices, position and texture coordinate paired by index;
    /// positions or coordinates beyond the shorter sequence are left out.
    pub fn vertices(&self) -> (r: Vec<Vertex>)
        ensures
            r@ == self.vertex_seq(),
    {
        let n: usize = if self.positions.len() <= self.uvs.len() {
            self.positions.len()
        } else {
            self.uvs.len()
        };
        let mut r: Vec<Vertex> = Vec::new();
        let mut i: usize = 0;
        while i < n
            invariant
                i <= n,
                n == self.vertex_seq().len(),
                r@ == self.vertex_seq().take(i as int),
            decreases n - i,
        {
            r.push(Vertex { position: self.positions[i], uv: self.uvs[i] });
            i = i + 1;
            assert(r@ =~= self.vertex_seq().take(i as int));
        }
        assert(r@ =~= self.vertex_seq());
        r
    }

    /// The triangle-list indices, unchanged.
    pub fn indices(&self) -> (r: &[u16])
        ensures
            r@ == self.index_seq(),
    {
        self.indices.as_slice()
    }

    /// The vertex buffer's contents: the vertices one after the other, each
    /// as its five floats in the machine's byte order.
    pub fn vertex_bytes(&self) -> (r: Vec<u8>)
        ensures
            memory_image32(vertices_words(self.vertex_seq()), r@),
            r@.len() == VERTEX_SIZE * self.vertex_seq().len(),
    {
        let vs = self.vertices();
        let mut w: Vec<u32> = Vec::new();
        let mut i: usize = 0;
        while i < vs.len()
            invariant
                i <= vs@.len(),
                vs@ == self.vertex_seq(),
                w@ == vertices_words(vs@.take(i as int)),
            decreases vs@.len() - i,
        {
            let v = vs[i];
            w.push(v.position[0]);
            w.push(v.position[1]);
            w.push(v.position[2]);
            w.push(v.uv[0]);
            w.push(v.uv[1]);
            proof {
                let f = |v: Vertex| vertex_words(v);
                let before = vs@.take(i as int);
                let after = vs@.take(i + 1);
                assert(after =~= before.push(v));
                assert(after.map_values(f) =~= before.map_values(f).push(vertex_words(v)));
                before.map_values(f).lemma_flatten_push(vertex_words(v));
                assert(w@ =~= vertices_words(before) + vertex_words(v));
            }
            i = i + 1;
        }
        assert(vs@.take(vs@.len() as int) =~= vs@);
        let r = words32_as_bytes(w.as_slice());
        proof {
            lemma_image32_len(w@, r@);
            lemma_flat_len(vs@, |v: Vertex| vertex_words(v), 5);
        }
        r
    }

    /// The index buffer's contents: the indices in order, each in the
    /// machine's byte order.
    pub fn index_bytes(&self) -> (r: Vec<u8>)
        ensures
            memory_image16(self.index_seq(), r@),
            r@.len() == 2 * self.index_seq().len(),
    {
        let r = words16_as_bytes(self.indices.as_slice());
        proof {
            lemma_image16_len(self.indices@, r@);
        }
        r
    }
}

/// In a vertex buffer, vertex `i` starts `VERTEX_SIZE * i` bytes in. The
/// `j`-th float of its position lies `POSITION_OFFSET + 4 * j` bytes further
/// on, the `j`-th float of its texture coordinate `UV_OFFSET + 4 * j` bytes
/// further on, each as four bytes in the buffer's byte order.
pub proof fn lemma_vertex_layout(vs: Seq<Vertex>, le: bool, i: int)
    requires
        0 <= i < vs.len(),
    ensures
        forall|j: int|
            0 <= j < 3 ==> image32(vertices_words(vs), le).subrange(
                VERTEX_SIZE * i + POSITION_OFFSET + 4 * j,
                VERTEX_SIZE * i + POSITION_OFFSET + 4 * j + 4,
            ) == bytes32(#[trigger] vs[i].position@[j], le),
        forall|j: int|
            0 <= j < 2 ==> image32(vertices_words(vs), le).subrange(
                VERTEX_SIZE * i + UV_OFFSET + 4 * j,
                VERTEX_SIZE * i + UV_OFFSET + 4 * j + 4,
            ) == bytes32(#[trigger] vs[i].uv@[j], le),
{
    let f = |v: Vertex| vertex_words(v);
    let w = vertices_words(vs);
    lemma_flat_len(vs, f, 5);
    lemma_flat_chunk(vs, f, 5, i);
    assert(5 * i + 5 <= 5 * vs.len()) by (nonlinear_arith)
        requires
            i < vs.len(),
    ;
    assert forall|j: int| 0 <= j < 5 implies image32(w, le).subrange(
        20 * i + 4 * j,
        20 * i + 4 * j + 4,
    ) == bytes32(vertex_words(vs[i])[j], le) by {
        assert(w[5 * i + j] == w.subrange(5 * i, 5 * i + 5)[j]);
        lemma_image32_word(w, le, 5 * i + j);
        assert(4 * (5 * i + j) == 20 * i + 4 * j);
    }
    assert forall|j: int| 0 <= j < 3 implies image32(w, le).subrange(
        VERTEX_SIZE * i + POSITION_OFFSET + 4 * j,
        VERTEX_SIZE * i + POSITION_OFFSET + 4 * j + 4,
    ) == bytes32(#[trigger] vs[i].position@[j], le) by {
        assert(vertex_words(vs[i])[j] == vs[i].position@[j]);
    }
    assert forall|j: int| 0 <= j < 2 implies image32(w, le).subrange(
        VERTEX_SIZE * i + UV_OFFSET + 4 * j,
        VERTEX_SIZE * i + UV_OFFSET + 4 * j + 4,
    ) == bytes32(#[trigger] vs[i].uv@[j], le) by {
        assert(vertex_words(vs[i])[3 + j] == vs[i].uv@[j]);
        assert(20 * i + 4 * (3 + j) == VERTEX_SIZE * i + UV_OFFSET + 4 * j);
    }
}

} // verus!
