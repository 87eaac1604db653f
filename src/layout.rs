use vstd::prelude::*;
use crate::math::{Vec3, Vec4};

verus! {

/// One vertex as the pipeline reads it: a position and a color.
#[derive(Clone, Copy, Debug, PartialEq)]
pub struct Vertex<T> {
    pub pos: Vec3<T>,
    pub color: Vec4<T>,
}

/// Scalars in one position.
pub const POSITION_COMPONENTS: usize = 3;
/// Scalars in one color.
pub const COLOR_COMPONENTS: usize = 4;
/// Scalars in one vertex: the stride, counted in components.
pub const VERTEX_COMPONENTS: usize = 7;
/// Bytes in one 32-bit scalar.
pub const SCALAR_BYTES: usize = 4;
/// Bytes from one vertex to the next in the GPU buffer.
pub const VERTEX_STRIDE_BYTES: usize = 28;

/// Where one named shader input lies inside a vertex.
#[derive(Clone, Copy, Debug, PartialEq)]
pub struct AttributeLayout {
    pub name: &'static str,
    pub offset_bytes: usize,
    pub components: usize,
}

/// The stride equals the sum of the attributes' component counts, and the
/// byte stride is that sum times the scalar size.
pub proof fn lemma_stride_consistent()
    ensures
        VERTEX_COMPONENTS == POSITION_COMPONENTS + COLOR_COMPONENTS,
        VERTEX_STRIDE_BYTES == VERTEX_COMPONENTS * SCALAR_BYTES,
{
}

/// The position attribute: `pos`, three scalars at the start of the vertex.
pub fn position_attribute() -> (r: AttributeLayout)
    ensures
        r.offset_bytes == 0,
        r.components == POSITION_COMPONENTS,
        r.name@ == "pos"@,
{
    proof { reveal_strlit("pos"); }
    AttributeLayout { name: "pos", offset_bytes: 0, components: POSITION_COMPONENTS }
}

/// The color attribute: `color`, four scalars right after the position.
pub fn color_attribute() -> (r: AttributeLayout)
    ensures
        r.offset_bytes == POSITION_COMPONENTS * SCALAR_BYTES,
        r.components == COLOR_COMPONENTS,
        r.offset_bytes + r.components * SCALAR_BYTES == VERTEX_STRIDE_BYTES,
        r.name@ == "color"@,
{
    proof { reveal_strlit("color"); }
    AttributeLayout {
        name: "color",
        offset_bytes: POSITION_COMPONENTS * SCALAR_BYTES,
        components: COLOR_COMPONENTS,
    }
}

/// The scalars of one vertex in buffer order: x, y, z, then the color.
pub open spec fn vertex_components<T>(v: Vertex<T>) -> Seq<T> {
    seq![v.pos.x, v.pos.y, v.pos.z, v.color.x, v.color.y, v.color.z, v.color.w]
}

/// The scalars of a run of vertices, one vertex after another.
pub open spec fn flatten<T>(vs: Seq<Vertex<T>>) -> Seq<T>
    decreases vs.len(),
{
    if vs.len() == 0 {
        Seq::empty()
    } else {
        flatten(vs.drop_last()) + vertex_components(vs.last())
    }
}

pub proof fn lemma_flatten_len<T>(vs: Seq<Vertex<T>>)
    ensures
        flatten(vs).len() == vs.len() * VERTEX_COMPONENTS,
    decreases vs.len(),
{
    if vs.len() > 0 {
        lemma_flatten_len(vs.drop_last());
    }
}

/// Lays out `vertices` as the GPU buffer holds them, `VERTEX_COMPONENTS`
/// scalars per vertex.
pub fn flatten_vertices<T: Copy>(vertices: &Vec<Vertex<T>>) -> (r: Vec<T>)
    ensures
        r@ == flatten(vertices@),
        r@.len() == vertices@.len() * VERTEX_COMPONENTS,
{
    let mut out: Vec<T> = Vec::new();
    let mut i: usize = 0;
    while i < vertices.len()
        invariant
            i <= vertices@.len(),
            out@ == flatten(vertices@.subrange(0, i as int)),
        decreases vertices@.len() - i,
    {
        let v = vertices[i];
        out.push(v.pos.x);
        out.push(v.pos.y);
        out.push(v.pos.z);
        out.push(v.color.x);
        out.push(v.color.y);
        out.push(v.color.z);
        out.push(v.color.w);
        proof {
            let s = vertices@.subrange(0, i + 1);
            assert(s.drop_last() =~= vertices@.subrange(0, i as int));
            assert(out@ =~= flatten(s));
        }
        i += 1;
    }
    proof {
        assert(vertices@.subrange(0, vertices@.len() as int) =~= vertices@);
        lemma_flatten_len(vertices@);
    }
    out
}

/// Bytes of a GPU buffer that holds `capacity` vertices.
pub fn buffer_bytes(capacity: usize) -> (r: usize)
    requires
        capacity <= crate::renderer::MAX_VERTEX_CAPACITY,
    ensures
        r == capacity * VERTEX_STRIDE_BYTES,
{
    capacity * VERTEX_STRIDE_BYTES
}

} // verus!
