//! Vertex and index buffers of the axis-aligned quad, and index checks.
use vstd::prelude::*;

verus! {

/// Number of scalars per vertex: `[x, y, r, g, b, a]`.
pub const QUAD_STRIDE: usize = 6;

/// The six indices of the two triangles `(0, 1, 2)` and `(0, 2, 3)`.
pub open spec fn quad_indices_spec() -> Seq<u32> {
    seq![0u32, 1u32, 2u32, 0u32, 2u32, 3u32]
}

/// True when every index names one of `vertex_count` vertices.
pub open spec fn all_below(indices: Seq<u32>, vertex_count: nat) -> bool {
    forall|i: int| 0 <= i < indices.len() ==> (#[trigger] indices[i]) < vertex_count
}

/// One vertex of the quad: its position followed by its color.
pub open spec fn vertex_spec<N>(x: N, y: N, rgba: [N; 4]) -> Seq<N> {
    seq![x, y, rgba[0], rgba[1], rgba[2], rgba[3]]
}

/// The vertex buffer of the quad with corners `(x1, y1)`, `(x1, y2)`,
/// `(x2, y2)` and `(x2, y1)`, in that order, each with its own color.
pub open spec fn quad_vertices_spec<N>(x1: N, y1: N, x2: N, y2: N, colors: [[N; 4]; 4]) -> Seq<N> {
    vertex_spec(x1, y1, colors[0])
        + vertex_spec(x1, y2, colors[1])
        + vertex_spec(x2, y2, colors[2])
        + vertex_spec(x2, y1, colors[3])
}

/// The index buffer of the quad: two triangles over its four vertices.
pub fn quad_indices() -> (r: Vec<u32>)
    ensures
        r@ == quad_indices_spec(),
        all_below(r@, 4),
{
    let r = vec![0u32, 1u32, 2u32, 0u32, 2u32, 3u32];
    assert(r@ =~= quad_indices_spec());
    r
}

fn push_vertex<N: Copy>(out: &mut Vec<N>, x: N, y: N, rgba: [N; 4])
    ensures
        final(out)@ == old(out)@ + vertex_spec(x, y, rgba),
{
    out.push(x);
    out.push(y);
    out.push(rgba[0]);
    out.push(rgba[1]);
    out.push(rgba[2]);
    out.push(rgba[3]);
    assert(final(out)@ =~= old(out)@ + vertex_spec(x, y, rgba));
}

/// The vertex buffer of the quad, six scalars per vertex.
///
/// `colors` are the four corner colors, each `[r, g, b, a]` with its alpha
/// already composed, in the order of the corners `(x1, y1)`, `(x1, y2)`,
/// `(x2, y2)`, `(x2, y1)`.
pub fn quad_vertices<N: Copy>(x1: N, y1: N, x2: N, y2: N, colors: [[N; 4]; 4]) -> (r: Vec<N>)
    ensures
        r@ == quad_vertices_spec(x1, y1, x2, y2, colors),
        r@.len() == 4 * QUAD_STRIDE,
{
    let mut r: Vec<N> = Vec::new();
    push_vertex(&mut r, x1, y1, colors[0]);
    push_vertex(&mut r, x1, y2, colors[1]);
    push_vertex(&mut r, x2, y2, colors[2]);
    push_vertex(&mut r, x2, y1, colors[3]);
    assert(r@ =~= quad_vertices_spec(x1, y1, x2, y2, colors));
    r
}

/// Whether every index of `indices` names one of `vertex_count` vertices.
pub fn indices_in_range(indices: &[u32], vertex_count: usize) -> (r: bool)
    ensures
        r == all_below(indices@, vertex_count as nat),
{
    let mut i: usize = 0;
    while i < indices.len()
        invariant
            i <= indices@.len(),
            forall|k: int| 0 <= k < i ==> (#[trigger] indices@[k]) < vertex_count,
        decreases indices@.len() - i,
    {
        if indices[i] as usize >= vertex_count {
            return false;
        }
        i = i + 1;
    }
    true
}

} // verus!
