//! Filling the vertex and index buffers that a frame is drawn from. Every
//! index written refers to a vertex that is in the buffer.
use vstd::prelude::*;

verus! {

/// How the index buffer is to be read: as pairs (lines) or triples (triangles).
#[derive(Clone, Copy, Debug, PartialEq, Eq, Structural)]
pub enum RenderMode {
    Lines,
    Triangles,
}

/// Every index refers to one of the first `vertex_count` vertices.
pub open spec fn indices_valid(indices: Seq<u32>, vertex_count: nat) -> bool {
    forall|i: int| 0 <= i < indices.len() ==> (#[trigger] indices[i]) < vertex_count
}

/// Appends primitives to a vertex buffer and its index buffer. `V` is the
/// vertex type of the caller.
pub struct Renderer<'a, V> {
    pub vertices: &'a mut Vec<V>,
    pub indices: &'a mut Vec<u32>,
    pub mode: RenderMode,
}

/// Something that can put itself into the buffers of a renderer.
pub trait Drawable<V> {
    fn draw(&self, renderer: &mut Renderer<'_, V>);
}

impl<'a, V> Renderer<'a, V> {
    /// A renderer over the given buffers, drawing lines.
    pub fn new(vertices: &'a mut Vec<V>, indices: &'a mut Vec<u32>) -> (r: Self)
        ensures
            r.mode == RenderMode::Lines,
            *r.vertices == *old(vertices),
            *r.indices == *old(indices),
            *final(vertices) == *final(r.vertices),
            *final(indices) == *final(r.indices),
    {
        Renderer { vertices, indices, mode: RenderMode::Lines }
    }

    /// Switches how the index buffer is to be read.
    pub fn set_mode(&mut self, mode: RenderMode)
        ensures
            final(self).mode == mode,
            *final(self).vertices == *old(self).vertices,
            *final(self).indices == *old(self).indices,
            *final(final(self).vertices) == *final(old(self).vertices),
            *final(final(self).indices) == *final(old(self).indices),
    {
        self.mode = mode;
    }

    /// Appends a line from `from` to `to`: two vertices, and two indices that
    /// refer to them.
    pub fn draw_line(&mut self, from: V, to: V)
        requires
            old(self).vertices@.len() + 1 <= u32::MAX,
        ensures
            final(self).vertices@ == old(self).vertices@.push(from).push(to),
            final(self).indices@ == old(self).indices@.push(old(self).vertices@.len() as u32).push(
                (old(self).vertices@.len() + 1) as u32,
            ),
            final(self).mode == old(self).mode,
            *final(final(self).vertices) == *final(old(self).vertices),
            *final(final(self).indices) == *final(old(self).indices),
    {
        let base_idx: u32 = self.vertices.len() as u32;
        self.vertices.push(from);
        self.vertices.push(to);
        self.indices.push(base_idx);
        self.indices.push(base_idx + 1);
    }

    /// Appends a triangle with corners `p1`, `p2`, `p3`: three vertices, and
    /// three indices that refer to them in that order.
    pub fn draw_triangle(&mut self, p1: V, p2: V, p3: V)
        requires
            old(self).vertices@.len() + 2 <= u32::MAX,
        ensures
            final(self).vertices@ == old(self).vertices@.push(p1).push(p2).push(p3),
            final(self).indices@ == old(self).indices@.push(old(self).vertices@.len() as u32).push(
                (old(self).vertices@.len() + 1) as u32,
            ).push((old(self).vertices@.len() + 2) as u32),
            final(self).mode == old(self).mode,
            *final(final(self).vertices) == *final(old(self).vertices),
            *final(final(self).indices) == *final(old(self).indices),
    {
        let base_idx: u32 = self.vertices.len() as u32;
        self.vertices.push(p1);
        self.vertices.push(p2);
        self.vertices.push(p3);
        self.indices.push(base_idx);
        self.indices.push(base_idx + 1);
        self.indices.push(base_idx + 2);
    }
}

/// Drawing a line keeps every index pointing at a vertex in the buffer, and
/// the new indices point at the two new vertices.
pub proof fn law_line_keeps_indices_valid<V>(vertices: Seq<V>, indices: Seq<u32>, from: V, to: V)
    requires
        indices_valid(indices, vertices.len()),
        vertices.len() + 1 <= u32::MAX,
    ensures
        ({
            let nv = vertices.push(from).push(to);
            let ni = indices.push(vertices.len() as u32).push((vertices.len() + 1) as u32);
            &&& indices_valid(ni, nv.len())
            &&& nv[ni[ni.len() - 2] as int] == from
            &&& nv[ni[ni.len() - 1] as int] == to
        }),
{
}

/// Drawing a triangle keeps every index pointing at a vertex in the buffer,
/// and the new indices point at the three new corners in order.
pub proof fn law_triangle_keeps_indices_valid<V>(vertices: Seq<V>, indices: Seq<u32>, p1: V, p2: V, p3: V)
    requires
        indices_valid(indices, vertices.len()),
        vertices.len() + 2 <= u32::MAX,
    ensures
        ({
            let nv = vertices.push(p1).push(p2).push(p3);
            let ni = indices.push(vertices.len() as u32).push((vertices.len() + 1) as u32).push(
                (vertices.len() + 2) as u32,
            );
            &&& indices_valid(ni, nv.len())
            &&& nv[ni[ni.len() - 3] as int] == p1
            &&& nv[ni[ni.len() - 2] as int] == p2
            &&& nv[ni[ni.len() - 1] as int] == p3
        }),
{
}

} // verus!
