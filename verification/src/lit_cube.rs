//! Vertices of the lit cube: integer positions and normals in homogeneous
//! form.
use crate::surface::{extend, homogeneous};
use vstd::prelude::*;

verus! {

/// A cube vertex with a homogeneous position and normal.
///
/// The cube's corner coordinates and face normals are small integers, so the
/// vertex holds them exactly; the renderer widens them to floats.
#[derive(Clone, Copy, Debug, PartialEq, Eq)]
pub struct Vertex {
    pub position: [i8; 4],
    pub normal: [i8; 4],
}

/// Builds a vertex from a position and a normal, each extended by a fourth
/// component equal to one.
pub fn vertex(p: [i8; 3], n: [i8; 3]) -> (v: Vertex)
    ensures
        v.position@ == extend(p, 1i8),
        v.normal@ == extend(n, 1i8),
{
    Vertex { position: homogeneous(p, 1), normal: homogeneous(n, 1) }
}

/// The vertex list of the lit cube from its per-vertex positions and normals:
/// vertex `i` takes the `i`-th position and normal. There must be a normal for
/// each position.
pub fn create_vertices(pos: &[[i8; 3]], normal: &[[i8; 3]]) -> (data: Vec<Vertex>)
    requires
        normal@.len() >= pos@.len(),
    ensures
        data@.len() == pos@.len(),
        forall|i: int|
            0 <= i < pos@.len() ==> (#[trigger] data@[i]).position@ == extend(pos@[i], 1i8)
                && data@[i].normal@ == extend(normal@[i], 1i8),
{
    let mut data: Vec<Vertex> = Vec::with_capacity(pos.len());
    for i in 0..pos.len()
        invariant
            normal@.len() >= pos@.len(),
            data@.len() == i,
            forall|k: int|
                0 <= k < i ==> (#[trigger] data@[k]).position@ == extend(pos@[k], 1i8)
                    && data@[k].normal@ == extend(normal@[k], 1i8),
    {
        data.push(vertex(pos[i], normal[i]));
    }
    data
}

} // verus!
