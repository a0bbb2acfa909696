//! Vertices of the coloured cube: integer positions and colours in
//! homogeneous form.
use crate::surface::{extend, homogeneous};
use vstd::prelude::*;

verus! {

/// A cube vertex with a homogeneous position and colour.
#[derive(Clone, Copy, Debug, PartialEq, Eq)]
pub struct Vertex2 {
    pub position: [i8; 4],
    pub color: [i8; 4],
}

/// Builds a vertex from a position and a colour, each extended by a fourth
/// component equal to one.
pub fn vertex2(p: [i8; 3], c: [i8; 3]) -> (v: Vertex2)
    ensures
        v.position@ == extend(p, 1i8),
        v.color@ == extend(c, 1i8),
{
    Vertex2 { position: homogeneous(p, 1), color: homogeneous(c, 1) }
}

/// The vertex list of the coloured cube from its per-vertex positions and
/// colours: vertex `i` takes the `i`-th position and colour. There must be a
/// colour for each position.
pub fn create_vertices2(pos: &[[i8; 3]], col: &[[i8; 3]]) -> (data: Vec<Vertex2>)
    requires
        col@.len() >= pos@.len(),
    ensures
        data@.len() == pos@.len(),
        forall|i: int|
            0 <= i < pos@.len() ==> (#[trigger] data@[i]).position@ == extend(pos@[i], 1i8)
                && data@[i].color@ == extend(col@[i], 1i8),
{
    let mut data: Vec<Vertex2> = Vec::with_capacity(pos.len());
    for i in 0..pos.len()
        invariant
            col@.len() >= pos@.len(),
            data@.len() == i,
            forall|k: int|
                0 <= k < i ==> (#[trigger] data@[k]).position@ == extend(pos@[k], 1i8)
                    && data@[k].color@ == extend(col@[k], 1i8),
    {
        data.push(vertex2(pos[i], col[i]));
    }
    data
}

} // verus!
