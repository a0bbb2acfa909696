//! Vertex assembly for lit, coloured surfaces: homogeneous coordinates and
//! the interleaving of per-point positions, normals and colours.
//!
//! The vertex layout does not depend on the scalar type, so it is written for
//! any copyable scalar `T`; the renderer uses it with single-precision values.
use vstd::prelude::*;

verus! {

/// The point `p` extended by a fourth coordinate `w`.
pub open spec fn extend<T>(p: [T; 3], w: T) -> Seq<T> {
    seq![p[0], p[1], p[2], w]
}

/// The homogeneous form `(x, y, z, w)` of the point `p`.
pub fn homogeneous<T: Copy>(p: [T; 3], w: T) -> (h: [T; 4])
    ensures
        h@ == extend(p, w),
        h[0] == p[0] && h[1] == p[1] && h[2] == p[2] && h[3] == w,
{
    let h = [p[0], p[1], p[2], w];
    assert(h@ =~= extend(p, w));
    h
}

/// Law: the homogeneous form of a point keeps its three coordinates, in
/// order, and appends `w` as the fourth.
pub proof fn lemma_extend<T>(p: [T; 3], w: T)
    ensures
        extend(p, w).len() == 4,
        extend(p, w)[0] == p[0],
        extend(p, w)[1] == p[1],
        extend(p, w)[2] == p[2],
        extend(p, w)[3] == w,
{
}

/// A surface vertex: homogeneous position, normal and colour.
#[derive(Clone, Copy, Debug, PartialEq)]
pub struct Vertex<T> {
    pub position: [T; 4],
    pub normal: [T; 4],
    pub color: [T; 4],
}

/// Builds a surface vertex from a point, its normal and its colour, each
/// extended by the fourth coordinate `one`.
pub fn vertex<T: Copy>(p: [T; 3], n: [T; 3], c: [T; 3], one: T) -> (v: Vertex<T>)
    ensures
        v.position@ == extend(p, one),
        v.normal@ == extend(n, one),
        v.color@ == extend(c, one),
{
    Vertex { position: homogeneous(p, one), normal: homogeneous(n, one), color: homogeneous(c, one) }
}

/// The vertex list of a surface given per point: vertex `i` takes the `i`-th
/// position, normal and colour. There must be a normal and a colour for each
/// position.
pub fn create_vertices<T: Copy>(pos: &[[T; 3]], normal: &[[T; 3]], color: &[[T; 3]], one: T) -> (data: Vec<Vertex<T>>)
    requires
        normal@.len() >= pos@.len(),
        color@.len() >= pos@.len(),
    ensures
        data@.len() == pos@.len(),
        forall|i: int|
            0 <= i < pos@.len() ==> {
                &&& (#[trigger] data@[i]).position@ == extend(pos@[i], one)
                &&& data@[i].normal@ == extend(normal@[i], one)
                &&& data@[i].color@ == extend(color@[i], one)
            },
{
    let mut data: Vec<Vertex<T>> = Vec::with_capacity(pos.len());
    for i in 0..pos.len()
        invariant
            normal@.len() >= pos@.len(),
            color@.len() >= pos@.len(),
            data@.len() == i,
            forall|k: int|
                0 <= k < i ==> {
                    &&& (#[trigger] data@[k]).position@ == extend(pos@[k], one)
                    &&& data@[k].normal@ == extend(normal@[k], one)
                    &&& data@[k].color@ == extend(color@[k], one)
                },
    {
        data.push(vertex(pos[i], normal[i], color[i], one));
    }
    data
}

} // verus!
