//! The wireframe cube: a line list over the eight corners of the cube
//! `[-1, 1]^3`, drawing each of its twelve edges once.
use crate::surface::{extend, homogeneous};
use vstd::prelude::*;

verus! {

/// A line-list vertex with a homogeneous integer position.
#[derive(Clone, Copy, Debug, PartialEq, Eq)]
pub struct Vertex {
    pub position: [i8; 4],
}

/// Corner `c` (0 to 7) of the cube, extended by a fourth coordinate equal to
/// one. Corners 0 to 3 go around the top face (`y = 1`) and corners 4 to 7
/// lie below them on the bottom face.
pub open spec fn corner_position(c: int) -> Seq<i8> {
    let x: i8 = if c % 4 == 0 || c % 4 == 1 { -1i8 } else { 1i8 };
    let y: i8 = if c < 4 { 1i8 } else { -1i8 };
    let z: i8 = if c % 4 == 0 || c % 4 == 3 { 1i8 } else { -1i8 };
    seq![x, y, z, 1i8]
}

/// The corner on which line-list vertex `k` (0 to 23) sits: four lines around
/// the top face, four around the bottom face, and four vertical lines.
pub open spec fn line_corner(k: int) -> int {
    if k < 8 {
        if k % 2 == 0 { k / 2 } else { (k / 2 + 1) % 4 }
    } else if k < 16 {
        4 + (if k % 2 == 0 { (k - 8) / 2 } else { ((k - 8) / 2 + 1) % 4 })
    } else {
        if k % 2 == 0 { (k - 16) / 2 } else { (k - 16) / 2 + 4 }
    }
}

/// Builds a line-list vertex at `p`, extended by a fourth coordinate equal to
/// one.
pub fn vertex(p: [i8; 3]) -> (v: Vertex)
    ensures
        v.position@ == extend(p, 1i8),
{
    Vertex { position: homogeneous(p, 1) }
}

/// The line list of the cube's twelve edges.
pub fn create_vertices() -> (data: Vec<Vertex>)
    ensures
        data.len() == 24,
        forall|k: int| 0 <= k < 24 ==> (#[trigger] data@[k]).position@ == corner_position(
            line_corner(k),
        ),
        forall|k: int|
            0 <= k < 24 ==> {
                &&& (#[trigger] data@[k]).position[3] == 1
                &&& (data@[k].position[0] == 1 || data@[k].position[0] == -1)
                &&& (data@[k].position[1] == 1 || data@[k].position[1] == -1)
                &&& (data@[k].position[2] == 1 || data@[k].position[2] == -1)
            },
        forall|s: int|
            0 <= s < 12 ==> differing_coordinates(
                (#[trigger] data@[2 * s]).position@,
                data@[2 * s + 1].position@,
            ) == 1,
{
    // vertex positions
    let p: [[i8; 3]; 8] = [
        [-1, 1, 1],
        [-1, 1, -1],
        [1, 1, -1],
        [1, 1, 1],
        [-1, -1, 1],
        [-1, -1, -1],
        [1, -1, -1],
        [1, -1, 1],
    ];
    assert forall|c: int| 0 <= c < 8 implies extend(#[trigger] p[c], 1i8) == corner_position(c) by {
        assert(extend(p[c], 1i8) =~= corner_position(c));
    }

    // line segments
    let lines: [[i8; 3]; 24] = [
        // 4 lines on top face
        p[0], p[1], p[1], p[2], p[2], p[3], p[3], p[0],
        // 4 lines on bottom face
        p[4], p[5], p[5], p[6], p[6], p[7], p[7], p[4],
        // 4 lines on side
        p[0], p[4], p[1], p[5], p[2], p[6], p[3], p[7],
    ];
    assert forall|k: int| 0 <= k < 24 implies #[trigger] lines[k] == p[line_corner(k)] by {}

    let mut data: Vec<Vertex> = Vec::with_capacity(24);
    for i in 0..24
        invariant
            data.len() == i,
            forall|k: int| 0 <= k < 24 ==> #[trigger] lines[k] == p[line_corner(k)],
            forall|c: int| 0 <= c < 8 ==> extend(#[trigger] p[c], 1i8) == corner_position(c),
            forall|k: int| 0 <= k < i ==> (#[trigger] data@[k]).position@ == corner_position(
                line_corner(k),
            ),
    {
        assert(0 <= line_corner(i as int) < 8);
        data.push(vertex(lines[i]));
    }
    proof {
        lemma_cube_corners();
        lemma_cube_lines_are_distinct_edges();
        assert forall|s: int| 0 <= s < 12 implies differing_coordinates(
            (#[trigger] data@[2 * s]).position@,
            data@[2 * s + 1].position@,
        ) == 1 by {
            assert(line_edge(s).0 == line_corner(2 * s));
        }
    }
    data
}

/// Law: the eight corners are the eight points of `{-1, 1}^3`, each with
/// fourth (homogeneous) coordinate 1, and no two corners coincide.
pub proof fn lemma_cube_corners()
    ensures
        forall|c: int|
            0 <= c < 8 ==> {
                &&& (#[trigger] corner_position(c)).len() == 4
                &&& corner_position(c)[3] == 1
                &&& (corner_position(c)[0] == 1 || corner_position(c)[0] == -1)
                &&& (corner_position(c)[1] == 1 || corner_position(c)[1] == -1)
                &&& (corner_position(c)[2] == 1 || corner_position(c)[2] == -1)
            },
        forall|c: int, d: int|
            0 <= c < 8 && 0 <= d < 8 && c != d ==> #[trigger] corner_position(c)
                != #[trigger] corner_position(d),
        forall|k: int| 0 <= k < 24 ==> 0 <= #[trigger] line_corner(k) < 8,
{
    assert forall|c: int, d: int|
        0 <= c < 8 && 0 <= d < 8 && c != d implies #[trigger] corner_position(c)
            != #[trigger] corner_position(d) by {
        let a = corner_position(c);
        let b = corner_position(d);
        if c % 4 != d % 4 {
            assert(a[0] != b[0] || a[2] != b[2]);
        } else {
            assert(a[1] != b[1]);
        }
    }
}

/// The number of coordinates in which two homogeneous positions differ.
pub open spec fn differing_coordinates(a: Seq<i8>, b: Seq<i8>) -> int {
    (if a[0] != b[0] { 1int } else { 0 }) + (if a[1] != b[1] { 1int } else { 0 }) + (if a[2]
        != b[2] { 1int } else { 0 })
}

/// The edge drawn by line `s` (0 to 11), as the pair of its corners.
pub open spec fn line_edge(s: int) -> (int, int) {
    (line_corner(2 * s), line_corner(2 * s + 1))
}

/// Two lines draw the same edge, in either direction.
pub open spec fn same_edge(e: (int, int), f: (int, int)) -> bool {
    (e.0 == f.0 && e.1 == f.1) || (e.0 == f.1 && e.1 == f.0)
}

/// Law: each of the twelve lines of the cube wireframe is an edge of the cube
/// (its corners differ in exactly one coordinate), and no edge is drawn twice;
/// since a cube has twelve edges, every edge is drawn exactly once.
pub proof fn lemma_cube_lines_are_distinct_edges()
    ensures
        forall|s: int|
            0 <= s < 12 ==> differing_coordinates(
                corner_position(#[trigger] line_edge(s).0),
                corner_position(line_edge(s).1),
            ) == 1,
        forall|s: int, t: int|
            0 <= s < 12 && 0 <= t < 12 && s != t ==> !same_edge(
                #[trigger] line_edge(s),
                #[trigger] line_edge(t),
            ),
{
    assert forall|s: int| 0 <= s < 12 implies differing_coordinates(
        corner_position(#[trigger] line_edge(s).0),
        corner_position(line_edge(s).1),
    ) == 1 by {
        if s == 0 {} else if s == 1 {} else if s == 2 {} else if s == 3 {} else if s == 4 {}
        else if s == 5 {} else if s == 6 {} else if s == 7 {} else if s == 8 {}
        else if s == 9 {} else if s == 10 {} else {}
    }
    assert forall|s: int, t: int| 0 <= s < 12 && 0 <= t < 12 && s != t implies !same_edge(
        #[trigger] line_edge(s),
        #[trigger] line_edge(t),
    ) by {
        if s == 0 {} else if s == 1 {} else if s == 2 {} else if s == 3 {} else if s == 4 {}
        else if s == 5 {} else if s == 6 {} else if s == 7 {} else if s == 8 {}
        else if s == 9 {} else if s == 10 {} else {}
    }
}

} // verus!
