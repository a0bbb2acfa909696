//! Wireframe topology of the parametric line meshes: which grid nodes each
//! line-list vertex sits on, in drawing order.
//!
//! The renderer turns a node into a position (a point on a sphere, a torus or
//! a cylinder); the order and pairing of the nodes is fixed here.
use vstd::arithmetic::div_mod::lemma_fundamental_div_mod_converse;
use vstd::prelude::*;

verus! {

/// The node on which line-list vertex `k` of a grid wireframe sits, for a grid
/// with `v` nodes along its second parameter.
///
/// Cell `c = k / 4` is cell `(c / (v - 1), c % (v - 1))`; from its corner
/// `(i, j)` it draws one line to `(i + 1, j)` and one to `(i, j + 1)`.
pub open spec fn grid_node(v: int, k: int) -> (usize, usize) {
    let c: int = k / 4;
    let r: int = k % 4;
    let i: int = c / (v - 1);
    let j: int = c % (v - 1);
    if r == 1 {
        ((i + 1) as usize, j as usize)
    } else if r == 3 {
        (i as usize, (j + 1) as usize)
    } else {
        (i as usize, j as usize)
    }
}

/// The number of line-list vertices of a `u` by `v` grid wireframe.
pub open spec fn grid_line_count(u: int, v: int) -> int {
    4 * (u - 1) * (v - 1)
}

/// The line-list nodes of a `u` by `v` grid wireframe.
pub open spec fn grid_lines(u: int, v: int) -> Seq<(usize, usize)> {
    Seq::new(grid_line_count(u, v) as nat, |k: int| grid_node(v, k))
}

/// Two grid nodes are neighbours along one of the two parameters.
pub open spec fn grid_neighbours(a: (usize, usize), b: (usize, usize)) -> bool {
    (b.0 == a.0 + 1 && b.1 == a.1) || (b.0 == a.0 && b.1 == a.1 + 1)
}

proof fn lemma_grid_node_at(v: int, i: int, j: int, r: int)
    requires
        v >= 2,
        0 <= i,
        0 <= j < v - 1,
        0 <= r < 4,
        4 * (i * (v - 1) + j) + r < 0x1_0000_0000_0000_0000,
        i + 1 < 0x1_0000_0000_0000_0000,
        j + 1 < v,
        v <= 0x1_0000_0000_0000_0000,
    ensures
        grid_node(v, 4 * (i * (v - 1) + j) + r) == (if r == 1 {
            ((i + 1) as usize, j as usize)
        } else if r == 3 {
            (i as usize, (j + 1) as usize)
        } else {
            (i as usize, j as usize)
        }),
{
    let c: int = i * (v - 1) + j;
    lemma_fundamental_div_mod_converse(4 * c + r, 4, c, r);
    lemma_fundamental_div_mod_converse(c, v - 1, i, j);
}

/// The nodes of the line list that draws a `u` by `v` parameter grid: for each
/// cell, in row-major order, the line from its corner to the next node along
/// the first parameter, then the line to the next node along the second.
///
/// This is the order in which the sphere and torus wireframes are drawn.
pub fn grid_wireframe(u: usize, v: usize) -> (nodes: Vec<(usize, usize)>)
    requires
        1 <= u,
        1 <= v,
        4 * (u - 1) <= usize::MAX,
        grid_line_count(u as int, v as int) <= usize::MAX,
    ensures
        nodes@ == grid_lines(u as int, v as int),
{
    let capacity: usize = 4 * (u - 1) * (v - 1);
    let mut pts: Vec<(usize, usize)> = Vec::with_capacity(capacity);
    let ghost vi: int = v as int;
    assert(0 * (v - 1) == 0) by (nonlinear_arith);
    for i in 0..u - 1
        invariant
            1 <= u,
            1 <= v,
            vi == v,
            grid_line_count(u as int, v as int) <= usize::MAX,
            pts.len() == 4 * (i * (v - 1)),
            forall|k: int| 0 <= k < pts.len() ==> #[trigger] pts@[k] == grid_node(vi, k),
    {
        assert(4 * ((i + 1) * (v - 1)) <= grid_line_count(u as int, v as int)) by (nonlinear_arith)
            requires
                i + 1 <= u - 1,
                v >= 1,
        ;
        for j in 0..v - 1
            invariant
                1 <= u,
                1 <= v,
                vi == v,
                i < u - 1,
                4 * ((i + 1) * (v - 1)) <= usize::MAX,
                pts.len() == 4 * (i * (v - 1) + j),
                forall|k: int| 0 <= k < pts.len() ==> #[trigger] pts@[k] == grid_node(vi, k),
        {
            assert(4 * (i * (v - 1) + j) + 4 <= 4 * ((i + 1) * (v - 1))) by (nonlinear_arith)
                requires
                    j < v - 1,
            ;
            proof {
                lemma_grid_node_at(vi, i as int, j as int, 0);
                lemma_grid_node_at(vi, i as int, j as int, 1);
                lemma_grid_node_at(vi, i as int, j as int, 2);
                lemma_grid_node_at(vi, i as int, j as int, 3);
            }
            pts.push((i, j));
            pts.push((i + 1, j));
            pts.push((i, j));
            pts.push((i, j + 1));
        }
        assert(4 * (i * (v - 1) + (v - 1)) == 4 * ((i + 1) * (v - 1))) by (nonlinear_arith);
    }
    assert(4 * ((u - 1) * (v - 1)) == grid_line_count(u as int, v as int)) by (nonlinear_arith);
    assert(pts@ =~= grid_lines(u as int, v as int));
    pts
}

/// Line `s` of a `u` by `v` grid wireframe belongs to cell `c = s / 2`, at
/// grid node `(i, j)`, and runs along the first parameter when `s` is even and
/// along the second when it is odd.
proof fn lemma_grid_segment(u: int, v: int, s: int)
    requires
        1 <= u,
        1 <= v,
        grid_line_count(u, v) <= usize::MAX,
        0 <= s < 2 * ((u - 1) * (v - 1)),
    ensures
        v >= 2,
        0 <= (s / 2) / (v - 1) < u - 1,
        0 <= (s / 2) % (v - 1) < v - 1,
        s / 2 == ((s / 2) / (v - 1)) * (v - 1) + (s / 2) % (v - 1),
        u <= usize::MAX,
        v <= usize::MAX,
        grid_lines(u, v)[2 * s] == (((s / 2) / (v - 1)) as usize, ((s / 2) % (v - 1)) as usize),
        grid_lines(u, v)[2 * s + 1] == (if s % 2 == 0 {
            (((s / 2) / (v - 1) + 1) as usize, ((s / 2) % (v - 1)) as usize)
        } else {
            (((s / 2) / (v - 1)) as usize, ((s / 2) % (v - 1) + 1) as usize)
        }),
{
    assert(grid_line_count(u, v) == 4 * ((u - 1) * (v - 1))) by (nonlinear_arith);
    assert(v >= 2) by (nonlinear_arith)
        requires
            0 <= s < 2 * ((u - 1) * (v - 1)),
            1 <= u,
            1 <= v,
    ;
    assert(u <= usize::MAX && v <= usize::MAX) by (nonlinear_arith)
        requires
            4 * ((u - 1) * (v - 1)) <= usize::MAX,
            v >= 2,
            u >= 2,
    ;
    let c: int = s / 2;
    let b: int = s % 2;
    assert(2 * s == 4 * c + 2 * b);
    lemma_fundamental_div_mod_converse(2 * s, 4, c, 2 * b);
    lemma_fundamental_div_mod_converse(2 * s + 1, 4, c, 2 * b + 1);
    let i: int = c / (v - 1);
    let j: int = c % (v - 1);
    vstd::arithmetic::div_mod::lemma_fundamental_div_mod(c, v - 1);
    assert(c == i * (v - 1) + j) by (nonlinear_arith)
        requires
            c == (v - 1) * (c / (v - 1)) + c % (v - 1),
            i == c / (v - 1),
            j == c % (v - 1),
    ;
    assert(0 <= i) by (nonlinear_arith)
        requires
            c >= 0,
            v - 1 >= 1,
            i == c / (v - 1),
    ;
    assert(i < u - 1) by (nonlinear_arith)
        requires
            c == i * (v - 1) + j,
            0 <= j,
            0 <= c,
            c < (u - 1) * (v - 1),
            v - 1 >= 1,
    ;
}

/// Law: cell `(i, j)` of a `u` by `v` grid (taken row by row) is drawn by
/// line-list vertices `4c` to `4c + 3`, `c = i * (v - 1) + j`: the line from
/// node `(i, j)` to `(i + 1, j)`, then the line from `(i, j)` to `(i, j + 1)`.
pub proof fn lemma_grid_cell(u: int, v: int, i: int, j: int)
    requires
        1 <= u,
        1 <= v,
        grid_line_count(u, v) <= usize::MAX,
        0 <= i < u - 1,
        0 <= j < v - 1,
    ensures
        4 * (i * (v - 1) + j) + 3 < grid_lines(u, v).len(),
        grid_lines(u, v)[4 * (i * (v - 1) + j)] == (i as usize, j as usize),
        grid_lines(u, v)[4 * (i * (v - 1) + j) + 1] == ((i + 1) as usize, j as usize),
        grid_lines(u, v)[4 * (i * (v - 1) + j) + 2] == (i as usize, j as usize),
        grid_lines(u, v)[4 * (i * (v - 1) + j) + 3] == (i as usize, (j + 1) as usize),
{
    assert(grid_line_count(u, v) == 4 * ((u - 1) * (v - 1))) by (nonlinear_arith);
    assert(4 * (i * (v - 1) + j) + 4 <= 4 * ((u - 1) * (v - 1))) by (nonlinear_arith)
        requires
            0 <= i < u - 1,
            0 <= j < v - 1,
    ;
    assert(u <= usize::MAX && v <= usize::MAX) by (nonlinear_arith)
        requires
            4 * ((u - 1) * (v - 1)) <= usize::MAX,
            v >= 2,
            u >= 2,
    ;
    lemma_grid_node_at(v, i, j, 0);
    lemma_grid_node_at(v, i, j, 1);
    lemma_grid_node_at(v, i, j, 2);
    lemma_grid_node_at(v, i, j, 3);
}

/// Law: every line of a `u` by `v` grid wireframe joins two neighbouring nodes
/// of the grid, and both nodes lie inside the grid.
pub proof fn lemma_grid_lines_join_neighbours(u: int, v: int, s: int)
    requires
        1 <= u,
        1 <= v,
        grid_line_count(u, v) <= usize::MAX,
        0 <= s < 2 * ((u - 1) * (v - 1)),
    ensures
        grid_lines(u, v)[2 * s].0 < u,
        grid_lines(u, v)[2 * s].1 < v,
        grid_lines(u, v)[2 * s + 1].0 < u,
        grid_lines(u, v)[2 * s + 1].1 < v,
        grid_neighbours(grid_lines(u, v)[2 * s], grid_lines(u, v)[2 * s + 1]),
{
    lemma_grid_segment(u, v, s);
}

/// Law: a grid wireframe never draws the same line twice.
pub proof fn lemma_grid_lines_distinct(u: int, v: int, s: int, t: int)
    requires
        1 <= u,
        1 <= v,
        grid_line_count(u, v) <= usize::MAX,
        0 <= s < 2 * ((u - 1) * (v - 1)),
        0 <= t < 2 * ((u - 1) * (v - 1)),
        s != t,
    ensures
        (grid_lines(u, v)[2 * s], grid_lines(u, v)[2 * s + 1]) != (
            grid_lines(u, v)[2 * t],
            grid_lines(u, v)[2 * t + 1],
        ),
{
    lemma_grid_segment(u, v, s);
    lemma_grid_segment(u, v, t);
}

/// A node of the cylinder wireframe: the angular step around the axis, the
/// outer or inner radius, and the top or bottom rim.
#[derive(Clone, Copy, Debug, PartialEq, Eq)]
pub struct RingNode {
    pub step: usize,
    pub outer: bool,
    pub top: bool,
}

/// The corner (0 to 7) that line-list vertex `r` (0 to 15) of one cylinder
/// segment sits on. Corners 0 to 3 lie at the segment's first angle and
/// corners 4 to 7 at the next; corner `c % 4` is the outer top (0), outer
/// bottom (1), inner bottom (2) or inner top (3) node.
pub open spec fn cylinder_corner(r: int) -> int {
    if r == 0 { 0 }
    else if r == 1 { 3 }
    else if r == 2 { 3 }
    else if r == 3 { 7 }
    else if r == 4 { 4 }
    else if r == 5 { 0 }
    else if r == 6 { 1 }
    else if r == 7 { 2 }
    else if r == 8 { 2 }
    else if r == 9 { 6 }
    else if r == 10 { 5 }
    else if r == 11 { 1 }
    else if r == 12 { 0 }
    else if r == 13 { 1 }
    else if r == 14 { 3 }
    else { 2 }
}

/// The node of corner `c` of the segment that starts at angular step `step`.
pub open spec fn corner_node(step: int, c: int) -> RingNode {
    RingNode {
        step: (step + c / 4) as usize,
        outer: c % 4 == 0 || c % 4 == 1,
        top: c % 4 == 0 || c % 4 == 3,
    }
}

/// The node on which line-list vertex `k` of the cylinder wireframe sits.
pub open spec fn cylinder_node(k: int) -> RingNode {
    corner_node(k / 16, cylinder_corner(k % 16))
}

/// The line-list nodes of the wireframe of a cylinder tube with `n` angular
/// steps: sixteen per segment (three lines on the top rim, three on the
/// bottom rim, two along the axis).
pub open spec fn cylinder_lines(n: int) -> Seq<RingNode> {
    Seq::new((16 * (n - 1)) as nat, |k: int| cylinder_node(k))
}

/// Two cylinder nodes differ in exactly one of: the angular step (by one), the
/// radius, the rim.
pub open spec fn ring_neighbours(a: RingNode, b: RingNode) -> bool {
    ||| (b.step == a.step + 1 || a.step == b.step + 1) && a.outer == b.outer && a.top == b.top
    ||| a.step == b.step && a.outer != b.outer && a.top == b.top
    ||| a.step == b.step && a.outer == b.outer && a.top != b.top
}

/// The sixteen line-list nodes of the cylinder segment starting at step `i`.
spec fn cylinder_segment(i: int) -> Seq<RingNode> {
    Seq::new(16, |r: int| corner_node(i, cylinder_corner(r)))
}

proof fn lemma_cylinder_lines_extend(m: int)
    requires
        1 <= m,
    ensures
        cylinder_lines(m + 1) =~= cylinder_lines(m) + cylinder_segment(m - 1),
{
    assert forall|k: int| 16 * (m - 1) <= k < 16 * m implies cylinder_node(k)
        == cylinder_segment(m - 1)[k - 16 * (m - 1)] by {
        lemma_fundamental_div_mod_converse(k, 16, m - 1, k - 16 * (m - 1));
    }
}

/// The sixteen nodes of the cylinder segment that starts at angular step `i`.
fn cylinder_segment_nodes(i: usize) -> (seg: Vec<RingNode>)
    requires
        i < usize::MAX,
    ensures
        seg@ =~= cylinder_segment(i as int),
{
    let p0 = RingNode { step: i, outer: true, top: true };
    let p1 = RingNode { step: i, outer: true, top: false };
    let p2 = RingNode { step: i, outer: false, top: false };
    let p3 = RingNode { step: i, outer: false, top: true };
    let p4 = RingNode { step: i + 1, outer: true, top: true };
    let p5 = RingNode { step: i + 1, outer: true, top: false };
    let p6 = RingNode { step: i + 1, outer: false, top: false };
    let p7 = RingNode { step: i + 1, outer: false, top: true };
    let mut pts: Vec<RingNode> = Vec::with_capacity(16);
    // top face 3 lines
    pts.push(p0);
    pts.push(p3);
    pts.push(p3);
    pts.push(p7);
    pts.push(p4);
    pts.push(p0);
    // bottom face 3 lines
    pts.push(p1);
    pts.push(p2);
    pts.push(p2);
    pts.push(p6);
    pts.push(p5);
    pts.push(p1);
    // side 2 lines
    pts.push(p0);
    pts.push(p1);
    pts.push(p3);
    pts.push(p2);
    pts
}

/// The nodes of the line list that draws a cylinder tube with `n` angular
/// steps, segment by segment: per segment the top rim lines outer-to-inner,
/// inner along the angle, and back along the outer rim; the same three on the
/// bottom rim; and two lines along the axis.
pub fn cylinder_wireframe(n: usize) -> (nodes: Vec<RingNode>)
    requires
        1 <= n,
        16 * (n - 1) <= usize::MAX,
    ensures
        nodes@ == cylinder_lines(n as int),
        nodes@.len() == 16 * (n - 1),
        forall|k: int|
            0 <= k < nodes@.len() ==> (#[trigger] nodes@[k]).step == k / 16 || nodes@[k].step == k
                / 16 + 1,
        forall|i: int|
            0 <= i < n - 1 ==> (#[trigger] nodes@[16 * i]).step == i && nodes@[16 * i + 3].step == i
                + 1,
        forall|t: int| 0 <= t < n && n >= 2 ==> #[trigger] step_drawn(nodes@, t),
{
    let mut pts: Vec<RingNode> = Vec::with_capacity(16 * (n - 1));
    assert(pts@ =~= cylinder_lines(1));
    for i in 0..n - 1
        invariant
            1 <= n,
            16 * (n - 1) <= usize::MAX,
            pts@ == cylinder_lines(i + 1),
    {
        let mut seg = cylinder_segment_nodes(i);
        proof {
            lemma_cylinder_lines_extend(i + 1);
        }
        pts.append(&mut seg);
    }
    proof {
        lemma_cylinder_steps(n as int);
    }
    pts
}

/// Some node of `nodes` lies at angular step `t`.
pub open spec fn step_drawn(nodes: Seq<RingNode>, t: int) -> bool {
    exists|k: int| 0 <= k < nodes.len() && (#[trigger] nodes[k]).step == t
}

/// Law: line-list vertex `k` of the cylinder wireframe lies at angular step
/// `k / 16` or the next one: segment `i` starts at step `i` and reaches step
/// `i + 1`, so every step from 0 to `n - 1` is drawn.
pub proof fn lemma_cylinder_steps(n: int)
    requires
        1 <= n,
        16 * (n - 1) <= usize::MAX,
    ensures
        forall|k: int|
            0 <= k < 16 * (n - 1) ==> (#[trigger] cylinder_lines(n)[k]).step == k / 16
                || cylinder_lines(n)[k].step == k / 16 + 1,
        forall|i: int|
            0 <= i < n - 1 ==> (#[trigger] cylinder_lines(n)[16 * i]).step == i && cylinder_lines(
                n,
            )[16 * i + 3].step == i + 1,
        forall|t: int| 0 <= t < n && n >= 2 ==> #[trigger] step_drawn(cylinder_lines(n), t),
{
    assert forall|k: int| 0 <= k < 16 * (n - 1) implies (#[trigger] cylinder_lines(n)[k]).step
        == k / 16 || cylinder_lines(n)[k].step == k / 16 + 1 by {
        let i: int = k / 16;
        let r: int = k % 16;
        vstd::arithmetic::div_mod::lemma_fundamental_div_mod(k, 16);
        assert(0 <= i < n - 1);
        assert(0 <= cylinder_corner(r) < 8);
        assert(cylinder_corner(r) / 4 == 0 || cylinder_corner(r) / 4 == 1);
    }
    assert forall|i: int| 0 <= i < n - 1 implies (#[trigger] cylinder_lines(n)[16 * i]).step == i
        && cylinder_lines(n)[16 * i + 3].step == i + 1 by {
        lemma_fundamental_div_mod_converse(16 * i, 16, i, 0);
        lemma_fundamental_div_mod_converse(16 * i + 3, 16, i, 3);
    }
    assert forall|t: int| 0 <= t < n && n >= 2 implies #[trigger] step_drawn(cylinder_lines(n), t) by {
        if t < n - 1 {
            lemma_fundamental_div_mod_converse(16 * t, 16, t, 0);
            assert(cylinder_lines(n)[16 * t].step == t);
        } else {
            let k: int = 16 * (t - 1) + 3;
            lemma_fundamental_div_mod_converse(k, 16, t - 1, 3);
            assert(cylinder_lines(n)[k].step == t);
        }
    }
}

/// Law: every line of the cylinder wireframe joins two nodes that differ in
/// exactly one of the angular step (by one), the radius and the rim.
pub proof fn lemma_cylinder_lines_join_neighbours(n: int, s: int)
    requires
        1 <= n,
        16 * (n - 1) <= usize::MAX,
        0 <= s < 8 * (n - 1),
    ensures
        ring_neighbours(cylinder_lines(n)[2 * s], cylinder_lines(n)[2 * s + 1]),
        cylinder_lines(n)[2 * s].step < n,
        cylinder_lines(n)[2 * s + 1].step < n,
{
    let i: int = s / 8;
    let b: int = s % 8;
    lemma_fundamental_div_mod_converse(2 * s, 16, i, 2 * b);
    lemma_fundamental_div_mod_converse(2 * s + 1, 16, i, 2 * b + 1);
    assert(i < n - 1);
}

} // verus!
