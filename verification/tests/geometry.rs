use wgpu_book::colored_cube::{create_vertices2, vertex2};
use wgpu_book::cube_lines;
use wgpu_book::lit_cube::{create_vertices, vertex};
use wgpu_book::surface;
use wgpu_book::wireframe::{cylinder_wireframe, grid_wireframe, RingNode};

#[test]
fn lit_cube_vertex_is_homogeneous() {
    let v = vertex([1, -2, 3], [0, 0, -1]);
    assert_eq!(v.position, [1, -2, 3, 1]);
    assert_eq!(v.normal, [0, 0, -1, 1]);
}

#[test]
fn lit_cube_vertices_pair_positions_with_normals() {
    let pos = vec![[-1, -1, 1], [1, -1, 1], [-1, 1, 1]];
    let normal = vec![[0, 0, 1], [0, 0, 1], [0, 1, 0]];
    let data = create_vertices(&pos, &normal);
    assert_eq!(data.len(), 3);
    assert_eq!(data[1].position, [1, -1, 1, 1]);
    assert_eq!(data[2].normal, [0, 1, 0, 1]);
}

#[test]
fn lit_cube_vertices_of_nothing() {
    let data = create_vertices(&[], &[]);
    assert!(data.is_empty());
}

#[test]
fn colored_cube_vertices_pair_positions_with_colors() {
    assert_eq!(vertex2([1, 1, 1], [1, 0, 0]).color, [1, 0, 0, 1]);
    let pos = vec![[1, 1, -1], [-1, 1, -1]];
    let col = vec![[0, 1, 0], [0, 0, 1], [1, 1, 1]];
    let data = create_vertices2(&pos, &col);
    assert_eq!(data.len(), 2);
    assert_eq!(data[0].position, [1, 1, -1, 1]);
    assert_eq!(data[1].color, [0, 0, 1, 1]);
}

#[test]
fn surface_vertices_with_floats() {
    assert_eq!(surface::homogeneous([0.5f32, -2.0, 3.25], 1.0), [0.5, -2.0, 3.25, 1.0]);
    let pos = [[0.0f32, 1.0, 2.0], [3.0, 4.0, 5.0]];
    let normal = [[0.0f32, 1.0, 0.0], [1.0, 0.0, 0.0]];
    let color = [[1.0f32, 0.0, 0.0], [0.0, 0.0, 1.0]];
    let data = surface::create_vertices(&pos, &normal, &color, 1.0f32);
    assert_eq!(data.len(), 2);
    assert_eq!(data[1].position, [3.0, 4.0, 5.0, 1.0]);
    assert_eq!(data[0].normal, [0.0, 1.0, 0.0, 1.0]);
    assert_eq!(data[1].color, [0.0, 0.0, 1.0, 1.0]);
}

#[test]
fn cube_wireframe_starts_on_the_top_face() {
    let data = cube_lines::create_vertices();
    assert_eq!(data.len(), 24);
    assert_eq!(data[0].position, [-1, 1, 1, 1]);
    assert_eq!(data[1].position, [-1, 1, -1, 1]);
    assert_eq!(data[7].position, [-1, 1, 1, 1]);
    assert_eq!(data[8].position, [-1, -1, 1, 1]);
    assert_eq!(data[23].position, [1, -1, 1, 1]);
    assert_eq!(cube_lines::vertex([1, -1, 1]).position, [1, -1, 1, 1]);
}

#[test]
fn cube_wireframe_draws_every_edge_once() {
    let data = cube_lines::create_vertices();
    let mut edges: Vec<([i8; 4], [i8; 4])> = Vec::new();
    for s in 0..12 {
        let a = data[2 * s].position;
        let b = data[2 * s + 1].position;
        let differing = (0..3).filter(|&c| a[c] != b[c]).count();
        assert_eq!(differing, 1);
        let e = if a < b { (a, b) } else { (b, a) };
        assert!(!edges.contains(&e));
        edges.push(e);
    }
    assert_eq!(edges.len(), 12);
}

#[test]
fn grid_wireframe_three_by_three() {
    let nodes = grid_wireframe(3, 3);
    assert_eq!(
        nodes,
        vec![
            (0, 0), (1, 0), (0, 0), (0, 1),
            (0, 1), (1, 1), (0, 1), (0, 2),
            (1, 0), (2, 0), (1, 0), (1, 1),
            (1, 1), (2, 1), (1, 1), (1, 2),
        ]
    );
}

#[test]
fn grid_wireframe_degenerate_grids_are_empty() {
    assert!(grid_wireframe(1, 5).is_empty());
    assert!(grid_wireframe(5, 1).is_empty());
    assert!(grid_wireframe(1, 1).is_empty());
}

#[test]
fn grid_wireframe_sphere_size_and_neighbours() {
    let (u, v) = (15, 20);
    let nodes = grid_wireframe(u, v);
    assert_eq!(nodes.len(), 4 * (u - 1) * (v - 1));
    for s in 0..nodes.len() / 2 {
        let a = nodes[2 * s];
        let b = nodes[2 * s + 1];
        assert!(a.0 < u && a.1 < v && b.0 < u && b.1 < v);
        assert!((b.0 == a.0 + 1 && b.1 == a.1) || (b.0 == a.0 && b.1 == a.1 + 1));
    }
}

fn node(step: usize, outer: bool, top: bool) -> RingNode {
    RingNode { step, outer, top }
}

#[test]
fn cylinder_wireframe_one_segment() {
    let nodes = cylinder_wireframe(2);
    let p0 = node(0, true, true);
    let p1 = node(0, true, false);
    let p2 = node(0, false, false);
    let p3 = node(0, false, true);
    let p4 = node(1, true, true);
    let p5 = node(1, true, false);
    let p6 = node(1, false, false);
    let p7 = node(1, false, true);
    assert_eq!(
        nodes,
        vec![p0, p3, p3, p7, p4, p0, p1, p2, p2, p6, p5, p1, p0, p1, p3, p2]
    );
    assert!(cylinder_wireframe(1).is_empty());
}

#[test]
fn cylinder_wireframe_lines_change_one_attribute() {
    let n = 20;
    let nodes = cylinder_wireframe(n);
    assert_eq!(nodes.len(), 16 * (n - 1));
    for s in 0..nodes.len() / 2 {
        let a = nodes[2 * s];
        let b = nodes[2 * s + 1];
        let step_changes = a.step != b.step;
        assert!(a.step.abs_diff(b.step) <= 1 && a.step < n && b.step < n);
        let changes = [step_changes, a.outer != b.outer, a.top != b.top]
            .iter()
            .filter(|&&c| c)
            .count();
        assert_eq!(changes, 1);
    }
    assert_eq!(nodes[16 * 7 + 3], node(8, false, true));
}

#[test]
fn grid_wireframe_draws_no_line_twice() {
    let nodes = grid_wireframe(40, 13);
    let mut lines: Vec<((usize, usize), (usize, usize))> = Vec::new();
    for s in 0..nodes.len() / 2 {
        lines.push((nodes[2 * s], nodes[2 * s + 1]));
    }
    let count = lines.len();
    lines.sort();
    lines.dedup();
    assert_eq!(lines.len(), count);
}
