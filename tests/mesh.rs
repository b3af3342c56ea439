use revolve_scene::mesh::{
    index_count, index_format, quad_indices, vertex_count, vertex_grid, GridPoint, IndexFormat,
    MeshLayout,
};

#[test]
fn counts_follow_grid_resolution() {
    for (u, v) in [(1u32, 1u32), (2, 3), (64, 32), (7, 1)] {
        assert_eq!(vertex_count(u, v), (u + 1) * (v + 1));
        assert_eq!(index_count(u, v), u * v * 4);
        let layout = MeshLayout::new(u, v);
        assert_eq!(layout.vertex_count, (u + 1) * (v + 1));
        assert_eq!(layout.index_count, u * v * 4);
        assert_eq!(quad_indices(u, v).len() as u32, u * v * 4);
        assert_eq!(vertex_grid(u, v).len() as u32, (u + 1) * (v + 1));
    }
}

#[test]
fn large_grid_selects_wide_indices() {
    let layout = MeshLayout::new(300, 300);
    assert_eq!(layout.vertex_count, 90601);
    assert_eq!(layout.index_format, IndexFormat::Wide);
}

#[test]
fn small_grid_selects_narrow_indices() {
    let layout = MeshLayout::new(10, 10);
    assert_eq!(layout.vertex_count, 121);
    assert_eq!(layout.index_format, IndexFormat::Narrow);
}

#[test]
fn index_width_threshold() {
    assert_eq!(index_format(65534), IndexFormat::Narrow);
    assert_eq!(index_format(65535), IndexFormat::Wide);
    assert_eq!(index_format(0), IndexFormat::Narrow);
}

#[test]
fn single_cell_quad() {
    assert_eq!(quad_indices(1, 1), vec![0, 1, 3, 2]);
}

#[test]
fn two_by_two_quads() {
    assert_eq!(
        quad_indices(2, 2),
        vec![0, 1, 4, 3, 1, 2, 5, 4, 3, 4, 7, 6, 4, 5, 8, 7]
    );
}

#[test]
fn indices_address_vertices() {
    let (u, v) = (64u32, 32u32);
    let n = vertex_count(u, v);
    let idx = quad_indices(u, v);
    assert!(idx.iter().all(|&k| k < n));
    assert_eq!(*idx.iter().max().unwrap(), n - 1);
}

#[test]
fn grid_points_row_by_row() {
    let g = vertex_grid(2, 1);
    assert_eq!(
        g,
        vec![
            GridPoint { i: 0, j: 0 },
            GridPoint { i: 1, j: 0 },
            GridPoint { i: 2, j: 0 },
            GridPoint { i: 0, j: 1 },
            GridPoint { i: 1, j: 1 },
            GridPoint { i: 2, j: 1 },
        ]
    );
}
