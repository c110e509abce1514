use terrain_generation::direction::Direction;
use terrain_generation::grid::{ChunkGrid, GridError};

fn grid(resolution: u32) -> ChunkGrid {
    ChunkGrid::new(resolution).expect("valid resolution")
}

#[test]
fn forward_face_winding() {
    let g = grid(3);
    let indices = g.triangle_indices();
    assert_eq!(indices.len(), 6 * (3 - 1) * (3 - 1));
    assert_eq!(
        indices,
        vec![3, 4, 0, 4, 1, 0, 4, 5, 1, 5, 2, 1, 6, 7, 3, 7, 4, 3, 7, 8, 4, 8, 5, 4]
    );
}

#[test]
fn index_buffer_covers_grid() {
    for resolution in [2u32, 3, 7, 64, 256] {
        let g = grid(resolution);
        let r = resolution as usize;
        let indices = g.triangle_indices();
        assert_eq!(indices.len(), 6 * (r - 1) * (r - 1));
        assert_eq!(g.index_count(), indices.len());
        assert_eq!(g.vertex_count(), r * r);
        assert!(indices.iter().all(|&i| (i as usize) < r * r));
    }
}

#[test]
fn smallest_grid_has_one_cell() {
    let g = grid(2);
    assert_eq!(g.triangle_indices(), vec![2, 3, 0, 3, 1, 0]);
}

#[test]
fn largest_grid_reaches_last_vertex() {
    let g = grid(256);
    let indices = g.triangle_indices();
    assert_eq!(indices.len(), 6 * 255 * 255);
    assert_eq!(*indices.iter().max().unwrap(), 65535);
    assert_eq!(&indices[indices.len() - 6..], &[65534, 65535, 65278, 65535, 65279, 65278]);
}

#[test]
fn resolution_limits() {
    assert_eq!(ChunkGrid::new(0).unwrap_err(), GridError::ResolutionTooSmall);
    assert_eq!(ChunkGrid::new(1).unwrap_err(), GridError::ResolutionTooSmall);
    assert_eq!(ChunkGrid::new(257).unwrap_err(), GridError::ResolutionTooLarge);
    assert_eq!(ChunkGrid::new(u32::MAX).unwrap_err(), GridError::ResolutionTooLarge);
    assert_eq!(grid(2).resolution(), 2);
    assert_eq!(grid(256).resolution(), 256);
}

#[test]
fn vertex_numbering_is_row_major_and_complete() {
    let g = grid(5);
    let mut seen = vec![false; 25];
    for x in 0..5 {
        for y in 0..5 {
            let v = g.vertex_index(x, y);
            assert_eq!(v, x * 5 + y);
            assert!(!seen[v]);
            seen[v] = true;
        }
    }
    assert!(seen.iter().all(|&s| s));
}

#[test]
fn cell_indices_match_index_buffer() {
    let g = grid(4);
    let indices = g.triangle_indices();
    let mut k = 0;
    for x in 1..4 {
        for y in 1..4 {
            let cell = g.cell_indices(x, y);
            for j in 0..6 {
                assert_eq!(indices[k + j] as usize, cell[j]);
            }
            k += 6;
        }
    }
    assert_eq!(g.cell_indices(2, 3), [10, 11, 6, 11, 7, 6]);
}

#[test]
fn cell_triangles_share_diagonal_in_opposite_directions() {
    let g = grid(6);
    for x in 1..6 {
        for y in 1..6 {
            let c = g.cell_indices(x, y);
            assert_eq!(c[1], c[3]);
            assert_eq!(c[2], c[5]);
            assert!(c[0] != c[1] && c[1] != c[2] && c[0] != c[2]);
        }
    }
}

#[test]
fn face_plane_layout() {
    let g = grid(3);
    assert_eq!(g.plane_offset(Direction::Forward, 0, 2), [-2, 2, 0]);
    assert_eq!(g.plane_offset(Direction::Backward, 0, 2), [2, -2, 0]);
    assert_eq!(g.plane_offset(Direction::Left, 0, 2), [0, -2, 2]);
    assert_eq!(g.plane_offset(Direction::Right, 0, 2), [0, 2, -2]);
    assert_eq!(g.plane_offset(Direction::Up, 0, 2), [-2, 0, 2]);
    assert_eq!(g.plane_offset(Direction::Down, 0, 2), [2, 0, -2]);
    assert_eq!(g.plane_offset(Direction::Forward, 1, 1), [0, 0, 0]);
    let even = grid(4);
    assert_eq!(even.plane_offset(Direction::Forward, 0, 3), [-3, 3, 0]);
    let big = grid(256);
    assert_eq!(big.plane_offset(Direction::Up, 255, 0), [255, 0, -255]);
}

#[test]
fn buffer_sizes_for_a_chunk() {
    let g = grid(3);
    assert!(g.fits_buffers(27, 27, 24));
    assert!(g.fits_buffers(100, 100, 100));
    assert!(!g.fits_buffers(26, 27, 24));
    assert!(!g.fits_buffers(27, 26, 24));
    assert!(!g.fits_buffers(27, 27, 23));
}
