use terrain_generation::lattice::{
    corner_offsets, gradient4, gradient_index, permute, simplex_order, wrap_lattice,
    PERMUTATION,
};

#[test]
fn permutation_is_a_shuffle() {
    let mut values: Vec<u8> = PERMUTATION.to_vec();
    values.sort();
    assert_eq!(values, (0..=255u8).collect::<Vec<u8>>());
    assert_eq!(permute(0), 151);
    assert_eq!(permute(256), 151);
    assert_eq!(permute(511), 180);
}

#[test]
fn gradient_index_chains_the_shuffle() {
    assert_eq!(gradient_index(0, 0, 0, 0, 0, 0, 0, 0), 0);
    assert_eq!(gradient_index(10, 1, 20, 0, 30, 1, 40, 0), 43);
    let expected = permute(11 + permute(20 + permute(31 + permute(40))));
    assert_eq!(gradient_index(10, 1, 20, 0, 30, 1, 40, 0), expected);
    assert!(gradient_index(255, 1, 255, 1, 255, 1, 255, 1) < 256);
}

#[test]
fn gradients_are_tesseract_edges() {
    assert_eq!(gradient4(0), [0, 1, 1, 1]);
    assert_eq!(gradient4(1), [0, 1, 1, -1]);
    assert_eq!(gradient4(13), [-1, 0, 1, -1]);
    assert_eq!(gradient4(22), [-1, -1, 0, 1]);
    assert_eq!(gradient4(25), [1, 1, -1, 0]);
    assert_eq!(gradient4(33), gradient4(1));
    for h in 0..32 {
        let g = gradient4(h);
        assert_eq!(g.iter().filter(|&&c| c == 0).count(), 1);
        assert_eq!(g[h / 8], 0);
    }
}

#[test]
fn simplex_order_ranks_axes() {
    assert_eq!(simplex_order(false, false, false, false, false, false), [0, 1, 2, 3]);
    assert_eq!(simplex_order(true, true, true, true, true, true), [3, 2, 1, 0]);
    // z > x > w > y
    assert_eq!(simplex_order(true, false, false, true, false, true), [2, 0, 3, 1]);
    // x > y and y > z without x > z: no ordering gives this
    assert_eq!(simplex_order(true, false, true, false, false, false), [0, 0, 0, 0]);
}

#[test]
fn corners_walk_one_axis_at_a_time() {
    let ranks = [2, 0, 3, 1];
    assert_eq!(corner_offsets(ranks, 0), [0, 0, 0, 0]);
    assert_eq!(corner_offsets(ranks, 1), [0, 0, 1, 0]);
    assert_eq!(corner_offsets(ranks, 2), [1, 0, 1, 0]);
    assert_eq!(corner_offsets(ranks, 3), [1, 0, 1, 1]);
    assert_eq!(corner_offsets(ranks, 4), [1, 1, 1, 1]);
}

#[test]
fn lattice_coordinates_wrap_at_256() {
    assert_eq!(wrap_lattice(0), 0);
    assert_eq!(wrap_lattice(255), 255);
    assert_eq!(wrap_lattice(256), 0);
    assert_eq!(wrap_lattice(300), 44);
    assert_eq!(wrap_lattice(-1), 255);
    assert_eq!(wrap_lattice(-256), 0);
    assert_eq!(wrap_lattice(-257), 255);
    assert_eq!(wrap_lattice(i32::MIN), 0);
    assert_eq!(wrap_lattice(i32::MAX), 255);
}
