use vstd::prelude::*;
use vstd::arithmetic::div_mod::lemma_fundamental_div_mod_converse;

verus! {

/// A shuffle of `0..256` that hashes lattice coordinates.
pub const PERMUTATION: [u8; 256] = [
    151, 160, 137, 91, 90, 15, 131, 13, 201, 95, 96, 53, 194, 233, 7, 225,
    140, 36, 103, 30, 69, 142, 8, 99, 37, 240, 21, 10, 23, 190, 6, 148,
    247, 120, 234, 75, 0, 26, 197, 62, 94, 252, 219, 203, 117, 35, 11, 32,
    57, 177, 33, 88, 237, 149, 56, 87, 174, 20, 125, 136, 171, 168, 68, 175,
    74, 165, 71, 134, 139, 48, 27, 166, 77, 146, 158, 231, 83, 111, 229, 122,
    60, 211, 133, 230, 220, 105, 92, 41, 55, 46, 245, 40, 244, 102, 143, 54,
    65, 25, 63, 161, 1, 216, 80, 73, 209, 76, 132, 187, 208, 89, 18, 169,
    200, 196, 135, 130, 116, 188, 159, 86, 164, 100, 109, 198, 173, 186, 3, 64,
    52, 217, 226, 250, 124, 123, 5, 202, 38, 147, 118, 126, 255, 82, 85, 212,
    207, 206, 59, 227, 47, 16, 58, 17, 182, 189, 28, 42, 223, 183, 170, 213,
    119, 248, 152, 2, 44, 154, 163, 70, 221, 153, 101, 155, 167, 43, 172, 9,
    129, 22, 39, 253, 19, 98, 108, 110, 79, 113, 224, 232, 178, 185, 112, 104,
    218, 246, 97, 228, 251, 34, 242, 193, 238, 210, 144, 12, 191, 179, 162, 241,
    81, 51, 145, 235, 249, 14, 239, 107, 49, 192, 214, 31, 181, 199, 106, 157,
    184, 84, 204, 176, 115, 121, 50, 45, 127, 4, 150, 254, 138, 236, 205, 93,
    222, 114, 67, 29, 24, 72, 243, 141, 128, 195, 78, 66, 215, 61, 156, 180,
];

/// The shuffle applied to `i`, read modulo 256.
pub open spec fn perm(i: int) -> int {
    PERMUTATION[i % 256] as int
}

/// Position of each value in [`PERMUTATION`].
spec fn permutation_inverse() -> Seq<int> {
    seq![
        36, 100, 163, 126, 233, 134, 30, 14, 22, 175, 27, 46, 203, 7, 213, 5,
        149, 151, 110, 180, 57, 26, 177, 28, 244, 97, 37, 70, 154, 243, 19, 219,
        47, 50, 197, 45, 17, 24, 136, 178, 91, 87, 155, 173, 164, 231, 89, 148,
        69, 216, 230, 209, 128, 11, 95, 88, 54, 48, 150, 146, 80, 253, 39, 98,
        127, 96, 251, 242, 62, 20, 167, 66, 245, 103, 64, 35, 105, 72, 250, 184,
        102, 208, 141, 76, 225, 142, 119, 55, 51, 109, 4, 3, 86, 239, 40, 9,
        10, 194, 181, 23, 121, 170, 93, 18, 191, 85, 222, 215, 182, 122, 183, 77,
        190, 185, 241, 228, 116, 44, 138, 160, 33, 229, 79, 133, 132, 58, 139, 232,
        248, 176, 115, 6, 106, 82, 67, 114, 59, 2, 236, 68, 16, 247, 21, 94,
        202, 210, 73, 137, 31, 53, 234, 0, 162, 169, 165, 171, 254, 223, 74, 118,
        1, 99, 206, 166, 120, 65, 71, 172, 61, 111, 158, 60, 174, 124, 56, 63,
        227, 49, 188, 205, 255, 220, 152, 157, 224, 189, 125, 107, 117, 153, 29, 204,
        217, 199, 12, 249, 113, 38, 123, 221, 112, 8, 135, 43, 226, 238, 145, 144,
        108, 104, 201, 81, 143, 159, 218, 252, 101, 129, 192, 42, 84, 168, 240, 156,
        186, 15, 130, 147, 195, 78, 83, 75, 187, 13, 34, 211, 237, 52, 200, 214,
        25, 207, 198, 246, 92, 90, 193, 32, 161, 212, 131, 196, 41, 179, 235, 140,
    ]
}

/// [`PERMUTATION`] is a shuffle: its 256 entries are pairwise different, so, all being
/// below 256, each of `0..256` appears exactly once.
pub proof fn lemma_permutation_is_bijective()
    ensures
        forall|i: int, j: int|
            0 <= i < 256 && 0 <= j < 256 && #[trigger] PERMUTATION[i] == #[trigger] PERMUTATION[j]
                ==> i == j,
{
    let inv = permutation_inverse();
    assert forall|i: int| 0 <= i < 256 implies inv[#[trigger] PERMUTATION[i] as int] == i by {
        lemma_inverse_entry(i);
    }
}

/// Looking an entry up in the inverse gives back its position.
proof fn lemma_inverse_entry(i: int)
    requires
        0 <= i < 256,
    ensures
        permutation_inverse()[PERMUTATION[i] as int] == i,
{
}


/// Hash of a lattice coordinate in `[0, 512)`.
pub fn permute(i: usize) -> (r: usize)
    requires
        i < 512,
    ensures
        r == perm(i as int),
        r < 256,
{
    PERMUTATION[i % 256] as usize
}

/// Hash of lattice point `(i, j, k, l)`: the shuffle chained through the four coordinates.
pub open spec fn lattice_hash(i: int, j: int, k: int, l: int) -> int {
    perm(i + perm(j + perm(k + perm(l))))
}

/// Hash of the simplex corner at wrapped cell origin `(ii, jj, kk, ll)` stepped by the
/// given offsets, which selects that corner's gradient.
#[allow(clippy::too_many_arguments)]
pub fn gradient_index(
    ii: usize,
    i_offset: usize,
    jj: usize,
    j_offset: usize,
    kk: usize,
    k_offset: usize,
    ll: usize,
    l_offset: usize,
) -> (r: usize)
    requires
        ii < 256,
        jj < 256,
        kk < 256,
        ll < 256,
        i_offset <= 1,
        j_offset <= 1,
        k_offset <= 1,
        l_offset <= 1,
    ensures
        r == lattice_hash(
            ii + i_offset,
            jj + j_offset,
            kk + k_offset,
            ll + l_offset,
        ),
        r < 256,
{
    let i_idx = ii + i_offset;
    let j_idx = jj + j_offset;
    let k_idx = kk + k_offset;
    let l_idx = ll + l_offset;
    permute(i_idx + permute(j_idx + permute(k_idx + permute(l_idx))))
}

/// The 32 gradients of 4D simplex noise: the midpoints of the edges of the tesseract.
pub const GRADIENTS_4D: [[i8; 4]; 32] = [
    [0, 1, 1, 1], [0, 1, 1, -1], [0, 1, -1, 1], [0, 1, -1, -1],
    [0, -1, 1, 1], [0, -1, 1, -1], [0, -1, -1, 1], [0, -1, -1, -1],
    [1, 0, 1, 1], [1, 0, 1, -1], [1, 0, -1, 1], [1, 0, -1, -1],
    [-1, 0, 1, 1], [-1, 0, 1, -1], [-1, 0, -1, 1], [-1, 0, -1, -1],
    [1, 1, 0, 1], [1, 1, 0, -1], [1, -1, 0, 1], [1, -1, 0, -1],
    [-1, 1, 0, 1], [-1, 1, 0, -1], [-1, -1, 0, 1], [-1, -1, 0, -1],
    [1, 1, 1, 0], [1, 1, -1, 0], [1, -1, 1, 0], [1, -1, -1, 0],
    [-1, 1, 1, 0], [-1, 1, -1, 0], [-1, -1, 1, 0], [-1, -1, -1, 0],
];

/// The sign that bit `bit` of `h` selects: `-1` where it is set.
pub open spec fn sign_bit(h: int, bit: int) -> int {
    if (h / bit) % 2 == 1 {
        -1
    } else {
        1
    }
}

/// Midpoint of edge `h` of the tesseract `[-1, 1]⁴`, `0 <= h < 32`: coordinate `h / 8` is
/// zero, and the other three, in order, are `-1` where bits 2, 1 and 0 of `h` are set.
pub open spec fn tesseract_edge(h: int) -> Seq<int> {
    let a = sign_bit(h, 4);
    let b = sign_bit(h, 2);
    let c = sign_bit(h, 1);
    if h / 8 == 0 {
        seq![0, a, b, c]
    } else if h / 8 == 1 {
        seq![a, 0, b, c]
    } else if h / 8 == 2 {
        seq![a, b, 0, c]
    } else {
        seq![a, b, c, 0]
    }
}

/// The gradient that a corner hash selects, taken modulo 32.
pub fn gradient4(hash: usize) -> (g: [i8; 4])
    ensures
        forall|i: int| 0 <= i < 4 ==> #[trigger] g[i] as int == tesseract_edge(hash as int % 32)[i],
{
    let h = hash % 32;
    let g = GRADIENTS_4D[h];
    proof {
        lemma_gradient_table(h as int);
    }
    g
}

/// The gradient table lists the tesseract's edge midpoints in order.
proof fn lemma_gradient_table(h: int)
    requires
        0 <= h < 32,
    ensures
        forall|i: int| 0 <= i < 4 ==> #[trigger] GRADIENTS_4D[h][i] as int == tesseract_edge(h)[i],
{
}

/// Traversal order of the 24 simplices of a 4D lattice cell, by the six comparisons of
/// the offset coordinates packed as bits: 32 `x > y`, 16 `x > z`, 8 `y > z`, 4 `x > w`,
/// 2 `y > w`, 1 `z > w`. Entry `a` is the rank of axis `a`; orders that no four numbers
/// can give are all zero.
pub const SIMPLEX_ORDER: [[u8; 4]; 64] = [
    [0, 1, 2, 3], [0, 1, 3, 2], [0, 0, 0, 0], [0, 2, 3, 1], [0, 0, 0, 0], [0, 0, 0, 0], [0, 0, 0, 0], [1, 2, 3, 0],
    [0, 2, 1, 3], [0, 0, 0, 0], [0, 3, 1, 2], [0, 3, 2, 1], [0, 0, 0, 0], [0, 0, 0, 0], [0, 0, 0, 0], [1, 3, 2, 0],
    [0, 0, 0, 0], [0, 0, 0, 0], [0, 0, 0, 0], [0, 0, 0, 0], [0, 0, 0, 0], [0, 0, 0, 0], [0, 0, 0, 0], [0, 0, 0, 0],
    [1, 2, 0, 3], [0, 0, 0, 0], [1, 3, 0, 2], [0, 0, 0, 0], [0, 0, 0, 0], [0, 0, 0, 0], [2, 3, 0, 1], [2, 3, 1, 0],
    [1, 0, 2, 3], [1, 0, 3, 2], [0, 0, 0, 0], [0, 0, 0, 0], [0, 0, 0, 0], [2, 0, 3, 1], [0, 0, 0, 0], [2, 1, 3, 0],
    [0, 0, 0, 0], [0, 0, 0, 0], [0, 0, 0, 0], [0, 0, 0, 0], [0, 0, 0, 0], [0, 0, 0, 0], [0, 0, 0, 0], [0, 0, 0, 0],
    [2, 0, 1, 3], [0, 0, 0, 0], [0, 0, 0, 0], [0, 0, 0, 0], [3, 0, 1, 2], [3, 0, 2, 1], [0, 0, 0, 0], [3, 1, 2, 0],
    [2, 1, 0, 3], [0, 0, 0, 0], [0, 0, 0, 0], [0, 0, 0, 0], [3, 1, 0, 2], [0, 0, 0, 0], [3, 2, 0, 1], [3, 2, 1, 0],
];

/// Wraps a lattice coordinate onto the permutation table: the coordinate modulo 256.
pub fn wrap_lattice(i: i32) -> (r: usize)
    ensures
        r as int == i as int % 256,
        r < 256,
{
    let m = i & 0xff;
    proof {
        let q = i >> 8;
        assert(0 <= m < 256 && m == i - 256 * q) by (bit_vector)
            requires
                m == i & 0xff,
                q == i >> 8,
        ;
        lemma_fundamental_div_mod_converse(i as int, 256, q as int, m as int);
    }
    m as usize
}

/// One for a comparison that holds, zero otherwise.
pub open spec fn indicator(b: bool) -> int {
    if b {
        1
    } else {
        0
    }
}

/// Rank of each of the axes `x, y, z, w` among the offset coordinates, read off six
/// comparisons: the number of other axes that it exceeds, a tie going to the later axis.
pub open spec fn axis_ranks(
    x_gt_y: bool,
    x_gt_z: bool,
    y_gt_z: bool,
    x_gt_w: bool,
    y_gt_w: bool,
    z_gt_w: bool,
) -> Seq<int> {
    seq![
        indicator(x_gt_y) + indicator(x_gt_z) + indicator(x_gt_w),
        indicator(!x_gt_y) + indicator(y_gt_z) + indicator(y_gt_w),
        indicator(!x_gt_z) + indicator(!y_gt_z) + indicator(z_gt_w),
        indicator(!x_gt_w) + indicator(!y_gt_w) + indicator(!z_gt_w),
    ]
}

/// Four pairwise different values: the comparisons came from an ordering.
pub open spec fn all_distinct(s: Seq<int>) -> bool {
    &&& s[0] != s[1] && s[0] != s[2] && s[0] != s[3]
    &&& s[1] != s[2] && s[1] != s[3]
    &&& s[2] != s[3]
}

/// Looks up the rank of each axis in [`SIMPLEX_ORDER`] from the six comparisons of the
/// offset coordinates; comparisons that no ordering gives yield all zeros.
pub fn simplex_order(
    x_gt_y: bool,
    x_gt_z: bool,
    y_gt_z: bool,
    x_gt_w: bool,
    y_gt_w: bool,
    z_gt_w: bool,
) -> (r: [u8; 4])
    ensures
        ({
            let ranks = axis_ranks(x_gt_y, x_gt_z, y_gt_z, x_gt_w, y_gt_w, z_gt_w);
            forall|i: int|
                0 <= i < 4 ==> #[trigger] r[i] as int == if all_distinct(ranks) {
                    ranks[i]
                } else {
                    0
                }
        }),
{
    let c1: usize = if x_gt_y { 32 } else { 0 };
    let c2: usize = if x_gt_z { 16 } else { 0 };
    let c3: usize = if y_gt_z { 8 } else { 0 };
    let c4: usize = if x_gt_w { 4 } else { 0 };
    let c5: usize = if y_gt_w { 2 } else { 0 };
    let c6: usize = if z_gt_w { 1 } else { 0 };
    SIMPLEX_ORDER[c1 + c2 + c3 + c4 + c5 + c6]
}

/// Whether the axis of rank `rank` has stepped by corner `corner` (0 to 4) of the walk
/// from the cell origin: the `corner` highest-ranked axes have.
pub open spec fn corner_step(rank: int, corner: int) -> int {
    if rank + corner >= 4 {
        1
    } else {
        0
    }
}

/// Lattice offsets of corner `corner` of the simplex whose axes have the given ranks.
pub fn corner_offsets(ranks: [u8; 4], corner: usize) -> (r: [usize; 4])
    requires
        corner <= 4,
    ensures
        forall|i: int| 0 <= i < 4 ==> #[trigger] r[i] as int == corner_step(ranks[i] as int, corner as int),
{
    let t = 4 - corner;
    [
        if ranks[0] as usize >= t { 1 } else { 0 },
        if ranks[1] as usize >= t { 1 } else { 0 },
        if ranks[2] as usize >= t { 1 } else { 0 },
        if ranks[3] as usize >= t { 1 } else { 0 },
    ]
}

/// Number of axes stepped by corner `corner`.
pub open spec fn steps_taken(ranks: Seq<int>, corner: int) -> int {
    corner_step(ranks[0], corner) + corner_step(ranks[1], corner) + corner_step(ranks[2], corner)
        + corner_step(ranks[3], corner)
}

/// Ranks drawn from an ordering of four axes walk the five corners of one simplex: corner
/// `n` has stepped exactly `n` axes, and each corner keeps the steps of the one before.
pub proof fn lemma_corner_walk(ranks: Seq<int>, n: int)
    requires
        ranks.len() == 4,
        forall|i: int| 0 <= i < 4 ==> 0 <= #[trigger] ranks[i] < 4,
        all_distinct(ranks),
        0 <= n <= 4,
    ensures
        steps_taken(ranks, n) == n,
        n < 4 ==> forall|i: int|
            0 <= i < 4 ==> #[trigger] corner_step(ranks[i], n) <= corner_step(ranks[i], n + 1),
{
    assert(0 <= ranks[0] < 4 && 0 <= ranks[1] < 4 && 0 <= ranks[2] < 4 && 0 <= ranks[3] < 4);
}

} // verus!
