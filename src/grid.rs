use vstd::prelude::*;
use vstd::arithmetic::div_mod::*;
use crate::direction::{Direction, face_plane_point};

verus! {

/// Most vertices a chunk may hold: triangle indices are 16-bit.
pub const MAX_CHUNK_VERTICES: usize = 65536;

/// A chunk grid has at least one cell and no more vertices than a 16-bit index addresses.
pub open spec fn valid_resolution(r: int) -> bool {
    2 <= r && r * r <= MAX_CHUNK_VERTICES
}

/// Row-major number of the vertex in column `x`, row `y`.
pub open spec fn vertex_number(r: int, x: int, y: int) -> int {
    x * r + y
}

/// Length of the index buffer: two triangles per cell, `(r - 1)²` cells.
pub open spec fn index_count(r: int) -> int {
    6 * ((r - 1) * (r - 1))
}

/// The two triangles of the cell whose far corner is `(x, y)`:
/// `(x, y-1)-(x, y)-(x-1, y-1)` and `(x, y)-(x-1, y)-(x-1, y-1)`.
pub open spec fn cell_indices(r: int, x: int, y: int) -> Seq<int> {
    let v = vertex_number(r, x, y);
    seq![v - 1, v, v - r - 1, v, v - r, v - r - 1]
}

/// Entry `k` of the index buffer: cells come in row-major order of their far corner,
/// which runs over `1 <= x < r`, `1 <= y < r`.
pub open spec fn index_at(r: int, k: int) -> int {
    let cell = k / 6;
    cell_indices(r, cell / (r - 1) + 1, cell % (r - 1) + 1)[k % 6]
}

/// Why a resolution cannot make a chunk grid.
#[derive(Clone, Copy, Debug, PartialEq, Eq, Structural)]
pub enum GridError {
    /// Fewer than two vertices per row leave no cell to triangulate.
    ResolutionTooSmall,
    /// More vertices than a 16-bit index can name.
    ResolutionTooLarge,
}

/// The `resolution × resolution` vertex grid laid over one chunk.
#[derive(Clone, Copy, Debug)]
pub struct ChunkGrid {
    resolution: usize,
}

impl ChunkGrid {
    #[verifier::type_invariant]
    spec fn inv(self) -> bool {
        valid_resolution(self.resolution as int)
    }

    /// Number of vertices in each row and column.
    pub closed spec fn spec_resolution(self) -> int {
        self.resolution as int
    }

    /// Makes the grid of a chunk, refusing resolutions that [`valid_resolution`] rules out.
    pub fn new(resolution: u32) -> (r: Result<ChunkGrid, GridError>)
        ensures
            resolution < 2 ==> r == Err::<ChunkGrid, GridError>(GridError::ResolutionTooSmall),
            resolution >= 2 && resolution * resolution > MAX_CHUNK_VERTICES ==> r == Err::<
                ChunkGrid,
                GridError,
            >(GridError::ResolutionTooLarge),
            valid_resolution(resolution as int) ==> r is Ok && r->Ok_0.spec_resolution()
                == resolution,
    {
        if resolution < 2 {
            return Err(GridError::ResolutionTooSmall);
        }
        let wide = resolution as u64;
        assert(wide * wide <= u64::MAX) by (nonlinear_arith)
            requires
                wide <= u32::MAX,
        ;
        if wide * wide > MAX_CHUNK_VERTICES as u64 {
            return Err(GridError::ResolutionTooLarge);
        }
        Ok(ChunkGrid { resolution: resolution as usize })
    }

    /// Number of vertices in each row and column.
    pub fn resolution(&self) -> (r: usize)
        ensures
            r == self.spec_resolution(),
            valid_resolution(r as int),
    {
        proof {
            use_type_invariant(self);
        }
        self.resolution
    }

    /// Number of vertices of the grid, `resolution²`.
    pub fn vertex_count(&self) -> (r: usize)
        ensures
            r == self.spec_resolution() * self.spec_resolution(),
            r <= MAX_CHUNK_VERTICES,
    {
        proof {
            use_type_invariant(self);
        }
        self.resolution * self.resolution
    }

    /// Number of entries of the index buffer, `6 (resolution - 1)²`.
    pub fn index_count(&self) -> (r: usize)
        ensures
            r == index_count(self.spec_resolution()),
    {
        proof {
            use_type_invariant(self);
        }
        let cells = self.resolution - 1;
        proof {
            let r = self.resolution as int;
            assert(cells * cells <= r * r) by (nonlinear_arith)
                requires
                    cells == r - 1,
                    r >= 2,
            ;
        }
        6 * (cells * cells)
    }

    /// Whether caller buffers of these lengths hold the whole mesh: three floats per vertex
    /// for positions and for normals, and the full index buffer.
    pub fn fits_buffers(&self, positions_len: usize, normals_len: usize, indices_len: usize) -> (r:
        bool)
        ensures
            r == (positions_len >= 3 * (self.spec_resolution() * self.spec_resolution())
                && normals_len >= 3 * (self.spec_resolution() * self.spec_resolution())
                && indices_len >= index_count(self.spec_resolution())),
    {
        let vertex_floats = 3 * self.vertex_count();
        positions_len >= vertex_floats && normals_len >= vertex_floats && indices_len
            >= self.index_count()
    }

    /// Row-major number of the vertex in column `x`, row `y`.
    pub fn vertex_index(&self, x: usize, y: usize) -> (r: usize)
        requires
            x < self.spec_resolution(),
            y < self.spec_resolution(),
        ensures
            r == vertex_number(self.spec_resolution(), x as int, y as int),
            r < self.spec_resolution() * self.spec_resolution(),
    {
        proof {
            use_type_invariant(self);
            lemma_vertex_in_grid(self.resolution as int, x as int, y as int);
        }
        x * self.resolution + y
    }

    /// The six vertex numbers of the two triangles of the cell whose far corner is `(x, y)`.
    pub fn cell_indices(&self, x: usize, y: usize) -> (r: [usize; 6])
        requires
            1 <= x < self.spec_resolution(),
            1 <= y < self.spec_resolution(),
        ensures
            forall|j: int|
                0 <= j < 6 ==> #[trigger] r[j] as int == cell_indices(
                    self.spec_resolution(),
                    x as int,
                    y as int,
                )[j],
    {
        let res = self.resolution();
        let v = self.vertex_index(x, y);
        proof {
            assert(v >= res + 1) by (nonlinear_arith)
                requires
                    v == x * res + y,
                    x >= 1,
                    y >= 1,
            ;
        }
        [v - 1, v, v - res - 1, v, v - res, v - res - 1]
    }

    /// The index buffer of the chunk: two triangles per cell, cells in row-major order.
    pub fn triangle_indices(&self) -> (out: Vec<u16>)
        ensures
            out.len() == index_count(self.spec_resolution()),
            forall|k: int|
                0 <= k < out.len() ==> #[trigger] out[k] as int == index_at(
                    self.spec_resolution(),
                    k,
                ),
            forall|k: int|
                0 <= k < out.len() ==> #[trigger] out[k] < self.spec_resolution()
                    * self.spec_resolution(),
    {
        let res = self.resolution();
        let ghost r = res as int;
        let mut out: Vec<u16> = Vec::new();
        let mut x: usize = 1;
        while x < res
            invariant
                r == res == self.spec_resolution(),
                valid_resolution(r),
                1 <= x <= res,
                out.len() == 6 * ((x - 1) * (r - 1)),
                forall|k: int| 0 <= k < out.len() ==> #[trigger] out[k] as int == index_at(r, k),
            decreases res - x,
        {
            let mut y: usize = 1;
            while y < res
                invariant
                    r == res == self.spec_resolution(),
                    valid_resolution(r),
                    1 <= x < res,
                    1 <= y <= res,
                    out.len() == 6 * ((x - 1) * (r - 1) + (y - 1)),
                    forall|k: int|
                        0 <= k < out.len() ==> #[trigger] out[k] as int == index_at(r, k),
                decreases res - y,
            {
                let cell = self.cell_indices(x, y);
                let ghost base = out.len() as int;
                proof {
                    lemma_vertex_in_grid(r, x as int, y as int);
                }
                let mut j: usize = 0;
                while j < 6
                    invariant
                        r == res == self.spec_resolution(),
                        valid_resolution(r),
                        1 <= x < res,
                        1 <= y < res,
                        0 <= j <= 6,
                        base == 6 * ((x - 1) * (r - 1) + (y - 1)),
                        out.len() == base + j,
                        forall|i: int|
                            0 <= i < 6 ==> #[trigger] cell[i] as int == cell_indices(
                                r,
                                x as int,
                                y as int,
                            )[i],
                        vertex_number(r, x as int, y as int) < r * r,
                        forall|k: int|
                            0 <= k < out.len() ==> #[trigger] out[k] as int == index_at(r, k),
                    decreases 6 - j,
                {
                    proof {
                        lemma_index_position(r, x as int, y as int, j as int);
                    }
                    out.push(cell[j] as u16);
                    j = j + 1;
                }
                y = y + 1;
            }
            proof {
                assert(6 * ((x - 1) * (r - 1) + (r - 1)) == 6 * (x * (r - 1))) by (nonlinear_arith);
            }
            x = x + 1;
        }
        assert forall|k: int| 0 <= k < out.len() implies #[trigger] out[k] < r * r by {
            lemma_indices_name_vertices(r, k);
        }
        out
    }

    /// Where vertex `(x, y)` lies on the flat plane of face `direction`, in half vertex
    /// spacings from the centre of the chunk: `2x - (resolution - 1)` and
    /// `2y - (resolution - 1)` placed on the face's two axes.
    pub fn plane_offset(&self, direction: Direction, x: usize, y: usize) -> (p: [i32; 3])
        requires
            x < self.spec_resolution(),
            y < self.spec_resolution(),
        ensures
            ({
                let s = self.spec_resolution() - 1;
                let q = face_plane_point(direction, 2 * x - s, 2 * y - s);
                p[0] as int == q.0 && p[1] as int == q.1 && p[2] as int == q.2
            }),
    {
        let res = self.resolution();
        proof {
            lemma_resolution_bound(res as int);
        }
        let s = (res - 1) as i32;
        let a = 2 * (x as i32) - s;
        let b = 2 * (y as i32) - s;
        match direction {
            Direction::Forward => [a, b, 0],
            Direction::Backward => [b, a, 0],
            Direction::Left => [0, a, b],
            Direction::Right => [0, b, a],
            Direction::Up => [a, 0, b],
            Direction::Down => [b, 0, a],
        }
    }
}

/// A valid resolution has at most 256 vertices per row.
proof fn lemma_resolution_bound(r: int)
    requires
        valid_resolution(r),
    ensures
        r <= 256,
{
    if r > 256 {
        assert(r * r > 256 * 256) by (nonlinear_arith)
            requires
                r > 256,
        ;
    }
}

/// Every entry of the index buffer names a vertex of the grid.
pub proof fn lemma_indices_name_vertices(r: int, k: int)
    requires
        valid_resolution(r),
        0 <= k < index_count(r),
    ensures
        0 <= index_at(r, k) < r * r,
{
    let cell = k / 6;
    lemma_div_pos_is_pos(k, 6);
    lemma_div_is_ordered(k, index_count(r) - 1, 6);
    lemma_fundamental_div_mod_converse(index_count(r) - 1, 6, (r - 1) * (r - 1) - 1, 5);
    let x = cell / (r - 1) + 1;
    let y = cell % (r - 1) + 1;
    lemma_div_pos_is_pos(cell, r - 1);
    lemma_div_is_ordered(cell, (r - 1) * (r - 1) - 1, r - 1);
    assert((r - 1) * (r - 1) - 1 == (r - 2) * (r - 1) + (r - 2)) by (nonlinear_arith);
    lemma_fundamental_div_mod_converse((r - 1) * (r - 1) - 1, r - 1, r - 2, r - 2);
    lemma_mod_bound(cell, r - 1);
    lemma_vertex_in_grid(r, x, y);
    assert(x * r + y >= r + 1) by (nonlinear_arith)
        requires
            r >= 2,
            x >= 1,
            y >= 1,
    ;
    lemma_mod_bound(k, 6);
}

/// Row-major numbering gives each of the `r²` vertices its own number in `[0, r²)`
/// and reaches every such number, so filling vertex `(x, y)` at its number fills the
/// whole position and normal buffers.
pub proof fn lemma_vertex_numbering_bijective(r: int)
    requires
        valid_resolution(r),
    ensures
        forall|x: int, y: int|
            0 <= x < r && 0 <= y < r ==> 0 <= #[trigger] vertex_number(r, x, y) < r * r,
        forall|x1: int, y1: int, x2: int, y2: int|
            0 <= x1 < r && 0 <= y1 < r && 0 <= x2 < r && 0 <= y2 < r && #[trigger] vertex_number(
                r,
                x1,
                y1,
            ) == #[trigger] vertex_number(r, x2, y2) ==> x1 == x2 && y1 == y2,
        forall|v: int|
            0 <= v < r * r ==> 0 <= #[trigger] (v / r) < r && vertex_number(r, v / r, v % r) == v,
{
    assert forall|x: int, y: int| 0 <= x < r && 0 <= y < r implies 0 <= #[trigger] vertex_number(
        r,
        x,
        y,
    ) < r * r by {
        lemma_vertex_in_grid(r, x, y);
    }
    assert forall|x1: int, y1: int, x2: int, y2: int|
        0 <= x1 < r && 0 <= y1 < r && 0 <= x2 < r && 0 <= y2 < r && #[trigger] vertex_number(
            r,
            x1,
            y1,
        ) == #[trigger] vertex_number(r, x2, y2) implies x1 == x2 && y1 == y2 by {
        let v = vertex_number(r, x1, y1);
        lemma_fundamental_div_mod_converse(v, r, x1, y1);
        lemma_fundamental_div_mod_converse(v, r, x2, y2);
    }
    assert forall|v: int| 0 <= v < r * r implies 0 <= #[trigger] (v / r) < r && vertex_number(
        r,
        v / r,
        v % r,
    ) == v by {
        lemma_fundamental_div_mod(v, r);
        lemma_div_pos_is_pos(v, r);
        lemma_div_is_ordered(v, r * r - 1, r);
        assert(r * r - 1 == (r - 1) * r + (r - 1)) by (nonlinear_arith);
        lemma_fundamental_div_mod_converse(r * r - 1, r, r - 1, r - 1);
    }
}

/// The two triangles of a cell cross their shared diagonal in opposite directions, so
/// both wind the same way, and neither repeats a corner.
pub proof fn lemma_cell_winding_consistent(r: int, x: int, y: int)
    requires
        valid_resolution(r),
        1 <= x < r,
        1 <= y < r,
    ensures
        ({
            let c = cell_indices(r, x, y);
            &&& c[1] == c[3] && c[2] == c[5]
            &&& c[0] != c[1] && c[1] != c[2] && c[0] != c[2]
            &&& c[3] != c[4] && c[4] != c[5] && c[3] != c[5]
        }),
{
}

/// A vertex of the grid has a number below `r²`.
proof fn lemma_vertex_in_grid(r: int, x: int, y: int)
    requires
        0 <= x < r,
        0 <= y < r,
    ensures
        0 <= vertex_number(r, x, y) < r * r,
{
    assert(0 <= x * r + y < r * r) by (nonlinear_arith)
        requires
            0 <= x < r,
            0 <= y < r,
    ;
}

/// Entry `j` of cell `(x, y)` sits at position `6 · cell + j` of the index buffer.
proof fn lemma_index_position(r: int, x: int, y: int, j: int)
    requires
        r >= 2,
        1 <= x < r,
        1 <= y < r,
        0 <= j < 6,
    ensures
        index_at(r, 6 * ((x - 1) * (r - 1) + (y - 1)) + j) == cell_indices(r, x, y)[j],
{
    let cell = (x - 1) * (r - 1) + (y - 1);
    assert(cell >= 0) by (nonlinear_arith)
        requires
            cell == (x - 1) * (r - 1) + (y - 1),
            1 <= x,
            r >= 2,
            1 <= y,
    ;
    lemma_fundamental_div_mod_converse(6 * cell + j, 6, cell, j);
    lemma_fundamental_div_mod_converse(cell, r - 1, x - 1, y - 1);
}

} // verus!
