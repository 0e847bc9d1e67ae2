//! A tessellated planar grid: `column x row` vertices spread over
//! `[-width, width] x [-depth, depth]` on the ground plane, and two indexed
//! triangles per cell whose diagonal alternates on a per-cell counter to
//! avoid a directional tessellation bias.

use vstd::prelude::*;
use crate::fixed::{Fx, div_trunc, div_trunc_i64};
use crate::vec3::Vec3Fx;
use crate::error::GeometryError;
use crate::renderable::{Renderable, RenderableIndices, RenderableVertex, BaseVertex,
    PrimitiveType, up_normal};

verus! {

/// Largest world extent accepted for a grid, in raw fixed-point units
/// (about 8000 world units).
pub const GRID_EXTENT_BOUND: i64 = 0x2000_0000_0000;

/// One scaled vertex coordinate: grid step `i` of `count` mapped onto
/// `[-1, 1]` and scaled by the world extent, truncated toward zero.
pub open spec fn grid_coord(extent: int, i: int, count: int) -> int {
    div_trunc(extent * (2 * i - (count - 1)), count - 1)
}

/// The six index entries of cell `n` (row-major, `n == row * (xc-1) + col`)
/// start at `6 n`; the diagonal alternates with the parity of `n`.
pub open spec fn grid_cell_ok(ind: Seq<u16>, xc: int, row: int, col: int) -> bool {
    let n = row * (xc - 1) + col;
    let tl = row * xc + col;
    let bl = tl + 1;
    let tr = tl + xc;
    let br = tl + xc + 1;
    if n % 2 == 0 {
        &&& ind[6 * n] == tl
        &&& ind[6 * n + 1] == bl
        &&& ind[6 * n + 2] == br
        &&& ind[6 * n + 3] == tl
        &&& ind[6 * n + 4] == br
        &&& ind[6 * n + 5] == tr
    } else {
        &&& ind[6 * n] == tl
        &&& ind[6 * n + 1] == bl
        &&& ind[6 * n + 2] == tr
        &&& ind[6 * n + 3] == tr
        &&& ind[6 * n + 4] == bl
        &&& ind[6 * n + 5] == br
    }
}

/// A planar grid mesh: the vertex positions and the triangle-list index
/// buffer over them.
#[derive(Debug)]
pub struct Grid {
    pub indices: Vec<u16>,
    pub vertices: Vec<Vec3Fx>,
}

impl Grid {
    /// Every index addresses a stored vertex, and the mesh is small enough
    /// for 16-bit indexing.
    pub open spec fn wf(self) -> bool {
        &&& self.vertices@.len() <= 65536
        &&& forall|k: int|
            0 <= k < self.indices@.len() ==> (#[trigger] self.indices@[k])
                < self.vertices@.len()
    }

    /// The stored vertex positions.
    pub open spec fn spec_vertices(self) -> Seq<Vec3Fx> {
        self.vertices@
    }

    /// Builds the grid for the given world extents and counts. Fails with
    /// `CountTooSmall` when either count is below 2 and with
    /// `TooManyVertices` when the mesh would exceed 65536 vertices;
    /// otherwise yields exactly `x_count * z_count` vertices and
    /// `6 (x_count-1) (z_count-1)` indices, every index below the vertex
    /// count.
    pub fn new(depth: Fx, width: Fx, x_count: u16, z_count: u16) -> (r: Result<
        Grid,
        GeometryError,
    >)
        requires
            -GRID_EXTENT_BOUND <= depth.raw <= GRID_EXTENT_BOUND,
            -GRID_EXTENT_BOUND <= width.raw <= GRID_EXTENT_BOUND,
        ensures
            (x_count < 2 || z_count < 2) ==> r == Result::<Grid, GeometryError>::Err(
                GeometryError::CountTooSmall,
            ),
            (x_count >= 2 && z_count >= 2 && x_count * z_count > 65536) ==> r == Result::<
                Grid,
                GeometryError,
            >::Err(GeometryError::TooManyVertices),
            r is Ok <==> (x_count >= 2 && z_count >= 2 && x_count * z_count <= 65536),
            r is Ok ==> {
                let g = r->Ok_0;
                &&& g.wf()
                &&& g.spec_vertices().len() == x_count * z_count
                &&& g.indices@.len() == 6 * ((x_count - 1) * (z_count - 1))
                &&& forall|j: int, i: int|
                    0 <= j < z_count && 0 <= i < x_count ==> #[trigger] g.spec_vertices()[j
                        * x_count + i] == (Vec3Fx {
                        x: Fx { raw: grid_coord(width.raw as int, i, x_count as int) as i64 },
                        y: Fx { raw: 0 },
                        z: Fx { raw: grid_coord(depth.raw as int, j, z_count as int) as i64 },
                    })
                &&& forall|row: int, col: int|
                    0 <= row < z_count - 1 && 0 <= col < x_count - 1 ==> grid_cell_ok(
                        g.indices@,
                        x_count as int,
                        row,
                        col,
                    )
            },
    {
        if x_count < 2 || z_count < 2 {
            return Err(GeometryError::CountTooSmall);
        }
        proof {
            assert(x_count * z_count < 0x1_0000_0000) by (nonlinear_arith)
                requires
                    x_count <= 0xFFFF,
                    z_count <= 0xFFFF,
            ;
        }
        if (x_count as u32) * (z_count as u32) > 65536 {
            return Err(GeometryError::TooManyVertices);
        }
        let vertices = Grid::build_vertices(depth, width, x_count, z_count);
        let indices = Grid::build_indices(x_count, z_count);
        proof {
            assert forall|k: int| 0 <= k < indices@.len() implies (#[trigger] indices@[k])
                < vertices@.len() by {
                let n = k / 6;
                let row = n / (x_count - 1) as int;
                let col = n % (x_count - 1) as int;
                lemma_cell_in_range(x_count as int, z_count as int, k);
                assert(grid_cell_ok(indices@, x_count as int, row, col));
                lemma_cell_entries_bound(x_count as int, z_count as int, row, col);
            }
        }
        Ok(Grid { indices, vertices })
    }

    /// The vertex positions handed to any `BaseVertex` type, in order.
    pub fn get_vertices<T: BaseVertex>(&self) -> (v: Vec<T>)
        ensures
            v@.len() == self.spec_vertices().len(),
            forall|i: int|
                0 <= i < v@.len() ==> (#[trigger] v@[i]).position_of() == self.spec_vertices()[i],
    {
        let mut v: Vec<T> = Vec::new();
        let n = self.vertices.len();
        let mut i: usize = 0;
        while i < n
            invariant
                i <= n,
                n == self.vertices@.len(),
                v@.len() == i,
                forall|k: int|
                    0 <= k < i ==> (#[trigger] v@[k]).position_of() == self.vertices@[k],
            decreases n - i,
        {
            let p = self.vertices[i];
            v.push(T::from_position(p.x, p.y, p.z));
            i = i + 1;
        }
        v
    }

    /// Vertex positions row-major: row `j` places `x_count` vertices whose
    /// `x` sweeps `[-width, width]` while `z` stays at step `j` of
    /// `[-depth, depth]`.
    fn build_vertices(depth: Fx, width: Fx, x_count: u16, z_count: u16) -> (v: Vec<Vec3Fx>)
        requires
            -GRID_EXTENT_BOUND <= depth.raw <= GRID_EXTENT_BOUND,
            -GRID_EXTENT_BOUND <= width.raw <= GRID_EXTENT_BOUND,
            x_count >= 2,
            z_count >= 2,
        ensures
            v@.len() == x_count * z_count,
            forall|j: int, i: int|
                0 <= j < z_count && 0 <= i < x_count ==> #[trigger] v@[j * x_count + i] == (Vec3Fx {
                    x: Fx { raw: grid_coord(width.raw as int, i, x_count as int) as i64 },
                    y: Fx { raw: 0 },
                    z: Fx { raw: grid_coord(depth.raw as int, j, z_count as int) as i64 },
                }),
    {
        let mut v: Vec<Vec3Fx> = Vec::new();
        let mut j: u16 = 0;
        while j < z_count
            invariant
                j <= z_count,
                x_count >= 2,
                z_count >= 2,
                -GRID_EXTENT_BOUND <= depth.raw <= GRID_EXTENT_BOUND,
                -GRID_EXTENT_BOUND <= width.raw <= GRID_EXTENT_BOUND,
                v@.len() == j * x_count,
                forall|j2: int, i2: int|
                    0 <= j2 < j && 0 <= i2 < x_count ==> #[trigger] v@[j2 * x_count + i2] == (
                    Vec3Fx {
                        x: Fx { raw: grid_coord(width.raw as int, i2, x_count as int) as i64 },
                        y: Fx { raw: 0 },
                        z: Fx { raw: grid_coord(depth.raw as int, j2, z_count as int) as i64 },
                    }),
            decreases z_count - j,
        {
            let zc = grid_coord_exec(depth, j, z_count);
            let mut i: u16 = 0;
            while i < x_count
                invariant
                    i <= x_count,
                    j < z_count,
                    x_count >= 2,
                    z_count >= 2,
                    -GRID_EXTENT_BOUND <= depth.raw <= GRID_EXTENT_BOUND,
                    -GRID_EXTENT_BOUND <= width.raw <= GRID_EXTENT_BOUND,
                    zc.raw == grid_coord(depth.raw as int, j as int, z_count as int),
                    v@.len() == j * x_count + i,
                    forall|j2: int, i2: int|
                        0 <= j2 < j && 0 <= i2 < x_count ==> #[trigger] v@[j2 * x_count + i2] == (
                        Vec3Fx {
                            x: Fx { raw: grid_coord(width.raw as int, i2, x_count as int) as i64 },
                            y: Fx { raw: 0 },
                            z: Fx { raw: grid_coord(depth.raw as int, j2, z_count as int) as i64 },
                        }),
                    forall|i2: int|
                        0 <= i2 < i ==> #[trigger] v@[j as int * x_count + i2] == (Vec3Fx {
                            x: Fx { raw: grid_coord(width.raw as int, i2, x_count as int) as i64 },
                            y: Fx { raw: 0 },
                            z: Fx { raw: grid_coord(depth.raw as int, j as int, z_count as int) as i64 },
                        }),
                decreases x_count - i,
            {
                let xc = grid_coord_exec(width, i, x_count);
                v.push(Vec3Fx { x: xc, y: Fx { raw: 0 }, z: zc });
                proof {
                    assert forall|j2: int, i2: int|
                        0 <= j2 < j && 0 <= i2 < x_count implies #[trigger] v@[j2 * x_count + i2]
                        == (Vec3Fx {
                        x: Fx { raw: grid_coord(width.raw as int, i2, x_count as int) as i64 },
                        y: Fx { raw: 0 },
                        z: Fx { raw: grid_coord(depth.raw as int, j2, z_count as int) as i64 },
                    }) by {
                        lemma_row_major_before(x_count as int, j2, i2, j as int, i as int);
                    }
                }
                i = i + 1;
            }
            j = j + 1;
            proof {
                lemma_row_step(j as int, x_count as int);
            }
        }
        proof {
            lemma_vertex_index_cover(v@.len() as int, x_count as int, z_count as int);
        }
        v
    }

    /// The triangle-list index buffer: for each cell two triangles, the
    /// diagonal alternating with the per-cell counter.
    fn build_indices(x_count: u16, z_count: u16) -> (ind: Vec<u16>)
        requires
            x_count >= 2,
            z_count >= 2,
            x_count * z_count <= 65536,
        ensures
            ind@.len() == 6 * ((x_count - 1) * (z_count - 1)),
            forall|row: int, col: int|
                0 <= row < z_count - 1 && 0 <= col < x_count - 1 ==> grid_cell_ok(
                    ind@,
                    x_count as int,
                    row,
                    col,
                ),
    {
        let mut ind: Vec<u16> = Vec::new();
        let mut row: u16 = 0;
        let mut count: u32 = 0;
        while row < z_count - 1
            invariant
                row <= z_count - 1,
                x_count >= 2,
                z_count >= 2,
                x_count * z_count <= 65536,
                count == row * (x_count - 1),
                ind@.len() == 6 * (row * (x_count - 1)),
                forall|r2: int, c2: int|
                    0 <= r2 < row && 0 <= c2 < x_count - 1 ==> grid_cell_ok(
                        ind@,
                        x_count as int,
                        r2,
                        c2,
                    ),
            decreases z_count - 1 - row,
        {
            let mut col: u16 = 0;
            while col < x_count - 1
                invariant
                    col <= x_count - 1,
                    row < z_count - 1,
                    x_count >= 2,
                    z_count >= 2,
                    x_count * z_count <= 65536,
                    count == row * (x_count - 1) + col,
                    ind@.len() == 6 * (row * (x_count - 1) + col),
                    forall|r2: int, c2: int|
                        0 <= r2 < row && 0 <= c2 < x_count - 1 ==> grid_cell_ok(
                            ind@,
                            x_count as int,
                            r2,
                            c2,
                        ),
                    forall|c2: int|
                        0 <= c2 < col ==> grid_cell_ok(ind@, x_count as int, row as int, c2),
                decreases x_count - 1 - col,
            {
                proof {
                    lemma_cell_entries_bound(x_count as int, z_count as int, row as int, col as int);
                }
                let tl: u32 = (row as u32) * (x_count as u32) + (col as u32);
                let bl: u32 = tl + 1;
                let tr: u32 = tl + (x_count as u32);
                let br: u32 = tr + 1;
                let ghost before = ind@;
                if count % 2 == 0 {
                    ind.push(tl as u16);
                    ind.push(bl as u16);
                    ind.push(br as u16);
                    ind.push(tl as u16);
                    ind.push(br as u16);
                    ind.push(tr as u16);
                } else {
                    ind.push(tl as u16);
                    ind.push(bl as u16);
                    ind.push(tr as u16);
                    ind.push(tr as u16);
                    ind.push(bl as u16);
                    ind.push(br as u16);
                }
                proof {
                    assert(forall|k: int| 0 <= k < before.len() ==> ind@[k] == before[k]);
                    assert(grid_cell_ok(ind@, x_count as int, row as int, col as int));
                    assert forall|r2: int, c2: int|
                        0 <= r2 < row && 0 <= c2 < x_count - 1 implies grid_cell_ok(
                        ind@,
                        x_count as int,
                        r2,
                        c2,
                    ) by {
                        lemma_cell_flat_bound(
                            x_count as int,
                            r2,
                            c2,
                            row as int,
                            col as int,
                        );
                        assert(grid_cell_ok(before, x_count as int, r2, c2));
                    }
                    assert forall|c2: int| 0 <= c2 < col + 1 implies grid_cell_ok(
                        ind@,
                        x_count as int,
                        row as int,
                        c2,
                    ) by {
                        if c2 < col {
                            assert(grid_cell_ok(before, x_count as int, row as int, c2));
                        }
                    }
                }
                col = col + 1;
                count = count + 1;
            }
            row = row + 1;
            proof {
                lemma_row_step(row as int, (x_count - 1) as int);
            }
        }
        proof {
            assert((z_count - 1) as int * (x_count - 1) as int == (x_count - 1) as int * (z_count
                - 1) as int) by (nonlinear_arith);
        }
        ind
    }
}

impl Renderable for Grid {
    open spec fn spec_wf(&self) -> bool {
        self.wf()
    }

    open spec fn spec_vertex_count(&self) -> int {
        self.vertices@.len() as int
    }

    fn get_vertex_array<T: RenderableVertex>(&self) -> (v: Vec<T>)
        ensures
            forall|i: int|
                0 <= i < v@.len() ==> (#[trigger] v@[i]).position_of() == self.spec_vertices()[i],
            forall|i: int| 0 <= i < v@.len() ==> (#[trigger] v@[i]).normal_of() == up_normal(),
    {
        let mut v: Vec<T> = self.get_vertices();
        let n = v.len();
        let mut i: usize = 0;
        while i < n
            invariant
                i <= n,
                v@.len() == n,
                n == self.spec_vertices().len(),
                forall|k: int|
                    0 <= k < n ==> (#[trigger] v@[k]).position_of() == self.spec_vertices()[k],
                forall|k: int| 0 <= k < i ==> (#[trigger] v@[k]).normal_of() == up_normal(),
            decreases n - i,
        {
            let ghost before = v@;
            let mut vert = v[i];
            vert.set_normal(Fx { raw: 0 }, Fx::one(), Fx { raw: 0 });
            v.set(i, vert);
            proof {
                assert(forall|k: int| 0 <= k < n && k != i ==> v@[k] == before[k]);
            }
            i = i + 1;
        }
        v
    }

    fn get_indices(&self) -> (r: RenderableIndices)
        ensures
            (match r {
                RenderableIndices::Buffer(v, p) => v@ == self.indices@ && p
                    == PrimitiveType::TrianglesList,
                RenderableIndices::Implicit(_) => false,
            }),
    {
        RenderableIndices::Buffer(self.indices.clone(), PrimitiveType::TrianglesList)
    }
}

/// One scaled coordinate, computed as `extent * (2 i - (count-1)) / (count-1)`
/// with truncation toward zero.
fn grid_coord_exec(extent: Fx, i: u16, count: u16) -> (r: Fx)
    requires
        -GRID_EXTENT_BOUND <= extent.raw <= GRID_EXTENT_BOUND,
        count >= 2,
        i < count,
    ensures
        r.raw == grid_coord(extent.raw as int, i as int, count as int),
{
    let f: i64 = 2 * (i as i64) - ((count as i64) - 1);
    proof {
        assert(-0x4000_0000_0000_0000 <= extent.raw * f <= 0x4000_0000_0000_0000)
            by (nonlinear_arith)
            requires
                -0x2000_0000_0000 <= extent.raw <= 0x2000_0000_0000,
                -0x2_0000 <= f <= 0x2_0000,
        ;
    }
    let t: i64 = extent.raw * f;
    let q: i64 = div_trunc_i64(t, (count as i64) - 1);
    Fx { raw: q }
}

/// Pushing one more full row of `w` items advances the flat length from
/// `(r-1) w + w` to `r w`.
proof fn lemma_row_step(r: int, w: int)
    requires
        r >= 1,
    ensures
        (r - 1) * w + w == r * w,
{
    assert((r - 1) * w + w == r * w) by (nonlinear_arith);
}

/// A flat index below `6 (xc-1) (zc-1)` decomposes into a cell with a row
/// below `zc - 1` and a column below `xc - 1`.
proof fn lemma_cell_in_range(xc: int, zc: int, k: int)
    requires
        xc >= 2,
        zc >= 2,
        0 <= k < 6 * ((xc - 1) * (zc - 1)),
    ensures
        ({
            let n = k / 6;
            let row = n / (xc - 1);
            let col = n % (xc - 1);
            &&& 0 <= row < zc - 1
            &&& 0 <= col < xc - 1
            &&& n == row * (xc - 1) + col
            &&& 6 * n <= k < 6 * n + 6
        }),
{
    let n = k / 6;
    vstd::arithmetic::div_mod::lemma_fundamental_div_mod(k, 6);
    vstd::arithmetic::div_mod::lemma_fundamental_div_mod(n, xc - 1);
    let row = n / (xc - 1);
    let col = n % (xc - 1);
    assert(n < (xc - 1) * (zc - 1)) by (nonlinear_arith)
        requires
            k < 6 * ((xc - 1) * (zc - 1)),
            6 * n <= k,
    ;
    assert(row < zc - 1) by (nonlinear_arith)
        requires
            n == row * (xc - 1) + col,
            n < (xc - 1) * (zc - 1),
            0 <= col < xc - 1,
            xc >= 2,
            row >= 0,
    ;
    assert(row >= 0) by (nonlinear_arith)
        requires
            n >= 0,
            n == row * (xc - 1) + col,
            0 <= col < xc - 1,
            xc >= 2,
    ;
}

/// Within a grid of at most 65536 vertices, every entry of a cell's two
/// triangles addresses a vertex: the bottom-right corner
/// `(row+1) xc + col + 1` stays below `xc zc`.
proof fn lemma_cell_entries_bound(xc: int, zc: int, row: int, col: int)
    requires
        xc >= 2,
        zc >= 2,
        xc * zc <= 65536,
        0 <= row < zc - 1,
        0 <= col < xc - 1,
    ensures
        0 <= row * xc + col,
        row * xc + col + xc + 1 <= xc * zc - 1,
        row * (xc - 1) + col >= 0,
        row * (xc - 1) + col + 1 <= xc * zc,
{
    assert(row * (xc - 1) + col + 1 <= xc * zc) by (nonlinear_arith)
        requires
            0 <= row <= zc - 2,
            0 <= col <= xc - 2,
            xc >= 2,
            zc >= 2,
    ;
    assert(row * xc + col >= 0) by (nonlinear_arith)
        requires
            row >= 0,
            xc >= 2,
            col >= 0,
    ;
    assert(row * (xc - 1) + col >= 0) by (nonlinear_arith)
        requires
            row >= 0,
            xc >= 2,
            col >= 0,
    ;
    assert(row * xc + col + xc + 1 <= xc * zc - 1) by (nonlinear_arith)
        requires
            0 <= row <= zc - 2,
            0 <= col <= xc - 2,
            xc >= 2,
            zc >= 2,
    ;
}

/// A vertex of an earlier row sits before the current row-major position.
proof fn lemma_row_major_before(xc: int, j2: int, i2: int, j: int, i: int)
    requires
        xc >= 1,
        0 <= j2 < j,
        0 <= i2 < xc,
        i >= 0,
    ensures
        0 <= j2 * xc + i2,
        j2 * xc + i2 < j * xc + i,
{
    assert(0 <= j2 * xc + i2) by (nonlinear_arith)
        requires
            j2 >= 0,
            i2 >= 0,
            xc >= 1,
    ;
    assert(j2 * xc + i2 < j * xc + i) by (nonlinear_arith)
        requires
            xc >= 1,
            0 <= j2 < j,
            0 <= i2 < xc,
            i >= 0,
    ;
}

/// Cells of earlier rows sit wholly before the current cell in the flat
/// index buffer.
proof fn lemma_cell_flat_bound(xc: int, r2: int, c2: int, row: int, col: int)
    requires
        xc >= 2,
        0 <= r2 < row,
        0 <= c2 < xc - 1,
        col >= 0,
    ensures
        0 <= r2 * (xc - 1) + c2,
        6 * (r2 * (xc - 1) + c2) + 6 <= 6 * (row * (xc - 1) + col),
{
    assert(r2 * (xc - 1) + c2 >= 0) by (nonlinear_arith)
        requires
            r2 >= 0,
            c2 >= 0,
            xc >= 2,
    ;
    assert(r2 * (xc - 1) + c2 + 1 <= row * (xc - 1) + col) by (nonlinear_arith)
        requires
            xc >= 2,
            0 <= r2 < row,
            0 <= c2 < xc - 1,
            col >= 0,
    ;
}

/// `x_count * z_count` items laid out row-major cover exactly the flat
/// length.
proof fn lemma_vertex_index_cover(len: int, xc: int, zc: int)
    requires
        len == zc * xc,
        xc >= 2,
        zc >= 2,
    ensures
        len == xc * zc,
{
    assert(zc * xc == xc * zc) by (nonlinear_arith);
}

} // verus!
