//! Clipmap-style terrain meshes with fixed, hard-coded topology: an 8x8
//! center patch of unit cells around the origin, and one ring built from
//! four trapezoidal regions (right, left, top, bottom) that tile around the
//! center. Each region is tessellated independently as a row-major quad
//! grid; index values are offset by the vertices of all preceding regions,
//! so the whole ring indexes one combined vertex buffer. A renderer draws
//! the same ring at several levels, scaling positions by `2^level`; that
//! scaling is the backend's concern, only the topology is built here.

use vstd::prelude::*;
use crate::fixed::{Fx, FX_ONE};
use crate::vec3::Vec3Fx;
use crate::renderable::{Renderable, RenderableIndices, RenderableVertex, BaseVertex,
    NormalVertex, PrimitiveType};

verus! {

/// The center patch: an 8x8 vertex grid over `[-4, 3]^2` on the ground
/// plane, drawn as 49 quads of two triangles each.
pub struct TerrainMeshCenter;

/// The ring: right and left strips five and four columns wide spanning the
/// full depth, plus top and bottom strips over the remaining center width.
pub struct TerrainRing;

/// Vertex `k` sits at whole units `(x, 0, z)` and carries the flat upward
/// normal.
pub open spec fn patch_vertex_at<T: NormalVertex>(v: Seq<T>, k: int, x: int, z: int) -> bool {
    &&& v[k].position_of() == (Vec3Fx {
        x: Fx { raw: (x * (FX_ONE as int)) as i64 },
        y: Fx { raw: 0 },
        z: Fx { raw: (z * (FX_ONE as int)) as i64 },
    })
    &&& v[k].normal_of() == (Vec3Fx { x: Fx { raw: 0 }, y: Fx { raw: FX_ONE }, z: Fx { raw: 0 } })
}

/// A vertex slice holds the row-major grid `[x0, x0+w) x [z0, z0+d)`
/// starting at `base`.
pub open spec fn patch_vertices_ok<T: NormalVertex>(
    v: Seq<T>,
    base: int,
    x0: int,
    w: int,
    z0: int,
    d: int,
) -> bool {
    forall|a: int, b: int|
        0 <= a < w && 0 <= b < d ==> #[trigger] patch_vertex_at(v, base + a * d + b, x0 + a, z0 + b)
}

/// Entries `base + 6 (r cols + c) ..+6` hold quad `(r, c)`'s two triangles
/// `(tl, tl+1, tl+stride)` and `(tl+stride, tl+1, tl+stride+1)` with
/// `tl == offset + r * stride + c`.
pub open spec fn quad_ok(
    ind: Seq<u16>,
    base: int,
    r: int,
    c: int,
    cols: int,
    stride: int,
    offset: int,
) -> bool {
    let tl = offset + r * stride + c;
    let k = base + 6 * (r * cols + c);
    &&& ind[k] == tl
    &&& ind[k + 1] == tl + 1
    &&& ind[k + 2] == tl + stride
    &&& ind[k + 3] == tl + stride
    &&& ind[k + 4] == tl + 1
    &&& ind[k + 5] == tl + stride + 1
}

/// An index slice holds, from entry `base` on, the full `rows x cols` quad
/// grid over vertices `offset + r * stride + c`.
pub open spec fn patch_indices_ok(
    ind: Seq<u16>,
    base: int,
    rows: int,
    cols: int,
    stride: int,
    offset: int,
) -> bool {
    forall|r: int, c: int|
        0 <= r < rows && 0 <= c < cols ==> #[trigger] quad_ok(ind, base, r, c, cols, stride, offset)
}

/// An earlier (row, col) pair sits strictly before the current row-major
/// position.
proof fn lemma_flat_before(cols: int, r2: int, c2: int, r: int, c: int)
    requires
        cols >= 1,
        0 <= r2 < r,
        0 <= c2 < cols,
        c >= 0,
    ensures
        0 <= r2 * cols + c2,
        r2 * cols + c2 < r * cols + c,
{
    assert(0 <= r2 * cols + c2) by (nonlinear_arith)
        requires
            r2 >= 0,
            c2 >= 0,
            cols >= 1,
    ;
    assert(r2 * cols + c2 < r * cols + c) by (nonlinear_arith)
        requires
            cols >= 1,
            0 <= r2 < r,
            0 <= c2 < cols,
            c >= 0,
    ;
}

/// The largest entry a quad references stays below `rows * stride + cols`,
/// which itself stays small for the patch shapes used here.
proof fn lemma_tl_bound(rows: int, cols: int, stride: int, r: int, c: int)
    requires
        1 <= rows <= 16,
        1 <= cols <= 16,
        1 <= stride <= 16,
        0 <= r < rows,
        0 <= c < cols,
    ensures
        0 <= r * stride,
        r * stride + c + stride + 1 <= rows * stride + cols,
        rows * stride + cols <= 272,
{
    assert(rows * stride + cols <= 272) by (nonlinear_arith)
        requires
            1 <= rows <= 16,
            1 <= cols <= 16,
            1 <= stride <= 16,
    ;
    assert(0 <= r * stride) by (nonlinear_arith)
        requires
            r >= 0,
            stride >= 1,
    ;
    assert(r * stride + c + stride + 1 <= rows * stride + cols) by (nonlinear_arith)
        requires
            1 <= stride,
            0 <= r <= rows - 1,
            0 <= c <= cols - 1,
    ;
}

/// Appends the row-major vertex grid `[x0, x0+w) x [z0, z0+d)`.
fn push_patch_vertices<T: RenderableVertex>(v: &mut Vec<T>, x0: i64, w: i64, z0: i64, d: i64)
    requires
        -16 <= x0 <= 16,
        -16 <= z0 <= 16,
        1 <= w <= 16,
        1 <= d <= 16,
        old(v)@.len() <= 100000,
    ensures
        final(v)@.len() == old(v)@.len() + w * d,
        forall|k: int| 0 <= k < old(v)@.len() ==> #[trigger] final(v)@[k] == old(v)@[k],
        patch_vertices_ok(final(v)@, old(v)@.len() as int, x0 as int, w as int, z0 as int, d as int),
{
    let ghost base = v@.len() as int;
    let mut a: i64 = 0;
    while a < w
        invariant
            0 <= a <= w,
            -16 <= x0 <= 16 && -16 <= z0 <= 16,
            1 <= w <= 16 && 1 <= d <= 16,
            0 <= base <= 100000,
            v@.len() == base + a * d,
            forall|k: int| 0 <= k < base ==> #[trigger] v@[k] == old(v)@[k],
            forall|a2: int, b2: int|
                0 <= a2 < a && 0 <= b2 < d ==> #[trigger] patch_vertex_at(
                    v@,
                    base + a2 * d + b2,
                    x0 + a2,
                    z0 + b2,
                ),
        decreases w - a,
    {
        let mut b: i64 = 0;
        while b < d
            invariant
                0 <= b <= d,
                0 <= a < w,
                -16 <= x0 <= 16 && -16 <= z0 <= 16,
                1 <= w <= 16 && 1 <= d <= 16,
                0 <= base <= 100000,
                v@.len() == base + a * d + b,
                forall|k: int| 0 <= k < base ==> #[trigger] v@[k] == old(v)@[k],
                forall|a2: int, b2: int|
                    0 <= a2 < a && 0 <= b2 < d ==> #[trigger] patch_vertex_at(
                        v@,
                        base + a2 * d + b2,
                        x0 + a2,
                        z0 + b2,
                    ),
                forall|b2: int|
                    0 <= b2 < b ==> #[trigger] patch_vertex_at(
                        v@,
                        base + a * d + b2,
                        x0 + a,
                        z0 + b2,
                    ),
            decreases d - b,
        {
            let ghost before = v@;
            let mut vert = T::from_position(
                Fx { raw: (x0 + a) * FX_ONE },
                Fx { raw: 0 },
                Fx { raw: (z0 + b) * FX_ONE },
            );
            vert.set_normal(Fx { raw: 0 }, Fx { raw: FX_ONE }, Fx { raw: 0 });
            v.push(vert);
            proof {
                assert(forall|k: int| 0 <= k < before.len() ==> v@[k] == before[k]);
                assert(patch_vertex_at(v@, base + a * d + b, x0 + a, z0 + b));
                assert forall|a2: int, b2: int|
                    0 <= a2 < a && 0 <= b2 < d implies #[trigger] patch_vertex_at(
                    v@,
                    base + a2 * d + b2,
                    x0 + a2,
                    z0 + b2,
                ) by {
                    lemma_flat_before(d as int, a2, b2, a as int, b as int);
                    assert(patch_vertex_at(before, base + a2 * d + b2, x0 + a2, z0 + b2));
                    assert(v@[base + a2 * d + b2] == before[base + a2 * d + b2]);
                }
                assert forall|b2: int| 0 <= b2 < b implies #[trigger] patch_vertex_at(
                    v@,
                    base + a * d + b2,
                    x0 + a,
                    z0 + b2,
                ) by {
                    assert(patch_vertex_at(before, base + a * d + b2, x0 + a, z0 + b2));
                    assert(v@[base + a * d + b2] == before[base + a * d + b2]);
                }
            }
            b = b + 1;
        }
        a = a + 1;
        proof {
            assert((a - 1) * d + d == a * d) by (nonlinear_arith);
        }
    }
}

/// Appends a `rows x cols` quad grid over vertices `offset + r*stride + c`.
/// Every pushed index stays below `offset + rows * stride + cols`.
fn push_patch_indices(ind: &mut Vec<u16>, rows: u16, cols: u16, stride: u16, offset: u16)
    requires
        1 <= rows <= 16,
        1 <= cols <= 16,
        1 <= stride <= 16,
        offset <= 1000,
        old(ind)@.len() <= 100000,
    ensures
        final(ind)@.len() == old(ind)@.len() + 6 * (rows * cols),
        forall|k: int| 0 <= k < old(ind)@.len() ==> #[trigger] final(ind)@[k] == old(ind)@[k],
        patch_indices_ok(
            final(ind)@,
            old(ind)@.len() as int,
            rows as int,
            cols as int,
            stride as int,
            offset as int,
        ),
        forall|k: int|
            old(ind)@.len() <= k < final(ind)@.len() ==> #[trigger] final(ind)@[k] <= offset + rows
                * stride + cols,
{
    let ghost base = ind@.len() as int;
    let mut r: u16 = 0;
    while r < rows
        invariant
            0 <= r <= rows,
            1 <= rows <= 16 && 1 <= cols <= 16 && 1 <= stride <= 16,
            offset <= 1000,
            0 <= base <= 100000,
            ind@.len() == base + 6 * (r * cols),
            forall|k: int| 0 <= k < base ==> #[trigger] ind@[k] == old(ind)@[k],
            forall|r2: int, c2: int|
                0 <= r2 < r && 0 <= c2 < cols ==> #[trigger] quad_ok(
                    ind@,
                    base,
                    r2,
                    c2,
                    cols as int,
                    stride as int,
                    offset as int,
                ),
            forall|k: int|
                base <= k < ind@.len() ==> #[trigger] ind@[k] <= offset + rows * stride + cols,
        decreases rows - r,
    {
        let mut c: u16 = 0;
        while c < cols
            invariant
                0 <= c <= cols,
                0 <= r < rows,
                1 <= rows <= 16 && 1 <= cols <= 16 && 1 <= stride <= 16,
                offset <= 1000,
                0 <= base <= 100000,
                ind@.len() == base + 6 * (r * cols + c),
                forall|k: int| 0 <= k < base ==> #[trigger] ind@[k] == old(ind)@[k],
                forall|r2: int, c2: int|
                    0 <= r2 < r && 0 <= c2 < cols ==> #[trigger] quad_ok(
                        ind@,
                        base,
                        r2,
                        c2,
                        cols as int,
                        stride as int,
                        offset as int,
                    ),
                forall|c2: int|
                    0 <= c2 < c ==> #[trigger] quad_ok(
                        ind@,
                        base,
                        r as int,
                        c2,
                        cols as int,
                        stride as int,
                        offset as int,
                    ),
                forall|k: int|
                    base <= k < ind@.len() ==> #[trigger] ind@[k] <= offset + rows * stride + cols,
            decreases cols - c,
        {
            proof {
                lemma_tl_bound(rows as int, cols as int, stride as int, r as int, c as int);
            }
            let ghost before = ind@;
            let tl: u16 = offset + r * stride + c;
            ind.push(tl);
            ind.push(tl + 1);
            ind.push(tl + stride);
            ind.push(tl + stride);
            ind.push(tl + 1);
            ind.push(tl + stride + 1);
            proof {
                assert(forall|k: int| 0 <= k < before.len() ==> ind@[k] == before[k]);
                assert(quad_ok(
                    ind@,
                    base,
                    r as int,
                    c as int,
                    cols as int,
                    stride as int,
                    offset as int,
                ));
                assert forall|r2: int, c2: int|
                    0 <= r2 < r && 0 <= c2 < cols implies #[trigger] quad_ok(
                    ind@,
                    base,
                    r2,
                    c2,
                    cols as int,
                    stride as int,
                    offset as int,
                ) by {
                    lemma_flat_before(cols as int, r2, c2, r as int, c as int);
                    assert(quad_ok(
                        before,
                        base,
                        r2,
                        c2,
                        cols as int,
                        stride as int,
                        offset as int,
                    ));
                    let k2 = base + 6 * (r2 * cols as int + c2);
                    assert(ind@[k2] == before[k2]);
                    assert(ind@[k2 + 1] == before[k2 + 1]);
                    assert(ind@[k2 + 2] == before[k2 + 2]);
                    assert(ind@[k2 + 3] == before[k2 + 3]);
                    assert(ind@[k2 + 4] == before[k2 + 4]);
                    assert(ind@[k2 + 5] == before[k2 + 5]);
                }
                assert forall|c2: int| 0 <= c2 < c implies #[trigger] quad_ok(
                    ind@,
                    base,
                    r as int,
                    c2,
                    cols as int,
                    stride as int,
                    offset as int,
                ) by {
                    assert(quad_ok(
                        before,
                        base,
                        r as int,
                        c2,
                        cols as int,
                        stride as int,
                        offset as int,
                    ));
                    let k2 = base + 6 * (r as int * cols as int + c2);
                    assert(ind@[k2] == before[k2]);
                    assert(ind@[k2 + 1] == before[k2 + 1]);
                    assert(ind@[k2 + 2] == before[k2 + 2]);
                    assert(ind@[k2 + 3] == before[k2 + 3]);
                    assert(ind@[k2 + 4] == before[k2 + 4]);
                    assert(ind@[k2 + 5] == before[k2 + 5]);
                }
            }
            c = c + 1;
        }
        r = r + 1;
        proof {
            assert((r - 1) * cols + cols == r * cols) by (nonlinear_arith);
        }
    }
}

impl TerrainMeshCenter {
    /// The 64 center-patch vertices: `x` and `z` each sweep `[-4, 3]`,
    /// row-major in `x`, every vertex carrying the flat upward normal.
    pub fn build_vertex_array<T: RenderableVertex>(&self) -> (v: Vec<T>)
        ensures
            v@.len() == 64,
            patch_vertices_ok(v@, 0, -4, 8, -4, 8),
    {
        let mut v: Vec<T> = Vec::new();
        push_patch_vertices(&mut v, -4, 8, -4, 8);
        v
    }

    /// The 49 quads of the center patch as a triangle list; every index
    /// addresses one of the 64 vertices.
    pub fn build_index_buffer(&self) -> (ind: Vec<u16>)
        ensures
            ind@.len() == 294,
            patch_indices_ok(ind@, 0, 7, 7, 8, 0),
            forall|k: int| 0 <= k < ind@.len() ==> #[trigger] ind@[k] < 64,
    {
        let mut ind: Vec<u16> = Vec::new();
        push_patch_indices(&mut ind, 7, 7, 8, 0);
        ind
    }
}

impl TerrainRing {
    /// The 207 ring vertices in four row-major regions: right `[3,8)` and
    /// left `[-7,-3)` spanning the full depth `[-7,8)`, then top `[3,8)`
    /// and bottom `[-7,-3)` in depth over the center width `[-4,4)`.
    pub fn build_vertex_array<T: RenderableVertex>(&self) -> (v: Vec<T>)
        ensures
            v@.len() == 207,
            patch_vertices_ok(v@, 0, 3, 5, -7, 15),
            patch_vertices_ok(v@, 75, -7, 4, -7, 15),
            patch_vertices_ok(v@, 135, -4, 8, 3, 5),
            patch_vertices_ok(v@, 175, -4, 8, -7, 4),
    {
        let mut v: Vec<T> = Vec::new();
        push_patch_vertices(&mut v, 3, 5, -7, 15);
        let ghost v1 = v@;
        push_patch_vertices(&mut v, -7, 4, -7, 15);
        let ghost v2 = v@;
        push_patch_vertices(&mut v, -4, 8, 3, 5);
        let ghost v3 = v@;
        push_patch_vertices(&mut v, -4, 8, -7, 4);
        proof {
            assert forall|a: int, b: int|
                0 <= a < 5 && 0 <= b < 15 implies #[trigger] patch_vertex_at(
                v@,
                0 + a * 15 + b,
                3 + a,
                -7 + b,
            ) by {
                assert(patch_vertex_at(v1, 0 + a * 15 + b, 3 + a, -7 + b));
            }
            assert forall|a: int, b: int|
                0 <= a < 4 && 0 <= b < 15 implies #[trigger] patch_vertex_at(
                v@,
                75 + a * 15 + b,
                -7 + a,
                -7 + b,
            ) by {
                assert(patch_vertex_at(v2, 75 + a * 15 + b, -7 + a, -7 + b));
            }
            assert forall|a: int, b: int|
                0 <= a < 8 && 0 <= b < 5 implies #[trigger] patch_vertex_at(
                v@,
                135 + a * 5 + b,
                -4 + a,
                3 + b,
            ) by {
                assert(patch_vertex_at(v3, 135 + a * 5 + b, -4 + a, 3 + b));
            }
        }
        v
    }

    /// The ring's 147 quads as a triangle list, one region after another,
    /// each region's indices offset by the vertices of all preceding
    /// regions; every index addresses one of the 207 ring vertices.
    pub fn build_index_buffer(&self) -> (ind: Vec<u16>)
        ensures
            ind@.len() == 882,
            patch_indices_ok(ind@, 0, 4, 14, 15, 0),
            patch_indices_ok(ind@, 336, 3, 14, 15, 75),
            patch_indices_ok(ind@, 588, 7, 4, 5, 135),
            patch_indices_ok(ind@, 756, 7, 3, 4, 175),
            forall|k: int| 0 <= k < ind@.len() ==> #[trigger] ind@[k] < 207,
    {
        let mut ind: Vec<u16> = Vec::new();
        push_patch_indices(&mut ind, 4, 14, 15, 0);
        let ghost i1 = ind@;
        push_patch_indices(&mut ind, 3, 14, 15, 75);
        let ghost i2 = ind@;
        push_patch_indices(&mut ind, 7, 4, 5, 135);
        let ghost i3 = ind@;
        push_patch_indices(&mut ind, 7, 3, 4, 175);
        proof {
            assert forall|r: int, c: int|
                0 <= r < 4 && 0 <= c < 14 implies #[trigger] quad_ok(ind@, 0, r, c, 14, 15, 0) by {
                lemma_flat_before(14, r, c, 4, 0);
                assert(quad_ok(i1, 0, r, c, 14, 15, 0));
            }
            assert forall|r: int, c: int|
                0 <= r < 3 && 0 <= c < 14 implies #[trigger] quad_ok(ind@, 336, r, c, 14, 15, 75)
                by {
                lemma_flat_before(14, r, c, 3, 0);
                assert(quad_ok(i2, 336, r, c, 14, 15, 75));
            }
            assert forall|r: int, c: int|
                0 <= r < 7 && 0 <= c < 4 implies #[trigger] quad_ok(ind@, 588, r, c, 4, 5, 135) by {
                lemma_flat_before(4, r, c, 7, 0);
                assert(quad_ok(i3, 588, r, c, 4, 5, 135));
            }
        }
        ind
    }
}

impl Renderable for TerrainMeshCenter {
    open spec fn spec_wf(&self) -> bool {
        true
    }

    open spec fn spec_vertex_count(&self) -> int {
        64
    }

    fn get_vertex_array<T: RenderableVertex>(&self) -> (v: Vec<T>)
        ensures
            patch_vertices_ok(v@, 0, -4, 8, -4, 8),
    {
        self.build_vertex_array()
    }

    fn get_indices(&self) -> (r: RenderableIndices)
        ensures
            (match r {
                RenderableIndices::Buffer(v, p) => v@.len() == 294 && patch_indices_ok(
                    v@,
                    0,
                    7,
                    7,
                    8,
                    0,
                ) && p == PrimitiveType::TrianglesList,
                RenderableIndices::Implicit(_) => false,
            }),
    {
        RenderableIndices::Buffer(self.build_index_buffer(), PrimitiveType::TrianglesList)
    }
}

impl Renderable for TerrainRing {
    open spec fn spec_wf(&self) -> bool {
        true
    }

    open spec fn spec_vertex_count(&self) -> int {
        207
    }

    fn get_vertex_array<T: RenderableVertex>(&self) -> (v: Vec<T>)
        ensures
            patch_vertices_ok(v@, 0, 3, 5, -7, 15),
            patch_vertices_ok(v@, 75, -7, 4, -7, 15),
            patch_vertices_ok(v@, 135, -4, 8, 3, 5),
            patch_vertices_ok(v@, 175, -4, 8, -7, 4),
    {
        self.build_vertex_array()
    }

    fn get_indices(&self) -> (r: RenderableIndices)
        ensures
            (match r {
                RenderableIndices::Buffer(v, p) => v@.len() == 882 && patch_indices_ok(
                    v@,
                    0,
                    4,
                    14,
                    15,
                    0,
                ) && patch_indices_ok(v@, 336, 3, 14, 15, 75) && patch_indices_ok(
                    v@,
                    588,
                    7,
                    4,
                    5,
                    135,
                ) && patch_indices_ok(v@, 756, 7, 3, 4, 175) && p
                    == PrimitiveType::TrianglesList,
                RenderableIndices::Implicit(_) => false,
            }),
    {
        RenderableIndices::Buffer(self.build_index_buffer(), PrimitiveType::TrianglesList)
    }
}

} // verus!
