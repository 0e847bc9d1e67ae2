//! A sphere approximated by recursively subdividing an icosahedron: the 12
//! golden-ratio vertices are normalized onto the unit sphere and connected
//! by a fixed list of 20 faces; each subdivision replaces every face with 4
//! faces, normalizing the three edge midpoints back onto the sphere. Faces
//! are not vertex-shared: the vertex stream emits 3 vertices per face, and
//! each vertex's outward normal is its own position.

use vstd::prelude::*;
use vstd::arithmetic::div_mod::{lemma_fundamental_div_mod, lemma_fundamental_div_mod_converse};
use crate::fixed::{Fx, FX_ONE, div_trunc};
use crate::vec3::{Vec3Fx, comps_within};
use crate::unit::{on_unit_sphere, onto_unit_sphere, onto_unit_sphere_spec};
use crate::error::GeometryError;
use crate::renderable::{Renderable, RenderableIndices, RenderableVertex, BaseVertex,
    NormalVertex, PrimitiveType};

verus! {

/// One triangular face: three world-space points.
#[derive(Clone, Copy, PartialEq, Eq, Structural, Debug)]
pub struct Face {
    pub v1: Vec3Fx,
    pub v2: Vec3Fx,
    pub v3: Vec3Fx,
}

/// Powers of four, counting the faces each subdivision multiplies.
pub open spec fn pow4(n: nat) -> nat
    decreases n,
{
    if n == 0 {
        1
    } else {
        4 * pow4((n - 1) as nat)
    }
}

/// `pow4` grows monotonically.
proof fn lemma_pow4_mono(i: nat, j: nat)
    requires
        i <= j,
    ensures
        pow4(i) <= pow4(j),
    decreases j,
{
    if i < j {
        lemma_pow4_mono(i, (j - 1) as nat);
        assert(pow4(j) == 4 * pow4((j - 1) as nat));
    }
}

/// All three corners lie on the unit sphere.
pub open spec fn face_on_sphere(f: Face) -> bool {
    &&& on_unit_sphere(f.v1)
    &&& on_unit_sphere(f.v2)
    &&& on_unit_sphere(f.v3)
}

/// The componentwise midpoint of two points, truncated toward zero.
pub open spec fn midpoint_spec(p: Vec3Fx, q: Vec3Fx) -> Vec3Fx {
    Vec3Fx {
        x: Fx { raw: div_trunc(p.x.raw + q.x.raw, 2) as i64 },
        y: Fx { raw: div_trunc(p.y.raw + q.y.raw, 2) as i64 },
        z: Fx { raw: div_trunc(p.z.raw + q.z.raw, 2) as i64 },
    }
}

/// An edge midpoint projected back onto the unit sphere.
pub open spec fn edge_point(p: Vec3Fx, q: Vec3Fx) -> Vec3Fx {
    onto_unit_sphere_spec(midpoint_spec(p, q))
}

/// The `j`-th (0..4) face replacing face `f` under subdivision: the three
/// normalized edge midpoints form the central face, and each corner keeps
/// a face with its two adjacent midpoints.
pub open spec fn sub_face(f: Face, j: int) -> Face {
    let a = edge_point(f.v1, f.v2);
    let b = edge_point(f.v2, f.v3);
    let c = edge_point(f.v1, f.v3);
    if j == 0 {
        Face { v1: a, v2: b, v3: c }
    } else if j == 1 {
        Face { v1: f.v1, v2: a, v3: c }
    } else if j == 2 {
        Face { v1: a, v2: b, v3: f.v2 }
    } else {
        Face { v1: c, v2: b, v3: f.v3 }
    }
}

/// One whole subdivision round: face `k/4` of the old list contributes the
/// `k%4`-th replacement face.
pub open spec fn subdivided_seq(s: Seq<Face>) -> Seq<Face> {
    Seq::new(4 * s.len(), |k: int| sub_face(s[k / 4], k % 4))
}

/// The golden ratio `(1 + sqrt 5) / 2` in Q31.32.
pub const GOLDEN_RATIO_FX: i64 = 0x1_9E37_79B9;

/// One icosahedron vertex: the raw point `(x, y, z)` projected onto the
/// unit sphere.
pub open spec fn ico_point(x: int, y: int, z: int) -> Vec3Fx {
    onto_unit_sphere_spec(
        Vec3Fx { x: Fx { raw: x as i64 }, y: Fx { raw: y as i64 }, z: Fx { raw: z as i64 } },
    )
}

/// The fixed 20-face icosahedron over the 12 golden-ratio vertices
/// `(0, +-t, +-1)`, `(+-1, 0, +-t)`, `(+-t, +-1, 0)`.
pub open spec fn icosahedron_faces() -> Seq<Face> {
    let t = GOLDEN_RATIO_FX as int;
    let one = FX_ONE as int;
    let p0 = ico_point(0, t, one);
    let p1 = ico_point(0, t, -one);
    let p2 = ico_point(0, -t, one);
    let p3 = ico_point(0, -t, -one);
    let p4 = ico_point(-one, 0, -t);
    let p5 = ico_point(one, 0, -t);
    let p6 = ico_point(one, 0, t);
    let p7 = ico_point(-one, 0, t);
    let p8 = ico_point(-t, one, 0);
    let p9 = ico_point(-t, -one, 0);
    let p10 = ico_point(t, one, 0);
    let p11 = ico_point(t, -one, 0);
    seq![
        Face { v1: p1, v2: p10, v3: p5 },
        Face { v1: p1, v2: p5, v3: p4 },
        Face { v1: p1, v2: p8, v3: p4 },
        Face { v1: p1, v2: p8, v3: p0 },
        Face { v1: p1, v2: p0, v3: p10 },
        Face { v1: p7, v2: p0, v3: p6 },
        Face { v1: p7, v2: p6, v3: p2 },
        Face { v1: p7, v2: p2, v3: p9 },
        Face { v1: p7, v2: p9, v3: p8 },
        Face { v1: p7, v2: p8, v3: p0 },
        Face { v1: p11, v2: p10, v3: p5 },
        Face { v1: p11, v2: p5, v3: p3 },
        Face { v1: p11, v2: p3, v3: p2 },
        Face { v1: p11, v2: p2, v3: p6 },
        Face { v1: p11, v2: p6, v3: p10 },
        Face { v1: p0, v2: p6, v3: p10 },
        Face { v1: p8, v2: p4, v3: p9 },
        Face { v1: p9, v2: p4, v3: p3 },
        Face { v1: p9, v2: p3, v3: p2 },
        Face { v1: p4, v2: p3, v3: p5 },
    ]
}

/// The face list at a given subdivision level: the icosahedron, subdivided
/// that many times. `IsoSphere::new` is a pure function of its argument.
pub open spec fn sphere_faces(level: nat) -> Seq<Face>
    decreases level,
{
    if level == 0 {
        icosahedron_faces()
    } else {
        subdivided_seq(sphere_faces((level - 1) as nat))
    }
}

/// The subdivided icosahedron.
#[derive(Debug)]
pub struct IsoSphere {
    pub faces: Vec<Face>,
}

impl IsoSphere {
    /// Every stored face lies on the unit sphere.
    pub open spec fn wf(self) -> bool {
        forall|i: int| 0 <= i < self.faces@.len() ==> face_on_sphere(#[trigger] self.faces@[i])
    }

    /// The stored faces.
    pub open spec fn spec_faces(self) -> Seq<Face> {
        self.faces@
    }

    /// Builds the sphere at the given subdivision level: exactly the face
    /// list `sphere_faces(subdivide_count)`, `20 * 4^subdivide_count` faces
    /// long, every corner on the unit sphere. Levels above 5 would emit
    /// more than 65536 vertices when flattened and are rejected.
    pub fn new(subdivide_count: u8) -> (r: Result<IsoSphere, GeometryError>)
        ensures
            r is Ok <==> subdivide_count <= 5,
            subdivide_count > 5 ==> r == Result::<IsoSphere, GeometryError>::Err(
                GeometryError::TooManyVertices,
            ),
            r is Ok ==> {
                let s = r->Ok_0;
                &&& s.wf()
                &&& s.spec_faces() == sphere_faces(subdivide_count as nat)
                &&& s.spec_faces().len() == 20 * pow4(subdivide_count as nat)
            },
    {
        if subdivide_count > 5 {
            return Err(GeometryError::TooManyVertices);
        }
        let mut sphere = IsoSphere { faces: Vec::new() };
        sphere.generate_icosahedron();
        let mut k: u8 = 0;
        while k < subdivide_count
            invariant
                k <= subdivide_count <= 5,
                sphere.wf(),
                sphere.faces@ == sphere_faces(k as nat),
                sphere.faces@.len() == 20 * pow4(k as nat),
            decreases subdivide_count - k,
        {
            proof {
                lemma_pow4_mono(k as nat, 4);
                reveal_with_fuel(pow4, 6);
            }
            sphere.subdivide_faces();
            k = k + 1;
            proof {
                assert(pow4(k as nat) == 4 * pow4((k - 1) as nat));
                assert(sphere_faces(k as nat) == subdivided_seq(sphere_faces((k - 1) as nat)));
            }
        }
        Ok(sphere)
    }

    /// Flattens the faces into a vertex stream, 3 vertices per face in
    /// face order, each vertex's normal equal to its position.
    pub fn faces_to_vertex_array<T: RenderableVertex>(&self) -> (v: Vec<T>)
        ensures
            v@.len() == 3 * self.spec_faces().len(),
            forall|k: int|
                0 <= k < self.spec_faces().len() ==> {
                    let f = #[trigger] self.spec_faces()[k];
                    &&& v@[3 * k].position_of() == f.v1 && v@[3 * k].normal_of() == f.v1
                    &&& v@[3 * k + 1].position_of() == f.v2 && v@[3 * k + 1].normal_of() == f.v2
                    &&& v@[3 * k + 2].position_of() == f.v3 && v@[3 * k + 2].normal_of() == f.v3
                },
    {
        let mut v: Vec<T> = Vec::new();
        let n = self.faces.len();
        let mut i: usize = 0;
        while i < n
            invariant
                i <= n,
                n == self.faces@.len(),
                v@.len() == 3 * i,
                forall|k: int|
                    0 <= k < i ==> {
                        let f = #[trigger] self.faces@[k];
                        &&& v@[3 * k].position_of() == f.v1 && v@[3 * k].normal_of() == f.v1
                        &&& v@[3 * k + 1].position_of() == f.v2 && v@[3 * k + 1].normal_of()
                            == f.v2
                        &&& v@[3 * k + 2].position_of() == f.v3 && v@[3 * k + 2].normal_of()
                            == f.v3
                    },
            decreases n - i,
        {
            let ghost before = v@;
            let f = self.faces[i];
            v.push(Self::vertex_from_vec(f.v1));
            v.push(Self::vertex_from_vec(f.v2));
            v.push(Self::vertex_from_vec(f.v3));
            proof {
                assert(forall|j: int| 0 <= j < before.len() ==> v@[j] == before[j]);
            }
            i = i + 1;
        }
        v
    }

    /// One vertex whose position and outward normal are the same point of
    /// the sphere.
    fn vertex_from_vec<T: NormalVertex>(p: Vec3Fx) -> (v: T)
        ensures
            v.position_of() == p,
            v.normal_of() == p,
    {
        let mut v = T::from_position(p.x, p.y, p.z);
        v.set_normal(p.x, p.y, p.z);
        v
    }

    /// Replaces every face with its four `sub_face` replacements, in face
    /// order.
    fn subdivide_faces(&mut self)
        requires
            old(self).wf(),
            old(self).faces@.len() <= 0x1000_0000,
        ensures
            final(self).wf(),
            final(self).faces@ == subdivided_seq(old(self).faces@),
            final(self).faces@.len() == 4 * old(self).faces@.len(),
    {
        let mut new_faces: Vec<Face> = Vec::new();
        let n = self.faces.len();
        let mut i: usize = 0;
        while i < n
            invariant
                i <= n,
                n == self.faces@.len() <= 0x1000_0000,
                new_faces@.len() == 4 * i,
                forall|j: int| 0 <= j < n ==> face_on_sphere(#[trigger] self.faces@[j]),
                forall|k: int|
                    0 <= k < 4 * i ==> #[trigger] new_faces@[k] == sub_face(
                        self.faces@[k / 4],
                        k % 4,
                    ),
                forall|k: int| 0 <= k < 4 * i ==> face_on_sphere(#[trigger] new_faces@[k]),
            decreases n - i,
        {
            let ghost before = new_faces@;
            let f = self.faces[i];
            let a = midpoint_on_sphere(f.v1, f.v2);
            let b = midpoint_on_sphere(f.v2, f.v3);
            let c = midpoint_on_sphere(f.v1, f.v3);
            new_faces.push(Face { v1: a, v2: b, v3: c });
            new_faces.push(Face { v1: f.v1, v2: a, v3: c });
            new_faces.push(Face { v1: a, v2: b, v3: f.v2 });
            new_faces.push(Face { v1: c, v2: b, v3: f.v3 });
            proof {
                assert(forall|j: int| 0 <= j < before.len() ==> new_faces@[j] == before[j]);
                assert forall|k: int| 0 <= k < 4 * (i + 1) implies #[trigger] new_faces@[k]
                    == sub_face(self.faces@[k / 4], k % 4) by {
                    lemma_fundamental_div_mod(k, 4);
                    if k < 4 * i {
                        assert(before[k] == sub_face(self.faces@[k / 4], k % 4));
                    } else {
                        lemma_fundamental_div_mod_converse(k, 4, i as int, k - 4 * i);
                    }
                }
            }
            i = i + 1;
        }
        proof {
            assert(new_faces@ =~= subdivided_seq(self.faces@));
        }
        self.faces = new_faces;
    }

    /// The 12 icosahedron vertices from the golden ratio, projected onto
    /// the unit sphere, connected by the fixed list of 20 faces; any prior
    /// face list is replaced.
    fn generate_icosahedron(&mut self)
        ensures
            final(self).wf(),
            final(self).faces@ == icosahedron_faces(),
            final(self).faces@.len() == 20,
    {
        let one: i64 = FX_ONE;
        let t: i64 = GOLDEN_RATIO_FX;
        let p0 = unit_from_raw(0, t, one);
        let p1 = unit_from_raw(0, t, -one);
        let p2 = unit_from_raw(0, -t, one);
        let p3 = unit_from_raw(0, -t, -one);
        let p4 = unit_from_raw(-one, 0, -t);
        let p5 = unit_from_raw(one, 0, -t);
        let p6 = unit_from_raw(one, 0, t);
        let p7 = unit_from_raw(-one, 0, t);
        let p8 = unit_from_raw(-t, one, 0);
        let p9 = unit_from_raw(-t, -one, 0);
        let p10 = unit_from_raw(t, one, 0);
        let p11 = unit_from_raw(t, -one, 0);
        let mut faces: Vec<Face> = Vec::new();
        faces.push(Face { v1: p1, v2: p10, v3: p5 });
        faces.push(Face { v1: p1, v2: p5, v3: p4 });
        faces.push(Face { v1: p1, v2: p8, v3: p4 });
        faces.push(Face { v1: p1, v2: p8, v3: p0 });
        faces.push(Face { v1: p1, v2: p0, v3: p10 });
        faces.push(Face { v1: p7, v2: p0, v3: p6 });
        faces.push(Face { v1: p7, v2: p6, v3: p2 });
        faces.push(Face { v1: p7, v2: p2, v3: p9 });
        faces.push(Face { v1: p7, v2: p9, v3: p8 });
        faces.push(Face { v1: p7, v2: p8, v3: p0 });
        faces.push(Face { v1: p11, v2: p10, v3: p5 });
        faces.push(Face { v1: p11, v2: p5, v3: p3 });
        faces.push(Face { v1: p11, v2: p3, v3: p2 });
        faces.push(Face { v1: p11, v2: p2, v3: p6 });
        faces.push(Face { v1: p11, v2: p6, v3: p10 });
        faces.push(Face { v1: p0, v2: p6, v3: p10 });
        faces.push(Face { v1: p8, v2: p4, v3: p9 });
        faces.push(Face { v1: p9, v2: p4, v3: p3 });
        faces.push(Face { v1: p9, v2: p3, v3: p2 });
        faces.push(Face { v1: p4, v2: p3, v3: p5 });
        proof {
            assert(faces@ =~= icosahedron_faces());
        }
        self.faces = faces;
    }
}

/// The truncated midpoint of an edge, projected back onto the unit sphere.
fn midpoint_on_sphere(p: Vec3Fx, q: Vec3Fx) -> (r: Vec3Fx)
    requires
        comps_within(p, FX_ONE as int),
        comps_within(q, FX_ONE as int),
    ensures
        r == edge_point(p, q),
        on_unit_sphere(r),
{
    let m = Vec3Fx { x: p.x.add(q.x).half(), y: p.y.add(q.y).half(), z: p.z.add(q.z).half() };
    onto_unit_sphere(m)
}

/// A raw point projected onto the unit sphere, under the same name its
/// specification uses.
fn unit_from_raw(x: i64, y: i64, z: i64) -> (r: Vec3Fx)
    requires
        -0x2_0000_0000 <= x <= 0x2_0000_0000,
        -0x2_0000_0000 <= y <= 0x2_0000_0000,
        -0x2_0000_0000 <= z <= 0x2_0000_0000,
    ensures
        r == ico_point(x as int, y as int, z as int),
        on_unit_sphere(r),
{
    onto_unit_sphere(Vec3Fx { x: Fx { raw: x }, y: Fx { raw: y }, z: Fx { raw: z } })
}

impl Renderable for IsoSphere {
    open spec fn spec_wf(&self) -> bool {
        self.wf()
    }

    open spec fn spec_vertex_count(&self) -> int {
        3 * self.faces@.len() as int
    }

    fn get_vertex_array<T: RenderableVertex>(&self) -> (v: Vec<T>)
        ensures
            forall|k: int|
                0 <= k < self.spec_faces().len() ==> {
                    let f = #[trigger] self.spec_faces()[k];
                    &&& v@[3 * k].position_of() == f.v1 && v@[3 * k].normal_of() == f.v1
                    &&& v@[3 * k + 1].position_of() == f.v2 && v@[3 * k + 1].normal_of() == f.v2
                    &&& v@[3 * k + 2].position_of() == f.v3 && v@[3 * k + 2].normal_of() == f.v3
                },
    {
        self.faces_to_vertex_array()
    }

    fn get_indices(&self) -> (r: RenderableIndices)
        ensures
            r == RenderableIndices::Implicit(PrimitiveType::TrianglesList),
    {
        RenderableIndices::Implicit(PrimitiveType::TrianglesList)
    }
}

} // verus!
