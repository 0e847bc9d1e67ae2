//! The backend-agnostic renderable contract: a generator exposes a vertex
//! buffer and an index descriptor, and a rendering backend consumes exactly
//! this pair without inspecting generator internals.

use vstd::prelude::*;
use crate::fixed::Fx;
use crate::vec3::Vec3Fx;

verus! {

/// How a vertex stream is interpreted by the backend.
#[derive(Clone, Copy, PartialEq, Eq, Structural, Debug)]
pub enum PrimitiveType {
    Points,
    TrianglesList,
    TriangleStrip,
    LineStrip,
}

/// An index descriptor: either the vertex stream is drawn directly under a
/// primitive topology (implicit), or an explicit ordered list of 16-bit
/// indices selects vertices.
pub enum RenderableIndices {
    Implicit(PrimitiveType),
    Buffer(Vec<u16>, PrimitiveType),
}

impl RenderableIndices {
    /// Every explicit index addresses a vertex of a buffer of `count`
    /// vertices; implicit streams are always valid.
    pub open spec fn valid_for(self, count: int) -> bool {
        match self {
            RenderableIndices::Implicit(_) => true,
            RenderableIndices::Buffer(ind, _) => forall|k: int|
                0 <= k < ind@.len() ==> (#[trigger] ind@[k]) < count,
        }
    }
}

/// A vertex a generator can emit: constructible from a position.
pub trait BaseVertex: Sized + Copy {
    /// The position carried by this vertex.
    spec fn position_of(self) -> Vec3Fx;

    /// Builds a vertex at the given position.
    fn from_position(x: Fx, y: Fx, z: Fx) -> (v: Self)
        ensures
            v.position_of() == (Vec3Fx { x, y, z }),
    ;
}

/// A vertex that additionally carries a normal.
pub trait NormalVertex: BaseVertex {
    /// The normal carried by this vertex.
    spec fn normal_of(self) -> Vec3Fx;

    /// Overwrites the normal, leaving the position unchanged.
    fn set_normal(&mut self, x: Fx, y: Fx, z: Fx)
        ensures
            final(self).normal_of() == (Vec3Fx { x, y, z }),
            final(self).position_of() == old(self).position_of(),
    ;
}

/// A vertex type a rendering backend can upload.
pub trait RenderableVertex: NormalVertex + Send + 'static {

}

/// The sole coupling point between a generator and a rendering backend:
/// a vertex buffer of the requested shape, and an index descriptor whose
/// indices are all valid for that buffer.
pub trait Renderable {
    /// Internal consistency of the generator's stored geometry.
    spec fn spec_wf(&self) -> bool;

    /// How many vertices the generator emits.
    spec fn spec_vertex_count(&self) -> int;

    /// The vertex buffer, one vertex per emitted position.
    fn get_vertex_array<T: RenderableVertex>(&self) -> (v: Vec<T>)
        requires
            self.spec_wf(),
        ensures
            v@.len() == self.spec_vertex_count(),
    ;

    /// The index descriptor; every explicit index lies below the vertex
    /// count, so the pair can be drawn as-is.
    fn get_indices(&self) -> (r: RenderableIndices)
        requires
            self.spec_wf(),
        ensures
            r.valid_for(self.spec_vertex_count()),
    ;
}

/// The constant upward normal injected for flat meshes.
pub open spec fn up_normal() -> Vec3Fx {
    Vec3Fx { x: Fx { raw: 0 }, y: Fx { raw: crate::fixed::FX_ONE }, z: Fx { raw: 0 } }
}

/// A plain vertex holding a position and a normal.
#[derive(Clone, Copy, PartialEq, Eq, Structural, Debug)]
pub struct Vertex {
    pub position: Vec3Fx,
    pub normal: Vec3Fx,
}

impl BaseVertex for Vertex {
    open spec fn position_of(self) -> Vec3Fx {
        self.position
    }

    fn from_position(x: Fx, y: Fx, z: Fx) -> (v: Self) {
        Vertex { position: Vec3Fx { x, y, z }, normal: Vec3Fx { x, y, z } }
    }
}

impl NormalVertex for Vertex {
    open spec fn normal_of(self) -> Vec3Fx {
        self.normal
    }

    fn set_normal(&mut self, x: Fx, y: Fx, z: Fx) {
        self.normal = Vec3Fx { x, y, z };
    }
}

impl RenderableVertex for Vertex {

}

} // verus!
