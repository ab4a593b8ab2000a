//! Drawable primitives and the renderer's output value.
//!
//! The output of a render call is an ordered list of primitives — a vertex
//! mesh, a rounded rectangle, or a filled circle — together with the
//! rectangle the host should claim for passive hover interaction.

use vstd::prelude::*;

use crate::geometry::Color;
use crate::geometry::Region;

verus! {

/// A mesh vertex: an integer position carrying its own color.
#[derive(Clone, Copy, Debug, PartialEq, Eq, Structural)]
pub struct Vertex {
    pub x: i32,
    pub y: i32,
    pub color: Color,
}

/// A triangle mesh given as a vertex list and a list of vertex indices,
/// three per triangle.
#[derive(Clone, Debug, PartialEq)]
pub struct Mesh {
    pub vertices: Vec<Vertex>,
    pub indices: Vec<u32>,
}

/// The mathematical model of a mesh.
#[verifier::ext_equal]
pub ghost struct MeshModel {
    pub vertices: Seq<Vertex>,
    pub indices: Seq<u32>,
}

impl View for Mesh {
    type V = MeshModel;

    open spec fn view(&self) -> MeshModel {
        MeshModel { vertices: self.vertices@, indices: self.indices@ }
    }
}

/// A filled rounded rectangle with no stroke.
#[derive(Clone, Copy, Debug, PartialEq, Eq, Structural)]
pub struct RoundedRect {
    pub rect: Region,
    pub corner_radius: u32,
    pub fill: Color,
}

/// A filled circle with no stroke.
#[derive(Clone, Copy, Debug, PartialEq, Eq, Structural)]
pub struct CircleShape {
    pub center_x: i32,
    pub center_y: i32,
    pub radius: i32,
    pub fill: Color,
}

/// One drawable primitive.
#[derive(Clone, Debug, PartialEq)]
pub enum Primitive {
    Mesh(Mesh),
    RoundedRect(RoundedRect),
    Circle(CircleShape),
}

/// The mathematical model of a primitive.
pub ghost enum PrimitiveModel {
    Mesh(MeshModel),
    RoundedRect(RoundedRect),
    Circle(CircleShape),
}

impl View for Primitive {
    type V = PrimitiveModel;

    open spec fn view(&self) -> PrimitiveModel {
        match self {
            Primitive::Mesh(m) => PrimitiveModel::Mesh(m@),
            Primitive::RoundedRect(r) => PrimitiveModel::RoundedRect(*r),
            Primitive::Circle(c) => PrimitiveModel::Circle(*c),
        }
    }
}

/// What one render call hands back to the host: the primitives to draw, in
/// order, and the rectangle to claim for passive hover interaction.
#[derive(Clone, Debug, PartialEq)]
pub struct RenderOutput {
    pub primitives: Vec<Primitive>,
    pub claim: Region,
}

/// The mathematical model of a render output.
#[verifier::ext_equal]
pub ghost struct OutputModel {
    pub primitives: Seq<PrimitiveModel>,
    pub claim: Region,
}

impl View for RenderOutput {
    type V = OutputModel;

    open spec fn view(&self) -> OutputModel {
        OutputModel {
            primitives: self.primitives@.map_values(|p: Primitive| p@),
            claim: self.claim,
        }
    }
}

/// Whether every coordinate of the primitive lies within `region`,
/// boundary included.
pub open spec fn prim_in_region(p: PrimitiveModel, region: Region) -> bool {
    match p {
        PrimitiveModel::Mesh(m) => forall|i: int|
            0 <= i < m.vertices.len() ==> region.contains_point(
                #[trigger] m.vertices[i].x as int,
                m.vertices[i].y as int,
            ),
        PrimitiveModel::RoundedRect(r) => region.contains_region(r.rect),
        PrimitiveModel::Circle(c) => {
            &&& region.left <= c.center_x - c.radius
            &&& c.center_x + c.radius <= region.right
            &&& region.top <= c.center_y - c.radius
            &&& c.center_y + c.radius <= region.bottom
        },
    }
}

/// Whether the primitive has strictly positive extent: a rectangle with a
/// real interior, a circle with a positive radius, or a mesh whose vertices
/// span more than a single point in both axes.
pub open spec fn prim_positive_extent(p: PrimitiveModel) -> bool {
    match p {
        PrimitiveModel::Mesh(m) => {
            &&& m.vertices.len() > 0
            &&& exists|i: int|
                #![trigger m.vertices[i]]
                0 <= i < m.vertices.len() && m.vertices[i].x != m.vertices[0].x
            &&& exists|i: int|
                #![trigger m.vertices[i]]
                0 <= i < m.vertices.len() && m.vertices[i].y != m.vertices[0].y
        },
        PrimitiveModel::RoundedRect(r) => !r.rect.is_degenerate(),
        PrimitiveModel::Circle(c) => c.radius > 0,
    }
}

/// Whether every primitive of the output is contained in `region` and has
/// strictly positive extent.
pub open spec fn output_in_region(o: OutputModel, region: Region) -> bool {
    forall|i: int|
        0 <= i < o.primitives.len() ==> prim_in_region(#[trigger] o.primitives[i], region)
            && prim_positive_extent(o.primitives[i])
}

} // verus!
