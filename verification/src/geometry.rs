//! The geometry asset: the vertices of the one shape that every pass draws.

use crate::vertex::Vertex;
use vstd::prelude::*;

verus! {

/// How the vertices of a shape make up its triangles.
#[derive(Copy, Clone, Debug, PartialEq, Eq, Structural)]
pub enum Primitive {
    /// Every vertex after the second closes a triangle with its predecessor
    /// and the first vertex.
    TriangleFan,
    /// Every three vertices in a row are one triangle.
    TriangleList,
}

/// Position of corner `i` of the quad that covers the whole viewport, in
/// fan order: counter-clockwise from the top right.
pub open spec fn quad_corner(i: int) -> (int, int) {
    if i == 0 {
        (1, 1)
    } else if i == 1 {
        (-1, 1)
    } else if i == 2 {
        (-1, -1)
    } else {
        (1, -1)
    }
}

/// The texture coordinate that belongs to a corner of the viewport: the
/// corner `(-1, -1)` shows the texel at `(0, 0)`, the corner `(1, 1)` the one
/// at `(1, 1)`.
pub open spec fn corner_tex_coords(position: (int, int)) -> (int, int) {
    ((position.0 + 1) / 2, (position.1 + 1) / 2)
}

/// Whether `v` is corner `i` of the quad, with the texture coordinate that
/// belongs to it.
pub open spec fn is_quad_vertex(v: Vertex<i32>, i: int) -> bool {
    let position = quad_corner(i);
    let tex = corner_tex_coords(position);
    &&& v.position@ == seq![position.0 as i32, position.1 as i32]
    &&& v.tex_coords@ == seq![tex.0 as i32, tex.1 as i32]
}

/// A fixed list of vertices and the way they form triangles. It does not
/// change once it is made.
pub struct GeometryAsset {
    vertices: Vec<Vertex<i32>>,
    primitive: Primitive,
}

impl View for GeometryAsset {
    type V = Seq<Vertex<i32>>;

    /// The vertices, in drawing order.
    closed spec fn view(&self) -> Seq<Vertex<i32>> {
        self.vertices@
    }
}

impl GeometryAsset {
    /// How the vertices form triangles.
    pub closed spec fn spec_primitive(self) -> Primitive {
        self.primitive
    }

    /// The quad that covers the whole viewport, as a fan of two triangles:
    /// its four corners counter-clockwise from the top right, each with the
    /// texture coordinate of that corner.
    pub fn quad() -> (shape: GeometryAsset)
        ensures
            shape@.len() == 4,
            forall|i: int| 0 <= i < 4 ==> is_quad_vertex(#[trigger] shape@[i], i),
            shape.spec_primitive() == Primitive::TriangleFan,
    {
        let mut vertices: Vec<Vertex<i32>> = Vec::new();
        vertices.push(Vertex::new((1, 1), (1, 1)));
        vertices.push(Vertex::new((-1, 1), (0, 1)));
        vertices.push(Vertex::new((-1, -1), (0, 0)));
        vertices.push(Vertex::new((1, -1), (1, 0)));
        GeometryAsset { vertices, primitive: Primitive::TriangleFan }
    }

    /// The vertices, in drawing order.
    pub fn vertices(&self) -> (vertices: &Vec<Vertex<i32>>)
        ensures
            vertices@ == self@,
    {
        &self.vertices
    }

    /// How the vertices form triangles.
    pub fn primitive(&self) -> (primitive: Primitive)
        ensures
            primitive == self.spec_primitive(),
    {
        self.primitive
    }
}

} // verus!
