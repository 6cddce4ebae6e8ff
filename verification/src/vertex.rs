//! Vertex records of the rendered shape.

use vstd::prelude::*;

verus! {

/// One vertex: a 2D position and the texture coordinate attached to it.
#[derive(Copy, Clone)]
pub struct Vertex<T> {
    pub position: [T; 2],
    pub tex_coords: [T; 2],
}

impl<T> Vertex<T> {
    /// Builds a vertex from a position `(x, y)` and a texture coordinate `(tx, ty)`.
    pub fn new(position: (T, T), tex_coords: (T, T)) -> (v: Self)
        ensures
            v.position@ == seq![position.0, position.1],
            v.tex_coords@ == seq![tex_coords.0, tex_coords.1],
    {
        Self { position: [position.0, position.1], tex_coords: [tex_coords.0, tex_coords.1] }
    }
}

} // verus!
