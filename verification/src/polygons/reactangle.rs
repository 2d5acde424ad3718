//! A rectangle of four corners in the plane.

use vstd::prelude::*;
use crate::polygons::databuffer::{rectangle_indices, AttributePointer, DrawCall};
use crate::single::ZERO;

verus! {

/// The positions of a rectangle's four corners, three numbers each.
#[derive(Clone, Copy, Debug)]
pub struct Vertices {
    vert: [u32; 12],
}

/// The handles of a rectangle's element buffer, vertex array and vertex
/// buffer, zero while the driver has not handed one out, and its corners.
#[derive(Debug)]
pub struct Reactangle {
    ebo: u32,
    vao: u32,
    vbo: u32,
    vertices: Vertices,
}

/// What a rectangle holds: the model that the contracts speak of.
pub struct ReactangleView {
    pub ebo: u32,
    pub vao: u32,
    pub vbo: u32,
    pub vertices: Seq<u32>,
}

impl View for Vertices {
    type V = Seq<u32>;

    closed spec fn view(&self) -> Seq<u32> {
        self.vert@
    }
}

impl View for Reactangle {
    type V = ReactangleView;

    closed spec fn view(&self) -> ReactangleView {
        ReactangleView { ebo: self.ebo, vao: self.vao, vbo: self.vbo, vertices: self.vertices@ }
    }
}

/// The positions of four corners given by two coordinates each: the third
/// coordinate of every corner is zero.
pub open spec fn flat_corners(data: Seq<u32>) -> Seq<u32> {
    seq![
        data[0],
        data[1],
        ZERO,
        data[2],
        data[3],
        ZERO,
        data[4],
        data[5],
        ZERO,
        data[6],
        data[7],
        ZERO,
    ]
}

/// How many of the first numbers `set_vertices` replaces: as many pairs as
/// are given, and four pairs at most.
pub open spec fn replaced_len(given: nat) -> nat {
    if given >= 8 {
        8
    } else {
        (given / 2 * 2) as nat
    }
}

/// The positions after `set_vertices`: the first `replaced_len` numbers are
/// the given ones, the others stay.
pub open spec fn with_vertices(positions: Seq<u32>, given: Seq<u32>) -> Seq<u32> {
    Seq::new(
        positions.len(),
        |i: int|
            if i < replaced_len(given.len()) {
                given[i]
            } else {
                positions[i]
            },
    )
}

impl Vertices {
    pub const SIZE: usize = 12;

    /// The corners of a rectangle in the plane.
    #[must_use]
    pub fn new(data: [u32; 8]) -> (vertices: Self)
        ensures
            vertices@ == flat_corners(data@),
    {
        let vert: [u32; 12] = [
            data[0],
            data[1],
            ZERO,
            data[2],
            data[3],
            ZERO,
            data[4],
            data[5],
            ZERO,
            data[6],
            data[7],
            ZERO,
        ];
        assert(vert@ =~= flat_corners(data@));
        Vertices { vert }
    }

    /// The twelve numbers of the corners.
    pub fn vert(&self) -> (numbers: [u32; 12])
        ensures
            numbers@ == self@,
    {
        self.vert
    }
}

impl Reactangle {
    /// A rectangle without any handle.
    #[must_use]
    pub fn new(vertices: Vertices) -> (rectangle: Self)
        ensures
            rectangle@ == (ReactangleView { ebo: 0, vao: 0, vbo: 0, vertices: vertices@ }),
    {
        Reactangle { ebo: 0, vao: 0, vbo: 0, vertices }
    }

    /// The handle of the element buffer.
    pub fn ebo(&self) -> (handle: u32)
        ensures
            handle == self@.ebo,
    {
        self.ebo
    }

    /// The handle of the vertex array.
    pub fn vao(&self) -> (handle: u32)
        ensures
            handle == self@.vao,
    {
        self.vao
    }

    /// The handle of the vertex buffer.
    pub fn vbo(&self) -> (handle: u32)
        ensures
            handle == self@.vbo,
    {
        self.vbo
    }

    /// The corners.
    pub fn vertices(&self) -> (vertices: &Vertices)
        ensures
            vertices@ == self@.vertices,
    {
        &self.vertices
    }

    /// Whether the buffers have to be set up: one of the three handles is
    /// missing.
    pub fn needs_array_buffer(&self) -> (needed: bool)
        ensures
            needed == (self@.vao == 0 || self@.vbo == 0 || self@.ebo == 0),
    {
        self.vao == 0 || self.vbo == 0 || self.ebo == 0
    }

    /// Keeps the handles that the driver handed out, and says where the
    /// positions lie in the vertex buffer: three numbers for each vertex, one
    /// vertex after the other.
    pub fn init_array_buffer(&mut self, vao: u32, vbo: u32, ebo: u32) -> (attribute:
        AttributePointer)
        ensures
            final(self)@ == (ReactangleView { ebo, vao, vbo, ..old(self)@ }),
            attribute == (AttributePointer { index: 0, size: 3, stride: 12, offset: 0 }),
    {
        self.vao = vao;
        self.vbo = vbo;
        self.ebo = ebo;
        AttributePointer { index: 0, size: 3, stride: 12, offset: 0 }
    }

    /// The corners to upload into the element buffer.
    pub fn set_element_array_buffer(&self) -> (indices: [u32; 6])
        ensures
            indices@ == rectangle_indices(),
    {
        let indices: [u32; 6] = [0, 1, 3, 1, 2, 3];
        assert(indices@ =~= rectangle_indices());
        indices
    }

    /// How the rectangle is drawn: as the six corners of its two triangles.
    pub fn draw(&self) -> (call: DrawCall)
        ensures
            call == (DrawCall::IndexedTriangles { count: 6 }),
    {
        DrawCall::IndexedTriangles { count: 6 }
    }

    /// Replaces the first numbers of the positions by the given ones, pair by
    /// pair: of two numbers the first two, of four the first four, and so on
    /// up to eight. A number that has no partner is left out.
    pub fn set_vertices(&mut self, vertices: &Vec<u32>)
        ensures
            final(self)@ == (ReactangleView {
                vertices: with_vertices(old(self)@.vertices, vertices@),
                ..old(self)@
            }),
    {
        let mut vert: [u32; 12] = self.vertices.vert;
        if vertices.len() >= 2 {
            vert[0] = vertices[0];
            vert[1] = vertices[1];
        }
        if vertices.len() >= 4 {
            vert[2] = vertices[2];
            vert[3] = vertices[3];
        }
        if vertices.len() >= 6 {
            vert[4] = vertices[4];
            vert[5] = vertices[5];
        }
        if vertices.len() >= 8 {
            vert[6] = vertices[6];
            vert[7] = vertices[7];
        }
        assert(vert@ =~= with_vertices(old(self)@.vertices, vertices@));
        self.vertices = Vertices { vert };
    }
}

} // verus!
