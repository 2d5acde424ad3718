//! A triangle with its attribute set.

use vstd::prelude::*;
use crate::polygons::databuffer::{AttributePointer, DrawCall};
use crate::polygons::vertices::{
    covers_vertices, interleaved, is_valid, stride_numbers, VertexData, Vertices,
};

verus! {

/// The handles of a triangle's vertex array and vertex buffer, zero while the
/// driver has not handed one out, and its attribute set.
#[derive(Debug)]
pub struct Triangle {
    vao: u32,
    vbo: u32,
    vertices: Vertices,
}

/// What a triangle holds: the model that the contracts speak of.
pub struct TriangleView {
    pub vao: u32,
    pub vbo: u32,
    pub vertices: VertexData,
}

impl View for Triangle {
    type V = TriangleView;

    closed spec fn view(&self) -> TriangleView {
        TriangleView { vao: self.vao, vbo: self.vbo, vertices: self.vertices@ }
    }
}

impl Triangle {
    /// A triangle without any handle.
    #[must_use]
    pub fn new(vertices: Vertices) -> (triangle: Self)
        ensures
            triangle@ == (TriangleView { vao: 0, vbo: 0, vertices: vertices@ }),
    {
        Triangle { vao: 0, vbo: 0, vertices }
    }

    /// The handle of the vertex array.
    pub fn vao(&self) -> (handle: u32)
        ensures
            handle == self@.vao,
    {
        self.vao
    }

    /// The handle of the vertex buffer.
    pub fn vbo(&self) -> (handle: u32)
        ensures
            handle == self@.vbo,
    {
        self.vbo
    }

    /// Whether a vertex array and a vertex buffer have to be asked for: one
    /// of the two handles is missing.
    pub fn needs_buffers(&self) -> (needed: bool)
        ensures
            needed == (self@.vao == 0 || self@.vbo == 0),
    {
        self.vao == 0 || self.vbo == 0
    }

    /// Keeps the handles that the driver handed out.
    pub fn generate_buffers(&mut self, vao: u32, vbo: u32)
        ensures
            final(self)@ == (TriangleView { vao, vbo, ..old(self)@ }),
    {
        self.vao = vao;
        self.vbo = vbo;
    }

    /// The numbers to upload into the vertex buffer: the interleaved
    /// attributes, or nothing where the attribute set gives none.
    pub fn buffer_data(&self) -> (numbers: Option<Vec<u32>>)
        ensures
            numbers is Some <==> is_valid(self@.vertices) && covers_vertices(self@.vertices),
            numbers matches Some(packed) ==> packed@ == interleaved(self@.vertices),
    {
        self.vertices.create_single_vertices_array()
    }

    /// Where the positions lie in a buffer of positions alone.
    pub fn set_attribute_ptr() -> (attribute: AttributePointer)
        ensures
            attribute == (AttributePointer { index: 0, size: 3, stride: 12, offset: 0 }),
    {
        AttributePointer { index: 0, size: 3, stride: 12, offset: 0 }
    }

    /// Where the positions lie in the interleaved buffer.
    pub fn set_position_attribute_ptr(&self) -> (attribute: AttributePointer)
        ensures
            attribute == (AttributePointer {
                index: 0,
                size: 3,
                stride: (4 * stride_numbers(self@.vertices)) as i32,
                offset: 0,
            }),
    {
        AttributePointer { index: 0, size: 3, stride: self.vertices.get_stride(), offset: 0 }
    }

    /// Where the colours lie in the interleaved buffer.
    pub fn set_color_attribute_ptr(&self) -> (attribute: AttributePointer)
        ensures
            attribute == (AttributePointer {
                index: 1,
                size: 3,
                stride: (4 * stride_numbers(self@.vertices)) as i32,
                offset: 0,
            }),
    {
        AttributePointer { index: 1, size: 3, stride: self.vertices.get_stride(), offset: 0 }
    }

    /// Where the texture coordinates lie in the interleaved buffer.
    pub fn set_texture_attribute_ptr(&self) -> (attribute: AttributePointer)
        ensures
            attribute == (AttributePointer {
                index: 2,
                size: 2,
                stride: (4 * stride_numbers(self@.vertices)) as i32,
                offset: 0,
            }),
    {
        AttributePointer { index: 2, size: 2, stride: self.vertices.get_stride(), offset: 0 }
    }

    /// How the triangle is drawn.
    pub fn draw(&self) -> (call: DrawCall)
        ensures
            call == (DrawCall::Triangles { first: 0, count: 3 }),
    {
        DrawCall::Triangles { first: 0, count: 3 }
    }
}

} // verus!
