//! The buffer objects of a polygon and what is to be done with them.
//!
//! The driver hands out the objects and takes the data. This module keeps the
//! handles and says what to upload, how the attributes are laid out and how
//! the polygon is drawn.

use vstd::prelude::*;
use vstd::string::*;
use crate::polygons::vertices::{
    covers_vertices, interleaved, is_valid, stride_numbers, VertexData, Vertices,
};

verus! {

/// Where one attribute of a vertex lies in the interleaved buffer.
#[derive(Clone, Copy, Debug, PartialEq, Eq, Structural)]
pub struct AttributePointer {
    /// The attribute's number in the shader.
    pub index: u32,
    /// How many numbers the attribute has.
    pub size: i32,
    /// The distance between two vertices.
    pub stride: i32,
    /// The attribute's distance from the start of a vertex, in bytes.
    pub offset: usize,
}

/// How a polygon is drawn.
#[derive(Clone, Copy, Debug, PartialEq, Eq, Structural)]
pub enum DrawCall {
    /// Triangles of `count` vertices in a row, from vertex `first` on.
    Triangles { first: i32, count: i32 },
    /// Triangles whose `count` corners are named by the element buffer.
    IndexedTriangles { count: i32 },
    /// A fan of triangles round the first of `count` vertices, from vertex
    /// `first` on.
    TriangleFan { first: i32, count: i32 },
}

/// What setting a polygon's buffers up takes: the numbers to upload into the
/// vertex buffer, the corners to upload into the element buffer where the
/// polygon has one, and the attributes to point at and to enable.
#[derive(Debug)]
pub struct BufferSetup {
    pub numbers: Vec<u32>,
    pub indices: Option<[u32; 6]>,
    pub attributes: Vec<AttributePointer>,
}

/// The handles of a polygon's vertex array, vertex buffer and element buffer,
/// zero while the driver has not handed one out, and the stride of its
/// attributes.
#[derive(Debug)]
pub struct DataBuffer {
    vao: u32,
    vbo: u32,
    ebo: u32,
    stride: i32,
}

/// What a data buffer holds: the model that the contracts speak of.
pub struct DataBufferView {
    pub vao: u32,
    pub vbo: u32,
    pub ebo: u32,
    pub stride: i32,
}

impl View for DataBuffer {
    type V = DataBufferView;

    closed spec fn view(&self) -> DataBufferView {
        DataBufferView { vao: self.vao, vbo: self.vbo, ebo: self.ebo, stride: self.stride }
    }
}

/// The corners of the two triangles that make a rectangle of four vertices.
pub open spec fn rectangle_indices() -> Seq<u32> {
    seq![0u32, 1u32, 3u32, 1u32, 2u32, 3u32]
}

/// The attributes of a polygon's buffer: three position numbers at the start
/// of each vertex and four colour numbers twelve bytes on; with a stride of
/// nine, two texture coordinates 24 bytes on.
pub open spec fn attribute_layout(stride: i32) -> Seq<AttributePointer> {
    let position = AttributePointer { index: 0, size: 3, stride, offset: 0 };
    let color = AttributePointer { index: 1, size: 4, stride, offset: 12 };
    let texture = AttributePointer { index: 2, size: 2, stride, offset: 24 };
    if stride == 9 {
        seq![position, color, texture]
    } else {
        seq![position, color]
    }
}

/// The stride of an attribute set is counted in bytes and is never nine, so
/// the layout of a set's buffer has the positions and the colours alone.
pub proof fn lemma_layout_of_attribute_set(data: VertexData)
    ensures
        attribute_layout((4 * stride_numbers(data)) as i32) == seq![
            AttributePointer {
                index: 0,
                size: 3,
                stride: (4 * stride_numbers(data)) as i32,
                offset: 0,
            },
            AttributePointer {
                index: 1,
                size: 4,
                stride: (4 * stride_numbers(data)) as i32,
                offset: 12,
            },
        ],
{
}

impl DataBuffer {
    /// A record without any handle.
    #[must_use]
    pub fn new() -> (buffer: Self)
        ensures
            buffer@ == (DataBufferView { vao: 0, vbo: 0, ebo: 0, stride: 0 }),
    {
        DataBuffer { vao: 0, vbo: 0, ebo: 0, stride: 0 }
    }

    /// The handle of the vertex array.
    pub fn vao(&self) -> (handle: u32)
        ensures
            handle == self@.vao,
    {
        self.vao
    }

    /// The handle of the vertex buffer.
    pub fn vbo(&self) -> (handle: u32)
        ensures
            handle == self@.vbo,
    {
        self.vbo
    }

    /// The handle of the element buffer.
    pub fn ebo(&self) -> (handle: u32)
        ensures
            handle == self@.ebo,
    {
        self.ebo
    }

    /// The stride that the attributes were last laid out with.
    pub fn stride(&self) -> (stride: i32)
        ensures
            stride == self@.stride,
    {
        self.stride
    }

    /// Whether a vertex array and a vertex buffer have to be asked for: one
    /// of the two handles is missing.
    pub fn needs_buffers(&self) -> (needed: bool)
        ensures
            needed == (self@.vao == 0 || self@.vbo == 0),
    {
        self.vao == 0 || self.vbo == 0
    }

    /// Whether an element buffer has to be asked for.
    pub fn needs_ebo_buffer(&self) -> (needed: bool)
        ensures
            needed == (self@.ebo == 0),
    {
        self.ebo == 0
    }

    /// Keeps the handles that the driver handed out for the vertex array and
    /// the vertex buffer.
    pub fn generate_buffers(&mut self, vao: u32, vbo: u32)
        ensures
            final(self)@ == (DataBufferView { vao, vbo, ..old(self)@ }),
    {
        self.vao = vao;
        self.vbo = vbo;
    }

    /// Keeps the handle that the driver handed out for the element buffer.
    pub fn generate_ebo_buffer(&mut self, ebo: u32)
        ensures
            final(self)@ == (DataBufferView { ebo, ..old(self)@ }),
    {
        self.ebo = ebo;
    }

    /// Says what setting the buffers up for an attribute set takes, and keeps
    /// the set's stride: the interleaved attributes go into the vertex
    /// buffer, a rectangle gets the corners of its two triangles in an
    /// element buffer, and the attributes are laid out by the stride. Fails,
    /// and keeps nothing, where the attribute set cannot be interleaved.
    pub fn init(&mut self, data: &Vertices) -> (setup: Result<BufferSetup, String>)
        ensures
            setup is Ok <==> is_valid(data@) && covers_vertices(data@),
            match setup {
                Ok(s) => {
                    &&& s.numbers@ == interleaved(data@)
                    &&& s.indices is Some <==> data@.positions.len() == 12
                    &&& s.indices matches Some(corners) ==> corners@ == rectangle_indices()
                    &&& s.attributes@ == attribute_layout((4 * stride_numbers(data@)) as i32)
                    &&& final(self)@ == (DataBufferView {
                        stride: (4 * stride_numbers(data@)) as i32,
                        ..old(self)@
                    })
                },
                Err(message) => {
                    &&& message@ == "Invalid vertices structure"@
                    &&& final(self)@ == old(self)@
                },
            },
    {
        let numbers: Vec<u32> = DataBuffer::init_buffer(data)?;
        let indices: Option<[u32; 6]> = if data.is_reactangle() {
            Some(DataBuffer::set_attribute_element_array_buffer())
        } else {
            None
        };
        let attributes: Vec<AttributePointer> = self.set_attribute_ptr(data.get_stride());
        Ok(BufferSetup { numbers, indices, attributes })
    }

    /// The numbers to upload into the vertex buffer: the interleaved
    /// attributes. Fails where the attribute set gives none.
    pub fn init_buffer(vertices: &Vertices) -> (upload: Result<Vec<u32>, String>)
        ensures
            upload is Ok <==> is_valid(vertices@) && covers_vertices(vertices@),
            upload matches Ok(numbers) ==> numbers@ == interleaved(vertices@),
            upload matches Err(message) ==> message@ == "Invalid vertices structure"@,
    {
        match vertices.create_single_vertices_array() {
            Some(numbers) => Ok(numbers),
            None => Err(String::from_str("Invalid vertices structure")),
        }
    }

    /// The corners to upload into the element buffer of a rectangle.
    pub fn set_attribute_element_array_buffer() -> (indices: [u32; 6])
        ensures
            indices@ == rectangle_indices(),
    {
        let indices: [u32; 6] = [0, 1, 3, 1, 2, 3];
        assert(indices@ =~= rectangle_indices());
        indices
    }

    /// Keeps the stride and lists the attributes to point at and to enable.
    pub fn set_attribute_ptr(&mut self, stride: i32) -> (attributes: Vec<AttributePointer>)
        ensures
            final(self)@ == (DataBufferView { stride, ..old(self)@ }),
            attributes@ == attribute_layout(stride),
    {
        self.stride = stride;
        let mut attributes: Vec<AttributePointer> = Vec::new();
        attributes.push(AttributePointer { index: 0, size: 3, stride, offset: 0 });
        attributes.push(AttributePointer { index: 1, size: 4, stride, offset: 12 });
        if stride == 9 {
            attributes.push(AttributePointer { index: 2, size: 2, stride, offset: 24 });
        }
        assert(attributes@ =~= attribute_layout(stride));
        attributes
    }

    /// How the polygon is drawn: with an element buffer as the six corners of
    /// a rectangle's triangles, without one as a single triangle.
    pub fn draw(&self) -> (call: DrawCall)
        ensures
            call == if self@.ebo > 0 {
                DrawCall::IndexedTriangles { count: 6 }
            } else {
                DrawCall::Triangles { first: 0, count: 3 }
            },
    {
        if self.ebo > 0 {
            DrawCall::IndexedTriangles { count: 6 }
        } else {
            DrawCall::Triangles { first: 0, count: 3 }
        }
    }
}

} // verus!
