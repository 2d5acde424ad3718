//! Polygons made of vertex attribute sets, and the builder that prepares
//! one: it gives every vertex a colour and, with a texture, texture
//! coordinates.

pub mod color;
pub mod databuffer;
pub mod reactangle;
pub mod texture;
pub mod triangle;
pub mod vertices;

use vstd::prelude::*;
use vstd::string::*;
use crate::color::{normalized, RGBA};
use crate::polygons::databuffer::{
    attribute_layout, rectangle_indices, BufferSetup, DataBuffer, DataBufferView, DrawCall,
};
use crate::polygons::texture::{Texture, TextureView};
use crate::polygons::vertices::{
    covers_vertices, interleaved, is_valid, lemma_repeated_len, lemma_valid_is_exact, repeated,
    stride_numbers, vertex_count, VertexData, VertexLocation, Vertices,
};
use crate::shaders::shader_program::{
    next_action, CompileAction, CompileStep, ShaderProgram, ShaderProgramView,
};
use crate::single::{unit_from_byte_bits, ONE, ZERO};

verus! {

/// A polygon that is ready to be set up and drawn.
pub struct Polygon {
    vertices: Vertices,
    shader_program: ShaderProgram,
    data_buffer: DataBuffer,
    texture: Option<Texture>,
}

/// What a polygon holds: the model that the contracts speak of.
pub struct PolygonView {
    pub vertices: VertexData,
    pub shader_program: ShaderProgramView,
    pub data_buffer: DataBufferView,
    pub texture: Option<TextureView>,
}

impl View for Polygon {
    type V = PolygonView;

    closed spec fn view(&self) -> PolygonView {
        PolygonView {
            vertices: self.vertices@,
            shader_program: self.shader_program@,
            data_buffer: self.data_buffer@,
            texture: match self.texture {
                Some(texture) => Some(texture@),
                None => None,
            },
        }
    }
}

/// Collects what a polygon is made of.
pub struct PolygonBuilder {
    vertices: Vertices,
    color: Option<RGBA>,
    texture: Option<Texture>,
}

/// What a builder holds: the model that the contracts speak of.
pub struct PolygonBuilderView {
    pub vertices: VertexData,
    pub color: Option<(u8, u8, u8, u32)>,
    pub texture: Option<TextureView>,
}

impl View for PolygonBuilder {
    type V = PolygonBuilderView;

    closed spec fn view(&self) -> PolygonBuilderView {
        PolygonBuilderView {
            vertices: self.vertices@,
            color: match self.color {
                Some(color) => Some(color@),
                None => None,
            },
            texture: match self.texture {
                Some(texture) => Some(texture@),
                None => None,
            },
        }
    }
}

/// What drawing a polygon takes: the texture to bind, if it has one, the
/// shader program to use, and the call that draws.
#[derive(Clone, Copy, Debug, PartialEq, Eq, Structural)]
pub struct PolygonDraw {
    pub texture: Option<u32>,
    pub program: u32,
    pub call: DrawCall,
}

/// The four numbers of opaque white, the colour of a polygon that was given
/// none.
pub open spec fn white() -> Seq<u32> {
    seq![
        unit_from_byte_bits(255),
        unit_from_byte_bits(255),
        unit_from_byte_bits(255),
        unit_from_byte_bits(255),
    ]
}

/// The texture coordinates that a triangle is given: the corners (1, 1),
/// (1, 0) and (0, 0).
pub open spec fn triangle_texture() -> Seq<u32> {
    seq![ONE, ONE, ONE, ZERO, ZERO, ZERO]
}

/// The texture coordinates that a rectangle is given: the corners (1, 1),
/// (1, 0), (0, 0) and (0, 1).
pub open spec fn rectangle_texture() -> Seq<u32> {
    seq![ONE, ONE, ONE, ZERO, ZERO, ZERO, ZERO, ONE]
}

/// The attribute set that a builder makes of its vertices: every whole
/// vertex gets the builder's colour, or white; and where the builder has a
/// texture and the vertices have no texture coordinates, a triangle and a
/// rectangle get theirs.
pub open spec fn prepared(builder: PolygonBuilderView) -> VertexData {
    let numbers = match builder.color {
        Some(color) => normalized(color),
        None => white(),
    };
    let colored = VertexData {
        colors: repeated(numbers, vertex_count(builder.vertices)),
        ..builder.vertices
    };
    if builder.texture is Some && colored.textures.len() == 0 {
        if colored.positions.len() == 9 {
            VertexData { textures: triangle_texture(), ..colored }
        } else if colored.positions.len() == 12 {
            VertexData { textures: rectangle_texture(), ..colored }
        } else {
            colored
        }
    } else {
        colored
    }
}

/// A builder prepares a set that can be interleaved: where the positions are
/// those of fewer than 2^21 whole vertices, and the texture coordinates that
/// were given, if any, are two for each vertex, the prepared set is valid and
/// holds the numbers of every vertex.
pub proof fn lemma_prepared_is_valid(builder: PolygonBuilderView)
    requires
        builder.vertices.positions.len() % 3 == 0,
        builder.vertices.positions.len() < 0x60_0000,
        builder.vertices.textures.len() > 0 ==> 2 * builder.vertices.positions.len() == 3
            * builder.vertices.textures.len(),
    ensures
        prepared(builder).positions == builder.vertices.positions,
        prepared(builder).colors.len() == 4 * vertex_count(builder.vertices),
        is_valid(prepared(builder)),
        covers_vertices(prepared(builder)),
{
    let numbers = match builder.color {
        Some(color) => normalized(color),
        None => white(),
    };
    let count = vertex_count(builder.vertices);
    lemma_repeated_len(numbers, count);
    assert(numbers.len() == 4);
    assert(count * 4 == 4 * count) by (nonlinear_arith);
    assert(triangle_texture().len() == 6);
    assert(rectangle_texture().len() == 8);
    lemma_valid_is_exact(prepared(builder));
}

impl Polygon {
    /// The polygon's attribute set.
    pub fn vertices(&self) -> (vertices: &Vertices)
        ensures
            vertices@ == self@.vertices,
    {
        &self.vertices
    }

    /// The polygon's shader program.
    pub fn shader_program(&self) -> (program: &ShaderProgram)
        ensures
            program@ == self@.shader_program,
    {
        &self.shader_program
    }

    /// The polygon's buffer handles.
    pub fn data_buffer(&self) -> (buffer: &DataBuffer)
        ensures
            buffer@ == self@.data_buffer,
    {
        &self.data_buffer
    }

    /// The polygon's texture, if it has one.
    pub fn texture(&self) -> (texture: Option<&Texture>)
        ensures
            match texture {
                Some(t) => self@.texture == Some(t@),
                None => self@.texture is None,
            },
    {
        match &self.texture {
            Some(texture) => Some(texture),
            None => None,
        }
    }

    /// Keeps the handles that the driver handed out for the polygon's vertex
    /// array and vertex buffer.
    pub fn generate_buffers(&mut self, vao: u32, vbo: u32)
        ensures
            final(self)@ == (PolygonView {
                data_buffer: DataBufferView { vao, vbo, ..old(self)@.data_buffer },
                ..old(self)@
            }),
    {
        self.data_buffer.generate_buffers(vao, vbo);
    }

    /// Keeps the handle that the driver handed out for the polygon's element
    /// buffer.
    pub fn generate_ebo_buffer(&mut self, ebo: u32)
        ensures
            final(self)@ == (PolygonView {
                data_buffer: DataBufferView { ebo, ..old(self)@.data_buffer },
                ..old(self)@
            }),
    {
        self.data_buffer.generate_ebo_buffer(ebo);
    }

    /// Says what setting the polygon's buffers up takes, and keeps the stride
    /// of its attribute set. Fails, and keeps nothing, where the attribute
    /// set cannot be interleaved.
    pub fn init(&mut self) -> (setup: Result<BufferSetup, String>)
        ensures
            setup is Ok <==> is_valid(old(self)@.vertices) && covers_vertices(old(self)@.vertices),
            match setup {
                Ok(s) => {
                    &&& s.numbers@ == interleaved(old(self)@.vertices)
                    &&& s.indices is Some <==> old(self)@.vertices.positions.len() == 12
                    &&& s.indices matches Some(corners) ==> corners@ == rectangle_indices()
                    &&& s.attributes@ == attribute_layout(
                        (4 * stride_numbers(old(self)@.vertices)) as i32,
                    )
                    &&& final(self)@ == (PolygonView {
                        data_buffer: DataBufferView {
                            stride: (4 * stride_numbers(old(self)@.vertices)) as i32,
                            ..old(self)@.data_buffer
                        },
                        ..old(self)@
                    })
                },
                Err(message) => {
                    &&& message@ == "Invalid vertices structure"@
                    &&& final(self)@ == old(self)@
                },
            },
    {
        self.data_buffer.init(&self.vertices)
    }

    /// Takes one step of compiling the polygon's shader program.
    pub fn compile(&mut self, step: CompileStep) -> (action: CompileAction)
        ensures
            action == next_action(old(self)@.shader_program.compiled, step),
            final(self)@ == (PolygonView {
                shader_program: ShaderProgramView {
                    compiled: old(self)@.shader_program.compiled || step
                        == CompileStep::ShadersDeleted,
                    ..old(self)@.shader_program
                },
                ..old(self)@
            }),
    {
        self.shader_program.compile(step)
    }

    /// What drawing the polygon takes.
    pub fn draw(&self) -> (steps: PolygonDraw)
        ensures
            steps == (PolygonDraw {
                texture: match self@.texture {
                    Some(t) => Some(t.id),
                    None => None,
                },
                program: self@.shader_program.id,
                call: if self@.data_buffer.ebo > 0 {
                    DrawCall::IndexedTriangles { count: 6 }
                } else {
                    DrawCall::Triangles { first: 0, count: 3 }
                },
            }),
    {
        let texture: Option<u32> = match &self.texture {
            Some(texture) => Some(texture.id()),
            None => None,
        };
        PolygonDraw { texture, program: self.shader_program.id(), call: self.data_buffer.draw() }
    }
}

impl PolygonBuilder {
    /// A builder without vertices, colour or texture.
    #[must_use]
    pub fn new() -> (builder: Self)
        ensures
            builder@ == (PolygonBuilderView {
                vertices: VertexData {
                    positions: Seq::empty(),
                    colors: Seq::empty(),
                    textures: Seq::empty(),
                },
                color: None,
                texture: None,
            }),
    {
        PolygonBuilder { vertices: Vertices::empty(), color: None, texture: None }
    }

    /// Gives the polygon one colour for all its vertices.
    pub fn set_color(&mut self, color: RGBA)
        ensures
            final(self)@ == (PolygonBuilderView { color: Some(color@), ..old(self)@ }),
    {
        self.color = Some(color);
    }

    /// Gives the polygon its vertices.
    pub fn set_vertices(&mut self, vertices: Vertices)
        ensures
            final(self)@ == (PolygonBuilderView { vertices: vertices@, ..old(self)@ }),
    {
        self.vertices = vertices;
    }

    /// Gives the polygon a texture.
    pub fn set_texture(&mut self, texture: Texture)
        ensures
            final(self)@ == (PolygonBuilderView { texture: Some(texture@), ..old(self)@ }),
    {
        self.texture = Some(texture);
    }

    /// Makes a polygon of what the builder holds and of the shader program
    /// that was made from the sources that `create_shader` names. The
    /// vertices are prepared first. The texture moves into the polygon; the
    /// prepared vertices and the colour stay with the builder.
    pub fn build(&mut self, shader_program: ShaderProgram) -> (polygon: Polygon)
        ensures
            polygon@ == (PolygonView {
                vertices: prepared(old(self)@),
                shader_program: shader_program@,
                data_buffer: DataBufferView { vao: 0, vbo: 0, ebo: 0, stride: 0 },
                texture: old(self)@.texture,
            }),
            final(self)@ == (PolygonBuilderView {
                vertices: prepared(old(self)@),
                color: old(self)@.color,
                texture: None,
            }),
    {
        self.prepare_vertices();
        let vertices: Vertices = self.vertices.clone();
        let texture: Option<Texture> = self.texture.take();
        Polygon { vertices, shader_program, data_buffer: DataBuffer::new(), texture }
    }

    /// Gives every vertex the polygon's colour and, where a texture needs
    /// them, texture coordinates.
    pub fn prepare_vertices(&mut self)
        ensures
            final(self)@ == (PolygonBuilderView { vertices: prepared(old(self)@), ..old(self)@ }),
    {
        match &self.color {
            Some(color) => {
                self.vertices.set_one_color_for_all_vert(color);
            },
            None => {
                let white: RGBA = RGBA::from_hex(0xFFFF_FFFF);
                assert(white@ == (255u8, 255u8, 255u8, unit_from_byte_bits(255)));
                assert(normalized(white@) =~= self::white());
                self.vertices.set_one_color_for_all_vert(&white);
            },
        }
        if self.texture.is_some() && !self.vertices.is_texture() {
            if self.vertices.is_triangle() {
                let coordinates: [u32; 6] = [ONE, ONE, ONE, ZERO, ZERO, ZERO];
                assert(coordinates@ =~= triangle_texture());
                self.vertices.set_position(coordinates.as_slice(), VertexLocation::Texture);
            } else if self.vertices.is_reactangle() {
                let coordinates: [u32; 8] = [ONE, ONE, ONE, ZERO, ZERO, ZERO, ZERO, ONE];
                assert(coordinates@ =~= rectangle_texture());
                self.vertices.set_position(coordinates.as_slice(), VertexLocation::Texture);
            }
        }
    }

    /// The file names of the vertex shader and of the fragment shader that
    /// the polygon is drawn with: those for a texture where the builder has
    /// one, those for plain colours where it has none.
    pub fn create_shader(&self) -> (names: (String, String))
        ensures
            self@.texture is Some ==> names.0@ == "basic_texture.vert"@ && names.1@
                == "basic_texture.frag"@,
            self@.texture is None ==> names.0@ == "basic_colored.vert"@ && names.1@
                == "basic_colored.frag"@,
    {
        if self.texture.is_some() {
            (String::from_str("basic_texture.vert"), String::from_str("basic_texture.frag"))
        } else {
            (String::from_str("basic_colored.vert"), String::from_str("basic_colored.frag"))
        }
    }

    /// The result of setting a polygon up, once its buffer is filled: an
    /// error where its shader program did not compile.
    pub fn init_polygon(compiled: bool) -> (result: Result<(), String>)
        ensures
            result is Ok <==> compiled,
            result matches Err(message) ==> message@ == "Shader program compilation error"@,
    {
        if !compiled {
            return Err(String::from_str("Shader program compilation error"));
        }
        Ok(())
    }
}

impl Default for PolygonBuilder {
    fn default() -> (builder: Self)
        ensures
            builder@ == (PolygonBuilderView {
                vertices: VertexData {
                    positions: Seq::empty(),
                    colors: Seq::empty(),
                    textures: Seq::empty(),
                },
                color: None,
                texture: None,
            }),
    {
        Self::new()
    }
}

} // verus!
