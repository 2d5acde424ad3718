//! A shader program's record, and what to do next while it is compiled.
//!
//! The graphics driver compiles and links. This module keeps the sources and
//! the state, and decides after each answer of the driver how to go on.

use vstd::prelude::*;
use vstd::string::*;

verus! {

/// The two shaders of a program.
#[derive(Clone, Copy, Debug, PartialEq, Eq, Structural)]
pub enum ShaderType {
    Vertex,
    Fragment,
}

/// A colour as four single-precision patterns, for a uniform variable.
#[derive(Clone, Copy, Debug)]
pub struct Color {
    pub r: u32,
    pub g: u32,
    pub b: u32,
    pub a: u32,
}

/// A program object of the driver with the sources of its two shaders.
pub struct ShaderProgram {
    shader_program_id: u32,
    vert_src: String,
    frag_src: String,
    is_compiled: bool,
}

/// What a shader program holds: the model that the contracts speak of.
pub struct ShaderProgramView {
    pub id: u32,
    pub vertex_source: Seq<char>,
    pub fragment_source: Seq<char>,
    pub compiled: bool,
}

impl View for ShaderProgram {
    type V = ShaderProgramView;

    closed spec fn view(&self) -> ShaderProgramView {
        ShaderProgramView {
            id: self.shader_program_id,
            vertex_source: self.vert_src@,
            fragment_source: self.frag_src@,
            compiled: self.is_compiled,
        }
    }
}

/// What the driver answered to the last request of a compilation.
#[derive(Clone, Copy, Debug, PartialEq, Eq, Structural)]
pub enum CompileStep {
    /// Nothing was requested yet.
    Begin,
    /// The vertex shader was compiled into the object `shader`; `status`
    /// tells whether the driver accepted it.
    VertexCompiled { shader: u32, status: bool },
    /// The fragment shader was compiled, after the vertex shader `vertex`.
    FragmentCompiled { vertex: u32, shader: u32, status: bool },
    /// Both shaders were attached and the program linked; `status` tells
    /// whether the driver linked it.
    Linked { vertex: u32, fragment: u32, status: bool },
    /// The two shader objects were deleted.
    ShadersDeleted,
}

/// What to ask of the driver next.
#[derive(Clone, Copy, Debug, PartialEq, Eq, Structural)]
pub enum CompileAction {
    /// Compile the source of the vertex shader.
    CompileVertex,
    /// Compile the source of the fragment shader; the vertex shader is the
    /// object `vertex`.
    CompileFragment { vertex: u32 },
    /// Attach the two shader objects to the program and link it.
    Link { vertex: u32, fragment: u32 },
    /// Delete the two shader objects.
    DeleteShaders { vertex: u32, fragment: u32 },
    /// Stop: the compilation has this result.
    Finish(bool),
}

/// The object that a compilation yields: the shader where the driver
/// accepted it, zero where it did not.
pub open spec fn compiled_shader(shader: u32, status: bool) -> u32 {
    if status {
        shader
    } else {
        0
    }
}

/// The request that follows an answer of the driver. A program that is
/// compiled already asks for nothing. A shader that did not compile, or a
/// program that did not link, ends the compilation without success.
pub open spec fn next_action(compiled: bool, step: CompileStep) -> CompileAction {
    match step {
        CompileStep::Begin => if compiled {
            CompileAction::Finish(true)
        } else {
            CompileAction::CompileVertex
        },
        CompileStep::VertexCompiled { shader, status } => if compiled_shader(shader, status) == 0 {
            CompileAction::Finish(false)
        } else {
            CompileAction::CompileFragment { vertex: shader }
        },
        CompileStep::FragmentCompiled { vertex, shader, status } => if compiled_shader(
            shader,
            status,
        ) == 0 {
            CompileAction::Finish(false)
        } else {
            CompileAction::Link { vertex, fragment: shader }
        },
        CompileStep::Linked { vertex, fragment, status } => if status {
            CompileAction::DeleteShaders { vertex, fragment }
        } else {
            CompileAction::Finish(false)
        },
        CompileStep::ShadersDeleted => CompileAction::Finish(true),
    }
}

impl ShaderProgram {
    /// A program that is not compiled yet, for the program object
    /// `shader_program_id` of the driver.
    #[must_use]
    pub fn new(shader_program_id: u32, vert_src: &str, frag_src: &str) -> (program: Self)
        ensures
            program@ == (ShaderProgramView {
                id: shader_program_id,
                vertex_source: vert_src@,
                fragment_source: frag_src@,
                compiled: false,
            }),
    {
        ShaderProgram {
            shader_program_id,
            vert_src: String::from_str(vert_src),
            frag_src: String::from_str(frag_src),
            is_compiled: false,
        }
    }

    /// Replaces the fragment shader's source. The program has to be compiled
    /// again.
    pub fn set_fragment_shader(&mut self, src: &str)
        ensures
            final(self)@ == (ShaderProgramView {
                fragment_source: src@,
                compiled: false,
                ..old(self)@
            }),
    {
        self.frag_src = String::from_str(src);
        self.is_compiled = false;
    }

    /// Replaces the vertex shader's source. The program has to be compiled
    /// again.
    pub fn set_vertex_shader(&mut self, src: &str)
        ensures
            final(self)@ == (ShaderProgramView {
                vertex_source: src@,
                compiled: false,
                ..old(self)@
            }),
    {
        self.vert_src = String::from_str(src);
        self.is_compiled = false;
    }

    /// Whether the program was compiled and linked since its sources last
    /// changed.
    #[must_use]
    pub fn is_compiled(&self) -> (compiled: bool)
        ensures
            compiled == self@.compiled,
    {
        self.is_compiled
    }

    /// The program object of the driver.
    #[must_use]
    pub fn id(&self) -> (id: u32)
        ensures
            id == self@.id,
    {
        self.shader_program_id
    }

    /// The source of one of the two shaders.
    pub fn match_shader_src(&self, shader_type: ShaderType) -> (src: &String)
        ensures
            src@ == (match shader_type {
                ShaderType::Vertex => self@.vertex_source,
                ShaderType::Fragment => self@.fragment_source,
            }),
    {
        match shader_type {
            ShaderType::Vertex => &self.vert_src,
            ShaderType::Fragment => &self.frag_src,
        }
    }

    /// Takes the driver's answer to the last request and says what to ask
    /// next. The program counts as compiled once both shaders compiled, the
    /// program linked and the shader objects were deleted; nothing else
    /// changes it.
    pub fn compile(&mut self, step: CompileStep) -> (action: CompileAction)
        ensures
            action == next_action(old(self)@.compiled, step),
            final(self)@ == (ShaderProgramView {
                compiled: old(self)@.compiled || step == CompileStep::ShadersDeleted,
                ..old(self)@
            }),
    {
        match step {
            CompileStep::Begin => {
                if self.is_compiled {
                    CompileAction::Finish(true)
                } else {
                    CompileAction::CompileVertex
                }
            },
            CompileStep::VertexCompiled { shader, status } => {
                if ShaderProgram::compile_shader(shader, status) == 0 {
                    CompileAction::Finish(false)
                } else {
                    CompileAction::CompileFragment { vertex: shader }
                }
            },
            CompileStep::FragmentCompiled { vertex, shader, status } => {
                if ShaderProgram::compile_shader(shader, status) == 0 {
                    CompileAction::Finish(false)
                } else {
                    CompileAction::Link { vertex, fragment: shader }
                }
            },
            CompileStep::Linked { vertex, fragment, status } => {
                if status {
                    CompileAction::DeleteShaders { vertex, fragment }
                } else {
                    CompileAction::Finish(false)
                }
            },
            CompileStep::ShadersDeleted => {
                self.is_compiled = true;
                CompileAction::Finish(true)
            },
        }
    }

    /// The object of a shader that was compiled, or zero where the driver did
    /// not accept its source.
    pub fn compile_shader(shader: u32, status: bool) -> (object: u32)
        ensures
            object == compiled_shader(shader, status),
    {
        if status {
            shader
        } else {
            0
        }
    }

    /// The four numbers to store in a uniform variable, or nothing where the
    /// driver has no variable of the name that was asked for, which it tells
    /// by the location -1.
    pub fn set_uniform4f_variable(location: i32, value: &Color) -> (numbers: Option<[u32; 4]>)
        ensures
            numbers is Some <==> location != -1,
            numbers matches Some(n) ==> n@ == seq![value.r, value.g, value.b, value.a],
    {
        if location == -1 {
            None
        } else {
            let numbers: [u32; 4] = [value.r, value.g, value.b, value.a];
            assert(numbers@ =~= seq![value.r, value.g, value.b, value.a]);
            Some(numbers)
        }
    }
}

} // verus!
