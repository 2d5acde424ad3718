//! A filled circle, drawn as a fan of triangles round its centre.
//!
//! The buffer of a circle holds the four numbers of its colour, the three of
//! its centre, and three for each point on its edge. The points on the edge
//! are computed with sine and cosine by whoever draws; this module clamps
//! the centre and the radius, decides which radius a surface that is not
//! square shrinks, and lays the buffer out.

use vstd::prelude::*;
use vstd::string::*;
use crate::color::{normalized, RGBA};
use crate::config::Resolution;
use crate::polygons::databuffer::{AttributePointer, DrawCall};
use crate::shaders::shader_program::{
    next_action, CompileAction, CompileStep, ShaderProgram, ShaderProgramView,
};
use crate::single::{clamp_signed_unit, clamp_unit, signed_unit_clamped, unit_clamped, ZERO};

verus! {

/// One of the two radii of a circle.
#[derive(Clone, Copy, Debug, PartialEq, Eq, Structural)]
pub enum RadiusAxis {
    Width,
    Height,
}

/// The handles of a circle's vertex array and vertex buffer, zero while the
/// driver has not handed one out, with the number of its segments and its
/// shader program.
pub struct CircleDataBuffer {
    vao: u32,
    vbo: u32,
    segments: u16,
    shader: ShaderProgram,
}

/// What a circle's data buffer holds: the model that the contracts speak of.
pub struct CircleDataBufferView {
    pub vao: u32,
    pub vbo: u32,
    pub segments: u16,
    pub shader: ShaderProgramView,
}

impl View for CircleDataBuffer {
    type V = CircleDataBufferView;

    closed spec fn view(&self) -> CircleDataBufferView {
        CircleDataBufferView {
            vao: self.vao,
            vbo: self.vbo,
            segments: self.segments,
            shader: self.shader@,
        }
    }
}

/// A circle: centre, one radius across and one upwards, colour and number of
/// segments. All numbers are single-precision patterns.
pub struct Circle {
    center: (u32, u32),
    radius_width: u32,
    radius_height: u32,
    color: RGBA,
    segments: u16,
    circle_data_buffer: Option<CircleDataBuffer>,
}

/// What a circle holds: the model that the contracts speak of.
pub struct CircleView {
    pub center: (u32, u32),
    pub radius_width: u32,
    pub radius_height: u32,
    pub color: (u8, u8, u8, u32),
    pub segments: u16,
    pub buffer: Option<CircleDataBufferView>,
}

impl View for Circle {
    type V = CircleView;

    closed spec fn view(&self) -> CircleView {
        CircleView {
            center: self.center,
            radius_width: self.radius_width,
            radius_height: self.radius_height,
            color: self.color@,
            segments: self.segments,
            buffer: match self.circle_data_buffer {
                Some(buffer) => Some(buffer@),
                None => None,
            },
        }
    }
}

/// The numbers of the points on the edge: for each point its two coordinates
/// and a zero.
pub open spec fn edge_numbers(points: Seq<(u32, u32)>) -> Seq<u32>
    decreases points.len(),
{
    if points.len() == 0 {
        Seq::empty()
    } else {
        edge_numbers(points.drop_last()) + seq![points.last().0, points.last().1, ZERO]
    }
}

/// The centre with each coordinate limited to the range from minus one to
/// one.
pub open spec fn clamped_center(center: (u32, u32)) -> (u32, u32) {
    (signed_unit_clamped(center.0), signed_unit_clamped(center.1))
}

/// A circle's buffer: the colour, the clamped centre with a zero, and the
/// points on the edge.
pub open spec fn raw_data(circle: CircleView, points: Seq<(u32, u32)>) -> Seq<u32> {
    normalized(circle.color) + seq![
        clamped_center(circle.center).0,
        clamped_center(circle.center).1,
        ZERO,
    ] + edge_numbers(points)
}

/// The radius that a surface shrinks: the one along its longer side, and
/// none where the surface is square.
pub open spec fn shrunk_axis(resolution: Resolution) -> Option<RadiusAxis> {
    if resolution.width == resolution.height {
        None
    } else if resolution.width > resolution.height {
        Some(RadiusAxis::Width)
    } else {
        Some(RadiusAxis::Height)
    }
}

/// The points on the edge take three numbers each.
pub proof fn lemma_edge_numbers_len(points: Seq<(u32, u32)>)
    ensures
        edge_numbers(points).len() == 3 * points.len(),
    decreases points.len(),
{
    if points.len() > 0 {
        lemma_edge_numbers_len(points.drop_last());
    }
}

/// A circle's buffer holds seven numbers and three more for each point on the
/// edge.
pub proof fn lemma_raw_data_len(circle: CircleView, points: Seq<(u32, u32)>)
    ensures
        raw_data(circle, points).len() == 7 + 3 * points.len(),
{
    lemma_edge_numbers_len(points);
}

impl Circle {
    /// The number of segments of a circle that was not given one.
    pub const DEFAULT_SEGMENTS: u16 = 32;

    /// A circle with both radii equal to `radius`, limited to the range from
    /// zero to one, and with 32 segments where no number is given.
    #[must_use]
    pub fn new(center: (u32, u32), radius: u32, color: RGBA, segments: Option<u16>) -> (circle:
        Self)
        ensures
            circle@ == (CircleView {
                center,
                radius_width: unit_clamped(radius),
                radius_height: unit_clamped(radius),
                color: color@,
                segments: match segments {
                    Some(n) => n,
                    None => Circle::DEFAULT_SEGMENTS,
                },
                buffer: None,
            }),
    {
        let segments_value: u16 = match segments {
            Some(n) => n,
            None => Circle::DEFAULT_SEGMENTS,
        };
        let radius: u32 = Circle::normalized_radius(radius);
        Circle {
            center,
            radius_width: radius,
            radius_height: radius,
            color,
            segments: segments_value,
            circle_data_buffer: None,
        }
    }

    /// The radius across.
    pub fn radius_width(&self) -> (radius: u32)
        ensures
            radius == self@.radius_width,
    {
        self.radius_width
    }

    /// The radius upwards.
    pub fn radius_height(&self) -> (radius: u32)
        ensures
            radius == self@.radius_height,
    {
        self.radius_height
    }

    /// The number of points on the edge.
    pub fn segments(&self) -> (segments: u16)
        ensures
            segments == self@.segments,
    {
        self.segments
    }

    /// The circle's colour.
    pub fn color(&self) -> (color: RGBA)
        ensures
            color@ == self@.color,
    {
        self.color
    }

    /// The circle's data buffer, once `init` has made it.
    pub fn circle_data_buffer(&self) -> (buffer: Option<&CircleDataBuffer>)
        ensures
            match buffer {
                Some(b) => self@.buffer == Some(b@),
                None => self@.buffer is None,
            },
    {
        match &self.circle_data_buffer {
            Some(buffer) => Some(buffer),
            None => None,
        }
    }

    /// How the circle is drawn: as a fan of one triangle for each segment of
    /// its data buffer, or not at all while it has none.
    pub fn draw(&self) -> (call: Option<DrawCall>)
        ensures
            call == match self@.buffer {
                Some(buffer) => Some(
                    DrawCall::TriangleFan { first: 1, count: buffer.segments as i32 },
                ),
                None => None,
            },
    {
        match &self.circle_data_buffer {
            Some(buffer) => Some(buffer.draw()),
            None => None,
        }
    }

    /// Gives a circle without a data buffer one, with the circle's number of
    /// segments, the given shader program and no handles yet. A circle that
    /// has a data buffer keeps it.
    pub fn init(&mut self, shader: ShaderProgram)
        ensures
            final(self)@ == if old(self)@.buffer is None {
                CircleView {
                    buffer: Some(
                        CircleDataBufferView {
                            vao: 0,
                            vbo: 0,
                            segments: old(self)@.segments,
                            shader: shader@,
                        },
                    ),
                    ..old(self)@
                }
            } else {
                old(self)@
            },
    {
        if self.circle_data_buffer.is_none() {
            self.circle_data_buffer = Some(CircleDataBuffer::new(self.segments, shader));
        }
    }

    /// Takes one step of compiling the shader program of the circle's data
    /// buffer. A circle without a data buffer has nothing to compile.
    pub fn compile_shader(&mut self, step: CompileStep) -> (action: Option<CompileAction>)
        ensures
            match old(self)@.buffer {
                Some(buffer) => action == Some(next_action(buffer.shader.compiled, step))
                    && final(self)@ == (CircleView {
                    buffer: Some(
                        CircleDataBufferView {
                            shader: ShaderProgramView {
                                compiled: buffer.shader.compiled || step
                                    == CompileStep::ShadersDeleted,
                                ..buffer.shader
                            },
                            ..buffer
                        },
                    ),
                    ..old(self)@
                }),
                None => action is None && final(self)@ == old(self)@,
            },
    {
        match self.circle_data_buffer.take() {
            Some(buffer) => {
                let mut buffer = buffer;
                let action: CompileAction = buffer.compile_shader(step);
                self.circle_data_buffer = Some(buffer);
                Some(action)
            },
            None => None,
        }
    }

    /// Keeps the handles that the driver handed out for the vertex array and
    /// the vertex buffer of the circle's data buffer.
    pub fn generate_buffers(&mut self, vao: u32, vbo: u32)
        ensures
            final(self)@ == match old(self)@.buffer {
                Some(buffer) => CircleView {
                    buffer: Some(CircleDataBufferView { vao, vbo, ..buffer }),
                    ..old(self)@
                },
                None => old(self)@,
            },
    {
        match self.circle_data_buffer.take() {
            Some(buffer) => {
                let mut buffer = buffer;
                buffer.generate_buffers(vao, vbo);
                self.circle_data_buffer = Some(buffer);
            },
            None => {},
        }
    }

    /// Which radius the surface shrinks, so that the circle stays round on a
    /// surface that is not square.
    pub fn adjust_radius(&self, resolution: &Resolution) -> (axis: Option<RadiusAxis>)
        ensures
            axis == shrunk_axis(*resolution),
    {
        if resolution.width == resolution.height {
            None
        } else if resolution.width > resolution.height {
            Some(RadiusAxis::Width)
        } else {
            Some(RadiusAxis::Height)
        }
    }

    /// Replaces one of the two radii.
    pub fn set_radius(&mut self, axis: RadiusAxis, radius: u32)
        ensures
            final(self)@ == match axis {
                RadiusAxis::Width => CircleView { radius_width: radius, ..old(self)@ },
                RadiusAxis::Height => CircleView { radius_height: radius, ..old(self)@ },
            },
    {
        match axis {
            RadiusAxis::Width => {
                self.radius_width = radius;
            },
            RadiusAxis::Height => {
                self.radius_height = radius;
            },
        }
    }

    /// Lays out the circle's buffer: its colour, its centre, and the points
    /// on its edge, one for each segment, in the order in which the fan goes
    /// round.
    pub fn calculate_raw_data(&self, points: &Vec<(u32, u32)>) -> (data: Vec<u32>)
        requires
            points@.len() == self@.segments,
        ensures
            data@ == raw_data(self@, points@),
            data@.len() == 7 + 3 * self@.segments,
    {
        let mut result: Vec<u32> = Vec::new();
        result = self.add_color(result);
        result = self.add_center_point(result);
        result = Circle::add_triangles(result, points);
        proof {
            lemma_raw_data_len(self@, points@);
        }
        result
    }

    /// Appends the four numbers of the colour.
    fn add_color(&self, buffer: Vec<u32>) -> (extended: Vec<u32>)
        ensures
            extended@ == buffer@ + normalized(self@.color),
    {
        let mut extended: Vec<u32> = buffer;
        let ghost start = extended@;
        let numbers: [u32; 4] = self.color.get_as_normalized_f32();
        extended.push(numbers[0]);
        extended.push(numbers[1]);
        extended.push(numbers[2]);
        extended.push(numbers[3]);
        assert(extended@ =~= start + normalized(self@.color));
        extended
    }

    /// Appends the clamped centre and a zero.
    fn add_center_point(&self, buffer: Vec<u32>) -> (extended: Vec<u32>)
        ensures
            extended@ == buffer@ + seq![
                clamped_center(self@.center).0,
                clamped_center(self@.center).1,
                ZERO,
            ],
    {
        let mut extended: Vec<u32> = buffer;
        let ghost start = extended@;
        let center: (u32, u32) = self.normalized_center_coordinates();
        extended.push(center.0);
        extended.push(center.1);
        extended.push(ZERO);
        assert(extended@ =~= start + seq![
            clamped_center(self@.center).0,
            clamped_center(self@.center).1,
            ZERO,
        ]);
        extended
    }

    /// The centre with each coordinate limited to the range from minus one
    /// to one.
    pub fn normalized_center_coordinates(&self) -> (center: (u32, u32))
        ensures
            center == clamped_center(self@.center),
    {
        (clamp_signed_unit(self.center.0), clamp_signed_unit(self.center.1))
    }

    /// A radius limited to the range from zero to one.
    pub fn normalized_radius(radius: u32) -> (clamped: u32)
        ensures
            clamped == unit_clamped(radius),
    {
        clamp_unit(radius)
    }

    /// Appends each point on the edge with a zero.
    fn add_triangles(buffer: Vec<u32>, points: &Vec<(u32, u32)>) -> (extended: Vec<u32>)
        ensures
            extended@ == buffer@ + edge_numbers(points@),
    {
        let mut extended: Vec<u32> = buffer;
        let ghost start = extended@;
        let mut i: usize = 0;
        while i < points.len()
            invariant
                i <= points.len(),
                extended@ == start + edge_numbers(points@.take(i as int)),
            decreases points.len() - i,
        {
            let point: (u32, u32) = points[i];
            extended.push(point.0);
            extended.push(point.1);
            extended.push(ZERO);
            proof {
                let upto = points@.take(i as int + 1);
                assert(upto.drop_last() =~= points@.take(i as int));
                assert(upto.last() == points@[i as int]);
                assert(extended@ =~= start + edge_numbers(upto));
            }
            i = i + 1;
        }
        assert(points@.take(points@.len() as int) =~= points@);
        extended
    }
}

impl CircleDataBuffer {
    /// A record without any handle.
    pub fn new(segments: u16, shader: ShaderProgram) -> (buffer: Self)
        ensures
            buffer@ == (CircleDataBufferView { vao: 0, vbo: 0, segments, shader: shader@ }),
    {
        CircleDataBuffer { vao: 0, vbo: 0, shader, segments }
    }

    /// The handle of the vertex array.
    pub fn vao(&self) -> (handle: u32)
        ensures
            handle == self@.vao,
    {
        self.vao
    }

    /// The handle of the vertex buffer.
    pub fn vbo(&self) -> (handle: u32)
        ensures
            handle == self@.vbo,
    {
        self.vbo
    }

    /// The shader program.
    pub fn shader(&self) -> (shader: &ShaderProgram)
        ensures
            shader@ == self@.shader,
    {
        &self.shader
    }

    /// How the circle is drawn: as a fan round the centre, which is the
    /// vertex after the colour, with one triangle for each segment.
    pub fn draw(&self) -> (call: DrawCall)
        ensures
            call == (DrawCall::TriangleFan { first: 1, count: self@.segments as i32 }),
    {
        DrawCall::TriangleFan { first: 1, count: self.segments as i32 }
    }

    /// Takes one step of compiling the shader program.
    pub fn compile_shader(&mut self, step: CompileStep) -> (action: CompileAction)
        ensures
            action == next_action(old(self)@.shader.compiled, step),
            final(self)@ == (CircleDataBufferView {
                shader: ShaderProgramView {
                    compiled: old(self)@.shader.compiled || step == CompileStep::ShadersDeleted,
                    ..old(self)@.shader
                },
                ..old(self)@
            }),
    {
        self.shader.compile(step)
    }

    /// Whether a vertex array and a vertex buffer have to be asked for: one
    /// of the two handles is missing.
    pub fn needs_buffers(&self) -> (needed: bool)
        ensures
            needed == (self@.vao == 0 || self@.vbo == 0),
    {
        self.vao == 0 || self.vbo == 0
    }

    /// Keeps the handles that the driver handed out.
    pub fn generate_buffers(&mut self, vao: u32, vbo: u32)
        ensures
            final(self)@ == (CircleDataBufferView { vao, vbo, ..old(self)@ }),
    {
        self.vao = vao;
        self.vbo = vbo;
    }

    /// Where the positions lie in the buffer: three numbers for each vertex,
    /// one after the other, behind the four numbers of the colour.
    pub fn set_position_attribute_ptr() -> (attribute: AttributePointer)
        ensures
            attribute == (AttributePointer { index: 0, size: 3, stride: 12, offset: 16 }),
    {
        AttributePointer { index: 0, size: 3, stride: 12, offset: 16 }
    }

    /// The uniform variable that takes the circle's colour, and the four
    /// numbers to store in it.
    pub fn set_color_via_uniform(color: &RGBA) -> (uniform: (String, [u32; 4]))
        ensures
            uniform.0@ == "circleColor"@,
            uniform.1@ == normalized(color@),
    {
        (String::from_str("circleColor"), color.get_as_normalized_f32())
    }
}

} // verus!
