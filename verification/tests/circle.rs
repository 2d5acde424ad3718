use rusty_opengl::circle::{Circle, CircleDataBuffer, RadiusAxis};
use rusty_opengl::color::RGBA;
use rusty_opengl::config::Resolution;
use rusty_opengl::polygons::databuffer::{AttributePointer, DrawCall};
use rusty_opengl::shaders::shader_program::{CompileAction, CompileStep, ShaderProgram};

fn floats(patterns: &[u32]) -> Vec<f32> {
    patterns.iter().map(|pattern| f32::from_bits(*pattern)).collect()
}

fn circle(center: (f32, f32), radius: f32, color: RGBA, segments: Option<u16>) -> Circle {
    Circle::new((center.0.to_bits(), center.1.to_bits()), radius.to_bits(), color, segments)
}

/// The points on the edge, at the angles 360/N, 2 * 360/N and so on, measured
/// from the vertical.
fn points_on_edge(circle: &Circle) -> Vec<(u32, u32)> {
    let mut points: Vec<(u32, u32)> = Vec::new();
    if circle.segments() == 0 {
        return points;
    }
    let radius_width = f32::from_bits(circle.radius_width());
    let radius_height = f32::from_bits(circle.radius_height());
    let angle = 360_f32 / f32::from(circle.segments());
    let mut current_angle = angle;
    for _ in 0..circle.segments() {
        let x = radius_width * f32::sin(f32::to_radians(current_angle));
        let y = radius_height * f32::cos(f32::to_radians(current_angle));
        points.push((x.to_bits(), y.to_bits()));
        current_angle += angle;
    }
    points
}

#[test]
fn test_calculate_raw_data_no_segments() {
    let circle = circle((0.5_f32, 0.4_f32), 0.2_f32, RGBA::from_hex(0x00_00_FF_FF), Some(0));
    let raw_data = circle.calculate_raw_data(&points_on_edge(&circle));
    let expected = vec![0_f32, 0_f32, 1_f32, 1_f32, 0.5_f32, 0.4_f32, 0_f32];
    assert_eq!(expected, floats(&raw_data));
}

#[test]
fn test_calculate_raw_data_six_segments() {
    let circle = circle((0.5_f32, 0.4_f32), 0.2_f32, RGBA::from_hex(0x00_00_FF_FF), Some(6));
    let raw_data = circle.calculate_raw_data(&points_on_edge(&circle));
    let triangles = 6;
    let expected_len = triangles * 3 + 7;
    assert_eq!(expected_len, raw_data.len());
}

#[test]
fn test_calculate_raw_data_default_segments() {
    let circle = circle((0.5_f32, 0.4_f32), 0.2_f32, RGBA::from_hex(0x00_00_FF_FF), None);
    let raw_data = circle.calculate_raw_data(&points_on_edge(&circle));
    let expected_len = Circle::DEFAULT_SEGMENTS as usize * 3 + 7;
    assert_eq!(expected_len, raw_data.len());
}

#[test]
fn raw_data_holds_color_center_and_points_in_turn() {
    let circle = circle((0.25, -0.5), 1.0, RGBA::from_hex(0xFF_00_FF_FF), Some(2));
    let raw_data = circle.calculate_raw_data(&vec![(11, 12), (21, 22)]);
    let one = 1_f32.to_bits();
    let expected =
        vec![one, 0, one, one, 0.25_f32.to_bits(), (-0.5_f32).to_bits(), 0, 11, 12, 0, 21, 22, 0];
    assert_eq!(expected, raw_data);
}

#[test]
fn center_is_limited_to_the_square_around_the_origin() {
    let color = RGBA::empty();
    let inside = circle((0.5, -1.0), 0.2, color, Some(0));
    assert_eq!((0.5_f32.to_bits(), (-1_f32).to_bits()), inside.normalized_center_coordinates());
    let outside = circle((1.5, -7.0), 0.2, color, Some(0));
    assert_eq!((1_f32.to_bits(), (-1_f32).to_bits()), outside.normalized_center_coordinates());
    let far = circle((f32::NEG_INFINITY, f32::INFINITY), 0.2, color, Some(0));
    assert_eq!(((-1_f32).to_bits(), 1_f32.to_bits()), far.normalized_center_coordinates());
    let raw_data = outside.calculate_raw_data(&vec![]);
    assert_eq!(vec![1_f32, -1_f32, 0_f32], floats(&raw_data[4..]));
}

#[test]
fn radius_is_limited_to_the_range_from_zero_to_one() {
    let color = RGBA::empty();
    assert_eq!(0.2_f32.to_bits(), circle((0.0, 0.0), 0.2, color, None).radius_width());
    assert_eq!(1_f32.to_bits(), circle((0.0, 0.0), 3.0, color, None).radius_width());
    assert_eq!(1_f32.to_bits(), circle((0.0, 0.0), 3.0, color, None).radius_height());
    assert_eq!(0_f32.to_bits(), circle((0.0, 0.0), -3.0, color, None).radius_height());
    assert_eq!(0.2_f32.to_bits(), Circle::normalized_radius(0.2_f32.to_bits()));
    assert_eq!(32, circle((0.0, 0.0), 0.2, color, None).segments());
    assert_eq!(5, circle((0.0, 0.0), 0.2, color, Some(5)).segments());
}

#[test]
fn the_radius_along_the_longer_side_is_adjusted() {
    let mut circle = circle((0.0, 0.0), 0.5, RGBA::empty(), None);
    assert_eq!(None, circle.adjust_radius(&Resolution { width: 600, height: 600 }));
    assert_eq!(
        Some(RadiusAxis::Width),
        circle.adjust_radius(&Resolution { width: 900, height: 600 })
    );
    assert_eq!(
        Some(RadiusAxis::Height),
        circle.adjust_radius(&Resolution { width: 600, height: 900 })
    );
    circle.set_radius(RadiusAxis::Width, 0.125_f32.to_bits());
    assert_eq!(0.125_f32.to_bits(), circle.radius_width());
    assert_eq!(0.5_f32.to_bits(), circle.radius_height());
    circle.set_radius(RadiusAxis::Height, 0.75_f32.to_bits());
    assert_eq!(0.125_f32.to_bits(), circle.radius_width());
    assert_eq!(0.75_f32.to_bits(), circle.radius_height());
}

#[test]
fn a_circle_is_set_up_once() {
    let mut circle = circle((0.5, 0.4), 0.2, RGBA::from_hex(0x00_00_FF_FF), Some(3));
    assert_eq!(None, circle.draw());
    assert!(circle.circle_data_buffer().is_none());
    assert_eq!(None, circle.compile_shader(CompileStep::Begin));
    circle.generate_buffers(1, 2);
    assert!(circle.circle_data_buffer().is_none());

    circle.init(ShaderProgram::new(7, "vertex", "fragment"));
    assert_eq!(Some(DrawCall::TriangleFan { first: 1, count: 3 }), circle.draw());
    let buffer = circle.circle_data_buffer().unwrap();
    assert_eq!((0, 0, 7), (buffer.vao(), buffer.vbo(), buffer.shader().id()));
    assert!(buffer.needs_buffers());

    circle.init(ShaderProgram::new(8, "other", "other"));
    assert_eq!(7, circle.circle_data_buffer().unwrap().shader().id());

    circle.generate_buffers(4, 5);
    let buffer = circle.circle_data_buffer().unwrap();
    assert_eq!((4, 5), (buffer.vao(), buffer.vbo()));
    assert_eq!(
        Some(CompileAction::CompileVertex),
        circle.compile_shader(CompileStep::Begin)
    );
    assert_eq!(
        Some(CompileAction::Finish(true)),
        circle.compile_shader(CompileStep::ShadersDeleted)
    );
    assert!(circle.circle_data_buffer().unwrap().shader().is_compiled());
    assert_eq!(Some(DrawCall::TriangleFan { first: 1, count: 3 }), circle.draw());
}

#[test]
fn a_circle_data_buffer_keeps_its_handles() {
    let mut buffer = CircleDataBuffer::new(6, ShaderProgram::new(3, "vertex", "fragment"));
    assert!(buffer.needs_buffers());
    buffer.generate_buffers(4, 0);
    assert!(buffer.needs_buffers());
    buffer.generate_buffers(4, 5);
    assert!(!buffer.needs_buffers());
    assert_eq!((4, 5), (buffer.vao(), buffer.vbo()));
    assert_eq!(DrawCall::TriangleFan { first: 1, count: 6 }, buffer.draw());
    assert_eq!(
        AttributePointer { index: 0, size: 3, stride: 12, offset: 16 },
        CircleDataBuffer::set_position_attribute_ptr()
    );
    assert_eq!(
        CompileAction::CompileVertex,
        buffer.compile_shader(CompileStep::Begin)
    );
    assert!(!buffer.shader().is_compiled());
    assert_eq!(CompileAction::Finish(true), buffer.compile_shader(CompileStep::ShadersDeleted));
    assert!(buffer.shader().is_compiled());
    let (name, numbers) = CircleDataBuffer::set_color_via_uniform(&RGBA::from_hex(0xFF_00_00_FF));
    assert_eq!("circleColor", name);
    assert_eq!(vec![1_f32, 0_f32, 0_f32, 1_f32], floats(&numbers));
}
