use rusty_opengl::color::RGBA;
use rusty_opengl::polygons::databuffer::{AttributePointer, DataBuffer, DrawCall};
use rusty_opengl::polygons::reactangle::Reactangle;
use rusty_opengl::polygons::texture::{
    Filtering, Texture, TextureParameter, TextureSetting, Wrapping,
};
use rusty_opengl::polygons::triangle::Triangle;
use rusty_opengl::polygons::vertices::Vertices;
use rusty_opengl::polygons::{PolygonBuilder, PolygonDraw};
use rusty_opengl::shaders::shader_program::{CompileAction, CompileStep, ShaderProgram};

fn bits(values: &[f32]) -> Vec<u32> {
    values.iter().map(|value| value.to_bits()).collect()
}

fn program() -> ShaderProgram {
    ShaderProgram::new(3, "vertex", "fragment")
}

fn texture() -> Texture {
    Texture::new(9, 2, 1, vec![1, 2, 3, 4, 5, 6])
}

#[test]
fn a_new_data_buffer_has_no_handles() {
    let buffer = DataBuffer::new();
    assert_eq!((0, 0, 0, 0), (buffer.vao(), buffer.vbo(), buffer.ebo(), buffer.stride()));
    assert!(buffer.needs_buffers());
    assert!(buffer.needs_ebo_buffer());
    assert_eq!(DrawCall::Triangles { first: 0, count: 3 }, buffer.draw());
}

#[test]
fn a_data_buffer_keeps_its_handles() {
    let mut buffer = DataBuffer::new();
    buffer.generate_buffers(1, 2);
    assert!(!buffer.needs_buffers());
    assert!(buffer.needs_ebo_buffer());
    buffer.generate_ebo_buffer(3);
    assert!(!buffer.needs_ebo_buffer());
    assert_eq!((1, 2, 3), (buffer.vao(), buffer.vbo(), buffer.ebo()));
    assert_eq!(DrawCall::IndexedTriangles { count: 6 }, buffer.draw());
    assert_eq!([0, 1, 3, 1, 2, 3], DataBuffer::set_attribute_element_array_buffer());
}

#[test]
fn the_attributes_follow_the_stride() {
    let mut buffer = DataBuffer::new();
    let attributes = buffer.set_attribute_ptr(28);
    assert_eq!(28, buffer.stride());
    assert_eq!(
        vec![
            AttributePointer { index: 0, size: 3, stride: 28, offset: 0 },
            AttributePointer { index: 1, size: 4, stride: 28, offset: 12 },
        ],
        attributes
    );
    let attributes = buffer.set_attribute_ptr(9);
    assert_eq!(9, buffer.stride());
    assert_eq!(
        vec![
            AttributePointer { index: 0, size: 3, stride: 9, offset: 0 },
            AttributePointer { index: 1, size: 4, stride: 9, offset: 12 },
            AttributePointer { index: 2, size: 2, stride: 9, offset: 24 },
        ],
        attributes
    );
    assert_eq!(2, buffer.set_attribute_ptr(36).len());
}

#[test]
fn the_buffer_takes_the_interleaved_attributes() {
    let vertices = Vertices::new(vec![1, 2, 3], vec![4, 5, 6, 7], vec![8, 9]);
    assert_eq!(Ok(vec![1, 2, 3, 4, 5, 6, 7, 8, 9]), DataBuffer::init_buffer(&vertices));
    let invalid = Vertices::new(vec![1, 2, 3], vec![4, 5, 6], vec![]);
    assert_eq!(
        Err(String::from("Invalid vertices structure")),
        DataBuffer::init_buffer(&invalid)
    );
}

#[test]
fn setting_a_buffer_up_follows_the_attribute_set() {
    let mut buffer = DataBuffer::new();
    let triangle = Vertices::new(vec![1, 2, 3, 4, 5, 6, 7, 8, 9], vec![], vec![]);
    let setup = buffer.init(&triangle).unwrap();
    assert_eq!(vec![1, 2, 3, 4, 5, 6, 7, 8, 9], setup.numbers);
    assert_eq!(None, setup.indices);
    assert_eq!(
        vec![
            AttributePointer { index: 0, size: 3, stride: 12, offset: 0 },
            AttributePointer { index: 1, size: 4, stride: 12, offset: 12 },
        ],
        setup.attributes
    );
    assert_eq!(12, buffer.stride());

    let rectangle = Vertices::new(vec![0; 12], vec![1; 16], vec![]);
    let setup = buffer.init(&rectangle).unwrap();
    assert_eq!(28, setup.numbers.len());
    assert_eq!(Some([0, 1, 3, 1, 2, 3]), setup.indices);
    assert_eq!(28, buffer.stride());
    assert_eq!(2, setup.attributes.len());

    let invalid = Vertices::new(vec![0; 12], vec![1; 15], vec![]);
    let failed = buffer.init(&invalid);
    assert_eq!(Some(String::from("Invalid vertices structure")), failed.err());
    assert_eq!(28, buffer.stride());
}

#[test]
fn texture_settings_name_the_values_of_the_driver() {
    assert_eq!(0x2601, Filtering::Linear.value());
    assert_eq!(0x2600, Filtering::Nearest.value());
    assert_eq!(0x2901, Wrapping::Repeat.value());
    assert_eq!(0x8370, Wrapping::Mirrored.value());
    assert_eq!(0x812F, Wrapping::ClampToEdge.value());
    assert_eq!(0x812D, Wrapping::ClampToBorder.value());
    let mut texture = texture();
    assert_eq!(
        [
            TextureSetting { parameter: TextureParameter::MinFilter, value: 0x2600 },
            TextureSetting { parameter: TextureParameter::MagFilter, value: 0x2600 },
        ],
        texture.set_filtering(Filtering::Nearest)
    );
    assert_eq!(
        [
            TextureSetting { parameter: TextureParameter::WrapS, value: 0x812F },
            TextureSetting { parameter: TextureParameter::WrapT, value: 0x812F },
        ],
        texture.set_wrapping(Wrapping::ClampToEdge)
    );
    assert_eq!(
        [
            TextureSetting { parameter: TextureParameter::WrapS, value: 0x2901 },
            TextureSetting { parameter: TextureParameter::WrapT, value: 0x2901 },
            TextureSetting { parameter: TextureParameter::MinFilter, value: 0x2601 },
            TextureSetting { parameter: TextureParameter::MagFilter, value: 0x2601 },
        ],
        texture.set_default()
    );
}

#[test]
fn a_texture_hands_out_its_image() {
    let texture = texture();
    assert_eq!(9, texture.id());
    assert_eq!(&vec![1, 2, 3, 4, 5, 6], texture.data());
    assert_eq!(Some((2, 1)), texture.generate_mipmap());
    assert_eq!(Some((i32::MAX, 0)), Texture::new(1, i32::MAX as u32, 0, vec![]).generate_mipmap());
    assert_eq!(None, Texture::new(1, i32::MAX as u32 + 1, 1, vec![]).generate_mipmap());
    assert_eq!(None, Texture::new(1, 1, u32::MAX, vec![]).generate_mipmap());
    assert_eq!(texture.data(), texture.clone().data());
}

#[test]
fn a_triangle_uploads_its_interleaved_attributes() {
    let mut triangle = Triangle::new(Vertices::new(vec![1, 2, 3, 4, 5, 6, 7, 8, 9], vec![], vec![]));
    assert!(triangle.needs_buffers());
    triangle.generate_buffers(5, 6);
    assert!(!triangle.needs_buffers());
    assert_eq!((5, 6), (triangle.vao(), triangle.vbo()));
    assert_eq!(Some(vec![1, 2, 3, 4, 5, 6, 7, 8, 9]), triangle.buffer_data());
    assert_eq!(DrawCall::Triangles { first: 0, count: 3 }, triangle.draw());
    assert_eq!(
        AttributePointer { index: 0, size: 3, stride: 12, offset: 0 },
        Triangle::set_attribute_ptr()
    );
    assert_eq!(
        AttributePointer { index: 0, size: 3, stride: 12, offset: 0 },
        triangle.set_position_attribute_ptr()
    );
    let invalid = Triangle::new(Vertices::new(vec![1, 2, 3], vec![1], vec![]));
    assert_eq!(None, invalid.buffer_data());
}

#[test]
fn a_rectangle_lies_in_the_plane() {
    let corners = rusty_opengl::polygons::reactangle::Vertices::new([1, 2, 3, 4, 5, 6, 7, 8]);
    assert_eq!([1, 2, 0, 3, 4, 0, 5, 6, 0, 7, 8, 0], corners.vert());
    assert_eq!(12, rusty_opengl::polygons::reactangle::Vertices::SIZE);
    let mut rectangle = Reactangle::new(corners);
    assert!(rectangle.needs_array_buffer());
    let attribute = rectangle.init_array_buffer(1, 2, 3);
    assert_eq!(AttributePointer { index: 0, size: 3, stride: 12, offset: 0 }, attribute);
    assert!(!rectangle.needs_array_buffer());
    assert_eq!((1, 2, 3), (rectangle.vao(), rectangle.vbo(), rectangle.ebo()));
    assert_eq!([0, 1, 3, 1, 2, 3], rectangle.set_element_array_buffer());
    assert_eq!(DrawCall::IndexedTriangles { count: 6 }, rectangle.draw());
}

#[test]
fn a_rectangle_takes_new_numbers_pair_by_pair() {
    let corners = rusty_opengl::polygons::reactangle::Vertices::new([1, 2, 3, 4, 5, 6, 7, 8]);
    let mut rectangle = Reactangle::new(corners);
    rectangle.set_vertices(&vec![91]);
    assert_eq!([1, 2, 0, 3, 4, 0, 5, 6, 0, 7, 8, 0], rectangle.vertices().vert());
    rectangle.set_vertices(&vec![91, 92, 93]);
    assert_eq!([91, 92, 0, 3, 4, 0, 5, 6, 0, 7, 8, 0], rectangle.vertices().vert());
    rectangle.set_vertices(&vec![81, 82, 83, 84, 85, 86, 87]);
    assert_eq!([81, 82, 83, 84, 85, 86, 5, 6, 0, 7, 8, 0], rectangle.vertices().vert());
    rectangle.set_vertices(&vec![71, 72, 73, 74, 75, 76, 77, 78, 79, 70]);
    assert_eq!([71, 72, 73, 74, 75, 76, 77, 78, 0, 7, 8, 0], rectangle.vertices().vert());
}

#[test]
fn a_builder_colors_every_vertex() {
    let mut builder = PolygonBuilder::new();
    builder.set_vertices(Vertices::new(bits(&[0.0; 9]), vec![], vec![]));
    builder.set_color(RGBA::from_hex(0xFF_A5_00_FF));
    let polygon = builder.build(program());
    let orange = RGBA::from_hex(0xFF_A5_00_FF).get_as_normalized_f32();
    let mut colors: Vec<u32> = Vec::new();
    for _ in 0..3 {
        colors.extend_from_slice(&orange);
    }
    assert_eq!(&colors, polygon.vertices().colors_pos());
    assert!(polygon.vertices().textures_pos().is_empty());
    assert!(polygon.texture().is_none());
    assert_eq!(3, polygon.shader_program().id());
    assert!(polygon.data_buffer().needs_buffers());
    assert_eq!(28, polygon.vertices().get_stride());
    assert_eq!(21, polygon.vertices().create_single_vertices_array().unwrap().len());
}

#[test]
fn a_builder_without_a_color_takes_white() {
    let mut builder = PolygonBuilder::default();
    builder.set_vertices(Vertices::new(bits(&[0.0; 6]), bits(&[0.5; 3]), vec![]));
    builder.prepare_vertices();
    let polygon = builder.build(program());
    assert_eq!(&bits(&[1.0; 8]), polygon.vertices().colors_pos());
}

#[test]
fn a_builder_with_a_texture_gives_texture_coordinates() {
    let mut builder = PolygonBuilder::new();
    builder.set_vertices(Vertices::new(bits(&[0.0; 9]), vec![], vec![]));
    builder.set_texture(texture());
    assert_eq!(
        (String::from("basic_texture.vert"), String::from("basic_texture.frag")),
        builder.create_shader()
    );
    let triangle = builder.build(program());
    assert_eq!(&bits(&[1.0, 1.0, 1.0, 0.0, 0.0, 0.0]), triangle.vertices().textures_pos());
    assert_eq!(9, triangle.texture().unwrap().id());
    assert_eq!(36, triangle.vertices().get_stride());
    assert_eq!(
        (String::from("basic_colored.vert"), String::from("basic_colored.frag")),
        builder.create_shader()
    );

    builder.set_vertices(Vertices::new(bits(&[0.0; 12]), vec![], vec![]));
    builder.set_texture(texture());
    let rectangle = builder.build(program());
    assert_eq!(
        &bits(&[1.0, 1.0, 1.0, 0.0, 0.0, 0.0, 0.0, 1.0]),
        rectangle.vertices().textures_pos()
    );
    assert_eq!(27 + 9, rectangle.vertices().create_single_vertices_array().unwrap().len());

    builder.set_vertices(Vertices::new(bits(&[0.0; 15]), vec![], vec![]));
    builder.set_texture(texture());
    let other = builder.build(program());
    assert!(other.vertices().textures_pos().is_empty());

    builder.set_vertices(Vertices::new(bits(&[0.0; 9]), vec![], vec![7, 7]));
    builder.set_texture(texture());
    let given = builder.build(program());
    assert_eq!(&vec![7, 7], given.vertices().textures_pos());
}

#[test]
fn a_polygon_says_how_it_is_drawn() {
    let mut builder = PolygonBuilder::new();
    builder.set_vertices(Vertices::new(bits(&[0.0; 12]), vec![], vec![]));
    builder.set_texture(texture());
    let mut polygon = builder.build(program());
    assert_eq!(
        PolygonDraw {
            texture: Some(9),
            program: 3,
            call: DrawCall::Triangles { first: 0, count: 3 },
        },
        polygon.draw()
    );
    polygon.generate_buffers(1, 2);
    polygon.generate_ebo_buffer(4);
    assert_eq!(
        PolygonDraw {
            texture: Some(9),
            program: 3,
            call: DrawCall::IndexedTriangles { count: 6 },
        },
        polygon.draw()
    );
    assert_eq!((1, 2, 4), {
        let buffer = polygon.data_buffer();
        (buffer.vao(), buffer.vbo(), buffer.ebo())
    });
}

#[test]
fn a_polygon_is_set_up_from_its_own_attribute_set() {
    let mut builder = PolygonBuilder::new();
    builder.set_vertices(Vertices::new(bits(&[0.0; 12]), vec![], vec![]));
    builder.set_color(RGBA::from_hex(0x00_00_FF_FF));
    let mut polygon = builder.build(program());
    let setup = polygon.init().unwrap();
    assert_eq!(polygon.vertices().create_single_vertices_array().unwrap(), setup.numbers);
    assert_eq!(28, setup.numbers.len());
    assert_eq!(Some([0, 1, 3, 1, 2, 3]), setup.indices);
    assert_eq!(2, setup.attributes.len());
    assert_eq!(28, polygon.data_buffer().stride());

    assert_eq!(CompileAction::CompileVertex, polygon.compile(CompileStep::Begin));
    assert!(!polygon.shader_program().is_compiled());
    assert_eq!(CompileAction::Finish(true), polygon.compile(CompileStep::ShadersDeleted));
    assert!(polygon.shader_program().is_compiled());

    builder.set_vertices(Vertices::new(bits(&[0.0; 9]), vec![], bits(&[0.0; 4])));
    let mut invalid = builder.build(program());
    assert_eq!(Some(String::from("Invalid vertices structure")), invalid.init().err());
    assert_eq!(0, invalid.data_buffer().stride());
}

#[test]
fn a_polygon_whose_shaders_do_not_compile_is_not_built() {
    assert_eq!(Ok(()), PolygonBuilder::init_polygon(true));
    assert_eq!(
        Err(String::from("Shader program compilation error")),
        PolygonBuilder::init_polygon(false)
    );
}
