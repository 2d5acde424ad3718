use rusty_opengl::shaders::shader_program::{
    Color, CompileAction, CompileStep, ShaderProgram, ShaderType,
};
use rusty_opengl::shaders::utils::{get_path_to_shaders, read_src_from_file, shader_source_paths};

#[test]
fn a_new_program_is_not_compiled() {
    let program = ShaderProgram::new(12, "void main() {}", "void main() { discard; }");
    assert!(!program.is_compiled());
    assert_eq!(12, program.id());
    assert_eq!("void main() {}", program.match_shader_src(ShaderType::Vertex));
    assert_eq!("void main() { discard; }", program.match_shader_src(ShaderType::Fragment));
}

fn compiled_program() -> ShaderProgram {
    let mut program = ShaderProgram::new(1, "vertex", "fragment");
    assert_eq!(CompileAction::Finish(true), program.compile(CompileStep::ShadersDeleted));
    program
}

#[test]
fn a_compilation_goes_through_both_shaders_and_the_link() {
    let mut program = ShaderProgram::new(1, "vertex", "fragment");
    assert_eq!(
        CompileAction::CompileVertex,
        program.compile(CompileStep::Begin)
    );
    assert_eq!(
        CompileAction::CompileFragment { vertex: 5 },
        program.compile(CompileStep::VertexCompiled { shader: 5, status: true })
    );
    assert_eq!(
        CompileAction::Link { vertex: 5, fragment: 6 },
        program.compile(CompileStep::FragmentCompiled { vertex: 5, shader: 6, status: true })
    );
    assert_eq!(
        CompileAction::DeleteShaders { vertex: 5, fragment: 6 },
        program.compile(CompileStep::Linked { vertex: 5, fragment: 6, status: true })
    );
    assert!(!program.is_compiled());
    assert_eq!(CompileAction::Finish(true), program.compile(CompileStep::ShadersDeleted));
    assert!(program.is_compiled());
    assert_eq!(CompileAction::Finish(true), program.compile(CompileStep::Begin));
}

#[test]
fn a_shader_that_does_not_compile_ends_the_compilation() {
    let mut program = ShaderProgram::new(1, "vertex", "fragment");
    assert_eq!(
        CompileAction::Finish(false),
        program.compile(CompileStep::VertexCompiled { shader: 5, status: false })
    );
    assert_eq!(
        CompileAction::Finish(false),
        program.compile(CompileStep::VertexCompiled { shader: 0, status: true })
    );
    assert_eq!(
        CompileAction::Finish(false),
        program.compile(CompileStep::FragmentCompiled { vertex: 5, shader: 6, status: false })
    );
    assert_eq!(
        CompileAction::Finish(false),
        program.compile(CompileStep::FragmentCompiled { vertex: 5, shader: 0, status: true })
    );
    assert_eq!(
        CompileAction::Finish(false),
        program.compile(CompileStep::Linked { vertex: 5, fragment: 6, status: false })
    );
    assert!(!program.is_compiled());
    assert_eq!(0, ShaderProgram::compile_shader(9, false));
    assert_eq!(9, ShaderProgram::compile_shader(9, true));
}

#[test]
fn a_new_source_takes_the_compilation_back() {
    let mut program = compiled_program();
    assert!(program.is_compiled());
    program.set_fragment_shader("other fragment");
    assert!(!program.is_compiled());
    assert_eq!("other fragment", program.match_shader_src(ShaderType::Fragment));
    assert_eq!("vertex", program.match_shader_src(ShaderType::Vertex));

    let mut program = compiled_program();
    program.set_vertex_shader("other vertex");
    assert!(!program.is_compiled());
    assert_eq!("other vertex", program.match_shader_src(ShaderType::Vertex));
    assert_eq!("fragment", program.match_shader_src(ShaderType::Fragment));
    assert_eq!(1, program.id());
}

#[test]
fn a_uniform_is_set_where_the_driver_knows_it() {
    let value = Color { r: 1, g: 2, b: 3, a: 4 };
    assert_eq!(None, ShaderProgram::set_uniform4f_variable(-1, &value));
    assert_eq!(Some([1, 2, 3, 4]), ShaderProgram::set_uniform4f_variable(0, &value));
    assert_eq!(Some([1, 2, 3, 4]), ShaderProgram::set_uniform4f_variable(17, &value));
}

#[test]
fn shader_sources_lie_below_the_directory_of_the_shaders() {
    assert_eq!("rusty-opengl/src/shaders/", get_path_to_shaders());
    let (vertex, fragment) = shader_source_paths("colored_circle.vert", "basic_colored.frag");
    assert_eq!("rusty-opengl/src/shaders/vertex/colored_circle.vert", vertex);
    assert_eq!("rusty-opengl/src/shaders/fragment/basic_colored.frag", fragment);
}

#[test]
fn test_read_src_from_file_no_file() {
    let result = read_src_from_file("/nonExistedPath", None);
    assert!(result.is_err());
    assert_eq!(Err(String::from("File could not be opened, path: /nonExistedPath")), result);
}

#[test]
fn test_read_src_from_file_exists() {
    let text = "Hello World file reader";
    let file_name = "file_reader_test.txt";
    let written = format!("{}\n", text);

    let result = read_src_from_file(file_name, Some(written)).unwrap();
    assert_eq!(result.trim(), text);
}
