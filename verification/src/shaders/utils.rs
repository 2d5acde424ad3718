//! Where the library's own shader sources are found, and what reading one
//! comes to.

use vstd::prelude::*;
use vstd::string::*;

verus! {

/// The directory of the library's shader sources, relative to the workspace.
pub fn get_path_to_shaders() -> (path: String)
    ensures
        path@ == "rusty-opengl/src/shaders/"@,
{
    String::from_str("rusty-opengl/src/shaders/")
}

/// The paths of the sources of a vertex shader and a fragment shader of the
/// given file names: each in its own directory below that of the shaders.
pub fn shader_source_paths(vertex_name: &str, fragment_name: &str) -> (paths: (String, String))
    ensures
        paths.0@ == "rusty-opengl/src/shaders/"@ + "vertex/"@ + vertex_name@,
        paths.1@ == "rusty-opengl/src/shaders/"@ + "fragment/"@ + fragment_name@,
{
    let path_vertex_src: String = get_path_to_shaders().concat("vertex/").concat(vertex_name);
    let path_fragment_src: String = get_path_to_shaders().concat("fragment/").concat(fragment_name);
    (path_vertex_src, path_fragment_src)
}

/// What reading a shader's source comes to: the text of the file at `path`,
/// or an error that names the path where there is no such file. `content` is
/// what the file system gave, nothing where the path does not lead to a file.
pub fn read_src_from_file(path: &str, content: Option<String>) -> (result: Result<String, String>)
    ensures
        match content {
            Some(text) => result == Ok::<String, String>(text),
            None => result matches Err(message) && message@
                == "File could not be opened, path: "@ + path@,
        },
{
    match content {
        Some(text) => Ok(text),
        None => Err(String::from_str("File could not be opened, path: ").concat(path)),
    }
}

} // verus!
