//! Shader programs: their sources, where the sources are found, and the
//! steps of compiling and linking them.

pub mod shader_program;
pub mod utils;
