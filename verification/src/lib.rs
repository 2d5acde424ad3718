//! Helper types for drawing with OpenGL: colours, vertex attribute sets and
//! their interleaved buffer layout, circle geometry, and the decisions that
//! surround buffer, texture and shader set-up.
//!
//! The library never talks to a graphics context itself. Every function that
//! prepares work for one returns plain values that say what has to be
//! uploaded, bound or drawn, and takes the driver's answers as plain values.
//! Real numbers of single precision are held as their IEEE-754 bit patterns
//! throughout; the module [`single`] says how a pattern is read.
//!
//! - [`single`]: comparisons and roundings of single-precision numbers.
//! - [`color`]: a colour of three bytes and an opacity.
//! - [`polygons`]: attribute sets, their interleaving, buffers, textures and
//!   the polygon builder.
//! - [`circle`]: the buffer of a circle drawn as a fan of triangles.
//! - [`shaders`]: shader sources and the steps of compiling a program.
//! - [`config`]: the size of the drawing surface.
//! - [`tools`]: paths and reports of a program that draws test pictures.

pub mod circle;
pub mod color;
pub mod config;
pub mod polygons;
pub mod shaders;
pub mod single;
pub mod tools;
