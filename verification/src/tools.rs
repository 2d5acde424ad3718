//! What a program needs that draws test pictures and compares them with
//! templates: where its files are, what it reports, and how large a
//! screenshot is.

pub mod images;
pub mod macros;
pub mod utilities;
