//! Forms data as it is handed to a PDF tool.

pub mod fdf_generator;
