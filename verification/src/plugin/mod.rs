//! Pages that show the generated documentation.

pub mod rapidoc;
