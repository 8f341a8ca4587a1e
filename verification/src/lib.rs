//! The finished-document model of a typesetting engine: frames of positioned
//! elements, text runs, metadata and the identifiers they carry.

pub mod geom;
pub mod strings;
pub mod lang;
pub mod text;
pub mod meta;
pub mod image;
pub mod frame;
pub mod doc;
pub mod style;
pub mod font;
pub mod pdf;
pub mod laws;
