//! Reading the catalogue's pages: the data model, the library table and the
//! HTML document access.

pub mod html;
pub mod libraries;
pub mod models;
