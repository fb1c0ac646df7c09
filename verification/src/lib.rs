//! A library for reading the account, reservation and search pages of the
//! University of Hamburg's library catalogue and turning them into API answers.

pub mod routes;
pub mod scraping;
pub mod json;
pub mod text;
