//! Where the upstream documents are fetched from, and what is reported when
//! one of them cannot be read.

pub mod errors;
pub mod forge;
pub mod mojang;
