//! What a synchronisation cycle decides: what to fetch, what to keep, and what
//! the derived documents hold.

pub mod forge;
pub mod forge_installer;
pub mod forge_pipeline;
pub mod keys;
pub mod layout;
pub mod mojang;
pub mod forge_files;
pub mod forge_index;
