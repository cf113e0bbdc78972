//! Version metadata synchronisation for a game distribution and its
//! mod-loader: merging of layered descriptors, diffing of identity sets,
//! derivation of the mod-loader index and the decisions around them.

pub mod app_config;
pub mod decimal;
pub mod download;
pub mod duplicate;
pub mod errors;
pub mod models;
pub mod order;
pub mod outside;
pub mod routes;
pub mod scheduler;
pub mod seqs;
pub mod storage;
pub mod strmap;
pub mod sync;
pub mod text;
pub mod utils;
