//! Verified session logic of a CAD modeling backend: entity bookkeeping,
//! sketch paths, selection, camera and scene state, and the dispatch of
//! modeling commands, written over a geometry kernel that the embedding
//! program provides.

pub mod ids;
pub mod modeling_cmd;
pub mod responses;
pub mod session;
pub mod kernel;
pub mod sketch;
pub mod text;
pub mod commands;
pub mod ws_messages;
pub mod config;
pub mod laws;
pub mod kernel_laws;
