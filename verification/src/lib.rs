//! Land claiming for a chunked voxel world: a registry of claimed chunks and
//! the decisions that protect them.

pub mod chunk;
pub mod claim;
pub mod command;
pub mod decision;
pub mod laws;
pub mod player;
pub mod plugin;
pub mod registry;
