//! Dependency-aware resource patching for a GameCube disc image.
//!
//! The library models a virtual filesystem of resource containers ("paks"),
//! resolves the asset dependencies that each door or pickup variant needs,
//! synthesizes new resources by cloning and remapping existing ones, and
//! applies an ordered registry of patches to per-area script-object graphs
//! while allocating fresh instance ids that never collide.

pub mod cache;
pub mod door_meta;
pub mod elevators;
pub mod ids;
pub mod layout;
pub mod patcher;
pub mod patches;
pub mod pickup_meta;
pub mod pipeline;
pub mod pool;
pub mod resdata;
pub mod rng;
pub mod scly;
pub mod synth;
pub mod text;
pub mod vuln;
