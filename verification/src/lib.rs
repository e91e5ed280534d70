//! Interception and relocation engine for dispatch tables of foreign,
//! runtime-polymorphic objects, together with the registries and value types
//! that surround it.
//!
//! Many objects of one logical type share a single read-only dispatch table,
//! so overwriting a slot in place would change behaviour process-wide. The
//! engine instead detects whether an instance still points at the shared
//! canonical table, lazily gives it a private mutable copy on the first
//! write, tags that copy with identity and recovery metadata, and offers
//! typed, validated access to the copied slots and to a side-channel data
//! store attached to each relocated instance.
//!
//! All reasoning is carried out over an explicit word-addressed address
//! space ([`world::World`]), so the engine can be exercised against
//! synthetic in-memory foreign objects.

pub mod accessor;
pub mod actions;
pub mod agent;
pub mod binding;
pub mod callbacks;
pub mod cloning;
pub mod custom_data;
pub mod hash;
pub mod types;
pub mod errors;
pub mod guard;
pub mod hooks;
pub mod laws;
pub mod params;
pub mod regions;
pub mod registry;
pub mod resources;
pub mod restore;
pub mod scripts;
pub mod utils;
pub mod world;
