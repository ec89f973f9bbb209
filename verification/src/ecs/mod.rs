use vstd::prelude::*;

pub mod signature;
pub mod entity_manager;
pub mod component_array;
pub mod component_manager;
pub mod components;
pub mod system;
pub mod systems;
pub mod system_manager;
pub mod world_coordinator;
pub mod coordinator;
pub mod ecs;

verus! {

/// An entity is a plain integer id.
pub type Entity = u32;

/// The id a component type receives when it is registered.
pub type ComponentType = u8;

/// The number of entity ids the engine hands out.
pub const MAX_ENTITIES: usize = 4096;

/// The number of component types a signature can describe.
pub const MAX_COMPONENTS: usize = 32;

} // verus!
