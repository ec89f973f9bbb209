//! The bookkeeping core of the Osmium engine's entity-component-system:
//! entity allocation, component signatures, packed component storage,
//! the component-type registry, system membership and the coordinator that
//! keeps them consistent, together with the engine's plain configuration data.
pub mod ecs;
pub mod application;
pub mod config;
pub mod device;
pub mod event_loop;
pub mod swapchain;
