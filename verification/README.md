# osmium

The entity-component-system core of the Osmium engine, verified with Verus,
with the engine's plain configuration data and the decisions of its main
loops.

`src/` is the verified library:

- `ecs::signature` — a component signature, one bit per component type.
- `ecs::entity_manager` — hands out entity ids from a stack of free ids and
  keeps each entity's signature.
- `ecs::component_array` — the components of one type, packed without gaps,
  viewed as a map from entity to component.
- `ecs::component_manager` — registers component types by name, giving ids in
  registration order, with one store per type.
- `ecs::system`, `ecs::systems`, `ecs::system_manager` — systems, their
  signatures and their entity sets, kept in step with entity signatures.
- `ecs::world_coordinator`, `ecs::coordinator` — the whole world: every
  signature bit is backed by a stored component, and adding, removing or
  destroying moves entities in and out of systems.
- `ecs::ecs` — the engine's built-in component types and systems.
- `ecs::systems` also holds the key-to-direction choices of the controller
  systems.
- `config` — renderer, window, render pass and mesh configuration.
- `device` — which physical device and queue family the renderer picks.
- `application` — the editor's object tree, its systems and tabs.
- `event_loop`, `swapchain` — what the engine and editor loops, and the
  swapchain loop, do in answer to each event.

`app/` holds what the library does not: configuration read with serde, the
conversions into winit and vulkano types, the queries to the graphics driver
behind the device choice, and the floating-point geometry, components and
rapier physics world.
