use osmium::ecs::coordinator::Coordinator;
use osmium::ecs::ecs::{initialize_default_components, initialize_default_systems};
use osmium::ecs::signature::Signature;
use osmium::ecs::system::SystemTrait;
use osmium::ecs::system_manager::SystemManager;
use osmium::ecs::systems::{CameraSystem, EngineSystem, RenderSystem};

fn name(s: &str) -> String {
    s.to_string()
}

fn engine() -> Coordinator<u32, EngineSystem> {
    let mut c: Coordinator<u32, EngineSystem> = Coordinator::new();
    initialize_default_components(&mut c);
    initialize_default_systems(&mut c);
    c
}

fn members(c: &Coordinator<u32, EngineSystem>, system: &str) -> Vec<u32> {
    let mut v: Vec<u32> = c.get_system(&name(system)).entities().iter().copied().collect();
    v.sort();
    v
}

#[test]
fn default_components_are_registered_in_order() {
    let c = engine();
    let order = [
        "MeshRenderable",
        "DefaultController",
        "FirstPersonController",
        "Transform",
        "PhysicsBodyConfig",
        "PhysicsBody",
        "PhysicsCollider",
        "Camera",
        "Light",
    ];
    for (i, n) in order.iter().enumerate() {
        assert_eq!(c.get_component_type(&name(n)) as usize, i);
    }
}

#[test]
fn default_systems_run_in_registration_order() {
    let c = engine();
    let order: Vec<String> = c.system_manager().execution_order().clone();
    assert_eq!(
        order,
        vec![
            "PhysicsSystem",
            "RenderSystem",
            "DefaultControllerSystem",
            "CameraSystem",
            "LightSystem",
            "FirstPersonControllerSystem"
        ]
    );
}

#[test]
fn entity_joins_systems_whose_components_it_has() {
    let mut c = engine();
    let e = c.create_entity();
    c.add_component(&name("Transform"), e, 1);
    assert!(members(&c, "RenderSystem").is_empty());
    c.add_component(&name("MeshRenderable"), e, 2);
    assert_eq!(members(&c, "RenderSystem"), vec![e]);
    assert!(members(&c, "CameraSystem").is_empty());
    c.add_component(&name("Camera"), e, 3);
    assert_eq!(members(&c, "CameraSystem"), vec![e]);
    assert_eq!(members(&c, "RenderSystem"), vec![e]);
    assert!(members(&c, "FirstPersonControllerSystem").is_empty());
    c.add_component(&name("FirstPersonController"), e, 4);
    assert_eq!(members(&c, "FirstPersonControllerSystem"), vec![e]);
    assert_eq!(*c.get_component(&name("Camera"), e), 3);
}

#[test]
fn removing_a_component_clears_the_whole_signature() {
    let mut c = engine();
    let e = c.create_entity();
    c.add_component(&name("Transform"), e, 1);
    c.add_component(&name("MeshRenderable"), e, 2);
    c.add_component(&name("Camera"), e, 3);
    c.remove_component(&name("Camera"), e);
    assert_eq!(c.world_coordinator().entity_manager.get_signature(e), Signature::new());
    assert!(members(&c, "RenderSystem").is_empty());
    assert!(members(&c, "CameraSystem").is_empty());
    assert!(c.world_coordinator().has_component(&name("Transform"), e));
    assert!(!c.world_coordinator().has_component(&name("Camera"), e));
}

#[test]
fn destroyed_entity_leaves_everything() {
    let mut c = engine();
    let e = c.create_entity();
    let f = c.create_entity();
    c.add_component(&name("Transform"), e, 1);
    c.add_component(&name("Light"), e, 2);
    c.add_component(&name("Transform"), f, 3);
    c.add_component(&name("Light"), f, 4);
    assert_eq!(members(&c, "LightSystem"), vec![f, e]);
    c.destroy_entity(e);
    assert_eq!(members(&c, "LightSystem"), vec![f]);
    assert!(!c.world_coordinator().has_component(&name("Transform"), e));
    assert!(c.world_coordinator().has_component(&name("Transform"), f));
    assert_eq!(c.world_coordinator().entity_manager.get_signature(e), Signature::new());
    assert_eq!(c.create_entity(), e);
}

#[test]
fn get_component_mut_changes_in_place() {
    let mut c = engine();
    let e = c.create_entity();
    c.add_component(&name("Transform"), e, 1);
    *c.get_component_mut(&name("Transform"), e) = 9;
    assert_eq!(*c.get_component(&name("Transform"), e), 9);
}

#[test]
fn system_signature_set_late_does_not_sort_existing_entities() {
    let mut c: Coordinator<u32, CameraSystem> = Coordinator::new();
    c.register_component(name("A"));
    let e = c.create_entity();
    c.add_component(&name("A"), e, 1);
    c.register_system(name("S"), CameraSystem::new());
    let mut s = Signature::new();
    s.set(0, true);
    c.set_system_signature(&name("S"), s);
    assert!(c.get_system(&name("S")).entities().is_empty());
}

#[test]
fn system_manager_sorts_entities_by_signature() {
    let mut m: SystemManager<RenderSystem> = SystemManager::new();
    m.register_system(name("A"), RenderSystem::new());
    m.register_system(name("B"), RenderSystem::new());
    let mut sa = Signature::new();
    sa.set(0, true);
    let mut sb = Signature::new();
    sb.set(0, true);
    sb.set(1, true);
    m.set_signature(&name("A"), sa);
    m.set_signature(&name("B"), sb);
    m.entity_signature_changed(7, sa);
    assert!(m.get_system(&name("A")).entities().contains(&7));
    assert!(!m.get_system(&name("B")).entities().contains(&7));
    m.entity_signature_changed(7, sb);
    assert!(m.get_system(&name("A")).entities().contains(&7));
    assert!(m.get_system(&name("B")).entities().contains(&7));
    m.entity_destroyed(7);
    assert!(!m.get_system(&name("A")).entities().contains(&7));
    assert!(!m.get_system(&name("B")).entities().contains(&7));
    m.get_system_mut(&name("B")).entities.insert(3);
    assert!(m.get_system(&name("B")).entities().contains(&3));
    let r = m.register_system(name("C"), RenderSystem::new());
    r.entities.insert(1);
    assert!(m.get_system(&name("C")).entities().contains(&1));
}

#[test]
fn engine_system_reports_its_entities() {
    let mut s = EngineSystem::Camera(CameraSystem::new());
    s.entities_mut().insert(4);
    assert!(s.entities().contains(&4));
}

#[test]
fn default_systems_are_the_named_ones() {
    let c = engine();
    assert!(matches!(c.get_system(&name("PhysicsSystem")), EngineSystem::Physics(_)));
    assert!(matches!(c.get_system(&name("RenderSystem")), EngineSystem::Render(_)));
    assert!(matches!(c.get_system(&name("DefaultControllerSystem")), EngineSystem::DefaultController(_)));
    assert!(matches!(c.get_system(&name("CameraSystem")), EngineSystem::Camera(_)));
    assert!(matches!(c.get_system(&name("LightSystem")), EngineSystem::Light(_)));
    assert!(matches!(
        c.get_system(&name("FirstPersonControllerSystem")),
        EngineSystem::FirstPersonController(_)
    ));
}
