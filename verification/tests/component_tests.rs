use osmium::ecs::component_array::{ComponentArray, ComponentArrayTrait};
use osmium::ecs::component_manager::ComponentManager;

#[test]
fn insert_get_has() {
    let mut a: ComponentArray<&str> = ComponentArray::new();
    assert!(!a.has_data(7));
    a.insert_data(7, "seven");
    a.insert_data(3, "three");
    assert!(a.has_data(7));
    assert!(a.has_data(3));
    assert!(!a.has_data(4));
    assert_eq!(*a.get_data(7), "seven");
    assert_eq!(*a.get_data(3), "three");
}

#[test]
fn remove_moves_last_component_into_gap() {
    let mut a: ComponentArray<u32> = ComponentArray::new();
    a.insert_data(10, 100);
    a.insert_data(11, 110);
    a.insert_data(12, 120);
    a.remove_data(10);
    assert!(!a.has_data(10));
    assert_eq!(*a.get_data(11), 110);
    assert_eq!(*a.get_data(12), 120);
    a.remove_data(12);
    assert_eq!(*a.get_data(11), 110);
    a.insert_data(10, 101);
    assert_eq!(*a.get_data(10), 101);
    a.remove_data(11);
    a.remove_data(10);
    assert!(!a.has_data(10) && !a.has_data(11) && !a.has_data(12));
}

#[test]
fn get_data_mut_changes_in_place() {
    let mut a: ComponentArray<u32> = ComponentArray::new();
    a.insert_data(1, 5);
    a.insert_data(2, 6);
    *a.get_data_mut(1) += 10;
    assert_eq!(*a.get_data(1), 15);
    assert_eq!(*a.get_data(2), 6);
}

#[test]
fn entity_destroyed_drops_only_that_component() {
    let mut a: ComponentArray<u32> = ComponentArray::new();
    a.insert_data(1, 5);
    a.insert_data(2, 6);
    a.entity_destroyed(1);
    a.entity_destroyed(9);
    assert!(!a.has_data(1));
    assert_eq!(*a.get_data(2), 6);
}

#[test]
fn component_types_get_ids_in_order() {
    let mut m: ComponentManager<u32> = ComponentManager::new();
    m.register_component("Transform".to_string());
    m.register_component("Camera".to_string());
    m.register_component("Light".to_string());
    assert_eq!(m.get_component_type(&"Transform".to_string()), 0);
    assert_eq!(m.get_component_type(&"Camera".to_string()), 1);
    assert_eq!(m.get_component_type(&"Light".to_string()), 2);
}

#[test]
fn components_live_in_their_type_store() {
    let mut m: ComponentManager<u32> = ComponentManager::new();
    let t = "Transform".to_string();
    let c = "Camera".to_string();
    m.register_component(t.clone());
    m.register_component(c.clone());
    m.add_component(&t, 5, 50);
    m.add_component(&c, 5, 51);
    m.add_component(&t, 6, 60);
    assert_eq!(*m.get_component(&t, 5), 50);
    assert_eq!(*m.get_component(&c, 5), 51);
    assert!(!m.has_component(&c, 6));
    *m.get_component_mut(&t, 6) = 61;
    assert_eq!(*m.get_component(&t, 6), 61);
    m.remove_component(&t, 5);
    assert!(!m.has_component(&t, 5));
    assert!(m.has_component(&c, 5));
    m.entity_destroyed(5);
    assert!(!m.has_component(&c, 5));
    assert!(m.has_component(&t, 6));
}
