use osmium::ecs::entity_manager::EntityManager;
use osmium::ecs::signature::Signature;
use osmium::ecs::MAX_ENTITIES;

#[test]
fn ids_are_handed_out_from_the_highest_down() {
    let mut m = EntityManager::new();
    assert_eq!(m.create_entity(), 4095);
    assert_eq!(m.create_entity(), 4094);
    assert_eq!(m.create_entity(), 4093);
}

#[test]
fn destroyed_id_is_handed_out_next() {
    let mut m = EntityManager::new();
    let a = m.create_entity();
    let b = m.create_entity();
    m.destroy_entity(a);
    assert_eq!(m.create_entity(), a);
    assert_eq!(m.create_entity(), b - 1);
}

#[test]
fn every_id_can_be_handed_out() {
    let mut m = EntityManager::new();
    let mut seen = vec![false; MAX_ENTITIES];
    for _ in 0..MAX_ENTITIES {
        let e = m.create_entity() as usize;
        assert!(!seen[e]);
        seen[e] = true;
    }
    assert!(seen.iter().all(|b| *b));
}

#[test]
fn signatures_are_kept_and_cleared_on_destroy() {
    let mut m = EntityManager::new();
    let e = m.create_entity();
    assert_eq!(m.get_signature(e), Signature::new());
    let mut s = Signature::new();
    s.set(4, true);
    m.set_signature(e, s);
    assert_eq!(m.get_signature(e), s);
    assert_eq!(m.get_signature(e - 1), Signature::new());
    m.destroy_entity(e);
    assert_eq!(m.get_signature(e), Signature::new());
}

#[test]
fn create_then_destroy_restores_the_pool() {
    let mut m = EntityManager::new();
    let first = m.create_entity();
    m.destroy_entity(first);
    assert_eq!(m.create_entity(), first);
    let second = m.create_entity();
    assert_eq!(second, first - 1);
}
