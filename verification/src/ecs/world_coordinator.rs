use vstd::prelude::*;

use crate::ecs::component_manager::ComponentManager;
use crate::ecs::entity_manager::EntityManager;
use crate::ecs::signature::{Signature, bit_of};
use crate::ecs::{ComponentType, Entity, MAX_COMPONENTS, MAX_ENTITIES};

verus! {

/// The entities and their components, as the systems see them.
pub struct WorldCoordinator<C> {
    pub component_manager: ComponentManager<C>,
    pub entity_manager: EntityManager,
}

impl<C> WorldCoordinator<C> {
    /// The signature of entity `e`.
    pub open spec fn signature_of(&self, e: Entity) -> Signature {
        self.entity_manager.signatures()[e as int]
    }

    /// Every bit of an entity's signature stands for a registered component
    /// type whose store holds a component of that entity.
    pub open spec fn signatures_backed(&self) -> bool {
        Self::backed_by(self.entity_manager.signatures(), self.component_manager.stores())
    }

    /// Every bit of a signature in `signatures` names a store in `stores`
    /// that holds a component of that entity.
    pub open spec fn backed_by(signatures: Seq<Signature>, stores: Seq<Map<Entity, C>>) -> bool {
        forall|e: Entity, t: int|
            e < MAX_ENTITIES && #[trigger] bit_of(signatures[e as int]@, t) ==> {
                &&& t < stores.len()
                &&& stores[t].contains_key(e)
            }
    }

    pub open spec fn wf(&self) -> bool {
        &&& self.component_manager.wf()
        &&& self.entity_manager.wf()
        &&& self.signatures_backed()
    }

    /// A world with no entity handed out and no component type registered.
    pub fn new() -> (w: Self)
        ensures
            w.wf(),
            w.entity_manager.available() == EntityManager::initial_pool(),
            w.entity_manager.live_count() == 0,
            w.entity_manager.pool_distinct(),
            forall|i: int| 0 <= i < MAX_ENTITIES ==> (#[trigger] w.entity_manager.signatures()[i])@ == 0,
            w.component_manager.type_names() == Seq::<Seq<char>>::empty(),
            w.component_manager.stores() == Seq::<Map<Entity, C>>::empty(),
    {
        let w = Self { component_manager: ComponentManager::new(), entity_manager: EntityManager::new() };
        let ghost sigs = w.entity_manager.signatures();
        assert forall|e: Entity, t: int| e < MAX_ENTITIES && #[trigger] bit_of(sigs[e as int]@, t) implies {
            &&& t < w.component_manager.stores().len()
            &&& w.component_manager.stores()[t].contains_key(e)
        } by {
            assert(sigs[e as int]@ == 0);
            let k = t as u32;
            assert((0u32 >> k) & 1u32 == 0u32) by (bit_vector);
        }
        w
    }

    /// The component of type `name` of `entity`.
    pub fn get_component(&self, name: &String, entity: Entity) -> (r: &C)
        requires
            self.wf(),
            self.component_manager.registered(name@),
            self.component_manager.store(name@).contains_key(entity),
        ensures
            *r == self.component_manager.store(name@)[entity],
    {
        self.component_manager.get_component(name, entity)
    }

    /// The component of type `name` of `entity`, to change in place.
    pub fn get_component_mut(&mut self, name: &String, entity: Entity) -> (r: &mut C)
        requires
            old(self).wf(),
            old(self).component_manager.registered(name@),
            old(self).component_manager.store(name@).contains_key(entity),
        ensures
            *r == old(self).component_manager.store(name@)[entity],
            final(self).wf(),
            final(self).entity_manager == old(self).entity_manager,
            final(self).component_manager.type_names() == old(self).component_manager.type_names(),
            final(self).component_manager.stores() == old(self).component_manager.stores().update(
                old(self).component_manager.type_id(name@),
                old(self).component_manager.store(name@).insert(entity, *final(r)),
            ),
    {
        proof {
            self.component_manager.lemma_wf();
            let sigs = self.entity_manager.signatures();
            let stores = self.component_manager.stores();
            let tid = self.component_manager.type_id(name@);
            let store = self.component_manager.store(name@);
            assert forall|v: C| #[trigger] Self::backed_by(sigs, stores.update(tid, store.insert(entity, v))) by {
                let st = stores.update(tid, store.insert(entity, v));
                assert forall|e: Entity, t: int| e < MAX_ENTITIES && #[trigger] bit_of(sigs[e as int]@, t) implies {
                    &&& t < st.len()
                    &&& st[t].contains_key(e)
                } by {
                    assert(stores[t].contains_key(e));
                }
            }
        }
        self.component_manager.get_component_mut(name, entity)
    }

    /// The id of the component type `name`.
    pub fn get_component_type(&self, name: &String) -> (t: ComponentType)
        requires
            self.wf(),
            self.component_manager.registered(name@),
        ensures
            t == self.component_manager.type_id(name@),
    {
        self.component_manager.get_component_type(name)
    }

    /// Whether `entity` has a component of type `name`.
    pub fn has_component(&self, name: &String, entity: Entity) -> (r: bool)
        requires
            self.wf(),
            self.component_manager.registered(name@),
        ensures
            r == self.component_manager.store(name@).contains_key(entity),
    {
        self.component_manager.has_component(name, entity)
    }

    /// Gives `entity` a component of type `name` and sets the matching bit
    /// of its signature; the systems are not told.
    pub fn add_component(&mut self, name: &String, entity: Entity, component: C)
        requires
            old(self).wf(),
            old(self).component_manager.registered(name@),
            !old(self).component_manager.store(name@).contains_key(entity),
            entity < MAX_ENTITIES,
            old(self).component_manager.type_id(name@) < MAX_COMPONENTS,
        ensures
            final(self).wf(),
            final(self).component_manager.type_names() == old(self).component_manager.type_names(),
            final(self).component_manager.stores() == old(self).component_manager.stores().update(
                old(self).component_manager.type_id(name@),
                old(self).component_manager.store(name@).insert(entity, component),
            ),
            final(self).signature_of(entity)@ == old(self).signature_of(entity)@
                | (1u32 << (old(self).component_manager.type_id(name@) as u32)),
            forall|t: int| #[trigger] bit_of(final(self).signature_of(entity)@, t) <==>
                (t == old(self).component_manager.type_id(name@) || bit_of(old(self).signature_of(entity)@, t)),
            final(self).entity_manager.signatures() == old(self).entity_manager.signatures().update(
                entity as int,
                final(self).signature_of(entity),
            ),
            final(self).entity_manager.available() == old(self).entity_manager.available(),
            final(self).entity_manager.live_count() == old(self).entity_manager.live_count(),
    {
        proof { self.component_manager.lemma_wf(); }
        let ghost tid = self.component_manager.type_id(name@);
        self.component_manager.add_component(name, entity, component);
        let mut signature = self.entity_manager.get_signature(entity);
        let t = self.component_manager.get_component_type(name);
        signature.set(t as usize, true);
        self.entity_manager.set_signature(entity, signature);
        proof {
            assert forall|e: Entity, k: int| e < MAX_ENTITIES && #[trigger] bit_of(self.signature_of(e)@, k) implies {
                &&& k < self.component_manager.type_names().len()
                &&& self.component_manager.stores()[k].contains_key(e)
            } by {
                if e == entity {
                    if k != tid {
                        assert(bit_of(old(self).signature_of(e)@, k));
                    }
                } else {
                    assert(self.signature_of(e) == old(self).signature_of(e));
                }
            }
        }
    }
}

} // verus!
