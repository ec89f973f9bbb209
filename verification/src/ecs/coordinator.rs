use vstd::prelude::*;

use crate::ecs::entity_manager::EntityManager;
use crate::ecs::signature::{Signature, bit_of, signature_matches, signature_from_bits, lemma_signature_bits};
use crate::ecs::system::SystemTrait;
use crate::ecs::system_manager::SystemManager;
use crate::ecs::world_coordinator::WorldCoordinator;
use crate::ecs::{ComponentType, Entity, MAX_COMPONENTS, MAX_ENTITIES};

verus! {

/// The entity-component-system as a whole: the world and the systems that
/// run on it, kept in step.
pub struct Coordinator<C, S> {
    world_coordinator: WorldCoordinator<C>,
    system_manager: SystemManager<S>,
}

impl<C, S: SystemTrait> Coordinator<C, S> {
    /// The entities and their components.
    pub closed spec fn world(&self) -> WorldCoordinator<C> {
        self.world_coordinator
    }

    /// The systems.
    pub closed spec fn system_table(&self) -> SystemManager<S> {
        self.system_manager
    }

    pub open spec fn wf(&self) -> bool {
        &&& self.world().wf()
        &&& self.system_table().wf()
    }

    /// The signature of entity `e`.
    pub open spec fn signature_of(&self, e: Entity) -> Signature {
        self.world().signature_of(e)
    }

    /// The stores of the component types, by id.
    pub open spec fn stores(&self) -> Seq<Map<Entity, C>> {
        self.world().component_manager.stores()
    }

    /// The id of the component type `name`.
    pub open spec fn type_id(&self, name: Seq<char>) -> int {
        self.world().component_manager.type_id(name)
    }

    /// Whether the component type `name` is registered.
    pub open spec fn type_registered(&self, name: Seq<char>) -> bool {
        self.world().component_manager.registered(name)
    }

    /// The entity set of each system.
    pub open spec fn members(&self) -> Seq<Set<Entity>> {
        self.system_table().members()
    }

    /// The signature each system asks for, once set.
    pub open spec fn system_signatures(&self) -> Seq<Option<Signature>> {
        self.system_table().system_signatures()
    }

    /// After the signature of `entity` became `signature`, the entity sits in
    /// exactly the systems whose signature `signature` holds; no other
    /// entity moved.
    pub open spec fn systems_follow(pre: Seq<Set<Entity>>, post: Seq<Set<Entity>>, sigs: Seq<Option<Signature>>, entity: Entity, signature: Signature) -> bool {
        &&& post.len() == pre.len()
        &&& forall|i: int| 0 <= i < pre.len() ==> #[trigger] post[i] == if signature_matches(signature, sigs[i]->0) {
            pre[i].insert(entity)
        } else {
            pre[i].remove(entity)
        }
    }

    /// What `destroy_entity` does: the entity goes back on the free stack
    /// with an empty signature, loses every component and leaves every
    /// system.
    pub open spec fn destroy_post(pre: Self, post: Self, entity: Entity) -> bool {
        &&& EntityManager::destroy_post(pre.world().entity_manager, post.world().entity_manager, entity)
        &&& post.world().component_manager.type_names() == pre.world().component_manager.type_names()
        &&& post.stores().len() == pre.stores().len()
        &&& forall|i: int| 0 <= i < pre.stores().len() ==>
            #[trigger] post.stores()[i] == pre.stores()[i].remove(entity)
        &&& post.system_signatures() == pre.system_signatures()
        &&& post.system_table().names() == pre.system_table().names()
        &&& post.members().len() == pre.members().len()
        &&& forall|i: int| 0 <= i < pre.members().len() ==>
            #[trigger] post.members()[i] == pre.members()[i].remove(entity)
    }

    /// What `add_component` does: the store of type `name` gains the
    /// component, the entity's signature gains the type's bit, and the entity
    /// moves into exactly the systems its new signature fits.
    pub open spec fn add_post(pre: Self, post: Self, name: Seq<char>, entity: Entity, component: C) -> bool {
        &&& post.world().component_manager.type_names() == pre.world().component_manager.type_names()
        &&& post.stores() == pre.stores().update(
            pre.type_id(name),
            pre.world().component_manager.store(name).insert(entity, component),
        )
        &&& forall|t: int| #[trigger] bit_of(post.signature_of(entity)@, t) <==>
            (t == pre.type_id(name) || bit_of(pre.signature_of(entity)@, t))
        &&& post.world().entity_manager.signatures() == pre.world().entity_manager.signatures().update(
            entity as int,
            post.signature_of(entity),
        )
        &&& post.world().entity_manager.available() == pre.world().entity_manager.available()
        &&& post.world().entity_manager.live_count() == pre.world().entity_manager.live_count()
        &&& post.system_signatures() == pre.system_signatures()
        &&& post.system_table().names() == pre.system_table().names()
        &&& Self::systems_follow(pre.members(), post.members(), pre.system_signatures(), entity, post.signature_of(entity))
    }

    /// What `remove_component` does: the store of type `name` loses the
    /// component, the entity's signature is cleared as a whole, and the
    /// entity moves into exactly the systems the empty signature fits.
    pub open spec fn remove_post(pre: Self, post: Self, name: Seq<char>, entity: Entity) -> bool {
        &&& post.world().component_manager.type_names() == pre.world().component_manager.type_names()
        &&& post.stores() == pre.stores().update(
            pre.type_id(name),
            pre.world().component_manager.store(name).remove(entity),
        )
        &&& post.signature_of(entity)@ == 0
        &&& post.world().entity_manager.signatures() == pre.world().entity_manager.signatures().update(
            entity as int,
            post.signature_of(entity),
        )
        &&& post.world().entity_manager.available() == pre.world().entity_manager.available()
        &&& post.world().entity_manager.live_count() == pre.world().entity_manager.live_count()
        &&& post.system_signatures() == pre.system_signatures()
        &&& post.system_table().names() == pre.system_table().names()
        &&& Self::systems_follow(pre.members(), post.members(), pre.system_signatures(), entity, post.signature_of(entity))
    }

    /// Entity `e` sits in exactly the systems whose signature its own holds.
    pub open spec fn entity_placed(&self, e: Entity) -> bool {
        forall|i: int| 0 <= i < self.members().len() && #[trigger] self.system_signatures()[i] is Some ==>
            (self.members()[i].contains(e) <==> signature_matches(self.signature_of(e), self.system_signatures()[i]->0))
    }

    /// An empty world with no system.
    pub fn new() -> (c: Self)
        ensures
            c.wf(),
            c.world().entity_manager.available() == EntityManager::initial_pool(),
            c.world().entity_manager.live_count() == 0,
            c.world().entity_manager.pool_distinct(),
            forall|i: int| 0 <= i < MAX_ENTITIES ==> (#[trigger] c.world().entity_manager.signatures()[i])@ == 0,
            c.world().component_manager.type_names() == Seq::<Seq<char>>::empty(),
            c.stores() == Seq::<Map<Entity, C>>::empty(),
            c.system_table().names() == Seq::<Seq<char>>::empty(),
            c.system_signatures() == Seq::<Option<Signature>>::empty(),
            c.members() == Seq::<Set<Entity>>::empty(),
    {
        let c = Self { world_coordinator: WorldCoordinator::new(), system_manager: SystemManager::new() };
        assert(c.members() =~= Seq::<Set<Entity>>::empty());
        c
    }

    /// The entities and their components.
    pub fn world_coordinator(&self) -> (r: &WorldCoordinator<C>)
        ensures
            *r == self.world(),
    {
        &self.world_coordinator
    }

    /// The systems.
    pub fn system_manager(&self) -> (r: &SystemManager<S>)
        ensures
            *r == self.system_table(),
    {
        &self.system_manager
    }

    /// Hands out a free entity id.
    pub fn create_entity(&mut self) -> (e: Entity)
        requires
            old(self).wf(),
            old(self).world().entity_manager.live_count() < MAX_ENTITIES,
        ensures
            final(self).wf(),
            e < MAX_ENTITIES,
            EntityManager::create_post(old(self).world().entity_manager, final(self).world().entity_manager, e),
            final(self).world().component_manager == old(self).world().component_manager,
            final(self).system_table() == old(self).system_table(),
    {
        self.world_coordinator.entity_manager.create_entity()
    }

    /// Frees `entity`: its signature is cleared, every component of it is
    /// dropped and no system runs on it any more.
    pub fn destroy_entity(&mut self, entity: Entity)
        requires
            old(self).wf(),
            entity < MAX_ENTITIES,
            old(self).world().entity_manager.live_count() > 0,
        ensures
            final(self).wf(),
            Self::destroy_post(*old(self), *final(self), entity),
    {
        self.world_coordinator.entity_manager.destroy_entity(entity);
        self.world_coordinator.component_manager.entity_destroyed(entity);
        self.system_manager.entity_destroyed(entity);
        proof {
            let w = self.world_coordinator;
            let ow = old(self).world_coordinator;
            lemma_signature_bits(signature_from_bits(0), 0);
            assert forall|e: Entity, t: int| e < MAX_ENTITIES && #[trigger] bit_of(w.entity_manager.signatures()[e as int]@, t) implies {
                &&& t < w.component_manager.stores().len()
                &&& w.component_manager.stores()[t].contains_key(e)
            } by {
                if e == entity {
                    let k = t as u32;
                    assert((0u32 >> k) & 1u32 == 0u32) by (bit_vector);
                } else {
                    assert(w.signature_of(e) == ow.signature_of(e));
                    assert(ow.component_manager.stores()[t].contains_key(e));
                }
            }
        }
    }

    /// Registers the component type `name`.
    pub fn register_component(&mut self, name: String)
        requires
            old(self).wf(),
            !old(self).type_registered(name@),
            old(self).world().component_manager.type_names().len() < 255,
        ensures
            final(self).wf(),
            final(self).world().component_manager.type_names() == old(self).world().component_manager.type_names().push(name@),
            final(self).stores() == old(self).stores().push(Map::<Entity, C>::empty()),
            final(self).world().entity_manager == old(self).world().entity_manager,
            final(self).system_table() == old(self).system_table(),
    {
        self.world_coordinator.component_manager.register_component(name);
        proof {
            let w = self.world_coordinator;
            let ow = old(self).world_coordinator;
            assert forall|e: Entity, t: int| e < MAX_ENTITIES && #[trigger] bit_of(w.entity_manager.signatures()[e as int]@, t) implies {
                &&& t < w.component_manager.stores().len()
                &&& w.component_manager.stores()[t].contains_key(e)
            } by {
                assert(ow.component_manager.stores()[t].contains_key(e));
            }
        }
    }

    /// Gives `entity` a component of type `name`, sets the matching bit of
    /// its signature and moves it into the systems its signature now fits.
    pub fn add_component(&mut self, name: &String, entity: Entity, component: C)
        requires
            old(self).wf(),
            old(self).type_registered(name@),
            !old(self).world().component_manager.store(name@).contains_key(entity),
            entity < MAX_ENTITIES,
            old(self).type_id(name@) < MAX_COMPONENTS,
            old(self).system_table().all_signatures_set(),
        ensures
            final(self).wf(),
            Self::add_post(*old(self), *final(self), name@, entity, component),
    {
        self.world_coordinator.add_component(name, entity, component);
        let signature = self.world_coordinator.entity_manager.get_signature(entity);
        self.system_manager.entity_signature_changed(entity, signature);
    }

    /// Takes the component of type `name` from `entity`. The signature of the
    /// entity is cleared as a whole (the bit is cleared by and-ing with
    /// `0 << id`), and the entity moves out of every system whose signature
    /// is not empty.
    pub fn remove_component(&mut self, name: &String, entity: Entity)
        requires
            old(self).wf(),
            old(self).type_registered(name@),
            old(self).world().component_manager.store(name@).contains_key(entity),
            entity < MAX_ENTITIES,
            old(self).type_id(name@) < MAX_COMPONENTS,
            old(self).system_table().all_signatures_set(),
        ensures
            final(self).wf(),
            Self::remove_post(*old(self), *final(self), name@, entity),
    {
        proof { self.world_coordinator.component_manager.lemma_wf(); }
        self.world_coordinator.component_manager.remove_component(name, entity);
        let mut signature = self.world_coordinator.entity_manager.get_signature(entity);
        let t = self.world_coordinator.component_manager.get_component_type(name);
        signature.set(t as usize, false);
        self.world_coordinator.entity_manager.set_signature(entity, signature);
        self.system_manager.entity_signature_changed(entity, signature);
        proof {
            let w = self.world_coordinator;
            let ow = old(self).world_coordinator;
            assert forall|e: Entity, k: int| e < MAX_ENTITIES && #[trigger] bit_of(w.entity_manager.signatures()[e as int]@, k) implies {
                &&& k < w.component_manager.stores().len()
                &&& w.component_manager.stores()[k].contains_key(e)
            } by {
                if e == entity {
                    let kk = k as u32;
                    assert((0u32 >> kk) & 1u32 == 0u32) by (bit_vector);
                } else {
                    assert(w.signature_of(e) == ow.signature_of(e));
                    assert(ow.component_manager.stores()[k].contains_key(e));
                }
            }
        }
    }

    /// The component of type `name` of `entity`.
    pub fn get_component(&self, name: &String, entity: Entity) -> (r: &C)
        requires
            self.wf(),
            self.type_registered(name@),
            self.world().component_manager.store(name@).contains_key(entity),
        ensures
            *r == self.world().component_manager.store(name@)[entity],
    {
        self.world_coordinator.get_component(name, entity)
    }

    /// The component of type `name` of `entity`, to change in place.
    pub fn get_component_mut(&mut self, name: &String, entity: Entity) -> (r: &mut C)
        requires
            old(self).wf(),
            old(self).type_registered(name@),
            old(self).world().component_manager.store(name@).contains_key(entity),
        ensures
            *r == old(self).world().component_manager.store(name@)[entity],
            final(self).wf(),
            final(self).world().entity_manager == old(self).world().entity_manager,
            final(self).world().component_manager.type_names() == old(self).world().component_manager.type_names(),
            final(self).stores() == old(self).stores().update(
                old(self).type_id(name@),
                old(self).world().component_manager.store(name@).insert(entity, *final(r)),
            ),
            final(self).system_table() == old(self).system_table(),
    {
        self.world_coordinator.get_component_mut(name, entity)
    }

    /// The id of the component type `name`.
    pub fn get_component_type(&self, name: &String) -> (t: ComponentType)
        requires
            self.wf(),
            self.type_registered(name@),
        ensures
            t == self.type_id(name@),
    {
        self.world_coordinator.get_component_type(name)
    }

    /// Registers `system` under `name`, after the systems registered before
    /// it; its signature is not set yet.
    pub fn register_system(&mut self, name: String, system: S) -> (r: &mut S)
        requires
            old(self).wf(),
            !old(self).system_table().registered(name@),
        ensures
            *r == system,
            final(self).wf(),
            final(self).world() == old(self).world(),
            final(self).system_table().names() == old(self).system_table().names().push(name@),
            final(self).system_signatures() == old(self).system_signatures().push(None),
            final(self).system_table().systems() == old(self).system_table().systems().push(*final(r)),
    {
        self.system_manager.register_system(name, system)
    }

    /// The system registered under `name`.
    pub fn get_system(&self, name: &String) -> (r: &S)
        requires
            self.wf(),
            self.system_table().registered(name@),
        ensures
            *r == self.system_table().systems()[self.system_table().system_id(name@)],
    {
        self.system_manager.get_system(name)
    }

    /// The system registered under `name`, to change in place.
    pub fn get_system_mut(&mut self, name: &String) -> (r: &mut S)
        requires
            old(self).wf(),
            old(self).system_table().registered(name@),
        ensures
            *r == old(self).system_table().systems()[old(self).system_table().system_id(name@)],
            final(self).wf(),
            final(self).world() == old(self).world(),
            final(self).system_table().names() == old(self).system_table().names(),
            final(self).system_signatures() == old(self).system_signatures(),
            final(self).system_table().systems() == old(self).system_table().systems().update(
                old(self).system_table().system_id(name@),
                *final(r),
            ),
    {
        self.system_manager.get_system_mut(name)
    }

    /// Sets the signature the system `name` asks for. Entities already in
    /// the world are not sorted again.
    pub fn set_system_signature(&mut self, name: &String, signature: Signature)
        requires
            old(self).wf(),
            old(self).system_table().registered(name@),
        ensures
            final(self).wf(),
            final(self).world() == old(self).world(),
            final(self).system_table().names() == old(self).system_table().names(),
            final(self).system_table().systems() == old(self).system_table().systems(),
            final(self).system_signatures() == old(self).system_signatures().update(
                old(self).system_table().system_id(name@),
                Some(signature),
            ),
    {
        self.system_manager.set_signature(name, signature);
    }
}

/// A destroyed entity has no component, sits in no system, has an empty
/// signature, and is the next entity to be handed out.
pub proof fn law_destroyed_entity_is_gone<C, S: SystemTrait>(pre: Coordinator<C, S>, post: Coordinator<C, S>, entity: Entity)
    requires
        pre.wf(),
        post.wf(),
        entity < MAX_ENTITIES,
        Coordinator::destroy_post(pre, post, entity),
    ensures
        forall|t: int| 0 <= t < post.stores().len() ==> !(#[trigger] post.stores()[t]).contains_key(entity),
        forall|i: int| 0 <= i < post.members().len() ==> !(#[trigger] post.members()[i]).contains(entity),
        post.signature_of(entity)@ == 0,
        post.world().entity_manager.available().last() == entity,
{
    lemma_signature_bits(signature_from_bits(0), 0);
    assert forall|t: int| 0 <= t < post.stores().len() implies !(#[trigger] post.stores()[t]).contains_key(entity) by {
        assert(post.stores()[t] == pre.stores()[t].remove(entity));
    }
    assert forall|i: int| 0 <= i < post.members().len() implies !(#[trigger] post.members()[i]).contains(entity) by {
        assert(post.members()[i] == pre.members()[i].remove(entity));
    }
}

/// Adding or removing a component leaves the entity in exactly the systems
/// its new signature fits, and leaves every other entity where it was.
pub proof fn law_component_change_places_entity<C, S: SystemTrait>(pre: Coordinator<C, S>, post: Coordinator<C, S>, name: Seq<char>, entity: Entity, component: C, other: Entity)
    requires
        Coordinator::add_post(pre, post, name, entity, component) || Coordinator::remove_post(pre, post, name, entity),
        entity < MAX_ENTITIES,
        other < MAX_ENTITIES,
        other != entity,
        pre.world().entity_manager.wf(),
    ensures
        post.entity_placed(entity),
        pre.entity_placed(other) ==> post.entity_placed(other),
{
    assert(post.signature_of(other) == pre.signature_of(other));
    assert forall|i: int| 0 <= i < post.members().len() && #[trigger] post.system_signatures()[i] is Some implies
        (post.members()[i].contains(other) <==> pre.members()[i].contains(other)) by {
    }
}

/// The components an entity has back every bit of its signature: a set bit
/// names a registered type whose store holds a component of that entity.
pub proof fn law_signature_bits_are_components<C, S: SystemTrait>(c: Coordinator<C, S>, entity: Entity, t: int)
    requires
        c.wf(),
        entity < MAX_ENTITIES,
        bit_of(c.signature_of(entity)@, t),
    ensures
        0 <= t < c.stores().len(),
        c.stores()[t].contains_key(entity),
{
    assert(0 <= t);
}

/// Telling the systems the same signature twice moves nobody the second
/// time.
pub proof fn law_signature_change_idempotent<C, S: SystemTrait>(
    a: Seq<Set<Entity>>,
    b: Seq<Set<Entity>>,
    c: Seq<Set<Entity>>,
    sigs: Seq<Option<Signature>>,
    entity: Entity,
    signature: Signature,
)
    requires
        Coordinator::<C, S>::systems_follow(a, b, sigs, entity, signature),
        Coordinator::<C, S>::systems_follow(b, c, sigs, entity, signature),
    ensures
        c == b,
{
    assert forall|i: int| 0 <= i < b.len() implies #[trigger] c[i] == b[i] by {
        assert(b[i] == if signature_matches(signature, sigs[i]->0) { a[i].insert(entity) } else { a[i].remove(entity) });
        if signature_matches(signature, sigs[i]->0) {
            assert(c[i] =~= b[i]);
        } else {
            assert(c[i] =~= b[i]);
        }
    }
    assert(c =~= b);
}

} // verus!
