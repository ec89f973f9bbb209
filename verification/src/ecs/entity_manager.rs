use vstd::prelude::*;

use crate::ecs::signature::{Signature, signature_from_bits, lemma_signature_bits};
use crate::ecs::{Entity, MAX_ENTITIES};

verus! {

/// Hands out entity ids and keeps the signature of every entity.
///
/// Free ids wait on a stack: the id destroyed last is the one handed out next.
pub struct EntityManager {
    available_entities: Vec<Entity>,
    signatures: Vec<Signature>,
    live_entity_count: usize,
}

impl EntityManager {
    /// The ids that are free, the one handed out next last.
    pub closed spec fn available(&self) -> Seq<Entity> {
        self.available_entities@
    }

    /// The signature of each entity id.
    pub closed spec fn signatures(&self) -> Seq<Signature> {
        self.signatures@
    }

    /// How many ids are handed out.
    pub closed spec fn live_count(&self) -> nat {
        self.live_entity_count as nat
    }

    /// Every id is either free or handed out, and every free id is in range.
    pub open spec fn wf(&self) -> bool {
        &&& self.signatures().len() == MAX_ENTITIES
        &&& self.available().len() + self.live_count() == MAX_ENTITIES
        &&& forall|i: int| 0 <= i < self.available().len() ==> #[trigger] self.available()[i] < MAX_ENTITIES
    }

    /// No free id waits on the stack twice.
    pub open spec fn pool_distinct(&self) -> bool {
        self.available().no_duplicates()
    }

    /// The id in order `i` of the fresh stack: ids are handed out from the
    /// highest down.
    pub open spec fn initial_pool() -> Seq<Entity> {
        Seq::new(MAX_ENTITIES as nat, |i: int| i as Entity)
    }

    /// What `create_entity` does: it hands out the id on top of the stack.
    pub open spec fn create_post(pre: Self, post: Self, e: Entity) -> bool {
        &&& pre.available().len() > 0
        &&& e == pre.available().last()
        &&& post.available() == pre.available().drop_last()
        &&& post.live_count() == pre.live_count() + 1
        &&& post.signatures() == pre.signatures()
    }

    /// What `destroy_entity` does: it clears the id's signature and puts the
    /// id back on top of the stack.
    pub open spec fn destroy_post(pre: Self, post: Self, e: Entity) -> bool {
        &&& post.available() == pre.available().push(e)
        &&& post.live_count() + 1 == pre.live_count()
        &&& post.signatures() == pre.signatures().update(e as int, signature_from_bits(0))
    }

    /// A manager with every id free and every signature empty.
    pub fn new() -> (m: Self)
        ensures
            m.wf(),
            m.available() == Self::initial_pool(),
            m.live_count() == 0,
            forall|i: int| 0 <= i < MAX_ENTITIES ==> (#[trigger] m.signatures()[i])@ == 0,
            m.pool_distinct(),
    {
        let mut available_entities: Vec<Entity> = Vec::new();
        let mut signatures: Vec<Signature> = Vec::new();
        let live_entity_count: usize = 0;
        let mut entity: Entity = 0;
        while entity < MAX_ENTITIES as Entity
            invariant
                entity <= MAX_ENTITIES,
                available_entities@.len() == entity,
                signatures@.len() == entity,
                forall|i: int| 0 <= i < entity ==> #[trigger] available_entities@[i] == i as Entity,
                forall|i: int| 0 <= i < entity ==> (#[trigger] signatures@[i])@ == 0,
            decreases MAX_ENTITIES - entity,
        {
            available_entities.push(entity);
            signatures.push(Signature::new());
            entity = entity + 1;
        }
        let m = Self { available_entities, signatures, live_entity_count };
        assert(m.available() =~= Self::initial_pool());
        m
    }

    /// Hands out the id on top of the free stack.
    pub fn create_entity(&mut self) -> (e: Entity)
        requires
            old(self).wf(),
            old(self).live_count() < MAX_ENTITIES,
        ensures
            final(self).wf(),
            Self::create_post(*old(self), *final(self), e),
            e < MAX_ENTITIES,
            old(self).pool_distinct() ==> final(self).pool_distinct() && !final(self).available().contains(e),
    {
        let id = self.available_entities.pop().unwrap();
        self.live_entity_count = self.live_entity_count + 1;
        proof {
            assert(self.available() =~= old(self).available().drop_last());
            assert forall|i: int| 0 <= i < self.available().len() implies #[trigger] self.available()[i] < MAX_ENTITIES by {
                assert(self.available()[i] == old(self).available()[i]);
            }
            if old(self).pool_distinct() {
                if self.available().contains(id) {
                    let k = choose|k: int| 0 <= k < self.available().len() && self.available()[k] == id;
                    assert(old(self).available()[k] == old(self).available()[old(self).available().len() - 1]);
                }
            }
        }
        id
    }

    /// Clears the signature of `entity` and puts it back on the free stack.
    pub fn destroy_entity(&mut self, entity: Entity)
        requires
            old(self).wf(),
            entity < MAX_ENTITIES,
            old(self).live_count() > 0,
        ensures
            final(self).wf(),
            Self::destroy_post(*old(self), *final(self), entity),
            old(self).pool_distinct() && !old(self).available().contains(entity) ==> final(self).pool_distinct(),
    {
        let mut signature = self.signatures[entity as usize];
        signature.reset();
        self.signatures.set(entity as usize, signature);
        self.available_entities.push(entity);
        self.live_entity_count = self.live_entity_count - 1;
        proof {
            lemma_signature_bits(signature, 0);
            lemma_signature_bits(signature_from_bits(0), 0);
            assert(signature == signature_from_bits(0));
            assert(self.signatures() =~= old(self).signatures().update(entity as int, signature_from_bits(0)));
            assert(self.available() =~= old(self).available().push(entity));
            assert forall|i: int| 0 <= i < self.available().len() implies #[trigger] self.available()[i] < MAX_ENTITIES by {
                if i < old(self).available().len() {
                    assert(self.available()[i] == old(self).available()[i]);
                }
            }
            if old(self).pool_distinct() && !old(self).available().contains(entity) {
                assert forall|i: int, j: int| 0 <= i < self.available().len() && 0 <= j < self.available().len() && i != j
                    implies self.available()[i] != self.available()[j] by {
                    if i < old(self).available().len() && j < old(self).available().len() {
                        assert(old(self).available()[i] != old(self).available()[j]);
                    } else if i < old(self).available().len() {
                        assert(old(self).available().contains(old(self).available()[i]));
                    } else if j < old(self).available().len() {
                        assert(old(self).available().contains(old(self).available()[j]));
                    }
                }
            }
        }
    }

    /// Replaces the signature of `entity`.
    pub fn set_signature(&mut self, entity: Entity, signature: Signature)
        requires
            old(self).wf(),
            entity < MAX_ENTITIES,
        ensures
            final(self).wf(),
            final(self).signatures() == old(self).signatures().update(entity as int, signature),
            final(self).available() == old(self).available(),
            final(self).live_count() == old(self).live_count(),
    {
        self.signatures.set(entity as usize, signature);
    }

    /// The signature of `entity`.
    pub fn get_signature(&self, entity: Entity) -> (s: Signature)
        requires
            self.wf(),
            entity < MAX_ENTITIES,
        ensures
            s == self.signatures()[entity as int],
    {
        self.signatures[entity as usize]
    }
}

/// Destroying the entity just created puts the free stack and the number of
/// live entities back as they were.
pub proof fn law_create_then_destroy(a: EntityManager, b: EntityManager, c: EntityManager, e: Entity)
    requires
        EntityManager::create_post(a, b, e),
        EntityManager::destroy_post(b, c, e),
    ensures
        c.available() == a.available(),
        c.live_count() == a.live_count(),
        c.signatures() == a.signatures().update(e as int, signature_from_bits(0)),
{
    assert(c.available() =~= a.available());
}

/// The entity created next is the one destroyed last.
pub proof fn law_destroy_then_create(a: EntityManager, b: EntityManager, c: EntityManager, e: Entity, f: Entity)
    requires
        EntityManager::destroy_post(a, b, e),
        EntityManager::create_post(b, c, f),
    ensures
        f == e,
        c.available() == a.available(),
        c.live_count() == a.live_count(),
{
    assert(c.available() =~= a.available());
}

/// While no live entity is destroyed twice, an entity handed out is never
/// handed out again before it is destroyed: it is not among the free ids.
pub proof fn law_created_entity_is_not_free(a: EntityManager, b: EntityManager, e: Entity)
    requires
        a.pool_distinct(),
        EntityManager::create_post(a, b, e),
    ensures
        b.pool_distinct(),
        !b.available().contains(e),
{
    if b.available().contains(e) {
        let k = choose|k: int| 0 <= k < b.available().len() && b.available()[k] == e;
        assert(a.available()[k] == a.available()[a.available().len() - 1]);
    }
}

} // verus!
