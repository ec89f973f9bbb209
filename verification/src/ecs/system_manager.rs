use vstd::prelude::*;

use crate::ecs::Entity;
use crate::ecs::signature::{Signature, signature_matches, lemma_signature_eq};
use crate::ecs::system::SystemTrait;

verus! {

broadcast use vstd::std_specs::hash::group_hash_axioms;

/// Registers systems by name, keeps the signature each system asks for, and
/// keeps each system's entity set in step with the entities' signatures.
///
/// The system registered `i`-th sits at position `i`; the names are kept in
/// registration order.
pub struct SystemManager<S> {
    signatures: Vec<Option<Signature>>,
    systems: Vec<S>,
    execution_order: Vec<String>,
}

impl<S: SystemTrait> SystemManager<S> {
    /// The system names, in registration order.
    pub closed spec fn names(&self) -> Seq<Seq<char>> {
        self.execution_order@.map_values(|s: String| s@)
    }

    /// The signature each system asks for, once it is set.
    pub closed spec fn system_signatures(&self) -> Seq<Option<Signature>> {
        self.signatures@
    }

    /// The systems.
    pub closed spec fn systems(&self) -> Seq<S> {
        self.systems@
    }

    /// The entity set of each system.
    pub open spec fn members(&self) -> Seq<Set<Entity>> {
        self.systems().map_values(|s: S| s.entity_set())
    }

    /// Whether a system of this name is registered.
    pub open spec fn registered(&self, name: Seq<char>) -> bool {
        self.names().contains(name)
    }

    /// The position of the system registered under `name`.
    pub open spec fn system_id(&self, name: Seq<char>) -> int {
        self.names().index_of(name)
    }

    /// Every registered system has had its signature set.
    pub open spec fn all_signatures_set(&self) -> bool {
        forall|i: int| 0 <= i < self.system_signatures().len() ==> (#[trigger] self.system_signatures()[i]) is Some
    }

    /// Names are unique and every system has a signature slot.
    pub closed spec fn wf(&self) -> bool {
        &&& self.signatures@.len() == self.systems@.len()
        &&& self.execution_order@.len() == self.systems@.len()
        &&& self.names().no_duplicates()
    }

    /// The manager's consistency reduces to its parts.
    pub proof fn lemma_wf(&self)
        requires
            self.wf(),
        ensures
            self.names().len() == self.systems().len(),
            self.system_signatures().len() == self.systems().len(),
            self.names().no_duplicates(),
            forall|name: Seq<char>| #[trigger] self.registered(name) ==> 0 <= self.system_id(name) < self.names().len()
                && self.names()[self.system_id(name)] == name,
    {
    }

    /// A manager with no system.
    pub fn new() -> (m: Self)
        ensures
            m.wf(),
            m.names() == Seq::<Seq<char>>::empty(),
            m.systems() == Seq::<S>::empty(),
            m.system_signatures() == Seq::<Option<Signature>>::empty(),
    {
        let m = Self { signatures: Vec::new(), systems: Vec::new(), execution_order: Vec::new() };
        assert(m.names() =~= Seq::<Seq<char>>::empty());
        m
    }

    /// The names of the systems, in registration order.
    pub fn execution_order(&self) -> (r: &Vec<String>)
        ensures
            r@.map_values(|s: String| s@) == self.names(),
    {
        &self.execution_order
    }

    /// The position of `name` among the system names.
    fn find_system(&self, name: &String) -> (r: Option<usize>)
        requires
            self.wf(),
        ensures
            match r {
                Some(i) => i < self.names().len() && self.names()[i as int] == name@
                    && i == self.system_id(name@) && self.registered(name@),
                None => !self.registered(name@),
            },
    {
        let mut i: usize = 0;
        while i < self.execution_order.len()
            invariant
                self.wf(),
                i <= self.execution_order@.len(),
                forall|j: int| 0 <= j < i ==> self.names()[j] != name@,
            decreases self.execution_order@.len() - i,
        {
            if self.execution_order[i] == *name {
                proof {
                    let k = self.system_id(name@);
                    if k != i {
                        assert(self.names()[k] == self.names()[i as int]);
                    }
                }
                return Some(i);
            }
            i = i + 1;
        }
        proof {
            if self.registered(name@) {
                let k = choose|k: int| 0 <= k < self.names().len() && self.names()[k] == name@;
                assert(self.names()[k] != name@);
            }
        }
        None
    }

    /// Registers `system` under `name`, after the systems registered before
    /// it; its signature is not set yet.
    pub fn register_system(&mut self, name: String, system: S) -> (r: &mut S)
        requires
            old(self).wf(),
            !old(self).registered(name@),
        ensures
            *r == system,
            final(self).wf(),
            final(self).names() == old(self).names().push(name@),
            final(self).system_signatures() == old(self).system_signatures().push(None),
            final(self).systems() == old(self).systems().push(*final(r)),
    {
        self.signatures.push(None);
        self.systems.push(system);
        self.execution_order.push(name);
        proof {
            assert(self.names() =~= old(self).names().push(name@));
            assert forall|i: int| 0 <= i < old(self).names().len() implies self.names()[i] != name@ by {
                assert(old(self).names()[i] == self.names()[i]);
                assert(old(self).names().contains(old(self).names()[i]));
            }
        }
        let last = self.systems.len() - 1;
        &mut self.systems[last]
    }

    /// Sets the signature the system `name` asks for.
    pub fn set_signature(&mut self, name: &String, signature: Signature)
        requires
            old(self).wf(),
            old(self).registered(name@),
        ensures
            final(self).wf(),
            final(self).names() == old(self).names(),
            final(self).systems() == old(self).systems(),
            final(self).system_signatures() == old(self).system_signatures().update(
                old(self).system_id(name@),
                Some(signature),
            ),
    {
        let i = self.find_system(name).unwrap();
        self.signatures.set(i, Some(signature));
    }

    /// Takes `entity` out of every system.
    pub fn entity_destroyed(&mut self, entity: Entity)
        requires
            old(self).wf(),
        ensures
            final(self).wf(),
            final(self).names() == old(self).names(),
            final(self).system_signatures() == old(self).system_signatures(),
            final(self).members().len() == old(self).members().len(),
            forall|i: int| 0 <= i < old(self).members().len() ==>
                #[trigger] final(self).members()[i] == old(self).members()[i].remove(entity),
    {
        let mut i: usize = 0;
        while i < self.systems.len()
            invariant
                self.wf(),
                i <= self.systems@.len(),
                self.names() == old(self).names(),
                self.system_signatures() == old(self).system_signatures(),
                self.members().len() == old(self).members().len(),
                forall|j: int| 0 <= j < i ==> #[trigger] self.members()[j] == old(self).members()[j].remove(entity),
                forall|j: int| i <= j < self.members().len() ==> #[trigger] self.members()[j] == old(self).members()[j],
            decreases self.systems@.len() - i,
        {
            let ghost pre = self.members();
            self.systems[i].entities_mut().remove(&entity);
            proof {
                assert(self.names() =~= old(self).names());
                assert(self.members() =~= pre.update(i as int, pre[i as int].remove(entity)));
            }
            i = i + 1;
        }
    }

    /// Puts `entity` into every system whose signature its new signature
    /// holds, and takes it out of every other system.
    pub fn entity_signature_changed(&mut self, entity: Entity, entity_signature: Signature)
        requires
            old(self).wf(),
            old(self).all_signatures_set(),
        ensures
            final(self).wf(),
            final(self).names() == old(self).names(),
            final(self).system_signatures() == old(self).system_signatures(),
            final(self).members().len() == old(self).members().len(),
            forall|i: int| 0 <= i < old(self).members().len() ==>
                #[trigger] final(self).members()[i] == if signature_matches(entity_signature, old(self).system_signatures()[i]->0) {
                    old(self).members()[i].insert(entity)
                } else {
                    old(self).members()[i].remove(entity)
                },
    {
        let mut i: usize = 0;
        while i < self.systems.len()
            invariant
                self.wf(),
                old(self).all_signatures_set(),
                i <= self.systems@.len(),
                self.names() == old(self).names(),
                self.system_signatures() == old(self).system_signatures(),
                self.members().len() == old(self).members().len(),
                forall|j: int| 0 <= j < i ==> #[trigger] self.members()[j] == if signature_matches(entity_signature, old(self).system_signatures()[j]->0) {
                    old(self).members()[j].insert(entity)
                } else {
                    old(self).members()[j].remove(entity)
                },
                forall|j: int| i <= j < self.members().len() ==> #[trigger] self.members()[j] == old(self).members()[j],
            decreases self.systems@.len() - i,
        {
            let system_signature = self.signatures[i].unwrap();
            let ghost pre = self.members();
            let common = entity_signature & system_signature;
            proof {
                lemma_signature_eq(common, system_signature);
            }
            if common == system_signature {
                self.systems[i].entities_mut().insert(entity);
                proof {
                    assert(self.members() =~= pre.update(i as int, pre[i as int].insert(entity)));
                }
            } else {
                self.systems[i].entities_mut().remove(&entity);
                proof {
                    assert(self.members() =~= pre.update(i as int, pre[i as int].remove(entity)));
                }
            }
            proof {
                assert(self.names() =~= old(self).names());
            }
            i = i + 1;
        }
    }

    /// The system registered under `name`.
    pub fn get_system(&self, name: &String) -> (r: &S)
        requires
            self.wf(),
            self.registered(name@),
        ensures
            *r == self.systems()[self.system_id(name@)],
    {
        let i = self.find_system(name).unwrap();
        &self.systems[i]
    }

    /// The system registered under `name`, to change in place.
    pub fn get_system_mut(&mut self, name: &String) -> (r: &mut S)
        requires
            old(self).wf(),
            old(self).registered(name@),
        ensures
            *r == old(self).systems()[old(self).system_id(name@)],
            final(self).wf(),
            final(self).names() == old(self).names(),
            final(self).system_signatures() == old(self).system_signatures(),
            final(self).systems() == old(self).systems().update(old(self).system_id(name@), *final(r)),
    {
        let i = self.find_system(name).unwrap();
        &mut self.systems[i]
    }
}

} // verus!
