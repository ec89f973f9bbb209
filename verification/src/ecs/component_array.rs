use vstd::prelude::*;
use std::collections::HashMap;

use crate::ecs::{Entity, MAX_ENTITIES};
use vstd::set_lib::{lemma_int_range, lemma_map_size, set_int_range};
use vstd::relations::injective_on;

verus! {

broadcast use vstd::std_specs::hash::group_hash_axioms;

/// What every component store offers once its element type is forgotten.
pub trait ComponentArrayTrait {
    /// The store is consistent.
    spec fn well_formed(&self) -> bool;

    /// The store holds a component for `entity`.
    spec fn holds(&self, entity: Entity) -> bool;

    /// Drops the component of `entity`, where there is one.
    fn entity_destroyed(&mut self, entity: Entity)
        requires
            old(self).well_formed(),
        ensures
            final(self).well_formed(),
            !final(self).holds(entity),
            forall|e: Entity| e != entity ==> (final(self).holds(e) <==> old(self).holds(e)),
    ;
}

/// The components of one type, packed without gaps, with the maps between
/// an entity and the slot of its component.
pub struct ComponentArray<T> {
    component_array: Vec<T>,
    entity_to_index_map: HashMap<Entity, usize>,
    index_to_entity_map: HashMap<usize, Entity>,
}

impl<T> View for ComponentArray<T> {
    type V = Map<Entity, T>;

    /// The component of each entity that has one.
    closed spec fn view(&self) -> Map<Entity, T> {
        Map::new(
            |e: Entity| self.entity_to_index_map@.contains_key(e),
            |e: Entity| self.component_array@[self.entity_to_index_map@[e] as int],
        )
    }
}

impl<T> ComponentArray<T> {
    /// How many components the store holds, packed in the slots `0..size`.
    pub closed spec fn size(&self) -> nat {
        self.component_array@.len()
    }

    /// The two maps are inverse to each other and cover the slots exactly.
    pub closed spec fn wf(&self) -> bool {
        let n = self.component_array@.len();
        &&& forall|e: Entity| #[trigger] self.entity_to_index_map@.contains_key(e) ==> {
            let i = self.entity_to_index_map@[e];
            &&& i < n
            &&& self.index_to_entity_map@.contains_key(i)
            &&& self.index_to_entity_map@[i] == e
        }
        &&& forall|i: usize| #[trigger] self.index_to_entity_map@.contains_key(i) <==> i < n
        &&& forall|i: usize| #[trigger] self.index_to_entity_map@.contains_key(i) ==> {
            let e = self.index_to_entity_map@[i];
            &&& self.entity_to_index_map@.contains_key(e)
            &&& self.entity_to_index_map@[e] == i
        }
    }

    /// The store holds one slot per entity with a component.
    pub proof fn lemma_size(&self)
        requires
            self.wf(),
        ensures
            self@.dom().finite(),
            self@.dom().len() == self.size(),
    {
        let dom = self.entity_to_index_map@.dom();
        assert(self@.dom() =~= dom);
        let f = |e: Entity| self.entity_to_index_map@[e] as int;
        let n = self.component_array@.len() as int;
        assert(self.component_array.len() == n);
        assert(injective_on(f, dom)) by {
            assert forall|a: Entity, b: Entity| dom.contains(a) && dom.contains(b) && #[trigger] f(a) == #[trigger] f(b) implies a == b by {
                assert(self.entity_to_index_map@.contains_key(a));
                assert(self.entity_to_index_map@.contains_key(b));
            }
        }
        assert(dom.map(f) =~= set_int_range(0, n)) by {
            assert forall|i: int| #[trigger] set_int_range(0, n).contains(i) implies dom.map(f).contains(i) by {
                let u = i as usize;
                assert(self.index_to_entity_map@.contains_key(u));
                let e = self.index_to_entity_map@[u];
                assert(dom.contains(e) && f(e) == i);
            }
            assert forall|i: int| #[trigger] dom.map(f).contains(i) implies set_int_range(0, n).contains(i) by {
                let e = choose|e: Entity| dom.contains(e) && f(e) == i;
                assert(self.entity_to_index_map@.contains_key(e));
            }
        }
        lemma_int_range(0, n);
        lemma_map_size(dom, set_int_range(0, n), f);
    }

    /// An empty store.
    pub fn new() -> (a: Self)
        ensures
            a.wf(),
            a@ == Map::<Entity, T>::empty(),
            a.size() == 0,
    {
        let a = Self {
            component_array: Vec::with_capacity(MAX_ENTITIES),
            entity_to_index_map: HashMap::new(),
            index_to_entity_map: HashMap::new(),
        };
        assert(a@ =~= Map::<Entity, T>::empty());
        a
    }

    /// Adds the component of `entity` in the slot after the last.
    pub fn insert_data(&mut self, entity: Entity, component: T)
        requires
            old(self).wf(),
            !old(self)@.contains_key(entity),
        ensures
            final(self).wf(),
            final(self)@ == old(self)@.insert(entity, component),
            final(self).size() == old(self).size() + 1,
    {
        let new_index = self.component_array.len();
        self.entity_to_index_map.insert(entity, new_index);
        self.index_to_entity_map.insert(new_index, entity);
        self.component_array.push(component);
        proof {
            let n = old(self).component_array@.len();
            assert(!old(self).index_to_entity_map@.contains_key(new_index));
            assert forall|e: Entity| #[trigger] self.entity_to_index_map@.contains_key(e) implies {
                let i = self.entity_to_index_map@[e];
                &&& i < n + 1
                &&& self.index_to_entity_map@.contains_key(i)
                &&& self.index_to_entity_map@[i] == e
            } by {
                if e != entity {
                    assert(old(self).entity_to_index_map@.contains_key(e));
                }
            }
            assert forall|i: usize| #[trigger] self.index_to_entity_map@.contains_key(i) implies {
                let e = self.index_to_entity_map@[i];
                &&& self.entity_to_index_map@.contains_key(e)
                &&& self.entity_to_index_map@[e] == i
            } by {
                if i != new_index {
                    assert(old(self).index_to_entity_map@.contains_key(i));
                    let e = old(self).index_to_entity_map@[i];
                    assert(old(self).entity_to_index_map@.contains_key(e));
                }
            }
            assert(self@ =~= old(self)@.insert(entity, component));
        }
    }

    /// Removes the component of `entity`; the component in the last slot
    /// moves into the freed slot.
    pub fn remove_data(&mut self, entity: Entity)
        requires
            old(self).wf(),
            old(self)@.contains_key(entity),
        ensures
            final(self).wf(),
            final(self)@ == old(self)@.remove(entity),
            final(self).size() + 1 == old(self).size(),
    {
        let index_of_removed_entity = *self.entity_to_index_map.get(&entity).unwrap();
        let index_of_last_element = self.component_array.len() - 1;
        let entity_of_last_element = *self.index_to_entity_map.get(&index_of_last_element).unwrap();

        self.component_array.swap_remove(index_of_removed_entity);

        self.entity_to_index_map.remove(&entity);
        self.index_to_entity_map.remove(&index_of_last_element);

        if index_of_removed_entity != index_of_last_element {
            self.entity_to_index_map.insert(entity_of_last_element, index_of_removed_entity);
            self.index_to_entity_map.insert(index_of_removed_entity, entity_of_last_element);
        }
        proof {
            let o = *old(self);
            let r = index_of_removed_entity;
            let l = index_of_last_element;
            let el = entity_of_last_element;
            let n = o.component_array@.len();
            assert(o.index_to_entity_map@.contains_key(l));
            assert(o.entity_to_index_map@.contains_key(el));
            assert(o.entity_to_index_map@[el] == l);
            if r == l {
                assert(el == entity);
            } else {
                assert(el != entity);
            }
            assert forall|e: Entity| #[trigger] self.entity_to_index_map@.contains_key(e) implies {
                let i = self.entity_to_index_map@[e];
                &&& i < n - 1
                &&& self.index_to_entity_map@.contains_key(i)
                &&& self.index_to_entity_map@[i] == e
            } by {
                if e != el {
                    assert(o.entity_to_index_map@.contains_key(e));
                    let i = o.entity_to_index_map@[e];
                    assert(o.index_to_entity_map@[i] == e);
                    assert(i != l);
                    assert(i != r);
                }
            }
            assert forall|i: usize| #[trigger] self.index_to_entity_map@.contains_key(i) <==> i < n - 1 by {
                if i < n - 1 {
                    assert(o.index_to_entity_map@.contains_key(i));
                }
            }
            assert forall|i: usize| #[trigger] self.index_to_entity_map@.contains_key(i) implies {
                let e = self.index_to_entity_map@[i];
                &&& self.entity_to_index_map@.contains_key(e)
                &&& self.entity_to_index_map@[e] == i
            } by {
                if i != r {
                    assert(o.index_to_entity_map@.contains_key(i));
                    let e = o.index_to_entity_map@[i];
                    assert(o.entity_to_index_map@.contains_key(e));
                    assert(o.entity_to_index_map@[e] == i);
                    assert(e != entity);
                    assert(e != el);
                }
            }
            assert forall|e: Entity| #[trigger] self@.contains_key(e) implies self@[e] == o@[e] by {
                if e != el {
                    let i = o.entity_to_index_map@[e];
                    assert(i != l);
                    assert(self.component_array@[i as int] == o.component_array@[i as int]);
                } else {
                    assert(self.component_array@[r as int] == o.component_array@[l as int]);
                }
            }
            assert(self@ =~= o@.remove(entity));
        }
    }

    /// Whether `entity` has a component here.
    pub fn has_data(&self, entity: Entity) -> (r: bool)
        requires
            self.wf(),
        ensures
            r == self@.contains_key(entity),
    {
        self.entity_to_index_map.contains_key(&entity)
    }

    /// The component of `entity`.
    pub fn get_data(&self, entity: Entity) -> (r: &T)
        requires
            self.wf(),
            self@.contains_key(entity),
        ensures
            *r == self@[entity],
    {
        let idx = *self.entity_to_index_map.get(&entity).unwrap();
        &self.component_array[idx]
    }

    /// The component of `entity`, to change in place.
    pub fn get_data_mut(&mut self, entity: Entity) -> (r: &mut T)
        requires
            old(self).wf(),
            old(self)@.contains_key(entity),
        ensures
            *r == old(self)@[entity],
            final(self).wf(),
            final(self)@ == old(self)@.insert(entity, *final(r)),
            final(self).size() == old(self).size(),
    {
        let idx = *self.entity_to_index_map.get(&entity).unwrap();
        &mut self.component_array[idx]
    }
}

impl<T> ComponentArrayTrait for ComponentArray<T> {
    open spec fn well_formed(&self) -> bool {
        self.wf()
    }

    open spec fn holds(&self, entity: Entity) -> bool {
        self@.contains_key(entity)
    }

    fn entity_destroyed(&mut self, entity: Entity)
        ensures
            final(self)@ == old(self)@.remove(entity),
            final(self).size() == if old(self)@.contains_key(entity) { old(self).size() - 1 } else { old(self).size() as int },
    {
        if self.entity_to_index_map.contains_key(&entity) {
            self.remove_data(entity);
        } else {
            assert(old(self)@ =~= old(self)@.remove(entity));
        }
    }
}

/// Removing the component just inserted leaves the store as it was.
pub proof fn law_insert_then_remove<T>(a: Map<Entity, T>, b: Map<Entity, T>, c: Map<Entity, T>, entity: Entity, component: T)
    requires
        !a.contains_key(entity),
        b == a.insert(entity, component),
        c == b.remove(entity),
    ensures
        c == a,
{
    assert(c =~= a);
}

/// A store answers with the component last inserted for an entity, and other
/// entities keep theirs.
pub proof fn law_insert_then_get<T>(a: Map<Entity, T>, b: Map<Entity, T>, entity: Entity, component: T, other: Entity)
    requires
        b == a.insert(entity, component),
    ensures
        b.contains_key(entity),
        b[entity] == component,
        other != entity ==> (b.contains_key(other) == a.contains_key(other)),
        other != entity && a.contains_key(other) ==> b[other] == a[other],
{
}

} // verus!
