use vstd::prelude::*;

use crate::ecs::component_array::{ComponentArray, ComponentArrayTrait};
use crate::ecs::{ComponentType, Entity};

verus! {

/// Registers component types by name and keeps one component store per type.
///
/// The type registered `i`-th receives the id `i`; its name and its store
/// sit at position `i`.
pub struct ComponentManager<C> {
    component_types: Vec<String>,
    component_arrays: Vec<ComponentArray<C>>,
    next_component_type: ComponentType,
}

impl<C> ComponentManager<C> {
    /// The registered names, by id.
    pub closed spec fn type_names(&self) -> Seq<Seq<char>> {
        self.component_types@.map_values(|s: String| s@)
    }

    /// The contents of each store, by id.
    pub closed spec fn stores(&self) -> Seq<Map<Entity, C>> {
        self.component_arrays@.map_values(|a: ComponentArray<C>| a@)
    }

    /// Whether a type of this name is registered.
    pub open spec fn registered(&self, name: Seq<char>) -> bool {
        self.type_names().contains(name)
    }

    /// The id of the type registered under `name`.
    pub open spec fn type_id(&self, name: Seq<char>) -> int {
        self.type_names().index_of(name)
    }

    /// The store of the type registered under `name`.
    pub open spec fn store(&self, name: Seq<char>) -> Map<Entity, C> {
        self.stores()[self.type_id(name)]
    }

    /// Names are unique, every registered type has a consistent store, and
    /// the next id is the number of types registered.
    pub closed spec fn wf(&self) -> bool {
        &&& self.component_types@.len() == self.component_arrays@.len()
        &&& self.component_types@.len() == self.next_component_type as nat
        &&& self.type_names().no_duplicates()
        &&& forall|i: int| 0 <= i < self.component_arrays@.len() ==> (#[trigger] self.component_arrays@[i]).wf()
    }

    /// The manager's consistency reduces to its parts.
    pub proof fn lemma_wf(&self)
        requires
            self.wf(),
        ensures
            self.type_names().len() == self.stores().len(),
            self.type_names().len() < 256,
            self.type_names().no_duplicates(),
            forall|name: Seq<char>| #[trigger] self.registered(name) ==> 0 <= self.type_id(name) < self.type_names().len()
                && self.type_names()[self.type_id(name)] == name,
    {
        assert forall|name: Seq<char>| #[trigger] self.registered(name) implies 0 <= self.type_id(name) < self.type_names().len()
            && self.type_names()[self.type_id(name)] == name by {
        }
    }

    /// The id of a registered type is its position among the names.
    pub proof fn lemma_type_id(&self, name: Seq<char>, i: int)
        requires
            self.wf(),
            0 <= i < self.type_names().len(),
            self.type_names()[i] == name,
        ensures
            self.registered(name),
            self.type_id(name) == i,
    {
        self.lemma_wf();
        assert(self.registered(name));
        let k = self.type_id(name);
        if k != i {
            assert(self.type_names()[k] == self.type_names()[i]);
        }
    }

    /// A manager with no type registered.
    pub fn new() -> (m: Self)
        ensures
            m.wf(),
            m.type_names() == Seq::<Seq<char>>::empty(),
            m.stores() == Seq::<Map<Entity, C>>::empty(),
    {
        let m = Self {
            component_types: Vec::new(),
            component_arrays: Vec::new(),
            next_component_type: 0u8,
        };
        assert(m.type_names() =~= Seq::<Seq<char>>::empty());
        assert(m.stores() =~= Seq::<Map<Entity, C>>::empty());
        m
    }

    /// The position of `name` among the registered names.
    fn find_type(&self, name: &String) -> (r: Option<usize>)
        requires
            self.wf(),
        ensures
            match r {
                Some(i) => i < self.type_names().len() && self.type_names()[i as int] == name@
                    && i == self.type_id(name@) && self.registered(name@),
                None => !self.registered(name@),
            },
    {
        let mut i: usize = 0;
        while i < self.component_types.len()
            invariant
                self.wf(),
                i <= self.component_types@.len(),
                forall|j: int| 0 <= j < i ==> self.type_names()[j] != name@,
            decreases self.component_types@.len() - i,
        {
            if self.component_types[i] == *name {
                proof {
                    let k = self.type_id(name@);
                    if k != i {
                        assert(self.type_names()[k] == self.type_names()[i as int]);
                    }
                }
                return Some(i);
            }
            i = i + 1;
        }
        proof {
            if self.registered(name@) {
                let k = choose|k: int| 0 <= k < self.type_names().len() && self.type_names()[k] == name@;
                assert(self.type_names()[k] != name@);
            }
        }
        None
    }

    /// Registers a component type under `name`, with the next id and an
    /// empty store.
    pub fn register_component(&mut self, name: String)
        requires
            old(self).wf(),
            !old(self).registered(name@),
            old(self).type_names().len() < 255,
        ensures
            final(self).wf(),
            final(self).type_names() == old(self).type_names().push(name@),
            final(self).stores() == old(self).stores().push(Map::<Entity, C>::empty()),
            final(self).registered(name@),
            final(self).type_id(name@) == old(self).type_names().len(),
    {
        proof { self.lemma_wf(); }
        self.component_types.push(name);
        self.component_arrays.push(ComponentArray::new());
        self.next_component_type = self.next_component_type + 1;
        proof {
            assert(self.type_names() =~= old(self).type_names().push(name@));
            assert(self.stores() =~= old(self).stores().push(Map::<Entity, C>::empty()));
            assert forall|i: int| 0 <= i < self.type_names().len() && 0 <= i < old(self).type_names().len() implies
                self.type_names()[i] != name@ by {
                assert(old(self).type_names()[i] == self.type_names()[i]);
                assert(old(self).type_names().contains(old(self).type_names()[i]));
            }
            let last = old(self).type_names().len() as int;
            assert(self.type_names()[last] == name@);
            let id = self.type_id(name@);
            if id != last {
                assert(self.type_names()[id] == self.type_names()[last]);
            }
        }
    }

    /// The id of the type registered under `name`.
    pub fn get_component_type(&self, name: &String) -> (t: ComponentType)
        requires
            self.wf(),
            self.registered(name@),
        ensures
            t == self.type_id(name@),
    {
        let i = self.find_type(name).unwrap();
        i as ComponentType
    }

    /// The store of the type registered under `name`.
    fn get_component_array(&self, name: &String) -> (a: &ComponentArray<C>)
        requires
            self.wf(),
            self.registered(name@),
        ensures
            a.wf(),
            a@ == self.store(name@),
    {
        let i = self.find_type(name).unwrap();
        &self.component_arrays[i]
    }

    /// The store of the type registered under `name`, to change in place.
    fn get_component_array_mut(&mut self, name: &String) -> (a: &mut ComponentArray<C>)
        requires
            old(self).wf(),
            old(self).registered(name@),
        ensures
            *a == old(self).component_arrays@[old(self).type_id(name@)],
            a.wf(),
            final(self).component_types == old(self).component_types,
            final(self).next_component_type == old(self).next_component_type,
            final(self).component_arrays@ == old(self).component_arrays@.update(old(self).type_id(name@), *final(a)),
    {
        let i = self.find_type(name).unwrap();
        &mut self.component_arrays[i]
    }

    /// Adds the component of `entity` to the store of type `name`.
    pub fn add_component(&mut self, name: &String, entity: Entity, component: C)
        requires
            old(self).wf(),
            old(self).registered(name@),
            !old(self).store(name@).contains_key(entity),
        ensures
            final(self).wf(),
            final(self).type_names() == old(self).type_names(),
            final(self).stores() == old(self).stores().update(
                old(self).type_id(name@),
                old(self).store(name@).insert(entity, component),
            ),
    {
        let ghost i = self.type_id(name@);
        proof { self.lemma_wf(); }
        self.get_component_array_mut(name).insert_data(entity, component);
        proof {
            assert(self.type_names() =~= old(self).type_names());
            assert(self.stores() =~= old(self).stores().update(i as int, old(self).store(name@).insert(entity, component)));
        }
    }

    /// Removes the component of `entity` from the store of type `name`.
    pub fn remove_component(&mut self, name: &String, entity: Entity)
        requires
            old(self).wf(),
            old(self).registered(name@),
            old(self).store(name@).contains_key(entity),
        ensures
            final(self).wf(),
            final(self).type_names() == old(self).type_names(),
            final(self).stores() == old(self).stores().update(
                old(self).type_id(name@),
                old(self).store(name@).remove(entity),
            ),
    {
        let ghost i = self.type_id(name@);
        proof { self.lemma_wf(); }
        self.get_component_array_mut(name).remove_data(entity);
        proof {
            assert(self.type_names() =~= old(self).type_names());
            assert(self.stores() =~= old(self).stores().update(i as int, old(self).store(name@).remove(entity)));
        }
    }

    /// Whether `entity` has a component of type `name`.
    pub fn has_component(&self, name: &String, entity: Entity) -> (r: bool)
        requires
            self.wf(),
            self.registered(name@),
        ensures
            r == self.store(name@).contains_key(entity),
    {
        self.get_component_array(name).has_data(entity)
    }

    /// The component of type `name` of `entity`.
    pub fn get_component(&self, name: &String, entity: Entity) -> (r: &C)
        requires
            self.wf(),
            self.registered(name@),
            self.store(name@).contains_key(entity),
        ensures
            *r == self.store(name@)[entity],
    {
        self.get_component_array(name).get_data(entity)
    }

    /// The component of type `name` of `entity`, to change in place.
    pub fn get_component_mut(&mut self, name: &String, entity: Entity) -> (r: &mut C)
        requires
            old(self).wf(),
            old(self).registered(name@),
            old(self).store(name@).contains_key(entity),
        ensures
            *r == old(self).store(name@)[entity],
            final(self).wf(),
            final(self).type_names() == old(self).type_names(),
            final(self).stores() == old(self).stores().update(
                old(self).type_id(name@),
                old(self).store(name@).insert(entity, *final(r)),
            ),
    {
        self.get_component_array_mut(name).get_data_mut(entity)
    }

    /// Drops the components of `entity` from every store.
    pub fn entity_destroyed(&mut self, entity: Entity)
        requires
            old(self).wf(),
        ensures
            final(self).wf(),
            final(self).type_names() == old(self).type_names(),
            final(self).stores().len() == old(self).stores().len(),
            forall|i: int| 0 <= i < old(self).stores().len() ==>
                #[trigger] final(self).stores()[i] == old(self).stores()[i].remove(entity),
    {
        let mut i: usize = 0;
        while i < self.component_arrays.len()
            invariant
                self.wf(),
                i <= self.component_arrays@.len(),
                self.type_names() == old(self).type_names(),
                self.stores().len() == old(self).stores().len(),
                forall|j: int| 0 <= j < i ==> #[trigger] self.stores()[j] == old(self).stores()[j].remove(entity),
                forall|j: int| i <= j < self.stores().len() ==> #[trigger] self.stores()[j] == old(self).stores()[j],
            decreases self.component_arrays@.len() - i,
        {
            let ghost pre = self.stores();
            self.component_arrays[i].entity_destroyed(entity);
            proof {
                assert(self.stores() =~= pre.update(i as int, pre[i as int].remove(entity)));
                assert(self.type_names() =~= old(self).type_names());
            }
            i = i + 1;
        }
    }
}

} // verus!
