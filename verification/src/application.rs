use vstd::prelude::*;
use std::collections::HashSet;

use crate::ecs::Entity;
use crate::ecs::component_array::ComponentArray;
use crate::ecs::system::SystemTrait;
use vstd::std_specs::iter::IteratorSpec;

verus! {

broadcast use vstd::std_specs::hash::group_hash_axioms;

/// A named node of the editor's scene tree.
pub struct OsmiumObject {
    pub name: String,
    pub active: bool,
    pub entity: Entity,

    pub parent: Option<Entity>,
    pub children: Vec<Entity>,
}

impl OsmiumObject {
    /// A node without parent or children, inactive.
    pub fn new_isolated(name: &str, entity: Entity) -> (o: Self)
        ensures
            o.name@ == name@,
            !o.active,
            o.entity == entity,
            o.parent is None,
            o.children@ == Seq::<Entity>::empty(),
    {
        Self {
            name: String::from_str(name),
            active: false,
            entity,
            parent: None,
            children: Vec::new(),
        }
    }

    /// A node under `parent`, which gains `entity` as its last child.
    pub fn init(name: &str, entity: Entity, parent: Entity, objects: &mut ComponentArray<OsmiumObject>) -> (o: Self)
        requires
            old(objects).wf(),
            old(objects)@.contains_key(parent),
        ensures
            o.name@ == name@,
            !o.active,
            o.entity == entity,
            o.parent == Some(parent),
            o.children@ == Seq::<Entity>::empty(),
            final(objects).wf(),
            final(objects)@.dom() == old(objects)@.dom(),
            forall|e: Entity| e != parent && #[trigger] final(objects)@.contains_key(e) ==> final(objects)@[e] == old(objects)@[e],
            final(objects)@[parent].children@ == old(objects)@[parent].children@.push(entity),
            final(objects)@[parent].name == old(objects)@[parent].name,
            final(objects)@[parent].active == old(objects)@[parent].active,
            final(objects)@[parent].entity == old(objects)@[parent].entity,
            final(objects)@[parent].parent == old(objects)@[parent].parent,
    {
        let parent_object = objects.get_data_mut(parent);
        parent_object.add_child(entity);
        Self {
            name: String::from_str(name),
            active: false,
            entity,
            parent: Some(parent),
            children: Vec::new(),
        }
    }

    /// Appends `child` to the children.
    pub fn add_child(&mut self, child: Entity)
        ensures
            final(self).children@ == old(self).children@.push(child),
            final(self).name == old(self).name,
            final(self).active == old(self).active,
            final(self).entity == old(self).entity,
            final(self).parent == old(self).parent,
    {
        self.children.push(child);
    }
}

/// Keeps the editor's scene tree: the objects without parent are its roots.
pub struct OsmiumObjectSystem {
    pub entities: HashSet<Entity>,

    pub roots: Vec<Entity>,
}

impl OsmiumObjectSystem {
    /// A system with no entity and no root.
    pub fn new() -> (s: Self)
        ensures
            s.entities@ == Set::<Entity>::empty(),
            s.roots@ == Seq::<Entity>::empty(),
    {
        Self { entities: HashSet::new(), roots: Vec::new() }
    }

    /// Does nothing.
    pub fn asdasd(&self) {
    }

    /// Appends every entity of the system whose object has no parent to the
    /// roots, in the order the entity set is walked.
    pub fn initialize(&mut self, objects: &ComponentArray<OsmiumObject>)
        requires
            objects.wf(),
            forall|e: Entity| #[trigger] old(self).entities@.contains(e) ==> objects@.contains_key(e),
        ensures
            final(self).entities@ == old(self).entities@,
            exists|order: Seq<Entity>| {
                &&& order.no_duplicates()
                &&& order.to_set() == old(self).entities@
                &&& final(self).roots@ == old(self).roots@ + order.filter(|e: Entity| objects@[e].parent is None)
            },
    {
        let ghost start = self.roots@;
        let ghost pred = |e: Entity| objects@[e].parent is None;
        let ghost order = vstd::std_specs::hash::spec_hash_keys_iter(&self.entities).remaining().unref();
        assert(order.take(order.len() as int) =~= order);
        for entity in it: self.entities.iter()
            invariant
                objects.wf(),
                forall|e: Entity| #[trigger] self.entities@.contains(e) ==> objects@.contains_key(e),
                self.entities@ == old(self).entities@,
                it.seq().unref() == order,
                pred == (|e: Entity| objects@[e].parent is None),
                order.to_set() == self.entities@,
                order.no_duplicates(),
                order.take(order.len() as int) == order,
                0 <= it.index() <= it.seq().len(),
                self.roots@ == start + order.take(it.index()).filter(pred),
        {
            let e = *entity;
            let ghost idx = it.index();
            proof {
                assert(order[idx] == e);
                assert(order.to_set().contains(e));
            }
            let ghost before = self.roots@;
            let object = objects.get_data(e);
            if object.parent.is_none() {
                self.roots.push(e);
            }
            proof {
                let prefix = order.take(idx);
                assert(order.take(idx + 1) =~= prefix + seq![e]);
                Seq::filter_distributes_over_add(prefix, seq![e], pred);
                reveal_with_fuel(Seq::filter, 2);
                assert(seq![e].drop_last() =~= Seq::<Entity>::empty());
                assert(Seq::<Entity>::empty().filter(pred) =~= Seq::<Entity>::empty());
                assert(pred(e) == (objects@[e].parent is None));
                if pred(e) {
                    assert(seq![e].filter(pred) =~= seq![e]);
                } else {
                    assert(seq![e].filter(pred) =~= Seq::<Entity>::empty());
                }
                assert(before == start + prefix.filter(pred));
                assert(self.roots@ =~= start + order.take(idx + 1).filter(pred));
            }
        }
        assert(self.roots@ == start + order.filter(pred));
    }
}

impl SystemTrait for OsmiumObjectSystem {
    open spec fn entity_set(&self) -> Set<Entity> {
        self.entities@
    }

    fn entities(&self) -> (r: &HashSet<Entity>) {
        &self.entities
    }

    fn entities_mut(&mut self) -> (r: &mut HashSet<Entity>) {
        &mut self.entities
    }
}

/// Turns the editor camera while the middle mouse button is held.
pub struct OsmiumCameraControllerSystem {
    pub entities: HashSet<Entity>,
}

impl OsmiumCameraControllerSystem {
    /// A system running on no entity.
    pub fn new() -> (s: Self)
        ensures
            s.entities@ == Set::<Entity>::empty(),
    {
        Self { entities: HashSet::new() }
    }
}

impl SystemTrait for OsmiumCameraControllerSystem {
    open spec fn entity_set(&self) -> Set<Entity> {
        self.entities@
    }

    fn entities(&self) -> (r: &HashSet<Entity>) {
        &self.entities
    }

    fn entities_mut(&mut self) -> (r: &mut HashSet<Entity>) {
        &mut self.entities
    }
}

/// The tabs of the editor's dock area.
#[derive(Clone, Copy, PartialEq, Eq, Structural, Debug)]
pub enum OsmiumTab {
    Scene,
    Inspector,
}

impl OsmiumTab {
    /// The tab's caption.
    pub fn title(&self) -> (t: &'static str)
        ensures
            t@ == match self {
                OsmiumTab::Scene => "Scene"@,
                OsmiumTab::Inspector => "Inspector"@,
            },
    {
        match self {
            OsmiumTab::Scene => "Scene",
            OsmiumTab::Inspector => "Inspector",
        }
    }
}

} // verus!
