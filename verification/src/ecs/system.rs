use vstd::prelude::*;
use std::collections::HashSet;

use crate::ecs::Entity;

verus! {

/// A system runs on the set of entities whose signature holds its own.
pub trait SystemTrait {
    /// The entities the system runs on.
    spec fn entity_set(&self) -> Set<Entity>;

    /// The entities the system runs on.
    fn entities(&self) -> (r: &HashSet<Entity>)
        ensures
            r@ == self.entity_set(),
    ;

    /// The entities the system runs on, to change in place.
    fn entities_mut(&mut self) -> (r: &mut HashSet<Entity>)
        ensures
            r@ == old(self).entity_set(),
            final(self).entity_set() == final(r)@,
    ;
}

} // verus!
