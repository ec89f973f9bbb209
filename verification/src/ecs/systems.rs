use vstd::prelude::*;
use std::collections::HashSet;

use crate::ecs::Entity;
use crate::ecs::system::SystemTrait;
use crate::ecs::component_array::ComponentArray;
use crate::ecs::components::MeshRenderable;

verus! {

broadcast use vstd::std_specs::hash::group_hash_axioms;

/// Marks a camera for a rebuild when its transform moved.
pub struct CameraSystem {
    pub entities: HashSet<Entity>,
}

impl CameraSystem {
    /// A system running on no entity.
    pub fn new() -> (s: Self)
        ensures
            s.entity_set() == Set::<Entity>::empty(),
    {
        Self { entities: HashSet::new() }
    }
}

impl SystemTrait for CameraSystem {
    open spec fn entity_set(&self) -> Set<Entity> {
        self.entities@
    }

    fn entities(&self) -> (r: &HashSet<Entity>) {
        &self.entities
    }

    fn entities_mut(&mut self) -> (r: &mut HashSet<Entity>) {
        &mut self.entities
    }
}

/// Moves and turns entities from the arrow and WASD keys.
pub struct DefaultControllerSystem {
    pub entities: HashSet<Entity>,
}

impl DefaultControllerSystem {
    /// A system running on no entity.
    pub fn new() -> (s: Self)
        ensures
            s.entity_set() == Set::<Entity>::empty(),
    {
        Self { entities: HashSet::new() }
    }
}

impl SystemTrait for DefaultControllerSystem {
    open spec fn entity_set(&self) -> Set<Entity> {
        self.entities@
    }

    fn entities(&self) -> (r: &HashSet<Entity>) {
        &self.entities
    }

    fn entities_mut(&mut self) -> (r: &mut HashSet<Entity>) {
        &mut self.entities
    }
}

/// Drives a first-person camera from the mouse and the keyboard.
pub struct FirstPersonControllerSystem {
    pub entities: HashSet<Entity>,
}

impl FirstPersonControllerSystem {
    /// A system running on no entity.
    pub fn new() -> (s: Self)
        ensures
            s.entity_set() == Set::<Entity>::empty(),
    {
        Self { entities: HashSet::new() }
    }
}

impl SystemTrait for FirstPersonControllerSystem {
    open spec fn entity_set(&self) -> Set<Entity> {
        self.entities@
    }

    fn entities(&self) -> (r: &HashSet<Entity>) {
        &self.entities
    }

    fn entities_mut(&mut self) -> (r: &mut HashSet<Entity>) {
        &mut self.entities
    }
}

/// Keeps the light data of lit entities up to date.
pub struct LightSystem {
    pub entities: HashSet<Entity>,
}

impl LightSystem {
    /// A system running on no entity.
    pub fn new() -> (s: Self)
        ensures
            s.entity_set() == Set::<Entity>::empty(),
    {
        Self { entities: HashSet::new() }
    }
}

impl SystemTrait for LightSystem {
    open spec fn entity_set(&self) -> Set<Entity> {
        self.entities@
    }

    fn entities(&self) -> (r: &HashSet<Entity>) {
        &self.entities
    }

    fn entities_mut(&mut self) -> (r: &mut HashSet<Entity>) {
        &mut self.entities
    }
}

/// Hands entities to the physics world and copies their positions back.
pub struct PhysicsSystem {
    pub entities: HashSet<Entity>,
}

impl PhysicsSystem {
    /// A system running on no entity.
    pub fn new() -> (s: Self)
        ensures
            s.entity_set() == Set::<Entity>::empty(),
    {
        Self { entities: HashSet::new() }
    }
}

impl SystemTrait for PhysicsSystem {
    open spec fn entity_set(&self) -> Set<Entity> {
        self.entities@
    }

    fn entities(&self) -> (r: &HashSet<Entity>) {
        &self.entities
    }

    fn entities_mut(&mut self) -> (r: &mut HashSet<Entity>) {
        &mut self.entities
    }
}

/// Collects the entities that are drawn.
pub struct RenderSystem {
    pub entities: HashSet<Entity>,
}

impl RenderSystem {
    /// A system running on no entity.
    pub fn new() -> (s: Self)
        ensures
            s.entity_set() == Set::<Entity>::empty(),
    {
        Self { entities: HashSet::new() }
    }
}

impl SystemTrait for RenderSystem {
    open spec fn entity_set(&self) -> Set<Entity> {
        self.entities@
    }

    fn entities(&self) -> (r: &HashSet<Entity>) {
        &self.entities
    }

    fn entities_mut(&mut self) -> (r: &mut HashSet<Entity>) {
        &mut self.entities
    }
}

/// Moves entities in the view plane from the arrow keys.
pub struct UserControllerSystem {
    pub entities: HashSet<Entity>,
}

impl UserControllerSystem {
    /// A system running on no entity.
    pub fn new() -> (s: Self)
        ensures
            s.entity_set() == Set::<Entity>::empty(),
    {
        Self { entities: HashSet::new() }
    }
}

impl SystemTrait for UserControllerSystem {
    open spec fn entity_set(&self) -> Set<Entity> {
        self.entities@
    }

    fn entities(&self) -> (r: &HashSet<Entity>) {
        &self.entities
    }

    fn entities_mut(&mut self) -> (r: &mut HashSet<Entity>) {
        &mut self.entities
    }
}

impl CameraSystem {
    /// A camera whose transform moved is marked for a rebuild, and the
    /// transform's mark is taken; otherwise nothing changes.
    pub fn update_dirty_flags(transform_dirty: &mut bool, camera_dirty: &mut bool)
        ensures
            *old(transform_dirty) ==> !*final(transform_dirty) && *final(camera_dirty),
            !*old(transform_dirty) ==> !*final(transform_dirty) && *final(camera_dirty) == *old(camera_dirty),
    {
        if *transform_dirty {
            *camera_dirty = true;
            *transform_dirty = false;
        }
    }

    /// The first camera, in the order given, that is active; `None` when
    /// none is.
    pub fn active_camera(cameras: &Vec<(Entity, bool)>) -> (r: Option<Entity>)
        ensures
            match r {
                Some(e) => exists|i: int| {
                    &&& 0 <= i < cameras@.len()
                    &&& #[trigger] cameras@[i] == (e, true)
                    &&& forall|j: int| 0 <= j < i ==> !(#[trigger] cameras@[j]).1
                },
                None => forall|j: int| 0 <= j < cameras@.len() ==> !(#[trigger] cameras@[j]).1,
            },
    {
        let mut i: usize = 0;
        while i < cameras.len()
            invariant
                i <= cameras@.len(),
                forall|j: int| 0 <= j < i ==> !(#[trigger] cameras@[j]).1,
            decreases cameras@.len() - i,
        {
            let (entity, active) = cameras[i];
            if active {
                assert(cameras@[i as int] == (entity, true));
                return Some(entity);
            }
            i = i + 1;
        }
        None
    }
}

impl RenderSystem {
    /// The mesh and material of each entity, in the order given.
    pub fn render_handles(entities: &Vec<Entity>, renderables: &ComponentArray<MeshRenderable>) -> (r: Vec<MeshRenderable>)
        requires
            renderables.wf(),
            forall|i: int| 0 <= i < entities@.len() ==> renderables@.contains_key(#[trigger] entities@[i]),
        ensures
            r@.len() == entities@.len(),
            forall|i: int| 0 <= i < entities@.len() ==> #[trigger] r@[i] == renderables@[entities@[i]],
    {
        let mut r: Vec<MeshRenderable> = Vec::new();
        let mut i: usize = 0;
        while i < entities.len()
            invariant
                renderables.wf(),
                forall|k: int| 0 <= k < entities@.len() ==> renderables@.contains_key(#[trigger] entities@[k]),
                i <= entities@.len(),
                r@.len() == i,
                forall|k: int| 0 <= k < i ==> #[trigger] r@[k] == renderables@[entities@[k]],
            decreases entities@.len() - i,
        {
            let item = *renderables.get_data(entities[i]);
            r.push(item);
            i = i + 1;
        }
        r
    }
}

/// The direction along one axis chosen by two keys, the first taking
/// precedence: -1 for the first, 1 for the second, 0 for neither.
pub open spec fn key_axis_spec(first: bool, second: bool) -> i8 {
    if first { -1i8 } else if second { 1i8 } else { 0i8 }
}

/// The direction along one axis chosen by two keys, the first taking
/// precedence: -1 for the first, 1 for the second, 0 for neither.
pub fn key_axis(first: bool, second: bool) -> (r: i8)
    ensures
        r == key_axis_spec(first, second),
{
    if first {
        -1
    } else if second {
        1
    } else {
        0
    }
}

/// The direction along one axis from two keys that add up: -1 for the
/// first, 1 for the second, 0 for both or neither.
pub fn key_axis_sum(first: bool, second: bool) -> (r: i8)
    ensures
        r == (if second { 1int } else { 0int }) - (if first { 1int } else { 0int }),
{
    let mut r: i8 = 0;
    if first {
        r = r - 1;
    }
    if second {
        r = r + 1;
    }
    r
}

impl DefaultControllerSystem {
    /// The unit steps the keys ask for: A/D along x, Down/Up along y, S/W
    /// along z, the first of each pair taking precedence.
    pub fn movement_direction(a: bool, d: bool, down: bool, up: bool, s: bool, w: bool) -> (r: (i8, i8, i8))
        ensures
            r == (key_axis_spec(a, d), key_axis_spec(down, up), key_axis_spec(s, w)),
    {
        (key_axis(a, d), key_axis(down, up), key_axis(s, w))
    }

    /// The sign of the turn about the vertical axis: 1 for Left, -1 for
    /// Right, Left taking precedence, 0 for neither.
    pub fn turn_direction(left: bool, right: bool) -> (r: i8)
        ensures
            r == -key_axis_spec(left, right),
    {
        if left {
            1
        } else if right {
            -1
        } else {
            0
        }
    }
}

impl UserControllerSystem {
    /// The unit steps the keys ask for in the view plane: Left/Right along
    /// x and Down/Up along y, the first of each pair taking precedence.
    pub fn movement_direction(left: bool, right: bool, down: bool, up: bool) -> (r: (i8, i8))
        ensures
            r == (key_axis_spec(left, right), key_axis_spec(down, up)),
    {
        (key_axis(left, right), key_axis(down, up))
    }
}

impl FirstPersonControllerSystem {
    /// The steps the keys ask for relative to the view, before turning and
    /// normalising: A/D along x, W/S along z (W forward, towards -z); both
    /// keys of a pair cancel.
    pub fn movement_direction(w: bool, s: bool, a: bool, d: bool) -> (r: (i8, i8, i8))
        ensures
            r.0 == (if d { 1int } else { 0int }) - (if a { 1int } else { 0int }),
            r.1 == 0,
            r.2 == (if s { 1int } else { 0int }) - (if w { 1int } else { 0int }),
    {
        (key_axis_sum(a, d), 0, key_axis_sum(w, s))
    }

    /// The vertical step the keys ask for in world space: Space up, left
    /// Shift down; both cancel.
    pub fn vertical_direction(space: bool, left_shift: bool) -> (r: i8)
        ensures
            r == (if space { 1int } else { 0int }) - (if left_shift { 1int } else { 0int }),
    {
        key_axis_sum(left_shift, space)
    }
}

/// One of the engine's built-in systems.
pub enum EngineSystem {
    Physics(PhysicsSystem),
    Render(RenderSystem),
    DefaultController(DefaultControllerSystem),
    Camera(CameraSystem),
    Light(LightSystem),
    FirstPersonController(FirstPersonControllerSystem),
    UserController(UserControllerSystem),
}

impl SystemTrait for EngineSystem {
    open spec fn entity_set(&self) -> Set<Entity> {
        match self {
            EngineSystem::Physics(s) => s.entity_set(),
            EngineSystem::Render(s) => s.entity_set(),
            EngineSystem::DefaultController(s) => s.entity_set(),
            EngineSystem::Camera(s) => s.entity_set(),
            EngineSystem::Light(s) => s.entity_set(),
            EngineSystem::FirstPersonController(s) => s.entity_set(),
            EngineSystem::UserController(s) => s.entity_set(),
        }
    }

    fn entities(&self) -> (r: &HashSet<Entity>) {
        match self {
            EngineSystem::Physics(s) => s.entities(),
            EngineSystem::Render(s) => s.entities(),
            EngineSystem::DefaultController(s) => s.entities(),
            EngineSystem::Camera(s) => s.entities(),
            EngineSystem::Light(s) => s.entities(),
            EngineSystem::FirstPersonController(s) => s.entities(),
            EngineSystem::UserController(s) => s.entities(),
        }
    }

    fn entities_mut(&mut self) -> (r: &mut HashSet<Entity>) {
        match self {
            EngineSystem::Physics(s) => s.entities_mut(),
            EngineSystem::Render(s) => s.entities_mut(),
            EngineSystem::DefaultController(s) => s.entities_mut(),
            EngineSystem::Camera(s) => s.entities_mut(),
            EngineSystem::Light(s) => s.entities_mut(),
            EngineSystem::FirstPersonController(s) => s.entities_mut(),
            EngineSystem::UserController(s) => s.entities_mut(),
        }
    }
}

} // verus!
