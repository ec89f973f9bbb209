use vstd::prelude::*;

use crate::ecs::coordinator::Coordinator;
use crate::ecs::signature::{Signature, bit_of, lemma_signature_matches};
use crate::ecs::coordinator::law_signature_bits_are_components;
use crate::ecs::{Entity, MAX_ENTITIES};
use crate::ecs::system::SystemTrait;
use crate::ecs::systems::{
    CameraSystem, DefaultControllerSystem, EngineSystem, FirstPersonControllerSystem, LightSystem,
    PhysicsSystem, RenderSystem,
};
use crate::ecs::MAX_COMPONENTS;

verus! {

/// The names of the engine's component types, in the order they are registered.
pub open spec fn default_component_names() -> Seq<Seq<char>> {
    seq![
        "MeshRenderable"@,
        "DefaultController"@,
        "FirstPersonController"@,
        "Transform"@,
        "PhysicsBodyConfig"@,
        "PhysicsBody"@,
        "PhysicsCollider"@,
        "Camera"@,
        "Light"@,
    ]
}

/// The names of the engine's systems, in the order they are registered.
pub open spec fn default_system_names() -> Seq<Seq<char>> {
    seq![
        "PhysicsSystem"@,
        "RenderSystem"@,
        "DefaultControllerSystem"@,
        "CameraSystem"@,
        "LightSystem"@,
        "FirstPersonControllerSystem"@,
    ]
}

/// The component types each engine system asks for, by the order of
/// `default_system_names`.
pub open spec fn default_system_components() -> Seq<Seq<Seq<char>>> {
    seq![
        seq!["Transform"@, "PhysicsBodyConfig"@],
        seq!["MeshRenderable"@, "Transform"@],
        seq!["Transform"@, "DefaultController"@],
        seq!["Transform"@, "Camera"@],
        seq!["Transform"@, "Light"@],
        seq!["Transform"@, "Camera"@, "FirstPersonController"@],
    ]
}

/// The contents of each string.
pub open spec fn string_views(v: Seq<String>) -> Seq<Seq<char>> {
    v.map_values(|n: String| n@)
}

/// The bits of `s` are exactly the ids of the component types `names`.
pub open spec fn signature_of_types<C, S: SystemTrait>(c: Coordinator<C, S>, s: Signature, names: Seq<Seq<char>>) -> bool {
    forall|t: int| #[trigger] bit_of(s@, t) <==> exists|k: int| 0 <= k < names.len() && t == c.type_id(#[trigger] names[k])
}

proof fn lemma_default_names_distinct()
    ensures
        default_component_names().no_duplicates(),
        default_system_names().no_duplicates(),
        default_component_names().len() == 9,
        default_system_names().len() == 6,
{
    reveal_strlit("MeshRenderable");
    reveal_strlit("DefaultController");
    reveal_strlit("FirstPersonController");
    reveal_strlit("Transform");
    reveal_strlit("PhysicsBodyConfig");
    reveal_strlit("PhysicsBody");
    reveal_strlit("PhysicsCollider");
    reveal_strlit("Camera");
    reveal_strlit("Light");
    reveal_strlit("PhysicsSystem");
    reveal_strlit("RenderSystem");
    reveal_strlit("DefaultControllerSystem");
    reveal_strlit("CameraSystem");
    reveal_strlit("LightSystem");
    reveal_strlit("FirstPersonControllerSystem");
    assert("MeshRenderable"@.len() == 14 && "MeshRenderable"@[0] == 'M');
    assert("DefaultController"@.len() == 17 && "DefaultController"@[0] == 'D');
    assert("FirstPersonController"@.len() == 21 && "FirstPersonController"@[0] == 'F');
    assert("Transform"@.len() == 9 && "Transform"@[0] == 'T');
    assert("PhysicsBodyConfig"@.len() == 17 && "PhysicsBodyConfig"@[0] == 'P');
    assert("PhysicsBody"@.len() == 11 && "PhysicsBody"@[0] == 'P');
    assert("PhysicsCollider"@.len() == 15 && "PhysicsCollider"@[0] == 'P');
    assert("Camera"@.len() == 6 && "Camera"@[0] == 'C');
    assert("Light"@.len() == 5 && "Light"@[0] == 'L');
    assert("PhysicsSystem"@.len() == 13 && "PhysicsSystem"@[0] == 'P');
    assert("RenderSystem"@.len() == 12 && "RenderSystem"@[0] == 'R');
    assert("DefaultControllerSystem"@.len() == 23 && "DefaultControllerSystem"@[0] == 'D');
    assert("CameraSystem"@.len() == 12 && "CameraSystem"@[0] == 'C');
    assert("LightSystem"@.len() == 11 && "LightSystem"@[0] == 'L');
    assert("FirstPersonControllerSystem"@.len() == 27 && "FirstPersonControllerSystem"@[0] == 'F');
}

/// The signature whose bits are the ids of the component types `names`.
fn signature_for<C, S: SystemTrait>(coordinator: &Coordinator<C, S>, names: &Vec<String>) -> (s: Signature)
    requires
        coordinator.wf(),
        forall|k: int| 0 <= k < names@.len() ==> coordinator.type_registered(#[trigger] names@[k]@),
        forall|k: int| 0 <= k < names@.len() ==> coordinator.type_id(#[trigger] names@[k]@) < MAX_COMPONENTS,
    ensures
        signature_of_types(*coordinator, s, names@.map_values(|n: String| n@)),
{
    let ghost views = names@.map_values(|n: String| n@);
    let mut signature = Signature::new();
    let mut i: usize = 0;
    while i < names.len()
        invariant
            coordinator.wf(),
            i <= names@.len(),
            views == names@.map_values(|n: String| n@),
            forall|k: int| 0 <= k < names@.len() ==> coordinator.type_registered(#[trigger] names@[k]@),
            forall|k: int| 0 <= k < names@.len() ==> coordinator.type_id(#[trigger] names@[k]@) < MAX_COMPONENTS,
            forall|t: int| #[trigger] bit_of(signature@, t) <==> exists|k: int| 0 <= k < i && t == coordinator.type_id(#[trigger] views[k]),
        decreases names@.len() - i,
    {
        let t = coordinator.get_component_type(&names[i]);
        let ghost before = signature;
        signature.set(t as usize, true);
        proof {
            assert forall|u: int| #[trigger] bit_of(signature@, u) <==> exists|k: int| 0 <= k < i + 1 && u == coordinator.type_id(#[trigger] views[k]) by {
                if u == t {
                    assert(views[i as int] == names@[i as int]@);
                }
                if exists|k: int| 0 <= k < i + 1 && u == coordinator.type_id(#[trigger] views[k]) {
                    let k = choose|k: int| 0 <= k < i + 1 && u == coordinator.type_id(#[trigger] views[k]);
                    if k < i {
                        assert(bit_of(before@, u));
                    }
                }
            }
        }
        i = i + 1;
    }
    signature
}

/// Registers the engine's component types, in the order of
/// `default_component_names`.
pub fn initialize_default_components<C, S: SystemTrait>(coordinator: &mut Coordinator<C, S>)
    requires
        old(coordinator).wf(),
        forall|k: int| 0 <= k < 9 ==> !old(coordinator).type_registered(#[trigger] default_component_names()[k]),
        old(coordinator).world().component_manager.type_names().len() + 9 < 256,
    ensures
        final(coordinator).wf(),
        final(coordinator).world().component_manager.type_names()
            == old(coordinator).world().component_manager.type_names() + default_component_names(),
        final(coordinator).stores() == old(coordinator).stores() + Seq::new(9, |i: int| Map::<crate::ecs::Entity, C>::empty()),
        final(coordinator).world().entity_manager == old(coordinator).world().entity_manager,
        final(coordinator).system_table() == old(coordinator).system_table(),
{
    proof { lemma_default_names_distinct(); }
    let names: Vec<String> = vec![
        String::from_str("MeshRenderable"),
        String::from_str("DefaultController"),
        String::from_str("FirstPersonController"),
        String::from_str("Transform"),
        String::from_str("PhysicsBodyConfig"),
        String::from_str("PhysicsBody"),
        String::from_str("PhysicsCollider"),
        String::from_str("Camera"),
        String::from_str("Light"),
    ];
    let ghost start = old(coordinator).world().component_manager.type_names();
    let mut i: usize = 0;
    while i < names.len()
        invariant
            coordinator.wf(),
            names@.len() == 9,
            i <= 9,
            forall|k: int| 0 <= k < 9 ==> (#[trigger] names@[k])@ == default_component_names()[k],
            default_component_names().no_duplicates(),
            forall|k: int| 0 <= k < 9 ==> !start.contains(#[trigger] default_component_names()[k]),
            start.len() + 9 < 256,
            coordinator.world().component_manager.type_names() == start + default_component_names().take(i as int),
            coordinator.stores() == old(coordinator).stores() + Seq::new(i as nat, |k: int| Map::<crate::ecs::Entity, C>::empty()),
            coordinator.world().entity_manager == old(coordinator).world().entity_manager,
            coordinator.system_table() == old(coordinator).system_table(),
        decreases 9 - i,
    {
        let name = names[i].clone();
        proof {
            let cur = coordinator.world().component_manager.type_names();
            let n = default_component_names()[i as int];
            if cur.contains(n) {
                let j = choose|j: int| 0 <= j < cur.len() && cur[j] == n;
                if j < start.len() {
                    assert(cur[j] == start[j]);
                    assert(start.contains(n));
                } else {
                    assert(cur[j] == default_component_names()[j - start.len()]);
                }
            }
        }
        coordinator.register_component(name);
        proof {
            assert(coordinator.world().component_manager.type_names()
                =~= start + default_component_names().take(i + 1));
            assert(coordinator.stores() =~= old(coordinator).stores() + Seq::new((i + 1) as nat, |k: int| Map::<crate::ecs::Entity, C>::empty()));
        }
        i = i + 1;
    }
    proof {
        assert(default_component_names().take(9) =~= default_component_names());
    }
}

/// Registers `system` under `name` and sets its signature to the component
/// types `components`.
fn register_with_signature<C>(
    coordinator: &mut Coordinator<C, EngineSystem>,
    name: String,
    system: EngineSystem,
    components: Vec<String>,
) -> (s: Signature)
    requires
        old(coordinator).wf(),
        !old(coordinator).system_table().registered(name@),
        forall|k: int| 0 <= k < components@.len() ==> {
            let n = #[trigger] string_views(components@)[k];
            &&& old(coordinator).type_registered(n)
            &&& old(coordinator).type_id(n) < MAX_COMPONENTS
        },
    ensures
        final(coordinator).wf(),
        final(coordinator).world() == old(coordinator).world(),
        final(coordinator).system_table().names() == old(coordinator).system_table().names().push(name@),
        final(coordinator).system_signatures() == old(coordinator).system_signatures().push(Some(s)),
        final(coordinator).members() == old(coordinator).members().push(system.entity_set()),
        final(coordinator).system_table().systems() == old(coordinator).system_table().systems().push(system),
        signature_of_types(*old(coordinator), s, components@.map_values(|n: String| n@)),
{
    let key = name.clone();
    let ghost entity_set = system.entity_set();
    assert forall|k: int| 0 <= k < components@.len() implies coordinator.type_registered(#[trigger] components@[k]@)
        && coordinator.type_id(components@[k]@) < MAX_COMPONENTS by {
        assert(components@[k]@ == string_views(components@)[k]);
    }
    coordinator.register_system(name, system);
    let ghost mid = coordinator.system_table();
    proof {
        mid.lemma_wf();
        let last = mid.names().len() - 1;
        assert(mid.names()[last] == name@);
        assert(mid.registered(name@));
        let id = mid.system_id(name@);
        if id != last {
            assert(mid.names()[id] == mid.names()[last]);
        }
        assert(mid.system_id(name@) == mid.names().len() - 1);
    }
    let signature = signature_for(coordinator, &components);
    coordinator.set_system_signature(&key, signature);
    proof {
        assert(coordinator.members() =~= old(coordinator).members().push(entity_set));
    }
    signature
}

/// `s` is set and its bits are exactly the ids, in `c`, of the component
/// types `a` and `b`.
pub open spec fn signature_is_two<C, S: SystemTrait>(c: Coordinator<C, S>, s: Option<Signature>, a: Seq<char>, b: Seq<char>) -> bool {
    &&& s is Some
    &&& forall|t: int| #[trigger] bit_of(s->0@, t) <==> (t == c.type_id(a) || t == c.type_id(b))
}

/// `s` is set and its bits are exactly the ids, in `c`, of the component
/// types `a`, `b` and `d`.
pub open spec fn signature_is_three<C, S: SystemTrait>(c: Coordinator<C, S>, s: Option<Signature>, a: Seq<char>, b: Seq<char>, d: Seq<char>) -> bool {
    &&& s is Some
    &&& forall|t: int| #[trigger] bit_of(s->0@, t) <==> (t == c.type_id(a) || t == c.type_id(b) || t == c.type_id(d))
}

/// The engine's systems sit at positions `n` to `n + 5` of `c`, each asking
/// for exactly the components it works on: physics for a transform and a
/// body configuration, rendering for a mesh and a transform, the default
/// controller for a transform and a controller, the camera system for a
/// transform and a camera, the light system for a transform and a light,
/// and the first-person controller for a transform, a camera and a
/// first-person controller.
pub open spec fn engine_systems_installed<C, S: SystemTrait>(c: Coordinator<C, S>, n: int) -> bool {
    let sigs = c.system_signatures();
    &&& 0 <= n
    &&& n + 6 <= sigs.len()
    &&& n + 6 <= c.members().len()
    &&& signature_is_two(c, sigs[n + 0], "Transform"@, "PhysicsBodyConfig"@)
    &&& signature_is_two(c, sigs[n + 1], "MeshRenderable"@, "Transform"@)
    &&& signature_is_two(c, sigs[n + 2], "Transform"@, "DefaultController"@)
    &&& signature_is_two(c, sigs[n + 3], "Transform"@, "Camera"@)
    &&& signature_is_two(c, sigs[n + 4], "Transform"@, "Light"@)
    &&& signature_is_three(c, sigs[n + 5], "Transform"@, "Camera"@, "FirstPersonController"@)
}

proof fn lemma_two_types<C, S: SystemTrait>(c: Coordinator<C, S>, d: Coordinator<C, S>, s: Signature, a: Seq<char>, b: Seq<char>)
    requires
        signature_of_types(c, s, seq![a, b]),
        c.world() == d.world(),
    ensures
        signature_is_two(d, Some(s), a, b),
{
    let names = seq![a, b];
    assert forall|t: int| #[trigger] bit_of(s@, t) <==> (t == c.type_id(a) || t == c.type_id(b)) by {
        if t == c.type_id(a) {
            assert(t == c.type_id(names[0]));
        }
        if t == c.type_id(b) {
            assert(t == c.type_id(names[1]));
        }
    }
}

proof fn lemma_three_types<C, S: SystemTrait>(c: Coordinator<C, S>, w: Coordinator<C, S>, s: Signature, a: Seq<char>, b: Seq<char>, d: Seq<char>)
    requires
        signature_of_types(c, s, seq![a, b, d]),
        c.world() == w.world(),
    ensures
        signature_is_three(w, Some(s), a, b, d),
{
    let names = seq![a, b, d];
    assert forall|t: int| #[trigger] bit_of(s@, t) <==> (t == c.type_id(a) || t == c.type_id(b) || t == c.type_id(d)) by {
        if t == c.type_id(a) {
            assert(t == c.type_id(names[0]));
        }
        if t == c.type_id(b) {
            assert(t == c.type_id(names[1]));
        }
        if t == c.type_id(d) {
            assert(t == c.type_id(names[2]));
        }
    }
}

/// Whether `e` has a component of type `name` in `c`.
pub open spec fn has_component_named<C, S: SystemTrait>(c: Coordinator<C, S>, name: Seq<char>, e: Entity) -> bool {
    c.stores()[c.type_id(name)].contains_key(e)
}

/// `e` sits in the system with signature `sys` exactly when the bits of
/// `sys` are among the bits of the entity's signature; a bit the system asks
/// for is then a component the entity has.
proof fn lemma_member_has<C, S: SystemTrait>(c: Coordinator<C, S>, i: int, e: Entity, t: int)
    requires
        c.wf(),
        e < MAX_ENTITIES,
        c.entity_placed(e),
        0 <= i < c.members().len(),
        c.system_signatures()[i] is Some,
        bit_of(c.system_signatures()[i]->0@, t),
        c.members()[i].contains(e),
    ensures
        0 <= t < c.stores().len(),
        c.stores()[t].contains_key(e),
{
    lemma_signature_matches(c.signature_of(e), c.system_signatures()[i]->0);
    assert(bit_of(c.signature_of(e)@, t));
    law_signature_bits_are_components(c, e, t);
}

/// With the engine's systems installed, every entity a system runs on has
/// the components that system works on: physics only runs on entities with
/// a transform and a body configuration, the default controller only on
/// entities with a controller, the light system only on lights, and so on.
pub proof fn law_engine_systems_need_their_components<C, S: SystemTrait>(c: Coordinator<C, S>, n: int, e: Entity)
    requires
        c.wf(),
        engine_systems_installed(c, n),
        e < MAX_ENTITIES,
        c.entity_placed(e),
    ensures
        c.members()[n + 0].contains(e) ==> has_component_named(c, "Transform"@, e) && has_component_named(c, "PhysicsBodyConfig"@, e),
        c.members()[n + 1].contains(e) ==> has_component_named(c, "MeshRenderable"@, e) && has_component_named(c, "Transform"@, e),
        c.members()[n + 2].contains(e) ==> has_component_named(c, "Transform"@, e) && has_component_named(c, "DefaultController"@, e),
        c.members()[n + 3].contains(e) ==> has_component_named(c, "Transform"@, e) && has_component_named(c, "Camera"@, e),
        c.members()[n + 4].contains(e) ==> has_component_named(c, "Transform"@, e) && has_component_named(c, "Light"@, e),
        c.members()[n + 5].contains(e) ==> has_component_named(c, "Transform"@, e) && has_component_named(c, "Camera"@, e)
            && has_component_named(c, "FirstPersonController"@, e),
{
    let sigs = c.system_signatures();
    let tr = c.type_id("Transform"@);
    if c.members()[n + 0].contains(e) {
        assert(bit_of(sigs[n + 0]->0@, tr));
        lemma_member_has(c, n + 0, e, tr);
        assert(bit_of(sigs[n + 0]->0@, c.type_id("PhysicsBodyConfig"@)));
        lemma_member_has(c, n + 0, e, c.type_id("PhysicsBodyConfig"@));
    }
    if c.members()[n + 1].contains(e) {
        assert(bit_of(sigs[n + 1]->0@, tr));
        lemma_member_has(c, n + 1, e, tr);
        assert(bit_of(sigs[n + 1]->0@, c.type_id("MeshRenderable"@)));
        lemma_member_has(c, n + 1, e, c.type_id("MeshRenderable"@));
    }
    if c.members()[n + 2].contains(e) {
        assert(bit_of(sigs[n + 2]->0@, tr));
        lemma_member_has(c, n + 2, e, tr);
        assert(bit_of(sigs[n + 2]->0@, c.type_id("DefaultController"@)));
        lemma_member_has(c, n + 2, e, c.type_id("DefaultController"@));
    }
    if c.members()[n + 3].contains(e) {
        assert(bit_of(sigs[n + 3]->0@, tr));
        lemma_member_has(c, n + 3, e, tr);
        assert(bit_of(sigs[n + 3]->0@, c.type_id("Camera"@)));
        lemma_member_has(c, n + 3, e, c.type_id("Camera"@));
    }
    if c.members()[n + 4].contains(e) {
        assert(bit_of(sigs[n + 4]->0@, tr));
        lemma_member_has(c, n + 4, e, tr);
        assert(bit_of(sigs[n + 4]->0@, c.type_id("Light"@)));
        lemma_member_has(c, n + 4, e, c.type_id("Light"@));
    }
    if c.members()[n + 5].contains(e) {
        assert(bit_of(sigs[n + 5]->0@, tr));
        lemma_member_has(c, n + 5, e, tr);
        assert(bit_of(sigs[n + 5]->0@, c.type_id("Camera"@)));
        lemma_member_has(c, n + 5, e, c.type_id("Camera"@));
        assert(bit_of(sigs[n + 5]->0@, c.type_id("FirstPersonController"@)));
        lemma_member_has(c, n + 5, e, c.type_id("FirstPersonController"@));
    }
}

/// A name of `fresh` is not among `names` followed by the names of `fresh`
/// before it.
proof fn lemma_next_name_free(names: Seq<Seq<char>>, fresh: Seq<Seq<char>>, k: int)
    requires
        0 <= k < fresh.len(),
        fresh.no_duplicates(),
        forall|i: int| 0 <= i < fresh.len() ==> !names.contains(#[trigger] fresh[i]),
    ensures
        !(names + fresh.take(k)).contains(fresh[k]),
{
    let cur = names + fresh.take(k);
    if cur.contains(fresh[k]) {
        let j = choose|j: int| 0 <= j < cur.len() && cur[j] == fresh[k];
        if j < names.len() {
            assert(names[j] == cur[j]);
            assert(names.contains(fresh[k]));
        } else {
            assert(cur[j] == fresh[j - names.len()]);
        }
    }
}

/// Registers the engine's systems, in the order of `default_system_names`,
/// each with the signature of the component types it runs on.
pub fn initialize_default_systems<C>(coordinator: &mut Coordinator<C, EngineSystem>)
    requires
        old(coordinator).wf(),
        forall|k: int| 0 <= k < 6 ==> !old(coordinator).system_table().registered(#[trigger] default_system_names()[k]),
        forall|i: int, j: int| 0 <= i < 6 && 0 <= j < default_system_components()[i].len() ==> {
            &&& old(coordinator).type_registered(#[trigger] default_system_components()[i][j])
            &&& old(coordinator).type_id(default_system_components()[i][j]) < MAX_COMPONENTS
        },
    ensures
        final(coordinator).wf(),
        final(coordinator).world() == old(coordinator).world(),
        final(coordinator).system_table().names() == old(coordinator).system_table().names() + default_system_names(),
        final(coordinator).system_signatures().len() == old(coordinator).system_signatures().len() + 6,
        forall|k: int| 0 <= k < old(coordinator).system_signatures().len() ==>
            #[trigger] final(coordinator).system_signatures()[k] == old(coordinator).system_signatures()[k],
        forall|k: int| 0 <= k < 6 ==> {
            let s = #[trigger] final(coordinator).system_signatures()[old(coordinator).system_signatures().len() + k];
            &&& s is Some
            &&& signature_of_types(*old(coordinator), s->0, default_system_components()[k])
        },
        final(coordinator).members() == old(coordinator).members() + Seq::new(6, |k: int| Set::<crate::ecs::Entity>::empty()),
        old(coordinator).system_table().all_signatures_set() ==> final(coordinator).system_table().all_signatures_set(),
        ({
            let n = old(coordinator).system_table().systems().len() as int;
            let systems = final(coordinator).system_table().systems();
            &&& systems.len() == n + 6
            &&& systems.take(n) == old(coordinator).system_table().systems()
            &&& systems[n + 0] is Physics
            &&& systems[n + 1] is Render
            &&& systems[n + 2] is DefaultController
            &&& systems[n + 3] is Camera
            &&& systems[n + 4] is Light
            &&& systems[n + 5] is FirstPersonController
        }),
        engine_systems_installed(*final(coordinator), old(coordinator).system_signatures().len() as int),
{
    proof {
        lemma_default_names_distinct();
        reveal_strlit("MeshRenderable");
        reveal_strlit("DefaultController");
        reveal_strlit("FirstPersonController");
        reveal_strlit("Transform");
        reveal_strlit("PhysicsBodyConfig");
        reveal_strlit("Camera");
        reveal_strlit("Light");
    }
    let ghost start = *old(coordinator);
    let ghost names0 = start.system_table().names();
    let ghost sigs0 = start.system_signatures();
    let ghost members0 = start.members();
    let ghost systems0 = start.system_table().systems();
    let ghost sys = default_system_names();
    let ghost needs = default_system_components();
    assert(forall|i: int, j: int| 0 <= i < 6 && 0 <= j < needs[i].len() ==>
        start.type_registered(#[trigger] needs[i][j]) && start.type_id(needs[i][j]) < MAX_COMPONENTS);

    assert(coordinator.system_table().names() =~= names0 + sys.take(0));
    assert(forall|i: int| 0 <= i < 6 ==> !names0.contains(#[trigger] sys[i]));
    let components0: Vec<String> = vec![String::from_str("Transform"), String::from_str("PhysicsBodyConfig")];
    proof {
        reveal_strlit("PhysicsSystem");
        assert(string_views(components0@) =~= needs[0]);
        lemma_next_name_free(names0, sys, 0);
        assert(coordinator.system_table().names() == names0 + sys.take(0));
    }
    let ghost before0 = *coordinator;
    let s0 = register_with_signature(
        coordinator,
        String::from_str("PhysicsSystem"),
        EngineSystem::Physics(PhysicsSystem::new()),
        components0,
    );
    proof {
        assert(coordinator.system_table().names() =~= names0 + sys.take(1));
    }
    let components1: Vec<String> = vec![String::from_str("MeshRenderable"), String::from_str("Transform")];
    proof {
        reveal_strlit("RenderSystem");
        assert(string_views(components1@) =~= needs[1]);
        lemma_next_name_free(names0, sys, 1);
        assert(coordinator.system_table().names() == names0 + sys.take(1));
    }
    let ghost before1 = *coordinator;
    let s1 = register_with_signature(
        coordinator,
        String::from_str("RenderSystem"),
        EngineSystem::Render(RenderSystem::new()),
        components1,
    );
    proof {
        assert(coordinator.system_table().names() =~= names0 + sys.take(2));
    }
    let components2: Vec<String> = vec![String::from_str("Transform"), String::from_str("DefaultController")];
    proof {
        reveal_strlit("DefaultControllerSystem");
        assert(string_views(components2@) =~= needs[2]);
        lemma_next_name_free(names0, sys, 2);
        assert(coordinator.system_table().names() == names0 + sys.take(2));
    }
    let ghost before2 = *coordinator;
    let s2 = register_with_signature(
        coordinator,
        String::from_str("DefaultControllerSystem"),
        EngineSystem::DefaultController(DefaultControllerSystem::new()),
        components2,
    );
    proof {
        assert(coordinator.system_table().names() =~= names0 + sys.take(3));
    }
    let components3: Vec<String> = vec![String::from_str("Transform"), String::from_str("Camera")];
    proof {
        reveal_strlit("CameraSystem");
        assert(string_views(components3@) =~= needs[3]);
        lemma_next_name_free(names0, sys, 3);
        assert(coordinator.system_table().names() == names0 + sys.take(3));
    }
    let ghost before3 = *coordinator;
    let s3 = register_with_signature(
        coordinator,
        String::from_str("CameraSystem"),
        EngineSystem::Camera(CameraSystem::new()),
        components3,
    );
    proof {
        assert(coordinator.system_table().names() =~= names0 + sys.take(4));
    }
    let components4: Vec<String> = vec![String::from_str("Transform"), String::from_str("Light")];
    proof {
        reveal_strlit("LightSystem");
        assert(string_views(components4@) =~= needs[4]);
        lemma_next_name_free(names0, sys, 4);
        assert(coordinator.system_table().names() == names0 + sys.take(4));
    }
    let ghost before4 = *coordinator;
    let s4 = register_with_signature(
        coordinator,
        String::from_str("LightSystem"),
        EngineSystem::Light(LightSystem::new()),
        components4,
    );
    proof {
        assert(coordinator.system_table().names() =~= names0 + sys.take(5));
    }
    let components5: Vec<String> = vec![String::from_str("Transform"), String::from_str("Camera"), String::from_str("FirstPersonController")];
    proof {
        reveal_strlit("FirstPersonControllerSystem");
        assert(string_views(components5@) =~= needs[5]);
        lemma_next_name_free(names0, sys, 5);
        assert(coordinator.system_table().names() == names0 + sys.take(5));
    }
    let ghost before5 = *coordinator;
    let s5 = register_with_signature(
        coordinator,
        String::from_str("FirstPersonControllerSystem"),
        EngineSystem::FirstPersonController(FirstPersonControllerSystem::new()),
        components5,
    );
    proof {
        assert(coordinator.system_table().names() =~= names0 + sys.take(6));
    }
    proof {
        assert(sys.take(6) =~= sys);
        let sigs = seq![Some(s0), Some(s1), Some(s2), Some(s3), Some(s4), Some(s5)];
        assert(coordinator.system_signatures() =~= sigs0 + sigs);
        let n = sigs0.len() as int;
        let fin = *coordinator;
        lemma_two_types(before0, fin, s0, "Transform"@, "PhysicsBodyConfig"@);
        lemma_two_types(before1, fin, s1, "MeshRenderable"@, "Transform"@);
        lemma_two_types(before2, fin, s2, "Transform"@, "DefaultController"@);
        lemma_two_types(before3, fin, s3, "Transform"@, "Camera"@);
        lemma_two_types(before4, fin, s4, "Transform"@, "Light"@);
        lemma_three_types(before5, fin, s5, "Transform"@, "Camera"@, "FirstPersonController"@);
        assert(coordinator.system_signatures()[n + 0] == Some(s0));
        assert(coordinator.system_signatures()[n + 1] == Some(s1));
        assert(coordinator.system_signatures()[n + 2] == Some(s2));
        assert(coordinator.system_signatures()[n + 3] == Some(s3));
        assert(coordinator.system_signatures()[n + 4] == Some(s4));
        assert(coordinator.system_signatures()[n + 5] == Some(s5));
        start.system_table().lemma_wf();
        assert(members0.len() == sigs0.len());
        assert(coordinator.members() =~= members0 + Seq::new(6, |k: int| Set::<crate::ecs::Entity>::empty()));
        assert(n + 6 <= coordinator.members().len());
        assert(signature_is_two(fin, coordinator.system_signatures()[n + 0], "Transform"@, "PhysicsBodyConfig"@));
        assert(coordinator.system_table().systems().take(systems0.len() as int) =~= systems0);
        if start.system_table().all_signatures_set() {
            assert forall|i: int| 0 <= i < coordinator.system_signatures().len() implies (#[trigger] coordinator.system_signatures()[i]) is Some by {
                if i < sigs0.len() {
                    assert(coordinator.system_signatures()[i] == sigs0[i]);
                } else {
                    assert(coordinator.system_signatures()[i] == sigs[i - sigs0.len()]);
                }
            }
        }
        assert(coordinator.members() =~= members0 + Seq::new(6, |k: int| Set::<crate::ecs::Entity>::empty()));
    }
}
} // verus!
