use osmium::device::{device_rank, select_physical_device, usable_queue_family, DeviceCandidate, DeviceKind, QueueFamily};
use osmium::ecs::component_array::ComponentArray;
use osmium::ecs::components::{Handle, MeshRenderable};
use osmium::ecs::systems::{
    key_axis, key_axis_sum, CameraSystem, DefaultControllerSystem, FirstPersonControllerSystem, RenderSystem,
    UserControllerSystem,
};

fn family(graphics: bool, surface_support: bool) -> QueueFamily {
    QueueFamily { graphics, surface_support }
}

fn device(kind: DeviceKind, supports_extensions: bool, queue_families: Vec<QueueFamily>) -> DeviceCandidate {
    DeviceCandidate { kind, supports_extensions, queue_families }
}

#[test]
fn device_kinds_are_ranked() {
    assert_eq!(device_rank(DeviceKind::DiscreteGpu), 0);
    assert_eq!(device_rank(DeviceKind::IntegratedGpu), 1);
    assert_eq!(device_rank(DeviceKind::VirtualGpu), 2);
    assert_eq!(device_rank(DeviceKind::Cpu), 3);
    assert_eq!(device_rank(DeviceKind::Other), 4);
}

#[test]
fn first_family_with_graphics_and_presentation() {
    assert_eq!(usable_queue_family(&vec![family(true, false), family(false, true), family(true, true), family(true, true)]), Some(2));
    assert_eq!(usable_queue_family(&vec![family(true, false)]), None);
    assert_eq!(usable_queue_family(&vec![]), None);
}

#[test]
fn best_ranked_eligible_device_wins() {
    let devices = vec![
        device(DeviceKind::Cpu, true, vec![family(true, true)]),
        device(DeviceKind::DiscreteGpu, false, vec![family(true, true)]),
        device(DeviceKind::DiscreteGpu, true, vec![family(true, false)]),
        device(DeviceKind::IntegratedGpu, true, vec![family(false, true), family(true, true)]),
        device(DeviceKind::IntegratedGpu, true, vec![family(true, true)]),
    ];
    assert_eq!(select_physical_device(&devices), Some((3, 1)));
}

#[test]
fn no_eligible_device() {
    let devices = vec![
        device(DeviceKind::DiscreteGpu, false, vec![family(true, true)]),
        device(DeviceKind::Cpu, true, vec![family(false, false)]),
    ];
    assert_eq!(select_physical_device(&devices), None);
    assert_eq!(select_physical_device(&vec![]), None);
}

#[test]
fn key_axes() {
    assert_eq!(key_axis(true, true), -1);
    assert_eq!(key_axis(false, true), 1);
    assert_eq!(key_axis(false, false), 0);
    assert_eq!(key_axis_sum(true, true), 0);
    assert_eq!(key_axis_sum(true, false), -1);
    assert_eq!(key_axis_sum(false, true), 1);
}

#[test]
fn controller_directions() {
    assert_eq!(DefaultControllerSystem::movement_direction(true, true, false, true, false, false), (-1, 1, 0));
    assert_eq!(DefaultControllerSystem::movement_direction(false, true, true, false, false, true), (1, -1, 1));
    assert_eq!(DefaultControllerSystem::turn_direction(true, true), 1);
    assert_eq!(DefaultControllerSystem::turn_direction(false, true), -1);
    assert_eq!(DefaultControllerSystem::turn_direction(false, false), 0);
    assert_eq!(UserControllerSystem::movement_direction(false, true, true, true), (1, -1));
    assert_eq!(FirstPersonControllerSystem::movement_direction(true, false, true, true), (0, 0, -1));
    assert_eq!(FirstPersonControllerSystem::movement_direction(false, true, true, false), (-1, 0, 1));
    assert_eq!(FirstPersonControllerSystem::vertical_direction(true, false), 1);
    assert_eq!(FirstPersonControllerSystem::vertical_direction(true, true), 0);
    assert_eq!(FirstPersonControllerSystem::vertical_direction(false, true), -1);
}

#[test]
fn camera_dirty_flags() {
    let (mut t, mut c) = (true, false);
    CameraSystem::update_dirty_flags(&mut t, &mut c);
    assert_eq!((t, c), (false, true));
    let (mut t, mut c) = (false, false);
    CameraSystem::update_dirty_flags(&mut t, &mut c);
    assert_eq!((t, c), (false, false));
    let (mut t, mut c) = (false, true);
    CameraSystem::update_dirty_flags(&mut t, &mut c);
    assert_eq!((t, c), (false, true));
}

#[test]
fn first_active_camera() {
    assert_eq!(CameraSystem::active_camera(&vec![(4, false), (7, true), (9, true)]), Some(7));
    assert_eq!(CameraSystem::active_camera(&vec![(4, false)]), None);
    assert_eq!(CameraSystem::active_camera(&vec![]), None);
}

#[test]
fn render_handles_follow_entities() {
    let mut a: ComponentArray<MeshRenderable> = ComponentArray::new();
    a.insert_data(3, MeshRenderable::new(Handle { id: 1 }, Handle { id: 2 }));
    a.insert_data(5, MeshRenderable::new(Handle { id: 6 }, Handle { id: 7 }));
    let r = RenderSystem::render_handles(&vec![5, 3], &a);
    assert_eq!(r, vec![
        MeshRenderable::new(Handle { id: 6 }, Handle { id: 7 }),
        MeshRenderable::new(Handle { id: 1 }, Handle { id: 2 }),
    ]);
}
