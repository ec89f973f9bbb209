use osmium::application::{OsmiumCameraControllerSystem, OsmiumObject, OsmiumObjectSystem, OsmiumTab};
use osmium::config::{GpuTypeConfig, MeshConfig, RenderPassConfig, RendererConfig, WindowConfig};
use osmium::ecs::component_array::ComponentArray;
use osmium::ecs::components::{Handle, MeshRenderable};

#[test]
fn render_pass_new_and_default() {
    let c = RenderPassConfig::new();
    assert_eq!(c.samples, 1);
    assert!(c.clear_color && c.clear_depth && c.store_color);
    let d = RenderPassConfig::default();
    assert_eq!(d.samples, 0);
    assert!(!d.clear_color && !d.clear_depth && !d.store_color);
}

#[test]
fn window_config_new_and_default() {
    let c = WindowConfig::new();
    assert_eq!(c.title, "Osmium");
    assert_eq!((c.width, c.height), (1024, 1024));
    assert!(!c.fullscreen && c.active && c.decorations && c.resizable);
    assert!(c.close_button && c.maximize_button && c.minimize_button);
    assert_eq!(c.window_icon_path.as_deref(), Some("./resources/osmium.ico"));
    assert_eq!(c.taskbar_icon_path.as_deref(), Some("./resources/osmium_tb.ico"));
    let d = WindowConfig::default();
    assert_eq!(d.title, "");
    assert_eq!((d.width, d.height), (0, 0));
    assert!(d.window_icon_path.is_none());
}

#[test]
fn renderer_config_new_and_default() {
    let c = RendererConfig::new();
    assert!(!c.enable_validation && c.enable_depth && c.print_fps);
    assert_eq!(c.target_fps, 60);
    assert_eq!(c.render_pass.samples, 1);
    assert_eq!(c.window_config, WindowConfig::new());
    assert_eq!(c.render_pass, RenderPassConfig::new());
    let order = vec![
        GpuTypeConfig::DiscreteGpu,
        GpuTypeConfig::IntegratedGpu,
        GpuTypeConfig::VirtualGpu,
        GpuTypeConfig::Cpu,
    ];
    assert_eq!(c.get_gpu_priority(), order);
    let d = RendererConfig::default();
    assert_eq!(d.get_gpu_priority(), order);
    assert_eq!(d.render_pass, RenderPassConfig::default());
    assert_eq!(d.window_config, WindowConfig::default());
    assert_eq!(d.target_fps, 60);
}

#[test]
fn mesh_config_new_and_default() {
    let c = MeshConfig::new();
    assert_eq!(c.filepath, "./resources/Cube.obj");
    assert_eq!(c.material, "default");
    assert!(c.heightmap.is_none());
    let d = MeshConfig::default();
    assert_eq!(d.filepath, "");
}

#[test]
fn mesh_renderable_keeps_handles() {
    let r = MeshRenderable::new(Handle { id: 3 }, Handle { id: 8 });
    assert_eq!(r.mesh, Handle { id: 3 });
    assert_eq!(r.material, Handle { id: 8 });
}

#[test]
fn tab_titles() {
    assert_eq!(OsmiumTab::Scene.title(), "Scene");
    assert_eq!(OsmiumTab::Inspector.title(), "Inspector");
}

#[test]
fn objects_form_a_tree() {
    let mut objects: ComponentArray<OsmiumObject> = ComponentArray::new();
    let root = OsmiumObject::new_isolated("root", 1);
    assert_eq!(root.name, "root");
    assert!(root.parent.is_none() && root.children.is_empty() && !root.active);
    objects.insert_data(1, root);
    let child = OsmiumObject::init("child", 2, 1, &mut objects);
    assert_eq!(child.parent, Some(1));
    assert_eq!(child.name, "child");
    objects.insert_data(2, child);
    let grandchild = OsmiumObject::init("grandchild", 3, 2, &mut objects);
    objects.insert_data(3, grandchild);
    let other = OsmiumObject::init("other", 4, 1, &mut objects);
    objects.insert_data(4, other);
    assert_eq!(objects.get_data(1).children, vec![2, 4]);
    assert_eq!(objects.get_data(2).children, vec![3]);

    let mut system = OsmiumObjectSystem::new();
    for e in 1..=4 {
        system.entities.insert(e);
    }
    system.asdasd();
    system.initialize(&objects);
    assert_eq!(system.roots, vec![1]);
}

#[test]
fn camera_controller_system_starts_empty() {
    let s = OsmiumCameraControllerSystem::new();
    assert!(s.entities.is_empty());
}
