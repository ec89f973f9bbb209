use vstd::prelude::*;

verus! {

/// How the main render pass treats its attachments.
#[derive(Debug, Clone, PartialEq, Eq, Structural)]
pub struct RenderPassConfig {
    pub samples: u32,
    pub clear_color: bool,
    pub clear_depth: bool,
    pub store_color: bool,
}

impl RenderPassConfig {
    /// One sample; colour and depth cleared, colour stored.
    pub open spec fn is_new_pass(&self) -> bool {
        &&& self.samples == 1
        &&& self.clear_color
        &&& self.clear_depth
        &&& self.store_color
    }

    /// Every field zero or false.
    pub open spec fn is_default_pass(&self) -> bool {
        &&& self.samples == 0
        &&& !self.clear_color
        &&& !self.clear_depth
        &&& !self.store_color
    }

    /// One sample; colour and depth cleared, colour stored.
    pub fn new() -> (c: Self)
        ensures
            c.is_new_pass(),
    {
        Self { samples: 1, clear_color: true, clear_depth: true, store_color: true }
    }
}

impl Default for RenderPassConfig {
    /// Every field zero or false.
    fn default() -> (c: Self)
        ensures
            c.is_default_pass(),
    {
        Self { samples: 0, clear_color: false, clear_depth: false, store_color: false }
    }
}

/// A kind of device the renderer may run on.
#[derive(Debug, Clone, Copy, PartialEq, Eq, Structural)]
pub enum GpuTypeConfig {
    DiscreteGpu,
    IntegratedGpu,
    VirtualGpu,
    Cpu,
}

/// The device kinds, most preferred first: discrete, integrated, virtual, CPU.
pub open spec fn default_gpu_order() -> Seq<GpuTypeConfig> {
    seq![GpuTypeConfig::DiscreteGpu, GpuTypeConfig::IntegratedGpu, GpuTypeConfig::VirtualGpu, GpuTypeConfig::Cpu]
}

/// The window the engine opens.
#[derive(Debug, Clone, PartialEq, Eq)]
pub struct WindowConfig {
    pub title: String,
    pub width: u32,
    pub height: u32,

    pub fullscreen: bool,
    pub active: bool,
    pub decorations: bool,

    pub close_button: bool,
    pub maximize_button: bool,
    pub minimize_button: bool,

    pub resizable: bool,
    pub window_icon_path: Option<String>,
    pub taskbar_icon_path: Option<String>,
}

impl WindowConfig {
    /// A 1024 by 1024 window titled "Osmium", not fullscreen, active,
    /// decorated, resizable, with every button and the engine's icons.
    pub open spec fn is_new_window(&self) -> bool {
        &&& self.title@ == "Osmium"@
        &&& self.width == 1024
        &&& self.height == 1024
        &&& !self.fullscreen
        &&& self.active
        &&& self.decorations
        &&& self.close_button
        &&& self.maximize_button
        &&& self.minimize_button
        &&& self.resizable
        &&& self.window_icon_path matches Some(p) && p@ == "./resources/osmium.ico"@
        &&& self.taskbar_icon_path matches Some(p) && p@ == "./resources/osmium_tb.ico"@
    }

    /// An empty title, zero size, every flag false and no icons.
    pub open spec fn is_default_window(&self) -> bool {
        &&& self.title@ == Seq::<char>::empty()
        &&& self.width == 0
        &&& self.height == 0
        &&& !self.fullscreen
        &&& !self.active
        &&& !self.decorations
        &&& !self.close_button
        &&& !self.maximize_button
        &&& !self.minimize_button
        &&& !self.resizable
        &&& self.window_icon_path is None
        &&& self.taskbar_icon_path is None
    }

    /// A 1024 by 1024 window titled "Osmium", with every button and the
    /// engine's icons.
    pub fn new() -> (c: Self)
        ensures
            c.is_new_window(),
    {
        Self {
            title: String::from_str("Osmium"),
            width: 1024,
            height: 1024,
            fullscreen: false,
            active: true,
            decorations: true,
            close_button: true,
            maximize_button: true,
            minimize_button: true,
            resizable: true,
            window_icon_path: Some(String::from_str("./resources/osmium.ico")),
            taskbar_icon_path: Some(String::from_str("./resources/osmium_tb.ico")),
        }
    }
}

impl Default for WindowConfig {
    /// An empty title, zero size, every flag false and no icons.
    fn default() -> (c: Self)
        ensures
            c.is_default_window(),
    {
        Self {
            title: String::new(),
            width: 0,
            height: 0,
            fullscreen: false,
            active: false,
            decorations: false,
            close_button: false,
            maximize_button: false,
            minimize_button: false,
            resizable: false,
            window_icon_path: None,
            taskbar_icon_path: None,
        }
    }
}

/// How the renderer is set up.
#[derive(Debug, Clone)]
pub struct RendererConfig {
    pub enable_validation: bool,
    pub enable_depth: bool,

    pub gpu_priority: Vec<GpuTypeConfig>,

    pub render_pass: RenderPassConfig,
    pub window_config: WindowConfig,
    pub target_fps: u32,
    pub print_fps: bool,
}

/// The device kinds, most preferred first.
fn default_gpu_priority() -> (v: Vec<GpuTypeConfig>)
    ensures
        v@ == default_gpu_order(),
{
    let v = vec![
        GpuTypeConfig::DiscreteGpu,
        GpuTypeConfig::IntegratedGpu,
        GpuTypeConfig::VirtualGpu,
        GpuTypeConfig::Cpu,
    ];
    assert(v@ =~= default_gpu_order());
    v
}

impl RendererConfig {
    /// No validation, depth on, 60 frames a second with the rate printed,
    /// the render pass of `RenderPassConfig::new` and the window of
    /// `WindowConfig::new`.
    pub fn new() -> (c: Self)
        ensures
            !c.enable_validation,
            c.enable_depth,
            c.gpu_priority@ == default_gpu_order(),
            c.render_pass.is_new_pass(),
            c.window_config.is_new_window(),
            c.target_fps == 60,
            c.print_fps,
    {
        let mut gpu_priority = Vec::new();
        gpu_priority.push(GpuTypeConfig::DiscreteGpu);
        gpu_priority.push(GpuTypeConfig::IntegratedGpu);
        gpu_priority.push(GpuTypeConfig::VirtualGpu);
        gpu_priority.push(GpuTypeConfig::Cpu);
        assert(gpu_priority@ =~= default_gpu_order());

        Self {
            enable_validation: false,
            gpu_priority,

            render_pass: RenderPassConfig::new(),
            enable_depth: true,
            window_config: WindowConfig::new(),
            target_fps: 60,
            print_fps: true,
        }
    }

    /// The device kinds the renderer tries, most preferred first.
    pub fn get_gpu_priority(&self) -> (v: Vec<GpuTypeConfig>)
        ensures
            v@ == self.gpu_priority@,
    {
        let mut v: Vec<GpuTypeConfig> = Vec::new();
        let mut i: usize = 0;
        while i < self.gpu_priority.len()
            invariant
                i <= self.gpu_priority@.len(),
                v@ == self.gpu_priority@.take(i as int),
            decreases self.gpu_priority@.len() - i,
        {
            v.push(self.gpu_priority[i]);
            i = i + 1;
            assert(v@ =~= self.gpu_priority@.take(i as int));
        }
        assert(self.gpu_priority@.take(i as int) =~= self.gpu_priority@);
        v
    }
}

impl Default for RendererConfig {
    /// No validation, depth on, every device kind in the default order, the
    /// default render pass and window, 60 frames a second with the rate
    /// printed.
    fn default() -> (c: Self)
        ensures
            !c.enable_validation,
            c.enable_depth,
            c.gpu_priority@ == default_gpu_order(),
            c.render_pass.is_default_pass(),
            c.window_config.is_default_window(),
            c.target_fps == 60,
            c.print_fps,
    {
        Self {
            enable_validation: false,
            enable_depth: true,
            gpu_priority: default_gpu_priority(),
            render_pass: RenderPassConfig::default(),
            window_config: WindowConfig::default(),
            target_fps: 60,
            print_fps: true,
        }
    }
}

/// The mesh file an object is loaded from and the material it is drawn with.
#[derive(Debug, Clone, PartialEq, Eq)]
pub struct MeshConfig {
    pub filepath: String,
    pub material: String,
    pub heightmap: Option<String>,
}

impl MeshConfig {
    /// The engine's cube with the default material and no height map.
    pub fn new() -> (c: Self)
        ensures
            c.filepath@ == "./resources/Cube.obj"@,
            c.material@ == "default"@,
            c.heightmap is None,
    {
        Self {
            filepath: String::from_str("./resources/Cube.obj"),
            material: String::from_str("default"),
            heightmap: None,
        }
    }
}

impl Default for MeshConfig {
    /// Empty paths and no height map.
    fn default() -> (c: Self)
        ensures
            c.filepath@ == Seq::<char>::empty(),
            c.material@ == Seq::<char>::empty(),
            c.heightmap is None,
    {
        Self { filepath: String::new(), material: String::new(), heightmap: None }
    }
}

/// The texture files of a material, where it has them.
#[derive(Debug, Clone, PartialEq, Eq)]
pub struct MaterialTextures {
    pub albedo: Option<String>,
    pub normal: Option<String>,
    pub roughness: Option<String>,
    pub metallic: Option<String>,
}

} // verus!
