//! Construction of render-pipeline descriptors from shader text, binding slots,
//! vertex layouts and target formats.
//!
//! Formats, vertex layouts and layout handles are type parameters: the factory
//! passes them through without reading them, and the host instantiates them with
//! the types of its GPU API.

use vstd::prelude::*;

verus! {

/// Entry point of the vertex stage in every shader this factory builds against.
pub const VERTEX_ENTRY: &'static str = "vs_main";

/// Entry point of the fragment stage in every shader this factory builds against.
pub const FRAGMENT_ENTRY: &'static str = "fs_main";

/// Shader source text with a label that only serves diagnostics.
pub struct ShaderModuleDesc {
    pub label: String,
    pub source: String,
}

/// Describes a shader module for the given source text and label.
pub fn create_shader_module(shader_str: &str, label: &str) -> (r: ShaderModuleDesc)
    ensures
        r.source@ == shader_str@,
        r.label@ == label@,
{
    ShaderModuleDesc { label: label.to_owned(), source: shader_str.to_owned() }
}


/// The shader stages a binding is visible to.
#[derive(Clone, Copy, PartialEq, Eq, Structural, Debug)]
pub struct StageSet {
    pub vertex: bool,
    pub fragment: bool,
    pub compute: bool,
}

/// The kind of resource bound at a slot. Layouts built here hold uniform buffers.
#[derive(Clone, Copy, PartialEq, Eq, Structural, Debug)]
pub enum BindingKind {
    UniformBuffer,
}

/// One binding slot of a bind-group layout.
#[derive(Clone, Copy, PartialEq, Eq, Structural, Debug)]
pub struct BindingEntry {
    pub binding: u32,
    pub visibility: StageSet,
    pub kind: BindingKind,
    pub has_dynamic_offset: bool,
    /// Whether the shader declares a minimum size for the bound buffer.
    pub has_min_binding_size: bool,
    /// Whether the slot holds an array of resources rather than one.
    pub is_array: bool,
}

/// The shape of the resources one bind group supplies.
pub struct BindGroupLayoutDesc {
    pub label: String,
    pub entries: Vec<BindingEntry>,
}

/// The uniform-buffer entry at `slot`, visible to `visibility`, with no dynamic
/// offset, no minimum size and no array.
pub open spec fn uniform_entry(slot: u32, visibility: StageSet) -> BindingEntry {
    BindingEntry {
        binding: slot,
        visibility,
        kind: BindingKind::UniformBuffer,
        has_dynamic_offset: false,
        has_min_binding_size: false,
        is_array: false,
    }
}

/// Describes a bind-group layout with exactly one uniform-buffer binding at
/// `binding_location`, visible to the stages in `visibility`.
pub fn create_bind_group_layout(
    label: &str,
    binding_location: u32,
    visibility: StageSet,
) -> (r: BindGroupLayoutDesc)
    ensures
        r.label@ == label@,
        r.entries@ == seq![uniform_entry(binding_location, visibility)],
{
    let entry = BindingEntry {
        binding: binding_location,
        visibility,
        kind: BindingKind::UniformBuffer,
        has_dynamic_offset: false,
        has_min_binding_size: false,
        is_array: false,
    };
    let entries = vec![entry];
    BindGroupLayoutDesc { label: label.to_owned(), entries }
}

/// An ordered list of bind-group layouts: the layout at position `i` supplies
/// bind group `i`. No push-constant ranges are declared.
pub struct PipelineLayoutDesc<L> {
    pub label: String,
    pub bind_group_layouts: Vec<L>,
}

/// Describes a pipeline layout over `bind_group_layouts`, in their order.
pub fn create_pipeline_layout<L: Copy>(label: &str, bind_group_layouts: &[L]) -> (r:
    PipelineLayoutDesc<L>)
    ensures
        r.label@ == label@,
        r.bind_group_layouts@ == bind_group_layouts@,
        forall|i: int|
            0 <= i < bind_group_layouts@.len() ==> #[trigger] r.bind_group_layouts@[i]
                == bind_group_layouts@[i],
{
    let mut layouts: Vec<L> = Vec::new();
    let mut i: usize = 0;
    while i < bind_group_layouts.len()
        invariant
            i <= bind_group_layouts@.len(),
            layouts@ == bind_group_layouts@.subrange(0, i as int),
        decreases bind_group_layouts@.len() - i,
    {
        layouts.push(bind_group_layouts[i]);
        i = i + 1;
        assert(layouts@ =~= bind_group_layouts@.subrange(0, i as int));
    }
    assert(layouts@ =~= bind_group_layouts@);
    PipelineLayoutDesc { label: label.to_owned(), bind_group_layouts: layouts }
}


/// How vertices are assembled into primitives.
#[derive(Clone, Copy, PartialEq, Eq, Structural, Debug)]
pub enum Topology {
    PointList,
    LineList,
    LineStrip,
    TriangleList,
    TriangleStrip,
}

/// The winding order that marks a triangle as front-facing.
#[derive(Clone, Copy, PartialEq, Eq, Structural, Debug)]
pub enum FrontFace {
    Ccw,
    Cw,
}

/// A side of a triangle.
#[derive(Clone, Copy, PartialEq, Eq, Structural, Debug)]
pub enum Face {
    Front,
    Back,
}

/// How triangles are rasterized.
#[derive(Clone, Copy, PartialEq, Eq, Structural, Debug)]
pub enum PolygonMode {
    Fill,
    Line,
    Point,
}

/// Primitive assembly and rasterization state.
#[derive(Clone, Copy, PartialEq, Eq, Structural, Debug)]
pub struct PrimitiveConfig {
    pub topology: Topology,
    pub front_face: FrontFace,
    pub cull_mode: Option<Face>,
    pub polygon_mode: PolygonMode,
    pub unclipped_depth: bool,
    pub conservative: bool,
}

/// A blend equation applied to both the color and the alpha channel.
#[derive(Clone, Copy, PartialEq, Eq, Structural, Debug)]
pub enum BlendMode {
    /// The fragment's value replaces what the target holds.
    Replace,
    /// Straight-alpha "over" blending.
    AlphaBlending,
    /// Premultiplied-alpha "over" blending.
    PremultipliedAlphaBlending,
}

/// Which channels of the color target a pipeline writes.
#[derive(Clone, Copy, PartialEq, Eq, Structural, Debug)]
pub struct ColorWrites {
    pub red: bool,
    pub green: bool,
    pub blue: bool,
    pub alpha: bool,
}

/// One color attachment of a pipeline.
pub struct ColorTarget<F> {
    pub format: F,
    pub blend: Option<BlendMode>,
    pub write_mask: ColorWrites,
}

/// The comparison a depth test applies.
#[derive(Clone, Copy, PartialEq, Eq, Structural, Debug)]
pub enum CompareFunction {
    Never,
    Less,
    Equal,
    LessEqual,
    Greater,
    NotEqual,
    GreaterEqual,
    Always,
}

/// Depth testing for a depth attachment of format `F`; stencil and depth-bias
/// state stay at the API's defaults.
pub struct DepthStencilConfig<F> {
    pub format: F,
    pub depth_write_enabled: bool,
    pub depth_compare: CompareFunction,
}

/// Multisampling state.
#[derive(Clone, Copy, PartialEq, Eq, Structural, Debug)]
pub struct MultisampleConfig {
    pub count: u32,
    pub mask: u64,
    pub alpha_to_coverage_enabled: bool,
}

/// Everything a render pipeline bakes in, ready to be handed to a device.
pub struct RenderPipelineDesc<L, F, V> {
    pub label: String,
    pub layout: L,
    pub shader: ShaderModuleDesc,
    pub vertex_entry: &'static str,
    pub vertex_buffers: Vec<V>,
    pub fragment_entry: &'static str,
    pub targets: Vec<ColorTarget<F>>,
    pub primitive: PrimitiveConfig,
    pub depth_stencil: Option<DepthStencilConfig<F>>,
    pub multisample: MultisampleConfig,
    /// The number of array layers for multiview rendering, if enabled.
    pub multiview: Option<u32>,
}

/// Primitive state of every pipeline built here: triangle lists, counter-clockwise
/// front faces, back faces culled, filled polygons, no depth-clip or conservative
/// rasterization overrides.
pub open spec fn spec_primitive() -> PrimitiveConfig {
    PrimitiveConfig {
        topology: Topology::TriangleList,
        front_face: FrontFace::Ccw,
        cull_mode: Some(Face::Back),
        polygon_mode: PolygonMode::Fill,
        unclipped_depth: false,
        conservative: false,
    }
}

/// All four color channels.
pub open spec fn spec_all_writes() -> ColorWrites {
    ColorWrites { red: true, green: true, blue: true, alpha: true }
}

/// One sample per pixel, every sample enabled, no alpha-to-coverage.
pub open spec fn spec_multisample() -> MultisampleConfig {
    MultisampleConfig { count: 1, mask: 0xffff_ffff_ffff_ffff, alpha_to_coverage_enabled: false }
}

/// Depth state for a depth attachment of `format`: less-than test, writes on.
pub open spec fn spec_depth_stencil<F>(format: F) -> DepthStencilConfig<F> {
    DepthStencilConfig { format, depth_write_enabled: true, depth_compare: CompareFunction::Less }
}

/// The single color target of a pipeline drawing into `format`.
pub open spec fn spec_color_target<F>(format: F) -> ColorTarget<F> {
    ColorTarget { format, blend: Some(BlendMode::Replace), write_mask: spec_all_writes() }
}

/// Depth state for an optional depth format: none exactly when no format is given.
pub open spec fn spec_depth_for<F>(depth_format: Option<F>) -> Option<DepthStencilConfig<F>> {
    match depth_format {
        Some(format) => Some(spec_depth_stencil(format)),
        None => None,
    }
}

/// The primitive state of every pipeline built here.
pub fn default_primitive() -> (r: PrimitiveConfig)
    ensures
        r == spec_primitive(),
{
    PrimitiveConfig {
        topology: Topology::TriangleList,
        front_face: FrontFace::Ccw,
        cull_mode: Some(Face::Back),
        polygon_mode: PolygonMode::Fill,
        unclipped_depth: false,
        conservative: false,
    }
}

/// The multisample state of every pipeline built here.
pub fn default_multisample() -> (r: MultisampleConfig)
    ensures
        r == spec_multisample(),
{
    MultisampleConfig { count: 1, mask: 0xffff_ffff_ffff_ffff, alpha_to_coverage_enabled: false }
}

/// The color target of every pipeline built here, for `format`.
pub fn default_color_target<F>(format: F) -> (r: ColorTarget<F>)
    ensures
        r == spec_color_target(format),
{
    ColorTarget {
        format,
        blend: Some(BlendMode::Replace),
        write_mask: ColorWrites { red: true, green: true, blue: true, alpha: true },
    }
}

/// The depth state of every pipeline built here, for an optional depth format.
pub fn depth_state_for<F>(depth_format: Option<F>) -> (r: Option<DepthStencilConfig<F>>)
    ensures
        r == spec_depth_for(depth_format),
{
    match depth_format {
        Some(format) => Some(
            DepthStencilConfig {
                format,
                depth_write_enabled: true,
                depth_compare: CompareFunction::Less,
            },
        ),
        None => None,
    }
}

/// `r` is the descriptor built from these inputs: the shader's label, the given
/// layout, shader and vertex layouts, entry points `vs_main` and `fs_main`, one
/// color target of `color_format`, the fixed primitive and multisample state,
/// depth state exactly when a depth format is given, and no multiview.
pub open spec fn pipeline_built_from<L, F, V>(
    r: RenderPipelineDesc<L, F, V>,
    layout: L,
    color_format: F,
    depth_format: Option<F>,
    vertex_layouts: Seq<V>,
    shader: ShaderModuleDesc,
) -> bool {
    &&& r.label@ == shader.label@
    &&& r.layout == layout
    &&& r.shader == shader
    &&& r.vertex_entry == VERTEX_ENTRY
    &&& r.fragment_entry == FRAGMENT_ENTRY
    &&& r.vertex_buffers@ == vertex_layouts
    &&& r.targets@ == seq![spec_color_target(color_format)]
    &&& r.primitive == spec_primitive()
    &&& r.depth_stencil == spec_depth_for(depth_format)
    &&& r.multisample == spec_multisample()
    &&& r.multiview is None
}

/// The state a pipeline bakes in apart from its resources: entry points, color
/// targets, primitive state, depth state, multisample state and multiview.
pub open spec fn baked_state<L, F, V>(r: RenderPipelineDesc<L, F, V>) -> (
    &'static str,
    &'static str,
    Seq<ColorTarget<F>>,
    PrimitiveConfig,
    Option<DepthStencilConfig<F>>,
    MultisampleConfig,
    Option<u32>,
) {
    (
        r.vertex_entry,
        r.fragment_entry,
        r.targets@,
        r.primitive,
        r.depth_stencil,
        r.multisample,
        r.multiview,
    )
}

/// Describes the render pipeline that draws with `shader` through `layout` into
/// one color target of `color_format`, with depth testing exactly when a depth
/// format is given. The vertex stage enters at `vs_main`, the fragment stage at
/// `fs_main`; the label is the shader's.
pub fn create_render_pipeline<L, F, V>(
    layout: L,
    color_format: F,
    depth_format: Option<F>,
    vertex_layouts: Vec<V>,
    shader: ShaderModuleDesc,
) -> (r: RenderPipelineDesc<L, F, V>)
    ensures
        pipeline_built_from(r, layout, color_format, depth_format, vertex_layouts@, shader),
{
    let label = shader.label.clone();
    let targets = vec![default_color_target(color_format)];
    assert(targets@ =~= seq![spec_color_target(color_format)]);
    RenderPipelineDesc {
        label,
        layout,
        shader,
        vertex_entry: VERTEX_ENTRY,
        vertex_buffers: vertex_layouts,
        fragment_entry: FRAGMENT_ENTRY,
        targets,
        primitive: default_primitive(),
        depth_stencil: depth_state_for(depth_format),
        multisample: default_multisample(),
        multiview: None,
    }
}


/// Pipeline construction is deterministic: two pipelines built for the same color
/// and depth formats bake in identical state (entry points, topology, culling,
/// blending, depth configuration, multisampling), whatever their layouts, vertex
/// layouts and shaders; built from identical inputs they agree in every part.
pub proof fn lemma_pipeline_deterministic<L, F, V>(
    r1: RenderPipelineDesc<L, F, V>,
    r2: RenderPipelineDesc<L, F, V>,
    layout1: L,
    layout2: L,
    color_format: F,
    depth_format: Option<F>,
    vertex_layouts1: Seq<V>,
    vertex_layouts2: Seq<V>,
    shader1: ShaderModuleDesc,
    shader2: ShaderModuleDesc,
)
    requires
        pipeline_built_from(r1, layout1, color_format, depth_format, vertex_layouts1, shader1),
        pipeline_built_from(r2, layout2, color_format, depth_format, vertex_layouts2, shader2),
    ensures
        baked_state(r1) == baked_state(r2),
        layout1 == layout2 && vertex_layouts1 == vertex_layouts2 && shader1 == shader2 ==> {
            &&& r1.label@ == r2.label@
            &&& r1.layout == r2.layout
            &&& r1.shader == r2.shader
            &&& r1.vertex_buffers@ == r2.vertex_buffers@
        },
{
}

/// Depth and stencil are disabled in a built pipeline exactly when no depth
/// format was supplied, and otherwise test with less-than and write depth in the
/// supplied format.
pub proof fn lemma_depth_disabled_iff_no_format<L, F, V>(
    r: RenderPipelineDesc<L, F, V>,
    layout: L,
    color_format: F,
    depth_format: Option<F>,
    vertex_layouts: Seq<V>,
    shader: ShaderModuleDesc,
)
    requires
        pipeline_built_from(r, layout, color_format, depth_format, vertex_layouts, shader),
    ensures
        r.depth_stencil is None <==> depth_format is None,
        depth_format is Some ==> r.depth_stencil == Some(
            DepthStencilConfig {
                format: depth_format->0,
                depth_write_enabled: true,
                depth_compare: CompareFunction::Less,
            },
        ),
{
}

} // verus!
