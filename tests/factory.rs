use gpu_host::factory::{
    create_render_pipeline, BindingKind, BlendMode, CompareFunction, Face, FrontFace,
    PolygonMode, StageSet, Topology, FRAGMENT_ENTRY, VERTEX_ENTRY,
};
use gpu_host::{create_bind_group_layout, create_pipeline_layout, create_shader_module};

#[derive(Clone, Copy, PartialEq, Eq, Debug)]
enum Format {
    Bgra8UnormSrgb,
    Depth32Float,
}

const SHADER: &str = "@vertex fn vs_main() -> @builtin(position) vec4<f32> { return vec4<f32>(0.0); }\n@fragment fn fs_main() -> @location(0) vec4<f32> { return vec4<f32>(1.0); }";

fn fragment_only() -> StageSet {
    StageSet { vertex: false, fragment: true, compute: false }
}

#[test]
fn shader_module_keeps_source_and_label() {
    let m = create_shader_module(SHADER, "triangle");
    assert_eq!(m.source, SHADER);
    assert_eq!(m.label, "triangle");
}

#[test]
fn bind_group_layout_has_one_uniform_binding() {
    let l = create_bind_group_layout("camera", 3, fragment_only());
    assert_eq!(l.label, "camera");
    assert_eq!(l.entries.len(), 1);
    let e = l.entries[0];
    assert_eq!(e.binding, 3);
    assert_eq!(e.visibility, fragment_only());
    assert_eq!(e.kind, BindingKind::UniformBuffer);
    assert!(!e.has_dynamic_offset);
    assert!(!e.has_min_binding_size);
    assert!(!e.is_array);
}

#[test]
fn pipeline_layout_keeps_group_order() {
    let groups = [7u32, 2, 9];
    let p = create_pipeline_layout("layout", &groups);
    assert_eq!(p.label, "layout");
    assert_eq!(p.bind_group_layouts, vec![7, 2, 9]);
    let empty: [u32; 0] = [];
    assert!(create_pipeline_layout("none", &empty).bind_group_layouts.is_empty());
}

#[test]
fn pipeline_without_depth_scenario() {
    let _binding = create_bind_group_layout("uniforms", 0, fragment_only());
    let layout = create_pipeline_layout("layout", &[0u32]);
    let shader = create_shader_module(SHADER, "shader");
    let p = create_render_pipeline(
        &layout,
        Format::Bgra8UnormSrgb,
        None,
        vec![16u32],
        shader,
    );
    assert!(p.depth_stencil.is_none());
    assert_eq!(p.targets.len(), 1);
    assert_eq!(p.primitive.topology, Topology::TriangleList);
    assert_eq!(p.targets[0].format, Format::Bgra8UnormSrgb);
    assert_eq!(p.targets[0].blend, Some(BlendMode::Replace));
    let w = p.targets[0].write_mask;
    assert!(w.red && w.green && w.blue && w.alpha);
    assert_eq!(p.primitive.front_face, FrontFace::Ccw);
    assert_eq!(p.primitive.cull_mode, Some(Face::Back));
    assert_eq!(p.primitive.polygon_mode, PolygonMode::Fill);
    assert!(!p.primitive.unclipped_depth && !p.primitive.conservative);
    assert_eq!(p.multisample.count, 1);
    assert_eq!(p.multisample.mask, u64::MAX);
    assert!(!p.multisample.alpha_to_coverage_enabled);
    assert_eq!(p.multiview, None);
    assert_eq!(p.vertex_entry, "vs_main");
    assert_eq!(p.fragment_entry, "fs_main");
    assert_eq!(VERTEX_ENTRY, "vs_main");
    assert_eq!(FRAGMENT_ENTRY, "fs_main");
    assert_eq!(p.vertex_buffers, vec![16]);
    assert_eq!(p.label, "shader");
    assert_eq!(p.shader.source, SHADER);
}

#[test]
fn pipeline_with_depth_tests_less_and_writes() {
    let p = create_render_pipeline(
        1u8,
        Format::Bgra8UnormSrgb,
        Some(Format::Depth32Float),
        Vec::<u32>::new(),
        create_shader_module(SHADER, "s"),
    );
    let d = p.depth_stencil.expect("depth state");
    assert_eq!(d.format, Format::Depth32Float);
    assert!(d.depth_write_enabled);
    assert_eq!(d.depth_compare, CompareFunction::Less);
}

#[test]
fn pipeline_construction_is_deterministic() {
    let a = create_render_pipeline(
        1u8,
        Format::Bgra8UnormSrgb,
        Some(Format::Depth32Float),
        vec![4u32],
        create_shader_module(SHADER, "a"),
    );
    let b = create_render_pipeline(
        2u8,
        Format::Bgra8UnormSrgb,
        Some(Format::Depth32Float),
        vec![8u32, 12],
        create_shader_module("other", "b"),
    );
    assert_eq!(a.primitive, b.primitive);
    assert_eq!(a.multisample, b.multisample);
    assert_eq!(a.targets.len(), b.targets.len());
    assert_eq!(a.targets[0].format, b.targets[0].format);
    assert_eq!(a.targets[0].blend, b.targets[0].blend);
    assert_eq!(a.targets[0].write_mask, b.targets[0].write_mask);
    let (da, db) = (a.depth_stencil.unwrap(), b.depth_stencil.unwrap());
    assert_eq!(da.format, db.format);
    assert_eq!(da.depth_compare, db.depth_compare);
    assert_eq!(da.depth_write_enabled, db.depth_write_enabled);
    assert_eq!((a.vertex_entry, a.fragment_entry), (b.vertex_entry, b.fragment_entry));
}

#[test]
fn depth_disabled_only_without_format() {
    for depth in [None, Some(Format::Depth32Float)] {
        let p = create_render_pipeline(
            0u8,
            Format::Bgra8UnormSrgb,
            depth,
            Vec::<u32>::new(),
            create_shader_module(SHADER, "s"),
        );
        assert_eq!(p.depth_stencil.is_none(), depth.is_none());
    }
}
