use layered_paint::command::{BufferId, Command, CommandList, PipelineId, Resource};
use layered_paint::pipeline::{
    shader_language, FragmentStateBuilder, NameTable, PipelineError, PipelineLayoutBuilder,
    RenderPassBuilder, ShaderError, ShaderLanguage, VertexStateBuilder,
};
use layered_paint::program;

#[test]
fn bindings_take_slots_in_push_order() {
    let layout = PipelineLayoutBuilder::<u32, u32>::new()
        .push_named("a", 10)
        .push_named("b", 20)
        .push_named("c", 30)
        .create();
    assert_eq!(layout.names.index_of("a"), Some(0));
    assert_eq!(layout.names.index_of("b"), Some(1));
    assert_eq!(layout.names.index_of("c"), Some(2));
    assert_eq!(layout.names.len(), 3);
    assert_eq!(layout.bind_group_layouts, vec![10, 20, 30]);
}

#[test]
fn repushing_a_binding_keeps_slots_and_replaces_layout() {
    let layout = PipelineLayoutBuilder::<u32, u32>::new()
        .push_named("a", 10)
        .push_named("b", 20)
        .push_named("c", 30)
        .push_named("b", 99)
        .create();
    assert_eq!(layout.names.index_of("a"), Some(0));
    assert_eq!(layout.names.index_of("b"), Some(1));
    assert_eq!(layout.names.index_of("c"), Some(2));
    assert_eq!(layout.names.len(), 3);
    assert_eq!(layout.bind_group_layouts, vec![10, 99, 30]);
}

#[test]
fn empty_layout_is_legal() {
    let layout = PipelineLayoutBuilder::<u32, u32>::new().create();
    assert_eq!(layout.names.len(), 0);
    assert!(layout.bind_group_layouts.is_empty());
    assert_eq!(layout.names.index_of("src"), None);
}

#[test]
fn push_constant_ranges_are_kept_in_order() {
    let layout = PipelineLayoutBuilder::<u32, u32>::new()
        .push_push_constant_ranges(7)
        .push_push_constant_ranges(8)
        .create();
    assert_eq!(layout.push_constant_ranges, vec![7, 8]);
}

#[test]
fn name_table_lookup() {
    let t = NameTable::new().push("x").push("y");
    assert_eq!(t.index_of("x"), Some(0));
    assert_eq!(t.index_of("y"), Some(1));
    assert_eq!(t.index_of("z"), None);
}

#[test]
fn vertex_state_builder_defaults_and_streams() {
    let vs = VertexStateBuilder::<&str, u8>::new("shader")
        .push_named("model", 1)
        .push_named("extra", 2)
        .push_named("model", 3)
        .build();
    assert_eq!(vs.entry_point, "vs_main");
    assert_eq!(vs.vertex_shader, "shader");
    assert_eq!(vs.vertex_buffer_layouts, vec![3, 2]);
    assert_eq!(vs.vertex_buffer_names.index_of("model"), Some(0));
    assert_eq!(vs.vertex_buffer_names.index_of("extra"), Some(1));
    let vs = VertexStateBuilder::<&str, u8>::new("shader").set_entry_point("main").build();
    assert_eq!(vs.entry_point, "main");
}

#[test]
fn fragment_state_builder_defaults() {
    let fs = FragmentStateBuilder::<&str, u8>::new("frag").build();
    assert_eq!(fs.entry_point, "fs_main");
    assert_eq!(fs.shader, "frag");
    assert!(fs.color_target_states.is_empty());
    let fs = FragmentStateBuilder::<&str, u8>::new("frag")
        .push_color_target_state(5)
        .set_entry_point("main")
        .build();
    assert_eq!(fs.entry_point, "main");
    assert_eq!(fs.color_target_states, vec![5]);
}

#[test]
fn bound_pass_resolves_names_to_slots() {
    let layout = PipelineLayoutBuilder::<u32, u32>::new()
        .push_named("transforms", 0)
        .push_named("src", 0)
        .create();
    let vs = VertexStateBuilder::<(), u32>::new(()).push_named("model", 0).build();
    let pipeline = program::new(PipelineId(4), &layout, &vs);
    assert_eq!(pipeline.pipeline, PipelineId(4));
    let pass = RenderPassBuilder::new().begin(CommandList::new());
    let mut bound = pass.set_pipeline(&pipeline);
    bound.set_bind_group("src", Resource::Uniform(BufferId(9)), &[256]).unwrap();
    bound.set_bind_group("transforms", Resource::Uniform(BufferId(8)), &[]).unwrap();
    match bound.set_bind_group("missing", Resource::Uniform(BufferId(7)), &[]) {
        Err(PipelineError::BindingNotFound { name }) => assert_eq!(name, "missing"),
        other => panic!("unexpected {:?}", other),
    }
    bound.set_vertex_buffer("model", BufferId(5)).unwrap();
    assert!(matches!(bound.set_vertex_buffer("normals", BufferId(6)), Err(PipelineError::StreamNotFound { .. })));
    bound.set_bind_groups(&[Resource::Uniform(BufferId(1)), Resource::Uniform(BufferId(2))]);
    bound.draw(0..3, 0..1);
    let list = bound.finish().end();
    let c = list.commands();
    assert_eq!(c.len(), 9);
    assert!(matches!(c[0], Command::BeginPass { ref attachments } if attachments.is_empty()));
    assert!(matches!(c[1], Command::SetPipeline { pipeline: PipelineId(4) }));
    assert!(matches!(&c[2], Command::SetBindGroup { slot: 1, group: Resource::Uniform(BufferId(9)), offsets } if *offsets == vec![256]));
    assert!(matches!(&c[3], Command::SetBindGroup { slot: 0, group: Resource::Uniform(BufferId(8)), offsets } if offsets.is_empty()));
    assert!(matches!(c[4], Command::SetVertexBuffer { slot: 0, buffer: BufferId(5) }));
    assert!(matches!(c[5], Command::SetBindGroup { slot: 0, group: Resource::Uniform(BufferId(1)), .. }));
    assert!(matches!(c[6], Command::SetBindGroup { slot: 1, group: Resource::Uniform(BufferId(2)), .. }));
    assert!(matches!(c[7], Command::Draw { vertices: (0, 3), instances: (0, 1) }));
    assert!(matches!(c[8], Command::EndPass));
}

#[test]
fn shader_language_by_extension() {
    assert_eq!(shader_language(Some("glsl")).unwrap(), ShaderLanguage::Glsl);
    assert_eq!(shader_language(Some("wgsl")).unwrap(), ShaderLanguage::Wgsl);
    assert!(matches!(shader_language(None), Err(ShaderError::NoExtension)));
    match shader_language(Some("hlsl")) {
        Err(ShaderError::UnknownExtension { extension }) => assert_eq!(extension, "hlsl"),
        other => panic!("unexpected {:?}", other),
    }
}

#[test]
fn exact_table_comparison() {
    let t = NameTable::new().push("src").push("dst");
    assert!(t.is_exactly(&["src", "dst"]));
    assert!(!t.is_exactly(&["dst", "src"]));
    assert!(!t.is_exactly(&["src"]));
}
