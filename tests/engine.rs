use std::sync::Arc;

use layered_paint::blendop::{BlendOp, BlendOpManager};
use layered_paint::brush::{BrushOp, BrushOpManager, Stroke};
use layered_paint::buffer::UniformBuffer;
use layered_paint::canvas::Canvas;
use layered_paint::command::{
    BufferId, Command, CommandList, ImageId, PipelineId, Resource, Target,
};
use layered_paint::layer::Layer;
use layered_paint::mesh::{Mesh, Model};
use layered_paint::pipeline::{
    PipelineError, PipelineLayout, PipelineLayoutBuilder, VertexState, VertexStateBuilder,
};
use layered_paint::registry::OpError;

fn tables(bindings: &[&str]) -> (PipelineLayout<u32, u32>, VertexState<(), u32>) {
    let mut builder = PipelineLayoutBuilder::<u32, u32>::new();
    for (i, name) in bindings.iter().enumerate() {
        builder = builder.push_named(name, i as u32);
    }
    let vs = VertexStateBuilder::<(), u32>::new(()).push_named("model", 0).build();
    (builder.create(), vs)
}

fn quad() -> Mesh {
    Mesh::new(BufferId(100), BufferId(101), 6)
}

fn blend_op(id: u32) -> BlendOp {
    let layout = BlendOp::layout::<u32, u32>(7).create();
    let (_, vs) = tables(&[]);
    BlendOp::new(quad(), PipelineId(id), &layout, &vs).unwrap()
}

fn brush_op() -> BrushOp {
    let layout = BrushOp::layout::<u32, u32>(1, 2).create();
    let (_, vs) = tables(&[]);
    BrushOp::new(quad(), PipelineId(2), &layout, &vs).unwrap()
}

fn layer(src: u32, target: u32, transforms: u32, op: Arc<BlendOp>) -> Layer<()> {
    let model = Model::new(quad(), UniformBuffer::new(BufferId(transforms)));
    let layout = Layer::<()>::layout::<u32, u32>(1, 2).create();
    let (_, vs) = tables(&[]);
    Layer::new(model, ImageId(src), ImageId(target), PipelineId(3), &layout, &vs, (), op).unwrap()
}

fn stroke(brush: &Arc<BrushOp>, data: u32, transforms: u32) -> Stroke {
    Stroke::new(brush.clone(), BufferId(data), vec![data as u8], BufferId(transforms))
}

/// The target of each pass, in order.
fn pass_targets(list: &CommandList) -> Vec<Target> {
    let mut r = Vec::new();
    for c in list.commands() {
        if let Command::BeginPass { attachments } = c {
            r.push(attachments[0].target);
        }
    }
    r
}

/// The parameter buffers bound by stroke passes, in order.
fn stroke_buffers(list: &CommandList, stroke_slot: u32) -> Vec<u32> {
    let mut r = Vec::new();
    let mut in_brush = false;
    for c in list.commands() {
        match c {
            Command::SetPipeline { pipeline } => in_brush = *pipeline == PipelineId(2),
            Command::SetBindGroup { slot, group: Resource::Uniform(BufferId(b)), .. }
                if in_brush && *slot == stroke_slot => r.push(*b),
            _ => {}
        }
    }
    r
}

#[test]
fn resolve_after_register_returns_same_operator() {
    let add = Arc::new(blend_op(1));
    let mut ops = BlendOpManager::new(blend_op(7));
    ops.register("Add", add.clone());
    let got = ops.arc_to("Add").unwrap();
    assert!(Arc::ptr_eq(&got, &add));
    let again = ops.arc_to("Add").unwrap();
    assert!(Arc::ptr_eq(&again, &got));
    let other = Arc::new(blend_op(8));
    ops.register("Multiply", other.clone());
    assert!(Arc::ptr_eq(&ops.arc_to("Multiply").unwrap(), &other));
    assert!(Arc::ptr_eq(&ops.arc_to("Add").unwrap(), &add));
}

#[test]
fn resolve_of_unregistered_name_fails() {
    let ops = BlendOpManager::new(blend_op(1));
    assert!(ops.arc_to("Add").is_ok());
    match ops.arc_to("Screen") {
        Err(OpError::NotFound { name }) => assert_eq!(name, "Screen"),
        Ok(_) => panic!("resolved an unregistered name"),
    }
    let brushes = BrushOpManager::new(brush_op());
    assert!(brushes.arc_to("default").is_ok());
    assert!(matches!(brushes.arc_to("airbrush"), Err(OpError::NotFound { .. })));
}

#[test]
fn operators_fix_their_name_tables() {
    let brush = brush_op();
    assert_eq!(brush.get_pipeline().bind_group_names.index_of("background"), Some(3));
    assert_eq!(brush.get_pipeline().vertex_buffer_names.index_of("model"), Some(0));
    let (layout, vs) = tables(&["dst", "src"]);
    assert!(matches!(BlendOp::new(quad(), PipelineId(1), &layout, &vs), Err(PipelineError::BindingsMismatch)));
    let (layout, vs) = tables(&["src"]);
    assert!(matches!(BlendOp::new(quad(), PipelineId(1), &layout, &vs), Err(PipelineError::BindingsMismatch)));
    let (layout, vs) = tables(&["transforms", "self", "stroke"]);
    assert!(matches!(BrushOp::new(quad(), PipelineId(2), &layout, &vs), Err(PipelineError::BindingsMismatch)));
    let (layout, vs) = tables(&["transforms", "self", "stroke", "background"]);
    assert!(BrushOp::new(quad(), PipelineId(2), &layout, &vs).is_ok());
    let layout = BlendOp::layout::<u32, u32>(0).create();
    let no_stream = VertexStateBuilder::<(), u32>::new(()).build();
    assert!(matches!(BlendOp::new(quad(), PipelineId(1), &layout, &no_stream), Err(PipelineError::StreamsMismatch)));
    let model = Model::new(quad(), UniformBuffer::new(BufferId(5)));
    let (layout, vs) = tables(&["src", "transforms"]);
    let op = Arc::new(blend_op(1));
    assert!(matches!(
        Layer::new(model, ImageId(1), ImageId(2), PipelineId(3), &layout, &vs, (), op),
        Err(PipelineError::BindingsMismatch)
    ));
}

#[test]
fn layouts_push_names_in_slot_order() {
    let brush = BrushOp::layout::<u32, u32>(1, 2).create();
    assert_eq!(brush.names.index_of("transforms"), Some(0));
    assert_eq!(brush.names.index_of("self"), Some(1));
    assert_eq!(brush.names.index_of("stroke"), Some(2));
    assert_eq!(brush.names.index_of("background"), Some(3));
    assert_eq!(brush.bind_group_layouts, vec![1, 2, 1, 2]);
    let layer = Layer::<()>::layout::<u32, u32>(1, 2).create();
    assert_eq!(layer.names.index_of("transforms"), Some(0));
    assert_eq!(layer.names.index_of("src"), Some(1));
    assert_eq!(layer.bind_group_layouts, vec![1, 2]);
}

#[test]
fn new_stroke_writes_its_first_transform() {
    let brush = Arc::new(brush_op());
    let mut s = stroke(&brush, 4, 5);
    let mut list = CommandList::new();
    s.update_transforms(&mut list, &vec![]);
    assert_eq!(list.len(), 0);
    s.update_transforms(&mut list, &vec![1]);
    assert_eq!(list.len(), 1);
    assert!(Arc::ptr_eq(&s.brushop, &brush));
}

#[test]
fn blend_draw_records_one_cleared_pass() {
    let op = blend_op(1);
    let list = op.draw(CommandList::new(), Target::Present, ImageId(10), ImageId(11));
    let c = list.commands();
    assert_eq!(c.len(), 8);
    assert!(matches!(&c[0], Command::BeginPass { attachments } if attachments.len() == 1
        && attachments[0].target == Target::Present && attachments[0].clear));
    assert!(matches!(c[1], Command::SetPipeline { pipeline: PipelineId(1) }));
    assert!(matches!(c[2], Command::SetBindGroup { slot: 0, group: Resource::Image(ImageId(10)), .. }));
    assert!(matches!(c[3], Command::SetBindGroup { slot: 1, group: Resource::Image(ImageId(11)), .. }));
    assert!(matches!(c[4], Command::SetVertexBuffer { slot: 0, buffer: BufferId(100) }));
    assert!(matches!(c[5], Command::SetIndexBuffer { buffer: BufferId(101) }));
    assert!(matches!(c[6], Command::DrawIndexed { indices: (0, 6), base_vertex: 0, instances: (0, 1) }));
    assert!(matches!(c[7], Command::EndPass));
}

#[test]
fn uniform_update_skips_equal_bytes() {
    let mut u = UniformBuffer::new(BufferId(3));
    let mut list = CommandList::new();
    u.update(&mut list, &vec![1, 2, 3]);
    u.update(&mut list, &vec![1, 2, 3]);
    assert_eq!(list.len(), 1);
    u.update(&mut list, &vec![1, 2, 4]);
    assert_eq!(list.len(), 2);
    assert!(matches!(&list.commands()[1], Command::WriteBuffer { buffer: BufferId(3), bytes } if *bytes == vec![1, 2, 4]));
    let mut v = UniformBuffer::new_with_data(BufferId(4), vec![9]);
    v.update(&mut list, &vec![9]);
    assert_eq!(list.len(), 2);
}

#[test]
fn empty_stroke_queue_records_nothing() {
    let mut l = layer(20, 21, 22, Arc::new(blend_op(1)));
    assert_eq!(l.pending_strokes(), 0);
    let list = l.apply_strokes(CommandList::new(), ImageId(2), &vec![0u8; 4]);
    assert_eq!(list.len(), 0);
    assert_eq!(l.pending_strokes(), 0);
}

#[test]
fn strokes_are_applied_in_queue_order_and_committed() {
    let brush = Arc::new(brush_op());
    let mut l = layer(20, 21, 22, Arc::new(blend_op(1)));
    l.queue_stroke(stroke(&brush, 51, 61));
    l.queue_stroke(stroke(&brush, 52, 62));
    let list = l.apply_strokes(CommandList::new(), ImageId(2), &vec![7u8]);
    assert_eq!(l.pending_strokes(), 0);
    // Each stroke: transform write, a pass into tex_target, a copy back onto tex_src.
    let copies: Vec<(ImageId, ImageId)> = list
        .commands()
        .iter()
        .filter_map(|c| match c {
            Command::CopyImage { src, dst } => Some((*src, *dst)),
            _ => None,
        })
        .collect();
    assert_eq!(copies, vec![(ImageId(21), ImageId(20)), (ImageId(21), ImageId(20))]);
    assert_eq!(pass_targets(&list), vec![Target::Image(ImageId(21)), Target::Image(ImageId(21))]);
    assert_eq!(stroke_buffers(&list, 2), vec![51, 52]);
}

#[test]
fn stroke_order_is_observable() {
    let brush = Arc::new(brush_op());
    let mut split = layer(20, 21, 22, Arc::new(blend_op(1)));
    split.queue_stroke(stroke(&brush, 1, 11));
    split.queue_stroke(stroke(&brush, 2, 12));
    let list = split.apply_strokes(CommandList::new(), ImageId(2), &vec![7u8]);
    split.queue_stroke(stroke(&brush, 3, 13));
    let list = split.apply_strokes(list, ImageId(2), &vec![7u8]);

    let mut reordered = layer(20, 21, 22, Arc::new(blend_op(1)));
    reordered.queue_stroke(stroke(&brush, 3, 13));
    reordered.queue_stroke(stroke(&brush, 1, 11));
    reordered.queue_stroke(stroke(&brush, 2, 12));
    let other = reordered.apply_strokes(CommandList::new(), ImageId(2), &vec![7u8]);

    assert_eq!(stroke_buffers(&list, 2), vec![1, 2, 3]);
    assert_eq!(stroke_buffers(&other, 2), vec![3, 1, 2]);
    assert_eq!(list.len(), other.len());
}

#[test]
fn canvas_without_layers_records_no_pass() {
    let ops = Arc::new(BlendOpManager::new(blend_op(1)));
    let mut canvas: Canvas<()> = Canvas::new(ops, [8, 8], [ImageId(0), ImageId(1), ImageId(2)]);
    let list = canvas.draw(CommandList::new(), &Vec::new());
    assert_eq!(list.len(), 0);
}

#[test]
fn canvas_with_one_layer_blends_straight_to_present() {
    let ops = Arc::new(BlendOpManager::new(blend_op(1)));
    let add = ops.arc_to("Add").unwrap();
    let mut canvas: Canvas<()> = Canvas::new(ops, [8, 8], [ImageId(0), ImageId(1), ImageId(2)]);
    canvas.push_layer(layer(20, 21, 22, add));
    let list = canvas.draw(CommandList::new(), &vec![vec![1u8]]);
    assert_eq!(pass_targets(&list), vec![Target::Image(ImageId(0)), Target::Present]);
    let c = list.commands();
    let last_pass = c.iter().rposition(|c| matches!(c, Command::BeginPass { .. })).unwrap();
    // The blend reads the layer from tmp0 as `src` and tmp2 as `dst`.
    assert!(matches!(c[last_pass + 2], Command::SetBindGroup { slot: 0, group: Resource::Image(ImageId(0)), .. }));
    assert!(matches!(c[last_pass + 3], Command::SetBindGroup { slot: 1, group: Resource::Image(ImageId(2)), .. }));
}

#[test]
fn canvas_ping_pongs_between_accumulators() {
    let ops = Arc::new(BlendOpManager::new(blend_op(1)));
    let add = ops.arc_to("Add").unwrap();
    let mut canvas: Canvas<()> = Canvas::new(ops, [8, 8], [ImageId(0), ImageId(1), ImageId(2)]);
    for k in 0..3u32 {
        canvas.push_layer(layer(20 + 10 * k, 21 + 10 * k, 22 + 10 * k, add.clone()));
    }
    let list = canvas.draw(CommandList::new(), &vec![vec![1u8], vec![2u8], vec![3u8]]);
    assert_eq!(
        pass_targets(&list),
        vec![
            Target::Image(ImageId(0)),
            Target::Image(ImageId(1)),
            Target::Image(ImageId(0)),
            Target::Image(ImageId(2)),
            Target::Image(ImageId(0)),
            Target::Present,
        ]
    );
    // Drawing again writes each layer's transform only where it changed.
    let before = list.len();
    let list = canvas.draw(list, &vec![vec![1u8], vec![9u8], vec![3u8]]);
    let writes = list.commands()[before..]
        .iter()
        .filter(|c| matches!(c, Command::WriteBuffer { .. }))
        .count();
    assert_eq!(writes, 1);
}

#[test]
fn resize_always_leaves_three_scratch_images_at_new_size() {
    let ops = Arc::new(BlendOpManager::new(blend_op(1)));
    let add = ops.arc_to("Add").unwrap();
    let mut canvas: Canvas<()> = Canvas::new(ops, [8, 8], [ImageId(0), ImageId(1), ImageId(2)]);
    canvas.push_layer(layer(20, 21, 22, add.clone()));
    canvas.push_layer(layer(30, 31, 32, add));
    let mut next = 40;
    for size in [[640u32, 480u32], [1, 1], [1920, 1080]] {
        canvas.resize(size, [ImageId(next), ImageId(next + 1), ImageId(next + 2)]);
        let scratch = canvas.scratch_images();
        assert_eq!(scratch.len(), 3);
        for (k, s) in scratch.iter().enumerate() {
            assert_eq!((s.width, s.height), (size[0], size[1]));
            assert_eq!(s.id, ImageId(next + k as u32));
        }
        assert_eq!(canvas.size(), size);
        assert_eq!(canvas.layer_count(), 2);
        next += 3;
    }
}

#[test]
fn removing_a_layer_keeps_the_others_in_order() {
    let ops = Arc::new(BlendOpManager::new(blend_op(1)));
    let add = ops.arc_to("Add").unwrap();
    let mut canvas: Canvas<u8> = Canvas::new(ops, [8, 8], [ImageId(0), ImageId(1), ImageId(2)]);
    for k in 0..3u32 {
        let model = Model::new(quad(), UniformBuffer::new(BufferId(22 + k)));
        let layout = Layer::<u8>::layout::<u32, u32>(1, 2).create();
        let (_, vs) = tables(&[]);
        let l = Layer::new(model, ImageId(20 + 10 * k), ImageId(21 + 10 * k), PipelineId(3), &layout, &vs, k as u8, add.clone()).unwrap();
        canvas.push_layer(l);
    }
    canvas.remove_layer(1);
    assert_eq!(canvas.layer_count(), 2);
    assert_eq!(*canvas.layer(0).placement(), 0);
    assert_eq!(*canvas.layer(1).placement(), 2);
    canvas.set_placement(1, 9);
    assert_eq!(*canvas.layer(1).placement(), 9);
    assert_eq!(canvas.layer(1).tex_src_id(), ImageId(40));
}

#[test]
fn canvas_keeps_layer_images_apart_from_scratch() {
    let ops = Arc::new(BlendOpManager::new(blend_op(1)));
    let add = ops.arc_to("Add").unwrap();
    let mut canvas: Canvas<()> = Canvas::new(ops, [8, 8], [ImageId(0), ImageId(1), ImageId(2)]);
    assert!(canvas.well_formed());
    canvas.push_layer(layer(20, 21, 22, add));
    assert!(canvas.well_formed());
    assert!(canvas.uses_image(ImageId(20)));
    assert!(canvas.uses_image(ImageId(21)));
    assert!(!canvas.uses_image(ImageId(0)));
    assert!(canvas.is_scratch_image(ImageId(2)));
    assert!(!canvas.is_scratch_image(ImageId(20)));
}
