use gpu_batch::bind_group::{BindGroup, BindGroupBuilder};
use gpu_batch::buffer::Buffer;
use gpu_batch::command_encoder::CommandEncoder;
use gpu_batch::commands::{CreateAction, DeviceCommand};
use gpu_batch::compute_pipeline::{ComputePipeline, ComputePipelineBuilder};
use gpu_batch::context::Context;
use gpu_batch::dispatch::Dispatch;
use gpu_batch::draw_call::{DrawCall, RasteriserState};
use gpu_batch::render_pass::ColorAttachment;
use gpu_batch::render_pipeline::{ColorTargetState, RenderPipeline, RenderPipelineBuilder};
use gpu_batch::render_texture::RenderTexture;
use gpu_batch::shader::Shader;
use gpu_batch::types::{
    AttachmentOps, BufferBindingType, BufferUsages, ColorBits, LoadOp, ShaderStages, StoreOp,
    TextureFormat,
};

fn vertex_visible() -> ShaderStages {
    ShaderStages { vertex: true, fragment: false, compute: false }
}

fn compute_visible() -> ShaderStages {
    ShaderStages { vertex: false, fragment: false, compute: true }
}

fn clear_ops() -> AttachmentOps<ColorBits> {
    AttachmentOps { load: LoadOp::Clear(ColorBits { r: 0, g: 0, b: 0, a: 0 }), store: StoreOp::Store }
}

fn scene_bind_group(buffer: &Buffer) -> BindGroup {
    BindGroupBuilder::new()
        .buffer(0, vertex_visible(), &buffer.uniform_binding(), None)
        .build()
}

fn simple_render_pipeline(shader: &Shader) -> RenderPipeline {
    RenderPipelineBuilder::with_vertex(&shader.entry_point("vs_main"), Vec::new())
        .fragment(&shader.entry_point("fs_main"), vec![Some(ColorTargetState::default())])
        .build()
}

fn simple_compute_pipeline(shader: &Shader) -> ComputePipeline {
    ComputePipelineBuilder::with_entry_point(&shader.entry_point("cs_main")).build()
}

fn simple_draw(buffer: &Buffer, shader: &Shader) -> DrawCall {
    DrawCall {
        bind_groups: vec![scene_bind_group(buffer)],
        bind_group_offsets: vec![vec![]],
        pipeline: simple_render_pipeline(shader),
        vertices: vec![],
        indices: None,
        element_range: 0..3,
        instance_range: 0..1,
        rasteriser_state: RasteriserState::default(),
    }
}

fn target(ctx: &mut Context) -> RenderTexture {
    ctx.import_render_texture(TextureFormat::Bgra8UnormSrgb)
}

fn attachment(ctx: &mut Context) -> ColorAttachment {
    ColorAttachment { target: target(ctx), resolve_target: None, ops: clear_ops() }
}

fn submit_one_frame(ctx: &mut Context, buffer: &Buffer, shader: &Shader) -> Vec<DeviceCommand> {
    let att = attachment(ctx);
    let mut encoder = CommandEncoder::new(Some("frame"));
    let mut rp = encoder.render_pass(None, vec![att], None, None);
    rp.draw(simple_draw(buffer, shader));
    rp.finish(&mut encoder);
    encoder.submit(ctx).commands
}

fn bind_group_ids(commands: &[DeviceCommand]) -> Vec<u64> {
    let mut out = Vec::new();
    for c in commands {
        if let DeviceCommand::SetBindGroup { bind_group, .. } = c {
            out.push(*bind_group);
        }
    }
    out
}

fn render_pipeline_ids(commands: &[DeviceCommand]) -> Vec<u64> {
    let mut out = Vec::new();
    for c in commands {
        if let DeviceCommand::SetRenderPipeline { pipeline } = c {
            out.push(*pipeline);
        }
    }
    out
}

#[test]
fn submission_orders_passes_and_calls() {
    let mut ctx = Context::new();
    let buffer = Buffer::new(None, BufferUsages { bits: 0 }, 64, &mut ctx);
    let shader = Shader::new(None, "shader source", &mut ctx);
    let compute_shader = Shader::new(None, "compute source", &mut ctx);
    let att = attachment(&mut ctx);

    let mut encoder = CommandEncoder::new(None);
    // Render pass with draws A then B, then a compute pass with dispatch C.
    let mut rp = encoder.render_pass(Some("main"), vec![att], None, None);
    rp.draw(simple_draw(&buffer, &shader));
    rp.draw(simple_draw(&buffer, &shader));
    rp.finish(&mut encoder);
    let mut cp = encoder.compute_pass(Some("post"));
    cp.dispatch(Dispatch {
        bind_groups: vec![BindGroupBuilder::new()
            .buffer(0, compute_visible(), &buffer.storage_binding(false), None)
            .build()],
        bind_group_offsets: vec![vec![]],
        pipeline: simple_compute_pipeline(&compute_shader),
        extent: (8, 8, 1),
    });
    cp.finish(&mut encoder);
    let plan = encoder.submit(&mut ctx);

    // The recorded stream: begin render pass; draw A (set bind group, set
    // pipeline, draw); draw B likewise; then begin compute pass; dispatch C.
    let kinds: Vec<u32> = plan
        .commands
        .iter()
        .map(|c| match c {
            DeviceCommand::BeginRenderPass { .. } => 1,
            DeviceCommand::SetBindGroup { .. } => 2,
            DeviceCommand::SetRenderPipeline { .. } => 3,
            DeviceCommand::Draw { .. } => 4,
            DeviceCommand::BeginComputePass { .. } => 5,
            DeviceCommand::SetComputePipeline { .. } => 6,
            DeviceCommand::DispatchWorkgroups { .. } => 7,
            _ => 0,
        })
        .collect();
    assert_eq!(kinds, vec![1, 2, 3, 4, 2, 3, 4, 5, 2, 6, 7]);
    match &plan.commands[10] {
        DeviceCommand::DispatchWorkgroups { x, y, z } => {
            assert_eq!((*x, *y, *z), (8, 8, 1));
        },
        _ => panic!("expected a workgroup dispatch"),
    }
    match &plan.commands[3] {
        DeviceCommand::Draw { element_start, element_end, instance_start, instance_end } => {
            assert_eq!((*element_start, *element_end), (0, 3));
            assert_eq!((*instance_start, *instance_end), (0, 1));
        },
        _ => panic!("expected a non-indexed draw"),
    }
}

#[test]
fn equal_descriptors_share_one_object_within_a_frame() {
    let mut ctx = Context::new();
    let buffer = Buffer::new(None, BufferUsages { bits: 0 }, 64, &mut ctx);
    let shader = Shader::new(None, "shader source", &mut ctx);
    let att = attachment(&mut ctx);

    let mut encoder = CommandEncoder::new(None);
    let mut rp = encoder.render_pass(None, vec![att], None, None);
    // Two draws with independently built but value-equal bind groups and
    // pipeline descriptions.
    rp.draw(simple_draw(&buffer, &shader));
    rp.draw(simple_draw(&buffer, &shader));
    rp.finish(&mut encoder);
    let plan = encoder.submit(&mut ctx);

    let bgs = bind_group_ids(&plan.commands);
    let pipes = render_pipeline_ids(&plan.commands);
    assert_eq!(bgs.len(), 2);
    assert_eq!(pipes.len(), 2);
    assert_eq!(bgs[0], bgs[1]);
    assert_eq!(pipes[0], pipes[1]);
    // The frame plans exactly one bind group creation and one pipeline
    // compilation for the two draws.
    let mut bind_group_creations = 0;
    let mut pipeline_creations = 0;
    for a in &plan.actions {
        match a {
            CreateAction::BindGroup { .. } => bind_group_creations += 1,
            CreateAction::RenderPipeline { .. } => pipeline_creations += 1,
            _ => {},
        }
    }
    assert_eq!(bind_group_creations, 1);
    assert_eq!(pipeline_creations, 1);
}

#[test]
fn pipeline_and_bind_group_reused_across_submissions() {
    let mut ctx = Context::new();
    let buffer = Buffer::new(None, BufferUsages { bits: 0 }, 64, &mut ctx);
    let shader = Shader::new(None, "shader source", &mut ctx);

    let first = submit_one_frame(&mut ctx, &buffer, &shader);
    let second = submit_one_frame(&mut ctx, &buffer, &shader);

    // Two independent submissions: the resolved objects are identical.
    assert_eq!(bind_group_ids(&first), bind_group_ids(&second));
    assert_eq!(render_pipeline_ids(&first), render_pipeline_ids(&second));
    assert_eq!(bind_group_ids(&first).len(), 1);
}

#[test]
fn buffer_capacity_only_grows() {
    let mut ctx = Context::new();
    let mut buffer = Buffer::new(None, BufferUsages { bits: 0 }, 100, &mut ctx);
    // Shrinking requests leave the buffer unchanged.
    buffer.ensure_capacity(50, &mut ctx);
    assert_eq!(buffer.size(), 100);
    // A growing request reallocates to exactly the requested size.
    buffer.ensure_capacity(200, &mut ctx);
    assert_eq!(buffer.size(), 200);
    buffer.ensure_capacity(200, &mut ctx);
    assert_eq!(buffer.size(), 200);

    let encoder = CommandEncoder::new(None);
    let plan = encoder.submit(&mut ctx);
    let mut reallocs = Vec::new();
    let mut creations = Vec::new();
    for a in &plan.actions {
        match a {
            CreateAction::Buffer { size, .. } => creations.push(*size),
            CreateAction::ReallocBuffer { size, .. } => reallocs.push(*size),
            _ => {},
        }
    }
    assert_eq!(creations, vec![100]);
    assert_eq!(reallocs, vec![200]);
}

#[test]
fn transfer_passes_translate_directly() {
    let mut ctx = Context::new();
    let src = Buffer::new(None, BufferUsages { bits: 0 }, 64, &mut ctx);
    let dst = Buffer::new(None, BufferUsages { bits: 0 }, 64, &mut ctx);
    src.write(&[1, 2, 3], &mut ctx);

    let mut encoder = CommandEncoder::new(None);
    encoder.clear_buffer(&dst, 8, Some(16));
    encoder.copy_buffer_to_buffer(&src, 0, &dst, 32, 16);
    let plan = encoder.submit(&mut ctx);

    assert_eq!(plan.commands.len(), 2);
    match &plan.commands[0] {
        DeviceCommand::ClearBuffer { buffer, offset, size } => {
            assert_eq!(*buffer, dst.id());
            assert_eq!(*offset, 8);
            assert_eq!(*size, Some(16));
        },
        _ => panic!("expected a buffer clear"),
    }
    match &plan.commands[1] {
        DeviceCommand::CopyBufferToBuffer { source, source_offset, destination, destination_offset, size } => {
            assert_eq!(*source, src.id());
            assert_eq!(*source_offset, 0);
            assert_eq!(*destination, dst.id());
            assert_eq!(*destination_offset, 32);
            assert_eq!(*size, 16);
        },
        _ => panic!("expected a buffer copy"),
    }
    // The planned creations preserve order: two buffers, then the write.
    let mut saw_write = false;
    for a in &plan.actions {
        if let CreateAction::WriteBuffer { id, offset, data } = a {
            assert_eq!(*id, src.id());
            assert_eq!(*offset, 0);
            assert_eq!(data, &vec![1, 2, 3]);
            saw_write = true;
        }
    }
    assert!(saw_write);
}

#[test]
fn shaders_compare_by_identity_not_source() {
    let mut ctx = Context::new();
    let s1 = Shader::new(None, "same source", &mut ctx);
    let s2 = Shader::new(None, "same source", &mut ctx);
    // Two modules compiled from identical source are distinct shaders.
    assert_ne!(s1.id(), s2.id());
    assert!(s1.entry_point("main") != s2.entry_point("main"));
    assert!(s1.entry_point("main") == s1.entry_point("main"));
    assert!(s1.entry_point("main") != s1.entry_point("other"));
}

#[test]
fn empty_submission_records_nothing_but_ages() {
    let mut ctx = Context::new();
    let encoder = CommandEncoder::new(None);
    let plan = encoder.submit(&mut ctx);
    assert!(plan.commands.is_empty());
    assert!(plan.actions.is_empty());
}
