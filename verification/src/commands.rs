//! The plan a submission produces: object creations and device commands.
//!
//! Everything here is pure data.  The application executes a plan against
//! the real device, creating each planned object under its number and
//! replaying the commands in order; the library never touches the device.

use crate::draw_call::RasteriserState;
use crate::render_pass::{ColorAttachment, DepthStencilAttachment};
use crate::render_pipeline::{ColorTargetState, RenderPipelineView, VertexState, VertexStateView};
use crate::texture::TextureDescriptor;
use crate::types::{
    AddressMode, BindGroupLayoutEntry, BlendState, BufferUsages, ColorWrites, CompareFunction,
    Extent3d, Face, FilterMode, FrontFace, IndexFormat, MultisampleState, PolygonMode,
    TextureFormat,
};
use vstd::prelude::*;

verus! {

/// One resolved resource inside a planned bind group.
#[derive(Clone, Copy, Debug)]
pub enum BoundResource {
    /// A byte range of the identified buffer.
    Buffer { buffer: u128, offset: u64, size: Option<u64> },
    /// The identified planned texture view.
    TextureView(u64),
    /// The identified planned sampler.
    Sampler(u64),
}

/// One resolved entry of a planned bind group.
#[derive(Clone, Copy, Debug)]
pub struct BindGroupEntry {
    pub binding: u32,
    pub resource: BoundResource,
}

/// One resolved color target of a planned render pipeline.
#[derive(Clone, Copy, Debug)]
pub struct ResolvedColorTarget {
    pub format: TextureFormat,
    pub blend: Option<BlendState>,
    pub write_mask: ColorWrites,
}

/// The primitive state of a planned render pipeline.
#[derive(Clone, Copy, Debug)]
pub struct PrimitiveStateDesc {
    pub front_face: FrontFace,
    pub cull_mode: Option<Face>,
    pub polygon_mode: PolygonMode,
}

/// The depth/stencil state of a planned render pipeline.
#[derive(Clone, Copy, Debug)]
pub struct DepthStencilDesc {
    pub format: TextureFormat,
    pub depth_write_enabled: bool,
    pub depth_compare: CompareFunction,
}

/// The identity of a fully resolved render pipeline descriptor.
pub ghost struct RenderPipelineDescView {
    pub label: Option<Seq<char>>,
    pub layout: u64,
    pub vertex: VertexStateView,
    pub fragment_shader: u64,
    pub fragment_entry_point: Seq<char>,
    pub has_fragment: bool,
    pub targets: Seq<Option<ResolvedColorTarget>>,
    pub primitive: PrimitiveStateDesc,
    pub depth_stencil: Option<DepthStencilDesc>,
    pub multisample: MultisampleState,
}

/// A fully resolved render pipeline descriptor: everything the device needs
/// to compile the pipeline, with every referenced object identified by its
/// planned number.
#[derive(Debug)]
pub struct RenderPipelineDesc {
    pub label: Option<String>,
    pub layout: u64,
    pub vertex: VertexState,
    /// The fragment shader and entry-point name, when a fragment stage
    /// exists.
    pub fragment_shader: u64,
    pub fragment_entry_point: String,
    pub has_fragment: bool,
    pub targets: Vec<Option<ResolvedColorTarget>>,
    pub primitive: PrimitiveStateDesc,
    pub depth_stencil: Option<DepthStencilDesc>,
    pub multisample: MultisampleState,
}

impl View for RenderPipelineDesc {
    type V = RenderPipelineDescView;

    open spec fn view(&self) -> RenderPipelineDescView {
        RenderPipelineDescView {
            label: match self.label {
                Some(l) => Some(l@),
                None => None,
            },
            layout: self.layout,
            vertex: self.vertex@,
            fragment_shader: self.fragment_shader,
            fragment_entry_point: self.fragment_entry_point@,
            has_fragment: self.has_fragment,
            targets: self.targets@,
            primitive: self.primitive,
            depth_stencil: self.depth_stencil,
            multisample: self.multisample,
        }
    }
}

/// The color targets a fragment stage resolves to against the attachment
/// formats of the pass it first draws in: one resolved target per position
/// covered by both lists.
pub open spec fn spec_resolved_targets(
    targets: Seq<Option<ColorTargetState>>,
    formats: Seq<TextureFormat>,
) -> Seq<Option<ResolvedColorTarget>> {
    Seq::new(
        if targets.len() <= formats.len() {
            targets.len()
        } else {
            formats.len()
        },
        |i: int|
            match targets[i] {
                Some(t) => Some(
                    ResolvedColorTarget {
                        format: formats[i],
                        blend: t.blend,
                        write_mask: t.write_mask,
                    },
                ),
                None => None,
            },
    )
}

/// The default multisample state a pipeline compiles with when its pass
/// sets none.
pub open spec fn spec_default_multisample() -> MultisampleState {
    MultisampleState { count: 1, mask: 0xffff_ffff_ffff_ffff, alpha_to_coverage_enabled: false }
}

/// The fully resolved descriptor a render pipeline description compiles to,
/// given the resolved layout object and the state of the pass and draw it
/// first appears in.
pub open spec fn spec_resolved_pipeline_desc(
    pipeline: RenderPipelineView,
    layout_id: u64,
    color_formats: Seq<TextureFormat>,
    depth_format: Option<TextureFormat>,
    multisample: Option<MultisampleState>,
    rs: RasteriserState,
) -> RenderPipelineDescView {
    RenderPipelineDescView {
        label: pipeline.label,
        layout: layout_id,
        vertex: pipeline.vertex,
        fragment_shader: match pipeline.fragment {
            Some(f) => f.entry_point.shader,
            None => 0,
        },
        fragment_entry_point: match pipeline.fragment {
            Some(f) => f.entry_point.entry_point,
            None => Seq::empty(),
        },
        has_fragment: pipeline.fragment is Some,
        targets: match pipeline.fragment {
            Some(f) => spec_resolved_targets(f.targets, color_formats),
            None => Seq::empty(),
        },
        primitive: PrimitiveStateDesc {
            front_face: rs.front_face,
            cull_mode: rs.cull_mode,
            polygon_mode: rs.polygon_mode,
        },
        depth_stencil: match depth_format {
            Some(f) => Some(
                DepthStencilDesc {
                    format: f,
                    depth_write_enabled: rs.depth_write,
                    depth_compare: rs.depth_compare,
                },
            ),
            None => None,
        },
        multisample: match multisample {
            Some(m) => m,
            None => spec_default_multisample(),
        },
    }
}

/// The identity of one planned object creation.
pub ghost enum CreateActionView {
    Shader { id: u64, label: Option<Seq<char>>, source: Seq<char> },
    Buffer { id: u128, label: Option<Seq<char>>, usage: BufferUsages, size: u64 },
    BufferInit { id: u128, label: Option<Seq<char>>, usage: BufferUsages, contents: Seq<u8> },
    ReallocBuffer { id: u128, usage: BufferUsages, size: u64 },
    WriteBuffer { id: u128, offset: u64, data: Seq<u8> },
    Texture { id: u128, label: Option<Seq<char>>, desc: TextureDescriptor },
    WriteTexture { id: u128, data: Seq<u8>, bytes_per_row: Option<u32>, size: Extent3d },
    TextureView { id: u64, texture: u128, base_mip_level: u32, mip_level_count: Option<u32> },
    Sampler { id: u64, address_mode: AddressMode, filter: FilterMode, mipmap_filter: FilterMode },
    BindGroupLayout { id: u64, entries: Seq<BindGroupLayoutEntry> },
    BindGroup { id: u64, label: Option<Seq<char>>, layout: u64, entries: Seq<BindGroupEntry> },
    PipelineLayout { id: u64, bind_group_layouts: Seq<u64> },
    RenderPipeline { id: u64, desc: RenderPipelineDescView },
    ComputePipeline {
        id: u64,
        label: Option<Seq<char>>,
        layout: u64,
        shader: u64,
        entry_point: Seq<char>,
    },
}

/// One planned object creation.  The application performs these in order
/// before it replays the frame's commands.
#[derive(Debug)]
pub enum CreateAction {
    Shader { id: u64, label: Option<String>, source: String },
    Buffer { id: u128, label: Option<String>, usage: BufferUsages, size: u64 },
    BufferInit { id: u128, label: Option<String>, usage: BufferUsages, contents: Vec<u8> },
    ReallocBuffer { id: u128, usage: BufferUsages, size: u64 },
    WriteBuffer { id: u128, offset: u64, data: Vec<u8> },
    Texture { id: u128, label: Option<String>, desc: TextureDescriptor },
    WriteTexture { id: u128, data: Vec<u8>, bytes_per_row: Option<u32>, size: Extent3d },
    TextureView { id: u64, texture: u128, base_mip_level: u32, mip_level_count: Option<u32> },
    Sampler { id: u64, address_mode: AddressMode, filter: FilterMode, mipmap_filter: FilterMode },
    BindGroupLayout { id: u64, entries: Vec<BindGroupLayoutEntry> },
    BindGroup { id: u64, label: Option<String>, layout: u64, entries: Vec<BindGroupEntry> },
    PipelineLayout { id: u64, bind_group_layouts: Vec<u64> },
    RenderPipeline { id: u64, desc: RenderPipelineDesc },
    ComputePipeline {
        id: u64,
        label: Option<String>,
        layout: u64,
        shader: u64,
        entry_point: String,
    },
}

impl View for CreateAction {
    type V = CreateActionView;

    open spec fn view(&self) -> CreateActionView {
        match self {
            CreateAction::Shader { id, label, source } => CreateActionView::Shader {
                id: *id,
                label: match label {
                    Some(l) => Some(l@),
                    None => None,
                },
                source: source@,
            },
            CreateAction::Buffer { id, label, usage, size } => CreateActionView::Buffer {
                id: *id,
                label: match label {
                    Some(l) => Some(l@),
                    None => None,
                },
                usage: *usage,
                size: *size,
            },
            CreateAction::BufferInit { id, label, usage, contents } => CreateActionView::BufferInit {
                id: *id,
                label: match label {
                    Some(l) => Some(l@),
                    None => None,
                },
                usage: *usage,
                contents: contents@,
            },
            CreateAction::ReallocBuffer { id, usage, size } => CreateActionView::ReallocBuffer {
                id: *id,
                usage: *usage,
                size: *size,
            },
            CreateAction::WriteBuffer { id, offset, data } => CreateActionView::WriteBuffer {
                id: *id,
                offset: *offset,
                data: data@,
            },
            CreateAction::Texture { id, label, desc } => CreateActionView::Texture {
                id: *id,
                label: match label {
                    Some(l) => Some(l@),
                    None => None,
                },
                desc: *desc,
            },
            CreateAction::WriteTexture { id, data, bytes_per_row, size } => (
            CreateActionView::WriteTexture {
                id: *id,
                data: data@,
                bytes_per_row: *bytes_per_row,
                size: *size,
            }),
            CreateAction::TextureView { id, texture, base_mip_level, mip_level_count } => (
            CreateActionView::TextureView {
                id: *id,
                texture: *texture,
                base_mip_level: *base_mip_level,
                mip_level_count: *mip_level_count,
            }),
            CreateAction::Sampler { id, address_mode, filter, mipmap_filter } => (
            CreateActionView::Sampler {
                id: *id,
                address_mode: *address_mode,
                filter: *filter,
                mipmap_filter: *mipmap_filter,
            }),
            CreateAction::BindGroupLayout { id, entries } => CreateActionView::BindGroupLayout {
                id: *id,
                entries: entries@,
            },
            CreateAction::BindGroup { id, label, layout, entries } => CreateActionView::BindGroup {
                id: *id,
                label: match label {
                    Some(l) => Some(l@),
                    None => None,
                },
                layout: *layout,
                entries: entries@,
            },
            CreateAction::PipelineLayout { id, bind_group_layouts } => (
            CreateActionView::PipelineLayout {
                id: *id,
                bind_group_layouts: bind_group_layouts@,
            }),
            CreateAction::RenderPipeline { id, desc } => CreateActionView::RenderPipeline {
                id: *id,
                desc: desc@,
            },
            CreateAction::ComputePipeline { id, label, layout, shader, entry_point } => (
            CreateActionView::ComputePipeline {
                id: *id,
                label: match label {
                    Some(l) => Some(l@),
                    None => None,
                },
                layout: *layout,
                shader: *shader,
                entry_point: entry_point@,
            }),
        }
    }
}

/// The identity of one recorded device command.
pub ghost enum DeviceCommandView {
    BeginRenderPass {
        label: Option<Seq<char>>,
        color_attachments: Seq<ColorAttachment>,
        depth_stencil_attachment: Option<DepthStencilAttachment>,
    },
    BeginComputePass { label: Option<Seq<char>> },
    SetBindGroup { index: u32, bind_group: u64, offsets: Seq<u32> },
    SetRenderPipeline { pipeline: u64 },
    SetComputePipeline { pipeline: u64 },
    SetVertexBuffer { slot: u32, buffer: u128, start: u64, end: u64 },
    SetIndexBuffer { buffer: u128, start: u64, end: u64, format: IndexFormat },
    Draw { element_start: u32, element_end: u32, instance_start: u32, instance_end: u32 },
    DrawIndexed { element_start: u32, element_end: u32, instance_start: u32, instance_end: u32 },
    DispatchWorkgroups { x: u32, y: u32, z: u32 },
    ClearBuffer { buffer: u128, offset: u64, size: Option<u64> },
    CopyBufferToBuffer {
        source: u128,
        source_offset: u64,
        destination: u128,
        destination_offset: u64,
        size: u64,
    },
}

/// One recorded device command.  The application replays these, in order,
/// into the device's own command encoder, then submits the result.
#[derive(Debug)]
pub enum DeviceCommand {
    BeginRenderPass {
        label: Option<String>,
        color_attachments: Vec<ColorAttachment>,
        depth_stencil_attachment: Option<DepthStencilAttachment>,
    },
    BeginComputePass { label: Option<String> },
    SetBindGroup { index: u32, bind_group: u64, offsets: Vec<u32> },
    SetRenderPipeline { pipeline: u64 },
    SetComputePipeline { pipeline: u64 },
    SetVertexBuffer { slot: u32, buffer: u128, start: u64, end: u64 },
    SetIndexBuffer { buffer: u128, start: u64, end: u64, format: IndexFormat },
    Draw { element_start: u32, element_end: u32, instance_start: u32, instance_end: u32 },
    DrawIndexed { element_start: u32, element_end: u32, instance_start: u32, instance_end: u32 },
    DispatchWorkgroups { x: u32, y: u32, z: u32 },
    ClearBuffer { buffer: u128, offset: u64, size: Option<u64> },
    CopyBufferToBuffer {
        source: u128,
        source_offset: u64,
        destination: u128,
        destination_offset: u64,
        size: u64,
    },
}

impl View for DeviceCommand {
    type V = DeviceCommandView;

    open spec fn view(&self) -> DeviceCommandView {
        match self {
            DeviceCommand::BeginRenderPass { label, color_attachments, depth_stencil_attachment }
                => DeviceCommandView::BeginRenderPass {
                label: match label {
                    Some(l) => Some(l@),
                    None => None,
                },
                color_attachments: color_attachments@,
                depth_stencil_attachment: *depth_stencil_attachment,
            },
            DeviceCommand::BeginComputePass { label } => DeviceCommandView::BeginComputePass {
                label: match label {
                    Some(l) => Some(l@),
                    None => None,
                },
            },
            DeviceCommand::SetBindGroup { index, bind_group, offsets } => (
            DeviceCommandView::SetBindGroup {
                index: *index,
                bind_group: *bind_group,
                offsets: offsets@,
            }),
            DeviceCommand::SetRenderPipeline { pipeline } => DeviceCommandView::SetRenderPipeline {
                pipeline: *pipeline,
            },
            DeviceCommand::SetComputePipeline { pipeline } => (
            DeviceCommandView::SetComputePipeline { pipeline: *pipeline }),
            DeviceCommand::SetVertexBuffer { slot, buffer, start, end } => (
            DeviceCommandView::SetVertexBuffer {
                slot: *slot,
                buffer: *buffer,
                start: *start,
                end: *end,
            }),
            DeviceCommand::SetIndexBuffer { buffer, start, end, format } => (
            DeviceCommandView::SetIndexBuffer {
                buffer: *buffer,
                start: *start,
                end: *end,
                format: *format,
            }),
            DeviceCommand::Draw { element_start, element_end, instance_start, instance_end } => (
            DeviceCommandView::Draw {
                element_start: *element_start,
                element_end: *element_end,
                instance_start: *instance_start,
                instance_end: *instance_end,
            }),
            DeviceCommand::DrawIndexed {
                element_start,
                element_end,
                instance_start,
                instance_end,
            } => DeviceCommandView::DrawIndexed {
                element_start: *element_start,
                element_end: *element_end,
                instance_start: *instance_start,
                instance_end: *instance_end,
            },
            DeviceCommand::DispatchWorkgroups { x, y, z } => (
            DeviceCommandView::DispatchWorkgroups { x: *x, y: *y, z: *z }),
            DeviceCommand::ClearBuffer { buffer, offset, size } => DeviceCommandView::ClearBuffer {
                buffer: *buffer,
                offset: *offset,
                size: *size,
            },
            DeviceCommand::CopyBufferToBuffer {
                source,
                source_offset,
                destination,
                destination_offset,
                size,
            } => DeviceCommandView::CopyBufferToBuffer {
                source: *source,
                source_offset: *source_offset,
                destination: *destination,
                destination_offset: *destination_offset,
                size: *size,
            },
        }
    }
}

} // verus!
