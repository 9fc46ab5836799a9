//! The command encoder: accumulates passes, then turns the frame into a
//! plan in one submission.
//!
//! While an encoder accumulates, nothing touches a cache or plans any
//! device work.  Submission resolves every bind group and pipeline the
//! frame references, records the device commands for every pass in append
//! order — draws and dispatches in push order, never interleaved across
//! passes — drains the pending creations into the plan, and ages every
//! cache by exactly one generation.

use crate::bind_group::BindGroup;
use crate::buffer::Buffer;
use crate::commands::{CreateAction, DeviceCommand, DeviceCommandView};
use crate::compute_pass::ComputePass;
use crate::compute_pipeline::ComputePipelineKeyView;
use crate::context::{caches_monotone, lemma_hot_stable, recording_monotone, Context};
use crate::dispatch::{dispatch_wf, Dispatch, DispatchView};
use crate::draw_call::{draw_call_wf, DrawCall, DrawCallView};
use crate::pipeline_layout::derived_layouts;
use crate::render_pass::{ColorAttachment, DepthStencilAttachment, RenderPass};
use crate::render_pipeline::RenderPipelineKeyView;
use crate::types::{IndexFormat, MultisampleState};
use vstd::prelude::*;

verus! {

/// One recorded unit of GPU work within a submission.
#[derive(Debug)]
pub(crate) enum Pass {
    Render {
        label: Option<String>,
        color_attachments: Vec<ColorAttachment>,
        depth_stencil_attachment: Option<DepthStencilAttachment>,
        multisample: Option<MultisampleState>,
        draw_calls: Vec<DrawCall>,
    },
    Compute(Option<String>, Vec<Dispatch>),
    ClearBuffer(u128, u64, Option<u64>),
    CopyBufferToBuffer {
        source: u128,
        source_offset: usize,
        destination: u128,
        destination_offset: usize,
        size: usize,
    },
}

/// The identity of one recorded pass.
pub ghost enum PassView {
    Render {
        label: Option<Seq<char>>,
        color_attachments: Seq<ColorAttachment>,
        depth_stencil_attachment: Option<DepthStencilAttachment>,
        multisample: Option<MultisampleState>,
        draw_calls: Seq<DrawCallView>,
    },
    Compute(Option<Seq<char>>, Seq<DispatchView>),
    ClearBuffer(u128, u64, Option<u64>),
    CopyBufferToBuffer {
        source: u128,
        source_offset: usize,
        destination: u128,
        destination_offset: usize,
        size: usize,
    },
}

impl View for Pass {
    type V = PassView;

    open(crate) spec fn view(&self) -> PassView {
        match self {
            Pass::Render {
                label,
                color_attachments,
                depth_stencil_attachment,
                multisample,
                draw_calls,
            } => PassView::Render {
                label: match label {
                    Some(l) => Some(l@),
                    None => None,
                },
                color_attachments: color_attachments@,
                depth_stencil_attachment: *depth_stencil_attachment,
                multisample: *multisample,
                draw_calls: draw_calls@.map_values(|d: DrawCall| d@),
            },
            Pass::Compute(label, dispatches) => PassView::Compute(
                match label {
                    Some(l) => Some(l@),
                    None => None,
                },
                dispatches@.map_values(|d: Dispatch| d@),
            ),
            Pass::ClearBuffer(buffer, offset, size) => PassView::ClearBuffer(
                *buffer,
                *offset,
                *size,
            ),
            Pass::CopyBufferToBuffer {
                source,
                source_offset,
                destination,
                destination_offset,
                size,
            } => PassView::CopyBufferToBuffer {
                source: *source,
                source_offset: *source_offset,
                destination: *destination,
                destination_offset: *destination_offset,
                size: *size,
            },
        }
    }
}

/// The pipeline cache key a draw call resolves against: the layouts derived
/// from its bind groups, its pipeline description, and its rasteriser
/// state.
pub open spec fn spec_render_key(d: DrawCallView) -> RenderPipelineKeyView {
    RenderPipelineKeyView {
        layout: derived_layouts(d.bind_groups),
        vertex: d.pipeline.vertex,
        fragment: d.pipeline.fragment,
        rasteriser_state: d.rasteriser_state,
    }
}

/// The pipeline cache key a dispatch resolves against.
pub open spec fn spec_compute_key(d: DispatchView) -> ComputePipelineKeyView {
    ComputePipelineKeyView {
        layout: derived_layouts(d.bind_groups),
        entry_point: d.pipeline.entry_point,
    }
}

/// The bind-group-setting commands of a draw or dispatch, in slot order.
pub open spec fn set_bind_group_cmds(offsets: Seq<Seq<u32>>, bgids: Seq<u64>, n: nat) -> Seq<
    DeviceCommandView,
> {
    Seq::new(
        n,
        |j: int|
            DeviceCommandView::SetBindGroup {
                index: j as u32,
                bind_group: bgids[j],
                offsets: offsets[j],
            },
    )
}

/// The vertex-buffer-setting commands of a draw, in slot order.
pub open spec fn set_vertex_buffer_cmds(d: DrawCallView) -> Seq<DeviceCommandView> {
    Seq::new(
        d.vertices.len(),
        |k: int|
            DeviceCommandView::SetVertexBuffer {
                slot: k as u32,
                buffer: d.vertices[k].buffer,
                start: d.vertices[k].start,
                end: d.vertices[k].end,
            },
    )
}

/// The closing commands of a draw: an indexed or non-indexed draw
/// depending on whether an index slice was supplied.
pub open spec fn draw_tail_cmds(d: DrawCallView) -> Seq<DeviceCommandView> {
    match d.indices {
        Some(ib) => seq![
            DeviceCommandView::SetIndexBuffer {
                buffer: ib.buffer,
                start: ib.start,
                end: ib.end,
                format: IndexFormat::Uint16,
            },
            DeviceCommandView::DrawIndexed {
                element_start: d.element_start as u32,
                element_end: d.element_end as u32,
                instance_start: d.instance_start as u32,
                instance_end: d.instance_end as u32,
            },
        ],
        None => seq![
            DeviceCommandView::Draw {
                element_start: d.element_start as u32,
                element_end: d.element_end as u32,
                instance_start: d.instance_start as u32,
                instance_end: d.instance_end as u32,
            },
        ],
    }
}

/// The commands one draw call records, given the objects its bind groups
/// and pipeline resolved to: bind groups in slot order, then the pipeline,
/// then the vertex buffers in slot order, then an indexed or non-indexed
/// draw depending on whether an index slice was supplied.
pub open spec fn draw_commands_ids(d: DrawCallView, bgids: Seq<u64>, pid: u64) -> Seq<
    DeviceCommandView,
> {
    set_bind_group_cmds(d.bind_group_offsets, bgids, d.bind_groups.len()) + seq![
        DeviceCommandView::SetRenderPipeline { pipeline: pid },
    ] + set_vertex_buffer_cmds(d) + draw_tail_cmds(d)
}

/// The objects a draw call's bind groups resolve to in a context.
pub open spec fn spec_draw_bg_ids(ctx: Context, d: DrawCallView) -> Seq<u64> {
    Seq::new(
        d.bind_groups.len(),
        |j: int| ctx.spec_bind_group_cache().stored_value(d.bind_groups[j]),
    )
}

/// The commands one draw call records against a context.
pub open spec fn draw_commands(ctx: Context, d: DrawCallView) -> Seq<DeviceCommandView> {
    draw_commands_ids(
        d,
        spec_draw_bg_ids(ctx, d),
        ctx.spec_render_pipeline_cache().stored_value(spec_render_key(d)),
    )
}

/// The commands one dispatch records, given its resolved objects: bind
/// groups in slot order, then the pipeline, then the workgroup dispatch.
pub open spec fn dispatch_commands_ids(d: DispatchView, bgids: Seq<u64>, pid: u64) -> Seq<
    DeviceCommandView,
> {
    set_bind_group_cmds(d.bind_group_offsets, bgids, d.bind_groups.len()) + seq![
        DeviceCommandView::SetComputePipeline { pipeline: pid },
        DeviceCommandView::DispatchWorkgroups { x: d.extent.0, y: d.extent.1, z: d.extent.2 },
    ]
}

/// The objects a dispatch's bind groups resolve to in a context.
pub open spec fn spec_dispatch_bg_ids(ctx: Context, d: DispatchView) -> Seq<u64> {
    Seq::new(
        d.bind_groups.len(),
        |j: int| ctx.spec_bind_group_cache().stored_value(d.bind_groups[j]),
    )
}

/// The commands one dispatch records against a context.
pub open spec fn dispatch_commands(ctx: Context, d: DispatchView) -> Seq<DeviceCommandView> {
    dispatch_commands_ids(
        d,
        spec_dispatch_bg_ids(ctx, d),
        ctx.spec_compute_pipeline_cache().stored_value(spec_compute_key(d)),
    )
}

/// The commands of a render pass's draws, in push order.
pub open spec fn draws_commands(ctx: Context, draws: Seq<DrawCallView>) -> Seq<DeviceCommandView> {
    draws.flat_map(|d: DrawCallView| draw_commands(ctx, d))
}

/// The commands of a compute pass's dispatches, in push order.
pub open spec fn dispatches_commands(ctx: Context, ds: Seq<DispatchView>) -> Seq<
    DeviceCommandView,
> {
    ds.flat_map(|d: DispatchView| dispatch_commands(ctx, d))
}

/// The commands one pass records against a context: its begin command (or
/// direct transfer command), then its draws or dispatches in push order.
pub open spec fn pass_commands(ctx: Context, p: PassView) -> Seq<DeviceCommandView> {
    match p {
        PassView::Render {
            label,
            color_attachments,
            depth_stencil_attachment,
            multisample: _multisample,
            draw_calls,
        } => seq![
            DeviceCommandView::BeginRenderPass {
                label,
                color_attachments,
                depth_stencil_attachment,
            },
        ] + draws_commands(ctx, draw_calls),
        PassView::Compute(label, dispatches) => seq![
            DeviceCommandView::BeginComputePass { label },
        ] + dispatches_commands(ctx, dispatches),
        PassView::ClearBuffer(buffer, offset, size) => seq![
            DeviceCommandView::ClearBuffer { buffer, offset, size },
        ],
        PassView::CopyBufferToBuffer {
            source,
            source_offset,
            destination,
            destination_offset,
            size,
        } => seq![
            DeviceCommandView::CopyBufferToBuffer {
                source,
                source_offset: source_offset as u64,
                destination,
                destination_offset: destination_offset as u64,
                size: size as u64,
            },
        ],
    }
}

/// The full command stream of a submission: every pass's commands, in the
/// order the passes were appended.
pub open spec fn plan_commands(ctx: Context, passes: Seq<PassView>) -> Seq<DeviceCommandView> {
    passes.flat_map(|p: PassView| pass_commands(ctx, p))
}

/// Every bind group and the pipeline of a draw are present in the context's
/// caches.
pub open spec fn draw_resolved(ctx: Context, d: DrawCallView) -> bool {
    &&& forall|j: int|
        0 <= j < d.bind_groups.len() ==> ctx.spec_bind_group_cache().contains_key(
            #[trigger] d.bind_groups[j],
        )
    &&& ctx.spec_render_pipeline_cache().contains_key(spec_render_key(d))
}

/// Every bind group and the pipeline of a dispatch are present in the
/// context's caches.
pub open spec fn dispatch_resolved(ctx: Context, d: DispatchView) -> bool {
    &&& forall|j: int|
        0 <= j < d.bind_groups.len() ==> ctx.spec_bind_group_cache().contains_key(
            #[trigger] d.bind_groups[j],
        )
    &&& ctx.spec_compute_pipeline_cache().contains_key(spec_compute_key(d))
}

/// Everything a list of draws references is present in the context's
/// caches.
pub open spec fn draws_resolved(ctx: Context, draws: Seq<DrawCallView>) -> bool {
    forall|i: int| 0 <= i < draws.len() ==> draw_resolved(ctx, #[trigger] draws[i])
}

/// Everything a list of dispatches references is present in the context's
/// caches.
pub open spec fn dispatches_resolved(ctx: Context, ds: Seq<DispatchView>) -> bool {
    forall|i: int| 0 <= i < ds.len() ==> dispatch_resolved(ctx, #[trigger] ds[i])
}

/// Everything a pass references is present in the context's caches.
pub open spec fn pass_resolved(ctx: Context, p: PassView) -> bool {
    match p {
        PassView::Render { draw_calls, .. } => draws_resolved(ctx, draw_calls),
        PassView::Compute(_label, dispatches) => dispatches_resolved(ctx, dispatches),
        PassView::ClearBuffer(..) => true,
        PassView::CopyBufferToBuffer { .. } => true,
    }
}

/// Every draw in a list is recordable.
pub open spec fn draws_wf(draws: Seq<DrawCallView>) -> bool {
    forall|i: int| 0 <= i < draws.len() ==> draw_call_wf(#[trigger] draws[i])
}

/// Every dispatch in a list is recordable.
pub open spec fn dispatches_wf(ds: Seq<DispatchView>) -> bool {
    forall|i: int| 0 <= i < ds.len() ==> dispatch_wf(#[trigger] ds[i])
}

/// Every draw of a render pass is recordable.
pub open spec fn pass_wf(p: PassView) -> bool {
    match p {
        PassView::Render { draw_calls, .. } => draws_wf(draw_calls),
        PassView::Compute(_label, dispatches) => dispatches_wf(dispatches),
        PassView::ClearBuffer(..) => true,
        PassView::CopyBufferToBuffer { .. } => true,
    }
}

/// Everything a draw references is present and was touched in the current
/// generation.
pub open spec fn draw_hot(ctx: Context, d: DrawCallView) -> bool {
    &&& forall|j: int|
        0 <= j < d.bind_groups.len() ==> ctx.spec_bind_group_cache().contains_key(
            #[trigger] d.bind_groups[j],
        ) && ctx.spec_bind_group_cache().stored_age(d.bind_groups[j]) == ctx.spec_generation()
    &&& ctx.spec_render_pipeline_cache().contains_key(spec_render_key(d))
    &&& ctx.spec_render_pipeline_cache().stored_age(spec_render_key(d)) == ctx.spec_generation()
}

/// Everything a dispatch references is present and was touched in the
/// current generation.
pub open spec fn dispatch_hot(ctx: Context, d: DispatchView) -> bool {
    &&& forall|j: int|
        0 <= j < d.bind_groups.len() ==> ctx.spec_bind_group_cache().contains_key(
            #[trigger] d.bind_groups[j],
        ) && ctx.spec_bind_group_cache().stored_age(d.bind_groups[j]) == ctx.spec_generation()
    &&& ctx.spec_compute_pipeline_cache().contains_key(spec_compute_key(d))
    &&& ctx.spec_compute_pipeline_cache().stored_age(spec_compute_key(d)) == ctx.spec_generation()
}

/// Every draw in a list is hot: present, touched in the current
/// generation.
pub open spec fn draws_hot(ctx: Context, draws: Seq<DrawCallView>) -> bool {
    forall|i: int| 0 <= i < draws.len() ==> draw_hot(ctx, #[trigger] draws[i])
}

/// Every dispatch in a list is hot.
pub open spec fn dispatches_hot(ctx: Context, ds: Seq<DispatchView>) -> bool {
    forall|i: int| 0 <= i < ds.len() ==> dispatch_hot(ctx, #[trigger] ds[i])
}

/// Every entry a draw references is still inside the eviction window: it
/// survives the aging step of the next submission.
pub open spec fn draw_retained(ctx: Context, d: DrawCallView) -> bool {
    &&& forall|j: int|
        0 <= j < d.bind_groups.len() ==> ctx.spec_bind_group_cache().contains_key(
            #[trigger] d.bind_groups[j],
        ) && ctx.spec_bind_group_cache().stored_age(d.bind_groups[j])
            + ctx.spec_bind_group_cache().window() > ctx.spec_bind_group_cache().current_generation()
            + 1
    &&& ctx.spec_render_pipeline_cache().contains_key(spec_render_key(d))
    &&& ctx.spec_render_pipeline_cache().stored_age(spec_render_key(d))
        + ctx.spec_render_pipeline_cache().window()
        > ctx.spec_render_pipeline_cache().current_generation() + 1
}

/// Every draw in a list is retained.
pub open spec fn draws_retained(ctx: Context, draws: Seq<DrawCallView>) -> bool {
    forall|i: int| 0 <= i < draws.len() ==> draw_retained(ctx, #[trigger] draws[i])
}

/// Everything a pass references survives the aging step of the next
/// submission.
pub open spec fn pass_retained(ctx: Context, p: PassView) -> bool {
    match p {
        PassView::Render { draw_calls, .. } => draws_retained(ctx, draw_calls),
        PassView::Compute(..) => true,
        PassView::ClearBuffer(..) => true,
        PassView::CopyBufferToBuffer { .. } => true,
    }
}

/// Everything a pass references is present and was touched in the current
/// generation.
pub open spec fn pass_hot(ctx: Context, p: PassView) -> bool {
    match p {
        PassView::Render { draw_calls, .. } => draws_hot(ctx, draw_calls),
        PassView::Compute(_label, dispatches) => dispatches_hot(ctx, dispatches),
        PassView::ClearBuffer(..) => true,
        PassView::CopyBufferToBuffer { .. } => true,
    }
}

/// What a freshly resolved pass records does not change as later
/// resolutions grow the caches within the same generation: present entries
/// keep their objects, and fresh ones stay fresh.
proof fn lemma_pass_commands_stable(c1: Context, c2: Context, p: PassView)
    requires
        caches_monotone(c1, c2),
        c2.wf(),
        c2.spec_generation() == c1.spec_generation(),
        pass_hot(c1, p),
    ensures
        pass_hot(c2, p),
        pass_commands(c2, p) == pass_commands(c1, p),
{
    broadcast use crate::context::lemma_generation_def;

    c2.lemma_wf_parts();
    match p {
        PassView::Render { draw_calls, .. } => {
            assert forall|i: int| 0 <= i < draw_calls.len() implies draw_hot(
                c2,
                #[trigger] draw_calls[i],
            ) && draw_commands(c2, draw_calls[i]) == draw_commands(c1, draw_calls[i]) by {
                let d = draw_calls[i];
                assert(draw_hot(c1, d));
                assert forall|j: int| 0 <= j < d.bind_groups.len() implies c2
                    .spec_bind_group_cache().contains_key(#[trigger] d.bind_groups[j]) && c2
                    .spec_bind_group_cache().stored_value(d.bind_groups[j]) == c1
                    .spec_bind_group_cache().stored_value(d.bind_groups[j]) && c2
                    .spec_bind_group_cache().stored_age(d.bind_groups[j]) == c2
                    .spec_generation() by {
                    lemma_hot_stable(
                        c1.spec_bind_group_cache(),
                        c2.spec_bind_group_cache(),
                        d.bind_groups[j],
                    );
                }
                lemma_hot_stable(
                    c1.spec_render_pipeline_cache(),
                    c2.spec_render_pipeline_cache(),
                    spec_render_key(d),
                );
                assert(spec_draw_bg_ids(c2, d) =~= spec_draw_bg_ids(c1, d));
            }
            assert(draw_calls.map_values(|d: DrawCallView| draw_commands(c2, d))
                =~= draw_calls.map_values(|d: DrawCallView| draw_commands(c1, d)));
        },
        PassView::Compute(_label, dispatches) => {
            assert forall|i: int| 0 <= i < dispatches.len() implies dispatch_hot(
                c2,
                #[trigger] dispatches[i],
            ) && dispatch_commands(c2, dispatches[i]) == dispatch_commands(c1, dispatches[i]) by {
                let d = dispatches[i];
                assert(dispatch_hot(c1, d));
                assert forall|j: int| 0 <= j < d.bind_groups.len() implies c2
                    .spec_bind_group_cache().contains_key(#[trigger] d.bind_groups[j]) && c2
                    .spec_bind_group_cache().stored_value(d.bind_groups[j]) == c1
                    .spec_bind_group_cache().stored_value(d.bind_groups[j]) && c2
                    .spec_bind_group_cache().stored_age(d.bind_groups[j]) == c2
                    .spec_generation() by {
                    lemma_hot_stable(
                        c1.spec_bind_group_cache(),
                        c2.spec_bind_group_cache(),
                        d.bind_groups[j],
                    );
                }
                lemma_hot_stable(
                    c1.spec_compute_pipeline_cache(),
                    c2.spec_compute_pipeline_cache(),
                    spec_compute_key(d),
                );
                assert(spec_dispatch_bg_ids(c2, d) =~= spec_dispatch_bg_ids(c1, d));
            }
            assert(dispatches.map_values(|d: DispatchView| dispatch_commands(c2, d))
                =~= dispatches.map_values(|d: DispatchView| dispatch_commands(c1, d)));
        },
        PassView::ClearBuffer(..) => {},
        PassView::CopyBufferToBuffer { .. } => {},
    }
}

/// A hot pass survives the aging step that ends its submission: every
/// entry it references was touched in the closing generation, so it stays,
/// and what the pass records is unchanged.
proof fn lemma_pass_commands_survive_aging(mid: Context, post: Context, p: PassView)
    requires
        mid.wf(),
        mid.spec_window() >= 2,
        crate::context::context_aged(mid, post),
        pass_hot(mid, p),
    ensures
        pass_resolved(post, p),
        pass_commands(post, p) == pass_commands(mid, p),
{
    broadcast use crate::context::lemma_generation_def;

    mid.lemma_wf_parts();
    match p {
        PassView::Render { draw_calls, .. } => {
            assert forall|i: int| 0 <= i < draw_calls.len() implies draw_resolved(
                post,
                #[trigger] draw_calls[i],
            ) && draw_commands(post, draw_calls[i]) == draw_commands(mid, draw_calls[i]) by {
                let d = draw_calls[i];
                assert(draw_hot(mid, d));
                assert forall|j: int| 0 <= j < d.bind_groups.len() implies post
                    .spec_bind_group_cache().contains_key(#[trigger] d.bind_groups[j]) && post
                    .spec_bind_group_cache().stored_value(d.bind_groups[j]) == mid
                    .spec_bind_group_cache().stored_value(d.bind_groups[j]) by {
                    let kk = d.bind_groups[j];
                    assert(mid.spec_bind_group_cache().contains_key(kk));
                    assert(mid.spec_bind_group_cache().stored_age(kk) == mid.spec_generation());
                    assert(crate::keyed_cache::survives_aging(
                        mid.spec_bind_group_cache().stored_age(kk),
                        mid.spec_bind_group_cache().window(),
                        mid.spec_bind_group_cache().current_generation() + 1,
                    ));
                    assert(post.spec_bind_group_cache().contains_key(kk));
                }
                let rk = spec_render_key(d);
                assert(mid.spec_render_pipeline_cache().contains_key(rk));
                assert(crate::keyed_cache::survives_aging(
                    mid.spec_render_pipeline_cache().stored_age(rk),
                    mid.spec_render_pipeline_cache().window(),
                    mid.spec_render_pipeline_cache().current_generation() + 1,
                ));
                assert(post.spec_render_pipeline_cache().contains_key(rk));
                assert(spec_draw_bg_ids(post, d) =~= spec_draw_bg_ids(mid, d));
            }
            assert(draw_calls.map_values(|d: DrawCallView| draw_commands(post, d))
                =~= draw_calls.map_values(|d: DrawCallView| draw_commands(mid, d)));
        },
        PassView::Compute(_label, dispatches) => {
            assert forall|i: int| 0 <= i < dispatches.len() implies dispatch_resolved(
                post,
                #[trigger] dispatches[i],
            ) && dispatch_commands(post, dispatches[i]) == dispatch_commands(
                mid,
                dispatches[i],
            ) by {
                let d = dispatches[i];
                assert(dispatch_hot(mid, d));
                assert forall|j: int| 0 <= j < d.bind_groups.len() implies post
                    .spec_bind_group_cache().contains_key(#[trigger] d.bind_groups[j]) && post
                    .spec_bind_group_cache().stored_value(d.bind_groups[j]) == mid
                    .spec_bind_group_cache().stored_value(d.bind_groups[j]) by {
                    let kk = d.bind_groups[j];
                    assert(mid.spec_bind_group_cache().contains_key(kk));
                    assert(mid.spec_bind_group_cache().stored_age(kk) == mid.spec_generation());
                    assert(crate::keyed_cache::survives_aging(
                        mid.spec_bind_group_cache().stored_age(kk),
                        mid.spec_bind_group_cache().window(),
                        mid.spec_bind_group_cache().current_generation() + 1,
                    ));
                    assert(post.spec_bind_group_cache().contains_key(kk));
                }
                let ck = spec_compute_key(d);
                assert(mid.spec_compute_pipeline_cache().contains_key(ck));
                assert(crate::keyed_cache::survives_aging(
                    mid.spec_compute_pipeline_cache().stored_age(ck),
                    mid.spec_compute_pipeline_cache().window(),
                    mid.spec_compute_pipeline_cache().current_generation() + 1,
                ));
                assert(post.spec_compute_pipeline_cache().contains_key(ck));
                assert(spec_dispatch_bg_ids(post, d) =~= spec_dispatch_bg_ids(mid, d));
            }
            assert(dispatches.map_values(|d: DispatchView| dispatch_commands(post, d))
                =~= dispatches.map_values(|d: DispatchView| dispatch_commands(mid, d)));
        },
        PassView::ClearBuffer(..) => {},
        PassView::CopyBufferToBuffer { .. } => {},
    }
}

/// The plan a submission hands back: the object creations to perform, then
/// the commands to replay into a device command encoder and submit.
#[derive(Debug)]
pub struct SubmitPlan {
    pub actions: Vec<CreateAction>,
    pub commands: Vec<DeviceCommand>,
}

fn dup_u32_vec(v: &Vec<u32>) -> (r: Vec<u32>)
    ensures
        r@ == v@,
{
    let n = v.len();
    let mut out: Vec<u32> = Vec::new();
    let mut i: usize = 0;
    while i < n
        invariant
            i <= n,
            n == v@.len(),
            out@ == v@.subrange(0, i as int),
        decreases n - i,
    {
        out.push(v[i]);
        proof {
            assert(out@ =~= v@.subrange(0, i + 1));
        }
        i = i + 1;
    }
    proof {
        assert(out@ =~= v@);
    }
    out
}

/// Encodes a series of GPU operations: render passes, compute passes and
/// transfer commands accumulate here, and nothing reaches a cache or the
/// plan until the encoder is submitted — exactly once, by consuming it.
pub struct CommandEncoder {
    pub(crate) label: Option<String>,
    pub(crate) passes: Vec<Pass>,
}

impl CommandEncoder {
    /// The label this encoder was opened with.
    pub closed spec fn spec_label(&self) -> Option<Seq<char>> {
        match self.label {
            Some(l) => Some(l@),
            None => None,
        }
    }

    /// The passes appended so far, in append order.
    pub closed spec fn spec_passes(&self) -> Seq<PassView> {
        self.passes@.map_values(|p: Pass| p@)
    }

    /// Every appended pass is recordable.
    pub open spec fn wf(&self) -> bool {
        forall|i: int|
            0 <= i < self.spec_passes().len() ==> pass_wf(#[trigger] self.spec_passes()[i])
    }

    /// A new encoder with no passes.
    pub fn new(label: Option<&str>) -> (r: Self)
        ensures
            r.spec_passes() == Seq::<PassView>::empty(),
            r.wf(),
            r.spec_label() == (match label {
                Some(l) => Some(l@),
                None => None::<Seq<char>>,
            }),
    {
        let label_owned: Option<String> = match label {
            Some(l) => Some(l.to_owned()),
            None => None,
        };
        let r = CommandEncoder { label: label_owned, passes: Vec::new() };
        proof {
            assert(r.spec_passes() =~= Seq::<PassView>::empty());
        }
        r
    }

    /// Begin a compute pass.  The pass accumulates dispatches and hands
    /// them back to this encoder when it is finished.
    pub fn compute_pass(&self, label: Option<&str>) -> (r: ComputePass)
        ensures
            r.spec_dispatches() == Seq::<DispatchView>::empty(),
            r.spec_label() == (match label {
                Some(l) => Some(l@),
                None => None::<Seq<char>>,
            }),
    {
        ComputePass::new(label)
    }

    /// Begin a render pass over the given attachments.  The pass
    /// accumulates draw calls and hands them back to this encoder when it
    /// is finished.
    pub fn render_pass(
        &self,
        label: Option<&str>,
        color_attachments: Vec<ColorAttachment>,
        depth_stencil_attachment: Option<DepthStencilAttachment>,
        multisample: Option<MultisampleState>,
    ) -> (r: RenderPass)
        ensures
            r.spec_draw_calls() == Seq::<DrawCallView>::empty(),
            r.spec_label() == (match label {
                Some(l) => Some(l@),
                None => None::<Seq<char>>,
            }),
            r.spec_color_attachments() == color_attachments@,
            r.spec_depth_stencil_attachment() == depth_stencil_attachment,
            r.spec_multisample() == multisample,
    {
        RenderPass::new(label, color_attachments, depth_stencil_attachment, multisample)
    }

    /// Append one finished pass.
    pub(crate) fn push_pass(&mut self, p: Pass)
        ensures
            final(self).spec_passes() == old(self).spec_passes().push(p@),
            final(self).spec_label() == old(self).spec_label(),
    {
        let ghost pv = p@;
        self.passes.push(p);
        proof {
            assert(self.spec_passes() =~= old(self).spec_passes().push(pv));
        }
    }

    /// Append a buffer clear.
    pub fn clear_buffer(&mut self, buffer: &Buffer, offset: u64, size: Option<u64>)
        ensures
            final(self).spec_passes() == old(self).spec_passes().push(
                PassView::ClearBuffer(buffer.spec_id(), offset, size),
            ),
            final(self).spec_label() == old(self).spec_label(),
            old(self).wf() ==> final(self).wf(),
    {
        let id = buffer.id();
        self.push_pass(Pass::ClearBuffer(id, offset, size));
    }

    /// Append a buffer-to-buffer copy.
    pub fn copy_buffer_to_buffer(
        &mut self,
        source: &Buffer,
        source_offset: usize,
        destination: &Buffer,
        destination_offset: usize,
        size: usize,
    )
        ensures
            final(self).spec_passes() == old(self).spec_passes().push(
                PassView::CopyBufferToBuffer {
                    source: source.spec_id(),
                    source_offset,
                    destination: destination.spec_id(),
                    destination_offset,
                    size,
                },
            ),
            final(self).spec_label() == old(self).spec_label(),
            old(self).wf() ==> final(self).wf(),
    {
        let source_id = source.id();
        let destination_id = destination.id();
        self.push_pass(
            Pass::CopyBufferToBuffer {
                source: source_id,
                source_offset,
                destination: destination_id,
                destination_offset,
                size,
            },
        );
    }

    /// Consume the encoder and flush the frame: resolve everything every
    /// pass references, record the device commands for the passes in
    /// order, drain the pending creations into the plan, and age every
    /// cache by exactly one generation.
    pub fn submit(self, context: &mut Context) -> (plan: SubmitPlan)
        requires
            self.wf(),
            old(context).wf(),
            old(context).spec_generation() + 1 <= usize::MAX,
        ensures
            final(context).wf(),
            final(context).spec_generation() == old(context).spec_generation() + 1,
            final(context).spec_window() == old(context).spec_window(),
            final(context).spec_actions() == Seq::<crate::commands::CreateActionView>::empty(),
            old(context).spec_actions().is_prefix_of(
                plan.actions@.map_values(|a: CreateAction| a@),
            ),
            forall|i: int|
                0 <= i < self.spec_passes().len() ==> pass_resolved(
                    *final(context),
                    #[trigger] self.spec_passes()[i],
                ),
            forall|i: int|
                0 <= i < self.spec_passes().len() ==> pass_retained(
                    *final(context),
                    #[trigger] self.spec_passes()[i],
                ),
            plan.commands@.map_values(|c: DeviceCommand| c@) == plan_commands(
                *final(context),
                self.spec_passes(),
            ),
            crate::context::caches_retained(*old(context), *final(context)),
    {
        broadcast use crate::context::lemma_generation_def;

        let CommandEncoder { label: _label, passes } = self;
        let ghost passes_view = self.spec_passes();
        let n = passes.len();
        let mut commands: Vec<DeviceCommand> = Vec::new();
        let mut i: usize = 0;
        while i < n
            invariant
                i <= n,
                n == passes@.len(),
                passes_view == passes@.map_values(|p: Pass| p@),
                forall|k: int| 0 <= k < n ==> pass_wf(#[trigger] passes_view[k]),
                context.wf(),
                context.spec_generation() == old(context).spec_generation(),
                context.spec_window() == old(context).spec_window(),
                recording_monotone(*old(context), *context),
                forall|k: int| 0 <= k < i ==> pass_hot(*context, #[trigger] passes_view[k]),
                commands@.map_values(|c: DeviceCommand| c@) == plan_commands(
                    *context,
                    passes_view.take(i as int),
                ),
            decreases n - i,
        {
            let ghost ctx_before = *context;
            let ghost cmds_before = commands@.map_values(|c: DeviceCommand| c@);
            proof {
                assert(passes_view[i as int] == passes@[i as int]@);
            }
            let pass_cmds = record_pass(context, &passes[i]);
            let mut pass_cmds_mut = pass_cmds;
            let ghost pass_cmds_view = pass_cmds_mut@.map_values(|c: DeviceCommand| c@);
            commands.append(&mut pass_cmds_mut);
            proof {
                crate::context::lemma_recording_monotone_trans(
                    *old(context),
                    ctx_before,
                    *context,
                );
                assert forall|k: int| 0 <= k < i + 1 implies pass_hot(
                    *context,
                    #[trigger] passes_view[k],
                ) by {
                    if k < i {
                        lemma_pass_commands_stable(ctx_before, *context, passes_view[k]);
                    }
                }
                assert forall|k: int| 0 <= k < i implies pass_commands(*context, passes_view[k])
                    == pass_commands(ctx_before, passes_view[k]) by {
                    lemma_pass_commands_stable(ctx_before, *context, passes_view[k]);
                }
                assert(plan_commands(*context, passes_view.take(i as int)) =~= plan_commands(
                    ctx_before,
                    passes_view.take(i as int),
                )) by {
                    assert(passes_view.take(i as int).map_values(
                        |p: PassView| pass_commands(*context, p),
                    ) =~= passes_view.take(i as int).map_values(
                        |p: PassView| pass_commands(ctx_before, p),
                    ));
                }
                assert(commands@.map_values(|c: DeviceCommand| c@) =~= cmds_before
                    + pass_cmds_view);
                passes_view.lemma_flat_map_take_append(
                    |p: PassView| pass_commands(*context, p),
                    i as int,
                );
                assert(commands@.map_values(|c: DeviceCommand| c@) =~= plan_commands(
                    *context,
                    passes_view.take(i + 1),
                ));
            }
            i = i + 1;
        }
        proof {
            assert(passes_view.take(n as int) =~= passes_view);
        }
        let ghost resolved_ctx = *context;
        let actions = context.take_actions();
        let ghost drained_ctx = *context;
        proof {
            drained_ctx.lemma_wf_parts();
            assert(caches_monotone(resolved_ctx, drained_ctx));
            assert forall|k: int| 0 <= k < n implies pass_hot(
                drained_ctx,
                #[trigger] passes_view[k],
            ) && pass_commands(drained_ctx, passes_view[k]) == pass_commands(
                resolved_ctx,
                passes_view[k],
            ) by {
                lemma_pass_commands_stable(resolved_ctx, drained_ctx, passes_view[k]);
            }
        }
        context.age_caches();
        proof {
            drained_ctx.lemma_wf_parts();
            assert forall|k: int| 0 <= k < n implies pass_resolved(
                *context,
                #[trigger] passes_view[k],
            ) && pass_commands(*context, passes_view[k]) == pass_commands(
                resolved_ctx,
                passes_view[k],
            ) by {
                lemma_pass_commands_survive_aging(drained_ctx, *context, passes_view[k]);
            }
            context.lemma_wf_parts();
            assert forall|k: int| 0 <= k < n implies pass_retained(
                *context,
                #[trigger] passes_view[k],
            ) by {
                match passes_view[k] {
                    PassView::Render { draw_calls, .. } => {
                        assert(draws_hot(drained_ctx, draw_calls));
                        assert forall|i2: int| 0 <= i2 < draw_calls.len() implies draw_retained(
                            *context,
                            #[trigger] draw_calls[i2],
                        ) by {
                            let d = draw_calls[i2];
                            assert(draw_hot(drained_ctx, d));
                            assert forall|j: int| 0 <= j < d.bind_groups.len() implies context
                                .spec_bind_group_cache().contains_key(
                                #[trigger] d.bind_groups[j],
                            ) && context.spec_bind_group_cache().stored_age(d.bind_groups[j])
                                + context.spec_bind_group_cache().window() > context
                                .spec_bind_group_cache().current_generation() + 1 by {
                                let kk = d.bind_groups[j];
                                assert(drained_ctx.spec_bind_group_cache().stored_age(kk)
                                    == drained_ctx.spec_generation());
                                assert(crate::keyed_cache::survives_aging(
                                    drained_ctx.spec_bind_group_cache().stored_age(kk),
                                    drained_ctx.spec_bind_group_cache().window(),
                                    drained_ctx.spec_bind_group_cache().current_generation() + 1,
                                ));
                                assert(context.spec_bind_group_cache().contains_key(kk));
                            }
                            let rk = spec_render_key(d);
                            assert(drained_ctx.spec_render_pipeline_cache().stored_age(rk)
                                == drained_ctx.spec_generation());
                            assert(crate::keyed_cache::survives_aging(
                                drained_ctx.spec_render_pipeline_cache().stored_age(rk),
                                drained_ctx.spec_render_pipeline_cache().window(),
                                drained_ctx.spec_render_pipeline_cache().current_generation() + 1,
                            ));
                            assert(context.spec_render_pipeline_cache().contains_key(rk));
                        }
                    },
                    PassView::Compute(..) => {},
                    PassView::ClearBuffer(..) => {},
                    PassView::CopyBufferToBuffer { .. } => {},
                }
            }
            assert(plan_commands(*context, passes_view) =~= plan_commands(
                resolved_ctx,
                passes_view,
            )) by {
                assert(passes_view.map_values(|p: PassView| pass_commands(*context, p))
                    =~= passes_view.map_values(|p: PassView| pass_commands(resolved_ctx, p)));
            }
            crate::context::lemma_cache_retained(
                old(context).spec_layout_cache(),
                drained_ctx.spec_layout_cache(),
                context.spec_layout_cache(),
            );
            crate::context::lemma_cache_retained(
                old(context).spec_bind_group_cache(),
                drained_ctx.spec_bind_group_cache(),
                context.spec_bind_group_cache(),
            );
            crate::context::lemma_cache_retained(
                old(context).spec_texture_view_cache(),
                drained_ctx.spec_texture_view_cache(),
                context.spec_texture_view_cache(),
            );
            crate::context::lemma_cache_retained(
                old(context).spec_sampler_cache(),
                drained_ctx.spec_sampler_cache(),
                context.spec_sampler_cache(),
            );
            crate::context::lemma_cache_retained(
                old(context).spec_pipeline_layout_cache(),
                drained_ctx.spec_pipeline_layout_cache(),
                context.spec_pipeline_layout_cache(),
            );
            crate::context::lemma_cache_retained(
                old(context).spec_render_pipeline_cache(),
                drained_ctx.spec_render_pipeline_cache(),
                context.spec_render_pipeline_cache(),
            );
            crate::context::lemma_cache_retained(
                old(context).spec_compute_pipeline_cache(),
                drained_ctx.spec_compute_pipeline_cache(),
                context.spec_compute_pipeline_cache(),
            );
        }
        SubmitPlan { actions, commands }
    }
}

/// Record one pass: resolve everything it references, then emit its
/// commands.
fn record_pass(context: &mut Context, p: &Pass) -> (out: Vec<DeviceCommand>)
    requires
        old(context).wf(),
        pass_wf(p@),
    ensures
        final(context).wf(),
        final(context).spec_generation() == old(context).spec_generation(),
        final(context).spec_window() == old(context).spec_window(),
        recording_monotone(*old(context), *final(context)),
        pass_hot(*final(context), p@),
        out@.map_values(|c: DeviceCommand| c@) == pass_commands(*final(context), p@),
{
    match p {
        Pass::Render {
            label,
            color_attachments,
            depth_stencil_attachment,
            multisample,
            draw_calls,
        } => {
            proof {
                let dvs = draw_calls@.map_values(|d: DrawCall| d@);
                let labelv: Option<Seq<char>> = match label {
                    Some(l) => Some(l@),
                    None => None,
                };
                assert(p@ == (PassView::Render {
                    label: labelv,
                    color_attachments: color_attachments@,
                    depth_stencil_attachment: *depth_stencil_attachment,
                    multisample: *multisample,
                    draw_calls: dvs,
                }));
                assert(pass_wf(
                    PassView::Render {
                        label: labelv,
                        color_attachments: color_attachments@,
                        depth_stencil_attachment: *depth_stencil_attachment,
                        multisample: *multisample,
                        draw_calls: dvs,
                    },
                ));
                assert forall|i2: int|
                    0 <= i2 < draw_calls@.len() implies draw_call_wf(
                    (#[trigger] draw_calls@[i2])@,
                ) by {
                    assert(draw_call_wf(dvs[i2]));
                }
            }
            let out = record_render_pass(
                context,
                label,
                color_attachments,
                depth_stencil_attachment,
                multisample,
                draw_calls,
            );
            proof {
                let dvs = draw_calls@.map_values(|d: DrawCall| d@);
                let labelv: Option<Seq<char>> = match label {
                    Some(l) => Some(l@),
                    None => None,
                };
                assert forall|i2: int| 0 <= i2 < dvs.len() implies draw_hot(
                    *context,
                    #[trigger] dvs[i2],
                ) by {
                    assert(draw_hot(*context, draw_calls@[i2]@));
                }
                assert(pass_hot(
                    *context,
                    PassView::Render {
                        label: labelv,
                        color_attachments: color_attachments@,
                        depth_stencil_attachment: *depth_stencil_attachment,
                        multisample: *multisample,
                        draw_calls: dvs,
                    },
                ));
                assert(p@ == (PassView::Render {
                    label: labelv,
                    color_attachments: color_attachments@,
                    depth_stencil_attachment: *depth_stencil_attachment,
                    multisample: *multisample,
                    draw_calls: dvs,
                }));
                assert(pass_hot(*context, p@));
                assert(out@.map_values(|c: DeviceCommand| c@) =~= pass_commands(
                    *context,
                    PassView::Render {
                        label: labelv,
                        color_attachments: color_attachments@,
                        depth_stencil_attachment: *depth_stencil_attachment,
                        multisample: *multisample,
                        draw_calls: dvs,
                    },
                ));
                assert(out@.map_values(|c: DeviceCommand| c@) =~= pass_commands(*context, p@));
            }
            out
        },
        Pass::Compute(label, dispatches) => {
            proof {
                let dvs = dispatches@.map_values(|d: Dispatch| d@);
                let labelv: Option<Seq<char>> = match label {
                    Some(l) => Some(l@),
                    None => None,
                };
                assert(p@ == PassView::Compute(labelv, dvs));
                assert(pass_wf(PassView::Compute(labelv, dvs)));
                assert forall|i2: int|
                    0 <= i2 < dispatches@.len() implies dispatch_wf(
                    (#[trigger] dispatches@[i2])@,
                ) by {
                    assert(dispatch_wf(dvs[i2]));
                }
            }
            let out = record_compute_pass(context, label, dispatches);
            proof {
                let dvs = dispatches@.map_values(|d: Dispatch| d@);
                let labelv: Option<Seq<char>> = match label {
                    Some(l) => Some(l@),
                    None => None,
                };
                assert forall|i2: int| 0 <= i2 < dvs.len() implies dispatch_hot(
                    *context,
                    #[trigger] dvs[i2],
                ) by {
                    assert(dispatch_hot(*context, dispatches@[i2]@));
                }
                assert(pass_hot(*context, PassView::Compute(labelv, dvs)));
                assert(p@ == PassView::Compute(labelv, dvs));
                assert(pass_hot(*context, p@));
                assert(out@.map_values(|c: DeviceCommand| c@) =~= pass_commands(
                    *context,
                    PassView::Compute(labelv, dvs),
                ));
                assert(out@.map_values(|c: DeviceCommand| c@) =~= pass_commands(*context, p@));
            }
            out
        },
        Pass::ClearBuffer(buffer, offset, size) => {
            let mut out: Vec<DeviceCommand> = Vec::new();
            out.push(DeviceCommand::ClearBuffer { buffer: *buffer, offset: *offset, size: *size });
            proof {
                assert(out@.map_values(|c: DeviceCommand| c@) =~= pass_commands(
                    *final(context),
                    p@,
                ));
            }
            out
        },
        Pass::CopyBufferToBuffer {
            source,
            source_offset,
            destination,
            destination_offset,
            size,
        } => {
            let mut out: Vec<DeviceCommand> = Vec::new();
            out.push(
                DeviceCommand::CopyBufferToBuffer {
                    source: *source,
                    source_offset: *source_offset as u64,
                    destination: *destination,
                    destination_offset: *destination_offset as u64,
                    size: *size as u64,
                },
            );
            proof {
                assert(out@.map_values(|c: DeviceCommand| c@) =~= pass_commands(
                    *final(context),
                    p@,
                ));
            }
            out
        },
    }
}

fn dup_label(label: &Option<String>) -> (r: Option<String>)
    ensures
        (match *label {
            Some(l) => Some(l@),
            None => None::<Seq<char>>,
        }) == (match r {
            Some(l) => Some(l@),
            None => None::<Seq<char>>,
        }),
{
    match label {
        Some(l) => Some(l.clone()),
        None => None,
    }
}

fn dup_attachments(v: &Vec<ColorAttachment>) -> (r: Vec<ColorAttachment>)
    ensures
        r@ == v@,
{
    let n = v.len();
    let mut out: Vec<ColorAttachment> = Vec::new();
    let mut i: usize = 0;
    while i < n
        invariant
            i <= n,
            n == v@.len(),
            out@ == v@.subrange(0, i as int),
        decreases n - i,
    {
        out.push(v[i]);
        proof {
            assert(out@ =~= v@.subrange(0, i + 1));
        }
        i = i + 1;
    }
    proof {
        assert(out@ =~= v@);
    }
    out
}

/// Record one render pass: resolve every draw's bind groups and pipeline,
/// then emit the begin command followed by each draw's commands in push
/// order.
fn record_render_pass(
    context: &mut Context,
    label: &Option<String>,
    color_attachments: &Vec<ColorAttachment>,
    depth_stencil_attachment: &Option<DepthStencilAttachment>,
    multisample: &Option<MultisampleState>,
    draw_calls: &Vec<DrawCall>,
) -> (out: Vec<DeviceCommand>)
    requires
        old(context).wf(),
        forall|i: int|
            0 <= i < draw_calls@.len() ==> draw_call_wf((#[trigger] draw_calls@[i])@),
    ensures
        final(context).wf(),
        final(context).spec_generation() == old(context).spec_generation(),
        final(context).spec_window() == old(context).spec_window(),
        recording_monotone(*old(context), *final(context)),
        forall|i: int|
            0 <= i < draw_calls@.len() ==> draw_hot(*final(context), (#[trigger] draw_calls@[i])@),
        out@.map_values(|c: DeviceCommand| c@) == seq![
            DeviceCommandView::BeginRenderPass {
                label: match *label {
                    Some(l) => Some(l@),
                    None => None,
                },
                color_attachments: color_attachments@,
                depth_stencil_attachment: *depth_stencil_attachment,
            },
        ] + draw_calls@.map_values(|d: DrawCall| d@).flat_map(
            |d: DrawCallView| draw_commands(*final(context), d),
        ),
{
    broadcast use crate::context::lemma_generation_def;

    let ghost draws_view = draw_calls@.map_values(|d: DrawCall| d@);
    let mut color_formats: Vec<crate::types::TextureFormat> = Vec::new();
    let m = color_attachments.len();
    let mut a: usize = 0;
    while a < m
        invariant
            a <= m,
            m == color_attachments@.len(),
            color_formats@.len() == a,
        decreases m - a,
    {
        color_formats.push(color_attachments[a].target.format);
        a = a + 1;
    }
    let depth_format: Option<crate::types::TextureFormat> = match depth_stencil_attachment {
        Some(d) => Some(d.target.format),
        None => None,
    };
    let mut out: Vec<DeviceCommand> = Vec::new();
    out.push(
        DeviceCommand::BeginRenderPass {
            label: dup_label(label),
            color_attachments: dup_attachments(color_attachments),
            depth_stencil_attachment: *depth_stencil_attachment,
        },
    );
    let ghost begin = out@.map_values(|c: DeviceCommand| c@);
    let n = draw_calls.len();
    let mut i: usize = 0;
    while i < n
        invariant
            i <= n,
            n == draw_calls@.len(),
            draws_view == draw_calls@.map_values(|d: DrawCall| d@),
            forall|k: int| 0 <= k < n ==> draw_call_wf(#[trigger] draws_view[k]),
            context.wf(),
            context.spec_generation() == old(context).spec_generation(),
            context.spec_window() == old(context).spec_window(),
            recording_monotone(*old(context), *context),
            forall|k: int| 0 <= k < i ==> draw_hot(*context, #[trigger] draws_view[k]),
            begin.len() == 1,
            out@.map_values(|c: DeviceCommand| c@) == begin + draws_view.take(i as int).flat_map(
                |d: DrawCallView| draw_commands(*context, d),
            ),
        decreases n - i,
    {
        let ghost ctx0 = *context;
        let ghost out0 = out@.map_values(|c: DeviceCommand| c@);
        let d = &draw_calls[i];
        proof {
            assert(draws_view[i as int] == draw_calls@[i as int]@);
        }
        // Resolve the draw's bind groups, in slot order.
        let bn = d.bind_groups.len();
        let mut bg_ids: Vec<u64> = Vec::new();
        let mut j: usize = 0;
        while j < bn
            invariant
                j <= bn,
                bn == d.bind_groups@.len(),
                d@ == draws_view[i as int],
                0 <= i < draws_view.len(),
                draw_call_wf(d@),
                d@.bind_groups == d.bind_groups@.map_values(|b: BindGroup| b@),
                context.wf(),
                context.spec_generation() == ctx0.spec_generation(),
                context.spec_window() == ctx0.spec_window(),
                recording_monotone(ctx0, *context),
                bg_ids@.len() == j,
                forall|k: int|
                    0 <= k < j ==> context.spec_bind_group_cache().contains_key(
                        #[trigger] d@.bind_groups[k],
                    ) && bg_ids@[k] == context.spec_bind_group_cache().stored_value(
                        d@.bind_groups[k],
                    ) && context.spec_bind_group_cache().stored_age(d@.bind_groups[k])
                        == context.spec_generation(),
            decreases bn - j,
        {
            let ghost ctx1 = *context;
            proof {
                assert(d@.bind_groups[j as int] == d.bind_groups@[j as int]@);
                assert(crate::bind_group::bg_wf(d@.bind_groups[j as int]));
            }
            let bid = d.bind_groups[j].get_or_build(context);
            bg_ids.push(bid);
            proof {
                crate::context::lemma_recording_monotone_step_bind_group(
                    ctx1,
                    *context,
                    d@.bind_groups[j as int],
                    bid,
                );
                crate::context::lemma_recording_monotone_trans(ctx0, ctx1, *context);
                ctx1.lemma_wf_parts();
                context.lemma_wf_parts();
                assert forall|k: int|
                    0 <= k < j + 1 implies context.spec_bind_group_cache().contains_key(
                    #[trigger] d@.bind_groups[k],
                ) && bg_ids@[k] == context.spec_bind_group_cache().stored_value(
                    d@.bind_groups[k],
                ) && context.spec_bind_group_cache().stored_age(d@.bind_groups[k])
                    == context.spec_generation() by {
                    if k < j {
                        lemma_hot_stable(
                            ctx1.spec_bind_group_cache(),
                            context.spec_bind_group_cache(),
                            d@.bind_groups[k],
                        );
                    }
                }
            }
            j = j + 1;
        }
        // Resolve the draw's pipeline against the pass and draw state.
        let ghost ctx2 = *context;
        proof {
            assert forall|j3: int|
                0 <= j3 < d.bind_groups@.len() implies (#[trigger] d.bind_groups@[j3]).wf() by {
                assert(d@.bind_groups[j3] == d.bind_groups@[j3]@);
                assert(crate::bind_group::bg_wf(d@.bind_groups[j3]));
            }
        }
        let pid = d.pipeline.get_or_build(
            &color_formats,
            depth_format,
            *multisample,
            &d.rasteriser_state,
            &d.bind_groups,
            context,
        );
        proof {
            crate::context::lemma_recording_monotone_step_render_pipeline(
                ctx2,
                *context,
                d@.pipeline,
                derived_layouts(d.bind_groups@.map_values(|b: BindGroup| b@)),
                color_formats@,
                depth_format,
                *multisample,
                d@.rasteriser_state,
                pid,
            );
            crate::context::lemma_recording_monotone_trans(ctx0, ctx2, *context);
            ctx2.lemma_wf_parts();
            assert(d@.bind_groups =~= d.bind_groups@.map_values(|b: BindGroup| b@));
            assert(derived_layouts(d.bind_groups@.map_values(|b: BindGroup| b@))
                == spec_render_key(d@).layout);
            assert(context.spec_render_pipeline_cache().contains_key(spec_render_key(d@)));
            assert(pid == context.spec_render_pipeline_cache().stored_value(spec_render_key(d@)));
            context.lemma_wf_parts();
            assert forall|k: int|
                0 <= k < bn implies context.spec_bind_group_cache().contains_key(
                #[trigger] d@.bind_groups[k],
            ) && bg_ids@[k] == context.spec_bind_group_cache().stored_value(d@.bind_groups[k])
                && context.spec_bind_group_cache().stored_age(d@.bind_groups[k])
                == context.spec_generation() by {
                lemma_hot_stable(
                    ctx2.spec_bind_group_cache(),
                    context.spec_bind_group_cache(),
                    d@.bind_groups[k],
                );
            }
            assert(bg_ids@ =~= spec_draw_bg_ids(*context, d@));
        }
        // Emit the draw's commands.
        let ghost cmd_base = out@.map_values(|c: DeviceCommand| c@);
        let mut j2: usize = 0;
        while j2 < bn
            invariant
                j2 <= bn,
                bn == d.bind_groups@.len(),
                bn == d@.bind_groups.len(),
                draw_call_wf(d@),
                d@.bind_group_offsets == d.bind_group_offsets@.map_values(|o: Vec<u32>| o@),
                bg_ids@.len() == bn,
                out@.map_values(|c: DeviceCommand| c@) == cmd_base + set_bind_group_cmds(
                    d@.bind_group_offsets,
                    bg_ids@,
                    j2 as nat,
                ),
            decreases bn - j2,
        {
            let ghost outp = out@.map_values(|c: DeviceCommand| c@);
            let offsets = dup_u32_vec(&d.bind_group_offsets[j2]);
            proof {
                assert(d@.bind_group_offsets[j2 as int] == d.bind_group_offsets@[j2 as int]@);
            }
            #[verifier::truncate]
            let idx = j2 as u32;
            out.push(DeviceCommand::SetBindGroup { index: idx, bind_group: bg_ids[j2], offsets });
            proof {
                assert(out@.map_values(|c: DeviceCommand| c@) =~= outp.push(
                    DeviceCommandView::SetBindGroup {
                        index: j2 as u32,
                        bind_group: bg_ids@[j2 as int],
                        offsets: d@.bind_group_offsets[j2 as int],
                    },
                ));
                assert(out@.map_values(|c: DeviceCommand| c@) =~= cmd_base + set_bind_group_cmds(
                    d@.bind_group_offsets,
                    bg_ids@,
                    (j2 + 1) as nat,
                ));
            }
            j2 = j2 + 1;
        }
        out.push(DeviceCommand::SetRenderPipeline { pipeline: pid });
        let vn = d.vertices.len();
        let ghost cmd_after_pipe = out@.map_values(|c: DeviceCommand| c@);
        proof {
            assert(cmd_after_pipe =~= cmd_base + set_bind_group_cmds(
                d@.bind_group_offsets,
                bg_ids@,
                d@.bind_groups.len(),
            ) + seq![DeviceCommandView::SetRenderPipeline { pipeline: pid }]);
        }
        let mut v: usize = 0;
        while v < vn
            invariant
                v <= vn,
                vn == d.vertices@.len(),
                vn == d@.vertices.len(),
                draw_call_wf(d@),
                d@.vertices == d.vertices@,
                out@.map_values(|c: DeviceCommand| c@) == cmd_after_pipe + set_vertex_buffer_cmds(
                    d@,
                ).take(v as int),
            decreases vn - v,
        {
            let ghost outp = out@.map_values(|c: DeviceCommand| c@);
            let slice = d.vertices[v];
            #[verifier::truncate]
            let slot = v as u32;
            out.push(
                DeviceCommand::SetVertexBuffer {
                    slot,
                    buffer: slice.buffer,
                    start: slice.start,
                    end: slice.end,
                },
            );
            proof {
                assert(out@.map_values(|c: DeviceCommand| c@) =~= outp.push(
                    DeviceCommandView::SetVertexBuffer {
                        slot: v as u32,
                        buffer: d@.vertices[v as int].buffer,
                        start: d@.vertices[v as int].start,
                        end: d@.vertices[v as int].end,
                    },
                ));
                assert(out@.map_values(|c: DeviceCommand| c@) =~= cmd_after_pipe
                    + set_vertex_buffer_cmds(d@).take(v + 1));
            }
            v = v + 1;
        }
        proof {
            assert(set_vertex_buffer_cmds(d@).take(vn as int) =~= set_vertex_buffer_cmds(d@));
        }
        let ghost cmd_after_vertices = out@.map_values(|c: DeviceCommand| c@);
        match &d.indices {
            Some(ib) => {
                out.push(
                    DeviceCommand::SetIndexBuffer {
                        buffer: ib.buffer,
                        start: ib.start,
                        end: ib.end,
                        format: IndexFormat::Uint16,
                    },
                );
                #[verifier::truncate]
                let es = d.element_range.start as u32;
                #[verifier::truncate]
                let ee = d.element_range.end as u32;
                #[verifier::truncate]
                let is_ = d.instance_range.start as u32;
                #[verifier::truncate]
                let ie = d.instance_range.end as u32;
                out.push(
                    DeviceCommand::DrawIndexed {
                        element_start: es,
                        element_end: ee,
                        instance_start: is_,
                        instance_end: ie,
                    },
                );
                proof {
                    assert(out@.map_values(|c: DeviceCommand| c@) =~= cmd_after_vertices
                        + draw_tail_cmds(d@));
                    assert(out@.map_values(|c: DeviceCommand| c@) =~= cmd_base
                        + draw_commands_ids(d@, bg_ids@, pid));
                }
            },
            None => {
                #[verifier::truncate]
                let es = d.element_range.start as u32;
                #[verifier::truncate]
                let ee = d.element_range.end as u32;
                #[verifier::truncate]
                let is_ = d.instance_range.start as u32;
                #[verifier::truncate]
                let ie = d.instance_range.end as u32;
                out.push(
                    DeviceCommand::Draw {
                        element_start: es,
                        element_end: ee,
                        instance_start: is_,
                        instance_end: ie,
                    },
                );
                proof {
                    assert(out@.map_values(|c: DeviceCommand| c@) =~= cmd_after_vertices
                        + draw_tail_cmds(d@));
                    assert(out@.map_values(|c: DeviceCommand| c@) =~= cmd_base
                        + draw_commands_ids(d@, bg_ids@, pid));
                }
            },
        }
        proof {
            assert(out@.map_values(|c: DeviceCommand| c@) == cmd_base + draw_commands_ids(
                d@,
                bg_ids@,
                pid,
            ));
            assert(draw_commands_ids(d@, bg_ids@, pid) == draw_commands(*context, d@));
            assert forall|k: int| 0 <= k < i implies draw_hot(
                *context,
                #[trigger] draws_view[k],
            ) && draw_commands(*context, draws_view[k]) == draw_commands(
                ctx0,
                draws_view[k],
            ) by {
                assert(draw_hot(ctx0, draws_view[k]));
                ctx0.lemma_wf_parts();
                context.lemma_wf_parts();
                assert forall|j3: int|
                    0 <= j3 < draws_view[k].bind_groups.len() implies context
                    .spec_bind_group_cache().contains_key(
                    #[trigger] draws_view[k].bind_groups[j3],
                ) && context.spec_bind_group_cache().stored_value(draws_view[k].bind_groups[j3])
                    == ctx0.spec_bind_group_cache().stored_value(draws_view[k].bind_groups[j3])
                    && context.spec_bind_group_cache().stored_age(draws_view[k].bind_groups[j3])
                    == context.spec_generation() by {
                    lemma_hot_stable(
                        ctx0.spec_bind_group_cache(),
                        context.spec_bind_group_cache(),
                        draws_view[k].bind_groups[j3],
                    );
                }
                lemma_hot_stable(
                    ctx0.spec_render_pipeline_cache(),
                    context.spec_render_pipeline_cache(),
                    spec_render_key(draws_view[k]),
                );
                assert(spec_draw_bg_ids(*context, draws_view[k]) =~= spec_draw_bg_ids(
                    ctx0,
                    draws_view[k],
                ));
            }
            assert(draws_view.take(i as int).flat_map(
                |dd: DrawCallView| draw_commands(*context, dd),
            ) =~= draws_view.take(i as int).flat_map(|dd: DrawCallView| draw_commands(ctx0, dd)))
                by {
                assert(draws_view.take(i as int).map_values(
                    |dd: DrawCallView| draw_commands(*context, dd),
                ) =~= draws_view.take(i as int).map_values(
                    |dd: DrawCallView| draw_commands(ctx0, dd),
                ));
            }
            draws_view.lemma_flat_map_take_append(
                |dd: DrawCallView| draw_commands(*context, dd),
                i as int,
            );
            assert(out@.map_values(|c: DeviceCommand| c@) =~= begin + draws_view.take(
                i + 1,
            ).flat_map(|dd: DrawCallView| draw_commands(*context, dd)));
        }
        i = i + 1;
    }
    proof {
        assert(draws_view.take(n as int) =~= draws_view);
        assert forall|i2: int| 0 <= i2 < draw_calls@.len() implies draw_hot(
            *context,
            (#[trigger] draw_calls@[i2])@,
        ) by {
            assert(draw_hot(*context, draws_view[i2]));
        }
    }
    out
}

/// Record one compute pass: resolve every dispatch's bind groups and
/// pipeline, then emit the begin command followed by each dispatch's
/// commands in push order.
fn record_compute_pass(
    context: &mut Context,
    label: &Option<String>,
    dispatches: &Vec<Dispatch>,
) -> (out: Vec<DeviceCommand>)
    requires
        old(context).wf(),
        forall|i: int|
            0 <= i < dispatches@.len() ==> dispatch_wf((#[trigger] dispatches@[i])@),
    ensures
        final(context).wf(),
        final(context).spec_generation() == old(context).spec_generation(),
        final(context).spec_window() == old(context).spec_window(),
        recording_monotone(*old(context), *final(context)),
        forall|i: int|
            0 <= i < dispatches@.len() ==> dispatch_hot(
                *final(context),
                (#[trigger] dispatches@[i])@,
            ),
        out@.map_values(|c: DeviceCommand| c@) == seq![
            DeviceCommandView::BeginComputePass {
                label: match *label {
                    Some(l) => Some(l@),
                    None => None,
                },
            },
        ] + dispatches@.map_values(|d: Dispatch| d@).flat_map(
            |d: DispatchView| dispatch_commands(*final(context), d),
        ),
{
    broadcast use crate::context::lemma_generation_def;

    let ghost dispatches_view = dispatches@.map_values(|d: Dispatch| d@);
    let mut out: Vec<DeviceCommand> = Vec::new();
    out.push(DeviceCommand::BeginComputePass { label: dup_label(label) });
    let ghost begin = out@.map_values(|c: DeviceCommand| c@);
    let n = dispatches.len();
    let mut i: usize = 0;
    while i < n
        invariant
            i <= n,
            n == dispatches@.len(),
            dispatches_view == dispatches@.map_values(|d: Dispatch| d@),
            forall|k: int| 0 <= k < n ==> dispatch_wf(#[trigger] dispatches_view[k]),
            context.wf(),
            context.spec_generation() == old(context).spec_generation(),
            context.spec_window() == old(context).spec_window(),
            recording_monotone(*old(context), *context),
            forall|k: int|
                0 <= k < i ==> dispatch_hot(*context, #[trigger] dispatches_view[k]),
            begin.len() == 1,
            out@.map_values(|c: DeviceCommand| c@) == begin + dispatches_view.take(
                i as int,
            ).flat_map(|d: DispatchView| dispatch_commands(*context, d)),
        decreases n - i,
    {
        let ghost ctx0 = *context;
        let d = &dispatches[i];
        proof {
            assert(dispatches_view[i as int] == dispatches@[i as int]@);
        }
        let bn = d.bind_groups.len();
        let mut bg_ids: Vec<u64> = Vec::new();
        let mut j: usize = 0;
        while j < bn
            invariant
                j <= bn,
                bn == d.bind_groups@.len(),
                d@ == dispatches_view[i as int],
                0 <= i < dispatches_view.len(),
                dispatch_wf(d@),
                d@.bind_groups == d.bind_groups@.map_values(|b: BindGroup| b@),
                context.wf(),
                context.spec_generation() == ctx0.spec_generation(),
                context.spec_window() == ctx0.spec_window(),
                recording_monotone(ctx0, *context),
                bg_ids@.len() == j,
                forall|k: int|
                    0 <= k < j ==> context.spec_bind_group_cache().contains_key(
                        #[trigger] d@.bind_groups[k],
                    ) && bg_ids@[k] == context.spec_bind_group_cache().stored_value(
                        d@.bind_groups[k],
                    ) && context.spec_bind_group_cache().stored_age(d@.bind_groups[k])
                        == context.spec_generation(),
            decreases bn - j,
        {
            let ghost ctx1 = *context;
            proof {
                assert(d@.bind_groups[j as int] == d.bind_groups@[j as int]@);
                assert(crate::bind_group::bg_wf(d@.bind_groups[j as int]));
            }
            let bid = d.bind_groups[j].get_or_build(context);
            bg_ids.push(bid);
            proof {
                crate::context::lemma_recording_monotone_step_bind_group(
                    ctx1,
                    *context,
                    d@.bind_groups[j as int],
                    bid,
                );
                crate::context::lemma_recording_monotone_trans(ctx0, ctx1, *context);
                ctx1.lemma_wf_parts();
                context.lemma_wf_parts();
                assert forall|k: int|
                    0 <= k < j + 1 implies context.spec_bind_group_cache().contains_key(
                    #[trigger] d@.bind_groups[k],
                ) && bg_ids@[k] == context.spec_bind_group_cache().stored_value(
                    d@.bind_groups[k],
                ) && context.spec_bind_group_cache().stored_age(d@.bind_groups[k])
                    == context.spec_generation() by {
                    if k < j {
                        lemma_hot_stable(
                            ctx1.spec_bind_group_cache(),
                            context.spec_bind_group_cache(),
                            d@.bind_groups[k],
                        );
                    }
                }
            }
            j = j + 1;
        }
        let ghost ctx2 = *context;
        proof {
            assert forall|j3: int|
                0 <= j3 < d.bind_groups@.len() implies (#[trigger] d.bind_groups@[j3]).wf() by {
                assert(d@.bind_groups[j3] == d.bind_groups@[j3]@);
                assert(crate::bind_group::bg_wf(d@.bind_groups[j3]));
            }
        }
        let pid = d.pipeline.get_or_build(context, &d.bind_groups);
        proof {
            crate::context::lemma_recording_monotone_step_compute_pipeline(
                ctx2,
                *context,
                d@.pipeline,
                derived_layouts(d.bind_groups@.map_values(|b: BindGroup| b@)),
                pid,
            );
            crate::context::lemma_recording_monotone_trans(ctx0, ctx2, *context);
            ctx2.lemma_wf_parts();
            assert(d@.bind_groups =~= d.bind_groups@.map_values(|b: BindGroup| b@));
            assert(derived_layouts(d.bind_groups@.map_values(|b: BindGroup| b@))
                == spec_compute_key(d@).layout);
            assert(context.spec_compute_pipeline_cache().contains_key(spec_compute_key(d@)));
            context.lemma_wf_parts();
            assert forall|k: int|
                0 <= k < bn implies context.spec_bind_group_cache().contains_key(
                #[trigger] d@.bind_groups[k],
            ) && bg_ids@[k] == context.spec_bind_group_cache().stored_value(d@.bind_groups[k])
                && context.spec_bind_group_cache().stored_age(d@.bind_groups[k])
                == context.spec_generation() by {
                lemma_hot_stable(
                    ctx2.spec_bind_group_cache(),
                    context.spec_bind_group_cache(),
                    d@.bind_groups[k],
                );
            }
            assert(bg_ids@ =~= spec_dispatch_bg_ids(*context, d@));
        }
        let ghost cmd_base = out@.map_values(|c: DeviceCommand| c@);
        let mut j2: usize = 0;
        while j2 < bn
            invariant
                j2 <= bn,
                bn == d.bind_groups@.len(),
                bn == d@.bind_groups.len(),
                dispatch_wf(d@),
                d@.bind_group_offsets == d.bind_group_offsets@.map_values(|o: Vec<u32>| o@),
                bg_ids@.len() == bn,
                out@.map_values(|c: DeviceCommand| c@) == cmd_base + set_bind_group_cmds(
                    d@.bind_group_offsets,
                    bg_ids@,
                    j2 as nat,
                ),
            decreases bn - j2,
        {
            let ghost outp = out@.map_values(|c: DeviceCommand| c@);
            let offsets = dup_u32_vec(&d.bind_group_offsets[j2]);
            proof {
                assert(d@.bind_group_offsets[j2 as int] == d.bind_group_offsets@[j2 as int]@);
            }
            #[verifier::truncate]
            let idx = j2 as u32;
            out.push(DeviceCommand::SetBindGroup { index: idx, bind_group: bg_ids[j2], offsets });
            proof {
                assert(out@.map_values(|c: DeviceCommand| c@) =~= outp.push(
                    DeviceCommandView::SetBindGroup {
                        index: j2 as u32,
                        bind_group: bg_ids@[j2 as int],
                        offsets: d@.bind_group_offsets[j2 as int],
                    },
                ));
                assert(out@.map_values(|c: DeviceCommand| c@) =~= cmd_base + set_bind_group_cmds(
                    d@.bind_group_offsets,
                    bg_ids@,
                    (j2 + 1) as nat,
                ));
            }
            j2 = j2 + 1;
        }
        let ghost cmd_after_sets = out@.map_values(|c: DeviceCommand| c@);
        out.push(DeviceCommand::SetComputePipeline { pipeline: pid });
        let (x, y, z) = d.extent;
        out.push(DeviceCommand::DispatchWorkgroups { x, y, z });
        proof {
            assert(out@.map_values(|c: DeviceCommand| c@) =~= cmd_after_sets.push(
                DeviceCommandView::SetComputePipeline { pipeline: pid },
            ).push(
                DeviceCommandView::DispatchWorkgroups {
                    x: d@.extent.0,
                    y: d@.extent.1,
                    z: d@.extent.2,
                },
            ));
            assert(out@.map_values(|c: DeviceCommand| c@) =~= cmd_base + dispatch_commands_ids(
                d@,
                bg_ids@,
                pid,
            ));
            assert(dispatch_commands_ids(d@, bg_ids@, pid) == dispatch_commands(*context, d@));
            assert forall|k: int| 0 <= k < i implies dispatch_hot(
                *context,
                #[trigger] dispatches_view[k],
            ) && dispatch_commands(*context, dispatches_view[k]) == dispatch_commands(
                ctx0,
                dispatches_view[k],
            ) by {
                assert(dispatch_hot(ctx0, dispatches_view[k]));
                ctx0.lemma_wf_parts();
                context.lemma_wf_parts();
                assert forall|j3: int|
                    0 <= j3 < dispatches_view[k].bind_groups.len() implies context
                    .spec_bind_group_cache().contains_key(
                    #[trigger] dispatches_view[k].bind_groups[j3],
                ) && context.spec_bind_group_cache().stored_value(
                    dispatches_view[k].bind_groups[j3],
                ) == ctx0.spec_bind_group_cache().stored_value(
                    dispatches_view[k].bind_groups[j3],
                ) && context.spec_bind_group_cache().stored_age(
                    dispatches_view[k].bind_groups[j3],
                ) == context.spec_generation() by {
                    lemma_hot_stable(
                        ctx0.spec_bind_group_cache(),
                        context.spec_bind_group_cache(),
                        dispatches_view[k].bind_groups[j3],
                    );
                }
                lemma_hot_stable(
                    ctx0.spec_compute_pipeline_cache(),
                    context.spec_compute_pipeline_cache(),
                    spec_compute_key(dispatches_view[k]),
                );
                assert(spec_dispatch_bg_ids(*context, dispatches_view[k]) =~= spec_dispatch_bg_ids(
                    ctx0,
                    dispatches_view[k],
                ));
            }
            assert(dispatches_view.take(i as int).flat_map(
                |dd: DispatchView| dispatch_commands(*context, dd),
            ) =~= dispatches_view.take(i as int).flat_map(
                |dd: DispatchView| dispatch_commands(ctx0, dd),
            )) by {
                assert(dispatches_view.take(i as int).map_values(
                    |dd: DispatchView| dispatch_commands(*context, dd),
                ) =~= dispatches_view.take(i as int).map_values(
                    |dd: DispatchView| dispatch_commands(ctx0, dd),
                ));
            }
            dispatches_view.lemma_flat_map_take_append(
                |dd: DispatchView| dispatch_commands(*context, dd),
                i as int,
            );
            assert(out@.map_values(|c: DeviceCommand| c@) =~= begin + dispatches_view.take(
                i + 1,
            ).flat_map(|dd: DispatchView| dispatch_commands(*context, dd)));
        }
        i = i + 1;
    }
    proof {
        assert(dispatches_view.take(n as int) =~= dispatches_view);
        assert forall|i2: int| 0 <= i2 < dispatches@.len() implies dispatch_hot(
            *context,
            (#[trigger] dispatches@[i2])@,
        ) by {
            assert(dispatch_hot(*context, dispatches_view[i2]));
        }
    }
    out
}

/// The command stream of a submission splits over its passes: the commands
/// of two pass lists in sequence are the first list's commands followed by
/// the second's.
pub proof fn lemma_plan_commands_concat(ctx: Context, a: Seq<PassView>, b: Seq<PassView>)
    ensures
        plan_commands(ctx, a + b) == plan_commands(ctx, a) + plan_commands(ctx, b),
{
    let f = |p: PassView| pass_commands(ctx, p);
    assert((a + b).map_values(f) =~= a.map_values(f) + b.map_values(f));
    vstd::seq_lib::lemma_flatten_concat(a.map_values(f), b.map_values(f));
}

/// Submission ordering: each pass's commands form one contiguous segment
/// of the submitted stream, the segments standing in the order the passes
/// were appended — the commands of pass `i` come after every command of
/// the passes before it and before every command of the passes after it,
/// never interleaved.
pub proof fn lemma_submission_ordering(ctx: Context, passes: Seq<PassView>, i: int)
    requires
        0 <= i < passes.len(),
    ensures
        plan_commands(ctx, passes) == plan_commands(ctx, passes.take(i)) + pass_commands(
            ctx,
            passes[i],
        ) + plan_commands(ctx, passes.skip(i + 1)),
{
    let f = |p: PassView| pass_commands(ctx, p);
    assert(passes =~= passes.take(i) + seq![passes[i]] + passes.skip(i + 1));
    lemma_plan_commands_concat(ctx, passes.take(i) + seq![passes[i]], passes.skip(i + 1));
    lemma_plan_commands_concat(ctx, passes.take(i), seq![passes[i]]);
    assert(seq![passes[i]].map_values(f) =~= seq![pass_commands(ctx, passes[i])]);
    seq![pass_commands(ctx, passes[i])].lemma_flatten_one_element();
}

/// Draw ordering within a pass: each draw call's commands form one
/// contiguous segment of its pass's stream, the segments standing in push
/// order.
pub proof fn lemma_draw_ordering(ctx: Context, draws: Seq<DrawCallView>, i: int)
    requires
        0 <= i < draws.len(),
    ensures
        draws_commands(ctx, draws) == draws_commands(ctx, draws.take(i)) + draw_commands(
            ctx,
            draws[i],
        ) + draws_commands(ctx, draws.skip(i + 1)),
{
    let f = |d: DrawCallView| draw_commands(ctx, d);
    assert(draws =~= draws.take(i) + seq![draws[i]] + draws.skip(i + 1));
    assert((draws.take(i) + seq![draws[i]] + draws.skip(i + 1)).map_values(f) =~= (draws.take(i)
        + seq![draws[i]]).map_values(f) + draws.skip(i + 1).map_values(f));
    vstd::seq_lib::lemma_flatten_concat(
        (draws.take(i) + seq![draws[i]]).map_values(f),
        draws.skip(i + 1).map_values(f),
    );
    assert((draws.take(i) + seq![draws[i]]).map_values(f) =~= draws.take(i).map_values(f)
        + seq![draws[i]].map_values(f));
    vstd::seq_lib::lemma_flatten_concat(
        draws.take(i).map_values(f),
        seq![draws[i]].map_values(f),
    );
    assert(seq![draws[i]].map_values(f) =~= seq![f(draws[i])]);
    seq![f(draws[i])].lemma_flatten_one_element();
}

/// Pipeline reuse across submissions: a draw whose bind groups and
/// pipeline were resolved by one submission still finds them, bound to the
/// same objects, after the next submission — so a second draw with a
/// value-equal pipeline description against identically-shaped bind groups
/// reuses the one compiled pipeline instead of compiling another.
pub proof fn lemma_pipeline_reuse(c1: Context, c2: Context, d: DrawCallView)
    requires
        crate::context::caches_retained(c1, c2),
        draw_retained(c1, d),
    ensures
        draw_resolved(c2, d),
        c2.spec_render_pipeline_cache().stored_value(spec_render_key(d))
            == c1.spec_render_pipeline_cache().stored_value(spec_render_key(d)),
        draw_commands(c2, d) == draw_commands(c1, d),
{
    assert forall|j: int| 0 <= j < d.bind_groups.len() implies c2
        .spec_bind_group_cache().contains_key(#[trigger] d.bind_groups[j]) && c2
        .spec_bind_group_cache().stored_value(d.bind_groups[j]) == c1
        .spec_bind_group_cache().stored_value(d.bind_groups[j]) by {
        let kk = d.bind_groups[j];
        assert(c1.spec_bind_group_cache().contains_key(kk));
        assert(c1.spec_bind_group_cache().stored_age(kk) + c1.spec_bind_group_cache().window()
            > c1.spec_bind_group_cache().current_generation() + 1);
        assert(c2.spec_bind_group_cache().stored_value(kk) == c1.spec_bind_group_cache()
            .stored_value(kk));
    }
    let rk = spec_render_key(d);
    assert(c1.spec_render_pipeline_cache().contains_key(rk));
    assert(c1.spec_render_pipeline_cache().stored_age(rk) + c1.spec_render_pipeline_cache()
        .window() > c1.spec_render_pipeline_cache().current_generation() + 1);
    assert(c2.spec_render_pipeline_cache().stored_value(rk) == c1.spec_render_pipeline_cache()
        .stored_value(rk));
    assert(spec_draw_bg_ids(c2, d) =~= spec_draw_bg_ids(c1, d));
}

} // verus!
