//! Draw calls: everything one draw needs, as pure data.

use crate::bind_group::{BindGroup, BindGroupView};
use crate::buffer::BufferSlice;
use crate::render_pipeline::{RenderPipeline, RenderPipelineView};
use crate::types::{CompareFunction, Face, FrontFace, PolygonMode};
use vstd::prelude::*;

verus! {

/// The rendering state that is convenient to vary per draw.
#[derive(Clone, Copy, Debug)]
pub struct RasteriserState {
    pub front_face: FrontFace,
    pub cull_mode: Option<Face>,
    pub depth_write: bool,
    pub depth_compare: CompareFunction,
    pub polygon_mode: PolygonMode,
}

impl PartialEq for RasteriserState {
    fn eq(&self, other: &Self) -> (r: bool) {
        self.front_face == other.front_face && self.cull_mode == other.cull_mode
            && self.depth_write == other.depth_write && self.depth_compare == other.depth_compare
            && self.polygon_mode == other.polygon_mode
    }
}

impl vstd::std_specs::cmp::PartialEqSpecImpl for RasteriserState {
    open spec fn obeys_eq_spec() -> bool {
        true
    }

    open spec fn eq_spec(&self, other: &Self) -> bool {
        *self == *other
    }
}

impl Default for RasteriserState {
    /// Counter-clockwise front faces, no culling, depth writes on with a
    /// less-or-equal test, filled polygons.
    fn default() -> (r: Self)
        ensures
            r == (RasteriserState {
                front_face: FrontFace::Ccw,
                cull_mode: None,
                depth_write: true,
                depth_compare: CompareFunction::LessEqual,
                polygon_mode: PolygonMode::Fill,
            }),
    {
        RasteriserState {
            front_face: FrontFace::Ccw,
            cull_mode: None,
            depth_write: true,
            depth_compare: CompareFunction::LessEqual,
            polygon_mode: PolygonMode::Fill,
        }
    }
}

/// The identity of one recorded draw call.
pub ghost struct DrawCallView {
    pub bind_groups: Seq<BindGroupView>,
    pub bind_group_offsets: Seq<Seq<u32>>,
    pub pipeline: RenderPipelineView,
    pub vertices: Seq<BufferSlice>,
    pub indices: Option<BufferSlice>,
    pub element_start: usize,
    pub element_end: usize,
    pub instance_start: usize,
    pub instance_end: usize,
    pub rasteriser_state: RasteriserState,
}

/// All of the data needed to issue a single draw call.  No device object is
/// touched until the owning encoder is submitted.
#[derive(Debug)]
pub struct DrawCall {
    /// The bind groups the draw binds, in slot order.
    pub bind_groups: Vec<BindGroup>,
    /// Per-bind-group dynamic offsets, one list per bind group.
    pub bind_group_offsets: Vec<Vec<u32>>,
    /// The pipeline description resolved at submission time.
    pub pipeline: RenderPipeline,
    /// The vertex buffers, bound in order to slots `0..n`.
    pub vertices: Vec<BufferSlice>,
    /// The index buffer; an unindexed draw leaves it out.
    pub indices: Option<BufferSlice>,
    /// The range of elements to draw.
    pub element_range: core::ops::Range<usize>,
    /// The range of instances to draw; `0..1` disables instancing.
    pub instance_range: core::ops::Range<usize>,
    /// Per-draw rasteriser state.
    pub rasteriser_state: RasteriserState,
}

impl View for DrawCall {
    type V = DrawCallView;

    open spec fn view(&self) -> DrawCallView {
        DrawCallView {
            bind_groups: self.bind_groups@.map_values(|b: BindGroup| b@),
            bind_group_offsets: self.bind_group_offsets@.map_values(|o: Vec<u32>| o@),
            pipeline: self.pipeline@,
            vertices: self.vertices@,
            indices: self.indices,
            element_start: self.element_range.start,
            element_end: self.element_range.end,
            instance_start: self.instance_range.start,
            instance_end: self.instance_range.end,
            rasteriser_state: self.rasteriser_state,
        }
    }
}

/// A recordable draw call: one dynamic-offset list per bind group, slots and
/// ranges within the device's 32-bit limits, and well-formed bind groups.
pub open spec fn draw_call_wf(d: DrawCallView) -> bool {
    &&& d.bind_group_offsets.len() == d.bind_groups.len()
    &&& d.bind_groups.len() <= u32::MAX
    &&& d.vertices.len() <= u32::MAX
    &&& d.element_start <= u32::MAX && d.element_end <= u32::MAX
    &&& d.instance_start <= u32::MAX && d.instance_end <= u32::MAX
    &&& forall|i: int|
        0 <= i < d.bind_groups.len() ==> crate::bind_group::bg_wf(#[trigger] d.bind_groups[i])
}

impl DrawCall {
    /// A recordable draw call.
    pub open spec fn wf(&self) -> bool {
        draw_call_wf(self@)
    }
}

} // verus!
