//! Dispatch records: everything one compute operation needs, as pure data.

use crate::bind_group::{BindGroup, BindGroupView};
use crate::compute_pipeline::{ComputePipeline, ComputePipelineView};
use vstd::prelude::*;

verus! {

/// The identity of one recorded dispatch.
pub ghost struct DispatchView {
    pub bind_groups: Seq<BindGroupView>,
    pub bind_group_offsets: Seq<Seq<u32>>,
    pub pipeline: ComputePipelineView,
    pub extent: (u32, u32, u32),
}

/// All of the data needed to issue a single compute operation.  No device
/// object is touched until the owning encoder is submitted.
#[derive(Debug)]
pub struct Dispatch {
    /// The bind groups the dispatch binds, in slot order.
    pub bind_groups: Vec<BindGroup>,
    /// Per-bind-group dynamic offsets, one list per bind group.
    pub bind_group_offsets: Vec<Vec<u32>>,
    /// The pipeline description resolved at submission time.
    pub pipeline: ComputePipeline,
    /// The 3-D workgroup extent to dispatch.
    pub extent: (u32, u32, u32),
}

impl View for Dispatch {
    type V = DispatchView;

    open spec fn view(&self) -> DispatchView {
        DispatchView {
            bind_groups: self.bind_groups@.map_values(|b: BindGroup| b@),
            bind_group_offsets: self.bind_group_offsets@.map_values(|o: Vec<u32>| o@),
            pipeline: self.pipeline@,
            extent: self.extent,
        }
    }
}

/// A recordable dispatch: one dynamic-offset list per bind group, bind
/// group count within the device's 32-bit limits, well-formed bind groups.
pub open spec fn dispatch_wf(d: DispatchView) -> bool {
    &&& d.bind_group_offsets.len() == d.bind_groups.len()
    &&& d.bind_groups.len() <= u32::MAX
    &&& forall|i: int|
        0 <= i < d.bind_groups.len() ==> crate::bind_group::bg_wf(#[trigger] d.bind_groups[i])
}

impl Dispatch {
    /// A recordable dispatch.
    pub open spec fn wf(&self) -> bool {
        dispatch_wf(self@)
    }
}

} // verus!
