//! Pipeline layouts: the ordered bind-group layouts a pipeline binds.
//!
//! A pipeline layout is derived fresh per draw or dispatch from the bind
//! groups actually used, and resolved through its own cache, so unrelated
//! draws against identically-shaped bind groups share one device object.

use crate::bind_group::{spec_layout_of, BindGroupLayout, BindGroupView};
use crate::types::BindGroupLayoutEntry;
use vstd::prelude::*;
use vstd::std_specs::cmp::PartialEqSpec;

verus! {

/// The pipeline layout shape implied by a list of bind groups: each bind
/// group's derived layout, in order.
pub open spec fn derived_layouts(bgs: Seq<BindGroupView>) -> Seq<Seq<BindGroupLayoutEntry>> {
    bgs.map_values(|bg: BindGroupView| spec_layout_of(bg))
}

/// The ordered list of bind-group layouts a pipeline is compatible with.
#[derive(Debug)]
pub struct PipelineLayout {
    pub bind_group_layouts: Vec<BindGroupLayout>,
}

impl View for PipelineLayout {
    type V = Seq<Seq<BindGroupLayoutEntry>>;

    open spec fn view(&self) -> Seq<Seq<BindGroupLayoutEntry>> {
        self.bind_group_layouts@.map_values(|l: BindGroupLayout| l@)
    }
}

impl PartialEq for PipelineLayout {
    fn eq(&self, other: &Self) -> (r: bool) {
        let r = self.bind_group_layouts == other.bind_group_layouts;
        proof {
            if r {
                assert(self@ =~= other@);
            } else {
                if self.bind_group_layouts@.len() == other.bind_group_layouts@.len() {
                    let i = choose|i: int|
                        0 <= i < self.bind_group_layouts@.len()
                            && !self.bind_group_layouts@[i].eq_spec(&other.bind_group_layouts@[i]);
                    assert(self@[i] != other@[i]);
                } else {
                    assert(self@.len() != other@.len());
                }
            }
        }
        r
    }
}

impl vstd::std_specs::cmp::PartialEqSpecImpl for PipelineLayout {
    open spec fn obeys_eq_spec() -> bool {
        true
    }

    open spec fn eq_spec(&self, other: &Self) -> bool {
        self@ == other@
    }
}

/// The key type of the pipeline layout cache compares by view equality.
pub broadcast proof fn lemma_pipeline_layout_obeys_view_eq()
    ensures
        #[trigger] vstd::laws_eq::obeys_view_eq::<PipelineLayout>(),
{
    reveal(vstd::laws_eq::obeys_view_eq);
}

impl PipelineLayout {
    /// Resolve this pipeline layout through its cache: the same shape
    /// always yields the same device object, and a miss resolves every
    /// member bind-group layout first.
    pub fn get_or_build(self, context: &mut crate::context::Context) -> (id: u64)
        requires
            old(context).wf(),
        ensures
            final(context).wf(),
            crate::context::pipeline_layout_resolution(*old(context), *final(context), self@, id),
    {
        context.resolve_pipeline_layout(self)
    }

    /// An identical pipeline layout value.
    pub fn duplicate(&self) -> (r: Self)
        ensures
            r@ == self@,
    {
        let mut out: Vec<BindGroupLayout> = Vec::new();
        let n = self.bind_group_layouts.len();
        let mut i: usize = 0;
        while i < n
            invariant
                i <= n,
                n == self.bind_group_layouts@.len(),
                out@.len() == i,
                forall|j: int|
                    0 <= j < i ==> (#[trigger] out@[j])@ == self.bind_group_layouts@[j]@,
            decreases n - i,
        {
            let l = self.bind_group_layouts[i].duplicate();
            out.push(l);
            i = i + 1;
        }
        proof {
            assert forall|j: int| 0 <= j < n implies out@.map_values(|l: BindGroupLayout| l@)[j]
                == self@[j] by {
                assert(out@[j]@ == self.bind_group_layouts@[j]@);
            }
            assert(out@.map_values(|l: BindGroupLayout| l@) =~= self@);
        }
        PipelineLayout { bind_group_layouts: out }
    }
}

} // verus!
