//! Compute pipeline descriptions and their cache key.

use crate::pipeline_layout::PipelineLayout;
use crate::shader::{EntryPoint, EntryPointView};
use vstd::prelude::*;

verus! {

/// The identity of a compute pipeline description.
pub ghost struct ComputePipelineView {
    pub entry_point: EntryPointView,
    pub label: Option<Seq<char>>,
}

/// A compute pipeline description: a shader entry point.  The pipeline
/// layout is joined in at dispatch time.
#[derive(Debug)]
pub struct ComputePipeline {
    pub(crate) entry_point: EntryPoint,
    pub(crate) label: Option<String>,
}

impl View for ComputePipeline {
    type V = ComputePipelineView;

    closed spec fn view(&self) -> ComputePipelineView {
        ComputePipelineView {
            entry_point: self.entry_point@,
            label: match self.label {
                Some(l) => Some(l@),
                None => None,
            },
        }
    }
}

impl ComputePipeline {
    /// Resolve this description against the bind groups it is dispatched
    /// with: the same entry point dispatched against identically-shaped
    /// bind groups shares one compiled pipeline.
    pub(crate) fn get_or_build(
        &self,
        context: &mut crate::context::Context,
        bind_groups: &Vec<crate::bind_group::BindGroup>,
    ) -> (id: u64)
        requires
            old(context).wf(),
            forall|j: int|
                0 <= j < bind_groups@.len() ==> (#[trigger] bind_groups@[j]).wf(),
        ensures
            final(context).wf(),
            crate::context::compute_pipeline_resolution(
                *old(context),
                *final(context),
                self@,
                crate::pipeline_layout::derived_layouts(
                    bind_groups@.map_values(|b: crate::bind_group::BindGroup| b@),
                ),
                id,
            ),
    {
        context.resolve_compute_pipeline(self, bind_groups)
    }

    /// A copy of the entry point.
    pub(crate) fn entry_point_dup(&self) -> (r: EntryPoint)
        ensures
            r@ == self@.entry_point,
    {
        self.entry_point.duplicate()
    }

    /// A copy of the debug label.
    pub(crate) fn label_dup(&self) -> (r: Option<String>)
        ensures
            self@.label == (match r {
                Some(l) => Some(l@),
                None => None::<Seq<char>>,
            }),
    {
        match &self.label {
            Some(l) => Some(l.clone()),
            None => None,
        }
    }

    /// An identical compute pipeline description.
    pub fn duplicate(&self) -> (r: Self)
        ensures
            r@ == self@,
    {
        let label: Option<String> = match &self.label {
            Some(l) => Some(l.clone()),
            None => None,
        };
        ComputePipeline { entry_point: self.entry_point.duplicate(), label }
    }
}

/// The identity of a compiled compute pipeline: the derived layout plus the
/// entry point.
pub ghost struct ComputePipelineKeyView {
    pub layout: Seq<Seq<crate::types::BindGroupLayoutEntry>>,
    pub entry_point: EntryPointView,
}

/// The compute pipeline cache key.
#[derive(Debug)]
pub struct ComputePipelineCacheKey {
    pub layout: PipelineLayout,
    pub entry_point: EntryPoint,
}

impl View for ComputePipelineCacheKey {
    type V = ComputePipelineKeyView;

    open spec fn view(&self) -> ComputePipelineKeyView {
        ComputePipelineKeyView { layout: self.layout@, entry_point: self.entry_point@ }
    }
}

impl PartialEq for ComputePipelineCacheKey {
    fn eq(&self, other: &Self) -> (r: bool) {
        self.layout == other.layout && self.entry_point == other.entry_point
    }
}

impl vstd::std_specs::cmp::PartialEqSpecImpl for ComputePipelineCacheKey {
    open spec fn obeys_eq_spec() -> bool {
        true
    }

    open spec fn eq_spec(&self, other: &Self) -> bool {
        self@ == other@
    }
}

/// The key type of the compute pipeline cache compares by view equality.
pub broadcast proof fn lemma_compute_pipeline_key_obeys_view_eq()
    ensures
        #[trigger] vstd::laws_eq::obeys_view_eq::<ComputePipelineCacheKey>(),
{
    reveal(vstd::laws_eq::obeys_view_eq);
}

/// Builds a [`ComputePipeline`].
pub struct ComputePipelineBuilder {
    entry_point: EntryPoint,
    label: Option<String>,
}

impl ComputePipelineBuilder {
    /// The entry point set so far.
    pub closed spec fn spec_entry_point(&self) -> EntryPointView {
        self.entry_point@
    }

    /// The debug label set so far.
    pub closed spec fn spec_label(&self) -> Option<Seq<char>> {
        match self.label {
            Some(l) => Some(l@),
            None => None,
        }
    }

    /// Start a builder from a compute entry point.
    pub fn with_entry_point(entry_point: &EntryPoint) -> (r: Self)
        ensures
            r.spec_entry_point() == entry_point@,
            r.spec_label() == Option::<Seq<char>>::None,
    {
        ComputePipelineBuilder { entry_point: entry_point.duplicate(), label: None }
    }

    /// Set the optional debug name.  It may appear in device error messages
    /// and profiler traces.
    pub fn label(self, label: &str) -> (r: Self)
        ensures
            r.spec_label() == Some(label@),
            r.spec_entry_point() == self.spec_entry_point(),
    {
        ComputePipelineBuilder { label: Some(label.to_owned()), ..self }
    }

    /// Consume this builder and return the described [`ComputePipeline`].
    pub fn build(self) -> (r: ComputePipeline)
        ensures
            r@ == (ComputePipelineView {
                entry_point: self.spec_entry_point(),
                label: self.spec_label(),
            }),
    {
        ComputePipeline { entry_point: self.entry_point, label: self.label }
    }
}

} // verus!
