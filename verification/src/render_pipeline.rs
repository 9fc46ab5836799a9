//! Render pipeline descriptions and their cache key.
//!
//! A pipeline description is pure data; no device work happens until the
//! first draw that uses it is submitted.  The cache key joins the
//! description with the pipeline layout derived from the draw's bind groups
//! and the per-draw rasteriser state, so value-equal descriptions used
//! against identically-shaped bind groups share one compiled pipeline.

use crate::draw_call::RasteriserState;
use crate::pipeline_layout::PipelineLayout;
use crate::shader::{EntryPoint, EntryPointView};
use crate::types::{BlendState, ColorWrites, VertexAttribute, VertexStepMode};
use vstd::prelude::*;
use vstd::std_specs::cmp::PartialEqSpec;

verus! {

/// The identity of a vertex buffer layout.
pub ghost struct VertexBufferLayoutView {
    pub array_stride: u64,
    pub step_mode: VertexStepMode,
    pub attributes: Seq<VertexAttribute>,
}

/// Describes the layout of one vertex buffer.
#[derive(Clone, Debug)]
pub struct VertexBufferLayout {
    pub array_stride: u64,
    pub step_mode: VertexStepMode,
    pub attributes: Vec<VertexAttribute>,
}

impl View for VertexBufferLayout {
    type V = VertexBufferLayoutView;

    open spec fn view(&self) -> VertexBufferLayoutView {
        VertexBufferLayoutView {
            array_stride: self.array_stride,
            step_mode: self.step_mode,
            attributes: self.attributes@,
        }
    }
}

impl PartialEq for VertexBufferLayout {
    fn eq(&self, other: &Self) -> (r: bool) {
        let attrs_eq = self.attributes == other.attributes;
        proof {
            if attrs_eq {
                assert(self.attributes@ =~= other.attributes@);
            } else {
                if self.attributes@.len() == other.attributes@.len() {
                    let i = choose|i: int|
                        0 <= i < self.attributes@.len() && !self.attributes@[i].eq_spec(
                            &other.attributes@[i],
                        );
                    assert(self@.attributes[i] != other@.attributes[i]);
                } else {
                    assert(self@.attributes.len() != other@.attributes.len());
                }
            }
        }
        self.array_stride == other.array_stride && self.step_mode == other.step_mode && attrs_eq
    }
}

impl vstd::std_specs::cmp::PartialEqSpecImpl for VertexBufferLayout {
    open spec fn obeys_eq_spec() -> bool {
        true
    }

    open spec fn eq_spec(&self, other: &Self) -> bool {
        self@ == other@
    }
}

impl VertexBufferLayout {
    /// An identical vertex buffer layout value.
    pub fn duplicate(&self) -> (r: Self)
        ensures
            r@ == self@,
    {
        let mut attributes: Vec<VertexAttribute> = Vec::new();
        let n = self.attributes.len();
        let mut i: usize = 0;
        while i < n
            invariant
                i <= n,
                n == self.attributes@.len(),
                attributes@ == self.attributes@.subrange(0, i as int),
            decreases n - i,
        {
            attributes.push(self.attributes[i]);
            proof {
                assert(attributes@ =~= self.attributes@.subrange(0, i + 1));
            }
            i = i + 1;
        }
        proof {
            assert(attributes@ =~= self.attributes@);
        }
        VertexBufferLayout {
            array_stride: self.array_stride,
            step_mode: self.step_mode,
            attributes,
        }
    }
}

/// Blend mode and channel mask for one render target.
#[derive(Clone, Copy, Debug)]
pub struct ColorTargetState {
    pub blend: Option<BlendState>,
    pub write_mask: ColorWrites,
}

impl PartialEq for ColorTargetState {
    fn eq(&self, other: &Self) -> (r: bool) {
        self.blend == other.blend && self.write_mask == other.write_mask
    }
}

impl vstd::std_specs::cmp::PartialEqSpecImpl for ColorTargetState {
    open spec fn obeys_eq_spec() -> bool {
        true
    }

    open spec fn eq_spec(&self, other: &Self) -> bool {
        *self == *other
    }
}

impl Default for ColorTargetState {
    /// No blending, all channels written.
    fn default() -> (r: Self)
        ensures
            r == (ColorTargetState { blend: None, write_mask: ColorWrites { bits: 0xf } }),
    {
        ColorTargetState { blend: None, write_mask: ColorWrites { bits: 0xf } }
    }
}

/// The identity of a vertex stage: entry point plus vertex buffer layouts.
pub ghost struct VertexStateView {
    pub entry_point: EntryPointView,
    pub buffers: Seq<VertexBufferLayoutView>,
}

/// The vertex stage of a render pipeline description.
#[derive(Debug)]
pub struct VertexState {
    pub entry_point: EntryPoint,
    pub buffers: Vec<VertexBufferLayout>,
}

impl View for VertexState {
    type V = VertexStateView;

    open spec fn view(&self) -> VertexStateView {
        VertexStateView {
            entry_point: self.entry_point@,
            buffers: self.buffers@.map_values(|b: VertexBufferLayout| b@),
        }
    }
}

impl PartialEq for VertexState {
    fn eq(&self, other: &Self) -> (r: bool) {
        let buffers_eq = self.buffers == other.buffers;
        proof {
            if buffers_eq {
                assert(self@.buffers =~= other@.buffers);
            } else {
                if self.buffers@.len() == other.buffers@.len() {
                    let i = choose|i: int|
                        0 <= i < self.buffers@.len() && !self.buffers@[i].eq_spec(
                            &other.buffers@[i],
                        );
                    assert(self@.buffers[i] != other@.buffers[i]);
                } else {
                    assert(self@.buffers.len() != other@.buffers.len());
                }
            }
        }
        self.entry_point == other.entry_point && buffers_eq
    }
}

impl vstd::std_specs::cmp::PartialEqSpecImpl for VertexState {
    open spec fn obeys_eq_spec() -> bool {
        true
    }

    open spec fn eq_spec(&self, other: &Self) -> bool {
        self@ == other@
    }
}

impl VertexState {
    /// An identical vertex stage value.
    pub fn duplicate(&self) -> (r: Self)
        ensures
            r@ == self@,
    {
        let mut buffers: Vec<VertexBufferLayout> = Vec::new();
        let n = self.buffers.len();
        let mut i: usize = 0;
        while i < n
            invariant
                i <= n,
                n == self.buffers@.len(),
                buffers@.len() == i,
                forall|j: int| 0 <= j < i ==> (#[trigger] buffers@[j])@ == self.buffers@[j]@,
            decreases n - i,
        {
            let b = self.buffers[i].duplicate();
            buffers.push(b);
            i = i + 1;
        }
        proof {
            assert forall|j: int|
                0 <= j < n implies buffers@.map_values(|b: VertexBufferLayout| b@)[j]
                    == self@.buffers[j] by {
                assert(buffers@[j]@ == self.buffers@[j]@);
            }
            assert(buffers@.map_values(|b: VertexBufferLayout| b@) =~= self@.buffers);
        }
        VertexState { entry_point: self.entry_point.duplicate(), buffers }
    }
}

/// The identity of a fragment stage: entry point plus color target states.
pub ghost struct FragmentStateView {
    pub entry_point: EntryPointView,
    pub targets: Seq<Option<ColorTargetState>>,
}

/// The fragment stage of a render pipeline description.
#[derive(Debug)]
pub struct FragmentState {
    pub entry_point: EntryPoint,
    pub targets: Vec<Option<ColorTargetState>>,
}

impl View for FragmentState {
    type V = FragmentStateView;

    open spec fn view(&self) -> FragmentStateView {
        FragmentStateView { entry_point: self.entry_point@, targets: self.targets@ }
    }
}

impl PartialEq for FragmentState {
    fn eq(&self, other: &Self) -> (r: bool) {
        let targets_eq = self.targets == other.targets;
        proof {
            if targets_eq {
                assert forall|i: int| 0 <= i < self.targets@.len() implies self.targets@[i]
                    == other.targets@[i] by {
                    assert(self.targets@[i].eq_spec(&other.targets@[i]));
                }
                assert(self.targets@ =~= other.targets@);
            } else {
                if self.targets@.len() == other.targets@.len() {
                    let i = choose|i: int|
                        0 <= i < self.targets@.len() && !self.targets@[i].eq_spec(
                            &other.targets@[i],
                        );
                    assert(self.targets@[i] != other.targets@[i]);
                } else {
                    assert(self.targets@.len() != other.targets@.len());
                }
            }
        }
        self.entry_point == other.entry_point && targets_eq
    }
}

impl vstd::std_specs::cmp::PartialEqSpecImpl for FragmentState {
    open spec fn obeys_eq_spec() -> bool {
        true
    }

    open spec fn eq_spec(&self, other: &Self) -> bool {
        self@ == other@
    }
}

impl FragmentState {
    /// An identical fragment stage value.
    pub fn duplicate(&self) -> (r: Self)
        ensures
            r@ == self@,
    {
        let mut targets: Vec<Option<ColorTargetState>> = Vec::new();
        let n = self.targets.len();
        let mut i: usize = 0;
        while i < n
            invariant
                i <= n,
                n == self.targets@.len(),
                targets@ == self.targets@.subrange(0, i as int),
            decreases n - i,
        {
            targets.push(self.targets[i]);
            proof {
                assert(targets@ =~= self.targets@.subrange(0, i + 1));
            }
            i = i + 1;
        }
        proof {
            assert(targets@ =~= self.targets@);
        }
        FragmentState { entry_point: self.entry_point.duplicate(), targets }
    }
}

/// The identity of a render pipeline description.
pub ghost struct RenderPipelineView {
    pub vertex: VertexStateView,
    pub fragment: Option<FragmentStateView>,
    pub label: Option<Seq<char>>,
}

/// A render pipeline description: shader entry points, vertex buffer
/// layouts and fragment targets.  Attachment formats, multisampling and
/// rasteriser state are joined in at draw time.
#[derive(Debug)]
pub struct RenderPipeline {
    pub(crate) vertex: VertexState,
    pub(crate) fragment: Option<FragmentState>,
    pub(crate) label: Option<String>,
}

impl View for RenderPipeline {
    type V = RenderPipelineView;

    closed spec fn view(&self) -> RenderPipelineView {
        RenderPipelineView {
            vertex: self.vertex@,
            fragment: match self.fragment {
                Some(f) => Some(f@),
                None => None,
            },
            label: match self.label {
                Some(l) => Some(l@),
                None => None,
            },
        }
    }
}

impl RenderPipeline {
    /// Resolve this description against the pass and draw state it is used
    /// with: value-equal descriptions drawn against identically-shaped bind
    /// groups share one compiled pipeline.
    pub(crate) fn get_or_build(
        &self,
        color_formats: &Vec<crate::types::TextureFormat>,
        depth_format: Option<crate::types::TextureFormat>,
        multisample: Option<crate::types::MultisampleState>,
        rasteriser_state: &RasteriserState,
        bind_groups: &Vec<crate::bind_group::BindGroup>,
        context: &mut crate::context::Context,
    ) -> (id: u64)
        requires
            old(context).wf(),
            forall|j: int|
                0 <= j < bind_groups@.len() ==> (#[trigger] bind_groups@[j]).wf(),
        ensures
            final(context).wf(),
            crate::context::render_pipeline_resolution(
                *old(context),
                *final(context),
                self@,
                crate::pipeline_layout::derived_layouts(
                    bind_groups@.map_values(|b: crate::bind_group::BindGroup| b@),
                ),
                color_formats@,
                depth_format,
                multisample,
                *rasteriser_state,
                id,
            ),
    {
        context.resolve_render_pipeline(
            self,
            color_formats,
            depth_format,
            multisample,
            rasteriser_state,
            bind_groups,
        )
    }

    /// A copy of the vertex stage.
    pub(crate) fn vertex_dup(&self) -> (r: VertexState)
        ensures
            r@ == self@.vertex,
    {
        self.vertex.duplicate()
    }

    /// A copy of the fragment stage.
    pub(crate) fn fragment_dup(&self) -> (r: Option<FragmentState>)
        ensures
            self@.fragment == (match r {
                Some(f) => Some(f@),
                None => None::<FragmentStateView>,
            }),
    {
        match &self.fragment {
            Some(f) => Some(f.duplicate()),
            None => None,
        }
    }

    /// A copy of the debug label.
    pub(crate) fn label_dup(&self) -> (r: Option<String>)
        ensures
            self@.label == (match r {
                Some(l) => Some(l@),
                None => None::<Seq<char>>,
            }),
    {
        match &self.label {
            Some(l) => Some(l.clone()),
            None => None,
        }
    }

    /// An identical render pipeline description.
    pub fn duplicate(&self) -> (r: Self)
        ensures
            r@ == self@,
    {
        let fragment: Option<FragmentState> = match &self.fragment {
            Some(f) => Some(f.duplicate()),
            None => None,
        };
        let label: Option<String> = match &self.label {
            Some(l) => Some(l.clone()),
            None => None,
        };
        RenderPipeline { vertex: self.vertex.duplicate(), fragment, label }
    }
}

/// The identity of a compiled render pipeline: the derived layout, the
/// description, and the rasteriser state.
pub ghost struct RenderPipelineKeyView {
    pub layout: Seq<Seq<crate::types::BindGroupLayoutEntry>>,
    pub vertex: VertexStateView,
    pub fragment: Option<FragmentStateView>,
    pub rasteriser_state: RasteriserState,
}

/// The render pipeline cache key.
#[derive(Debug)]
pub struct RenderPipelineCacheKey {
    pub layout: PipelineLayout,
    pub vertex: VertexState,
    pub fragment: Option<FragmentState>,
    pub rasteriser_state: RasteriserState,
}

impl View for RenderPipelineCacheKey {
    type V = RenderPipelineKeyView;

    open spec fn view(&self) -> RenderPipelineKeyView {
        RenderPipelineKeyView {
            layout: self.layout@,
            vertex: self.vertex@,
            fragment: match self.fragment {
                Some(f) => Some(f@),
                None => None,
            },
            rasteriser_state: self.rasteriser_state,
        }
    }
}

fn opt_fragment_eq(a: &Option<FragmentState>, b: &Option<FragmentState>) -> (r: bool)
    ensures
        r == (match *a {
            Some(x) => Some(x@),
            None => None,
        } == match *b {
            Some(y) => Some(y@),
            None => None,
        }),
{
    match (a, b) {
        (Some(x), Some(y)) => *x == *y,
        (None, None) => true,
        _ => false,
    }
}

impl PartialEq for RenderPipelineCacheKey {
    fn eq(&self, other: &Self) -> (r: bool) {
        let layout_eq = self.layout == other.layout;
        let vertex_eq = self.vertex == other.vertex;
        let fragment_eq = opt_fragment_eq(&self.fragment, &other.fragment);
        let rs_eq = self.rasteriser_state == other.rasteriser_state;
        layout_eq && vertex_eq && fragment_eq && rs_eq
    }
}

impl vstd::std_specs::cmp::PartialEqSpecImpl for RenderPipelineCacheKey {
    open spec fn obeys_eq_spec() -> bool {
        true
    }

    open spec fn eq_spec(&self, other: &Self) -> bool {
        self@ == other@
    }
}

/// The key type of the render pipeline cache compares by view equality.
pub broadcast proof fn lemma_render_pipeline_key_obeys_view_eq()
    ensures
        #[trigger] vstd::laws_eq::obeys_view_eq::<RenderPipelineCacheKey>(),
{
    reveal(vstd::laws_eq::obeys_view_eq);
}

/// Builds a [`RenderPipeline`].
pub struct RenderPipelineBuilder {
    vertex: VertexState,
    fragment: Option<FragmentState>,
    label: Option<String>,
}

impl RenderPipelineBuilder {
    /// The vertex stage set so far.
    pub closed spec fn spec_vertex(&self) -> VertexStateView {
        self.vertex@
    }

    /// The fragment stage set so far.
    pub closed spec fn spec_fragment(&self) -> Option<FragmentStateView> {
        match self.fragment {
            Some(f) => Some(f@),
            None => None,
        }
    }

    /// The debug label set so far.
    pub closed spec fn spec_label(&self) -> Option<Seq<char>> {
        match self.label {
            Some(l) => Some(l@),
            None => None,
        }
    }

    /// Start a builder from a vertex entry point and its buffer layouts.
    pub fn with_vertex(entry_point: &EntryPoint, vertex_buffer_layout: Vec<VertexBufferLayout>)
        -> (r: Self)
        ensures
            r.spec_vertex() == (VertexStateView {
                entry_point: entry_point@,
                buffers: vertex_buffer_layout@.map_values(|b: VertexBufferLayout| b@),
            }),
            r.spec_fragment() == Option::<FragmentStateView>::None,
            r.spec_label() == Option::<Seq<char>>::None,
    {
        RenderPipelineBuilder {
            vertex: VertexState { entry_point: entry_point.duplicate(), buffers: vertex_buffer_layout },
            fragment: None,
            label: None,
        }
    }

    /// Replace the vertex stage.
    pub fn vertex(self, entry_point: &EntryPoint, vertex_buffer_layout: Vec<VertexBufferLayout>)
        -> (r: Self)
        ensures
            r.spec_vertex() == (VertexStateView {
                entry_point: entry_point@,
                buffers: vertex_buffer_layout@.map_values(|b: VertexBufferLayout| b@),
            }),
            r.spec_fragment() == self.spec_fragment(),
            r.spec_label() == self.spec_label(),
    {
        RenderPipelineBuilder {
            vertex: VertexState { entry_point: entry_point.duplicate(), buffers: vertex_buffer_layout },
            ..self
        }
    }

    /// Set the fragment stage.
    pub fn fragment(self, entry_point: &EntryPoint, targets: Vec<Option<ColorTargetState>>) -> (r:
        Self)
        ensures
            r.spec_fragment() == Some(
                FragmentStateView { entry_point: entry_point@, targets: targets@ },
            ),
            r.spec_vertex() == self.spec_vertex(),
            r.spec_label() == self.spec_label(),
    {
        RenderPipelineBuilder {
            fragment: Some(FragmentState { entry_point: entry_point.duplicate(), targets }),
            ..self
        }
    }

    /// Remove the fragment stage.
    pub fn no_fragment(self) -> (r: Self)
        ensures
            r.spec_fragment() == Option::<FragmentStateView>::None,
            r.spec_vertex() == self.spec_vertex(),
            r.spec_label() == self.spec_label(),
    {
        RenderPipelineBuilder { fragment: None, ..self }
    }

    /// Set the optional debug name.  It may appear in device error messages
    /// and profiler traces.
    pub fn label(self, label: &str) -> (r: Self)
        ensures
            r.spec_label() == Some(label@),
            r.spec_vertex() == self.spec_vertex(),
            r.spec_fragment() == self.spec_fragment(),
    {
        RenderPipelineBuilder { label: Some(label.to_owned()), ..self }
    }

    /// Consume this builder and return the described [`RenderPipeline`].
    pub fn build(self) -> (r: RenderPipeline)
        ensures
            r@ == (RenderPipelineView {
                vertex: self.spec_vertex(),
                fragment: self.spec_fragment(),
                label: self.spec_label(),
            }),
    {
        RenderPipeline { vertex: self.vertex, fragment: self.fragment, label: self.label }
    }
}

} // verus!
