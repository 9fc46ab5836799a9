use crate::bind_group::{
    spec_layout_of, BindGroup, BindGroupLayout, BindGroupView, BindingResource,
    BindingResourceView, BindingView,
};
use crate::commands::{
    spec_resolved_pipeline_desc, spec_resolved_targets, BindGroupEntry, BoundResource,
    CreateAction, CreateActionView, DepthStencilDesc, PrimitiveStateDesc, RenderPipelineDesc,
    ResolvedColorTarget,
};
use crate::draw_call::RasteriserState;
use crate::types::{MultisampleState, TextureFormat};
use crate::compute_pipeline::{ComputePipeline, ComputePipelineCacheKey, ComputePipelineKeyView};
use crate::keyed_cache::KeyedCache;
use crate::pipeline_layout::{derived_layouts, PipelineLayout};
use crate::render_pipeline::{
    ColorTargetState, RenderPipeline, RenderPipelineCacheKey, RenderPipelineKeyView,
};
use crate::sampler::Sampler;
use crate::texture::{Texture, TextureKey};
use vstd::prelude::*;

verus! {

pub(crate) struct Caches {
    pub bind_group_layout_cache: KeyedCache<BindGroupLayout, u64>,
    pub bind_group_cache: KeyedCache<BindGroup, u64>,
    pub texture_view_cache: KeyedCache<Texture, u64>,
    pub sampler_cache: KeyedCache<Sampler, u64>,
    pub pipeline_layout_cache: KeyedCache<PipelineLayout, u64>,
    pub render_pipeline_cache: KeyedCache<RenderPipelineCacheKey, u64>,
    pub compute_pipeline_cache: KeyedCache<ComputePipelineCacheKey, u64>,
}

/// A cache is left value-monotone by a resolution step: nothing present is
/// lost, no stored object changes, and no entry gets older.
pub open spec fn cache_monotone<K: View>(
    pre: KeyedCache<K, u64>,
    post: KeyedCache<K, u64>,
) -> bool {
    &&& post.current_generation() == pre.current_generation()
    &&& post.window() == pre.window()
    &&& forall|k: K::V|
        #[trigger] pre.contains_key(k) ==> post.contains_key(k) && post.stored_value(k)
            == pre.stored_value(k) && post.stored_age(k) >= pre.stored_age(k)
}

/// A resolution of `k` against a cache: the key is now present and fresh,
/// the result is its stored object, a key already present keeps its object,
/// and every other entry is untouched.
pub open spec fn resolved_in_cache<K: View>(
    pre: KeyedCache<K, u64>,
    post: KeyedCache<K, u64>,
    k: K::V,
    id: u64,
) -> bool {
    &&& cache_monotone(pre, post)
    &&& post.contains_key(k)
    &&& post.stored_value(k) == id
    &&& post.stored_age(k) == post.current_generation()
    &&& pre.contains_key(k) ==> id == pre.stored_value(k)
    &&& forall|k2: K::V| #[trigger] post.contains_key(k2) ==> pre.contains_key(k2) || k2 == k
}

/// Owns the caches, the planned-object counter and the pending creation
/// log.
pub struct Context {
    pub(crate) caches: Caches,
    pub(crate) next_id: u64,
    pub(crate) actions: Vec<crate::commands::CreateAction>,
}

/// What resolving a texture view guarantees, in the same shape as
/// [`sampler_resolution`].
pub open spec fn texture_view_resolution(pre: Context, post: Context, t: TextureKey, id: u64) -> bool {
    &&& resolved_in_cache(pre.spec_texture_view_cache(), post.spec_texture_view_cache(), t, id)
    &&& post.spec_layout_cache() == pre.spec_layout_cache()
    &&& post.spec_bind_group_cache() == pre.spec_bind_group_cache()
    &&& post.spec_sampler_cache() == pre.spec_sampler_cache()
    &&& post.spec_pipeline_layout_cache() == pre.spec_pipeline_layout_cache()
    &&& post.spec_render_pipeline_cache() == pre.spec_render_pipeline_cache()
    &&& post.spec_compute_pipeline_cache() == pre.spec_compute_pipeline_cache()
    &&& post.spec_next_id() >= pre.spec_next_id()
    &&& pre.spec_texture_view_cache().contains_key(t) ==> post.spec_actions()
        == pre.spec_actions()
    &&& !pre.spec_texture_view_cache().contains_key(t) ==> post.spec_actions()
        == pre.spec_actions().push(
        CreateActionView::TextureView {
            id,
            texture: t.id,
            base_mip_level: t.base_mip_level,
            mip_level_count: t.mip_level_count,
        },
    )
}

/// What resolving a bind group layout guarantees, in the same shape as
/// [`sampler_resolution`].
pub open spec fn bind_group_layout_resolution(
    pre: Context,
    post: Context,
    l: Seq<crate::types::BindGroupLayoutEntry>,
    id: u64,
) -> bool {
    &&& resolved_in_cache(pre.spec_layout_cache(), post.spec_layout_cache(), l, id)
    &&& post.spec_bind_group_cache() == pre.spec_bind_group_cache()
    &&& post.spec_texture_view_cache() == pre.spec_texture_view_cache()
    &&& post.spec_sampler_cache() == pre.spec_sampler_cache()
    &&& post.spec_pipeline_layout_cache() == pre.spec_pipeline_layout_cache()
    &&& post.spec_render_pipeline_cache() == pre.spec_render_pipeline_cache()
    &&& post.spec_compute_pipeline_cache() == pre.spec_compute_pipeline_cache()
    &&& post.spec_next_id() >= pre.spec_next_id()
    &&& pre.spec_layout_cache().contains_key(l) ==> post.spec_actions() == pre.spec_actions()
    &&& !pre.spec_layout_cache().contains_key(l) ==> post.spec_actions()
        == pre.spec_actions().push(CreateActionView::BindGroupLayout { id, entries: l })
}

/// What resolving a pipeline layout guarantees: the pipeline layout cache
/// maps its shape to the returned object, member bind-group layouts were
/// resolved along the way (leaving the layout cache value-monotone), and on
/// a miss the last planned creation is this pipeline layout over its
/// members' objects.
pub open spec fn pipeline_layout_resolution(
    pre: Context,
    post: Context,
    pl: Seq<Seq<crate::types::BindGroupLayoutEntry>>,
    id: u64,
) -> bool {
    &&& resolved_in_cache(pre.spec_pipeline_layout_cache(), post.spec_pipeline_layout_cache(), pl, id)
    &&& cache_monotone(pre.spec_layout_cache(), post.spec_layout_cache())
    &&& post.spec_bind_group_cache() == pre.spec_bind_group_cache()
    &&& post.spec_texture_view_cache() == pre.spec_texture_view_cache()
    &&& post.spec_sampler_cache() == pre.spec_sampler_cache()
    &&& post.spec_render_pipeline_cache() == pre.spec_render_pipeline_cache()
    &&& post.spec_compute_pipeline_cache() == pre.spec_compute_pipeline_cache()
    &&& post.spec_next_id() >= pre.spec_next_id()
    &&& pre.spec_actions().is_prefix_of(post.spec_actions())
    &&& pre.spec_pipeline_layout_cache().contains_key(pl) ==> post.spec_actions()
        == pre.spec_actions()
    &&& !pre.spec_pipeline_layout_cache().contains_key(pl) ==> {
        &&& post.spec_actions().len() > 0
        &&& forall|j: int|
            0 <= j < pl.len() ==> post.spec_layout_cache().contains_key(#[trigger] pl[j])
        &&& post.spec_actions().last() == (CreateActionView::PipelineLayout {
            id,
            bind_group_layouts: Seq::new(
                pl.len(),
                |j: int| post.spec_layout_cache().stored_value(pl[j]),
            ),
        })
    }
}

/// What resolving a bind group guarantees: the bind group cache maps its
/// value to the returned object; its layout, every referenced texture view
/// and every referenced sampler were resolved along the way (leaving those
/// caches value-monotone); and on a miss the last planned creation is this
/// bind group over the resolved objects.
pub open spec fn bind_group_resolution(
    pre: Context,
    post: Context,
    bg: BindGroupView,
    id: u64,
) -> bool {
    &&& resolved_in_cache(pre.spec_bind_group_cache(), post.spec_bind_group_cache(), bg, id)
    &&& cache_monotone(pre.spec_layout_cache(), post.spec_layout_cache())
    &&& cache_monotone(pre.spec_texture_view_cache(), post.spec_texture_view_cache())
    &&& cache_monotone(pre.spec_sampler_cache(), post.spec_sampler_cache())
    &&& post.spec_pipeline_layout_cache() == pre.spec_pipeline_layout_cache()
    &&& post.spec_render_pipeline_cache() == pre.spec_render_pipeline_cache()
    &&& post.spec_compute_pipeline_cache() == pre.spec_compute_pipeline_cache()
    &&& post.spec_next_id() >= pre.spec_next_id()
    &&& pre.spec_actions().is_prefix_of(post.spec_actions())
    &&& pre.spec_bind_group_cache().contains_key(bg) ==> post.spec_actions()
        == pre.spec_actions()
    &&& !pre.spec_bind_group_cache().contains_key(bg) ==> {
        &&& post.spec_actions().len() > 0
        &&& post.spec_layout_cache().contains_key(spec_layout_of(bg))
        &&& resources_resolved(
            post.spec_texture_view_cache(),
            post.spec_sampler_cache(),
            bg.bindings,
        )
        &&& post.spec_actions().last() == (CreateActionView::BindGroup {
            id,
            label: bg.name,
            layout: post.spec_layout_cache().stored_value(spec_layout_of(bg)),
            entries: bg.bindings.map_values(
                |b: BindingView|
                    spec_bind_group_entry(
                        post.spec_texture_view_cache(),
                        post.spec_sampler_cache(),
                        b,
                    ),
            ),
        })
    }
}

/// What resolving a compute pipeline guarantees: the compute pipeline cache
/// maps the derived layout shape and entry point to the returned object;
/// the pipeline layout was resolved along the way; and on a miss the last
/// planned creation is the compilation of this pipeline.
pub open spec fn compute_pipeline_resolution(
    pre: Context,
    post: Context,
    pipeline: crate::compute_pipeline::ComputePipelineView,
    layouts: Seq<Seq<crate::types::BindGroupLayoutEntry>>,
    id: u64,
) -> bool {
    &&& resolved_in_cache(
        pre.spec_compute_pipeline_cache(),
        post.spec_compute_pipeline_cache(),
        ComputePipelineKeyView { layout: layouts, entry_point: pipeline.entry_point },
        id,
    )
    &&& cache_monotone(pre.spec_layout_cache(), post.spec_layout_cache())
    &&& cache_monotone(pre.spec_pipeline_layout_cache(), post.spec_pipeline_layout_cache())
    &&& post.spec_bind_group_cache() == pre.spec_bind_group_cache()
    &&& post.spec_texture_view_cache() == pre.spec_texture_view_cache()
    &&& post.spec_sampler_cache() == pre.spec_sampler_cache()
    &&& post.spec_render_pipeline_cache() == pre.spec_render_pipeline_cache()
    &&& post.spec_next_id() >= pre.spec_next_id()
    &&& pre.spec_actions().is_prefix_of(post.spec_actions())
    &&& pre.spec_compute_pipeline_cache().contains_key(
        ComputePipelineKeyView { layout: layouts, entry_point: pipeline.entry_point },
    ) ==> post.spec_actions() == pre.spec_actions()
    &&& !pre.spec_compute_pipeline_cache().contains_key(
        ComputePipelineKeyView { layout: layouts, entry_point: pipeline.entry_point },
    ) ==> {
        &&& post.spec_actions().len() > 0
        &&& post.spec_pipeline_layout_cache().contains_key(layouts)
        &&& post.spec_actions().last() == (CreateActionView::ComputePipeline {
            id,
            label: pipeline.label,
            layout: post.spec_pipeline_layout_cache().stored_value(layouts),
            shader: pipeline.entry_point.shader,
            entry_point: pipeline.entry_point.entry_point,
        })
    }
}

/// What resolving a render pipeline guarantees, in the same shape as
/// [`compute_pipeline_resolution`], keyed additionally on the rasteriser
/// state and carrying the fully resolved descriptor in its planned
/// creation.
pub open spec fn render_pipeline_resolution(
    pre: Context,
    post: Context,
    pipeline: crate::render_pipeline::RenderPipelineView,
    layouts: Seq<Seq<crate::types::BindGroupLayoutEntry>>,
    color_formats: Seq<TextureFormat>,
    depth_format: Option<TextureFormat>,
    multisample: Option<MultisampleState>,
    rs: RasteriserState,
    id: u64,
) -> bool {
    &&& resolved_in_cache(
        pre.spec_render_pipeline_cache(),
        post.spec_render_pipeline_cache(),
        RenderPipelineKeyView {
            layout: layouts,
            vertex: pipeline.vertex,
            fragment: pipeline.fragment,
            rasteriser_state: rs,
        },
        id,
    )
    &&& cache_monotone(pre.spec_layout_cache(), post.spec_layout_cache())
    &&& cache_monotone(pre.spec_pipeline_layout_cache(), post.spec_pipeline_layout_cache())
    &&& post.spec_bind_group_cache() == pre.spec_bind_group_cache()
    &&& post.spec_texture_view_cache() == pre.spec_texture_view_cache()
    &&& post.spec_sampler_cache() == pre.spec_sampler_cache()
    &&& post.spec_compute_pipeline_cache() == pre.spec_compute_pipeline_cache()
    &&& post.spec_next_id() >= pre.spec_next_id()
    &&& pre.spec_actions().is_prefix_of(post.spec_actions())
    &&& pre.spec_render_pipeline_cache().contains_key(
        RenderPipelineKeyView {
            layout: layouts,
            vertex: pipeline.vertex,
            fragment: pipeline.fragment,
            rasteriser_state: rs,
        },
    ) ==> post.spec_actions() == pre.spec_actions()
    &&& !pre.spec_render_pipeline_cache().contains_key(
        RenderPipelineKeyView {
            layout: layouts,
            vertex: pipeline.vertex,
            fragment: pipeline.fragment,
            rasteriser_state: rs,
        },
    ) ==> {
        &&& post.spec_actions().len() > 0
        &&& post.spec_pipeline_layout_cache().contains_key(layouts)
        &&& post.spec_actions().last() == (CreateActionView::RenderPipeline {
            id,
            desc: spec_resolved_pipeline_desc(
                pipeline,
                post.spec_pipeline_layout_cache().stored_value(layouts),
                color_formats,
                depth_format,
                multisample,
                rs,
            ),
        })
    }
}

/// The context's caches, generation and window are untouched.
pub open spec fn context_unchanged(pre: Context, post: Context) -> bool {
    &&& post.wf() == pre.wf()
    &&& post.spec_generation() == pre.spec_generation()
    &&& post.spec_window() == pre.spec_window()
    &&& post.spec_layout_cache() == pre.spec_layout_cache()
    &&& post.spec_bind_group_cache() == pre.spec_bind_group_cache()
    &&& post.spec_texture_view_cache() == pre.spec_texture_view_cache()
    &&& post.spec_sampler_cache() == pre.spec_sampler_cache()
    &&& post.spec_pipeline_layout_cache() == pre.spec_pipeline_layout_cache()
    &&& post.spec_render_pipeline_cache() == pre.spec_render_pipeline_cache()
    &&& post.spec_compute_pipeline_cache() == pre.spec_compute_pipeline_cache()
}

/// What resolving a sampler against the context guarantees: the sampler
/// cache maps it to the returned object, every other cache is untouched,
/// and on a miss exactly the creation of this sampler was planned.
pub open spec fn sampler_resolution(pre: Context, post: Context, s: Sampler, id: u64) -> bool {
    &&& resolved_in_cache(pre.spec_sampler_cache(), post.spec_sampler_cache(), s, id)
    &&& post.spec_layout_cache() == pre.spec_layout_cache()
    &&& post.spec_bind_group_cache() == pre.spec_bind_group_cache()
    &&& post.spec_texture_view_cache() == pre.spec_texture_view_cache()
    &&& post.spec_pipeline_layout_cache() == pre.spec_pipeline_layout_cache()
    &&& post.spec_render_pipeline_cache() == pre.spec_render_pipeline_cache()
    &&& post.spec_compute_pipeline_cache() == pre.spec_compute_pipeline_cache()
    &&& post.spec_next_id() >= pre.spec_next_id()
    &&& pre.spec_sampler_cache().contains_key(s) ==> post.spec_actions() == pre.spec_actions()
    &&& !pre.spec_sampler_cache().contains_key(s) ==> post.spec_actions()
        == pre.spec_actions().push(
        CreateActionView::Sampler {
            id,
            address_mode: s.spec_address_mode(),
            filter: s.spec_filter(),
            mipmap_filter: s.spec_mipmap_filter(),
        },
    )
}

impl Context {
    /// The bind group layout cache.
    pub closed spec fn spec_layout_cache(&self) -> KeyedCache<BindGroupLayout, u64> {
        self.caches.bind_group_layout_cache
    }

    /// The bind group cache.
    pub closed spec fn spec_bind_group_cache(&self) -> KeyedCache<BindGroup, u64> {
        self.caches.bind_group_cache
    }

    /// The texture view cache.
    pub closed spec fn spec_texture_view_cache(&self) -> KeyedCache<Texture, u64> {
        self.caches.texture_view_cache
    }

    /// The sampler cache.
    pub closed spec fn spec_sampler_cache(&self) -> KeyedCache<Sampler, u64> {
        self.caches.sampler_cache
    }

    /// The pipeline layout cache.
    pub closed spec fn spec_pipeline_layout_cache(&self) -> KeyedCache<PipelineLayout, u64> {
        self.caches.pipeline_layout_cache
    }

    /// The render pipeline cache.
    pub closed spec fn spec_render_pipeline_cache(&self) -> KeyedCache<RenderPipelineCacheKey, u64> {
        self.caches.render_pipeline_cache
    }

    /// The compute pipeline cache.
    pub closed spec fn spec_compute_pipeline_cache(&self) -> KeyedCache<
        ComputePipelineCacheKey,
        u64,
    > {
        self.caches.compute_pipeline_cache
    }

    /// The number the next planned object will receive.
    pub closed spec fn spec_next_id(&self) -> u64 {
        self.next_id
    }

    /// The pending object creations, oldest first.
    pub closed spec fn spec_actions(&self) -> Seq<crate::commands::CreateActionView> {
        self.actions@.map_values(|a: crate::commands::CreateAction| a@)
    }

    /// The current generation, advanced once per submission.
    pub closed spec fn spec_generation(&self) -> nat {
        self.caches.sampler_cache.current_generation()
    }

    /// The shared eviction window of the caches.
    pub closed spec fn spec_window(&self) -> nat {
        self.caches.sampler_cache.window()
    }

    /// All caches are internally consistent, share one generation and one
    /// eviction window of at least three generations.
    pub closed spec fn wf(&self) -> bool {
        &&& self.caches.bind_group_layout_cache.wf()
        &&& self.caches.bind_group_cache.wf()
        &&& self.caches.texture_view_cache.wf()
        &&& self.caches.sampler_cache.wf()
        &&& self.caches.pipeline_layout_cache.wf()
        &&& self.caches.render_pipeline_cache.wf()
        &&& self.caches.compute_pipeline_cache.wf()
        &&& self.caches.bind_group_layout_cache.current_generation()
            == self.caches.sampler_cache.current_generation()
        &&& self.caches.bind_group_cache.current_generation()
            == self.caches.sampler_cache.current_generation()
        &&& self.caches.texture_view_cache.current_generation()
            == self.caches.sampler_cache.current_generation()
        &&& self.caches.pipeline_layout_cache.current_generation()
            == self.caches.sampler_cache.current_generation()
        &&& self.caches.render_pipeline_cache.current_generation()
            == self.caches.sampler_cache.current_generation()
        &&& self.caches.compute_pipeline_cache.current_generation()
            == self.caches.sampler_cache.current_generation()
        &&& self.caches.bind_group_layout_cache.window() == self.caches.sampler_cache.window()
        &&& self.caches.bind_group_cache.window() == self.caches.sampler_cache.window()
        &&& self.caches.texture_view_cache.window() == self.caches.sampler_cache.window()
        &&& self.caches.pipeline_layout_cache.window() == self.caches.sampler_cache.window()
        &&& self.caches.render_pipeline_cache.window() == self.caches.sampler_cache.window()
        &&& self.caches.compute_pipeline_cache.window() == self.caches.sampler_cache.window()
        &&& self.caches.sampler_cache.window() >= 3
    }

    /// What well-formedness guarantees, stated over the public observers:
    /// every cache is well formed, all share one generation and one
    /// eviction window, and that window spans at least two generations.
    pub proof fn lemma_wf_parts(&self)
        requires
            self.wf(),
        ensures
            self.spec_layout_cache().wf(),
            self.spec_bind_group_cache().wf(),
            self.spec_texture_view_cache().wf(),
            self.spec_sampler_cache().wf(),
            self.spec_pipeline_layout_cache().wf(),
            self.spec_render_pipeline_cache().wf(),
            self.spec_compute_pipeline_cache().wf(),
            self.spec_layout_cache().current_generation() == self.spec_generation(),
            self.spec_sampler_cache().current_generation() == self.spec_generation(),
            self.spec_bind_group_cache().current_generation() == self.spec_generation(),
            self.spec_texture_view_cache().current_generation() == self.spec_generation(),
            self.spec_sampler_cache().current_generation() == self.spec_generation(),
            self.spec_pipeline_layout_cache().current_generation() == self.spec_generation(),
            self.spec_render_pipeline_cache().current_generation() == self.spec_generation(),
            self.spec_compute_pipeline_cache().current_generation() == self.spec_generation(),
            self.spec_layout_cache().window() == self.spec_window(),
            self.spec_bind_group_cache().window() == self.spec_window(),
            self.spec_texture_view_cache().window() == self.spec_window(),
            self.spec_sampler_cache().window() == self.spec_window(),
            self.spec_pipeline_layout_cache().window() == self.spec_window(),
            self.spec_render_pipeline_cache().window() == self.spec_window(),
            self.spec_compute_pipeline_cache().window() == self.spec_window(),
            self.spec_window() >= 3,
    {
    }
    /// A fresh context: empty caches at generation zero, no pending
    /// creations, and object numbers starting at one.
    pub fn new() -> (r: Self)
        ensures
            r.wf(),
            r.spec_generation() == 0,
            r.spec_actions() == Seq::<CreateActionView>::empty(),
            forall|k: BindGroupView| !r.spec_bind_group_cache().contains_key(k),
            forall|k: Seq<crate::types::BindGroupLayoutEntry>| !r.spec_layout_cache().contains_key(
                k,
            ),
            forall|k: TextureKey| !r.spec_texture_view_cache().contains_key(k),
            forall|k: Sampler| !r.spec_sampler_cache().contains_key(k),
            forall|k: Seq<Seq<crate::types::BindGroupLayoutEntry>>|
                !r.spec_pipeline_layout_cache().contains_key(k),
            forall|k: crate::render_pipeline::RenderPipelineKeyView|
                !r.spec_render_pipeline_cache().contains_key(k),
            forall|k: crate::compute_pipeline::ComputePipelineKeyView|
                !r.spec_compute_pipeline_cache().contains_key(k),
    {
        Context {
            caches: Caches {
                bind_group_layout_cache: KeyedCache::new(),
                bind_group_cache: KeyedCache::new(),
                texture_view_cache: KeyedCache::new(),
                sampler_cache: KeyedCache::new(),
                pipeline_layout_cache: KeyedCache::new(),
                render_pipeline_cache: KeyedCache::new(),
                compute_pipeline_cache: KeyedCache::new(),
            },
            next_id: 1,
            actions: Vec::new(),
        }
    }

    /// Assign the next planned-object number.
    pub(crate) fn alloc_id(&mut self) -> (id: u64)
        ensures
            id == old(self).spec_next_id(),
            final(self).spec_next_id() >= old(self).spec_next_id(),
            final(self).caches == old(self).caches,
            final(self).spec_actions() == old(self).spec_actions(),
            final(self).actions == old(self).actions,
            final(self).wf() == old(self).wf(),
            final(self).spec_generation() == old(self).spec_generation(),
            final(self).spec_window() == old(self).spec_window(),
            final(self).spec_layout_cache() == old(self).spec_layout_cache(),
            final(self).spec_bind_group_cache() == old(self).spec_bind_group_cache(),
            final(self).spec_texture_view_cache() == old(self).spec_texture_view_cache(),
            final(self).spec_sampler_cache() == old(self).spec_sampler_cache(),
            final(self).spec_pipeline_layout_cache() == old(self).spec_pipeline_layout_cache(),
            final(self).spec_render_pipeline_cache() == old(self).spec_render_pipeline_cache(),
            final(self).spec_compute_pipeline_cache() == old(self).spec_compute_pipeline_cache(),
    {
        let id = self.next_id;
        if self.next_id < u64::MAX {
            self.next_id = self.next_id + 1;
        }
        id
    }

    /// Append a planned creation.
    pub(crate) fn push_action(&mut self, action: CreateAction)
        ensures
            final(self).spec_actions() == old(self).spec_actions().push(action@),
            final(self).caches == old(self).caches,
            final(self).spec_next_id() == old(self).spec_next_id(),
            final(self).wf() == old(self).wf(),
            final(self).spec_generation() == old(self).spec_generation(),
            final(self).spec_window() == old(self).spec_window(),
            final(self).spec_layout_cache() == old(self).spec_layout_cache(),
            final(self).spec_bind_group_cache() == old(self).spec_bind_group_cache(),
            final(self).spec_texture_view_cache() == old(self).spec_texture_view_cache(),
            final(self).spec_sampler_cache() == old(self).spec_sampler_cache(),
            final(self).spec_pipeline_layout_cache() == old(self).spec_pipeline_layout_cache(),
            final(self).spec_render_pipeline_cache() == old(self).spec_render_pipeline_cache(),
            final(self).spec_compute_pipeline_cache() == old(self).spec_compute_pipeline_cache(),
    {
        let ghost av = action@;
        self.actions.push(action);
        proof {
            assert(self.spec_actions() =~= old(self).spec_actions().push(av));
        }
    }

    /// Resolve a sampler: reuse the cached device sampler for this
    /// configuration, or plan the creation of a new one.
    /// A cache hit leaves the creation log untouched; a miss appends
    /// exactly the creation of this sampler.
    pub(crate) fn resolve_sampler(&mut self, s: &Sampler) -> (id: u64)
        requires
            old(self).wf(),
        ensures
            final(self).wf(),
            sampler_resolution(*old(self), *final(self), s@, id),
    {
        broadcast use crate::sampler::lemma_sampler_obeys_view_eq;

        let cached = self.caches.sampler_cache.get_refresh(s);
        match cached {
            Some(id) => {
                proof {
                    old(self).caches.sampler_cache.lemma_age_bounded(s@);
                }
                id
            },
            None => {
                let id = self.alloc_id();
                let (address_mode, filter, mipmap_filter) = s.descriptor();
                self.push_action(
                    CreateAction::Sampler { id, address_mode, filter, mipmap_filter },
                );
                self.caches.sampler_cache.insert_new(*s, id);
                id
            },
        }
    }

    /// Resolve a texture's view: reuse the cached device view for this
    /// texture and mip window, or plan the creation of a new one.
    pub(crate) fn resolve_texture_view(&mut self, t: &Texture) -> (id: u64)
        requires
            old(self).wf(),
        ensures
            final(self).wf(),
            texture_view_resolution(*old(self), *final(self), t@, id),
    {
        broadcast use crate::texture::lemma_texture_obeys_view_eq;

        let cached = self.caches.texture_view_cache.get_refresh(t);
        match cached {
            Some(id) => {
                proof {
                    old(self).caches.texture_view_cache.lemma_age_bounded(t@);
                }
                id
            },
            None => {
                let id = self.alloc_id();
                let (texture, base_mip_level, mip_level_count) = t.view_descriptor();
                self.push_action(
                    CreateAction::TextureView { id, texture, base_mip_level, mip_level_count },
                );
                self.caches.texture_view_cache.insert_new(*t, id);
                id
            },
        }
    }

    /// Resolve a bind group layout: reuse the cached device layout for this
    /// entry list, or plan the creation of a new one.
    pub(crate) fn resolve_bind_group_layout(&mut self, l: BindGroupLayout) -> (id: u64)
        requires
            old(self).wf(),
        ensures
            final(self).wf(),
            bind_group_layout_resolution(*old(self), *final(self), l@, id),
    {
        broadcast use crate::bind_group::lemma_bind_group_layout_obeys_view_eq;

        let cached = self.caches.bind_group_layout_cache.get_refresh(&l);
        match cached {
            Some(id) => {
                proof {
                    old(self).caches.bind_group_layout_cache.lemma_age_bounded(l@);
                }
                id
            },
            None => {
                let id = self.alloc_id();
                let entries = l.duplicate();
                self.push_action(CreateAction::BindGroupLayout { id, entries: entries.layout });
                self.caches.bind_group_layout_cache.insert_new(l, id);
                id
            },
        }
    }
}

impl Context {
    /// Resolve a pipeline layout: resolve each member bind-group layout,
    /// then reuse the cached device pipeline layout for this shape or plan
    /// the creation of a new one over the members' objects.
    pub(crate) fn resolve_pipeline_layout(&mut self, pl: PipelineLayout) -> (id: u64)
        requires
            old(self).wf(),
        ensures
            final(self).wf(),
            pipeline_layout_resolution(*old(self), *final(self), pl@, id),
    {
        broadcast use crate::pipeline_layout::lemma_pipeline_layout_obeys_view_eq;

        let cached = self.caches.pipeline_layout_cache.get_refresh(&pl);
        match cached {
            Some(id) => {
                proof {
                    old(self).caches.pipeline_layout_cache.lemma_age_bounded(pl@);
                }
                id
            },
            None => {
                let n = pl.bind_group_layouts.len();
                let mut ids: Vec<u64> = Vec::new();
                let mut i: usize = 0;
                while i < n
                    invariant
                        i <= n,
                        n == pl@.len(),
                        n == pl.bind_group_layouts@.len(),
                        forall|j: int| 0 <= j < n ==> pl@[j] == pl.bind_group_layouts@[j]@,
                        self.wf(),
                        ids@.len() == i,
                        forall|j: int|
                            0 <= j < i ==> self.spec_layout_cache().contains_key(#[trigger] pl@[j])
                                && ids@[j] == self.spec_layout_cache().stored_value(pl@[j]),
                        cache_monotone(old(self).spec_layout_cache(), self.spec_layout_cache()),
                        self.spec_bind_group_cache() == old(self).spec_bind_group_cache(),
                        self.spec_texture_view_cache() == old(self).spec_texture_view_cache(),
                        self.spec_sampler_cache() == old(self).spec_sampler_cache(),
                        cache_monotone(
                            old(self).spec_pipeline_layout_cache(),
                            self.spec_pipeline_layout_cache(),
                        ),
                        forall|k2: Seq<Seq<crate::types::BindGroupLayoutEntry>>|
                            #[trigger] self.spec_pipeline_layout_cache().contains_key(k2) ==> old(
                                self,
                            ).spec_pipeline_layout_cache().contains_key(k2),
                        !self.spec_pipeline_layout_cache().contains_key(pl@),
                        self.spec_render_pipeline_cache() == old(self).spec_render_pipeline_cache(),
                        self.spec_compute_pipeline_cache() == old(
                            self,
                        ).spec_compute_pipeline_cache(),
                        self.spec_next_id() >= old(self).spec_next_id(),
                        old(self).spec_actions().is_prefix_of(self.spec_actions()),
                    decreases n - i,
                {
                    let ghost mid = self.spec_layout_cache();
                    let li = pl.bind_group_layouts[i].duplicate();
                    let lid = li.get_or_build(self);
                    ids.push(lid);
                    proof {
                        lemma_cache_monotone_trans(
                            old(self).spec_layout_cache(),
                            mid,
                            self.spec_layout_cache(),
                        );
                    }
                    i = i + 1;
                }
                let id = self.alloc_id();
                let ghost ids_snapshot = ids@;
                self.push_action(CreateAction::PipelineLayout { id, bind_group_layouts: ids });
                self.caches.pipeline_layout_cache.insert_new(pl, id);
                proof {
                    assert(ids_snapshot =~= Seq::new(
                        pl@.len(),
                        |j: int| self.spec_layout_cache().stored_value(pl@[j]),
                    ));
                }
                id
            },
        }
    }
}

/// The resolved form a bound resource takes inside a planned bind group,
/// given the texture view and sampler caches it was resolved against.
pub open spec fn spec_bound_resource(
    vc: KeyedCache<Texture, u64>,
    sc: KeyedCache<Sampler, u64>,
    r: BindingResourceView,
) -> BoundResource {
    match r {
        BindingResourceView::Buffer(bb, size) => BoundResource::Buffer {
            buffer: bb.buffer,
            offset: 0,
            size: match size {
                Some(sz) => Some(sz as u64),
                None => None,
            },
        },
        BindingResourceView::Texture(tb) => BoundResource::TextureView(
            vc.stored_value(tb.texture),
        ),
        BindingResourceView::Sampler(smp) => BoundResource::Sampler(sc.stored_value(smp)),
    }
}

/// The resolved entry one binding contributes to a planned bind group.
pub open spec fn spec_bind_group_entry(
    vc: KeyedCache<Texture, u64>,
    sc: KeyedCache<Sampler, u64>,
    b: BindingView,
) -> BindGroupEntry {
    BindGroupEntry { binding: b.binding as u32, resource: spec_bound_resource(vc, sc, b.resource) }
}

/// Every texture and sampler a binding list references is present in the
/// given caches.
pub open spec fn resources_resolved(
    vc: KeyedCache<Texture, u64>,
    sc: KeyedCache<Sampler, u64>,
    bindings: Seq<BindingView>,
) -> bool {
    forall|j: int|
        0 <= j < bindings.len() ==> match (#[trigger] bindings[j]).resource {
            BindingResourceView::Buffer(_bb, _size) => true,
            BindingResourceView::Texture(tb) => vc.contains_key(tb.texture),
            BindingResourceView::Sampler(smp) => sc.contains_key(smp),
        }
}

impl Context {
    /// Resolve a bind group: resolve its layout, every referenced texture
    /// view and sampler, then reuse the cached device bind group for this
    /// value or plan the creation of a new one over the resolved objects.
    pub(crate) fn resolve_bind_group(&mut self, bg: &BindGroup) -> (id: u64)
        requires
            old(self).wf(),
            bg.wf(),
        ensures
            final(self).wf(),
            bind_group_resolution(*old(self), *final(self), bg@, id),
    {
        broadcast use crate::bind_group::lemma_bind_group_obeys_view_eq;

        let cached = self.caches.bind_group_cache.get_refresh(bg);
        match cached {
            Some(id) => {
                proof {
                    old(self).caches.bind_group_cache.lemma_age_bounded(bg@);
                }
                id
            },
            None => {
                let layout = bg.build_layout();
                let layout_id = layout.get_or_build(self);
                let ghost base = *self;
                let n = bg.bindings_count();
                let mut entries: Vec<BindGroupEntry> = Vec::new();
                let mut i: usize = 0;
                while i < n
                    invariant
                        i <= n,
                        n == bg@.bindings.len(),
                        bg.wf(),
                        self.wf(),
                        entries@.len() == i,
                        self.spec_layout_cache().contains_key(spec_layout_of(bg@)),
                        self.spec_layout_cache().stored_value(spec_layout_of(bg@)) == layout_id,
                        forall|j: int|
                            0 <= j < i ==> (match (#[trigger] bg@.bindings[j]).resource {
                                BindingResourceView::Buffer(_bb, _size) => true,
                                BindingResourceView::Texture(tb) => self.spec_texture_view_cache()
                                    .contains_key(tb.texture),
                                BindingResourceView::Sampler(smp) => self.spec_sampler_cache()
                                    .contains_key(smp),
                            }),
                        forall|j: int|
                            0 <= j < i ==> entries@[j] == spec_bind_group_entry(
                                self.spec_texture_view_cache(),
                                self.spec_sampler_cache(),
                                #[trigger] bg@.bindings[j],
                            ),
                        cache_monotone(base.spec_layout_cache(), self.spec_layout_cache()),
                        cache_monotone(
                            base.spec_texture_view_cache(),
                            self.spec_texture_view_cache(),
                        ),
                        cache_monotone(base.spec_sampler_cache(), self.spec_sampler_cache()),
                        cache_monotone(
                            old(self).spec_bind_group_cache(),
                            self.spec_bind_group_cache(),
                        ),
                        forall|k2: BindGroupView|
                            #[trigger] self.spec_bind_group_cache().contains_key(k2) ==> old(
                                self,
                            ).spec_bind_group_cache().contains_key(k2),
                        !self.spec_bind_group_cache().contains_key(bg@),
                        self.spec_pipeline_layout_cache() == old(self).spec_pipeline_layout_cache(),
                        self.spec_render_pipeline_cache() == old(self).spec_render_pipeline_cache(),
                        self.spec_compute_pipeline_cache() == old(
                            self,
                        ).spec_compute_pipeline_cache(),
                        self.spec_next_id() >= old(self).spec_next_id(),
                        old(self).spec_actions().is_prefix_of(self.spec_actions()),
                    decreases n - i,
                {
                    let ghost before = *self;
                    let b = bg.binding_at(i);
                    let resource: BoundResource = match &b.resource {
                        BindingResource::Buffer(bb, size) => {
                            let size64: Option<u64> = match size {
                                Some(sz) => Some(*sz as u64),
                                None => None,
                            };
                            BoundResource::Buffer { buffer: bb.buffer, offset: 0, size: size64 }
                        },
                        BindingResource::Texture(tb) => {
                            let vid = tb.texture.get_or_build(self);
                            BoundResource::TextureView(vid)
                        },
                        BindingResource::Sampler(smp) => {
                            let sid = smp.get_or_build(self);
                            BoundResource::Sampler(sid)
                        },
                    };
                    proof {
                        lemma_cache_monotone_trans(
                            base.spec_layout_cache(),
                            before.spec_layout_cache(),
                            self.spec_layout_cache(),
                        );
                        lemma_cache_monotone_trans(
                            base.spec_texture_view_cache(),
                            before.spec_texture_view_cache(),
                            self.spec_texture_view_cache(),
                        );
                        lemma_cache_monotone_trans(
                            base.spec_sampler_cache(),
                            before.spec_sampler_cache(),
                            self.spec_sampler_cache(),
                        );
                        assert(resource == spec_bound_resource(
                            self.spec_texture_view_cache(),
                            self.spec_sampler_cache(),
                            bg@.bindings[i as int].resource,
                        ));
                        assert forall|j: int|
                            0 <= j < i implies entries@[j] == spec_bind_group_entry(
                            self.spec_texture_view_cache(),
                            self.spec_sampler_cache(),
                            #[trigger] bg@.bindings[j],
                        ) by {
                            assert(entries@[j] == spec_bind_group_entry(
                                before.spec_texture_view_cache(),
                                before.spec_sampler_cache(),
                                bg@.bindings[j],
                            ));
                        }
                    }
                    #[verifier::truncate]
                    let slot = b.binding as u32;
                    entries.push(BindGroupEntry { binding: slot, resource });
                    i = i + 1;
                }
                let id = self.alloc_id();
                let label = bg.name_dup();
                let ghost entries_snapshot = entries@;
                self.push_action(
                    CreateAction::BindGroup { id, label, layout: layout_id, entries },
                );
                let key = bg.duplicate();
                self.caches.bind_group_cache.insert_new(key, id);
                proof {
                    assert(entries_snapshot =~= bg@.bindings.map_values(
                        |b: BindingView|
                            spec_bind_group_entry(
                                self.spec_texture_view_cache(),
                                self.spec_sampler_cache(),
                                b,
                            ),
                    ));
                    lemma_cache_monotone_trans(
                        old(self).spec_layout_cache(),
                        base.spec_layout_cache(),
                        self.spec_layout_cache(),
                    );
                }
                id
            },
        }
    }
}

/// Derive the pipeline layout implied by a list of bind groups: each bind
/// group's layout, in order.
fn derive_pipeline_layout(bind_groups: &Vec<BindGroup>) -> (r: PipelineLayout)
    requires
        forall|j: int|
            0 <= j < bind_groups@.len() ==> (#[trigger] bind_groups@[j]).wf(),
    ensures
        r@ == derived_layouts(bind_groups@.map_values(|b: BindGroup| b@)),
{
    let n = bind_groups.len();
    let mut layouts: Vec<BindGroupLayout> = Vec::new();
    let mut i: usize = 0;
    while i < n
        invariant
            i <= n,
            n == bind_groups@.len(),
            forall|j: int|
                0 <= j < bind_groups@.len() ==> (#[trigger] bind_groups@[j]).wf(),
            layouts@.len() == i,
            forall|j: int|
                0 <= j < i ==> (#[trigger] layouts@[j])@ == spec_layout_of(bind_groups@[j]@),
        decreases n - i,
    {
        let l = bind_groups[i].build_layout();
        layouts.push(l);
        i = i + 1;
    }
    let r = PipelineLayout { bind_group_layouts: layouts };
    proof {
        assert forall|j: int| 0 <= j < n implies r@[j] == derived_layouts(
            bind_groups@.map_values(|b: BindGroup| b@),
        )[j] by {
            assert(layouts@[j]@ == spec_layout_of(bind_groups@[j]@));
        }
        assert(r@ =~= derived_layouts(bind_groups@.map_values(|b: BindGroup| b@)));
    }
    r
}

fn zip_targets(targets: &Vec<Option<ColorTargetState>>, formats: &Vec<TextureFormat>) -> (r: Vec<
    Option<ResolvedColorTarget>,
>)
    ensures
        r@ == spec_resolved_targets(targets@, formats@),
{
    let n = if targets.len() <= formats.len() {
        targets.len()
    } else {
        formats.len()
    };
    let mut out: Vec<Option<ResolvedColorTarget>> = Vec::new();
    let mut i: usize = 0;
    while i < n
        invariant
            i <= n,
            n == spec_resolved_targets(targets@, formats@).len(),
            n <= targets@.len(),
            n <= formats@.len(),
            out@.len() == i,
            forall|j: int|
                0 <= j < i ==> out@[j] == spec_resolved_targets(targets@, formats@)[j],
        decreases n - i,
    {
        let entry: Option<ResolvedColorTarget> = match &targets[i] {
            Some(t) => Some(
                ResolvedColorTarget {
                    format: formats[i],
                    blend: t.blend,
                    write_mask: t.write_mask,
                },
            ),
            None => None,
        };
        out.push(entry);
        i = i + 1;
    }
    proof {
        assert(out@ =~= spec_resolved_targets(targets@, formats@));
    }
    out
}

impl Context {
    /// Resolve a compute pipeline against the bind groups of its dispatch:
    /// derive the pipeline layout from the bind groups, then reuse the
    /// cached compiled pipeline for this layout and entry point or plan the
    /// compilation of a new one.
    pub(crate) fn resolve_compute_pipeline(
        &mut self,
        pipeline: &ComputePipeline,
        bind_groups: &Vec<BindGroup>,
    ) -> (id: u64)
        requires
            old(self).wf(),
            forall|j: int|
                0 <= j < bind_groups@.len() ==> (#[trigger] bind_groups@[j]).wf(),
        ensures
            final(self).wf(),
            compute_pipeline_resolution(
                *old(self),
                *final(self),
                pipeline@,
                derived_layouts(bind_groups@.map_values(|b: BindGroup| b@)),
                id,
            ),
    {
        broadcast use crate::compute_pipeline::lemma_compute_pipeline_key_obeys_view_eq;

        let pl = derive_pipeline_layout(bind_groups);
        let key = ComputePipelineCacheKey { layout: pl, entry_point: pipeline.entry_point_dup() };
        let cached = self.caches.compute_pipeline_cache.get_refresh(&key);
        match cached {
            Some(id) => {
                proof {
                    old(self).caches.compute_pipeline_cache.lemma_age_bounded(key@);
                }
                id
            },
            None => {
                let layout_for_resolve = key.layout.duplicate();
                let layout_id = layout_for_resolve.get_or_build(self);
                let id = self.alloc_id();
                let ep = pipeline.entry_point_dup();
                let label = pipeline.label_dup();
                self.push_action(
                    CreateAction::ComputePipeline {
                        id,
                        label,
                        layout: layout_id,
                        shader: ep.shader,
                        entry_point: ep.entry_point,
                    },
                );
                self.caches.compute_pipeline_cache.insert_new(key, id);
                id
            },
        }
    }

    /// Resolve a render pipeline against the pass and draw state it first
    /// appears in: derive the pipeline layout from the draw's bind groups,
    /// then reuse the cached compiled pipeline for this description, layout
    /// and rasteriser state, or plan the compilation of a new one.
    pub(crate) fn resolve_render_pipeline(
        &mut self,
        pipeline: &RenderPipeline,
        color_formats: &Vec<TextureFormat>,
        depth_format: Option<TextureFormat>,
        multisample: Option<MultisampleState>,
        rasteriser_state: &RasteriserState,
        bind_groups: &Vec<BindGroup>,
    ) -> (id: u64)
        requires
            old(self).wf(),
            forall|j: int|
                0 <= j < bind_groups@.len() ==> (#[trigger] bind_groups@[j]).wf(),
        ensures
            final(self).wf(),
            render_pipeline_resolution(
                *old(self),
                *final(self),
                pipeline@,
                derived_layouts(bind_groups@.map_values(|b: BindGroup| b@)),
                color_formats@,
                depth_format,
                multisample,
                *rasteriser_state,
                id,
            ),
    {
        broadcast use crate::render_pipeline::lemma_render_pipeline_key_obeys_view_eq;

        let pl = derive_pipeline_layout(bind_groups);
        let key = RenderPipelineCacheKey {
            layout: pl,
            vertex: pipeline.vertex_dup(),
            fragment: pipeline.fragment_dup(),
            rasteriser_state: *rasteriser_state,
        };
        let cached = self.caches.render_pipeline_cache.get_refresh(&key);
        match cached {
            Some(id) => {
                proof {
                    old(self).caches.render_pipeline_cache.lemma_age_bounded(key@);
                }
                id
            },
            None => {
                let layout_for_resolve = key.layout.duplicate();
                let layout_id = layout_for_resolve.get_or_build(self);
                let id = self.alloc_id();
                let frag = pipeline.fragment_dup();
                let (fragment_shader, fragment_entry_point, has_fragment, targets): (
                    u64,
                    String,
                    bool,
                    Vec<Option<ResolvedColorTarget>>,
                ) = match frag {
                    Some(f) => {
                        let targets = zip_targets(&f.targets, color_formats);
                        (f.entry_point.shader, f.entry_point.entry_point, true, targets)
                    },
                    None => (0u64, String::new(), false, Vec::new()),
                };
                let depth_stencil: Option<DepthStencilDesc> = match depth_format {
                    Some(format) => Some(
                        DepthStencilDesc {
                            format,
                            depth_write_enabled: rasteriser_state.depth_write,
                            depth_compare: rasteriser_state.depth_compare,
                        },
                    ),
                    None => None,
                };
                let resolved_multisample: MultisampleState = match multisample {
                    Some(m) => m,
                    None => MultisampleState::single_sample(),
                };
                let desc = RenderPipelineDesc {
                    label: pipeline.label_dup(),
                    layout: layout_id,
                    vertex: pipeline.vertex_dup(),
                    fragment_shader,
                    fragment_entry_point,
                    has_fragment,
                    targets,
                    primitive: PrimitiveStateDesc {
                        front_face: rasteriser_state.front_face,
                        cull_mode: rasteriser_state.cull_mode,
                        polygon_mode: rasteriser_state.polygon_mode,
                    },
                    depth_stencil,
                    multisample: resolved_multisample,
                };
                proof {
                    assert(desc@ =~= spec_resolved_pipeline_desc(
                        pipeline@,
                        layout_id,
                        color_formats@,
                        depth_format,
                        multisample,
                        *rasteriser_state,
                    ));
                }
                self.push_action(CreateAction::RenderPipeline { id, desc });
                self.caches.render_pipeline_cache.insert_new(key, id);
                id
            },
        }
    }
}

/// Relies on `uuid::Uuid::new_v4` for the identity of buffer and texture
/// handles: a randomly generated 128-bit identifier.  Nothing is promised
/// of the result; handle identity is only ever compared, never interpreted.
#[verifier::external_body]
pub(crate) fn fresh_resource_id() -> u128 {
    uuid::Uuid::new_v4().as_u128()
}

impl Context {
    /// Adopt an externally supplied render target (such as a swapchain
    /// image) under a fresh object number.  The application associates the
    /// returned number with the view it holds.
    pub fn import_render_texture(&mut self, format: crate::types::TextureFormat) -> (r:
        crate::render_texture::RenderTexture)
        requires
            old(self).wf(),
        ensures
            final(self).wf(),
            r.format == format,
            r.view == old(self).spec_next_id(),
            final(self).spec_actions() == old(self).spec_actions(),
            final(self).spec_generation() == old(self).spec_generation(),
            final(self).spec_layout_cache() == old(self).spec_layout_cache(),
            final(self).spec_bind_group_cache() == old(self).spec_bind_group_cache(),
            final(self).spec_texture_view_cache() == old(self).spec_texture_view_cache(),
            final(self).spec_sampler_cache() == old(self).spec_sampler_cache(),
            final(self).spec_pipeline_layout_cache() == old(self).spec_pipeline_layout_cache(),
            final(self).spec_render_pipeline_cache() == old(self).spec_render_pipeline_cache(),
            final(self).spec_compute_pipeline_cache() == old(self).spec_compute_pipeline_cache(),
    {
        let id = self.alloc_id();
        crate::render_texture::RenderTexture { view: id, format }
    }
}

/// Cache determinism: two resolutions of value-equal keys, one after the
/// other, return the same object — the second lookup finds what the first
/// stored and builds nothing.
pub proof fn lemma_resolution_deterministic<K: View>(
    c0: KeyedCache<K, u64>,
    c1: KeyedCache<K, u64>,
    c2: KeyedCache<K, u64>,
    k1: K::V,
    k2: K::V,
    id1: u64,
    id2: u64,
)
    requires
        resolved_in_cache(c0, c1, k1, id1),
        resolved_in_cache(c1, c2, k2, id2),
        k1 == k2,
    ensures
        id2 == id1,
{
}

/// Value-monotonicity composes across successive resolution steps.
pub proof fn lemma_cache_monotone_trans<K: View>(
    a: KeyedCache<K, u64>,
    b: KeyedCache<K, u64>,
    c: KeyedCache<K, u64>,
)
    requires
        cache_monotone(a, b),
        cache_monotone(b, c),
    ensures
        cache_monotone(a, c),
{
}


/// The context's generation and window are those of its caches.
pub broadcast proof fn lemma_generation_def(ctx: Context)
    ensures
        #[trigger] ctx.spec_generation() == ctx.spec_sampler_cache().current_generation(),
        #[trigger] ctx.spec_window() == ctx.spec_sampler_cache().window(),
{
}

/// A key resolved in the current generation stays resolved, with the same
/// object and still in the current generation, across any later
/// value-monotone step within that generation.
pub proof fn lemma_hot_stable<K: View>(pre: KeyedCache<K, u64>, post: KeyedCache<K, u64>, k: K::V)
    requires
        cache_monotone(pre, post),
        post.wf(),
        pre.contains_key(k),
        pre.stored_age(k) == pre.current_generation(),
    ensures
        post.contains_key(k),
        post.stored_value(k) == pre.stored_value(k),
        post.stored_age(k) == post.current_generation(),
{
    post.lemma_age_bounded(k);
}

/// Every cache is left value-monotone.
pub open spec fn caches_monotone(pre: Context, post: Context) -> bool {
    &&& cache_monotone(pre.spec_bind_group_cache(), post.spec_bind_group_cache())
    &&& cache_monotone(pre.spec_render_pipeline_cache(), post.spec_render_pipeline_cache())
    &&& cache_monotone(pre.spec_compute_pipeline_cache(), post.spec_compute_pipeline_cache())
    &&& cache_monotone(pre.spec_layout_cache(), post.spec_layout_cache())
    &&& cache_monotone(pre.spec_texture_view_cache(), post.spec_texture_view_cache())
    &&& cache_monotone(pre.spec_sampler_cache(), post.spec_sampler_cache())
    &&& cache_monotone(pre.spec_pipeline_layout_cache(), post.spec_pipeline_layout_cache())
}

/// The caches a submission reads stay value-monotone while it records.
pub open spec fn recording_monotone(pre: Context, post: Context) -> bool {
    &&& caches_monotone(pre, post)
    &&& post.spec_next_id() >= pre.spec_next_id()
    &&& pre.spec_actions().is_prefix_of(post.spec_actions())
}

pub proof fn lemma_recording_monotone_trans(a: Context, b: Context, c: Context)
    requires
        recording_monotone(a, b),
        recording_monotone(b, c),
    ensures
        recording_monotone(a, c),
{
    assert(a.spec_actions().is_prefix_of(c.spec_actions())) by {
        assert(a.spec_actions() =~= b.spec_actions().take(a.spec_actions().len() as int));
        assert(a.spec_actions() =~= c.spec_actions().take(a.spec_actions().len() as int));
    }
}

/// Resolving a bind group is a value-monotone recording step.
pub proof fn lemma_recording_monotone_step_bind_group(
    pre: Context,
    post: Context,
    bg: BindGroupView,
    id: u64,
)
    requires
        bind_group_resolution(pre, post, bg, id),
    ensures
        recording_monotone(pre, post),
{
}

/// Resolving a render pipeline is a value-monotone recording step.
pub proof fn lemma_recording_monotone_step_render_pipeline(
    pre: Context,
    post: Context,
    pipeline: crate::render_pipeline::RenderPipelineView,
    layouts: Seq<Seq<crate::types::BindGroupLayoutEntry>>,
    color_formats: Seq<TextureFormat>,
    depth_format: Option<TextureFormat>,
    multisample: Option<MultisampleState>,
    rs: RasteriserState,
    id: u64,
)
    requires
        render_pipeline_resolution(
            pre,
            post,
            pipeline,
            layouts,
            color_formats,
            depth_format,
            multisample,
            rs,
            id,
        ),
    ensures
        recording_monotone(pre, post),
{
}

/// Resolving a compute pipeline is a value-monotone recording step.
pub proof fn lemma_recording_monotone_step_compute_pipeline(
    pre: Context,
    post: Context,
    pipeline: crate::compute_pipeline::ComputePipelineView,
    layouts: Seq<Seq<crate::types::BindGroupLayoutEntry>>,
    id: u64,
)
    requires
        compute_pipeline_resolution(pre, post, pipeline, layouts, id),
    ensures
        recording_monotone(pre, post),
{
}

/// One aging step of a single cache, as [`KeyedCache::age`] guarantees it.
pub open spec fn cache_aged<K: View>(pre: KeyedCache<K, u64>, post: KeyedCache<K, u64>) -> bool {
    &&& post.current_generation() == pre.current_generation() + 1
    &&& post.window() == pre.window()
    &&& forall|k: K::V|
        #[trigger] post.contains_key(k) <==> pre.contains_key(k)
            && crate::keyed_cache::survives_aging(
            pre.stored_age(k),
            pre.window(),
            pre.current_generation() + 1,
        )
    &&& forall|k: K::V|
        #[trigger] post.contains_key(k) ==> post.stored_value(k) == pre.stored_value(k)
            && post.stored_age(k) == pre.stored_age(k)
}

/// One aging step of the whole context: every cache ages together.
pub open spec fn context_aged(pre: Context, post: Context) -> bool {
    &&& cache_aged(pre.spec_layout_cache(), post.spec_layout_cache())
    &&& cache_aged(pre.spec_bind_group_cache(), post.spec_bind_group_cache())
    &&& cache_aged(pre.spec_texture_view_cache(), post.spec_texture_view_cache())
    &&& cache_aged(pre.spec_sampler_cache(), post.spec_sampler_cache())
    &&& cache_aged(pre.spec_pipeline_layout_cache(), post.spec_pipeline_layout_cache())
    &&& cache_aged(pre.spec_render_pipeline_cache(), post.spec_render_pipeline_cache())
    &&& cache_aged(pre.spec_compute_pipeline_cache(), post.spec_compute_pipeline_cache())
    &&& post.spec_actions() == pre.spec_actions()
    &&& post.spec_next_id() == pre.spec_next_id()
}

/// Entries of one cache still inside the eviction window before a
/// submission keep their objects across it.
pub open spec fn cache_retained<K: View>(pre: KeyedCache<K, u64>, post: KeyedCache<K, u64>) -> bool {
    forall|k: K::V|
        pre.contains_key(k) && pre.stored_age(k) + pre.window() > pre.current_generation() + 1
            ==> post.contains_key(k) && #[trigger] post.stored_value(k) == pre.stored_value(k)
}

/// Every cache entry still inside the eviction window before a submission
/// keeps its object across it.
pub open spec fn caches_retained(pre: Context, post: Context) -> bool {
    &&& cache_retained(pre.spec_layout_cache(), post.spec_layout_cache())
    &&& cache_retained(pre.spec_bind_group_cache(), post.spec_bind_group_cache())
    &&& cache_retained(pre.spec_texture_view_cache(), post.spec_texture_view_cache())
    &&& cache_retained(pre.spec_sampler_cache(), post.spec_sampler_cache())
    &&& cache_retained(pre.spec_pipeline_layout_cache(), post.spec_pipeline_layout_cache())
    &&& cache_retained(pre.spec_render_pipeline_cache(), post.spec_render_pipeline_cache())
    &&& cache_retained(pre.spec_compute_pipeline_cache(), post.spec_compute_pipeline_cache())
}

/// A monotone recording step followed by one aging step retains every
/// entry that was inside the eviction window, per cache.
pub proof fn lemma_cache_retained<K: View>(
    pre: KeyedCache<K, u64>,
    mid: KeyedCache<K, u64>,
    post: KeyedCache<K, u64>,
)
    requires
        cache_monotone(pre, mid),
        cache_aged(mid, post),
    ensures
        cache_retained(pre, post),
{
    assert forall|k: K::V|
        pre.contains_key(k) && pre.stored_age(k) + pre.window() > pre.current_generation()
            + 1 implies post.contains_key(k) && #[trigger] post.stored_value(k)
        == pre.stored_value(k) by {
        assert(mid.contains_key(k));
        assert(mid.stored_age(k) >= pre.stored_age(k));
        assert(crate::keyed_cache::survives_aging(
            mid.stored_age(k),
            mid.window(),
            mid.current_generation() + 1,
        ));
        assert(post.contains_key(k));
    }
}

impl Context {
    /// Hand over the pending creations, oldest first, leaving none behind.
    pub(crate) fn take_actions(&mut self) -> (r: Vec<CreateAction>)
        ensures
            r@.map_values(|a: CreateAction| a@) == old(self).spec_actions(),
            final(self).spec_actions() == Seq::<CreateActionView>::empty(),
            final(self).caches == old(self).caches,
            final(self).wf() == old(self).wf(),
            final(self).spec_generation() == old(self).spec_generation(),
            final(self).spec_window() == old(self).spec_window(),
            final(self).spec_next_id() == old(self).spec_next_id(),
            final(self).spec_layout_cache() == old(self).spec_layout_cache(),
            final(self).spec_bind_group_cache() == old(self).spec_bind_group_cache(),
            final(self).spec_texture_view_cache() == old(self).spec_texture_view_cache(),
            final(self).spec_sampler_cache() == old(self).spec_sampler_cache(),
            final(self).spec_pipeline_layout_cache() == old(self).spec_pipeline_layout_cache(),
            final(self).spec_render_pipeline_cache() == old(self).spec_render_pipeline_cache(),
            final(self).spec_compute_pipeline_cache() == old(self).spec_compute_pipeline_cache(),
    {
        let mut out: Vec<CreateAction> = Vec::new();
        core::mem::swap(&mut self.actions, &mut out);
        proof {
            assert(self.spec_actions() =~= Seq::<CreateActionView>::empty());
        }
        out
    }

    /// Age every cache by exactly one generation, evicting entries whose
    /// age has fallen a whole eviction window behind.  Called once per
    /// submission, never per pass.
    pub(crate) fn age_caches(&mut self)
        requires
            old(self).wf(),
            old(self).spec_generation() + 1 <= usize::MAX,
        ensures
            final(self).wf(),
            final(self).spec_generation() == old(self).spec_generation() + 1,
            final(self).spec_window() == old(self).spec_window(),
            context_aged(*old(self), *final(self)),
            final(self).spec_actions() == old(self).spec_actions(),
            final(self).spec_next_id() == old(self).spec_next_id(),
    {
        self.caches.bind_group_layout_cache.age();
        self.caches.bind_group_cache.age();
        self.caches.texture_view_cache.age();
        self.caches.sampler_cache.age();
        self.caches.pipeline_layout_cache.age();
        self.caches.render_pipeline_cache.age();
        self.caches.compute_pipeline_cache.age();
    }
}

} // verus!
