//! Bind groups and the layouts derived from them.
//!
//! A bind group is an ordered list of `(slot, visibility, resource)`
//! bindings.  Its layout is a pure function of each binding's slot,
//! visibility and resource *kind* — never of the bound resource's identity —
//! which is why layouts and full bind groups are cached separately.

use crate::buffer::BufferBinding;
use crate::sampler::Sampler;
use crate::texture::{TextureBinding, TextureBindingView};
use crate::types::{BindGroupLayoutEntry, BindingType, ShaderStages};
use vstd::prelude::*;
use vstd::std_specs::cmp::PartialEqSpec;

verus! {

/// One resource attached to a bind group slot.
#[derive(Clone, Copy, Debug)]
pub(crate) enum BindingResource {
    Buffer(BufferBinding, Option<usize>),
    Texture(TextureBinding),
    Sampler(Sampler),
}

/// The identity of a bound resource.
pub ghost enum BindingResourceView {
    Buffer(BufferBinding, Option<usize>),
    Texture(TextureBindingView),
    Sampler(Sampler),
}

impl View for BindingResource {
    type V = BindingResourceView;

    open(crate) spec fn view(&self) -> BindingResourceView {
        match *self {
            BindingResource::Buffer(b, size) => BindingResourceView::Buffer(b, size),
            BindingResource::Texture(t) => BindingResourceView::Texture(t@),
            BindingResource::Sampler(s) => BindingResourceView::Sampler(s@),
        }
    }
}

impl PartialEq for BindingResource {
    fn eq(&self, other: &Self) -> (r: bool) {
        match (self, other) {
            (BindingResource::Buffer(b1, s1), BindingResource::Buffer(b2, s2)) => *b1 == *b2 && *s1
                == *s2,
            (BindingResource::Texture(t1), BindingResource::Texture(t2)) => *t1 == *t2,
            (BindingResource::Sampler(s1), BindingResource::Sampler(s2)) => *s1 == *s2,
            _ => false,
        }
    }
}

impl vstd::std_specs::cmp::PartialEqSpecImpl for BindingResource {
    open spec fn obeys_eq_spec() -> bool {
        true
    }

    open spec fn eq_spec(&self, other: &Self) -> bool {
        self@ == other@
    }
}

/// One slot of a bind group.
#[derive(Clone, Copy, Debug)]
pub(crate) struct Binding {
    /// The binding index.  Must be unique within a single bind group.
    pub binding: usize,
    /// The shader stages the binding is visible to.
    pub visibility: ShaderStages,
    /// The resource to bind.
    pub resource: BindingResource,
}

/// The identity of one bind group slot.
pub ghost struct BindingView {
    pub binding: usize,
    pub visibility: ShaderStages,
    pub resource: BindingResourceView,
}

impl View for Binding {
    type V = BindingView;

    open(crate) spec fn view(&self) -> BindingView {
        BindingView { binding: self.binding, visibility: self.visibility, resource: self.resource@ }
    }
}

impl PartialEq for Binding {
    fn eq(&self, other: &Self) -> (r: bool) {
        self.binding == other.binding && self.visibility == other.visibility && self.resource
            == other.resource
    }
}

impl vstd::std_specs::cmp::PartialEqSpecImpl for Binding {
    open spec fn obeys_eq_spec() -> bool {
        true
    }

    open spec fn eq_spec(&self, other: &Self) -> bool {
        self@ == other@
    }
}

/// The derived layout of a bind group: one entry per binding, in binding
/// order.
#[derive(Debug)]
pub struct BindGroupLayout {
    pub layout: Vec<BindGroupLayoutEntry>,
}

impl View for BindGroupLayout {
    type V = Seq<BindGroupLayoutEntry>;

    open spec fn view(&self) -> Seq<BindGroupLayoutEntry> {
        self.layout@
    }
}

impl PartialEq for BindGroupLayout {
    fn eq(&self, other: &Self) -> (r: bool) {
        let r = self.layout == other.layout;
        proof {
            if r {
                assert(self.layout@ =~= other.layout@);
            }
        }
        r
    }
}

impl vstd::std_specs::cmp::PartialEqSpecImpl for BindGroupLayout {
    open spec fn obeys_eq_spec() -> bool {
        true
    }

    open spec fn eq_spec(&self, other: &Self) -> bool {
        self@ == other@
    }
}

/// The key type of the layout cache compares by view equality.
pub broadcast proof fn lemma_bind_group_layout_obeys_view_eq()
    ensures
        #[trigger] vstd::laws_eq::obeys_view_eq::<BindGroupLayout>(),
{
    reveal(vstd::laws_eq::obeys_view_eq);
}

impl BindGroupLayout {
    /// Resolve this layout through the layout cache: the same entry list
    /// always yields the same device layout object.
    pub(crate) fn get_or_build(self, context: &mut crate::context::Context) -> (id: u64)
        requires
            old(context).wf(),
        ensures
            final(context).wf(),
            crate::context::bind_group_layout_resolution(
                *old(context),
                *final(context),
                self@,
                id,
            ),
    {
        context.resolve_bind_group_layout(self)
    }

    /// An identical layout value.
    pub fn duplicate(&self) -> (r: Self)
        ensures
            r@ == self@,
    {
        let mut out: Vec<BindGroupLayoutEntry> = Vec::new();
        let n = self.layout.len();
        let mut i: usize = 0;
        while i < n
            invariant
                i <= n,
                n == self.layout@.len(),
                out@ == self.layout@.subrange(0, i as int),
            decreases n - i,
        {
            out.push(self.layout[i]);
            proof {
                assert(out@ =~= self.layout@.subrange(0, i + 1));
            }
            i = i + 1;
        }
        proof {
            assert(out@ =~= self.layout@);
        }
        BindGroupLayout { layout: out }
    }
}

/// The identity of a bind group: its ordered bindings and its debug name.
pub ghost struct BindGroupView {
    pub bindings: Seq<BindingView>,
    pub name: Option<Seq<char>>,
}

/// A set of resource-to-slot bindings, consumed by shader stages during a
/// draw or dispatch.
#[derive(Debug)]
pub struct BindGroup {
    pub(crate) bindings: Vec<Binding>,
    pub(crate) name: Option<String>,
}

impl View for BindGroup {
    type V = BindGroupView;

    closed spec fn view(&self) -> BindGroupView {
        BindGroupView {
            bindings: self.bindings@.map_values(|b: Binding| b@),
            name: match self.name {
                Some(n) => Some(n@),
                None => None,
            },
        }
    }
}

impl PartialEq for BindGroup {
    fn eq(&self, other: &Self) -> (r: bool) {
        let bindings_eq = self.bindings == other.bindings;
        proof {
            if bindings_eq {
                assert(self@.bindings =~= other@.bindings);
            } else {
                if self.bindings@.len() == other.bindings@.len() {
                    let i = choose|i: int|
                        0 <= i < self.bindings@.len() && !self.bindings@[i].eq_spec(
                            &other.bindings@[i],
                        );
                    assert(self@.bindings[i] != other@.bindings[i]);
                } else {
                    assert(self@.bindings.len() != other@.bindings.len());
                }
            }
        }
        let names_eq = opt_string_eq(&self.name, &other.name);
        proof {
            if bindings_eq && names_eq {
                assert(self@.bindings == other@.bindings);
                assert(self@.name == other@.name);
                assert(self@ == other@);
            } else if !bindings_eq {
                assert(self@.bindings != other@.bindings);
            } else {
                assert(self@.name != other@.name);
            }
        }
        bindings_eq && names_eq
    }
}

impl vstd::std_specs::cmp::PartialEqSpecImpl for BindGroup {
    open spec fn obeys_eq_spec() -> bool {
        true
    }

    open spec fn eq_spec(&self, other: &Self) -> bool {
        self@ == other@
    }
}

/// The key type of the bind group cache compares by view equality.
pub broadcast proof fn lemma_bind_group_obeys_view_eq()
    ensures
        #[trigger] vstd::laws_eq::obeys_view_eq::<BindGroup>(),
{
    reveal(vstd::laws_eq::obeys_view_eq);
}

/// The binding type a resource contributes to a derived layout: everything
/// the device needs to know about the slot, and nothing that identifies the
/// particular resource.
pub open spec fn spec_resource_layout_type(r: BindingResourceView) -> BindingType {
    match r {
        BindingResourceView::Sampler(s) => BindingType::Sampler(s.spec_sampler_type()),
        BindingResourceView::Texture(t) => t.binding_type,
        BindingResourceView::Buffer(b, _size) => BindingType::Buffer {
            ty: b.binding_type,
            has_dynamic_offset: b.has_dynamic_offset,
            min_binding_size: b.min_binding_size,
        },
    }
}

/// The layout entry a single binding derives.
pub open spec fn spec_layout_entry(b: BindingView) -> BindGroupLayoutEntry {
    BindGroupLayoutEntry {
        binding: b.binding as u32,
        visibility: b.visibility,
        ty: spec_resource_layout_type(b.resource),
        count: None,
    }
}

/// The layout a bind group derives: one entry per binding, in order.
pub open spec fn spec_layout_of(bg: BindGroupView) -> Seq<BindGroupLayoutEntry> {
    bg.bindings.map_values(|b: BindingView| spec_layout_entry(b))
}

/// Binding slots must fit the device's 32-bit binding indices.
pub open spec fn bg_wf(bg: BindGroupView) -> bool {
    forall|i: int|
        0 <= i < bg.bindings.len() ==> (#[trigger] bg.bindings[i].binding) <= u32::MAX
}

/// The part of a binding that layout derivation looks at: its slot, its
/// visibility and its resource kind.
pub ghost struct BindingShape {
    pub slot: usize,
    pub visibility: ShaderStages,
    pub kind: BindingType,
}

/// The shape of one binding.
pub open spec fn spec_binding_shape(b: BindingView) -> BindingShape {
    BindingShape {
        slot: b.binding,
        visibility: b.visibility,
        kind: spec_resource_layout_type(b.resource),
    }
}

/// Layout derivation is pure in the bindings' shapes: two bind groups whose
/// bindings agree slot for slot on slot, visibility and resource kind —
/// whatever the identities of the bound resources, and whatever their names
/// — derive value-equal layouts.
pub proof fn lemma_layout_derivation_pure(a: BindGroupView, b: BindGroupView)
    requires
        a.bindings.len() == b.bindings.len(),
        forall|i: int|
            0 <= i < a.bindings.len() ==> #[trigger] spec_binding_shape(a.bindings[i])
                == spec_binding_shape(b.bindings[i]),
    ensures
        spec_layout_of(a) == spec_layout_of(b),
{
    assert forall|i: int| 0 <= i < a.bindings.len() implies spec_layout_of(a)[i]
        == spec_layout_of(b)[i] by {
        assert(spec_binding_shape(a.bindings[i]) == spec_binding_shape(b.bindings[i]));
    }
    assert(spec_layout_of(a) =~= spec_layout_of(b));
}

/// A derived layout pins the bindings' shapes: bind groups deriving
/// value-equal layouts have the same number of bindings, agreeing slot for
/// slot on slot, visibility and resource kind.
pub proof fn lemma_layout_determines_shape(a: BindGroupView, b: BindGroupView)
    requires
        bg_wf(a),
        bg_wf(b),
        spec_layout_of(a) == spec_layout_of(b),
    ensures
        a.bindings.len() == b.bindings.len(),
        forall|i: int|
            0 <= i < a.bindings.len() ==> #[trigger] spec_binding_shape(a.bindings[i])
                == spec_binding_shape(b.bindings[i]),
{
    assert(a.bindings.len() == spec_layout_of(a).len());
    assert(b.bindings.len() == spec_layout_of(b).len());
    assert forall|i: int| 0 <= i < a.bindings.len() implies #[trigger] spec_binding_shape(
        a.bindings[i],
    ) == spec_binding_shape(b.bindings[i]) by {
        assert(spec_layout_of(a)[i] == spec_layout_of(b)[i]);
        assert(spec_layout_of(a)[i] == spec_layout_entry(a.bindings[i]));
        assert(spec_layout_of(b)[i] == spec_layout_entry(b.bindings[i]));
        assert(spec_layout_entry(a.bindings[i]) == spec_layout_entry(b.bindings[i]));
        assert(a.bindings[i].binding as u32 == b.bindings[i].binding as u32);
        assert(a.bindings[i].binding <= u32::MAX && b.bindings[i].binding <= u32::MAX);
        assert(a.bindings[i].binding == b.bindings[i].binding);
    }
}


fn opt_string_eq(a: &Option<String>, b: &Option<String>) -> (r: bool)
    ensures
        r == (match *a {
            Some(x) => Some(x@),
            None => None,
        } == match *b {
            Some(y) => Some(y@),
            None => None,
        }),
{
    match (a, b) {
        (Some(x), Some(y)) => *x == *y,
        (None, None) => true,
        _ => false,
    }
}

fn layout_entry_of(b: &Binding) -> (r: BindGroupLayoutEntry)
    requires
        b@.binding <= u32::MAX,
    ensures
        r == spec_layout_entry(b@),
{
    let ty: BindingType = match &b.resource {
        BindingResource::Sampler(sampler) => BindingType::Sampler(sampler.sampler_type()),
        BindingResource::Texture(texture) => texture.binding_type,
        BindingResource::Buffer(buffer, _) => BindingType::Buffer {
            ty: buffer.binding_type,
            has_dynamic_offset: buffer.has_dynamic_offset,
            min_binding_size: buffer.min_binding_size,
        },
    };
    #[verifier::truncate]
    let slot = b.binding as u32;
    BindGroupLayoutEntry { binding: slot, visibility: b.visibility, ty, count: None }
}

impl BindGroup {
    /// Binding slots fit the device's 32-bit binding indices.
    pub open spec fn wf(&self) -> bool {
        bg_wf(self@)
    }

    /// Derive this bind group's layout: one entry per binding, in order,
    /// each determined by the binding's slot, visibility and resource kind.
    pub fn build_layout(&self) -> (r: BindGroupLayout)
        requires
            self.wf(),
        ensures
            r@ == spec_layout_of(self@),
    {
        let mut out: Vec<BindGroupLayoutEntry> = Vec::new();
        let n = self.bindings.len();
        let mut i: usize = 0;
        while i < n
            invariant
                i <= n,
                n == self.bindings@.len(),
                self.wf(),
                out@ =~= spec_layout_of(self@).subrange(0, i as int),
            decreases n - i,
        {
            proof {
                assert(self@.bindings[i as int] == self.bindings@[i as int]@);
                assert(self@.bindings[i as int].binding <= u32::MAX);
            }
            let entry = layout_entry_of(&self.bindings[i]);
            proof {
                assert(spec_layout_of(self@)[i as int] == spec_layout_entry(
                    self@.bindings[i as int],
                ));
            }
            out.push(entry);
            proof {
                assert(out@ =~= spec_layout_of(self@).subrange(0, i + 1));
            }
            i = i + 1;
        }
        proof {
            assert(out@ =~= spec_layout_of(self@));
        }
        BindGroupLayout { layout: out }
    }

    /// The number of bindings.
    pub(crate) fn bindings_count(&self) -> (n: usize)
        ensures
            n == self@.bindings.len(),
    {
        self.bindings.len()
    }

    /// The binding at the given position.
    pub(crate) fn binding_at(&self, i: usize) -> (b: Binding)
        requires
            i < self@.bindings.len(),
        ensures
            b@ == self@.bindings[i as int],
    {
        self.bindings[i]
    }

    /// A copy of the debug name.
    pub(crate) fn name_dup(&self) -> (r: Option<String>)
        ensures
            self@.name == (match r {
                Some(l) => Some(l@),
                None => None::<Seq<char>>,
            }),
    {
        match &self.name {
            Some(n) => Some(n.clone()),
            None => None,
        }
    }

    /// Resolve this bind group through the bind group cache: the same
    /// bindings and name always yield the same device bind group, and a
    /// miss resolves the layout and every referenced resource first.
    pub(crate) fn get_or_build(&self, context: &mut crate::context::Context) -> (id: u64)
        requires
            old(context).wf(),
            self.wf(),
        ensures
            final(context).wf(),
            crate::context::bind_group_resolution(*old(context), *final(context), self@, id),
    {
        context.resolve_bind_group(self)
    }

    /// An identical bind group value.
    pub fn duplicate(&self) -> (r: Self)
        ensures
            r@ == self@,
    {
        let mut out: Vec<Binding> = Vec::new();
        let n = self.bindings.len();
        let mut i: usize = 0;
        while i < n
            invariant
                i <= n,
                n == self.bindings@.len(),
                out@ == self.bindings@.subrange(0, i as int),
            decreases n - i,
        {
            out.push(self.bindings[i]);
            proof {
                assert(out@ =~= self.bindings@.subrange(0, i + 1));
            }
            i = i + 1;
        }
        proof {
            assert(out@ =~= self.bindings@);
        }
        let name: Option<String> = match &self.name {
            Some(n) => Some(n.clone()),
            None => None,
        };
        let r = BindGroup { bindings: out, name };
        proof {
            assert(r@.bindings =~= self@.bindings);
        }
        r
    }
}

/// Builds a [`BindGroup`].
pub struct BindGroupBuilder {
    bindings: Vec<Binding>,
    name: Option<String>,
}

impl BindGroupBuilder {
    /// The bindings accumulated so far.
    pub closed spec fn spec_bindings(&self) -> Seq<BindingView> {
        self.bindings@.map_values(|b: Binding| b@)
    }

    /// The debug name set so far.
    pub closed spec fn spec_name(&self) -> Option<Seq<char>> {
        match self.name {
            Some(n) => Some(n@),
            None => None,
        }
    }

    /// Every accumulated binding slot fits a 32-bit binding index.
    pub open spec fn wf(&self) -> bool {
        forall|i: int|
            0 <= i < self.spec_bindings().len() ==> (#[trigger] self.spec_bindings()[i].binding)
                <= u32::MAX
    }

    /// Create a new builder with no bindings and no name.
    pub fn new() -> (r: Self)
        ensures
            r.spec_bindings() == Seq::<BindingView>::empty(),
            r.spec_name() == Option::<Seq<char>>::None,
            r.wf(),
    {
        let r = BindGroupBuilder { bindings: Vec::new(), name: None };
        proof {
            assert(r.spec_bindings() =~= Seq::<BindingView>::empty());
        }
        r
    }

    /// Set the optional debug name.  It may appear in device error messages
    /// and profiler traces.
    pub fn name(self, name: &str) -> (r: Self)
        ensures
            r.spec_bindings() == self.spec_bindings(),
            r.spec_name() == Some(name@),
            r.wf() == self.wf(),
    {
        BindGroupBuilder { name: Some(name.to_owned()), ..self }
    }

    /// Bind a buffer to the given slot.
    pub fn buffer(
        self,
        binding: usize,
        visibility: ShaderStages,
        buffer: &BufferBinding,
        size: Option<usize>,
    ) -> (r: Self)
        requires
            binding <= u32::MAX,
        ensures
            r.spec_bindings() == self.spec_bindings().push(
                BindingView {
                    binding,
                    visibility,
                    resource: BindingResourceView::Buffer(*buffer, size),
                },
            ),
            r.spec_name() == self.spec_name(),
            self.wf() ==> r.wf(),
    {
        let mut bindings = self.bindings;
        bindings.push(
            Binding { binding, visibility, resource: BindingResource::Buffer(*buffer, size) },
        );
        let r = BindGroupBuilder { bindings, name: self.name };
        proof {
            assert(r.spec_bindings() =~= self.spec_bindings().push(
                BindingView {
                    binding,
                    visibility,
                    resource: BindingResourceView::Buffer(*buffer, size),
                },
            ));
        }
        r
    }

    /// Bind a texture to the given slot.
    pub fn texture(self, binding: usize, visibility: ShaderStages, texture: &TextureBinding) -> (r:
        Self)
        requires
            binding <= u32::MAX,
        ensures
            r.spec_bindings() == self.spec_bindings().push(
                BindingView {
                    binding,
                    visibility,
                    resource: BindingResourceView::Texture(texture@),
                },
            ),
            r.spec_name() == self.spec_name(),
            self.wf() ==> r.wf(),
    {
        let mut bindings = self.bindings;
        bindings.push(Binding { binding, visibility, resource: BindingResource::Texture(*texture) });
        let r = BindGroupBuilder { bindings, name: self.name };
        proof {
            assert(r.spec_bindings() =~= self.spec_bindings().push(
                BindingView {
                    binding,
                    visibility,
                    resource: BindingResourceView::Texture(texture@),
                },
            ));
        }
        r
    }

    /// Bind a sampler to the given slot.
    pub fn sampler(self, binding: usize, visibility: ShaderStages, sampler: &Sampler) -> (r: Self)
        requires
            binding <= u32::MAX,
        ensures
            r.spec_bindings() == self.spec_bindings().push(
                BindingView {
                    binding,
                    visibility,
                    resource: BindingResourceView::Sampler(sampler@),
                },
            ),
            r.spec_name() == self.spec_name(),
            self.wf() ==> r.wf(),
    {
        let mut bindings = self.bindings;
        bindings.push(Binding { binding, visibility, resource: BindingResource::Sampler(*sampler) });
        let r = BindGroupBuilder { bindings, name: self.name };
        proof {
            assert(r.spec_bindings() =~= self.spec_bindings().push(
                BindingView {
                    binding,
                    visibility,
                    resource: BindingResourceView::Sampler(sampler@),
                },
            ));
        }
        r
    }

    /// Consume this builder and return the described [`BindGroup`].
    pub fn build(self) -> (r: BindGroup)
        requires
            self.wf(),
        ensures
            r@ == (BindGroupView { bindings: self.spec_bindings(), name: self.spec_name() }),
            r.wf(),
    {
        BindGroup { bindings: self.bindings, name: self.name }
    }
}

} // verus!
