//! GPU texture handles.
//!
//! A texture handle carries the identity and the configuration of a planned
//! device texture, plus the mip window this particular handle views.  Handle
//! identity — what bind-group keys compare — is the texture's identity and
//! its mip window, nothing else.

use crate::commands::{CreateAction, CreateActionView};
use crate::context::{context_unchanged, fresh_resource_id, Context};
use crate::render_texture::RenderTexture;
use crate::types::{
    BindingType, Extent3d, StorageTextureAccess, TextureDimension, TextureFormat,
    TextureSampleType, TextureUsages, TextureViewDimension,
};
use vstd::prelude::*;

verus! {

/// A handle to a GPU texture, possibly restricted to a mip window.
#[derive(Clone, Copy, Debug)]
pub struct Texture {
    pub(crate) id: u128,
    pub(crate) format: TextureFormat,
    pub(crate) dimension: TextureDimension,
    pub(crate) size: Extent3d,
    pub(crate) usage: TextureUsages,
    pub(crate) base_mip_level: u32,
    pub(crate) mip_level_count: Option<u32>,
    pub(crate) sample_count: u32,
}

/// The identity of a texture handle: which device texture, viewed through
/// which mip window.
pub ghost struct TextureKey {
    pub id: u128,
    pub base_mip_level: u32,
    pub mip_level_count: Option<u32>,
}

impl View for Texture {
    type V = TextureKey;

    closed spec fn view(&self) -> TextureKey {
        TextureKey {
            id: self.id,
            base_mip_level: self.base_mip_level,
            mip_level_count: self.mip_level_count,
        }
    }
}

impl PartialEq for Texture {
    fn eq(&self, other: &Self) -> (r: bool) {
        self.id == other.id && self.base_mip_level == other.base_mip_level
            && self.mip_level_count == other.mip_level_count
    }
}

impl vstd::std_specs::cmp::PartialEqSpecImpl for Texture {
    open spec fn obeys_eq_spec() -> bool {
        true
    }

    open spec fn eq_spec(&self, other: &Self) -> bool {
        self@ == other@
    }
}

/// The key type of the texture view cache compares by view equality.
pub broadcast proof fn lemma_texture_obeys_view_eq()
    ensures
        #[trigger] vstd::laws_eq::obeys_view_eq::<Texture>(),
{
    reveal(vstd::laws_eq::obeys_view_eq);
}

/// The view dimension implied by a texture's dimension.
pub open spec fn spec_view_dimension(d: TextureDimension) -> TextureViewDimension {
    match d {
        TextureDimension::D1 => TextureViewDimension::D1,
        TextureDimension::D2 => TextureViewDimension::D2,
        TextureDimension::D3 => TextureViewDimension::D3,
    }
}

/// How shaders sample a pixel format: unsigned-integer formats sample as
/// `Uint`, signed-integer formats as `Sint`, filterable color formats as
/// filterable `Float`, and everything else as unfilterable `Float`.
pub open spec fn spec_sample_type(f: TextureFormat) -> TextureSampleType {
    match f {
        TextureFormat::R8Unorm
        | TextureFormat::R8Snorm
        | TextureFormat::Rg8Unorm
        | TextureFormat::Rg8Snorm
        | TextureFormat::Rgba8Unorm
        | TextureFormat::Rgba8Snorm
        | TextureFormat::Rgba8UnormSrgb
        | TextureFormat::Bgra8Unorm
        | TextureFormat::Bgra8UnormSrgb
        | TextureFormat::R16Float
        | TextureFormat::Rgba16Float
        | TextureFormat::Rgb10a2Unorm
        | TextureFormat::Rg11b10Float => TextureSampleType::Float { filterable: true },
        TextureFormat::R8Uint
        | TextureFormat::Rg8Uint
        | TextureFormat::Rgba8Uint
        | TextureFormat::R16Uint
        | TextureFormat::Rg16Uint
        | TextureFormat::Rgba16Uint
        | TextureFormat::R32Uint
        | TextureFormat::Rg32Uint
        | TextureFormat::Rgba32Uint => TextureSampleType::Uint,
        TextureFormat::R8Sint
        | TextureFormat::Rg8Sint
        | TextureFormat::Rgba8Sint
        | TextureFormat::R16Sint
        | TextureFormat::Rg16Sint
        | TextureFormat::Rgba16Sint
        | TextureFormat::R32Sint
        | TextureFormat::Rg32Sint
        | TextureFormat::Rgba32Sint => TextureSampleType::Sint,
        _ => TextureSampleType::Float { filterable: false },
    }
}

impl Texture {
    /// Create a new empty texture, planning the device allocation.
    pub fn new(desc: &TextureDescriptor, context: &mut Context) -> (r: Texture)
        requires
            old(context).wf(),
        ensures
            final(context).wf(),
            context_unchanged(*old(context), *final(context)),
            final(context).spec_next_id() == old(context).spec_next_id(),
            r.spec_format() == desc.format,
            r.spec_dimension() == desc.dimension,
            r.spec_size() == desc.size,
            r.spec_usage() == desc.usage,
            r.spec_base_mip_level() == 0,
            r.spec_mip_level_count() == (if desc.mip_level_count == 0 {
                Option::<u32>::None
            } else {
                Some(desc.mip_level_count)
            }),
            r.spec_sample_count() == desc.sample_count,
            final(context).spec_actions() == old(context).spec_actions().push(
                CreateActionView::Texture { id: r.spec_id(), label: None, desc: *desc },
            ),
    {
        let id = fresh_resource_id();
        context.push_action(CreateAction::Texture { id, label: None, desc: *desc });
        let mip_level_count: Option<u32> = if desc.mip_level_count == 0 {
            None
        } else {
            Some(desc.mip_level_count)
        };
        Texture {
            id,
            format: desc.format,
            dimension: desc.dimension,
            size: desc.size,
            usage: desc.usage,
            base_mip_level: 0,
            mip_level_count,
            sample_count: desc.sample_count,
        }
    }

    /// Create a texture from pixel data, planning the device allocation and
    /// the upload of the data.
    pub fn with_data(
        desc: &TextureDescriptor,
        data: &[u8],
        bytes_per_row: Option<u32>,
        context: &mut Context,
    ) -> (r: Texture)
        requires
            old(context).wf(),
        ensures
            final(context).wf(),
            context_unchanged(*old(context), *final(context)),
            final(context).spec_next_id() == old(context).spec_next_id(),
            r.spec_format() == desc.format,
            r.spec_dimension() == desc.dimension,
            r.spec_size() == desc.size,
            r.spec_usage() == desc.usage,
            r.spec_base_mip_level() == 0,
            r.spec_mip_level_count() == (if desc.mip_level_count == 0 {
                Option::<u32>::None
            } else {
                Some(desc.mip_level_count)
            }),
            r.spec_sample_count() == desc.sample_count,
            final(context).spec_actions() == old(context).spec_actions().push(
                CreateActionView::Texture { id: r.spec_id(), label: None, desc: *desc },
            ).push(
                CreateActionView::WriteTexture {
                    id: r.spec_id(),
                    data: data@,
                    bytes_per_row,
                    size: desc.size,
                },
            ),
    {
        let r = Texture::new(desc, context);
        let contents = crate::buffer::slice_bytes_to_vec(data);
        context.push_action(
            CreateAction::WriteTexture {
                id: r.id,
                data: contents,
                bytes_per_row,
                size: desc.size,
            },
        );
        r
    }

    /// Resolve this handle's view object through the texture view cache,
    /// and pair it with the texture's format as a render target.
    pub fn as_render_texture(&self, context: &mut Context) -> (r: RenderTexture)
        requires
            old(context).wf(),
        ensures
            final(context).wf(),
            crate::context::texture_view_resolution(
                *old(context),
                *final(context),
                self@,
                r.view,
            ),
            r.format == self.spec_format(),
    {
        let view = self.get_or_build(context);
        RenderTexture { view, format: self.format }
    }

    /// Resolve this handle's view object through the texture view cache:
    /// the same texture and mip window always yield the same device view.
    pub(crate) fn get_or_build(&self, context: &mut Context) -> (id: u64)
        requires
            old(context).wf(),
        ensures
            final(context).wf(),
            crate::context::texture_view_resolution(*old(context), *final(context), self@, id),
    {
        context.resolve_texture_view(self)
    }

    /// The identity of the underlying device texture.
    pub closed spec fn spec_id(&self) -> u128 {
        self.id
    }

    /// The pixel format the texture was created with.
    pub closed spec fn spec_format(&self) -> TextureFormat {
        self.format
    }

    /// The dimensionality the texture was created with.
    pub closed spec fn spec_dimension(&self) -> TextureDimension {
        self.dimension
    }

    /// The extent the texture was created with.
    pub closed spec fn spec_size(&self) -> Extent3d {
        self.size
    }

    /// The usage mask the texture was created with.
    pub closed spec fn spec_usage(&self) -> TextureUsages {
        self.usage
    }

    /// The first mip level this handle views.
    pub closed spec fn spec_base_mip_level(&self) -> u32 {
        self.base_mip_level
    }

    /// How many mip levels this handle views, if restricted.
    pub closed spec fn spec_mip_level_count(&self) -> Option<u32> {
        self.mip_level_count
    }

    /// The sample count the texture was created with.
    pub closed spec fn spec_sample_count(&self) -> u32 {
        self.sample_count
    }

    /// The extent the texture was created with.
    pub fn size(&self) -> (r: Extent3d)
        ensures
            r == self.spec_size(),
    {
        self.size
    }

    /// The dimensionality the texture was created with.
    pub fn dimension(&self) -> (r: TextureDimension)
        ensures
            r == self.spec_dimension(),
    {
        self.dimension
    }

    fn sample_type(&self) -> (r: TextureSampleType)
        ensures
            r == spec_sample_type(self.spec_format()),
    {
        match self.format {
            TextureFormat::R8Unorm
            | TextureFormat::R8Snorm
            | TextureFormat::Rg8Unorm
            | TextureFormat::Rg8Snorm
            | TextureFormat::Rgba8Unorm
            | TextureFormat::Rgba8Snorm
            | TextureFormat::Rgba8UnormSrgb
            | TextureFormat::Bgra8Unorm
            | TextureFormat::Bgra8UnormSrgb
            | TextureFormat::R16Float
            | TextureFormat::Rgba16Float
            | TextureFormat::Rgb10a2Unorm
            | TextureFormat::Rg11b10Float => TextureSampleType::Float { filterable: true },
            TextureFormat::R8Uint
            | TextureFormat::Rg8Uint
            | TextureFormat::Rgba8Uint
            | TextureFormat::R16Uint
            | TextureFormat::Rg16Uint
            | TextureFormat::Rgba16Uint
            | TextureFormat::R32Uint
            | TextureFormat::Rg32Uint
            | TextureFormat::Rgba32Uint => TextureSampleType::Uint,
            TextureFormat::R8Sint
            | TextureFormat::Rg8Sint
            | TextureFormat::Rgba8Sint
            | TextureFormat::R16Sint
            | TextureFormat::Rg16Sint
            | TextureFormat::Rgba16Sint
            | TextureFormat::R32Sint
            | TextureFormat::Rg32Sint
            | TextureFormat::Rgba32Sint => TextureSampleType::Sint,
            _ => TextureSampleType::Float { filterable: false },
        }
    }

    /// The identity and mip window of this handle, for planning its view.
    pub(crate) fn view_descriptor(&self) -> (r: (u128, u32, Option<u32>))
        ensures
            r.0 == self@.id,
            r.1 == self@.base_mip_level,
            r.2 == self@.mip_level_count,
    {
        (self.id, self.base_mip_level, self.mip_level_count)
    }

    /// A handle to the same texture restricted to the given mip window.
    pub fn mip_view(&self, base_mip_level: u32, mip_level_count: Option<u32>) -> (r: Texture)
        ensures
            r.spec_id() == self.spec_id(),
            r.spec_format() == self.spec_format(),
            r.spec_dimension() == self.spec_dimension(),
            r.spec_size() == self.spec_size(),
            r.spec_usage() == self.spec_usage(),
            r.spec_base_mip_level() == base_mip_level,
            r.spec_mip_level_count() == mip_level_count,
            r.spec_sample_count() == self.spec_sample_count(),
    {
        Texture { base_mip_level, mip_level_count, ..*self }
    }

    /// Bind this texture for sampling, for use in a bind group.  The layout
    /// a bind group derives from the binding depends only on the texture's
    /// format, dimension and sample count.
    #[must_use]
    pub fn texture_binding(&self) -> (r: TextureBinding)
        ensures
            r.texture == *self,
            r.binding_type == (BindingType::Texture {
                sample_type: spec_sample_type(self.spec_format()),
                view_dimension: spec_view_dimension(self.spec_dimension()),
                multisampled: self.spec_sample_count() > 1,
            }),
    {
        let view_dimension = match self.dimension {
            TextureDimension::D1 => TextureViewDimension::D1,
            TextureDimension::D2 => TextureViewDimension::D2,
            TextureDimension::D3 => TextureViewDimension::D3,
        };
        TextureBinding {
            texture: *self,
            binding_type: BindingType::Texture {
                sample_type: self.sample_type(),
                view_dimension,
                multisampled: self.sample_count > 1,
            },
        }
    }

    /// Bind this texture as a write-only storage texture, for use in a bind
    /// group.
    #[must_use]
    pub fn storage_binding(&self) -> (r: TextureBinding)
        ensures
            r.texture == *self,
            r.binding_type == (BindingType::StorageTexture {
                access: StorageTextureAccess::WriteOnly,
                format: self.spec_format(),
                view_dimension: spec_view_dimension(self.spec_dimension()),
            }),
    {
        let view_dimension = match self.dimension {
            TextureDimension::D1 => TextureViewDimension::D1,
            TextureDimension::D2 => TextureViewDimension::D2,
            TextureDimension::D3 => TextureViewDimension::D3,
        };
        TextureBinding {
            texture: *self,
            binding_type: BindingType::StorageTexture {
                access: StorageTextureAccess::WriteOnly,
                format: self.format,
                view_dimension,
            },
        }
    }
}

/// The identity of a texture binding: the texture's identity plus how it is
/// exposed to shaders.
pub ghost struct TextureBindingView {
    pub texture: TextureKey,
    pub binding_type: BindingType,
}

/// How a texture is attached to a bind group slot.
#[derive(Clone, Copy, Debug)]
pub struct TextureBinding {
    pub texture: Texture,
    pub binding_type: BindingType,
}

impl View for TextureBinding {
    type V = TextureBindingView;

    open spec fn view(&self) -> TextureBindingView {
        TextureBindingView { texture: self.texture@, binding_type: self.binding_type }
    }
}

impl PartialEq for TextureBinding {
    fn eq(&self, other: &Self) -> (r: bool) {
        self.texture == other.texture && self.binding_type == other.binding_type
    }
}

impl vstd::std_specs::cmp::PartialEqSpecImpl for TextureBinding {
    open spec fn obeys_eq_spec() -> bool {
        true
    }

    open spec fn eq_spec(&self, other: &Self) -> bool {
        self@ == other@
    }
}

/// The configuration of a planned device texture.
#[derive(Clone, Copy, Debug)]
pub struct TextureDescriptor {
    pub size: Extent3d,
    pub mip_level_count: u32,
    pub sample_count: u32,
    pub dimension: TextureDimension,
    pub format: TextureFormat,
    pub usage: TextureUsages,
}

} // verus!
