//! Plain-value models of the GPU configuration types that descriptors are
//! built from.  Every type here is pure data with structural equality; the
//! application translates them into the device API's own types when it
//! executes a plan.

use vstd::prelude::*;

verus! {

/// Which shader stages a binding is visible to.
#[derive(Clone, Copy, PartialEq, Eq, Structural, Hash, Debug)]
pub struct ShaderStages {
    pub vertex: bool,
    pub fragment: bool,
    pub compute: bool,
}

impl ShaderStages {
    /// Visibility covering no stage.
    pub fn none() -> (r: Self)
        ensures
            r == (ShaderStages { vertex: false, fragment: false, compute: false }),
    {
        ShaderStages { vertex: false, fragment: false, compute: false }
    }

    /// Visibility covering the vertex stage only.
    pub fn vertex_stage() -> (r: Self)
        ensures
            r == (ShaderStages { vertex: true, fragment: false, compute: false }),
    {
        ShaderStages { vertex: true, fragment: false, compute: false }
    }

    /// Visibility covering the fragment stage only.
    pub fn fragment_stage() -> (r: Self)
        ensures
            r == (ShaderStages { vertex: false, fragment: true, compute: false }),
    {
        ShaderStages { vertex: false, fragment: true, compute: false }
    }

    /// Visibility covering the compute stage only.
    pub fn compute_stage() -> (r: Self)
        ensures
            r == (ShaderStages { vertex: false, fragment: false, compute: true }),
    {
        ShaderStages { vertex: false, fragment: false, compute: true }
    }

    /// The stage-wise union of two visibilities.
    pub fn union(self, other: Self) -> (r: Self)
        ensures
            r == (ShaderStages {
                vertex: self.vertex || other.vertex,
                fragment: self.fragment || other.fragment,
                compute: self.compute || other.compute,
            }),
    {
        ShaderStages {
            vertex: self.vertex || other.vertex,
            fragment: self.fragment || other.fragment,
            compute: self.compute || other.compute,
        }
    }
}

/// How a buffer is exposed to a shader.
#[derive(Clone, Copy, PartialEq, Eq, Structural, Hash, Debug)]
pub enum BufferBindingType {
    Uniform,
    Storage { read_only: bool },
}

/// The filtering class of a sampler binding.
#[derive(Clone, Copy, PartialEq, Eq, Structural, Hash, Debug)]
pub enum SamplerBindingType {
    Filtering,
    NonFiltering,
}

/// How a texture's texels are sampled in a shader.
#[derive(Clone, Copy, PartialEq, Eq, Structural, Hash, Debug)]
pub enum TextureSampleType {
    Float { filterable: bool },
    Uint,
    Sint,
}

/// The dimensionality of a texture.
#[derive(Clone, Copy, PartialEq, Eq, Structural, Hash, Debug)]
pub enum TextureDimension {
    D1,
    D2,
    D3,
}

/// The dimensionality of a texture view.
#[derive(Clone, Copy, PartialEq, Eq, Structural, Hash, Debug)]
pub enum TextureViewDimension {
    D1,
    D2,
    D3,
}

/// How a storage texture may be accessed.
#[derive(Clone, Copy, PartialEq, Eq, Structural, Hash, Debug)]
pub enum StorageTextureAccess {
    WriteOnly,
    ReadOnly,
    ReadWrite,
}

/// The pixel format of a texture.
#[derive(Clone, Copy, PartialEq, Eq, Structural, Hash, Debug)]
pub enum TextureFormat {
    R8Unorm,
    R8Snorm,
    R8Uint,
    R8Sint,
    Rg8Unorm,
    Rg8Snorm,
    Rg8Uint,
    Rg8Sint,
    Rgba8Unorm,
    Rgba8UnormSrgb,
    Rgba8Snorm,
    Rgba8Uint,
    Rgba8Sint,
    Bgra8Unorm,
    Bgra8UnormSrgb,
    R16Uint,
    R16Sint,
    R16Float,
    Rg16Uint,
    Rg16Sint,
    Rgba16Uint,
    Rgba16Sint,
    Rgba16Float,
    R32Uint,
    R32Sint,
    R32Float,
    Rg32Uint,
    Rg32Sint,
    Rg32Float,
    Rgba32Uint,
    Rgba32Sint,
    Rgba32Float,
    Rgb10a2Unorm,
    Rg11b10Float,
    Depth24PlusStencil8,
    Depth32Float,
}

/// A depth/stencil comparison function.
#[derive(Clone, Copy, PartialEq, Eq, Structural, Hash, Debug)]
pub enum CompareFunction {
    Never,
    Less,
    Equal,
    LessEqual,
    Greater,
    NotEqual,
    GreaterEqual,
    Always,
}

/// How texture coordinates outside `[0, 1]` are addressed by a sampler.
#[derive(Clone, Copy, PartialEq, Eq, Structural, Hash, Debug)]
pub enum AddressMode {
    ClampToEdge,
    Repeat,
}

/// A sampler's interpolation mode.
#[derive(Clone, Copy, PartialEq, Eq, Structural, Hash, Debug)]
pub enum FilterMode {
    Nearest,
    Linear,
}

/// Which triangle winding is considered front-facing.
#[derive(Clone, Copy, PartialEq, Eq, Structural, Hash, Debug)]
pub enum FrontFace {
    Ccw,
    Cw,
}

/// A triangle face, for culling.
#[derive(Clone, Copy, Debug)]
pub enum Face {
    Front,
    Back,
}

impl PartialEq for Face {
    fn eq(&self, other: &Self) -> (r: bool) {
        match (self, other) {
            (Face::Front, Face::Front) => true,
            (Face::Back, Face::Back) => true,
            _ => false,
        }
    }
}

impl vstd::std_specs::cmp::PartialEqSpecImpl for Face {
    open spec fn obeys_eq_spec() -> bool {
        true
    }

    open spec fn eq_spec(&self, other: &Self) -> bool {
        *self == *other
    }
}

/// How polygons are rasterised.
#[derive(Clone, Copy, PartialEq, Eq, Structural, Hash, Debug)]
pub enum PolygonMode {
    Fill,
    Line,
    Point,
}

/// Whether a vertex buffer advances per vertex or per instance.
#[derive(Clone, Copy, PartialEq, Eq, Structural, Hash, Debug)]
pub enum VertexStepMode {
    Vertex,
    Instance,
}

/// The element type of an index buffer.
#[derive(Clone, Copy, PartialEq, Eq, Structural, Hash, Debug)]
pub enum IndexFormat {
    Uint16,
    Uint32,
}

/// The format of one vertex attribute.
#[derive(Clone, Copy, PartialEq, Eq, Structural, Hash, Debug)]
pub enum VertexFormat {
    Uint8x2,
    Uint8x4,
    Unorm8x4,
    Uint16x2,
    Uint16x4,
    Float16x2,
    Float16x4,
    Float32,
    Float32x2,
    Float32x3,
    Float32x4,
    Uint32,
    Sint32,
}

/// One attribute within a vertex buffer layout.
#[derive(Clone, Copy, Debug)]
pub struct VertexAttribute {
    pub format: VertexFormat,
    pub offset: u64,
    pub shader_location: u32,
}

impl PartialEq for VertexAttribute {
    fn eq(&self, other: &Self) -> (r: bool) {
        self.format == other.format && self.offset == other.offset && self.shader_location
            == other.shader_location
    }
}

impl vstd::std_specs::cmp::PartialEqSpecImpl for VertexAttribute {
    open spec fn obeys_eq_spec() -> bool {
        true
    }

    open spec fn eq_spec(&self, other: &Self) -> bool {
        *self == *other
    }
}

/// A blend factor for one side of a blend equation.
#[derive(Clone, Copy, PartialEq, Eq, Structural, Hash, Debug)]
pub enum BlendFactor {
    Zero,
    One,
    Src,
    OneMinusSrc,
    SrcAlpha,
    OneMinusSrcAlpha,
    Dst,
    OneMinusDst,
    DstAlpha,
    OneMinusDstAlpha,
}

/// A blend operation combining source and destination.
#[derive(Clone, Copy, PartialEq, Eq, Structural, Hash, Debug)]
pub enum BlendOperation {
    Add,
    Subtract,
    ReverseSubtract,
    Min,
    Max,
}

/// The blend equation for one channel group.
#[derive(Clone, Copy, PartialEq, Eq, Structural, Hash, Debug)]
pub struct BlendComponent {
    pub src_factor: BlendFactor,
    pub dst_factor: BlendFactor,
    pub operation: BlendOperation,
}

/// The full blend state of a color target.
#[derive(Clone, Copy, Debug)]
pub struct BlendState {
    pub color: BlendComponent,
    pub alpha: BlendComponent,
}

impl PartialEq for BlendState {
    fn eq(&self, other: &Self) -> (r: bool) {
        self.color == other.color && self.alpha == other.alpha
    }
}

impl vstd::std_specs::cmp::PartialEqSpecImpl for BlendState {
    open spec fn obeys_eq_spec() -> bool {
        true
    }

    open spec fn eq_spec(&self, other: &Self) -> bool {
        *self == *other
    }
}

/// A bit mask of color channels that a render target writes.
#[derive(Clone, Copy, PartialEq, Eq, Structural, Hash, Debug)]
pub struct ColorWrites {
    pub bits: u32,
}

impl ColorWrites {
    /// The mask writing all four channels.
    pub fn all_channels() -> (r: Self)
        ensures
            r == (ColorWrites { bits: 0xf }),
    {
        ColorWrites { bits: 0xf }
    }
}

/// Multisampling configuration of a render pass or pipeline.
#[derive(Clone, Copy, PartialEq, Eq, Structural, Hash, Debug)]
pub struct MultisampleState {
    pub count: u32,
    pub mask: u64,
    pub alpha_to_coverage_enabled: bool,
}

impl MultisampleState {
    /// Single-sampled, all mask bits set, no alpha-to-coverage.
    pub fn single_sample() -> (r: Self)
        ensures
            r == (MultisampleState {
                count: 1,
                mask: 0xffff_ffff_ffff_ffff,
                alpha_to_coverage_enabled: false,
            }),
    {
        MultisampleState { count: 1, mask: 0xffff_ffff_ffff_ffff, alpha_to_coverage_enabled: false }
    }
}

/// The extent of a texture in texels and layers.
#[derive(Clone, Copy, PartialEq, Eq, Structural, Hash, Debug)]
pub struct Extent3d {
    pub width: u32,
    pub height: u32,
    pub depth_or_array_layers: u32,
}

/// A bit mask of the ways a buffer may be used.
#[derive(Clone, Copy, PartialEq, Eq, Structural, Hash, Debug)]
pub struct BufferUsages {
    pub bits: u32,
}

/// A bit mask of the ways a texture may be used.
#[derive(Clone, Copy, PartialEq, Eq, Structural, Hash, Debug)]
pub struct TextureUsages {
    pub bits: u32,
}

/// The clear color of a color attachment, as the IEEE 754 bit patterns of
/// the four double-precision channel values.  Holding the bits keeps the
/// value exact while it passes through the plan; the application reassembles
/// the channel values when it begins the pass.
#[derive(Clone, Copy, PartialEq, Eq, Structural, Hash, Debug)]
pub struct ColorBits {
    pub r: u64,
    pub g: u64,
    pub b: u64,
    pub a: u64,
}

/// What happens to an attachment at the start of a pass.
#[derive(Clone, Copy, PartialEq, Eq, Structural, Hash, Debug)]
pub enum LoadOp<V> {
    Clear(V),
    Load,
}

/// What happens to an attachment at the end of a pass.
#[derive(Clone, Copy, PartialEq, Eq, Structural, Hash, Debug)]
pub enum StoreOp {
    Store,
    Discard,
}

/// Load and store behaviour of one attachment.
#[derive(Clone, Copy, PartialEq, Eq, Structural, Hash, Debug)]
pub struct AttachmentOps<V> {
    pub load: LoadOp<V>,
    pub store: StoreOp,
}

/// How a resource is exposed to shaders: the part of a binding that layout
/// derivation looks at.  Resource identity never appears here.
#[derive(Clone, Copy, Hash, Debug)]
pub enum BindingType {
    Buffer { ty: BufferBindingType, has_dynamic_offset: bool, min_binding_size: Option<u64> },
    Sampler(SamplerBindingType),
    Texture { sample_type: TextureSampleType, view_dimension: TextureViewDimension, multisampled: bool },
    StorageTexture { access: StorageTextureAccess, format: TextureFormat, view_dimension: TextureViewDimension },
}

impl PartialEq for BindingType {
    fn eq(&self, other: &Self) -> (r: bool)
    {
        match (self, other) {
            (
                BindingType::Buffer { ty: t1, has_dynamic_offset: d1, min_binding_size: m1 },
                BindingType::Buffer { ty: t2, has_dynamic_offset: d2, min_binding_size: m2 },
            ) => *t1 == *t2 && *d1 == *d2 && *m1 == *m2,
            (BindingType::Sampler(s1), BindingType::Sampler(s2)) => *s1 == *s2,
            (
                BindingType::Texture { sample_type: s1, view_dimension: v1, multisampled: m1 },
                BindingType::Texture { sample_type: s2, view_dimension: v2, multisampled: m2 },
            ) => *s1 == *s2 && *v1 == *v2 && *m1 == *m2,
            (
                BindingType::StorageTexture { access: a1, format: f1, view_dimension: v1 },
                BindingType::StorageTexture { access: a2, format: f2, view_dimension: v2 },
            ) => *a1 == *a2 && *f1 == *f2 && *v1 == *v2,
            _ => false,
        }
    }
}

impl vstd::std_specs::cmp::PartialEqSpecImpl for BindingType {
    open spec fn obeys_eq_spec() -> bool {
        true
    }

    open spec fn eq_spec(&self, other: &Self) -> bool {
        *self == *other
    }
}

/// One entry of a bind group layout: everything the device needs to know
/// about a binding slot, independent of the resource bound there.
#[derive(Clone, Copy, Hash, Debug)]
pub struct BindGroupLayoutEntry {
    pub binding: u32,
    pub visibility: ShaderStages,
    pub ty: BindingType,
    pub count: Option<u32>,
}

impl PartialEq for BindGroupLayoutEntry {
    fn eq(&self, other: &Self) -> (r: bool)
    {
        self.binding == other.binding && self.visibility == other.visibility && self.ty
            == other.ty && self.count == other.count
    }
}

impl vstd::std_specs::cmp::PartialEqSpecImpl for BindGroupLayoutEntry {
    open spec fn obeys_eq_spec() -> bool {
        true
    }

    open spec fn eq_spec(&self, other: &Self) -> bool {
        *self == *other
    }
}

} // verus!
