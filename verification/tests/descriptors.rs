use gpu_batch::bind_group::BindGroupBuilder;
use gpu_batch::buffer::{constrain_range_to_container_len, Buffer, SliceBound};
use gpu_batch::context::Context;
use gpu_batch::draw_call::RasteriserState;
use gpu_batch::render_pipeline::ColorTargetState;
use gpu_batch::texture::{Texture, TextureDescriptor};
use gpu_batch::types::{
    BindingType, BufferBindingType, BufferUsages, ColorWrites, CompareFunction, Extent3d,
    FrontFace, PolygonMode, ShaderStages, TextureDimension, TextureFormat, TextureSampleType,
    TextureUsages, TextureViewDimension,
};

fn vertex_visible() -> ShaderStages {
    ShaderStages { vertex: true, fragment: false, compute: false }
}

fn fragment_visible() -> ShaderStages {
    ShaderStages { vertex: false, fragment: true, compute: false }
}

fn small_texture_desc() -> TextureDescriptor {
    TextureDescriptor {
        size: Extent3d { width: 4, height: 4, depth_or_array_layers: 1 },
        mip_level_count: 1,
        sample_count: 1,
        dimension: TextureDimension::D2,
        format: TextureFormat::Rgba8Unorm,
        usage: TextureUsages { bits: 0 },
    }
}

fn uniform_buffer(ctx: &mut Context) -> Buffer {
    Buffer::new(None, BufferUsages { bits: 0 }, 64, ctx)
}

#[test]
fn layout_depends_on_shape_not_identity() {
    let mut ctx = Context::new();
    // Two different buffers, same slot, visibility and binding kind.
    let b1 = uniform_buffer(&mut ctx);
    let b2 = uniform_buffer(&mut ctx);
    assert_ne!(b1.id(), b2.id());
    assert!(b1 == b1);
    assert!(b1 != b2);
    let g1 = BindGroupBuilder::new().buffer(0, vertex_visible(), &b1.uniform_binding(), None).build();
    let g2 = BindGroupBuilder::new().buffer(0, vertex_visible(), &b2.uniform_binding(), None).build();
    // The bind groups differ (different resources) but their derived
    // layouts are value-equal.
    assert!(g1 != g2);
    assert!(g1.build_layout() == g2.build_layout());
}

#[test]
fn layout_changes_with_slot_visibility_or_kind() {
    let mut ctx = Context::new();
    let b = uniform_buffer(&mut ctx);
    let base = BindGroupBuilder::new().buffer(0, vertex_visible(), &b.uniform_binding(), None).build();
    let other_slot =
        BindGroupBuilder::new().buffer(1, vertex_visible(), &b.uniform_binding(), None).build();
    let other_vis =
        BindGroupBuilder::new().buffer(0, fragment_visible(), &b.uniform_binding(), None).build();
    let other_kind =
        BindGroupBuilder::new().buffer(0, vertex_visible(), &b.storage_binding(true), None).build();
    assert!(base.build_layout() != other_slot.build_layout());
    assert!(base.build_layout() != other_vis.build_layout());
    assert!(base.build_layout() != other_kind.build_layout());
}

#[test]
fn bind_group_layout_entries_in_slot_order() {
    let mut ctx = Context::new();
    let b = uniform_buffer(&mut ctx);
    let t = Texture::new(&small_texture_desc(), &mut ctx);
    let group = BindGroupBuilder::new()
        .buffer(0, vertex_visible(), &b.uniform_binding(), None)
        .texture(1, fragment_visible(), &t.texture_binding())
        .build();
    let layout = group.build_layout();
    assert_eq!(layout.layout.len(), 2);
    assert_eq!(layout.layout[0].binding, 0);
    assert_eq!(layout.layout[0].visibility, vertex_visible());
    assert!(matches!(
        layout.layout[0].ty,
        BindingType::Buffer {
            ty: BufferBindingType::Uniform,
            has_dynamic_offset: false,
            min_binding_size: None,
        }
    ));
    assert_eq!(layout.layout[1].binding, 1);
    assert_eq!(layout.layout[1].visibility, fragment_visible());
    assert!(matches!(
        layout.layout[1].ty,
        BindingType::Texture {
            sample_type: TextureSampleType::Float { filterable: true },
            view_dimension: TextureViewDimension::D2,
            multisampled: false,
        }
    ));
}

#[test]
fn texture_handle_identity_ignores_configuration_reads() {
    let mut ctx = Context::new();
    let t = Texture::new(&small_texture_desc(), &mut ctx);
    // A handle to the same texture with the same mip window is the same
    // handle; restricting the mip window changes identity.
    assert!(t == t.mip_view(0, Some(1)));
    let restricted = t.mip_view(1, None);
    assert!(t != restricted);
    assert_eq!(t.size().width, 4);
    assert_eq!(t.dimension(), TextureDimension::D2);
}

#[test]
fn buffer_slices_resolve_bounds() {
    let mut ctx = Context::new();
    let b = Buffer::new(None, BufferUsages { bits: 0 }, 100, &mut ctx);
    let full = b.slice(SliceBound::Unbounded, SliceBound::Unbounded);
    assert_eq!(full.buffer, b.id());
    assert_eq!(full.start, 0);
    assert_eq!(full.end, 100);
    let sub = b.slice(SliceBound::Included(10), SliceBound::Excluded(30));
    assert_eq!(sub.start, 10);
    assert_eq!(sub.end, 30);
    let r = constrain_range_to_container_len(
        SliceBound::Excluded(4),
        SliceBound::Included(9),
        100,
    );
    assert_eq!(r.start, 5);
    assert_eq!(r.end, 10);
}

#[test]
fn rasteriser_state_defaults() {
    let rs = RasteriserState::default();
    assert_eq!(rs.front_face, FrontFace::Ccw);
    assert!(rs.cull_mode.is_none());
    assert!(rs.depth_write);
    assert_eq!(rs.depth_compare, CompareFunction::LessEqual);
    assert_eq!(rs.polygon_mode, PolygonMode::Fill);
    let ct = ColorTargetState::default();
    assert!(ct.blend.is_none());
    assert_eq!(ct.write_mask, ColorWrites { bits: 0xf });
}

#[test]
fn bind_groups_compare_by_value_including_name() {
    let mut ctx = Context::new();
    let b = uniform_buffer(&mut ctx);
    let g1 = BindGroupBuilder::new()
        .name("scene")
        .buffer(0, vertex_visible(), &b.uniform_binding(), None)
        .build();
    let g2 = BindGroupBuilder::new()
        .name("scene")
        .buffer(0, vertex_visible(), &b.uniform_binding(), None)
        .build();
    let g3 = BindGroupBuilder::new()
        .name("other")
        .buffer(0, vertex_visible(), &b.uniform_binding(), None)
        .build();
    assert!(g1 == g2);
    assert!(g1 != g3);
}
