use gles_adapter::adapter::{
    supports_extension, version_at_least, Adapter, CompositeAlphaMode, Extent3d, GlQueries, PresentMode, ProbeError, Surface,
    TextureUses,
};
use gles_adapter::bootstrap::{OpenAction, OpenProgress, OpenStep, DeviceError};
use gles_adapter::device::DeviceType;
use gles_adapter::format::TextureFormat;

fn queries() -> GlQueries {
    GlQueries {
        max_texture_size: 4096,
        max_3d_texture_size: 2048,
        max_array_texture_layers: 256,
        uniform_buffer_offset_alignment: 16,
        shader_storage_buffer_offset_alignment: 32,
        max_vertex_uniform_blocks: 12,
        max_fragment_uniform_blocks: 10,
        max_vertex_shader_storage_blocks: 0,
        max_fragment_shader_storage_blocks: 4,
        max_vertex_image_uniforms: 2,
        max_fragment_image_uniforms: 4,
        max_uniform_block_size: 16384,
        max_shader_storage_block_size: 134217728,
        max_vertex_attrib_bindings: 32,
        max_vertex_attribs: 29,
        max_vertex_attrib_stride: 2048,
    }
}

fn exts(names: &[&str]) -> Vec<String> {
    names.iter().map(|s| s.to_string()).collect()
}

#[test]
fn aggregates_gles_3_0() {
    let e = Adapter::expose(
        "ARM".to_string(),
        "Mali-G72".to_string(),
        "OpenGL ES 3.0 v1",
        "OpenGL ES GLSL ES 3.00",
        &exts(&["GL_EXT_depth_clamp"]),
        &queries(),
    )
    .unwrap();
    assert!(e.features.texture_compression_etc2);
    assert!(e.features.depth_clamping);
    assert!(!e.features.vertex_writable_storage);
    let d = e.capabilities.downlevel_flags;
    assert!(!d.compute_shaders && !d.fragment_writable_storage && !d.indirect_execution);
    assert!(!d.base_vertex && !d.independent_blending);
    assert!(d.device_local_image_copies && d.non_power_of_two_mipmapped_textures);
    assert!(d.cube_array_textures && d.comparison_samplers);
    assert!(!e.adapter.private_caps.shader_binding_layout);
    assert!(!e.adapter.private_caps.memory_barriers);
    assert_eq!(e.adapter.shading_language_version, 300);
    let l = e.capabilities.limits;
    assert_eq!(l.max_texture_dimension_1d, 4096);
    assert_eq!(l.max_texture_dimension_2d, 4096);
    assert_eq!(l.max_texture_dimension_3d, 2048);
    assert_eq!(l.max_texture_array_layers, 256);
    assert_eq!(l.max_bind_groups, 8);
    assert_eq!(l.max_uniform_buffers_per_shader_stage, 10);
    assert_eq!(l.max_storage_buffers_per_shader_stage, 0);
    assert_eq!(l.max_storage_textures_per_shader_stage, 2);
    assert_eq!(l.max_storage_buffer_binding_size, 0);
    assert_eq!(l.max_vertex_buffers, 16);
    assert_eq!(l.max_vertex_attributes, 16);
    assert_eq!(l.max_vertex_buffer_array_stride, 2048);
    assert_eq!(l.max_push_constant_size, 0);
    let a = e.capabilities.alignments;
    assert_eq!(a.buffer_copy_offset, 4);
    assert_eq!(a.buffer_copy_pitch, 4);
    assert_eq!(a.uniform_buffer_offset, 16);
    assert_eq!(a.storage_buffer_offset, 256);
    assert_eq!(e.info.vendor, 0x13B5);
    assert_eq!(e.info.device_type, DeviceType::IntegratedGpu);
}

#[test]
fn raising_version_only_adds_flags() {
    let lo = Adapter::expose(
        "x".to_string(),
        "y".to_string(),
        "OpenGL ES 3.0",
        "OpenGL ES GLSL ES 3.00",
        &exts(&[]),
        &queries(),
    )
    .unwrap();
    let hi = Adapter::expose(
        "x".to_string(),
        "y".to_string(),
        "OpenGL ES 3.1",
        "OpenGL ES GLSL ES 3.10",
        &exts(&[]),
        &queries(),
    )
    .unwrap();
    assert!(hi.features.vertex_writable_storage && !lo.features.vertex_writable_storage);
    assert!(hi.capabilities.downlevel_flags.compute_shaders);
    assert!(hi.capabilities.downlevel_flags.indirect_execution);
    assert!(!hi.capabilities.downlevel_flags.base_vertex);
    assert!(hi.adapter.private_caps.vertex_buffer_layout);
    assert_eq!(hi.capabilities.alignments.storage_buffer_offset, 32);
    assert_eq!(hi.capabilities.limits.max_storage_buffer_binding_size, 134217728);
    assert_eq!(hi.adapter.shading_language_version, 310);
    assert_eq!(lo.features.texture_compression_etc2, hi.features.texture_compression_etc2);
}

#[test]
fn blending_from_version_or_extension() {
    let e = Adapter::expose(
        "x".to_string(),
        "y".to_string(),
        "OpenGL ES 3.0",
        "OpenGL ES GLSL ES 3.00",
        &exts(&["GL_EXT_draw_buffers_indexed", "GL_EXT_texture_shadow_lod"]),
        &queries(),
    )
    .unwrap();
    assert!(e.capabilities.downlevel_flags.independent_blending);
    assert!(e.adapter.private_caps.shader_texture_shadow_lod);
    let e = Adapter::expose(
        "x".to_string(),
        "y".to_string(),
        "OpenGL ES 3.2",
        "OpenGL ES GLSL ES 3.20",
        &exts(&["GL_EXT_depth_clamp_x"]),
        &queries(),
    )
    .unwrap();
    assert!(e.capabilities.downlevel_flags.independent_blending);
    assert!(e.capabilities.downlevel_flags.base_vertex);
    assert!(!e.features.depth_clamping);
}

#[test]
fn probe_errors() {
    let run = |v: &str, sl: &str, q: &GlQueries| {
        Adapter::expose("x".to_string(), "y".to_string(), v, sl, &exts(&[]), q).err()
    };
    let q = queries();
    assert_eq!(run("OpenGL 4.6", "GLSL ES 3.00", &q), Some(ProbeError::Version));
    assert_eq!(run("OpenGL ES 3.0", "4.60", &q), Some(ProbeError::ShadingLanguageVersion));
    let mut zero_uniform = queries();
    zero_uniform.uniform_buffer_offset_alignment = 0;
    assert_eq!(run("OpenGL ES 3.0", "GLSL ES 3.00", &zero_uniform), Some(ProbeError::UniformAlignment));
    let mut zero_storage = queries();
    zero_storage.shader_storage_buffer_offset_alignment = 0;
    assert_eq!(run("OpenGL ES 3.1", "GLSL ES 3.10", &zero_storage), Some(ProbeError::StorageAlignment));
    assert_eq!(run("OpenGL ES 3.0", "GLSL ES 3.00", &zero_storage), None);
}

fn adapter() -> Adapter {
    Adapter::expose(
        "x".to_string(),
        "y".to_string(),
        "OpenGL ES 3.0",
        "GLSL ES 3.00",
        &exts(&[]),
        &queries(),
    )
    .unwrap()
    .adapter
}

#[test]
fn format_tiers() {
    let a = adapter();
    let c = a.texture_format_capabilities(TextureFormat::R8Unorm);
    assert!(c.sampled && c.sampled_linear && c.color_attachment && c.color_attachment_blend);
    assert!(!c.storage && !c.depth_stencil_attachment);
    let c = a.texture_format_capabilities(TextureFormat::R8Uint);
    assert!(c.sampled && c.color_attachment && !c.sampled_linear && !c.storage);
    let c = a.texture_format_capabilities(TextureFormat::Rgba8Unorm);
    assert!(c.sampled_linear && c.storage);
    let c = a.texture_format_capabilities(TextureFormat::Rgba32Float);
    assert!(!c.sampled_linear && c.storage && c.color_attachment);
    let c = a.texture_format_capabilities(TextureFormat::Depth24PlusStencil8);
    assert!(c.sampled && c.depth_stencil_attachment && !c.color_attachment);
}

#[test]
fn compressed_formats_are_only_sampled() {
    let a = adapter();
    for f in [TextureFormat::Bc1RgbaUnorm, TextureFormat::Etc2RgbA1UnormSrgb, TextureFormat::EacRgSnorm, TextureFormat::Astc12x12RgbaUnormSrgb] {
        let c = a.texture_format_capabilities(f);
        assert!(c.sampled && c.sampled_linear);
        assert!(!c.color_attachment && !c.color_attachment_blend);
        assert!(!c.storage && !c.depth_stencil_attachment);
    }
}

#[test]
fn surface_capabilities_fixed() {
    let a = adapter();
    assert!(a.surface_capabilities(&Surface { presentable: false }).is_none());
    let c = a.surface_capabilities(&Surface { presentable: true }).unwrap();
    assert_eq!(c.formats, vec![TextureFormat::Rgba8UnormSrgb, TextureFormat::Bgra8UnormSrgb]);
    assert_eq!(c.present_modes, vec![PresentMode::Fifo]);
    assert_eq!(c.composite_alpha_modes, vec![CompositeAlphaMode::Opaque]);
    assert_eq!((c.min_swap_chain_size, c.max_swap_chain_size), (2, 2));
    assert!(c.current_extent.is_none());
    assert_eq!(c.min_extent, Extent3d { width: 4, height: 4, depth_or_array_layers: 1 });
    assert_eq!(c.max_extent, Extent3d { width: 4096, height: 4096, depth_or_array_layers: 1 });
    assert_eq!(c.usage, TextureUses::ColorTarget);
}

#[test]
fn open_creates_all_or_rolls_back() {
    let mut p = OpenProgress::new();
    let order = [OpenStep::VertexArray, OpenStep::ZeroBuffer, OpenStep::DrawFramebuffer, OpenStep::CopyFramebuffer];
    for s in order {
        assert_eq!(p.next_action(), OpenAction::Create(s));
        p.record(true);
    }
    assert_eq!(p.next_action(), OpenAction::Finish);
    assert_eq!(p.outcome(), Ok(()));

    let mut p = OpenProgress::new();
    p.record(true);
    p.record(true);
    p.record(false);
    assert_eq!(p.next_action(), OpenAction::Rollback(2));
    assert_eq!(p.outcome(), Err(DeviceError::OutOfMemory));
}

#[test]
fn extension_lookup_is_exact() {
    let e = exts(&["GL_EXT_depth_clamp", "GL_OES_x"]);
    assert!(supports_extension(&e, "GL_EXT_depth_clamp"));
    assert!(!supports_extension(&e, "GL_EXT_depth"));
    assert!(!supports_extension(&exts(&[]), "GL_OES_x"));
    assert!(version_at_least((3, 1), 3, 1));
    assert!(version_at_least((4, 0), 3, 2));
    assert!(!version_at_least((3, 0), 3, 1));
}
