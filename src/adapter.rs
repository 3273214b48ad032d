use vstd::prelude::*;
use vstd::string::*;
use vstd::utf8::encode_utf8;

use crate::device::{lower_bytes, vendor_id_of, device_type_of, AdapterInfo, Backend};
use crate::version::{version_of, InstanceError};

verus! {

/// Bind groups a pipeline may use at once.
pub const MAX_BIND_GROUPS: u32 = 8;

/// Texture units a shader stage may sample.
pub const MAX_TEXTURE_SLOTS: u32 = 16;

/// Samplers a shader stage may use.
pub const MAX_SAMPLERS: u32 = 16;

/// Vertex attributes that a pipeline may declare, whatever the driver says.
pub const MAX_VERTEX_ATTRIBUTES: u32 = 16;

/// Vertex buffer bindings that a pipeline may use, whatever the driver says.
pub const MAX_VERTEX_BUFFERS: u32 = 16;

/// Alignment of the stride and offset of buffer copies, in bytes.
pub const COPY_ALIGNMENT: u64 = 4;

/// Storage buffer offset alignment assumed where it cannot be queried.
pub const DEFAULT_STORAGE_ALIGNMENT: u64 = 256;

/// Features offered to applications.
#[derive(Debug, Clone, Copy, PartialEq, Eq, Structural)]
pub struct Features {
    pub texture_compression_etc2: bool,
    pub depth_clamping: bool,
    pub vertex_writable_storage: bool,
}

/// Capabilities beyond the guaranteed baseline.
#[derive(Debug, Clone, Copy, PartialEq, Eq, Structural)]
pub struct DownlevelFlags {
    pub compute_shaders: bool,
    pub fragment_writable_storage: bool,
    pub indirect_execution: bool,
    pub base_vertex: bool,
    pub independent_blending: bool,
    pub device_local_image_copies: bool,
    pub non_power_of_two_mipmapped_textures: bool,
    pub cube_array_textures: bool,
    pub comparison_samplers: bool,
}

/// Internal capabilities that select code paths of the backend.
#[derive(Debug, Clone, Copy, PartialEq, Eq, Structural)]
pub struct PrivateCapabilities {
    pub shader_binding_layout: bool,
    pub shader_texture_shadow_lod: bool,
    pub memory_barriers: bool,
    pub vertex_buffer_layout: bool,
}

/// The numeric limits of a device.
#[derive(Debug, Clone, Copy, PartialEq, Eq, Structural)]
pub struct Limits {
    pub max_texture_dimension_1d: u32,
    pub max_texture_dimension_2d: u32,
    pub max_texture_dimension_3d: u32,
    pub max_texture_array_layers: u32,
    pub max_bind_groups: u32,
    pub max_dynamic_uniform_buffers_per_pipeline_layout: u32,
    pub max_dynamic_storage_buffers_per_pipeline_layout: u32,
    pub max_sampled_textures_per_shader_stage: u32,
    pub max_samplers_per_shader_stage: u32,
    pub max_storage_buffers_per_shader_stage: u32,
    pub max_storage_textures_per_shader_stage: u32,
    pub max_uniform_buffers_per_shader_stage: u32,
    pub max_uniform_buffer_binding_size: u32,
    pub max_storage_buffer_binding_size: u32,
    pub max_vertex_buffers: u32,
    pub max_vertex_attributes: u32,
    pub max_vertex_buffer_array_stride: u32,
    pub max_push_constant_size: u32,
}

/// Byte alignments that buffer offsets must follow.
#[derive(Debug, Clone, Copy, PartialEq, Eq, Structural)]
pub struct Alignments {
    pub buffer_copy_offset: u64,
    pub buffer_copy_pitch: u64,
    pub uniform_buffer_offset: u64,
    pub storage_buffer_offset: u64,
}

impl Alignments {
    /// Every alignment is a positive number of bytes.
    pub open spec fn wf(&self) -> bool {
        self.buffer_copy_offset > 0 && self.buffer_copy_pitch > 0 && self.uniform_buffer_offset > 0
            && self.storage_buffer_offset > 0
    }
}

/// What a device can do, as the rest of the backend sees it.
#[derive(Debug, Clone, Copy, PartialEq, Eq, Structural)]
pub struct Capabilities {
    pub limits: Limits,
    pub downlevel_flags: DownlevelFlags,
    pub alignments: Alignments,
}

/// The integer parameters read from a GL context.
#[derive(Debug, Clone, Copy, PartialEq, Eq, Structural)]
pub struct GlQueries {
    pub max_texture_size: i32,
    pub max_3d_texture_size: i32,
    pub max_array_texture_layers: i32,
    pub uniform_buffer_offset_alignment: i32,
    /// Only read on GLES 3.1 and later.
    pub shader_storage_buffer_offset_alignment: i32,
    pub max_vertex_uniform_blocks: i32,
    pub max_fragment_uniform_blocks: i32,
    pub max_vertex_shader_storage_blocks: i32,
    pub max_fragment_shader_storage_blocks: i32,
    pub max_vertex_image_uniforms: i32,
    pub max_fragment_image_uniforms: i32,
    pub max_uniform_block_size: i32,
    /// Only read on GLES 3.1 and later.
    pub max_shader_storage_block_size: i32,
    pub max_vertex_attrib_bindings: i32,
    pub max_vertex_attribs: i32,
    pub max_vertex_attrib_stride: i32,
}

/// Why a context cannot be offered as an adapter.
#[derive(Debug, Clone, Copy, PartialEq, Eq, Structural)]
pub enum ProbeError {
    /// The version string does not parse.
    Version,
    /// The shading language version string does not parse.
    ShadingLanguageVersion,
    /// The uniform buffer offset alignment is not a positive number of bytes.
    UniformAlignment,
    /// The storage buffer offset alignment is not a positive number of bytes.
    StorageAlignment,
}

/// An adapter of the embedded GL family.
#[derive(Debug, Clone, Copy, PartialEq, Eq, Structural)]
pub struct Adapter {
    pub private_caps: PrivateCapabilities,
    /// The GLSL ES version, as `major * 100 + minor * 10`.
    pub shading_language_version: u16,
}

/// An adapter together with what it offers.
#[derive(Debug)]
pub struct ExposedAdapter {
    pub adapter: Adapter,
    pub info: AdapterInfo,
    pub features: Features,
    pub capabilities: Capabilities,
}

/// Whether version `v` is at least `major.minor`.
pub open spec fn at_least(v: (u8, u8), major: u8, minor: u8) -> bool {
    v.0 > major || (v.0 == major && v.1 >= minor)
}

/// Whether the extension `name` is among `exts`.
pub open spec fn has_extension(exts: Seq<String>, name: &str) -> bool {
    exists|i: int| 0 <= i < exts.len() && encode_utf8(#[trigger] exts[i]@) == name.spec_bytes()
}

pub open spec fn features_for(v: (u8, u8), exts: Seq<String>) -> Features {
    Features {
        texture_compression_etc2: true,
        depth_clamping: has_extension(exts, "GL_EXT_depth_clamp"),
        vertex_writable_storage: at_least(v, 3, 1),
    }
}

pub open spec fn downlevel_for(v: (u8, u8), exts: Seq<String>) -> DownlevelFlags {
    DownlevelFlags {
        compute_shaders: at_least(v, 3, 1),
        fragment_writable_storage: at_least(v, 3, 1),
        indirect_execution: at_least(v, 3, 1),
        base_vertex: at_least(v, 3, 2),
        independent_blending: at_least(v, 3, 2) || has_extension(exts, "GL_EXT_draw_buffers_indexed"),
        device_local_image_copies: true,
        non_power_of_two_mipmapped_textures: true,
        cube_array_textures: true,
        comparison_samplers: true,
    }
}

pub open spec fn private_caps_for(v: (u8, u8), exts: Seq<String>) -> PrivateCapabilities {
    PrivateCapabilities {
        shader_binding_layout: at_least(v, 3, 1),
        shader_texture_shadow_lod: has_extension(exts, "GL_EXT_texture_shadow_lod"),
        memory_barriers: at_least(v, 3, 1),
        vertex_buffer_layout: at_least(v, 3, 1),
    }
}

/// A queried count as a limit; a negative answer counts as none.
pub open spec fn count_of(x: i32) -> u32 {
    if x < 0 {
        0
    } else {
        x as u32
    }
}

pub open spec fn min_count(a: i32, b: i32) -> u32 {
    if a < b {
        count_of(a)
    } else {
        count_of(b)
    }
}

pub open spec fn min_u32(a: u32, b: u32) -> u32 {
    if a < b {
        a
    } else {
        b
    }
}

pub open spec fn limits_for(v: (u8, u8), q: GlQueries) -> Limits {
    Limits {
        max_texture_dimension_1d: count_of(q.max_texture_size),
        max_texture_dimension_2d: count_of(q.max_texture_size),
        max_texture_dimension_3d: count_of(q.max_3d_texture_size),
        max_texture_array_layers: count_of(q.max_array_texture_layers),
        max_bind_groups: MAX_BIND_GROUPS,
        max_dynamic_uniform_buffers_per_pipeline_layout: min_count(
            q.max_vertex_uniform_blocks,
            q.max_fragment_uniform_blocks,
        ),
        max_dynamic_storage_buffers_per_pipeline_layout: min_count(
            q.max_vertex_shader_storage_blocks,
            q.max_fragment_shader_storage_blocks,
        ),
        max_sampled_textures_per_shader_stage: MAX_TEXTURE_SLOTS,
        max_samplers_per_shader_stage: MAX_SAMPLERS,
        max_storage_buffers_per_shader_stage: min_count(
            q.max_vertex_shader_storage_blocks,
            q.max_fragment_shader_storage_blocks,
        ),
        max_storage_textures_per_shader_stage: min_count(
            q.max_vertex_image_uniforms,
            q.max_fragment_image_uniforms,
        ),
        max_uniform_buffers_per_shader_stage: min_count(
            q.max_vertex_uniform_blocks,
            q.max_fragment_uniform_blocks,
        ),
        max_uniform_buffer_binding_size: count_of(q.max_uniform_block_size),
        max_storage_buffer_binding_size: if at_least(v, 3, 1) {
            count_of(q.max_shader_storage_block_size)
        } else {
            0
        },
        max_vertex_buffers: min_u32(count_of(q.max_vertex_attrib_bindings), MAX_VERTEX_BUFFERS),
        max_vertex_attributes: min_u32(count_of(q.max_vertex_attribs), MAX_VERTEX_ATTRIBUTES),
        max_vertex_buffer_array_stride: count_of(q.max_vertex_attrib_stride),
        max_push_constant_size: 0,
    }
}

/// The storage buffer offset alignment that a context reports.
pub open spec fn storage_alignment_for(v: (u8, u8), q: GlQueries) -> int {
    if at_least(v, 3, 1) {
        q.shader_storage_buffer_offset_alignment as int
    } else {
        DEFAULT_STORAGE_ALIGNMENT as int
    }
}

/// The GLSL ES version as the shader back end numbers it.
pub open spec fn embedded_version(v: (u8, u8)) -> u16 {
    (v.0 * 100 + v.1 * 10) as u16
}

/// Whether version `v` is at least `major.minor`.
pub fn version_at_least(v: (u8, u8), major: u8, minor: u8) -> (r: bool)
    ensures
        r == at_least(v, major, minor),
{
    v.0 > major || (v.0 == major && v.1 >= minor)
}

fn count(x: i32) -> (r: u32)
    ensures
        r == count_of(x),
{
    if x < 0 {
        0
    } else {
        x as u32
    }
}

fn min_of_counts(a: i32, b: i32) -> (r: u32)
    ensures
        r == min_count(a, b),
{
    if a < b {
        count(a)
    } else {
        count(b)
    }
}

fn capped(a: u32, cap: u32) -> (r: u32)
    ensures
        r == min_u32(a, cap),
{
    if a < cap {
        a
    } else {
        cap
    }
}

/// Whether `a` and `b` hold the same bytes.
fn same_bytes(a: &str, b: &str) -> (r: bool)
    ensures
        r == (a.spec_bytes() == b.spec_bytes()),
{
    let x = a.as_bytes();
    let y = b.as_bytes();
    if x.len() != y.len() {
        return false;
    }
    let r = crate::version::bytes_match_at(x, x.len(), y, 0);
    assert(x@.subrange(0, x@.len() as int) =~= x@);
    assert(x@.subrange(0, y@.len() as int) =~= x@);
    r
}

/// Whether the extension `name` is among `exts`.
pub fn supports_extension(exts: &Vec<String>, name: &str) -> (r: bool)
    ensures
        r == has_extension(exts@, name),
{
    let mut i: usize = 0;
    while i < exts.len()
        invariant
            0 <= i <= exts@.len(),
            forall|j: int| 0 <= j < i ==> encode_utf8(#[trigger] exts@[j]@) != name.spec_bytes(),
        decreases exts@.len() - i,
    {
        if same_bytes(exts[i].as_str(), name) {
            return true;
        }
        i = i + 1;
    }
    false
}

/// The numeric limits of a context at version `v`.
pub fn limits_from(v: (u8, u8), q: &GlQueries) -> (r: Limits)
    ensures
        r == limits_for(v, *q),
{
    let storage_size = if version_at_least(v, 3, 1) {
        count(q.max_shader_storage_block_size)
    } else {
        0
    };
    Limits {
        max_texture_dimension_1d: count(q.max_texture_size),
        max_texture_dimension_2d: count(q.max_texture_size),
        max_texture_dimension_3d: count(q.max_3d_texture_size),
        max_texture_array_layers: count(q.max_array_texture_layers),
        max_bind_groups: MAX_BIND_GROUPS,
        max_dynamic_uniform_buffers_per_pipeline_layout: min_of_counts(
            q.max_vertex_uniform_blocks,
            q.max_fragment_uniform_blocks,
        ),
        max_dynamic_storage_buffers_per_pipeline_layout: min_of_counts(
            q.max_vertex_shader_storage_blocks,
            q.max_fragment_shader_storage_blocks,
        ),
        max_sampled_textures_per_shader_stage: MAX_TEXTURE_SLOTS,
        max_samplers_per_shader_stage: MAX_SAMPLERS,
        max_storage_buffers_per_shader_stage: min_of_counts(
            q.max_vertex_shader_storage_blocks,
            q.max_fragment_shader_storage_blocks,
        ),
        max_storage_textures_per_shader_stage: min_of_counts(
            q.max_vertex_image_uniforms,
            q.max_fragment_image_uniforms,
        ),
        max_uniform_buffers_per_shader_stage: min_of_counts(
            q.max_vertex_uniform_blocks,
            q.max_fragment_uniform_blocks,
        ),
        max_uniform_buffer_binding_size: count(q.max_uniform_block_size),
        max_storage_buffer_binding_size: storage_size,
        max_vertex_buffers: capped(count(q.max_vertex_attrib_bindings), MAX_VERTEX_BUFFERS),
        max_vertex_attributes: capped(count(q.max_vertex_attribs), MAX_VERTEX_ATTRIBUTES),
        max_vertex_buffer_array_stride: count(q.max_vertex_attrib_stride),
        max_push_constant_size: 0,
    }
}

/// What probing a context gives: the adapter, its features and its
/// capabilities, or why it cannot be used.
pub open spec fn probe_of(
    version: Seq<u8>,
    sl_version: Seq<u8>,
    exts: Seq<String>,
    q: GlQueries,
) -> Result<(Adapter, Features, Capabilities), ProbeError> {
    match version_of(version) {
        None => Err(ProbeError::Version),
        Some(v) => match version_of(sl_version) {
            None => Err(ProbeError::ShadingLanguageVersion),
            Some(sl) => if q.uniform_buffer_offset_alignment <= 0 {
                Err(ProbeError::UniformAlignment)
            } else if storage_alignment_for(v, q) <= 0 {
                Err(ProbeError::StorageAlignment)
            } else {
                Ok(
                    (
                        Adapter {
                            private_caps: private_caps_for(v, exts),
                            shading_language_version: embedded_version(sl),
                        },
                        features_for(v, exts),
                        Capabilities {
                            limits: limits_for(v, q),
                            downlevel_flags: downlevel_for(v, exts),
                            alignments: Alignments {
                                buffer_copy_offset: COPY_ALIGNMENT,
                                buffer_copy_pitch: COPY_ALIGNMENT,
                                uniform_buffer_offset: q.uniform_buffer_offset_alignment as u64,
                                storage_buffer_offset: storage_alignment_for(v, q) as u64,
                            },
                        },
                    ),
                )
            },
        },
    }
}

impl Adapter {
    /// Turns what a GL context reports of itself into an adapter and its
    /// capabilities.
    pub fn expose(
        vendor: String,
        renderer: String,
        version: &str,
        sl_version: &str,
        extensions: &Vec<String>,
        q: &GlQueries,
    ) -> (r: Result<ExposedAdapter, ProbeError>)
        ensures
            match r {
                Ok(e) => {
                    &&& probe_of(version.spec_bytes(), sl_version.spec_bytes(), extensions@, *q)
                        == Ok::<(Adapter, Features, Capabilities), ProbeError>((e.adapter, e.features, e.capabilities))
                    &&& e.capabilities.alignments.wf()
                    &&& e.info.name@ == renderer@
                    &&& e.info.vendor == vendor_id_of(lower_bytes(vendor@))
                    &&& e.info.device == 0
                    &&& e.info.device_type == device_type_of(lower_bytes(vendor@), lower_bytes(renderer@))
                    &&& e.info.backend == Backend::Gl
                },
                Err(err) => probe_of(version.spec_bytes(), sl_version.spec_bytes(), extensions@, *q)
                    == Err::<(Adapter, Features, Capabilities), ProbeError>(err),
            },
    {
        let v = match Adapter::parse_version(version) {
            Ok(v) => v,
            Err(InstanceError) => {
                return Err(ProbeError::Version);
            },
        };
        let sl = match Adapter::parse_version(sl_version) {
            Ok(sl) => sl,
            Err(InstanceError) => {
                return Err(ProbeError::ShadingLanguageVersion);
            },
        };
        if q.uniform_buffer_offset_alignment <= 0 {
            return Err(ProbeError::UniformAlignment);
        }
        let at_31 = version_at_least(v, 3, 1);
        let storage_alignment: i32 = if at_31 {
            q.shader_storage_buffer_offset_alignment
        } else {
            256
        };
        if storage_alignment <= 0 {
            return Err(ProbeError::StorageAlignment);
        }
        let depth_clamp = supports_extension(extensions, "GL_EXT_depth_clamp");
        let draw_buffers_indexed = supports_extension(extensions, "GL_EXT_draw_buffers_indexed");
        let shadow_lod = supports_extension(extensions, "GL_EXT_texture_shadow_lod");
        let at_32 = version_at_least(v, 3, 2);
        let features = Features {
            texture_compression_etc2: true,
            depth_clamping: depth_clamp,
            vertex_writable_storage: at_31,
        };
        let downlevel_flags = DownlevelFlags {
            compute_shaders: at_31,
            fragment_writable_storage: at_31,
            indirect_execution: at_31,
            base_vertex: at_32,
            independent_blending: at_32 || draw_buffers_indexed,
            device_local_image_copies: true,
            non_power_of_two_mipmapped_textures: true,
            cube_array_textures: true,
            comparison_samplers: true,
        };
        let private_caps = PrivateCapabilities {
            shader_binding_layout: at_31,
            shader_texture_shadow_lod: shadow_lod,
            memory_barriers: at_31,
            vertex_buffer_layout: at_31,
        };
        let shading_language_version: u16 = sl.0 as u16 * 100 + sl.1 as u16 * 10;
        let limits = limits_from(v, q);
        let alignments = Alignments {
            buffer_copy_offset: COPY_ALIGNMENT,
            buffer_copy_pitch: COPY_ALIGNMENT,
            uniform_buffer_offset: q.uniform_buffer_offset_alignment as u64,
            storage_buffer_offset: storage_alignment as u64,
        };
        let info = Adapter::make_info(vendor, renderer);
        Ok(ExposedAdapter {
            adapter: Adapter { private_caps, shading_language_version },
            info,
            features,
            capabilities: Capabilities { limits, downlevel_flags, alignments },
        })
    }
}

impl Features {
    /// Every feature of `self` is also one of `o`.
    pub open spec fn within(&self, o: Features) -> bool {
        &&& self.texture_compression_etc2 ==> o.texture_compression_etc2
        &&& self.depth_clamping ==> o.depth_clamping
        &&& self.vertex_writable_storage ==> o.vertex_writable_storage
    }
}

impl DownlevelFlags {
    /// Every flag of `self` is also one of `o`.
    pub open spec fn within(&self, o: DownlevelFlags) -> bool {
        &&& self.compute_shaders ==> o.compute_shaders
        &&& self.fragment_writable_storage ==> o.fragment_writable_storage
        &&& self.indirect_execution ==> o.indirect_execution
        &&& self.base_vertex ==> o.base_vertex
        &&& self.independent_blending ==> o.independent_blending
        &&& self.device_local_image_copies ==> o.device_local_image_copies
        &&& self.non_power_of_two_mipmapped_textures ==> o.non_power_of_two_mipmapped_textures
        &&& self.cube_array_textures ==> o.cube_array_textures
        &&& self.comparison_samplers ==> o.comparison_samplers
    }
}

impl PrivateCapabilities {
    /// Every capability of `self` is also one of `o`.
    pub open spec fn within(&self, o: PrivateCapabilities) -> bool {
        &&& self.shader_binding_layout ==> o.shader_binding_layout
        &&& self.shader_texture_shadow_lod ==> o.shader_texture_shadow_lod
        &&& self.memory_barriers ==> o.memory_barriers
        &&& self.vertex_buffer_layout ==> o.vertex_buffer_layout
    }
}

/// Whether version `a` is at most version `b`.
pub open spec fn version_le(a: (u8, u8), b: (u8, u8)) -> bool {
    a.0 < b.0 || (a.0 == b.0 && a.1 <= b.1)
}

/// A context that reports a higher version, with the same extensions and
/// parameters, has every feature, downlevel flag and private capability that
/// a lower one has.
pub proof fn lemma_flags_grow_with_version(
    ver_lo: Seq<u8>,
    ver_hi: Seq<u8>,
    sl_version: Seq<u8>,
    exts: Seq<String>,
    q: GlQueries,
)
    requires
        version_of(ver_lo) is Some,
        version_of(ver_hi) is Some,
        version_le(version_of(ver_lo)->0, version_of(ver_hi)->0),
        probe_of(ver_lo, sl_version, exts, q) is Ok,
        probe_of(ver_hi, sl_version, exts, q) is Ok,
    ensures
        ({
            let lo = probe_of(ver_lo, sl_version, exts, q)->Ok_0;
            let hi = probe_of(ver_hi, sl_version, exts, q)->Ok_0;
            &&& lo.1.within(hi.1)
            &&& lo.2.downlevel_flags.within(hi.2.downlevel_flags)
            &&& lo.0.private_caps.within(hi.0.private_caps)
        }),
{
}

/// Whether a surface can be presented to.
#[derive(Debug, Clone, Copy, PartialEq, Eq, Structural)]
pub struct Surface {
    pub presentable: bool,
}

/// How frames reach the screen.
#[derive(Debug, Clone, Copy, PartialEq, Eq, Structural)]
pub enum PresentMode {
    Immediate,
    Mailbox,
    Fifo,
}

/// How a surface's alpha is composed with what lies below it.
#[derive(Debug, Clone, Copy, PartialEq, Eq, Structural)]
pub enum CompositeAlphaMode {
    Opaque,
    PreMultiplied,
    PostMultiplied,
}

/// A width, height and depth or layer count.
#[derive(Debug, Clone, Copy, PartialEq, Eq, Structural)]
pub struct Extent3d {
    pub width: u32,
    pub height: u32,
    pub depth_or_array_layers: u32,
}

/// How the images of a surface may be used.
#[derive(Debug, Clone, Copy, PartialEq, Eq, Structural)]
pub enum TextureUses {
    ColorTarget,
}

/// What a presentable surface supports.
#[derive(Debug)]
pub struct SurfaceCapabilities {
    pub formats: Vec<crate::format::TextureFormat>,
    pub present_modes: Vec<PresentMode>,
    pub composite_alpha_modes: Vec<CompositeAlphaMode>,
    /// The fewest images in a swap chain.
    pub min_swap_chain_size: u32,
    /// The most images in a swap chain.
    pub max_swap_chain_size: u32,
    pub current_extent: Option<Extent3d>,
    pub min_extent: Extent3d,
    pub max_extent: Extent3d,
    pub usage: TextureUses,
}

impl Adapter {
    /// What a surface supports, or `None` when it cannot be presented to.
    pub fn surface_capabilities(&self, surface: &Surface) -> (r: Option<SurfaceCapabilities>)
        ensures
            r is Some <==> surface.presentable,
            r matches Some(c) ==> {
                &&& c.formats@ == seq![
                    crate::format::TextureFormat::Rgba8UnormSrgb,
                    crate::format::TextureFormat::Bgra8UnormSrgb,
                ]
                &&& c.present_modes@ == seq![PresentMode::Fifo]
                &&& c.composite_alpha_modes@ == seq![CompositeAlphaMode::Opaque]
                &&& c.min_swap_chain_size == 2
                &&& c.max_swap_chain_size == 2
                &&& c.current_extent is None
                &&& c.min_extent == (Extent3d { width: 4, height: 4, depth_or_array_layers: 1 })
                &&& c.max_extent == (Extent3d { width: 4096, height: 4096, depth_or_array_layers: 1 })
                &&& c.usage == TextureUses::ColorTarget
            },
    {
        if surface.presentable {
            let mut formats = Vec::new();
            formats.push(crate::format::TextureFormat::Rgba8UnormSrgb);
            formats.push(crate::format::TextureFormat::Bgra8UnormSrgb);
            let mut present_modes = Vec::new();
            present_modes.push(PresentMode::Fifo);
            let mut composite_alpha_modes = Vec::new();
            composite_alpha_modes.push(CompositeAlphaMode::Opaque);
            assert(formats@ =~= seq![
                crate::format::TextureFormat::Rgba8UnormSrgb,
                crate::format::TextureFormat::Bgra8UnormSrgb,
            ]);
            assert(present_modes@ =~= seq![PresentMode::Fifo]);
            assert(composite_alpha_modes@ =~= seq![CompositeAlphaMode::Opaque]);
            Some(SurfaceCapabilities {
                formats,
                present_modes,
                composite_alpha_modes,
                min_swap_chain_size: 2,
                max_swap_chain_size: 2,
                current_extent: None,
                min_extent: Extent3d { width: 4, height: 4, depth_or_array_layers: 1 },
                max_extent: Extent3d { width: 4096, height: 4096, depth_or_array_layers: 1 },
                usage: TextureUses::ColorTarget,
            })
        } else {
            None
        }
    }
}

} // verus!
