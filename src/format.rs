use vstd::prelude::*;

use crate::adapter::Adapter;

verus! {

/// The pixel formats that textures can have.
#[derive(Debug, Clone, Copy, PartialEq, Eq, Structural)]
pub enum TextureFormat {
    R8Unorm,
    R8Snorm,
    R8Uint,
    R8Sint,
    R16Uint,
    R16Sint,
    R16Float,
    Rg8Unorm,
    Rg8Snorm,
    Rg8Uint,
    Rg8Sint,
    R32Uint,
    R32Sint,
    R32Float,
    Rg16Uint,
    Rg16Sint,
    Rg16Float,
    Rgba8Unorm,
    Rgba8UnormSrgb,
    Bgra8UnormSrgb,
    Rgba8Snorm,
    Bgra8Unorm,
    Rgba8Uint,
    Rgba8Sint,
    Rgb10a2Unorm,
    Rg11b10Float,
    Rg32Uint,
    Rg32Sint,
    Rg32Float,
    Rgba16Uint,
    Rgba16Sint,
    Rgba16Float,
    Rgba32Uint,
    Rgba32Sint,
    Rgba32Float,
    Depth32Float,
    Depth24Plus,
    Depth24PlusStencil8,
    Bc1RgbaUnorm,
    Bc1RgbaUnormSrgb,
    Bc2RgbaUnorm,
    Bc2RgbaUnormSrgb,
    Bc3RgbaUnorm,
    Bc3RgbaUnormSrgb,
    Bc4RUnorm,
    Bc4RSnorm,
    Bc5RgUnorm,
    Bc5RgSnorm,
    Bc6hRgbSfloat,
    Bc6hRgbUfloat,
    Bc7RgbaUnorm,
    Bc7RgbaUnormSrgb,
    Etc2RgbUnorm,
    Etc2RgbUnormSrgb,
    Etc2RgbA1Unorm,
    Etc2RgbA1UnormSrgb,
    EacRUnorm,
    EacRSnorm,
    EacRgUnorm,
    EacRgSnorm,
    Astc4x4RgbaUnorm,
    Astc4x4RgbaUnormSrgb,
    Astc5x4RgbaUnorm,
    Astc5x4RgbaUnormSrgb,
    Astc5x5RgbaUnorm,
    Astc5x5RgbaUnormSrgb,
    Astc6x5RgbaUnorm,
    Astc6x5RgbaUnormSrgb,
    Astc6x6RgbaUnorm,
    Astc6x6RgbaUnormSrgb,
    Astc8x5RgbaUnorm,
    Astc8x5RgbaUnormSrgb,
    Astc8x6RgbaUnorm,
    Astc8x6RgbaUnormSrgb,
    Astc10x5RgbaUnorm,
    Astc10x5RgbaUnormSrgb,
    Astc10x6RgbaUnorm,
    Astc10x6RgbaUnormSrgb,
    Astc8x8RgbaUnorm,
    Astc8x8RgbaUnormSrgb,
    Astc10x8RgbaUnorm,
    Astc10x8RgbaUnormSrgb,
    Astc10x10RgbaUnorm,
    Astc10x10RgbaUnormSrgb,
    Astc12x10RgbaUnorm,
    Astc12x10RgbaUnormSrgb,
    Astc12x12RgbaUnorm,
    Astc12x12RgbaUnormSrgb,
}

/// What a texture of some format can be used for.
#[derive(Debug, Clone, Copy, PartialEq, Eq, Structural)]
pub struct TextureFormatCapabilities {
    pub sampled: bool,
    pub sampled_linear: bool,
    pub color_attachment: bool,
    pub color_attachment_blend: bool,
    pub storage: bool,
    pub depth_stencil_attachment: bool,
}

impl TextureFormatCapabilities {
    /// Whether no use at all is allowed.
    pub open spec fn is_empty(&self) -> bool {
        !self.sampled && !self.sampled_linear && !self.color_attachment
            && !self.color_attachment_blend && !self.storage && !self.depth_stencil_attachment
    }
}

/// Block-compressed formats: BC, ETC2, EAC and ASTC.
pub open spec fn is_compressed(f: TextureFormat) -> bool {
    matches!(f, TextureFormat::Bc1RgbaUnorm |
        TextureFormat::Bc1RgbaUnormSrgb |
        TextureFormat::Bc2RgbaUnorm |
        TextureFormat::Bc2RgbaUnormSrgb |
        TextureFormat::Bc3RgbaUnorm |
        TextureFormat::Bc3RgbaUnormSrgb |
        TextureFormat::Bc4RUnorm |
        TextureFormat::Bc4RSnorm |
        TextureFormat::Bc5RgUnorm |
        TextureFormat::Bc5RgSnorm |
        TextureFormat::Bc6hRgbSfloat |
        TextureFormat::Bc6hRgbUfloat |
        TextureFormat::Bc7RgbaUnorm |
        TextureFormat::Bc7RgbaUnormSrgb |
        TextureFormat::Etc2RgbUnorm |
        TextureFormat::Etc2RgbUnormSrgb |
        TextureFormat::Etc2RgbA1Unorm |
        TextureFormat::Etc2RgbA1UnormSrgb |
        TextureFormat::EacRUnorm |
        TextureFormat::EacRSnorm |
        TextureFormat::EacRgUnorm |
        TextureFormat::EacRgSnorm |
        TextureFormat::Astc4x4RgbaUnorm |
        TextureFormat::Astc4x4RgbaUnormSrgb |
        TextureFormat::Astc5x4RgbaUnorm |
        TextureFormat::Astc5x4RgbaUnormSrgb |
        TextureFormat::Astc5x5RgbaUnorm |
        TextureFormat::Astc5x5RgbaUnormSrgb |
        TextureFormat::Astc6x5RgbaUnorm |
        TextureFormat::Astc6x5RgbaUnormSrgb |
        TextureFormat::Astc6x6RgbaUnorm |
        TextureFormat::Astc6x6RgbaUnormSrgb |
        TextureFormat::Astc8x5RgbaUnorm |
        TextureFormat::Astc8x5RgbaUnormSrgb |
        TextureFormat::Astc8x6RgbaUnorm |
        TextureFormat::Astc8x6RgbaUnormSrgb |
        TextureFormat::Astc10x5RgbaUnorm |
        TextureFormat::Astc10x5RgbaUnormSrgb |
        TextureFormat::Astc10x6RgbaUnorm |
        TextureFormat::Astc10x6RgbaUnormSrgb |
        TextureFormat::Astc8x8RgbaUnorm |
        TextureFormat::Astc8x8RgbaUnormSrgb |
        TextureFormat::Astc10x8RgbaUnorm |
        TextureFormat::Astc10x8RgbaUnormSrgb |
        TextureFormat::Astc10x10RgbaUnorm |
        TextureFormat::Astc10x10RgbaUnormSrgb |
        TextureFormat::Astc12x10RgbaUnorm |
        TextureFormat::Astc12x10RgbaUnormSrgb |
        TextureFormat::Astc12x12RgbaUnorm |
        TextureFormat::Astc12x12RgbaUnormSrgb)
}

/// Depth and depth-stencil formats.
pub open spec fn is_depth(f: TextureFormat) -> bool {
    matches!(f, TextureFormat::Depth32Float |
        TextureFormat::Depth24Plus |
        TextureFormat::Depth24PlusStencil8)
}

/// Color formats that can be sampled with filtering and blended.
pub open spec fn is_filterable(f: TextureFormat) -> bool {
    matches!(f, TextureFormat::R8Unorm |
        TextureFormat::R8Snorm |
        TextureFormat::R16Float |
        TextureFormat::Rg8Unorm |
        TextureFormat::Rg8Snorm |
        TextureFormat::Bgra8UnormSrgb |
        TextureFormat::Rgba8Snorm |
        TextureFormat::Bgra8Unorm |
        TextureFormat::Rgb10a2Unorm |
        TextureFormat::Rg11b10Float |
        TextureFormat::Rg16Float |
        TextureFormat::Rgba8Unorm |
        TextureFormat::Rgba8UnormSrgb |
        TextureFormat::Rgba16Float)
}

/// Color formats that shaders can load from and store to.
pub open spec fn has_storage(f: TextureFormat) -> bool {
    matches!(f, TextureFormat::Rg16Float |
        TextureFormat::Rgba8Unorm |
        TextureFormat::Rgba8UnormSrgb |
        TextureFormat::Rgba16Float |
        TextureFormat::Rg8Uint |
        TextureFormat::Rg8Sint |
        TextureFormat::R32Uint |
        TextureFormat::R32Sint |
        TextureFormat::Rgba8Uint |
        TextureFormat::Rgba8Sint |
        TextureFormat::Rg32Float |
        TextureFormat::Rgba16Uint |
        TextureFormat::Rgba16Sint |
        TextureFormat::Rgba32Uint |
        TextureFormat::Rgba32Sint |
        TextureFormat::Rgba32Float)
}

/// The uses of a format: compressed ones are only sampled, depth ones are
/// sampled and attached; every other one is sampled and attached as color,
/// filtered and blended when filterable, and read and written by shaders
/// when it has storage.
pub open spec fn capabilities_of(f: TextureFormat) -> TextureFormatCapabilities {
    if is_compressed(f) {
        TextureFormatCapabilities {
            sampled: true,
            sampled_linear: true,
            color_attachment: false,
            color_attachment_blend: false,
            storage: false,
            depth_stencil_attachment: false,
        }
    } else if is_depth(f) {
        TextureFormatCapabilities {
            sampled: true,
            sampled_linear: false,
            color_attachment: false,
            color_attachment_blend: false,
            storage: false,
            depth_stencil_attachment: true,
        }
    } else {
        TextureFormatCapabilities {
            sampled: true,
            sampled_linear: is_filterable(f),
            color_attachment: true,
            color_attachment_blend: is_filterable(f),
            storage: has_storage(f),
            depth_stencil_attachment: false,
        }
    }
}

/// Every format allows some use, and a compressed format is never an
/// attachment nor storage.
pub proof fn lemma_format_capabilities(f: TextureFormat)
    ensures
        !capabilities_of(f).is_empty(),
        is_compressed(f) ==> !capabilities_of(f).color_attachment
            && !capabilities_of(f).color_attachment_blend && !capabilities_of(f).storage
            && !capabilities_of(f).depth_stencil_attachment,
{
}

fn caps(linear: bool, color: bool, storage: bool, depth: bool) -> (r: TextureFormatCapabilities)
    ensures
        r == (TextureFormatCapabilities {
            sampled: true,
            sampled_linear: linear,
            color_attachment: color,
            color_attachment_blend: linear && color,
            storage,
            depth_stencil_attachment: depth,
        }),
{
    TextureFormatCapabilities {
        sampled: true,
        sampled_linear: linear,
        color_attachment: color,
        color_attachment_blend: linear && color,
        storage,
        depth_stencil_attachment: depth,
    }
}

impl Adapter {
    /// The uses that textures of `format` allow.
    pub fn texture_format_capabilities(&self, format: TextureFormat) -> (r: TextureFormatCapabilities)
        ensures
            r == capabilities_of(format),
    {
        let unfiltered_color = caps(false, true, false, false);
        let filtered_color = caps(true, true, false, false);
        let unfiltered_storage = caps(false, true, true, false);
        let filtered_storage = caps(true, true, true, false);
        match format {
            TextureFormat::R8Unorm |
            TextureFormat::R8Snorm |
            TextureFormat::R16Float |
            TextureFormat::Rg8Unorm |
            TextureFormat::Rg8Snorm |
            TextureFormat::Bgra8UnormSrgb |
            TextureFormat::Rgba8Snorm |
            TextureFormat::Bgra8Unorm |
            TextureFormat::Rgb10a2Unorm |
            TextureFormat::Rg11b10Float => filtered_color,
            TextureFormat::Rg16Float |
            TextureFormat::Rgba8Unorm |
            TextureFormat::Rgba8UnormSrgb |
            TextureFormat::Rgba16Float => filtered_storage,
            TextureFormat::R8Uint |
            TextureFormat::R8Sint |
            TextureFormat::R16Uint |
            TextureFormat::R16Sint |
            TextureFormat::R32Float |
            TextureFormat::Rg16Uint |
            TextureFormat::Rg16Sint |
            TextureFormat::Rg32Uint |
            TextureFormat::Rg32Sint => unfiltered_color,
            TextureFormat::Rg8Uint |
            TextureFormat::Rg8Sint |
            TextureFormat::R32Uint |
            TextureFormat::R32Sint |
            TextureFormat::Rgba8Uint |
            TextureFormat::Rgba8Sint |
            TextureFormat::Rg32Float |
            TextureFormat::Rgba16Uint |
            TextureFormat::Rgba16Sint |
            TextureFormat::Rgba32Uint |
            TextureFormat::Rgba32Sint |
            TextureFormat::Rgba32Float => unfiltered_storage,
            TextureFormat::Depth32Float |
            TextureFormat::Depth24Plus |
            TextureFormat::Depth24PlusStencil8 => caps(false, false, false, true),
            TextureFormat::Bc1RgbaUnorm |
            TextureFormat::Bc1RgbaUnormSrgb |
            TextureFormat::Bc2RgbaUnorm |
            TextureFormat::Bc2RgbaUnormSrgb |
            TextureFormat::Bc3RgbaUnorm |
            TextureFormat::Bc3RgbaUnormSrgb |
            TextureFormat::Bc4RUnorm |
            TextureFormat::Bc4RSnorm |
            TextureFormat::Bc5RgUnorm |
            TextureFormat::Bc5RgSnorm |
            TextureFormat::Bc6hRgbSfloat |
            TextureFormat::Bc6hRgbUfloat |
            TextureFormat::Bc7RgbaUnorm |
            TextureFormat::Bc7RgbaUnormSrgb |
            TextureFormat::Etc2RgbUnorm |
            TextureFormat::Etc2RgbUnormSrgb |
            TextureFormat::Etc2RgbA1Unorm |
            TextureFormat::Etc2RgbA1UnormSrgb |
            TextureFormat::EacRUnorm |
            TextureFormat::EacRSnorm |
            TextureFormat::EacRgUnorm |
            TextureFormat::EacRgSnorm |
            TextureFormat::Astc4x4RgbaUnorm |
            TextureFormat::Astc4x4RgbaUnormSrgb |
            TextureFormat::Astc5x4RgbaUnorm |
            TextureFormat::Astc5x4RgbaUnormSrgb |
            TextureFormat::Astc5x5RgbaUnorm |
            TextureFormat::Astc5x5RgbaUnormSrgb |
            TextureFormat::Astc6x5RgbaUnorm |
            TextureFormat::Astc6x5RgbaUnormSrgb |
            TextureFormat::Astc6x6RgbaUnorm |
            TextureFormat::Astc6x6RgbaUnormSrgb |
            TextureFormat::Astc8x5RgbaUnorm |
            TextureFormat::Astc8x5RgbaUnormSrgb |
            TextureFormat::Astc8x6RgbaUnorm |
            TextureFormat::Astc8x6RgbaUnormSrgb |
            TextureFormat::Astc10x5RgbaUnorm |
            TextureFormat::Astc10x5RgbaUnormSrgb |
            TextureFormat::Astc10x6RgbaUnorm |
            TextureFormat::Astc10x6RgbaUnormSrgb |
            TextureFormat::Astc8x8RgbaUnorm |
            TextureFormat::Astc8x8RgbaUnormSrgb |
            TextureFormat::Astc10x8RgbaUnorm |
            TextureFormat::Astc10x8RgbaUnormSrgb |
            TextureFormat::Astc10x10RgbaUnorm |
            TextureFormat::Astc10x10RgbaUnormSrgb |
            TextureFormat::Astc12x10RgbaUnorm |
            TextureFormat::Astc12x10RgbaUnormSrgb |
            TextureFormat::Astc12x12RgbaUnorm |
            TextureFormat::Astc12x12RgbaUnormSrgb => caps(true, false, false, false),
        }
    }
}

} // verus!
