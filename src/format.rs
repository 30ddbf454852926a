//! Texel formats and their copy footprint.
use vstd::prelude::*;
use crate::resource::Usage;
use wgpu::TextureUsages as U;

verus! {

/// The texel formats that pipeline targets may use.
#[derive(Clone, Copy, Debug, PartialEq, Eq, Structural)]
pub enum TexelFormat {
    Rgba32Float,
    Rgba16Float,
    Rgba8Unorm,
    R32Float,
    Depth32Float,
    Depth24Plus,
}

/// Bytes one texel occupies in a texture-to-buffer copy, where defined.
pub open spec fn texel_copy_size(format: TexelFormat) -> Option<u32> {
    match format {
        TexelFormat::Rgba32Float => Some(16u32),
        TexelFormat::Rgba16Float => Some(8u32),
        TexelFormat::Rgba8Unorm => Some(4u32),
        TexelFormat::R32Float => Some(4u32),
        TexelFormat::Depth32Float => Some(4u32),
        TexelFormat::Depth24Plus => None,
    }
}

/// Relies on wgpu's `TextureFormat::block_copy_size` with no aspect: 16 bytes
/// for Rgba32Float, 8 for Rgba16Float, 4 for Rgba8Unorm, R32Float and
/// Depth32Float, and none for Depth24Plus.
#[verifier::external_body]
fn block_copy_size(format: TexelFormat) -> (r: Option<u32>)
    ensures
        r == texel_copy_size(format),
{
    let f = match format {
        TexelFormat::Rgba32Float => wgpu::TextureFormat::Rgba32Float,
        TexelFormat::Rgba16Float => wgpu::TextureFormat::Rgba16Float,
        TexelFormat::Rgba8Unorm => wgpu::TextureFormat::Rgba8Unorm,
        TexelFormat::R32Float => wgpu::TextureFormat::R32Float,
        TexelFormat::Depth32Float => wgpu::TextureFormat::Depth32Float,
        TexelFormat::Depth24Plus => wgpu::TextureFormat::Depth24Plus,
    };
    f.block_copy_size(None)
}

/// The usages every device allows for `format`: all of them for the colour
/// formats, everything but storage writes for the depth formats.
pub open spec fn allowed_usage(format: TexelFormat) -> Usage {
    match format {
        TexelFormat::Depth32Float | TexelFormat::Depth24Plus => Usage {
            sampled: true,
            storage_write: false,
            render_target: true,
            copy_src: true,
            copy_dst: true,
        },
        _ => Usage { sampled: true, storage_write: true, render_target: true, copy_src: true, copy_dst: true },
    }
}

/// Relies on wgpu's `TextureFormat::guaranteed_format_features` with no
/// device features: its `allowed_usages` are copy, binding, render and
/// storage for Rgba32Float, Rgba16Float, Rgba8Unorm and R32Float, and all
/// but storage for Depth32Float and Depth24Plus.
#[verifier::external_body]
fn guaranteed_usages(format: TexelFormat) -> (r: Usage)
    ensures
        r == allowed_usage(format),
{
    let f = match format {
        TexelFormat::Rgba32Float => wgpu::TextureFormat::Rgba32Float,
        TexelFormat::Rgba16Float => wgpu::TextureFormat::Rgba16Float,
        TexelFormat::Rgba8Unorm => wgpu::TextureFormat::Rgba8Unorm,
        TexelFormat::R32Float => wgpu::TextureFormat::R32Float,
        TexelFormat::Depth32Float => wgpu::TextureFormat::Depth32Float,
        TexelFormat::Depth24Plus => wgpu::TextureFormat::Depth24Plus,
    };
    let u = f.guaranteed_format_features(wgpu::Features::empty()).allowed_usages;
    Usage { sampled: u.contains(U::TEXTURE_BINDING), storage_write: u.contains(U::STORAGE_BINDING),
        render_target: u.contains(U::RENDER_ATTACHMENT), copy_src: u.contains(U::COPY_SRC), copy_dst: u.contains(U::COPY_DST) }
}

impl TexelFormat {
    /// The usages the device allows for this format.
    pub fn allowed_usages(self) -> (r: Usage)
        ensures
            r == allowed_usage(self),
    {
        guaranteed_usages(self)
    }

    /// Copy footprint of one texel in bytes, or `None` where the format has none.
    pub fn texel_size(self) -> (r: Option<u32>)
        ensures
            r == texel_copy_size(self),
    {
        block_copy_size(self)
    }
}

} // verus!
