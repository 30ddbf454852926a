//! Image resources: format, extent, layers and mip chain, with the views,
//! sizes and upload layouts derived from them.
use vstd::prelude::*;
use crate::error::{PipelineError, ResourceIssue};
use crate::format::{TexelFormat, allowed_usage, texel_copy_size};
use crate::mip::{Extent, mip_chain_len, mip_side, mip_level_count, mip_extent, lemma_mip_side_bounds};

verus! {

/// How a view presents the resource to a shader.
#[derive(Clone, Copy, Debug, PartialEq, Eq, Structural)]
pub enum ViewDimension {
    D2,
    D2Array,
    Cube,
}

/// A non-owning typed window into one image resource: a mip range and a
/// layer range.
#[derive(Clone, Copy, Debug, PartialEq, Eq, Structural)]
pub struct ViewDesc {
    pub dimension: ViewDimension,
    pub base_mip_level: u32,
    pub mip_level_count: u32,
    pub base_array_layer: u32,
    pub array_layer_count: u32,
}

/// The ways the device may use a resource.
#[derive(Clone, Copy, Debug, PartialEq, Eq, Structural)]
pub struct Usage {
    pub sampled: bool,
    pub storage_write: bool,
    pub render_target: bool,
    pub copy_src: bool,
    pub copy_dst: bool,
}

/// Where one tightly packed upload lands: mip `mip_level`, rows of
/// `bytes_per_row` bytes, covering `extent`.
#[derive(Clone, Copy, Debug, PartialEq, Eq, Structural)]
pub struct UploadLayout {
    pub mip_level: u32,
    pub bytes_per_row: u32,
    pub extent: Extent,
}

/// What an image resource is: format, extent, layers, mip chain, copy
/// footprint of a texel, and usage.
#[derive(Clone, Copy, Debug, PartialEq, Eq, Structural)]
pub struct ImageModel {
    pub format: TexelFormat,
    pub width: u32,
    pub height: u32,
    pub layers: u32,
    pub mip_count: u32,
    pub texel_bytes: u32,
    pub usage: Usage,
}

/// Every usage asked for in `wanted` is in `allowed`.
pub open spec fn usage_within(wanted: Usage, allowed: Usage) -> bool {
    &&& wanted.sampled ==> allowed.sampled
    &&& wanted.storage_write ==> allowed.storage_write
    &&& wanted.render_target ==> allowed.render_target
    &&& wanted.copy_src ==> allowed.copy_src
    &&& wanted.copy_dst ==> allowed.copy_dst
}

/// The first reason, if any, why a `width` x `height` resource of `format`
/// with `usage` cannot be created: no texel size, a usage the format does
/// not allow, an empty side, or a mip 0 layer whose byte size exceeds
/// `u32::MAX`.
pub open spec fn creation_issue(format: TexelFormat, usage: Usage, width: u32, height: u32) -> Option<ResourceIssue> {
    match texel_copy_size(format) {
        None => Some(ResourceIssue::UnsizedFormat),
        Some(t) => if !usage_within(usage, allowed_usage(format)) {
            Some(ResourceIssue::UnsupportedUsage)
        } else if width == 0 || height == 0 {
            Some(ResourceIssue::EmptyExtent)
        } else if width as int * t as int * height as int > u32::MAX as int {
            Some(ResourceIssue::TooLarge)
        } else {
            None
        },
    }
}

/// The first reason, if any, why a resource of `layers` layers cannot be
/// created: those of `creation_issue`, then no layer at all.
pub open spec fn image_issue(format: TexelFormat, usage: Usage, width: u32, height: u32, layers: u32) -> Option<
    ResourceIssue,
> {
    if creation_issue(format, usage, width, height) is Some {
        creation_issue(format, usage, width, height)
    } else if layers == 0 {
        Some(ResourceIssue::EmptyExtent)
    } else {
        None
    }
}

/// Mip count of a resource: the full chain when `mipped`, else 1.
pub open spec fn mip_count_for(width: u32, height: u32, mipped: bool) -> u32 {
    if mipped {
        mip_chain_len(width, height) as u32
    } else {
        1
    }
}

pub open spec fn image_wf(m: ImageModel) -> bool {
    &&& m.width >= 1
    &&& m.height >= 1
    &&& m.layers >= 1
    &&& texel_copy_size(m.format) == Some(m.texel_bytes)
    &&& 1 <= m.mip_count <= 32
    &&& m.width as int * m.texel_bytes as int * m.height as int <= u32::MAX as int
}

/// Bytes of one tightly packed row of mip `level`.
pub open spec fn row_bytes(m: ImageModel, level: u32) -> int {
    mip_side(m.width, level) as int * m.texel_bytes as int
}

/// Bytes of one tightly packed layer of mip `level`.
pub open spec fn level_bytes(m: ImageModel, level: u32) -> int {
    row_bytes(m, level) * mip_side(m.height, level) as int
}

/// The sizes of every mip level fit the sizes of mip 0.
pub proof fn lemma_level_bytes_fit(m: ImageModel, level: u32)
    requires
        image_wf(m),
        level < 32,
    ensures
        1 <= mip_side(m.width, level) <= m.width,
        1 <= mip_side(m.height, level) <= m.height,
        0 <= row_bytes(m, level) <= level_bytes(m, level),
        level_bytes(m, level) <= m.width as int * m.texel_bytes as int * m.height as int,
        level_bytes(m, level) <= u32::MAX as int,
{
    lemma_mip_side_bounds(m.width, level);
    lemma_mip_side_bounds(m.height, level);
    let a = mip_side(m.width, level) as int;
    let b = mip_side(m.height, level) as int;
    let w = m.width as int;
    let h = m.height as int;
    let t = m.texel_bytes as int;
    assert(0 <= a * t <= a * t * b) by (nonlinear_arith)
        requires 1 <= b, 0 <= a, 0 <= t;
    assert(a * t * b <= w * t * h) by (nonlinear_arith)
        requires 1 <= a <= w, 1 <= b <= h, 0 <= t;
}

/// The description of an image resource of the device, from which its
/// creation parameters, views, mip sizes and upload layouts are derived.
pub struct ImageResource {
    format: TexelFormat,
    width: u32,
    height: u32,
    layers: u32,
    mip_count: u32,
    texel_bytes: u32,
    usage: Usage,
}

impl View for ImageResource {
    type V = ImageModel;

    closed spec fn view(&self) -> ImageModel {
        ImageModel {
            format: self.format,
            width: self.width,
            height: self.height,
            layers: self.layers,
            mip_count: self.mip_count,
            texel_bytes: self.texel_bytes,
            usage: self.usage,
        }
    }
}

/// Texel copy size of `format` when a `width` x `height` resource of it can
/// be created, else the reason why not.
fn check_creation(format: TexelFormat, usage: Usage, width: u32, height: u32) -> (r: Result<u32, PipelineError>)
    ensures
        match creation_issue(format, usage, width, height) {
            Some(issue) => r == Err::<u32, PipelineError>(PipelineError::ResourceCreation(issue)),
            None => r == Ok::<u32, PipelineError>(texel_copy_size(format)->Some_0),
        },
{
    let t = match format.texel_size() {
        None => {
            return Err(PipelineError::ResourceCreation(ResourceIssue::UnsizedFormat));
        },
        Some(t) => t,
    };
    let allowed = format.allowed_usages();
    if (usage.sampled && !allowed.sampled) || (usage.storage_write && !allowed.storage_write) || (usage.render_target
        && !allowed.render_target) || (usage.copy_src && !allowed.copy_src) || (usage.copy_dst && !allowed.copy_dst) {
        return Err(PipelineError::ResourceCreation(ResourceIssue::UnsupportedUsage));
    }
    if width == 0 || height == 0 {
        return Err(PipelineError::ResourceCreation(ResourceIssue::EmptyExtent));
    }
    let row: u64 = width as u64 * t as u64;
    assert(row <= 0xffff_ffff_u64 * 0xffff_ffff_u64) by (nonlinear_arith)
        requires row == width as int * t as int, width <= 0xffff_ffff_u64, t <= 0xffff_ffff_u64;
    if row > u32::MAX as u64 {
        assert(width as int * t as int * height as int > u32::MAX as int) by (nonlinear_arith)
            requires width as int * t as int > u32::MAX as int, height >= 1;
        return Err(PipelineError::ResourceCreation(ResourceIssue::TooLarge));
    }
    assert(row * height <= 0xffff_ffff_u64 * 0xffff_ffff_u64) by (nonlinear_arith)
        requires row <= 0xffff_ffff_u64, height <= 0xffff_ffff_u64;
    if row * height as u64 > u32::MAX as u64 {
        return Err(PipelineError::ResourceCreation(ResourceIssue::TooLarge));
    }
    Ok(t)
}

impl ImageResource {
    pub open spec fn wf(&self) -> bool {
        image_wf(self@)
    }

    /// Describes a `width` x `height` resource of `format` with `layers`
    /// layers, a full mip chain when `mipped`, and `usage`.
    pub fn create(format: TexelFormat, width: u32, height: u32, layers: u32, mipped: bool, usage: Usage) -> (r: Result<ImageResource, PipelineError>)
        ensures
            match image_issue(format, usage, width, height, layers) {
                Some(issue) => r == Err::<ImageResource, PipelineError>(PipelineError::ResourceCreation(issue)),
                None => r is Ok && r->Ok_0.wf() && r->Ok_0@ == (ImageModel {
                    format,
                    width,
                    height,
                    layers,
                    mip_count: mip_count_for(width, height, mipped),
                    texel_bytes: texel_copy_size(format)->Some_0,
                    usage,
                }),
            },
    {
        let texel_bytes = match check_creation(format, usage, width, height) {
            Err(e) => {
                return Err(e);
            },
            Ok(t) => t,
        };
        if layers == 0 {
            return Err(PipelineError::ResourceCreation(ResourceIssue::EmptyExtent));
        }
        let mip_count = mip_level_count(width, height, mipped);
        proof {
            crate::mip::lemma_mip_chain_len_bound(width, height);
        }
        Ok(ImageResource { format, width, height, layers, mip_count, texel_bytes, usage })
    }

    pub fn format(&self) -> (r: TexelFormat)
        ensures
            r == self@.format,
    {
        self.format
    }

    pub fn usage(&self) -> (r: Usage)
        ensures
            r == self@.usage,
    {
        self.usage
    }

    pub fn mip_count(&self) -> (r: u32)
        ensures
            r == self@.mip_count,
    {
        self.mip_count
    }

    pub fn texel_bytes(&self) -> (r: u32)
        ensures
            r == self@.texel_bytes,
    {
        self.texel_bytes
    }

    /// Extent of mip 0 with the layer count.
    pub fn size(&self) -> (r: Extent)
        ensures
            r == (Extent { width: self@.width, height: self@.height, depth_or_array_layers: self@.layers }),
    {
        Extent { width: self.width, height: self.height, depth_or_array_layers: self.layers }
    }

    /// Extent of mip `mip`: each side `max(1, side >> mip)`, layers kept.
    pub fn mip_level_size(&self, mip: u32) -> (r: Extent)
        requires
            self.wf(),
            mip < self@.mip_count,
        ensures
            r == (Extent {
                width: mip_side(self@.width, mip),
                height: mip_side(self@.height, mip),
                depth_or_array_layers: self@.layers,
            }),
    {
        mip_extent(self.size(), mip)
    }

    /// Bytes of one tightly packed row of mip `mip`.
    pub fn row_byte_size(&self, mip: u32) -> (r: u32)
        requires
            self.wf(),
            mip < self@.mip_count,
        ensures
            r as int == row_bytes(self@, mip),
    {
        proof {
            lemma_level_bytes_fit(self@, mip);
        }
        let e = self.mip_level_size(mip);
        e.width * self.texel_bytes
    }

    /// Bytes of one tightly packed layer of mip `mip`.
    pub fn mip_byte_size(&self, mip: u32) -> (r: u32)
        requires
            self.wf(),
            mip < self@.mip_count,
        ensures
            r as int == level_bytes(self@, mip),
    {
        proof {
            lemma_level_bytes_fit(self@, mip);
        }
        let e = self.mip_level_size(mip);
        e.width * self.texel_bytes * e.height
    }

    /// A 2D view of layer `layer` at mip `mip` alone.
    pub fn view_at(&self, layer: u32, mip: u32) -> (r: ViewDesc)
        requires
            layer < self@.layers,
            mip < self@.mip_count,
        ensures
            r == (ViewDesc {
                dimension: ViewDimension::D2,
                base_mip_level: mip,
                mip_level_count: 1,
                base_array_layer: layer,
                array_layer_count: 1,
            }),
    {
        ViewDesc {
            dimension: ViewDimension::D2,
            base_mip_level: mip,
            mip_level_count: 1,
            base_array_layer: layer,
            array_layer_count: 1,
        }
    }

    /// A view of every layer over mips `base_mip .. base_mip + mips`.
    pub fn layers_view(&self, dimension: ViewDimension, base_mip: u32, mips: u32) -> (r: ViewDesc)
        requires
            base_mip as int + mips as int <= self@.mip_count as int,
        ensures
            r == (ViewDesc {
                dimension,
                base_mip_level: base_mip,
                mip_level_count: mips,
                base_array_layer: 0,
                array_layer_count: self@.layers,
            }),
    {
        ViewDesc {
            dimension,
            base_mip_level: base_mip,
            mip_level_count: mips,
            base_array_layer: 0,
            array_layer_count: self.layers,
        }
    }

    /// The layout of an upload of `len` bytes into mip 0: accepted only when
    /// `len` is exactly every layer of mip 0 tightly packed; the row stride
    /// comes from the texel size.
    pub fn upload_layout(&self, len: usize) -> (r: Result<UploadLayout, PipelineError>)
        requires
            self.wf(),
        ensures
            len as int == level_bytes(self@, 0) * self@.layers as int ==> r == Ok::<UploadLayout, PipelineError>(UploadLayout {
                mip_level: 0,
                bytes_per_row: row_bytes(self@, 0) as u32,
                extent: Extent { width: self@.width, height: self@.height, depth_or_array_layers: self@.layers },
            }),
            len as int != level_bytes(self@, 0) * self@.layers as int ==> r == Err::<UploadLayout, PipelineError>(
                PipelineError::ResourceCreation(ResourceIssue::UploadSizeMismatch)),
    {
        let per_layer = self.mip_byte_size(0);
        let bytes_per_row = self.row_byte_size(0);
        proof {
            lemma_mip_side_bounds(self.width, 0);
            lemma_mip_side_bounds(self.height, 0);
            crate::mip::lemma_mip_side_base(self.width);
            crate::mip::lemma_mip_side_base(self.height);
        }
        assert(per_layer as u64 * self.layers as u64 <= 0xffff_ffff_u64 * 0xffff_ffff_u64) by (nonlinear_arith)
            requires per_layer <= 0xffff_ffff_u32, self.layers <= 0xffff_ffff_u32;
        let expected: u64 = per_layer as u64 * self.layers as u64;
        if len as u64 != expected {
            return Err(PipelineError::ResourceCreation(ResourceIssue::UploadSizeMismatch));
        }
        Ok(UploadLayout { mip_level: 0, bytes_per_row, extent: self.size() })
    }
}

} // verus!
