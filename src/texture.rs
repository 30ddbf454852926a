//! The three kinds of image resource the pipeline builds: 2D render
//! targets, the cube environment map, and the equirectangular source.
use vstd::prelude::*;
use crate::error::PipelineError;
use crate::format::{TexelFormat, texel_copy_size};
use crate::mip::{Extent, mip_side};
use crate::resource::{
    ImageModel, ImageResource, UploadLayout, Usage, ViewDesc, ViewDimension, creation_issue,
    image_wf, level_bytes, mip_count_for, row_bytes,
};

verus! {

/// Number of faces, and so of array layers, of a cube resource.
pub const CUBE_FACES: u32 = 6;

/// Texel filtering of a sampler.
#[derive(Clone, Copy, Debug, PartialEq, Eq, Structural)]
pub enum Filter {
    Nearest,
    Linear,
}

/// Texel addressing outside the image, on every axis.
#[derive(Clone, Copy, Debug, PartialEq, Eq, Structural)]
pub enum AddressMode {
    ClampToEdge,
    Repeat,
}

/// A sampler: addressing and filtering.
#[derive(Clone, Copy, Debug, PartialEq, Eq, Structural)]
pub struct SamplerDesc {
    pub address_mode: AddressMode,
    pub mag_filter: Filter,
    pub min_filter: Filter,
    pub mipmap_filter: Filter,
}

/// Usage of a render target that is later copied out.
pub open spec fn target_usage() -> Usage {
    Usage { sampled: true, storage_write: false, render_target: true, copy_src: true, copy_dst: true }
}

/// Usage of the cube map: sampled, written by the projector through storage,
/// and rendered into by the mipmap generator.
pub open spec fn cube_usage() -> Usage {
    Usage { sampled: true, storage_write: true, render_target: true, copy_src: false, copy_dst: false }
}

/// Usage of the equirectangular source: uploaded once, then sampled.
pub open spec fn source_usage() -> Usage {
    Usage { sampled: true, storage_write: false, render_target: false, copy_src: false, copy_dst: true }
}

/// A 2D render target with an optional mip chain.
pub struct Texture2D {
    image: ImageResource,
}

impl Texture2D {
    /// What the resource is.
    pub closed spec fn model(&self) -> ImageModel {
        self.image@
    }

    pub open spec fn wf(&self) -> bool {
        image_wf(self.model()) && self.model().layers == 1
    }

    /// A `width` x `height` target of `format`, with the full mip chain when
    /// `with_mips`.
    pub fn new(format: TexelFormat, width: u32, height: u32, with_mips: bool) -> (r: Result<Texture2D, PipelineError>)
        ensures
            match creation_issue(format, target_usage(), width, height) {
                Some(issue) => r == Err::<Texture2D, PipelineError>(PipelineError::ResourceCreation(issue)),
                None => r is Ok && r->Ok_0.wf() && r->Ok_0.model() == (ImageModel {
                    format,
                    width,
                    height,
                    layers: 1,
                    mip_count: mip_count_for(width, height, with_mips),
                    texel_bytes: texel_copy_size(format)->Some_0,
                    usage: target_usage(),
                }),
            },
    {
        let usage = Usage { sampled: true, storage_write: false, render_target: true, copy_src: true, copy_dst: true };
        match ImageResource::create(format, width, height, 1, with_mips, usage) {
            Ok(image) => Ok(Texture2D { image }),
            Err(e) => Err(e),
        }
    }

    /// The underlying resource.
    pub fn image(&self) -> (r: &ImageResource)
        ensures
            r@ == self.model(),
    {
        &self.image
    }

    pub fn format(&self) -> (r: TexelFormat)
        ensures
            r == self.model().format,
    {
        self.image.format()
    }

    pub fn size(&self) -> (r: Extent)
        ensures
            r == (Extent { width: self.model().width, height: self.model().height, depth_or_array_layers: self.model().layers }),
    {
        self.image.size()
    }

    pub fn mip_count(&self) -> (r: u32)
        ensures
            r == self.model().mip_count,
    {
        self.image.mip_count()
    }

    /// The full view: every mip of the single layer.
    pub fn view(&self) -> (r: ViewDesc)
        requires
            self.wf(),
        ensures
            r == (ViewDesc {
                dimension: ViewDimension::D2,
                base_mip_level: 0,
                mip_level_count: self.model().mip_count,
                base_array_layer: 0,
                array_layer_count: 1,
            }),
    {
        self.image.layers_view(ViewDimension::D2, 0, self.image.mip_count())
    }

    /// Extent of mip `mip_level`: each side `max(1, side >> mip_level)`.
    pub fn mip_level_size(&self, mip_level: u32) -> (r: Extent)
        requires
            self.wf(),
            mip_level < self.model().mip_count,
        ensures
            r == (Extent {
                width: mip_side(self.model().width, mip_level),
                height: mip_side(self.model().height, mip_level),
                depth_or_array_layers: 1,
            }),
    {
        self.image.mip_level_size(mip_level)
    }

    /// Bytes of mip `mip_level` tightly packed.
    pub fn mip_memory_size(&self, mip_level: u32) -> (r: u32)
        requires
            self.wf(),
            mip_level < self.model().mip_count,
        ensures
            r as int == level_bytes(self.model(), mip_level),
    {
        self.image.mip_byte_size(mip_level)
    }

    /// Bytes of one tightly packed row of mip `mip_level`.
    pub fn mip_memory_size_row(&self, mip_level: u32) -> (r: u32)
        requires
            self.wf(),
            mip_level < self.model().mip_count,
        ensures
            r as int == row_bytes(self.model(), mip_level),
    {
        self.image.row_byte_size(mip_level)
    }

    /// A view of mip `mip_level` alone, to render into it.
    pub fn create_mip_view(&self, mip_level: u32) -> (r: ViewDesc)
        requires
            self.wf(),
            mip_level < self.model().mip_count,
        ensures
            r == (ViewDesc {
                dimension: ViewDimension::D2,
                base_mip_level: mip_level,
                mip_level_count: 1,
                base_array_layer: 0,
                array_layer_count: 1,
            }),
    {
        self.image.view_at(0, mip_level)
    }

    /// Layout of the upload of `pixels` into mip 0: accepted only when
    /// `pixels` holds exactly mip 0 tightly packed.
    pub fn write_pixels(&self, pixels: &Vec<u8>) -> (r: Result<UploadLayout, PipelineError>)
        requires
            self.wf(),
        ensures
            r is Ok <==> pixels@.len() == level_bytes(self.model(), 0),
            r is Ok ==> r->Ok_0 == (UploadLayout {
                mip_level: 0,
                bytes_per_row: row_bytes(self.model(), 0) as u32,
                extent: Extent { width: self.model().width, height: self.model().height, depth_or_array_layers: 1 },
            }),
            r is Err ==> r == Err::<UploadLayout, PipelineError>(PipelineError::ResourceCreation(
                crate::error::ResourceIssue::UploadSizeMismatch,
            )),
    {
        self.image.upload_layout(pixels.len())
    }
}

/// The cube environment map: six Rgba32Float faces with a full mip chain.
pub struct CubeTexture {
    image: ImageResource,
}

impl CubeTexture {
    /// What the resource is.
    pub closed spec fn model(&self) -> ImageModel {
        self.image@
    }

    pub open spec fn wf(&self) -> bool {
        &&& image_wf(self.model())
        &&& self.model().layers == CUBE_FACES
        &&& self.model().format == TexelFormat::Rgba32Float
        &&& self.model().usage == cube_usage()
        &&& self.model().mip_count as nat == crate::mip::mip_chain_len(self.model().width, self.model().height)
    }

    /// A cube map whose faces are `width` x `height`.
    pub fn new(width: u32, height: u32) -> (r: Result<CubeTexture, PipelineError>)
        ensures
            match creation_issue(TexelFormat::Rgba32Float, cube_usage(), width, height) {
                Some(issue) => r == Err::<CubeTexture, PipelineError>(PipelineError::ResourceCreation(issue)),
                None => r is Ok && r->Ok_0.wf() && r->Ok_0.model() == (ImageModel {
                    format: TexelFormat::Rgba32Float,
                    width,
                    height,
                    layers: CUBE_FACES,
                    mip_count: mip_count_for(width, height, true),
                    texel_bytes: 16,
                    usage: cube_usage(),
                }),
            },
    {
        let usage = Usage { sampled: true, storage_write: true, render_target: true, copy_src: false, copy_dst: false };
        proof {
            crate::mip::lemma_mip_chain_len_bound(width, height);
        }
        match ImageResource::create(TexelFormat::Rgba32Float, width, height, CUBE_FACES, true, usage) {
            Ok(image) => Ok(CubeTexture { image }),
            Err(e) => Err(e),
        }
    }

    /// The underlying resource.
    pub fn image(&self) -> (r: &ImageResource)
        ensures
            r@ == self.model(),
    {
        &self.image
    }

    /// Every mip of the six faces, sampled as a cube.
    pub open spec fn view_cube_spec(&self) -> ViewDesc {
        ViewDesc {
            dimension: ViewDimension::Cube,
            base_mip_level: 0,
            mip_level_count: self.model().mip_count,
            base_array_layer: 0,
            array_layer_count: CUBE_FACES,
        }
    }

    /// The view for sampling the cube: every mip of the six faces.
    pub fn view_cube(&self) -> (r: ViewDesc)
        requires
            self.wf(),
        ensures
            r == self.view_cube_spec(),
    {
        self.image.layers_view(ViewDimension::Cube, 0, self.image.mip_count())
    }

    /// The 2D-array view of mip 0 through which the projector writes all faces.
    pub fn view_2d(&self) -> (r: ViewDesc)
        requires
            self.wf(),
        ensures
            r == (ViewDesc {
                dimension: ViewDimension::D2Array,
                base_mip_level: 0,
                mip_level_count: 1,
                base_array_layer: 0,
                array_layer_count: CUBE_FACES,
            }),
    {
        self.image.layers_view(ViewDimension::D2Array, 0, 1)
    }

    /// A 2D view of face `array_level` at mip `mip_level` alone.
    pub fn create_mip_view(&self, array_level: u32, mip_level: u32) -> (r: ViewDesc)
        requires
            self.wf(),
            array_level < CUBE_FACES,
            mip_level < self.model().mip_count,
        ensures
            r == (ViewDesc {
                dimension: ViewDimension::D2,
                base_mip_level: mip_level,
                mip_level_count: 1,
                base_array_layer: array_level,
                array_layer_count: 1,
            }),
    {
        self.image.view_at(array_level, mip_level)
    }

    pub fn format(&self) -> (r: TexelFormat)
        ensures
            r == self.model().format,
    {
        self.image.format()
    }

    /// The sampler the convolution stages read the cube with: clamped to the
    /// edge, linear in every filter.
    pub fn sampler(&self) -> (r: SamplerDesc)
        ensures
            r == (SamplerDesc { address_mode: AddressMode::ClampToEdge, mag_filter: Filter::Linear, min_filter: Filter::Linear, mipmap_filter: Filter::Linear }),
    {
        SamplerDesc { address_mode: AddressMode::ClampToEdge, mag_filter: Filter::Linear, min_filter: Filter::Linear, mipmap_filter: Filter::Linear }
    }

    /// Face extent with the six layers.
    pub fn size(&self) -> (r: Extent)
        ensures
            r == (Extent { width: self.model().width, height: self.model().height, depth_or_array_layers: self.model().layers }),
    {
        self.image.size()
    }

    pub fn mip_count(&self) -> (r: u32)
        ensures
            r == self.model().mip_count,
    {
        self.image.mip_count()
    }

    /// Face extent of mip `mip_level`, with the six layers.
    pub fn mip_level_size(&self, mip_level: u32) -> (r: Extent)
        requires
            self.wf(),
            mip_level < self.model().mip_count,
        ensures
            r == (Extent {
                width: mip_side(self.model().width, mip_level),
                height: mip_side(self.model().height, mip_level),
                depth_or_array_layers: CUBE_FACES,
            }),
    {
        self.image.mip_level_size(mip_level)
    }
}

/// The equirectangular source panorama: one layer, one mip, Rgba32Float.
pub struct HdrTexture {
    image: ImageResource,
}

impl HdrTexture {
    /// What the resource is.
    pub closed spec fn model(&self) -> ImageModel {
        self.image@
    }

    pub open spec fn wf(&self) -> bool {
        image_wf(self.model()) && self.model().layers == 1 && self.model().mip_count == 1 && self.model().texel_bytes == 16
    }

    /// A `width` x `height` source image.
    pub fn new(width: u32, height: u32) -> (r: Result<HdrTexture, PipelineError>)
        ensures
            match creation_issue(TexelFormat::Rgba32Float, source_usage(), width, height) {
                Some(issue) => r == Err::<HdrTexture, PipelineError>(PipelineError::ResourceCreation(issue)),
                None => r is Ok && r->Ok_0.wf() && r->Ok_0.model() == (ImageModel {
                    format: TexelFormat::Rgba32Float,
                    width,
                    height,
                    layers: 1,
                    mip_count: 1,
                    texel_bytes: 16,
                    usage: source_usage(),
                }),
            },
    {
        let usage = Usage { sampled: true, storage_write: false, render_target: false, copy_src: false, copy_dst: true };
        match ImageResource::create(TexelFormat::Rgba32Float, width, height, 1, false, usage) {
            Ok(image) => Ok(HdrTexture { image }),
            Err(e) => Err(e),
        }
    }

    /// The underlying resource.
    pub fn image(&self) -> (r: &ImageResource)
        ensures
            r@ == self.model(),
    {
        &self.image
    }

    pub fn size(&self) -> (r: Extent)
        requires
            self.wf(),
        ensures
            r == (Extent { width: self.model().width, height: self.model().height, depth_or_array_layers: 1 }),
    {
        self.image.size()
    }

    /// The whole image as one 2D view.
    pub open spec fn view_spec(&self) -> ViewDesc {
        ViewDesc {
            dimension: ViewDimension::D2,
            base_mip_level: 0,
            mip_level_count: 1,
            base_array_layer: 0,
            array_layer_count: 1,
        }
    }

    /// The view the projector samples.
    pub fn view(&self) -> (r: ViewDesc)
        requires
            self.wf(),
        ensures
            r == self.view_spec(),
    {
        self.image.layers_view(ViewDimension::D2, 0, 1)
    }

    /// Layout of the upload of `pixels`: accepted only when they hold the
    /// whole image as tightly packed 16-byte texels.
    pub fn write_pixels(&self, pixels: &Vec<u8>) -> (r: Result<UploadLayout, PipelineError>)
        requires
            self.wf(),
        ensures
            r is Ok <==> pixels@.len() == self.model().width as int * self.model().height as int * 16,
            r is Ok ==> r->Ok_0.mip_level == 0 && r->Ok_0.bytes_per_row as int == self.model().width as int * 16
                && r->Ok_0.extent == (Extent { width: self.model().width, height: self.model().height, depth_or_array_layers: 1 }),
            r is Err ==> r == Err::<UploadLayout, PipelineError>(PipelineError::ResourceCreation(
                crate::error::ResourceIssue::UploadSizeMismatch,
            )),
    {
        proof {
            crate::mip::lemma_mip_side_base(self.model().width);
            crate::mip::lemma_mip_side_base(self.model().height);
            let w = self.model().width as int;
            let h = self.model().height as int;
            assert(w * 16 * h == w * h * 16) by (nonlinear_arith);
            crate::resource::lemma_level_bytes_fit(self.model(), 0);
        }
        self.image.upload_layout(pixels.len())
    }
}

} // verus!
