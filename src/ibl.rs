//! The convolution stages: diffuse irradiance, the per-mip specular
//! prefilter, and the secondary specular resolve, with the staging layout
//! each of their targets is read back through.
use vstd::prelude::*;
use crate::codec::{encode_target, encodes_target};
use crate::error::{PipelineError, ResourceIssue};
use crate::format::{TexelFormat, texel_copy_size};
use crate::readback::{ReadbackLayout, staging_fits, staging_layout};
use crate::resource::{ImageModel, ViewDesc, ViewDimension, creation_issue, image_wf, mip_count_for};
use crate::texture::{AddressMode, CubeTexture, Filter, SamplerDesc, Texture2D, target_usage};

verus! {

/// Upper bound on the specular prefilter levels, capping precompute cost.
pub const MAX_SPECULAR_MIPS: u32 = 5;

/// The shader program a convolution pass runs.
#[derive(Clone, Copy, Debug, PartialEq, Eq, Structural)]
pub enum Program {
    Diffuse,
    Specular1,
    Specular2,
}

/// The per-draw uniform of a convolution pass; roughness is implied by
/// `mip_level / total_mips`.
#[derive(Clone, Copy, Debug, PartialEq, Eq, Structural)]
pub struct MipUniform {
    pub mip_level: u32,
    pub total_mips: u32,
}

/// One convolution pass: the program, the view it renders into, its
/// uniform, and the staging layout its target is copied out through.
#[derive(Clone, Copy, Debug, PartialEq, Eq, Structural)]
pub struct TargetPass {
    pub program: Program,
    pub target: ViewDesc,
    pub uniform: MipUniform,
    pub readback: ReadbackLayout,
}

/// What `Texture2D::new(format, width, height, mipped)` describes.
pub open spec fn target_model(format: TexelFormat, width: u32, height: u32, mipped: bool) -> ImageModel {
    ImageModel {
        format,
        width,
        height,
        layers: 1,
        mip_count: mip_count_for(width, height, mipped),
        texel_bytes: texel_copy_size(format)->Some_0,
        usage: target_usage(),
    }
}

/// Prefiltered specular levels for a `width` x `height` target:
/// `min(max mips, cap)`.
pub open spec fn specular_mips(width: u32, height: u32, cap: u32) -> u32 {
    if (mip_count_for(width, height, true) as int) < (cap as int) {
        mip_count_for(width, height, true)
    } else {
        cap
    }
}

/// The first reason, if any, why the three targets cannot be created.
pub open spec fn targets_issue(
    format: TexelFormat,
    diffuse_width: u32,
    diffuse_height: u32,
    specular_1_width: u32,
    specular_1_height: u32,
    specular_2_width: u32,
    specular_2_height: u32,
) -> Option<ResourceIssue> {
    if creation_issue(format, target_usage(), diffuse_width, diffuse_height) is Some {
        creation_issue(format, target_usage(), diffuse_width, diffuse_height)
    } else if creation_issue(TexelFormat::Rgba32Float, target_usage(), specular_1_width, specular_1_height) is Some {
        creation_issue(TexelFormat::Rgba32Float, target_usage(), specular_1_width, specular_1_height)
    } else {
        creation_issue(TexelFormat::Rgba32Float, target_usage(), specular_2_width, specular_2_height)
    }
}

/// Whether every staging buffer of the targets can be counted in 32 bits.
pub open spec fn stagings_fit(diffuse: ImageModel, specular_1: ImageModel, specular_2: ImageModel, total_mips: u32) -> bool {
    &&& staging_fits(diffuse, 0)
    &&& forall|mip: u32| mip < total_mips ==> #[trigger] staging_fits(specular_1, mip)
    &&& staging_fits(specular_2, 0)
}

/// A full-resource view of mip `mip` of a single-layer target.
pub open spec fn target_view(mip: u32) -> ViewDesc {
    ViewDesc {
        dimension: ViewDimension::D2,
        base_mip_level: mip,
        mip_level_count: 1,
        base_array_layer: 0,
        array_layer_count: 1,
    }
}

/// Specular prefilter pass `mip` out of `total_mips` over `specular_1`.
pub open spec fn specular_1_pass(specular_1: ImageModel, mip: u32, total_mips: u32) -> TargetPass {
    TargetPass {
        program: Program::Specular1,
        target: target_view(mip),
        uniform: MipUniform { mip_level: mip, total_mips },
        readback: staging_layout(specular_1, mip),
    }
}

/// `r` is the outcome of building the stages over `env_map` with these
/// targets and at most `cap` specular levels: the first creation issue of
/// the targets; else `TooLarge` when a staging buffer cannot be counted in
/// 32 bits; else stages whose targets are exactly the ones asked for, with
/// `min(max mips, cap)` specular levels, sampling the whole cube.
pub open spec fn builds_convolver(
    env_map: &CubeTexture,
    format: TexelFormat,
    diffuse_width: u32,
    diffuse_height: u32,
    specular_1_width: u32,
    specular_1_height: u32,
    specular_2_width: u32,
    specular_2_height: u32,
    cap: u32,
    r: Result<IBLRenderer, PipelineError>,
) -> bool {
    let issue = targets_issue(
        format,
        diffuse_width,
        diffuse_height,
        specular_1_width,
        specular_1_height,
        specular_2_width,
        specular_2_height,
    );
    let d = target_model(format, diffuse_width, diffuse_height, false);
    let s1 = target_model(TexelFormat::Rgba32Float, specular_1_width, specular_1_height, true);
    let s2 = target_model(TexelFormat::Rgba32Float, specular_2_width, specular_2_height, false);
    let total = specular_mips(specular_1_width, specular_1_height, cap);
    &&& issue is Some ==> r == Err::<IBLRenderer, PipelineError>(PipelineError::ResourceCreation(issue->Some_0))
    &&& issue is None && !stagings_fit(d, s1, s2, total) ==> r == Err::<IBLRenderer, PipelineError>(
        PipelineError::ResourceCreation(ResourceIssue::TooLarge))
    &&& issue is None && stagings_fit(d, s1, s2, total) ==> r is Ok
    &&& r is Ok ==> {
        &&& r->Ok_0.wf()
        &&& r->Ok_0.diffuse() == d
        &&& r->Ok_0.specular_1() == s1
        &&& r->Ok_0.specular_2() == s2
        &&& r->Ok_0.spec_total_mips() == total
        &&& r->Ok_0.spec_env_view() == env_map.view_cube_spec()
    }
}

/// The diffuse irradiance pass over a diffuse target `diffuse`.
pub open spec fn diffuse_pass(diffuse: ImageModel) -> TargetPass {
    TargetPass {
        program: Program::Diffuse,
        target: target_view(0),
        uniform: MipUniform { mip_level: 0, total_mips: 1 },
        readback: staging_layout(diffuse, 0),
    }
}

/// The secondary specular resolve pass over a target `specular_2`.
pub open spec fn specular_2_pass(specular_2: ImageModel) -> TargetPass {
    TargetPass {
        program: Program::Specular2,
        target: target_view(0),
        uniform: MipUniform { mip_level: 0, total_mips: 1 },
        readback: staging_layout(specular_2, 0),
    }
}

/// The convolution stages of one environment map.
pub struct IBLRenderer {
    env_view: ViewDesc,
    env_sampler: SamplerDesc,
    diffuse_texture: Texture2D,
    specular_1_texture: Texture2D,
    specular_2_texture: Texture2D,
    total_mips: u32,
    diffuse_buffer: ReadbackLayout,
    specular_1_buffers: Vec<ReadbackLayout>,
    specular_2_buffer: ReadbackLayout,
}

impl IBLRenderer {
    pub closed spec fn diffuse(&self) -> ImageModel {
        self.diffuse_texture.model()
    }

    pub closed spec fn specular_1(&self) -> ImageModel {
        self.specular_1_texture.model()
    }

    pub closed spec fn specular_2(&self) -> ImageModel {
        self.specular_2_texture.model()
    }

    pub closed spec fn spec_total_mips(&self) -> u32 {
        self.total_mips
    }

    /// The cube view every stage samples.
    pub closed spec fn spec_env_view(&self) -> ViewDesc {
        self.env_view
    }

    pub closed spec fn wf(&self) -> bool {
        &&& self.env_sampler == (SamplerDesc {
            address_mode: AddressMode::ClampToEdge,
            mag_filter: Filter::Linear,
            min_filter: Filter::Linear,
            mipmap_filter: Filter::Linear,
        })
        &&& self.diffuse_texture.wf()
        &&& self.specular_1_texture.wf()
        &&& self.specular_2_texture.wf()
        &&& self.specular_1_texture.model().format == TexelFormat::Rgba32Float
        &&& self.specular_2_texture.model().format == TexelFormat::Rgba32Float
        &&& self.total_mips <= self.specular_1_texture.model().mip_count
        &&& self.diffuse_buffer == staging_layout(self.diffuse_texture.model(), 0)
        &&& self.diffuse_buffer.wf()
        &&& self.specular_2_buffer == staging_layout(self.specular_2_texture.model(), 0)
        &&& self.specular_2_buffer.wf()
        &&& self.specular_1_buffers@.len() == self.total_mips
        &&& forall|i: int|
            0 <= i < self.total_mips ==> #[trigger] self.specular_1_buffers@[i] == staging_layout(
                self.specular_1_texture.model(),
                i as u32,
            ) && self.specular_1_buffers@[i].wf()
    }

    /// The stages over `env_map` with a diffuse target of `format` and the
    /// default cap of specular levels.
    pub fn new(
        env_map: &CubeTexture,
        format: TexelFormat,
        diffuse_width: u32,
        diffuse_height: u32,
        specular_1_width: u32,
        specular_1_height: u32,
        specular_2_width: u32,
        specular_2_height: u32,
    ) -> (r: Result<IBLRenderer, PipelineError>)
        requires
            env_map.wf(),
        ensures
            builds_convolver(
                env_map,
                format,
                diffuse_width,
                diffuse_height,
                specular_1_width,
                specular_1_height,
                specular_2_width,
                specular_2_height,
                MAX_SPECULAR_MIPS,
                r,
            ),
    {
        IBLRenderer::with_mip_cap(
            env_map,
            format,
            diffuse_width,
            diffuse_height,
            specular_1_width,
            specular_1_height,
            specular_2_width,
            specular_2_height,
            MAX_SPECULAR_MIPS,
        )
    }

    /// The stages over `env_map`, prefiltering at most `max_specular_mips`
    /// specular levels.
    pub fn with_mip_cap(
        env_map: &CubeTexture,
        format: TexelFormat,
        diffuse_width: u32,
        diffuse_height: u32,
        specular_1_width: u32,
        specular_1_height: u32,
        specular_2_width: u32,
        specular_2_height: u32,
        max_specular_mips: u32,
    ) -> (r: Result<IBLRenderer, PipelineError>)
        requires
            env_map.wf(),
        ensures
            builds_convolver(
                env_map,
                format,
                diffuse_width,
                diffuse_height,
                specular_1_width,
                specular_1_height,
                specular_2_width,
                specular_2_height,
                max_specular_mips,
                r,
            ),
    {
        let diffuse_texture = match Texture2D::new(format, diffuse_width, diffuse_height, false) {
            Ok(t) => t,
            Err(e) => {
                return Err(e);
            },
        };
        let specular_1_texture = match Texture2D::new(TexelFormat::Rgba32Float, specular_1_width, specular_1_height, true) {
            Ok(t) => t,
            Err(e) => {
                return Err(e);
            },
        };
        let specular_2_texture = match Texture2D::new(TexelFormat::Rgba32Float, specular_2_width, specular_2_height, false) {
            Ok(t) => t,
            Err(e) => {
                return Err(e);
            },
        };
        let max_mips = specular_1_texture.mip_count();
        let total_mips = if max_mips < max_specular_mips {
            max_mips
        } else {
            max_specular_mips
        };
        let ghost d = diffuse_texture.model();
        let ghost s1 = specular_1_texture.model();
        let ghost s2 = specular_2_texture.model();
        assert(d == target_model(format, diffuse_width, diffuse_height, false));
        assert(s1 == target_model(TexelFormat::Rgba32Float, specular_1_width, specular_1_height, true));
        assert(s2 == target_model(TexelFormat::Rgba32Float, specular_2_width, specular_2_height, false));
        assert(total_mips == specular_mips(specular_1_width, specular_1_height, max_specular_mips));
        let diffuse_buffer = match ReadbackLayout::for_mip(diffuse_texture.image(), 0) {
            Ok(l) => l,
            Err(e) => {
                return Err(e);
            },
        };
        let mut specular_1_buffers: Vec<ReadbackLayout> = Vec::new();
        let mut mip_level: u32 = 0;
        while mip_level < total_mips
            invariant
                specular_1_texture.wf(),
                s1 == specular_1_texture.model(),
                d == target_model(format, diffuse_width, diffuse_height, false),
                s1 == target_model(TexelFormat::Rgba32Float, specular_1_width, specular_1_height, true),
                s2 == target_model(TexelFormat::Rgba32Float, specular_2_width, specular_2_height, false),
                total_mips == specular_mips(specular_1_width, specular_1_height, max_specular_mips),
                targets_issue(
                    format,
                    diffuse_width,
                    diffuse_height,
                    specular_1_width,
                    specular_1_height,
                    specular_2_width,
                    specular_2_height,
                ) is None,
                staging_fits(d, 0),
                total_mips <= s1.mip_count,
                mip_level <= total_mips,
                specular_1_buffers@.len() == mip_level,
                forall|i: int|
                    0 <= i < mip_level ==> #[trigger] specular_1_buffers@[i] == staging_layout(s1, i as u32)
                        && specular_1_buffers@[i].wf(),
                forall|m: u32| m < mip_level ==> #[trigger] staging_fits(s1, m),
            decreases total_mips - mip_level,
        {
            match ReadbackLayout::for_mip(specular_1_texture.image(), mip_level) {
                Ok(l) => {
                    specular_1_buffers.push(l);
                },
                Err(e) => {
                    return Err(e);
                },
            }
            mip_level = mip_level + 1;
        }
        let specular_2_buffer = match ReadbackLayout::for_mip(specular_2_texture.image(), 0) {
            Ok(l) => l,
            Err(e) => {
                return Err(e);
            },
        };
        Ok(IBLRenderer {
            env_view: env_map.view_cube(),
            env_sampler: env_map.sampler(),
            diffuse_texture,
            specular_1_texture,
            specular_2_texture,
            total_mips,
            diffuse_buffer,
            specular_1_buffers,
            specular_2_buffer,
        })
    }

    /// What a well-formed set of stages holds: valid targets, specular
    /// targets of 16-byte RGBA float texels, no more specular levels than
    /// the specular target has mips, and a well-formed staging layout for
    /// each pass.
    pub proof fn lemma_targets(&self)
        requires
            self.wf(),
        ensures
            image_wf(self.diffuse()),
            image_wf(self.specular_1()),
            image_wf(self.specular_2()),
            self.specular_1().format == TexelFormat::Rgba32Float,
            self.specular_1().texel_bytes == 16,
            self.specular_2().format == TexelFormat::Rgba32Float,
            self.specular_2().texel_bytes == 16,
            self.spec_total_mips() <= self.specular_1().mip_count,
            staging_layout(self.diffuse(), 0).wf(),
            staging_layout(self.specular_2(), 0).wf(),
            forall|mip: u32| mip < self.spec_total_mips() ==> #[trigger] staging_layout(self.specular_1(), mip).wf(),
    {
        assert forall|mip: u32| mip < self.spec_total_mips() implies #[trigger] staging_layout(
            self.specular_1(),
            mip,
        ).wf() by {
            assert(self.specular_1_buffers@[mip as int] == staging_layout(self.specular_1(), mip));
        }
    }

    /// Reading back specular level `mip` hands the encoder exactly
    /// `w * h * 3 * 4` bytes for the level's extent `w` x `h`, each taken
    /// from the colour part of a row of the mapped buffer, never from its
    /// padding or from an alpha float.
    pub proof fn lemma_specular_readback(&self, mip: u32, mapped: Seq<u8>)
        requires
            self.wf(),
            mip < self.spec_total_mips(),
            mapped.len() == staging_layout(self.specular_1(), mip).spec_buffer_size(),
        ensures
            ({
                let layout = staging_layout(self.specular_1(), mip);
                let out = crate::codec::target_rgb(layout, mapped);
                &&& layout.width == crate::mip::mip_side(self.specular_1().width, mip)
                &&& layout.height == crate::mip::mip_side(self.specular_1().height, mip)
                &&& out.len() == layout.width as int * layout.height as int * 3 * 4
                &&& forall|i: int|
                    0 <= i < out.len() ==> {
                        &&& out[i] == mapped[#[trigger] crate::readback::readback_source(layout, i)]
                        &&& (crate::readback::readback_source(layout, i) % (layout.padded_bytes_per_row as int)) < (
                        layout.unpadded_bytes_per_row as int)
                        &&& (crate::readback::readback_source(layout, i) % (layout.padded_bytes_per_row as int)) % 16
                            < 12
                    }
            }),
    {
        self.lemma_targets();
        crate::readback::lemma_readback_round_trip(staging_layout(self.specular_1(), mip), mapped);
    }

    /// Number of prefiltered specular levels.
    pub fn total_mips(&self) -> (r: u32)
        ensures
            r == self.spec_total_mips(),
    {
        self.total_mips
    }

    pub fn env_view(&self) -> (r: ViewDesc)
        ensures
            r == self.spec_env_view(),
    {
        self.env_view
    }

    /// The sampler every stage reads the cube with: linear in every filter.
    pub fn env_sampler(&self) -> (r: SamplerDesc)
        requires
            self.wf(),
        ensures
            r == (SamplerDesc { address_mode: AddressMode::ClampToEdge, mag_filter: Filter::Linear, min_filter: Filter::Linear, mipmap_filter: Filter::Linear }),
    {
        self.env_sampler
    }

    pub fn diffuse_texture(&self) -> (r: &Texture2D)
        requires
            self.wf(),
        ensures
            r.wf(),
            r.model() == self.diffuse(),
    {
        &self.diffuse_texture
    }

    pub fn specular_1_texture(&self) -> (r: &Texture2D)
        requires
            self.wf(),
        ensures
            r.wf(),
            r.model() == self.specular_1(),
    {
        &self.specular_1_texture
    }

    pub fn specular_2_texture(&self) -> (r: &Texture2D)
        requires
            self.wf(),
        ensures
            r.wf(),
            r.model() == self.specular_2(),
    {
        &self.specular_2_texture
    }

    /// The diffuse irradiance pass: renders mip 0 of the diffuse target with
    /// uniform `{0, 1}`.
    pub fn render_diffuse(&self) -> (r: TargetPass)
        requires
            self.wf(),
        ensures
            r == diffuse_pass(self.diffuse()),
    {
        TargetPass {
            program: Program::Diffuse,
            target: self.diffuse_texture.create_mip_view(0),
            uniform: MipUniform { mip_level: 0, total_mips: 1 },
            readback: self.diffuse_buffer,
        }
    }

    /// The specular prefilter passes, one per level `0 .. total_mips`, in
    /// level order, each with uniform `{level, total_mips}`.
    pub fn render_specular_1(&self) -> (r: Vec<TargetPass>)
        requires
            self.wf(),
        ensures
            r@.len() == self.spec_total_mips(),
            forall|i: int|
                0 <= i < r@.len() ==> #[trigger] r@[i] == specular_1_pass(
                    self.specular_1(),
                    i as u32,
                    self.spec_total_mips(),
                ),
    {
        let mut passes: Vec<TargetPass> = Vec::new();
        let mut mip_level: u32 = 0;
        while mip_level < self.total_mips
            invariant
                self.wf(),
                mip_level <= self.total_mips,
                passes@.len() == mip_level,
                forall|i: int|
                    0 <= i < mip_level ==> #[trigger] passes@[i] == specular_1_pass(
                        self.specular_1(),
                        i as u32,
                        self.spec_total_mips(),
                    ),
            decreases self.total_mips - mip_level,
        {
            let readback = self.specular_1_buffers[mip_level as usize];
            passes.push(TargetPass {
                program: Program::Specular1,
                target: self.specular_1_texture.create_mip_view(mip_level),
                uniform: MipUniform { mip_level, total_mips: self.total_mips },
                readback,
            });
            mip_level = mip_level + 1;
        }
        passes
    }

    /// The secondary specular resolve pass: mip 0 of its target, uniform
    /// `{0, 1}`.
    pub fn render_specular_2(&self) -> (r: TargetPass)
        requires
            self.wf(),
        ensures
            r == specular_2_pass(self.specular_2()),
    {
        TargetPass {
            program: Program::Specular2,
            target: self.specular_2_texture.create_mip_view(0),
            uniform: MipUniform { mip_level: 0, total_mips: 1 },
            readback: self.specular_2_buffer,
        }
    }

    /// The radiance file of the diffuse target read back as `mapped`.
    pub fn save_diffuse(&self, mapped: &Vec<u8>) -> (r: Result<Vec<u8>, PipelineError>)
        requires
            self.wf(),
        ensures
            encodes_target(staging_layout(self.diffuse(), 0), mapped@, r),
    {
        encode_target(&self.diffuse_buffer, mapped)
    }

    /// The radiance file of specular level `mip_level` read back as `mapped`.
    pub fn save_specular_1(&self, mip_level: u32, mapped: &Vec<u8>) -> (r: Result<Vec<u8>, PipelineError>)
        requires
            self.wf(),
            mip_level < self.spec_total_mips(),
        ensures
            encodes_target(staging_layout(self.specular_1(), mip_level), mapped@, r),
    {
        encode_target(&self.specular_1_buffers[mip_level as usize], mapped)
    }

    /// The radiance file of the secondary specular target read back as
    /// `mapped`.
    pub fn save_specular_2(&self, mapped: &Vec<u8>) -> (r: Result<Vec<u8>, PipelineError>)
        requires
            self.wf(),
        ensures
            encodes_target(staging_layout(self.specular_2(), 0), mapped@, r),
    {
        encode_target(&self.specular_2_buffer, mapped)
    }
}

} // verus!
