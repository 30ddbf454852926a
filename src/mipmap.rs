//! Mip chain generation of the cube map: for each level from 1 upward and
//! each face, one full-screen pass reads the level below and writes the
//! level.
use vstd::prelude::*;
use crate::mip::{Extent, mip_side};
use crate::resource::{ViewDesc, ViewDimension};
use crate::texture::{AddressMode, CUBE_FACES, CubeTexture, Filter, SamplerDesc};

verus! {

/// One render pass of the generator: face `face` of level `src_mip` is
/// sampled through `src` and level `dst_mip` is written through `dst`.
#[derive(Clone, Copy, Debug, PartialEq, Eq, Structural)]
pub struct MipPass {
    pub face: u32,
    pub src_mip: u32,
    pub dst_mip: u32,
    pub src: ViewDesc,
    pub dst: ViewDesc,
}

/// The 2D view of face `face` at level `mip` alone.
pub open spec fn face_view(face: u32, mip: u32) -> ViewDesc {
    ViewDesc {
        dimension: ViewDimension::D2,
        base_mip_level: mip,
        mip_level_count: 1,
        base_array_layer: face,
        array_layer_count: 1,
    }
}

/// Pass `i` of the schedule: level `i / 6 + 1` of face `i % 6`.
pub open spec fn mip_pass_at(i: int) -> MipPass {
    let face = (i % 6) as u32;
    let dst = (i / 6 + 1) as u32;
    let src = (i / 6) as u32;
    MipPass { face, src_mip: src, dst_mip: dst, src: face_view(face, src), dst: face_view(face, dst) }
}

/// Every pass of a chain of `mip_count` levels, level by level, faces in
/// order within a level.
pub open spec fn mip_schedule(mip_count: u32) -> Seq<MipPass> {
    Seq::new(((mip_count as int - 1) * 6) as nat, |i: int| mip_pass_at(i))
}

/// The mipmap generator of one cube map.
pub struct CubeMipmapRenderer {
    mip_count: u32,
    face: Extent,
}

impl CubeMipmapRenderer {
    /// Levels of the cube's chain.
    pub closed spec fn spec_mip_count(&self) -> u32 {
        self.mip_count
    }

    /// Face extent at mip 0.
    pub closed spec fn face(&self) -> Extent {
        self.face
    }

    pub fn new(cube_texture: &CubeTexture) -> (r: CubeMipmapRenderer)
        requires
            cube_texture.wf(),
        ensures
            r.spec_mip_count() == cube_texture.model().mip_count,
            r.face() == (Extent {
                width: cube_texture.model().width,
                height: cube_texture.model().height,
                depth_or_array_layers: CUBE_FACES,
            }),
            1 <= r.spec_mip_count() <= 32,
    {
        CubeMipmapRenderer { mip_count: cube_texture.mip_count(), face: cube_texture.size() }
    }

    pub fn mip_count(&self) -> (r: u32)
        ensures
            r == self.spec_mip_count(),
    {
        self.mip_count
    }

    /// The sampler of the passes: clamped to the edge, linear filtering,
    /// nearest mip filter.
    pub fn sampler(&self) -> (r: SamplerDesc)
        ensures
            r == (SamplerDesc { address_mode: AddressMode::ClampToEdge, mag_filter: Filter::Linear, min_filter: Filter::Linear, mipmap_filter: Filter::Nearest }),
    {
        SamplerDesc { address_mode: AddressMode::ClampToEdge, mag_filter: Filter::Linear, min_filter: Filter::Linear, mipmap_filter: Filter::Nearest }
    }

    /// Extent that pass target level `mip` has.
    pub fn level_extent(&self, mip: u32) -> (r: Extent)
        requires
            mip < 32,
        ensures
            r.width == mip_side(self.face().width, mip),
            r.height == mip_side(self.face().height, mip),
    {
        crate::mip::mip_extent(self.face, mip)
    }

    /// The passes, in the order they must be encoded: all faces of level
    /// `k - 1` before any pass of level `k`.
    pub fn generate_mipmaps(&self) -> (r: Vec<MipPass>)
        requires
            1 <= self.spec_mip_count() <= 32,
        ensures
            r@ == mip_schedule(self.spec_mip_count()),
    {
        let mut passes: Vec<MipPass> = Vec::new();
        let mut mip_level: u32 = 1;
        while mip_level < self.mip_count
            invariant
                1 <= mip_level <= self.mip_count <= 32,
                passes@.len() == (mip_level as int - 1) * 6,
                forall|i: int| 0 <= i < passes@.len() ==> #[trigger] passes@[i] == mip_pass_at(i),
            decreases self.mip_count - mip_level,
        {
            let mut array_level: u32 = 0;
            while array_level < CUBE_FACES
                invariant
                    1 <= mip_level < self.mip_count <= 32,
                    array_level <= CUBE_FACES,
                    passes@.len() == (mip_level as int - 1) * 6 + array_level as int,
                    forall|i: int| 0 <= i < passes@.len() ==> #[trigger] passes@[i] == mip_pass_at(i),
                decreases CUBE_FACES - array_level,
            {
                let src = ViewDesc {
                    dimension: ViewDimension::D2,
                    base_mip_level: mip_level - 1,
                    mip_level_count: 1,
                    base_array_layer: array_level,
                    array_layer_count: 1,
                };
                let dst = ViewDesc {
                    dimension: ViewDimension::D2,
                    base_mip_level: mip_level,
                    mip_level_count: 1,
                    base_array_layer: array_level,
                    array_layer_count: 1,
                };
                proof {
                    let k = (mip_level as int - 1) * 6 + array_level as int;
                    vstd::arithmetic::div_mod::lemma_fundamental_div_mod_converse(
                        k,
                        6,
                        mip_level as int - 1,
                        array_level as int,
                    );
                }
                passes.push(MipPass { face: array_level, src_mip: mip_level - 1, dst_mip: mip_level, src, dst });
                array_level = array_level + 1;
            }
            mip_level = mip_level + 1;
        }
        assert(passes@ =~= mip_schedule(self.mip_count));
        passes
    }
}

/// Pass `j` of the schedule by its integer fields.
proof fn lemma_pass_fields(mip_count: u32, j: int)
    requires
        1 <= mip_count <= 32,
        0 <= j < (mip_count as int - 1) * 6,
    ensures
        mip_schedule(mip_count)[j] == mip_pass_at(j),
        mip_pass_at(j).face as int == j % 6,
        mip_pass_at(j).src_mip as int == j / 6,
        mip_pass_at(j).dst_mip as int == j / 6 + 1,
        0 <= j / 6,
        j / 6 + 1 < mip_count,
        0 <= j % 6 < 6,
{
    assert(0 <= j / 6 && j / 6 + 1 < mip_count) by (nonlinear_arith)
        requires 0 <= j < (mip_count as int - 1) * 6;
}

/// Passes come in non-decreasing target level: every pass of level `k - 1`
/// is encoded before any pass of level `k`.
pub proof fn lemma_mip_schedule_levels_ordered(mip_count: u32, i: int, j: int)
    requires
        1 <= mip_count <= 32,
        0 <= i < j < mip_schedule(mip_count).len(),
    ensures
        mip_schedule(mip_count)[i].dst_mip <= mip_schedule(mip_count)[j].dst_mip,
{
    lemma_pass_fields(mip_count, i);
    lemma_pass_fields(mip_count, j);
    vstd::arithmetic::div_mod::lemma_div_is_ordered(i, j, 6);
}

/// Each pass reads the level right below the one it writes, on the same
/// face, through single-level single-face views.
pub proof fn lemma_mip_schedule_pass_shape(mip_count: u32, j: int)
    requires
        1 <= mip_count <= 32,
        0 <= j < mip_schedule(mip_count).len(),
    ensures
        ({
            let p = mip_schedule(mip_count)[j];
            &&& p.src_mip + 1 == p.dst_mip
            &&& p.src == face_view(p.face, p.src_mip)
            &&& p.dst == face_view(p.face, p.dst_mip)
            &&& p.face < CUBE_FACES
            &&& 1 <= p.dst_mip < mip_count
        }),
{
    lemma_pass_fields(mip_count, j);
}

/// A level above 0 that a pass reads was written, on the same face, by the
/// pass six places earlier.
pub proof fn lemma_mip_schedule_dependencies(mip_count: u32, j: int)
    requires
        1 <= mip_count <= 32,
        0 <= j < mip_schedule(mip_count).len(),
        mip_schedule(mip_count)[j].src_mip >= 1,
    ensures
        j >= 6,
        mip_schedule(mip_count)[j - 6].dst_mip == mip_schedule(mip_count)[j].src_mip,
        mip_schedule(mip_count)[j - 6].face == mip_schedule(mip_count)[j].face,
{
    lemma_pass_fields(mip_count, j);
    assert(j >= 6) by (nonlinear_arith)
        requires 0 <= j, j / 6 >= 1;
    lemma_pass_fields(mip_count, j - 6);
    vstd::arithmetic::div_mod::lemma_fundamental_div_mod_converse(j - 6, 6, j / 6 - 1, j % 6);
}

/// Every face of every level `1 .. mip_count` is written, by pass
/// `(level - 1) * 6 + face`, and the schedule holds no other pass.
pub proof fn lemma_mip_schedule_coverage(mip_count: u32, level: int, face: int)
    requires
        1 <= mip_count <= 32,
        1 <= level < mip_count,
        0 <= face < 6,
    ensures
        mip_schedule(mip_count).len() == (mip_count as int - 1) * 6,
        0 <= (level - 1) * 6 + face < mip_schedule(mip_count).len(),
        mip_schedule(mip_count)[(level - 1) * 6 + face].dst_mip == level,
        mip_schedule(mip_count)[(level - 1) * 6 + face].face == face,
{
    assert(0 <= (level - 1) * 6 + face < (mip_count as int - 1) * 6) by (nonlinear_arith)
        requires 1 <= level < mip_count, 0 <= face < 6;
    lemma_pass_fields(mip_count, (level - 1) * 6 + face);
    vstd::arithmetic::div_mod::lemma_fundamental_div_mod_converse((level - 1) * 6 + face, 6, level - 1, face);
}

} // verus!
