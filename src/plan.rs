//! The order of the device work of one run: the projection first, then the
//! mip levels of the cube from 1 upward, then the convolution passes, each
//! followed by the copy of its target. Encoded in this order into one
//! submission, every pass sees the finished work it depends on.
use vstd::prelude::*;
use crate::ibl::{IBLRenderer, TargetPass, diffuse_pass, specular_1_pass, specular_2_pass};
use crate::mipmap::{CubeMipmapRenderer, MipPass, mip_schedule};
use crate::projector::{CubeMapRenderer, Dispatch, dispatch_for};

verus! {

/// One unit of device work.
#[derive(Clone, Copy, Debug, PartialEq, Eq, Structural)]
pub enum Stage {
    /// The equirectangular-to-cube projection.
    Project(Dispatch),
    /// One mipmap pass of the cube.
    Mip(MipPass),
    /// One convolution pass and the copy of its target to staging.
    Convolve(TargetPass),
}

/// The specular prefilter passes of `ibl`, level by level.
pub open spec fn specular_1_passes(ibl: &IBLRenderer) -> Seq<TargetPass> {
    Seq::new(ibl.spec_total_mips() as nat, |i: int| specular_1_pass(ibl.specular_1(), i as u32, ibl.spec_total_mips()))
}

/// Every stage of a run in encoding order.
pub open spec fn stages(
    projection: Dispatch,
    mips: Seq<MipPass>,
    diffuse: TargetPass,
    specular_1: Seq<TargetPass>,
    specular_2: TargetPass,
) -> Seq<Stage> {
    seq![Stage::Project(projection)] + mips.map_values(|p: MipPass| Stage::Mip(p)) + seq![Stage::Convolve(diffuse)]
        + specular_1.map_values(|p: TargetPass| Stage::Convolve(p)) + seq![Stage::Convolve(specular_2)]
}

/// The stages of a run over `projector`, `mipmap` and `ibl`, in the order
/// they must be encoded.
pub fn stage_plan(projector: &CubeMapRenderer, mipmap: &CubeMipmapRenderer, ibl: &IBLRenderer) -> (r: Vec<Stage>)
    requires
        1 <= mipmap.spec_mip_count() <= 32,
        ibl.wf(),
    ensures
        r@ == stages(
            dispatch_for(projector.face()),
            mip_schedule(mipmap.spec_mip_count()),
            diffuse_pass(ibl.diffuse()),
            specular_1_passes(ibl),
            specular_2_pass(ibl.specular_2()),
        ),
{
    let mut out: Vec<Stage> = Vec::new();
    out.push(Stage::Project(projector.render()));
    let mips = mipmap.generate_mipmaps();
    let mut i: usize = 0;
    while i < mips.len()
        invariant
            i <= mips@.len(),
            out@ == seq![Stage::Project(dispatch_for(projector.face()))] + mips@.subrange(0, i as int).map_values(
                |p: MipPass| Stage::Mip(p),
            ),
        decreases mips@.len() - i,
    {
        out.push(Stage::Mip(mips[i]));
        i = i + 1;
        assert(out@ =~= seq![Stage::Project(dispatch_for(projector.face()))] + mips@.subrange(0, i as int).map_values(
            |p: MipPass| Stage::Mip(p),
        ));
    }
    assert(mips@.subrange(0, mips@.len() as int) =~= mips@);
    out.push(Stage::Convolve(ibl.render_diffuse()));
    let ghost with_diffuse = out@;
    let specular = ibl.render_specular_1();
    assert(specular@ =~= specular_1_passes(ibl));
    let mut j: usize = 0;
    while j < specular.len()
        invariant
            j <= specular@.len(),
            out@ == with_diffuse + specular@.subrange(0, j as int).map_values(|p: TargetPass| Stage::Convolve(p)),
        decreases specular@.len() - j,
    {
        out.push(Stage::Convolve(specular[j]));
        j = j + 1;
        assert(out@ =~= with_diffuse + specular@.subrange(0, j as int).map_values(|p: TargetPass| Stage::Convolve(p)));
    }
    assert(specular@.subrange(0, specular@.len() as int) =~= specular@);
    out.push(Stage::Convolve(ibl.render_specular_2()));
    assert(out@ =~= stages(
        dispatch_for(projector.face()),
        mip_schedule(mipmap.spec_mip_count()),
        diffuse_pass(ibl.diffuse()),
        specular_1_passes(ibl),
        specular_2_pass(ibl.specular_2()),
    ));
    out
}

} // verus!
