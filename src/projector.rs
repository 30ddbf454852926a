//! The equirectangular-to-cube projection: one compute dispatch writes all
//! six faces of mip 0.
use vstd::prelude::*;
use crate::mip::Extent;
use crate::resource::{ViewDesc, ViewDimension};
use crate::texture::{CUBE_FACES, CubeTexture, HdrTexture};

verus! {

/// Side of the square workgroup of the projection kernel, in texels.
pub const WORKGROUP_SIDE: u32 = 16;

/// A compute dispatch: workgroup counts on each axis.
#[derive(Clone, Copy, Debug, PartialEq, Eq, Structural)]
pub struct Dispatch {
    pub x: u32,
    pub y: u32,
    pub z: u32,
}

/// Fewest workgroups of `WORKGROUP_SIDE` texels that cover `side` texels.
pub open spec fn groups_to_cover(side: u32) -> int {
    (side as int + WORKGROUP_SIDE as int - 1) / WORKGROUP_SIDE as int
}

/// The projection dispatch for cube faces of extent `face`.
pub open spec fn dispatch_for(face: Extent) -> Dispatch {
    Dispatch { x: groups_to_cover(face.width) as u32, y: groups_to_cover(face.height) as u32, z: CUBE_FACES }
}

/// Workgroups along one axis of `side` texels.
fn workgroups(side: u32) -> (r: u32)
    ensures
        r as int == groups_to_cover(side),
        r as int * WORKGROUP_SIDE as int >= side as int,
        (r as int - 1) * (WORKGROUP_SIDE as int) < side as int,
{
    let q = side / WORKGROUP_SIDE;
    let r = if side % WORKGROUP_SIDE != 0 {
        q + 1
    } else {
        q
    };
    assert(r as int == (side as int + 15) / 16 && r as int * 16 >= side as int && (r as int - 1) * 16 < side as int)
        by (nonlinear_arith)
        requires
            q == side as int / 16,
            side % 16 != 0 ==> r == q + 1,
            side % 16 == 0 ==> r == q,
            side >= 0;
    r
}

/// The projector: samples the equirectangular source and writes the cube's
/// mip-0 faces through its 2D-array view.
pub struct CubeMapRenderer {
    face: Extent,
    source: ViewDesc,
    target: ViewDesc,
}

impl CubeMapRenderer {
    /// Extent of a cube face at mip 0, with the six layers.
    pub closed spec fn face(&self) -> Extent {
        self.face
    }

    /// The view the kernel samples.
    pub closed spec fn source(&self) -> ViewDesc {
        self.source
    }

    /// The view the kernel writes.
    pub closed spec fn target(&self) -> ViewDesc {
        self.target
    }

    /// The projector from `hdr_texture` into `cube_texture`.
    pub fn new(cube_texture: &CubeTexture, hdr_texture: &HdrTexture) -> (r: CubeMapRenderer)
        requires
            cube_texture.wf(),
            hdr_texture.wf(),
        ensures
            r.face() == (Extent {
                width: cube_texture.model().width,
                height: cube_texture.model().height,
                depth_or_array_layers: CUBE_FACES,
            }),
            r.source() == hdr_texture.view_spec(),
            r.target() == (ViewDesc {
                dimension: ViewDimension::D2Array,
                base_mip_level: 0,
                mip_level_count: 1,
                base_array_layer: 0,
                array_layer_count: CUBE_FACES,
            }),
    {
        CubeMapRenderer { face: cube_texture.size(), source: hdr_texture.view(), target: cube_texture.view_2d() }
    }

    pub fn source_view(&self) -> (r: ViewDesc)
        ensures
            r == self.source(),
    {
        self.source
    }

    pub fn target_view(&self) -> (r: ViewDesc)
        ensures
            r == self.target(),
    {
        self.target
    }

    /// The single dispatch of the projection: enough workgroups to cover a
    /// face on both axes, and one layer per face.
    pub fn render(&self) -> (r: Dispatch)
        ensures
            r == dispatch_for(self.face()),
            r.z == CUBE_FACES,
            r.x as int == groups_to_cover(self.face().width),
            r.y as int == groups_to_cover(self.face().height),
            r.x as int * WORKGROUP_SIDE as int >= self.face().width as int,
            r.y as int * WORKGROUP_SIDE as int >= self.face().height as int,
    {
        Dispatch { x: workgroups(self.face.width), y: workgroups(self.face.height), z: CUBE_FACES }
    }
}

} // verus!
