//! Extents and mip chains of 2D and cube resources.
use vstd::prelude::*;

verus! {

/// Width, height and layer count of a resource or of one of its mip levels.
#[derive(Clone, Copy, Debug, PartialEq, Eq, Structural)]
pub struct Extent {
    pub width: u32,
    pub height: u32,
    pub depth_or_array_layers: u32,
}

/// floor(log2(n)), with 0 for n <= 1.
pub open spec fn floor_log2(n: nat) -> nat
    decreases n,
{
    if n <= 1 {
        0
    } else {
        1 + floor_log2(n / 2)
    }
}

/// Length of the full mip chain of a `width` x `height` image:
/// floor(log2(max(width, height))) + 1, and 0 for an empty image.
pub open spec fn mip_chain_len(width: u32, height: u32) -> nat {
    let m: nat = if width >= height { width as nat } else { height as nat };
    if m == 0 {
        0
    } else {
        floor_log2(m) + 1
    }
}

/// One side of mip level `level`: `max(1, side >> level)`.
pub open spec fn mip_side(side: u32, level: u32) -> u32 {
    if (side >> level) == 0u32 {
        1u32
    } else {
        side >> level
    }
}

/// floor(log2(n)) stays below `k` when `n < 2^k`.
pub proof fn lemma_floor_log2_bound(n: nat, k: nat)
    requires
        n < vstd::arithmetic::power2::pow2(k),
    ensures
        floor_log2(n) < k || (n == 0 && k == 0),
    decreases n,
{
    vstd::arithmetic::power2::lemma_pow2_pos(k);
    if n > 1 {
        if k == 0 {
            vstd::arithmetic::power2::lemma2_to64();
        } else {
            vstd::arithmetic::power2::lemma_pow2_unfold(k);
            lemma_floor_log2_bound(n / 2, (k - 1) as nat);
        }
    } else if k == 0 {
        vstd::arithmetic::power2::lemma2_to64();
    }
}

/// A mip chain of a 32-bit extent never has more than 32 levels.
pub proof fn lemma_mip_chain_len_bound(width: u32, height: u32)
    ensures
        mip_chain_len(width, height) <= 32,
        (width >= 1 && height >= 1) ==> mip_chain_len(width, height) >= 1,
{
    let m: nat = if width >= height { width as nat } else { height as nat };
    vstd::arithmetic::power2::lemma2_to64();
    if m > 0 {
        lemma_floor_log2_bound(m, 32);
    }
}

/// Relies on wgpu's `Extent3d::max_mips` for a 2D texture, which computes
/// `32 - max(width, height).leading_zeros()`: floor(log2(max)) + 1, or 0 for
/// an empty extent.
#[verifier::external_body]
fn max_mips_2d(width: u32, height: u32) -> (r: u32)
    ensures
        r as nat == mip_chain_len(width, height),
{
    wgpu::Extent3d { width, height, depth_or_array_layers: 1 }.max_mips(wgpu::TextureDimension::D2)
}

/// Relies on wgpu's `Extent3d::mip_level_size` for a 2D texture: each side
/// becomes `max(1, side >> level)` and the layer count is kept. The shift
/// overflows for `level >= 32`.
#[verifier::external_body]
fn mip_level_size_2d(size: Extent, level: u32) -> (r: Extent)
    requires
        level < 32,
    ensures
        r.width == mip_side(size.width, level),
        r.height == mip_side(size.height, level),
        r.depth_or_array_layers == size.depth_or_array_layers,
{
    let e = wgpu::Extent3d {
        width: size.width,
        height: size.height,
        depth_or_array_layers: size.depth_or_array_layers,
    }.mip_level_size(level, wgpu::TextureDimension::D2);
    Extent { width: e.width, height: e.height, depth_or_array_layers: e.depth_or_array_layers }
}

/// Number of mip levels of a `width` x `height` resource: the full chain when
/// `mipped`, otherwise 1.
pub fn mip_level_count(width: u32, height: u32, mipped: bool) -> (r: u32)
    ensures
        mipped ==> r as nat == mip_chain_len(width, height),
        !mipped ==> r == 1,
        r <= 32,
{
    proof {
        lemma_mip_chain_len_bound(width, height);
    }
    if mipped {
        max_mips_2d(width, height)
    } else {
        1
    }
}

/// Extent of mip level `level` of `size`; the layer count is kept.
pub fn mip_extent(size: Extent, level: u32) -> (r: Extent)
    requires
        level < 32,
    ensures
        r.width == mip_side(size.width, level),
        r.height == mip_side(size.height, level),
        r.depth_or_array_layers == size.depth_or_array_layers,
        r.width >= 1,
        r.height >= 1,
        r.width <= size.width || size.width == 0,
        r.height <= size.height || size.height == 0,
{
    let r = mip_level_size_2d(size, level);
    proof {
        lemma_mip_side_bounds(size.width, level);
        lemma_mip_side_bounds(size.height, level);
    }
    r
}

/// A mip side is at least 1 and, for a non-empty side, never larger than it.
pub proof fn lemma_mip_side_bounds(side: u32, level: u32)
    requires
        level < 32,
    ensures
        mip_side(side, level) >= 1,
        side >= 1 ==> mip_side(side, level) <= side,
{
    assert((side >> level) <= side) by (bit_vector)
        requires level < 32u32;
}

/// A square `s` x `s` resource has a chain of floor(log2(s)) + 1 levels,
/// never more than 32.
pub proof fn lemma_square_mip_chain(s: u32)
    requires
        s >= 1,
    ensures
        mip_chain_len(s, s) == floor_log2(s as nat) + 1,
        mip_chain_len(s, s) <= 32,
{
    lemma_mip_chain_len_bound(s, s);
}

/// Shifting by one more bit is halving first.
proof fn lemma_shift_step(s: u32, f: u32)
    requires
        f < 31,
    ensures
        s >> ((f + 1) as u32) == (s / 2) >> f,
{
    assert((s >> ((f + 1) as u32)) == ((s >> 1u32) >> f)) by (bit_vector)
        requires f < 31u32;
    assert((s >> 1u32) == s / 2) by (bit_vector);
}

/// Shifting by one more bit halves the shifted value.
proof fn lemma_shift_halves(s: u32, k: u32)
    requires
        k < 31,
    ensures
        s >> ((k + 1) as u32) == (s >> k) / 2,
{
    assert((s >> ((k + 1) as u32)) == ((s >> k) >> 1u32)) by (bit_vector)
        requires k < 31u32;
    let x = s >> k;
    assert((x >> 1u32) == x / 2) by (bit_vector);
}

/// A non-empty side shifted by floor(log2(side)) is 1.
proof fn lemma_shift_by_floor_log2(s: u32)
    requires
        s >= 1,
    ensures
        floor_log2(s as nat) < 32,
        s >> (floor_log2(s as nat) as u32) == 1u32,
    decreases s,
{
    vstd::arithmetic::power2::lemma2_to64();
    lemma_floor_log2_bound(s as nat, 32);
    if s == 1 {
        assert((1u32 >> 0u32) == 1u32) by (bit_vector);
    } else {
        let h = s / 2;
        lemma_shift_by_floor_log2(h);
        let f = floor_log2(h as nat);
        assert(floor_log2(s as nat) == 1 + f);
        lemma_shift_step(s, f as u32);
    }
}

/// Along a full chain each level halves the one before, rounding down and
/// stopping at 1, and the last level is 1 x 1.
pub proof fn lemma_mip_chain_halves_to_one(width: u32, height: u32, k: u32)
    requires
        width >= 1,
        height >= 1,
    ensures
        mip_chain_len(width, height) >= 1,
        (k as int) + 1 < mip_chain_len(width, height) ==> {
            &&& mip_side(width, (k + 1) as u32) == if mip_side(width, k) / 2 == 0 { 1 } else { mip_side(width, k) / 2 }
            &&& mip_side(height, (k + 1) as u32) == if mip_side(height, k) / 2 == 0 { 1 } else { mip_side(height, k) / 2 }
        },
        mip_side(width, (mip_chain_len(width, height) - 1) as u32) == 1,
        mip_side(height, (mip_chain_len(width, height) - 1) as u32) == 1,
{
    lemma_mip_chain_len_bound(width, height);
    if (k as int) + 1 < mip_chain_len(width, height) {
        lemma_shift_halves(width, k);
        lemma_shift_halves(height, k);
    }
    let m = if width >= height { width } else { height };
    lemma_shift_by_floor_log2(m);
    let f = floor_log2(m as nat) as u32;
    assert((mip_chain_len(width, height) - 1) as u32 == f);
    assert(width <= m && height <= m);
    assert(((width >> f) <= (m >> f))) by (bit_vector)
        requires width <= m;
    assert(((height >> f) <= (m >> f))) by (bit_vector)
        requires height <= m;
}

/// Mip 0 keeps a non-empty side as it is.
pub proof fn lemma_mip_side_base(side: u32)
    ensures
        side >= 1 ==> mip_side(side, 0) == side,
{
    assert((side >> 0u32) == side) by (bit_vector);
}

} // verus!
