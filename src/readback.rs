//! The GPU-to-host readback path: padded staging layouts, and the removal
//! of row padding and of the alpha channel before encoding.
use vstd::prelude::*;
use vstd::arithmetic::div_mod::{lemma_fundamental_div_mod_converse, lemma_mod_mod};
use crate::error::{EncodeIssue, PipelineError, ResourceIssue};
use crate::mip::mip_side;
use crate::resource::{ImageModel, ImageResource, lemma_level_bytes_fit, row_bytes};

verus! {

/// Bytes of one 32-bit float RGBA texel.
pub const RGBA32F_TEXEL_BYTES: u32 = 16;

/// The row alignment of texture-to-buffer copies, in bytes.
pub open spec fn row_alignment() -> int {
    256
}

/// Relies on wgpu::COPY_BYTES_PER_ROW_ALIGNMENT, the alignment that every
/// row of a texture-to-buffer copy must have: 256 bytes.
#[verifier::external_body]
fn copy_bytes_per_row_alignment() -> (r: u32)
    ensures
        r as int == row_alignment(),
{
    wgpu::COPY_BYTES_PER_ROW_ALIGNMENT
}

/// `n` rounded up to the copy row alignment.
pub open spec fn padded_row(n: int) -> int {
    ((n + row_alignment() - 1) / row_alignment()) * row_alignment()
}

/// The rows of `data`, `padded` bytes apart, with only their first
/// `unpadded` bytes kept, for `rows` rows.
pub open spec fn depadded(data: Seq<u8>, padded: int, unpadded: int, rows: int) -> Seq<u8> {
    Seq::new((rows * unpadded) as nat, |i: int| data[(i / unpadded) * padded + i % unpadded])
}

/// `data` read as 16-byte texels with the last 4 bytes (the alpha float) of
/// each dropped.
pub open spec fn rgb_of_rgba(data: Seq<u8>) -> Seq<u8> {
    Seq::new((data.len() / 16 * 12) as nat, |i: int| data[(i / 12) * 16 + i % 12])
}

/// Whether the padded staging buffer of mip `mip` of `m` can be counted in
/// 32 bits.
pub open spec fn staging_fits(m: ImageModel, mip: u32) -> bool {
    padded_row(row_bytes(m, mip)) * mip_side(m.height, mip) as int <= u32::MAX as int
}

/// The staging layout of one layer of mip `mip` of `m`.
pub open spec fn staging_layout(m: ImageModel, mip: u32) -> ReadbackLayout {
    ReadbackLayout {
        mip_level: mip,
        width: mip_side(m.width, mip),
        height: mip_side(m.height, mip),
        texel_bytes: m.texel_bytes,
        unpadded_bytes_per_row: row_bytes(m, mip) as u32,
        padded_bytes_per_row: padded_row(row_bytes(m, mip)) as u32,
    }
}

/// The staging layout of one (mip, layer) target: rows of
/// `unpadded_bytes_per_row` meaningful bytes, stored `padded_bytes_per_row`
/// apart.
#[derive(Clone, Copy, Debug, PartialEq, Eq, Structural)]
pub struct ReadbackLayout {
    pub mip_level: u32,
    pub width: u32,
    pub height: u32,
    pub texel_bytes: u32,
    pub unpadded_bytes_per_row: u32,
    pub padded_bytes_per_row: u32,
}

/// The padded row is the tight row rounded up to the alignment: never
/// shorter, aligned, and less than one alignment longer.
pub proof fn lemma_padded_row(n: int)
    requires
        n >= 0,
    ensures
        padded_row(n) >= n,
        padded_row(n) < n + row_alignment(),
        padded_row(n) % row_alignment() == 0,
        n > 0 ==> padded_row(n) > 0,
{
    let q = (n + 255) / 256;
    let r = (n + 255) % 256;
    assert(n + 255 == q * 256 + r && 0 <= r < 256) by (nonlinear_arith)
        requires q == (n + 255) / 256, r == (n + 255) % 256;
    lemma_fundamental_div_mod_converse(q * 256, 256, q, 0);
}

/// Row `row`, byte `b` of the tight rows sits at index `row * u + b`.
proof fn lemma_row_index(row: int, b: int, u: int)
    requires
        0 <= row,
        0 <= b < u,
    ensures
        (row * u + b) / u == row,
        (row * u + b) % u == b,
{
    lemma_fundamental_div_mod_converse(row * u + b, u, row, b);
}

impl ReadbackLayout {
    pub open spec fn wf(&self) -> bool {
        &&& self.width >= 1
        &&& self.height >= 1
        &&& self.texel_bytes >= 1
        &&& self.unpadded_bytes_per_row as int == self.width as int * self.texel_bytes as int
        &&& self.padded_bytes_per_row as int == padded_row(self.unpadded_bytes_per_row as int)
        &&& self.padded_bytes_per_row as int * self.height as int <= u32::MAX as int
    }

    /// Byte length of the staging buffer.
    pub open spec fn spec_buffer_size(&self) -> int {
        self.padded_bytes_per_row as int * self.height as int
    }

    /// Byte length of the tightly packed RGB result.
    pub open spec fn spec_rgb_size(&self) -> int {
        self.width as int * self.height as int * 12
    }

    /// The staging layout of mip `mip` of `image`; refused when the padded
    /// buffer would hold more than `u32::MAX` bytes.
    pub fn for_mip(image: &ImageResource, mip: u32) -> (r: Result<ReadbackLayout, PipelineError>)
        requires
            image.wf(),
            mip < image@.mip_count,
        ensures
            staging_fits(image@, mip) ==> r == Ok::<ReadbackLayout, PipelineError>(staging_layout(image@, mip)),
            !staging_fits(image@, mip) ==> r == Err::<ReadbackLayout, PipelineError>(
                PipelineError::ResourceCreation(ResourceIssue::TooLarge)),
            r is Ok ==> r->Ok_0.wf(),
    {
        let size = image.mip_level_size(mip);
        let unpadded = image.row_byte_size(mip);
        let align = copy_bytes_per_row_alignment();
        proof {
            lemma_level_bytes_fit(image@, mip);
            lemma_padded_row(unpadded as int);
        }
        let q: u64 = (unpadded as u64 + align as u64 - 1) / align as u64;
        assert(q <= 0x100_0000) by (nonlinear_arith)
            requires q == (unpadded as int + 255) / 256, unpadded <= 0xffff_ffff_u32;
        let padded: u64 = q * align as u64;
        assert(padded as int * size.height as int <= 0x1_0000_0000 * 0xffff_ffff) by (nonlinear_arith)
            requires padded == q * 256, q <= 0x100_0000, size.height <= 0xffff_ffff_u32;
        if padded * size.height as u64 > u32::MAX as u64 {
            return Err(PipelineError::ResourceCreation(ResourceIssue::TooLarge));
        }
        proof {
            assert(padded as int <= u32::MAX as int) by (nonlinear_arith)
                requires padded as int * size.height as int <= u32::MAX as int, size.height >= 1;
        }
        Ok(ReadbackLayout {
            mip_level: mip,
            width: size.width,
            height: size.height,
            texel_bytes: image.texel_bytes(),
            unpadded_bytes_per_row: unpadded,
            padded_bytes_per_row: padded as u32,
        })
    }

    /// Byte length of the staging buffer: padded rows times rows.
    pub fn buffer_size(&self) -> (r: u32)
        requires
            self.wf(),
        ensures
            r as int == self.spec_buffer_size(),
    {
        self.padded_bytes_per_row * self.height
    }

    /// The tight rows of a mapped staging buffer: each row's padding tail
    /// is dropped.
    pub fn strip_padding(&self, mapped: &Vec<u8>) -> (r: Vec<u8>)
        requires
            self.wf(),
            mapped@.len() == self.spec_buffer_size(),
        ensures
            r@ == depadded(
                mapped@,
                self.padded_bytes_per_row as int,
                self.unpadded_bytes_per_row as int,
                self.height as int,
            ),
    {
        let p = self.padded_bytes_per_row as usize;
        let u = self.unpadded_bytes_per_row as usize;
        let h = self.height as usize;
        proof {
            lemma_padded_row(u as int);
            assert(u as int * h as int <= p as int * h as int) by (nonlinear_arith)
                requires u <= p;
            assert(u >= 1) by (nonlinear_arith)
                requires u as int == self.width as int * self.texel_bytes as int, self.width >= 1, self.texel_bytes >= 1;
        }
        let mut out: Vec<u8> = Vec::new();
        let mut row: usize = 0;
        while row < h
            invariant
                self.wf(),
                mapped@.len() == p as int * h as int,
                p == self.padded_bytes_per_row,
                u == self.unpadded_bytes_per_row,
                h == self.height,
                u <= p,
                u >= 1,
                row <= h,
                out@.len() == row as int * u as int,
                forall|i: int| 0 <= i < out@.len() ==> #[trigger] out@[i] == mapped@[(i / u as int) * p as int + i % u as int],
            decreases h - row,
        {
            assert((row as int + 1) * p as int <= h as int * p as int) by (nonlinear_arith)
                requires row < h;
            assert(row as int * p as int <= h as int * p as int) by (nonlinear_arith)
                requires row < h;
            assert(h as int * p as int == p as int * h as int) by (nonlinear_arith);
            let start = row * p;
            let mut b: usize = 0;
            while b < u
                invariant
                    mapped@.len() == p as int * h as int,
                    u <= p,
                    u >= 1,
                    row < h,
                    start as int == row as int * p as int,
                    (row as int + 1) * p as int <= h as int * p as int,
                    h as int * p as int <= u32::MAX as int,
                    b <= u,
                    out@.len() == row as int * u as int + b as int,
                    forall|i: int| 0 <= i < out@.len() ==> #[trigger] out@[i] == mapped@[(i / u as int) * p as int + i % u as int],
                decreases u - b,
            {
                proof {
                    lemma_row_index(row as int, b as int, u as int);
                    assert((start as int + b as int) < mapped@.len()) by (nonlinear_arith)
                        requires start as int == row as int * p as int, b < u, u <= p,
                            (row as int + 1) * p as int <= h as int * p as int,
                            mapped@.len() == p as int * h as int;
                }
                out.push(mapped[start + b]);
                b = b + 1;
            }
            assert(out@.len() == (row as int + 1) * u as int) by (nonlinear_arith)
                requires out@.len() == row as int * u as int + u as int;
            row = row + 1;
        }
        assert(out@ =~= depadded(mapped@, p as int, u as int, h as int));
        out
    }

    /// The RGB bytes of a mapped staging buffer of 16-byte RGBA float texels:
    /// padding removed, then the alpha float of each texel. Refused when the
    /// buffer has not the layout's byte length, or the texels are not
    /// 16 bytes.
    pub fn rgb_pixels(&self, mapped: &Vec<u8>) -> (r: Result<Vec<u8>, PipelineError>)
        requires
            self.wf(),
        ensures
            mapped@.len() != self.spec_buffer_size() ==> r == Err::<Vec<u8>, PipelineError>(
                PipelineError::Encode(EncodeIssue::BufferSizeMismatch)),
            mapped@.len() == self.spec_buffer_size() && self.texel_bytes != 16 ==> r == Err::<Vec<u8>, PipelineError>(
                PipelineError::Encode(EncodeIssue::ChannelCountMismatch)),
            mapped@.len() == self.spec_buffer_size() && self.texel_bytes == 16 ==> r is Ok && r->Ok_0@ == rgb_of_rgba(
                depadded(
                    mapped@,
                    self.padded_bytes_per_row as int,
                    self.unpadded_bytes_per_row as int,
                    self.height as int,
                ),
            ),
            r is Ok ==> r->Ok_0@.len() == self.spec_rgb_size(),
    {
        if mapped.len() != self.buffer_size() as usize {
            return Err(PipelineError::Encode(EncodeIssue::BufferSizeMismatch));
        }
        if self.texel_bytes != RGBA32F_TEXEL_BYTES {
            return Err(PipelineError::Encode(EncodeIssue::ChannelCountMismatch));
        }
        let tight = self.strip_padding(mapped);
        proof {
            let w = self.width as int;
            let h = self.height as int;
            assert(h * (w * 16) == (w * h) * 16) by (nonlinear_arith);
            vstd::arithmetic::div_mod::lemma_div_multiples_vanish(w * h, 16);
            assert((w * h) * 16 / 16 * 12 == w * h * 12) by (nonlinear_arith)
                requires (w * h) * 16 / 16 == w * h;
        }
        Ok(strip_alpha(&tight))
    }
}

/// `data` as 16-byte texels with the alpha float of each dropped.
pub fn strip_alpha(data: &Vec<u8>) -> (r: Vec<u8>)
    requires
        data@.len() % 16 == 0,
    ensures
        r@ == rgb_of_rgba(data@),
        r@.len() == data@.len() / 16 * 12,
{
    let n = data.len() / 16;
    let mut out: Vec<u8> = Vec::new();
    let mut t: usize = 0;
    while t < n
        invariant
            n as int == data@.len() / 16,
            data@.len() % 16 == 0,
            data@.len() <= usize::MAX,
            t <= n,
            out@.len() == t as int * 12,
            forall|i: int| 0 <= i < out@.len() ==> #[trigger] out@[i] == data@[(i / 12) * 16 + i % 12],
        decreases n - t,
    {
        assert(t as int * 16 + 16 <= data@.len()) by (nonlinear_arith)
            requires t < n, n as int == data@.len() / 16, data@.len() % 16 == 0, data@.len() >= 0;
        let start = t * 16;
        let mut c: usize = 0;
        while c < 12
            invariant
                t < n,
                data@.len() <= usize::MAX,
                start as int == t as int * 16,
                start as int + 16 <= data@.len(),
                c <= 12,
                out@.len() == t as int * 12 + c as int,
                forall|i: int| 0 <= i < out@.len() ==> #[trigger] out@[i] == data@[(i / 12) * 16 + i % 12],
            decreases 12 - c,
        {
            proof {
                lemma_row_index(t as int, c as int, 12);
            }
            out.push(data[start + c]);
            c = c + 1;
        }
        t = t + 1;
    }
    assert(out@ =~= rgb_of_rgba(data@));
    out
}

/// Where byte `i` of the RGB result comes from in the staging buffer.
pub open spec fn readback_source(layout: ReadbackLayout, i: int) -> int {
    let s = (i / 12) * 16 + i % 12;
    (s / layout.unpadded_bytes_per_row as int) * layout.padded_bytes_per_row as int + s
        % layout.unpadded_bytes_per_row as int
}

/// For any RGBA float target, reading back yields exactly width * height * 3
/// floats of 4 bytes; the padded row is at least the tight row and is
/// aligned; and every byte of the result comes from the meaningful part of
/// a row (never its padding) and from a colour channel (never alpha).
pub proof fn lemma_readback_round_trip(layout: ReadbackLayout, mapped: Seq<u8>)
    requires
        layout.wf(),
        layout.texel_bytes == 16,
        mapped.len() == layout.spec_buffer_size(),
    ensures
        ({
            let out = rgb_of_rgba(
                depadded(
                    mapped,
                    layout.padded_bytes_per_row as int,
                    layout.unpadded_bytes_per_row as int,
                    layout.height as int,
                ),
            );
            &&& out.len() == layout.width as int * layout.height as int * 3 * 4
            &&& layout.padded_bytes_per_row >= layout.unpadded_bytes_per_row
            &&& layout.padded_bytes_per_row as int % row_alignment() == 0
            &&& forall|i: int|
                0 <= i < out.len() ==> {
                    &&& 0 <= #[trigger] readback_source(layout, i) < mapped.len()
                    &&& out[i] == mapped[readback_source(layout, i)]
                    &&& (readback_source(layout, i) % (layout.padded_bytes_per_row as int)) < (
                    layout.unpadded_bytes_per_row as int)
                    &&& (readback_source(layout, i) % (layout.padded_bytes_per_row as int)) % 16 < 12
                }
        }),
{
    let p = layout.padded_bytes_per_row as int;
    let u = layout.unpadded_bytes_per_row as int;
    let w = layout.width as int;
    let h = layout.height as int;
    lemma_padded_row(u);
    let tight = depadded(mapped, p, u, h);
    let out = rgb_of_rgba(tight);
    assert(h * u == (w * h) * 16) by (nonlinear_arith)
        requires u == w * 16;
    vstd::arithmetic::div_mod::lemma_div_multiples_vanish(w * h, 16);
    assert((w * h) * 16 / 16 * 12 == w * h * 3 * 4) by (nonlinear_arith)
        requires (w * h) * 16 / 16 == w * h;
    assert forall|i: int| 0 <= i < out.len() implies {
        &&& 0 <= #[trigger] readback_source(layout, i) < mapped.len()
        &&& out[i] == mapped[readback_source(layout, i)]
        &&& readback_source(layout, i) % p < u
        &&& (readback_source(layout, i) % p) % 16 < 12
    } by {
        let q = i / 12;
        let c = i % 12;
        let s = q * 16 + c;
        assert(0 <= q < w * h && 0 <= c < 12 && i == q * 12 + c) by (nonlinear_arith)
            requires 0 <= i < (w * h) * 12, q == i / 12, c == i % 12;
        assert(0 <= s < h * u) by (nonlinear_arith)
            requires s == q * 16 + c, 0 <= q < w * h, 0 <= c < 12, h * u == (w * h) * 16;
        let row = s / u;
        let b = s % u;
        assert(0 <= row < h && 0 <= b < u && s == row * u + b) by (nonlinear_arith)
            requires 0 <= s < h * u, u > 0, row == s / u, b == s % u;
        assert(0 <= row * p + b < mapped.len()) by (nonlinear_arith)
            requires 0 <= row < h, 0 <= b < u, u <= p, mapped.len() == p * h;
        lemma_fundamental_div_mod_converse(row * p + b, p, row, b);
        lemma_mod_mod(s, 16, w);
        assert(u == 16 * w) by (nonlinear_arith)
            requires u == w * 16;
        lemma_fundamental_div_mod_converse(s, 16, q, c);
    }
}

} // verus!
