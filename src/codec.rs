//! Radiance HDR encoding of read-back targets and decoding of the source
//! panorama, through the `image` crate.
use vstd::prelude::*;
use crate::artifact::decimal;
use crate::error::{EncodeIssue, PipelineError};
use crate::readback::{ReadbackLayout, depadded, readback_source, rgb_of_rgba};
use crate::resource::UploadLayout;
use crate::texture::HdrTexture;

verus! {

#[verifier::external_type_specification]
#[verifier::external_body]
pub struct ExImageError(image::ImageError);

/// Width, height and RGBA texels (four native-endian 32-bit floats each) of
/// the radiance file `bytes`, or `None` where it does not decode.
pub uninterp spec fn radiance_decoding(bytes: Seq<u8>) -> Option<(u32, u32, Seq<u8>)>;

/// `s` as ASCII bytes.
pub open spec fn ascii(s: Seq<char>) -> Seq<u8> {
    s.map_values(|c: char| c as u8)
}

/// The header the radiance encoder writes before the pixels of a
/// `width` x `height` image.
pub open spec fn radiance_header(width: u32, height: u32) -> Seq<u8> {
    ascii(
        "#?RADIANCE\n# Rust HDR encoder\nFORMAT=32-bit_rle_rgbe\n\n-Y "@ + decimal(height as nat) + " +X "@
            + decimal(width as nat) + "\n"@,
    )
}

/// The four bytes at `i` are +infinity as a 32-bit float in one of the two
/// byte orders.
pub open spec fn infinity_at(b: Seq<u8>, i: int) -> bool {
    ||| (b[i] == 0u8 && b[i + 1] == 0u8 && b[i + 2] == 0x80u8 && b[i + 3] == 0x7fu8)
    ||| (b[i] == 0x7fu8 && b[i + 1] == 0x80u8 && b[i + 2] == 0u8 && b[i + 3] == 0u8)
}

/// No 32-bit channel of `b` is +infinity, in either byte order.
pub open spec fn free_of_infinity(b: Seq<u8>) -> bool {
    forall|k: int| 0 <= k < b.len() / 4 ==> !#[trigger] infinity_at(b, 4 * k)
}

/// Whether `file` is a radiance encoding of the `width` x `height` RGB
/// texels `rgb` (three native-endian 32-bit floats each): each texel's
/// shared exponent and mantissas as the encoder derives them. The relation
/// is fixed by the values; the encoder's bytes are not a function of them,
/// since it takes the exponent from `f32::log2`, whose rounding std leaves
/// open.
pub uninterp spec fn radiance_encodes(file: Seq<u8>, rgb: Seq<u8>, width: u32, height: u32) -> bool;

/// Relies on `image::codecs::hdr::HdrEncoder::write_image` with
/// `ExtendedColorType::Rgb32F`, writing into a `Vec<u8>`: that colour type
/// is supported and writing to a vector cannot fail, so it succeeds; the
/// signature, comment, format and `-Y height +X width` lines are written
/// first, then the texels of `rgb`. It panics when fewer than
/// `width * height` texels are given, and on a channel of +infinity, whose
/// exponent overflows.
#[verifier::external_body]
fn encode_radiance(rgb: &Vec<u8>, width: u32, height: u32) -> (r: Result<Vec<u8>, image::ImageError>)
    requires
        rgb@.len() == width as int * height as int * 12,
        free_of_infinity(rgb@),
    ensures
        r is Ok,
        r is Ok ==> r->Ok_0@.len() >= radiance_header(width, height).len()
            && r->Ok_0@.subrange(0, radiance_header(width, height).len() as int) == radiance_header(width, height),
        r is Ok ==> radiance_encodes(r->Ok_0@, rgb@, width, height),
{
    let mut out: Vec<u8> = Vec::new();
    let encoder = image::codecs::hdr::HdrEncoder::new(&mut out);
    match image::ImageEncoder::write_image(encoder, rgb, width, height, image::ExtendedColorType::Rgb32F) {
        Ok(()) => Ok(out),
        Err(e) => Err(e),
    }
}

/// The pixel at `i` is an old-style run-length marker: its first three
/// bytes are 1.
pub open spec fn marker_at(b: Seq<u8>, i: int) -> bool {
    b[i] == 1u8 && b[i + 1] == 1u8 && b[i + 2] == 1u8
}

/// Eight run-length markers follow one another from `i` on.
pub open spec fn marker_run_at(b: Seq<u8>, i: int) -> bool {
    forall|j: int| 0 <= j < 8 ==> #[trigger] marker_at(b, i + 4 * j)
}

/// Somewhere in `b` stand 32 bytes shaped like eight consecutive old-style
/// run-length markers.
pub open spec fn has_marker_run(b: Seq<u8>) -> bool {
    exists|i: int| 0 <= i && i + 32 <= b.len() && #[trigger] marker_run_at(b, i)
}

/// Relies on `image::load_from_memory_with_format` with `ImageFormat::Hdr`
/// and `DynamicImage::to_rgba32f`: whether it decodes, and to what, depends
/// on the bytes alone; the texels are `width * height` RGBA values of four
/// 32-bit floats, handed over as their bytes. An empty input lacks the
/// radiance signature and is refused. It panics on eight consecutive
/// old-style run-length markers, whose run multiplier overflows; such pixels
/// are read straight from the bytes, so no file without 32 bytes of that
/// shape can reach it.
#[verifier::external_body]
fn decode_radiance(bytes: &Vec<u8>) -> (r: Result<(u32, u32, Vec<u8>), image::ImageError>)
    requires
        !has_marker_run(bytes@),
    ensures
        r is Ok <==> radiance_decoding(bytes@) is Some,
        r is Ok ==> radiance_decoding(bytes@) == Some((r->Ok_0.0, r->Ok_0.1, r->Ok_0.2@)),
        r is Ok ==> r->Ok_0.2@.len() == r->Ok_0.0 as int * r->Ok_0.1 as int * 16,
        bytes@.len() == 0 ==> r is Err,
{
    match image::load_from_memory_with_format(bytes, image::ImageFormat::Hdr) {
        Ok(img) => {
            let rgba = img.to_rgba32f();
            let (w, h) = rgba.dimensions();
            let raw = rgba.into_raw();
            Ok((w, h, bytemuck::cast_slice::<_, u8>(raw.as_slice()).to_vec()))
        },
        Err(e) => Err(e),
    }
}

/// Whether eight run-length markers follow one another from `i` on.
fn marker_run_from(b: &Vec<u8>, i: usize) -> (r: bool)
    requires
        i + 32 <= b@.len(),
    ensures
        r == marker_run_at(b@, i as int),
{
    let n = b.len();
    let mut j: usize = 0;
    while j < 8
        invariant
            i + 32 <= b@.len(),
            n == b@.len(),
            j <= 8,
            forall|k: int| 0 <= k < j ==> #[trigger] marker_at(b@, i + 4 * k),
        decreases 8 - j,
    {
        let p = i + 4 * j;
        if !(b[p] == 1 && b[p + 1] == 1 && b[p + 2] == 1) {
            assert(!marker_at(b@, i + 4 * (j as int)));
            return false;
        }
        j = j + 1;
    }
    true
}

/// Whether `b` holds 32 bytes shaped like eight consecutive old-style
/// run-length markers.
pub fn contains_marker_run(b: &Vec<u8>) -> (r: bool)
    ensures
        r == has_marker_run(b@),
{
    if b.len() < 32 {
        return false;
    }
    let last = b.len() - 32;
    let mut i: usize = 0;
    while i <= last
        invariant
            last as int == b@.len() - 32,
            b@.len() <= usize::MAX,
            i <= last + 1,
            forall|k: int| 0 <= k < i ==> !#[trigger] marker_run_at(b@, k),
        decreases last + 1 - i,
    {
        if marker_run_from(b, i) {
            return true;
        }
        i = i + 1;
    }
    false
}

/// Whether some 32-bit channel of `b` is +infinity in either byte order.
pub fn has_infinite_channel(b: &Vec<u8>) -> (r: bool)
    ensures
        r == !free_of_infinity(b@),
{
    let n = b.len() / 4;
    let mut k: usize = 0;
    while k < n
        invariant
            n as int == b@.len() / 4,
            b@.len() <= usize::MAX,
            k <= n,
            forall|j: int| 0 <= j < k ==> !#[trigger] infinity_at(b@, 4 * j),
        decreases n - k,
    {
        let i = 4 * k;
        if (b[i] == 0 && b[i + 1] == 0 && b[i + 2] == 0x80 && b[i + 3] == 0x7f) || (b[i] == 0x7f && b[i + 1] == 0x80
            && b[i + 2] == 0 && b[i + 3] == 0) {
            assert(infinity_at(b@, 4 * (k as int)));
            return true;
        }
        k = k + 1;
    }
    false
}

/// The RGB bytes handed to the encoder for the target read back as `mapped`
/// under `layout`: padding removed, then alpha.
pub open spec fn target_rgb(layout: ReadbackLayout, mapped: Seq<u8>) -> Seq<u8> {
    rgb_of_rgba(
        depadded(
            mapped,
            layout.padded_bytes_per_row as int,
            layout.unpadded_bytes_per_row as int,
            layout.height as int,
        ),
    )
}

/// Why the target read back as `mapped` under `layout` cannot be encoded,
/// if it cannot: a buffer of the wrong length, texels that are not four
/// 32-bit floats, or a colour channel of +infinity.
pub open spec fn readback_issue(layout: ReadbackLayout, mapped: Seq<u8>) -> Option<EncodeIssue> {
    if mapped.len() != layout.spec_buffer_size() {
        Some(EncodeIssue::BufferSizeMismatch)
    } else if layout.texel_bytes != 16 {
        Some(EncodeIssue::ChannelCountMismatch)
    } else if !free_of_infinity(target_rgb(layout, mapped)) {
        Some(EncodeIssue::InfiniteChannel)
    } else {
        None
    }
}

/// `r` is what encoding the target read back as `mapped` under `layout`
/// gives: the error of the check, or else a radiance file of the layout's
/// extent that encodes exactly the de-padded, alpha-stripped texels.
pub open spec fn encodes_target(layout: ReadbackLayout, mapped: Seq<u8>, r: Result<Vec<u8>, PipelineError>) -> bool {
    match readback_issue(layout, mapped) {
        Some(issue) => r == Err::<Vec<u8>, PipelineError>(PipelineError::Encode(issue)),
        None => {
            &&& r is Ok
            &&& r->Ok_0@.len() >= radiance_header(layout.width, layout.height).len()
            &&& r->Ok_0@.subrange(0, radiance_header(layout.width, layout.height).len() as int) == radiance_header(
                layout.width,
                layout.height,
            )
            &&& radiance_encodes(r->Ok_0@, target_rgb(layout, mapped), layout.width, layout.height)
        },
    }
}

/// Only the colour bytes of a read-back target count: two mapped buffers
/// that agree on every byte a colour channel is read from give the same
/// check outcome and hand the encoder the same pixels, whatever their row
/// padding and alpha floats hold.
pub proof fn lemma_colour_bytes_decide(layout: ReadbackLayout, first: Seq<u8>, second: Seq<u8>)
    requires
        layout.wf(),
        layout.texel_bytes == 16,
        first.len() == layout.spec_buffer_size(),
        second.len() == layout.spec_buffer_size(),
        forall|i: int|
            0 <= i < layout.spec_rgb_size() ==> first[#[trigger] readback_source(layout, i)] == second[readback_source(
                layout,
                i,
            )],
    ensures
        target_rgb(layout, first) == target_rgb(layout, second),
        readback_issue(layout, first) == readback_issue(layout, second),
{
    crate::readback::lemma_readback_round_trip(layout, first);
    crate::readback::lemma_readback_round_trip(layout, second);
    let a = target_rgb(layout, first);
    let b = target_rgb(layout, second);
    assert(layout.width as int * layout.height as int * 3 * 4 == layout.spec_rgb_size()) by (nonlinear_arith);
    assert forall|i: int| 0 <= i < a.len() implies a[i] == b[i] by {
        assert(0 <= readback_source(layout, i));
    }
    assert(a =~= b);
}

/// Row padding and alpha never reach the file: two read-backs of one target
/// that agree on every byte a colour channel is read from are refused
/// alike, or both give files that encode the same texels, those of the
/// first read-back's colour bytes.
pub proof fn lemma_saves_encode_same_pixels(
    layout: ReadbackLayout,
    first: Seq<u8>,
    second: Seq<u8>,
    r1: Result<Vec<u8>, PipelineError>,
    r2: Result<Vec<u8>, PipelineError>,
)
    requires
        layout.wf(),
        layout.texel_bytes == 16,
        first.len() == layout.spec_buffer_size(),
        second.len() == layout.spec_buffer_size(),
        forall|i: int|
            0 <= i < layout.spec_rgb_size() ==> first[#[trigger] readback_source(layout, i)] == second[readback_source(
                layout,
                i,
            )],
        encodes_target(layout, first, r1),
        encodes_target(layout, second, r2),
    ensures
        r1 is Ok <==> r2 is Ok,
        r1 is Err ==> r1 == r2,
        r1 is Ok ==> radiance_encodes(r1->Ok_0@, target_rgb(layout, first), layout.width, layout.height)
            && radiance_encodes(r2->Ok_0@, target_rgb(layout, first), layout.width, layout.height),
{
    lemma_colour_bytes_decide(layout, first, second);
}

/// The radiance file of a read-back target: the mapped staging bytes with
/// padding and alpha removed, then encoded. Refused when the buffer has not
/// the layout's length, its texels are not four 32-bit floats, or a colour
/// channel is +infinity; otherwise a file is always produced.
pub fn encode_target(layout: &ReadbackLayout, mapped: &Vec<u8>) -> (r: Result<Vec<u8>, PipelineError>)
    requires
        layout.wf(),
    ensures
        encodes_target(*layout, mapped@, r),
{
    let rgb = match layout.rgb_pixels(mapped) {
        Ok(rgb) => rgb,
        Err(e) => {
            return Err(e);
        },
    };
    if has_infinite_channel(&rgb) {
        return Err(PipelineError::Encode(EncodeIssue::InfiniteChannel));
    }
    match encode_radiance(&rgb, layout.width, layout.height) {
        Ok(bytes) => Ok(bytes),
        Err(_) => Err(PipelineError::Encode(EncodeIssue::EncoderRejected)),
    }
}

/// A decoded source panorama, described and ready for upload.
pub struct SourceImage {
    pub texture: HdrTexture,
    pub pixels: Vec<u8>,
    pub upload: UploadLayout,
}

/// `r` is the source resource for `width` x `height` decoded RGBA float
/// texels `pixels`: refused as `HdrTexture::new` refuses the extent, or when
/// the pixels are not exactly that many 16-byte texels.
pub open spec fn source_outcome(width: u32, height: u32, pixels: Seq<u8>, r: Result<SourceImage, PipelineError>) -> bool {
    &&& ({
            let issue = crate::resource::creation_issue(
                crate::format::TexelFormat::Rgba32Float,
                crate::texture::source_usage(),
                width,
                height,
            );
            &&& issue is Some ==> r == Err::<SourceImage, PipelineError>(PipelineError::ResourceCreation(issue->Some_0))
            &&& issue is None && pixels.len() != width as int * height as int * 16 ==> r == Err::<SourceImage, PipelineError>(
                PipelineError::ResourceCreation(crate::error::ResourceIssue::UploadSizeMismatch))
            &&& issue is None && pixels.len() == width as int * height as int * 16 ==> r is Ok
        })
    &&& r is Ok ==> {
        let s = r->Ok_0;
        &&& s.texture.wf()
        &&& s.texture.model().width == width
        &&& s.texture.model().height == height
        &&& s.pixels@ == pixels
        &&& s.upload.mip_level == 0
        &&& s.upload.bytes_per_row as int == width as int * 16
        &&& s.upload.extent == (crate::mip::Extent { width, height, depth_or_array_layers: 1 })
    }
}

/// The source resource for `width` x `height` decoded RGBA float texels
/// `pixels`.
pub fn source_from_pixels(width: u32, height: u32, pixels: Vec<u8>) -> (r: Result<SourceImage, PipelineError>)
    ensures
        source_outcome(width, height, pixels@, r),
{
    let texture = match HdrTexture::new(width, height) {
        Ok(t) => t,
        Err(e) => {
            return Err(e);
        },
    };
    let upload = match texture.write_pixels(&pixels) {
        Ok(u) => u,
        Err(e) => {
            return Err(e);
        },
    };
    Ok(SourceImage { texture, pixels, upload })
}

/// Decodes the radiance file `bytes` into the source resource. A file that
/// does not decode gives `SourceDecode` before any resource is described;
/// an empty file never decodes. A file holding 32 bytes shaped like eight
/// consecutive run-length markers is refused the same way without decoding.
pub fn load_source(bytes: &Vec<u8>) -> (r: Result<SourceImage, PipelineError>)
    ensures
        has_marker_run(bytes@) ==> r == Err::<SourceImage, PipelineError>(PipelineError::SourceDecode),
        !has_marker_run(bytes@) ==> match radiance_decoding(bytes@) {
            None => r == Err::<SourceImage, PipelineError>(PipelineError::SourceDecode),
            Some((w, h, px)) => source_outcome(w, h, px, r),
        },
        bytes@.len() == 0 ==> r == Err::<SourceImage, PipelineError>(PipelineError::SourceDecode),
{
    if contains_marker_run(bytes) {
        return Err(PipelineError::SourceDecode);
    }
    match decode_radiance(bytes) {
        Ok((w, h, pixels)) => source_from_pixels(w, h, pixels),
        Err(_) => Err(PipelineError::SourceDecode),
    }
}

} // verus!
