use ibl_converter::error::{PipelineError, ResourceIssue};
use ibl_converter::format::TexelFormat;
use ibl_converter::mip::{mip_extent, mip_level_count, Extent};
use ibl_converter::resource::{ImageResource, Usage, ViewDesc, ViewDimension};
use ibl_converter::texture::{CubeTexture, Filter, HdrTexture, Texture2D};

fn ok<T>(r: Result<T, PipelineError>) -> T {
    match r {
        Ok(v) => v,
        Err(e) => panic!("unexpected error {:?}", e),
    }
}

fn err<T>(r: Result<T, PipelineError>) -> PipelineError {
    match r {
        Ok(_) => panic!("expected an error"),
        Err(e) => e,
    }
}

#[test]
fn mip_count_of_square_and_wide_images() {
    assert_eq!(mip_level_count(512, 512, true), 10);
    assert_eq!(mip_level_count(4096, 2048, true), 13);
    assert_eq!(mip_level_count(1, 1, true), 1);
    assert_eq!(mip_level_count(300, 5, true), 9);
    assert_eq!(mip_level_count(512, 512, false), 1);
}

#[test]
fn mip_extent_halves_and_stops_at_one() {
    let e = Extent { width: 512, height: 256, depth_or_array_layers: 6 };
    assert_eq!(mip_extent(e, 0), e);
    assert_eq!(mip_extent(e, 1), Extent { width: 256, height: 128, depth_or_array_layers: 6 });
    assert_eq!(mip_extent(e, 8), Extent { width: 2, height: 1, depth_or_array_layers: 6 });
    assert_eq!(mip_extent(e, 20), Extent { width: 1, height: 1, depth_or_array_layers: 6 });
}

#[test]
fn texel_sizes_come_from_the_format() {
    assert_eq!(TexelFormat::Rgba32Float.texel_size(), Some(16));
    assert_eq!(TexelFormat::Rgba16Float.texel_size(), Some(8));
    assert_eq!(TexelFormat::Rgba8Unorm.texel_size(), Some(4));
    assert_eq!(TexelFormat::Depth24Plus.texel_size(), None);
}

#[test]
fn texture_2d_with_mips_describes_its_chain() {
    let t = ok(Texture2D::new(TexelFormat::Rgba32Float, 512, 512, true));
    assert_eq!(t.mip_count(), 10);
    assert_eq!(t.size(), Extent { width: 512, height: 512, depth_or_array_layers: 1 });
    assert_eq!(t.mip_level_size(3), Extent { width: 64, height: 64, depth_or_array_layers: 1 });
    assert_eq!(t.mip_level_size(9), Extent { width: 1, height: 1, depth_or_array_layers: 1 });
    assert_eq!(t.mip_memory_size(0), 512 * 512 * 16);
    assert_eq!(t.mip_memory_size(2), 128 * 128 * 16);
    assert_eq!(t.mip_memory_size_row(1), 256 * 16);
    assert_eq!(
        t.create_mip_view(4),
        ViewDesc { dimension: ViewDimension::D2, base_mip_level: 4, mip_level_count: 1, base_array_layer: 0, array_layer_count: 1 }
    );
    assert_eq!(t.view().mip_level_count, 10);
}

#[test]
fn texture_2d_without_mips_has_one_level() {
    let t = ok(Texture2D::new(TexelFormat::Rgba8Unorm, 32, 16, false));
    assert_eq!(t.mip_count(), 1);
    assert_eq!(t.mip_memory_size(0), 32 * 16 * 4);
}

#[test]
fn unsized_format_is_refused() {
    let e = err(Texture2D::new(TexelFormat::Depth24Plus, 32, 32, false));
    assert_eq!(e, PipelineError::ResourceCreation(ResourceIssue::UnsizedFormat));
}

#[test]
fn empty_extent_is_refused() {
    let e = err(Texture2D::new(TexelFormat::Rgba32Float, 0, 32, false));
    assert_eq!(e, PipelineError::ResourceCreation(ResourceIssue::EmptyExtent));
    let e = err(CubeTexture::new(16, 0));
    assert_eq!(e, PipelineError::ResourceCreation(ResourceIssue::EmptyExtent));
}

#[test]
fn oversized_extent_is_refused() {
    let e = err(Texture2D::new(TexelFormat::Rgba32Float, 65536, 65536, true));
    assert_eq!(e, PipelineError::ResourceCreation(ResourceIssue::TooLarge));
    let e = err(HdrTexture::new(u32::MAX, 2));
    assert_eq!(e, PipelineError::ResourceCreation(ResourceIssue::TooLarge));
}

#[test]
fn texture_upload_layout_needs_the_exact_size() {
    let t = ok(Texture2D::new(TexelFormat::Rgba32Float, 4, 2, false));
    let layout = ok(t.write_pixels(&vec![0u8; 4 * 2 * 16]));
    assert_eq!(layout.bytes_per_row, 64);
    assert_eq!(layout.mip_level, 0);
    assert_eq!(layout.extent, Extent { width: 4, height: 2, depth_or_array_layers: 1 });
    let e = err(t.write_pixels(&vec![0u8; 4 * 2 * 16 - 1]));
    assert_eq!(e, PipelineError::ResourceCreation(ResourceIssue::UploadSizeMismatch));
}

#[test]
fn cube_texture_has_six_faces_and_a_full_chain() {
    let c = ok(CubeTexture::new(512, 512));
    assert_eq!(c.mip_count(), 10);
    assert_eq!(c.size(), Extent { width: 512, height: 512, depth_or_array_layers: 6 });
    assert_eq!(c.format(), TexelFormat::Rgba32Float);
    let v = c.view_2d();
    assert_eq!(v.dimension, ViewDimension::D2Array);
    assert_eq!(v.array_layer_count, 6);
    assert_eq!(v.mip_level_count, 1);
    let v = c.view_cube();
    assert_eq!(v.dimension, ViewDimension::Cube);
    assert_eq!(v.mip_level_count, 10);
    assert_eq!(
        c.create_mip_view(5, 9),
        ViewDesc { dimension: ViewDimension::D2, base_mip_level: 9, mip_level_count: 1, base_array_layer: 5, array_layer_count: 1 }
    );
    assert_eq!(c.mip_level_size(9), Extent { width: 1, height: 1, depth_or_array_layers: 6 });
    assert_eq!(c.sampler().mipmap_filter, Filter::Linear);
}

#[test]
fn hdr_texture_uploads_whole_rgba_float_rows() {
    let h = ok(HdrTexture::new(4096, 2048));
    assert_eq!(h.size(), Extent { width: 4096, height: 2048, depth_or_array_layers: 1 });
    assert_eq!(h.view().dimension, ViewDimension::D2);
    let layout = ok(h.write_pixels(&vec![0u8; 4096 * 2048 * 16]));
    assert_eq!(layout.bytes_per_row, 4096 * 16);
    let e = err(h.write_pixels(&Vec::new()));
    assert_eq!(e, PipelineError::ResourceCreation(ResourceIssue::UploadSizeMismatch));
}

#[test]
fn storage_on_a_depth_format_is_refused() {
    let storage = Usage { sampled: true, storage_write: true, render_target: false, copy_src: false, copy_dst: false };
    let e = err(ImageResource::create(TexelFormat::Depth32Float, 4, 4, 1, false, storage));
    assert_eq!(e, PipelineError::ResourceCreation(ResourceIssue::UnsupportedUsage));
    let r = ok(ImageResource::create(TexelFormat::Rgba16Float, 4, 4, 1, false, storage));
    assert_eq!(r.texel_bytes(), 8);
    assert!(!TexelFormat::Depth24Plus.allowed_usages().storage_write);
    assert!(TexelFormat::Rgba32Float.allowed_usages().storage_write);
}

#[test]
fn a_resource_without_layers_is_refused() {
    let usage = Usage { sampled: true, storage_write: false, render_target: false, copy_src: false, copy_dst: true };
    let e = err(ImageResource::create(TexelFormat::Rgba32Float, 4, 4, 0, false, usage));
    assert_eq!(e, PipelineError::ResourceCreation(ResourceIssue::EmptyExtent));
}
