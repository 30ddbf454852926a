use ibl_converter::artifact::{artifacts, Artifact};
use ibl_converter::codec::{contains_marker_run, encode_target, has_infinite_channel, load_source, source_from_pixels};
use ibl_converter::plan::{stage_plan, Stage};
use ibl_converter::error::{EncodeIssue, PipelineError, ResourceIssue};
use ibl_converter::format::TexelFormat;
use ibl_converter::ibl::{IBLRenderer, MipUniform, Program};
use ibl_converter::mipmap::CubeMipmapRenderer;
use ibl_converter::projector::{CubeMapRenderer, Dispatch};
use ibl_converter::readback::{strip_alpha, ReadbackLayout};
use ibl_converter::resource::ViewDimension;
use ibl_converter::session::{Action, BakeSession, Event, Phase};
use ibl_converter::staging::{MapEvent, MapState, StagingBuffer};
use ibl_converter::texture::{AddressMode, CubeTexture, Filter, HdrTexture, Texture2D};

fn ok<T>(r: Result<T, PipelineError>) -> T {
    match r {
        Ok(v) => v,
        Err(e) => panic!("unexpected error {:?}", e),
    }
}

fn err<T>(r: Result<T, PipelineError>) -> PipelineError {
    match r {
        Ok(_) => panic!("expected an error"),
        Err(e) => e,
    }
}

fn rgba_bytes(texels: &[[f32; 4]]) -> Vec<u8> {
    let mut out = Vec::new();
    for t in texels {
        for c in t {
            out.extend_from_slice(&c.to_ne_bytes());
        }
    }
    out
}

#[test]
fn projector_covers_every_face_in_one_dispatch() {
    let cube = ok(CubeTexture::new(512, 512));
    let source = ok(HdrTexture::new(4096, 2048));
    let p = CubeMapRenderer::new(&cube, &source);
    assert_eq!(p.render(), Dispatch { x: 32, y: 32, z: 6 });
    assert_eq!(p.target_view().array_layer_count, 6);
    assert_eq!(p.target_view().dimension, ViewDimension::D2Array);
    assert_eq!(p.source_view(), source.view());
    let small = ok(CubeTexture::new(100, 100));
    assert_eq!(CubeMapRenderer::new(&small, &source).render(), Dispatch { x: 7, y: 7, z: 6 });
}

#[test]
fn cube_of_512_needs_54_mip_passes() {
    let source = ok(HdrTexture::new(4096, 2048));
    let cube = ok(CubeTexture::new(512, 512));
    assert_eq!(cube.mip_count(), 10);
    let _ = CubeMapRenderer::new(&cube, &source);
    let gen = CubeMipmapRenderer::new(&cube);
    let passes = gen.generate_mipmaps();
    assert_eq!(passes.len(), 54);
    assert_eq!((passes[0].face, passes[0].src_mip, passes[0].dst_mip), (0, 0, 1));
    assert_eq!((passes[5].face, passes[5].dst_mip), (5, 1));
    assert_eq!((passes[6].face, passes[6].src_mip, passes[6].dst_mip), (0, 1, 2));
    assert_eq!((passes[53].face, passes[53].src_mip, passes[53].dst_mip), (5, 8, 9));
    assert_eq!(passes[53].dst.base_array_layer, 5);
    assert_eq!(passes[53].dst.base_mip_level, 9);
    assert_eq!(passes[53].src.base_mip_level, 8);
    for w in passes.windows(2) {
        assert!(w[0].dst_mip <= w[1].dst_mip);
    }
    assert_eq!(gen.sampler().mipmap_filter, Filter::Nearest);
    assert_eq!(gen.level_extent(9).width, 1);
}

#[test]
fn a_single_level_cube_needs_no_mip_pass() {
    let cube = ok(CubeTexture::new(1, 1));
    assert_eq!(CubeMipmapRenderer::new(&cube).generate_mipmaps().len(), 0);
}

#[test]
fn readback_layout_pads_rows_to_256_bytes() {
    let t = ok(Texture2D::new(TexelFormat::Rgba32Float, 5, 3, false));
    let l = ok(ReadbackLayout::for_mip(t.image(), 0));
    assert_eq!(l.unpadded_bytes_per_row, 80);
    assert_eq!(l.padded_bytes_per_row, 256);
    assert_eq!(l.buffer_size(), 768);
    let t = ok(Texture2D::new(TexelFormat::Rgba32Float, 32, 32, false));
    let l = ok(ReadbackLayout::for_mip(t.image(), 0));
    assert_eq!(l.unpadded_bytes_per_row, 512);
    assert_eq!(l.padded_bytes_per_row, 512);
}

#[test]
fn readback_strips_padding_then_alpha() {
    let t = ok(Texture2D::new(TexelFormat::Rgba32Float, 1, 2, false));
    let l = ok(ReadbackLayout::for_mip(t.image(), 0));
    assert_eq!(l.padded_bytes_per_row, 256);
    let mut mapped = vec![0xEEu8; 512];
    for i in 0..16 {
        mapped[i] = i as u8;
        mapped[256 + i] = 100 + i as u8;
    }
    let tight = l.strip_padding(&mapped);
    assert_eq!(tight.len(), 32);
    assert_eq!(&tight[..16], &(0u8..16).collect::<Vec<u8>>()[..]);
    assert_eq!(&tight[16..], &(100u8..116).collect::<Vec<u8>>()[..]);
    let rgb = ok(l.rgb_pixels(&mapped));
    assert_eq!(rgb.len(), 1 * 2 * 3 * 4);
    let mut expected: Vec<u8> = (0u8..12).collect();
    expected.extend(100u8..112);
    assert_eq!(rgb, expected);
}

#[test]
fn strip_alpha_drops_every_fourth_float() {
    let data = rgba_bytes(&[[1.0, 2.0, 3.0, 4.0], [5.0, 6.0, 7.0, 8.0]]);
    let rgb = strip_alpha(&data);
    let expected = {
        let mut v = Vec::new();
        for c in [1.0f32, 2.0, 3.0, 5.0, 6.0, 7.0] {
            v.extend_from_slice(&c.to_ne_bytes());
        }
        v
    };
    assert_eq!(rgb, expected);
    assert!(strip_alpha(&Vec::new()).is_empty());
}

#[test]
fn readback_refuses_wrong_sizes_and_channels() {
    let t = ok(Texture2D::new(TexelFormat::Rgba32Float, 5, 3, false));
    let l = ok(ReadbackLayout::for_mip(t.image(), 0));
    let e = err(l.rgb_pixels(&vec![0u8; 767]));
    assert_eq!(e, PipelineError::Encode(EncodeIssue::BufferSizeMismatch));
    let t8 = ok(Texture2D::new(TexelFormat::Rgba8Unorm, 64, 2, false));
    let l8 = ok(ReadbackLayout::for_mip(t8.image(), 0));
    let e = err(l8.rgb_pixels(&vec![0u8; l8.buffer_size() as usize]));
    assert_eq!(e, PipelineError::Encode(EncodeIssue::ChannelCountMismatch));
}

fn renderer() -> IBLRenderer {
    let cube = ok(CubeTexture::new(512, 512));
    ok(IBLRenderer::new(&cube, TexelFormat::Rgba32Float, 32, 32, 512, 512, 512, 512))
}

#[test]
fn specular_levels_are_capped_at_five() {
    let r = renderer();
    assert_eq!(r.total_mips(), 5);
    let cube = ok(CubeTexture::new(512, 512));
    let small = ok(IBLRenderer::new(&cube, TexelFormat::Rgba32Float, 32, 32, 4, 4, 8, 8));
    assert_eq!(small.total_mips(), 3);
    let capped = ok(IBLRenderer::with_mip_cap(&cube, TexelFormat::Rgba32Float, 32, 32, 512, 512, 8, 8, 2));
    assert_eq!(capped.total_mips(), 2);
}

#[test]
fn specular_512_gives_five_levels() {
    let r = renderer();
    let passes = r.render_specular_1();
    assert_eq!(passes.len(), 5);
    let widths: Vec<u32> = passes.iter().map(|p| p.readback.width).collect();
    assert_eq!(widths, vec![512, 256, 128, 64, 32]);
    for (i, p) in passes.iter().enumerate() {
        assert_eq!(p.program, Program::Specular1);
        assert_eq!(p.uniform, MipUniform { mip_level: i as u32, total_mips: 5 });
        assert_eq!(p.target.base_mip_level, i as u32);
        assert_eq!(p.readback.mip_level, i as u32);
        assert_eq!(p.readback.padded_bytes_per_row % 256, 0);
    }
    let names: Vec<String> = artifacts(r.total_mips()).iter().map(|a| a.file_name()).collect();
    assert_eq!(
        names,
        vec![
            "diffuse.hdr",
            "specular_1_0.hdr",
            "specular_1_1.hdr",
            "specular_1_2.hdr",
            "specular_1_3.hdr",
            "specular_1_4.hdr",
            "specular_2.hdr"
        ]
    );
}

#[test]
fn diffuse_and_resolve_passes_use_one_level() {
    let r = renderer();
    let d = r.render_diffuse();
    assert_eq!(d.program, Program::Diffuse);
    assert_eq!(d.uniform, MipUniform { mip_level: 0, total_mips: 1 });
    assert_eq!(d.readback.width, 32);
    assert_eq!(d.readback.padded_bytes_per_row, 512);
    let s = r.render_specular_2();
    assert_eq!(s.program, Program::Specular2);
    assert_eq!(s.readback.width, 512);
    assert_eq!(r.env_view().dimension, ViewDimension::Cube);
    assert_eq!(r.env_view().mip_level_count, 10);
}

#[test]
fn convolver_refuses_bad_targets() {
    let cube = ok(CubeTexture::new(64, 64));
    let e = err(IBLRenderer::new(&cube, TexelFormat::Depth24Plus, 32, 32, 64, 64, 64, 64));
    assert_eq!(e, PipelineError::ResourceCreation(ResourceIssue::UnsizedFormat));
    let e = err(IBLRenderer::new(&cube, TexelFormat::Rgba32Float, 32, 32, 0, 64, 64, 64));
    assert_eq!(e, PipelineError::ResourceCreation(ResourceIssue::EmptyExtent));
}

#[test]
fn file_names_follow_the_artifact() {
    assert_eq!(Artifact::Diffuse.file_name(), "diffuse.hdr");
    assert_eq!(Artifact::Specular2.file_name(), "specular_2.hdr");
    assert_eq!(Artifact::Specular1(0).file_name(), "specular_1_0.hdr");
    assert_eq!(Artifact::Specular1(12).file_name(), "specular_1_12.hdr");
    assert_eq!(Artifact::Specular1(4000000000).file_name(), "specular_1_4000000000.hdr");
    assert_eq!(artifacts(0), vec![Artifact::Diffuse, Artifact::Specular2]);
}

#[test]
fn encoded_target_is_a_radiance_file_that_decodes_back() {
    let t = ok(Texture2D::new(TexelFormat::Rgba32Float, 2, 1, false));
    let l = ok(ReadbackLayout::for_mip(t.image(), 0));
    let mut mapped = rgba_bytes(&[[1.0, 0.5, 0.25, 9.0], [2.0, 4.0, 8.0, 9.0]]);
    mapped.resize(l.buffer_size() as usize, 0);
    let file = ok(encode_target(&l, &mapped));
    assert!(file.starts_with(b"#?RADIANCE"));
    assert_ne!(file, mapped);
    let source = ok(load_source(&file));
    assert_eq!(source.texture.size().width, 2);
    assert_eq!(source.texture.size().height, 1);
    assert_eq!(source.pixels.len(), 2 * 16);
    assert_eq!(source.upload.bytes_per_row, 32);
    let first = f32::from_ne_bytes([source.pixels[0], source.pixels[1], source.pixels[2], source.pixels[3]]);
    assert_eq!(first, 1.0);
    let blue = f32::from_ne_bytes([source.pixels[24], source.pixels[25], source.pixels[26], source.pixels[27]]);
    assert_eq!(blue, 8.0);
}

#[test]
fn save_diffuse_encodes_the_diffuse_target() {
    let r = renderer();
    let layout = r.render_diffuse().readback;
    let mapped = vec![0u8; layout.buffer_size() as usize];
    let file = ok(r.save_diffuse(&mapped));
    assert!(file.starts_with(b"#?RADIANCE"));
    let e = err(r.save_specular_2(&vec![0u8; 3]));
    assert_eq!(e, PipelineError::Encode(EncodeIssue::BufferSizeMismatch));
    let l1 = r.render_specular_1()[4].readback;
    let file = ok(r.save_specular_1(4, &vec![0u8; l1.buffer_size() as usize]));
    assert!(file.starts_with(b"#?RADIANCE"));
}

#[test]
fn empty_or_corrupt_source_is_refused() {
    assert_eq!(err(load_source(&Vec::new())), PipelineError::SourceDecode);
    assert_eq!(err(load_source(&b"not a radiance file at all".to_vec())), PipelineError::SourceDecode);
    let mut s = BakeSession::new();
    assert_eq!(s.step(Event::SourceRejected), Action::Abort);
    assert_eq!(s.phase(), Phase::Aborted);
    assert!(s.written().is_empty());
    assert_eq!(s.step(Event::ResourcesBuilt(5)), Action::Abort);
}

#[test]
fn source_pixels_must_fill_the_image() {
    let e = err(source_from_pixels(2, 2, vec![0u8; 63]));
    assert_eq!(e, PipelineError::ResourceCreation(ResourceIssue::UploadSizeMismatch));
    let e = err(source_from_pixels(0, 2, Vec::new()));
    assert_eq!(e, PipelineError::ResourceCreation(ResourceIssue::EmptyExtent));
    let s = ok(source_from_pixels(2, 2, vec![0u8; 64]));
    assert_eq!(s.upload.bytes_per_row, 32);
}

#[test]
fn session_runs_every_artifact_in_order() {
    let mut s = BakeSession::new();
    assert_eq!(s.step(Event::SourceDecoded), Action::BuildResources);
    assert_eq!(s.step(Event::ResourcesBuilt(2)), Action::SubmitPasses);
    assert_eq!(s.step(Event::PassesSubmitted), Action::ReadBack(Artifact::Diffuse));
    assert_eq!(s.step(Event::ArtifactWritten), Action::ReadBack(Artifact::Specular1(0)));
    assert_eq!(s.step(Event::ArtifactWritten), Action::ReadBack(Artifact::Specular1(1)));
    assert_eq!(s.step(Event::ArtifactWritten), Action::ReadBack(Artifact::Specular2));
    assert_eq!(s.step(Event::ArtifactWritten), Action::Finish);
    assert_eq!(s.phase(), Phase::Finished);
    assert_eq!(s.written().len(), 4);
}

#[test]
fn denied_map_keeps_earlier_files() {
    let mut s = BakeSession::new();
    s.step(Event::SourceDecoded);
    s.step(Event::ResourcesBuilt(1));
    assert_eq!(s.step(Event::PassesSubmitted), Action::ReadBack(Artifact::Diffuse));
    assert_eq!(s.step(Event::ArtifactWritten), Action::ReadBack(Artifact::Specular1(0)));
    assert_eq!(s.step(Event::ArtifactFailed(PipelineError::MapFailure)), Action::ReadBack(Artifact::Specular2));
    assert_eq!(s.written(), &vec![Artifact::Diffuse]);
    assert_eq!(s.step(Event::ArtifactFailed(PipelineError::DeviceLost)), Action::Abort);
    assert_eq!(s.phase(), Phase::Aborted);
    assert_eq!(s.written(), &vec![Artifact::Diffuse]);
    assert_eq!(s.failed().len(), 2);
    assert_eq!(s.step(Event::ArtifactWritten), Action::Abort);
    assert_eq!(s.written(), &vec![Artifact::Diffuse]);
}

#[test]
fn out_of_sequence_event_aborts() {
    let mut s = BakeSession::new();
    assert_eq!(s.step(Event::PassesSubmitted), Action::Abort);
    assert_eq!(s.phase(), Phase::Aborted);
}

#[test]
fn staging_buffer_allows_one_map_at_a_time() {
    let t = ok(Texture2D::new(TexelFormat::Rgba32Float, 4, 4, false));
    let layout = ok(ReadbackLayout::for_mip(t.image(), 0));
    let mut b = StagingBuffer::new(layout);
    assert_eq!(b.state(), MapState::Unmapped);
    assert_eq!(b.apply(MapEvent::Unmap), Err(PipelineError::MapFailure));
    assert_eq!(b.apply(MapEvent::RequestMap), Ok(()));
    assert_eq!(b.apply(MapEvent::RequestMap), Err(PipelineError::MapFailure));
    assert_eq!(b.apply(MapEvent::Unmap), Err(PipelineError::MapFailure));
    assert_eq!(b.state(), MapState::MapPending);
    assert!(!b.is_readable());
    assert_eq!(b.apply(MapEvent::MapSucceeded), Ok(()));
    assert!(b.is_readable());
    assert_eq!(b.apply(MapEvent::Unmap), Ok(()));
    assert_eq!(b.state(), MapState::Unmapped);
    assert_eq!(b.layout(), layout);
}

#[test]
fn denied_or_lost_map_returns_to_unmapped() {
    let t = ok(Texture2D::new(TexelFormat::Rgba32Float, 4, 4, false));
    let mut b = StagingBuffer::new(ok(ReadbackLayout::for_mip(t.image(), 0)));
    b.apply(MapEvent::RequestMap).unwrap();
    assert_eq!(b.apply(MapEvent::MapDenied), Err(PipelineError::MapFailure));
    assert_eq!(b.state(), MapState::Unmapped);
    b.apply(MapEvent::RequestMap).unwrap();
    assert_eq!(b.apply(MapEvent::DeviceLost), Err(PipelineError::DeviceLost));
    assert_eq!(b.state(), MapState::Unmapped);
}

#[test]
fn encoded_target_starts_with_the_radiance_header() {
    let t = ok(Texture2D::new(TexelFormat::Rgba32Float, 2, 1, false));
    let l = ok(ReadbackLayout::for_mip(t.image(), 0));
    let mut mapped = rgba_bytes(&[[1.0, 0.5, 0.25, 9.0], [2.0, 4.0, 8.0, 9.0]]);
    mapped.resize(l.buffer_size() as usize, 0);
    let file = ok(encode_target(&l, &mapped));
    let header: &[u8] = b"#?RADIANCE\n# Rust HDR encoder\nFORMAT=32-bit_rle_rgbe\n\n-Y 1 +X 2\n";
    assert!(file.starts_with(header));
    assert!(file.len() > header.len());
}

#[test]
fn infinite_colour_channel_is_refused_but_infinite_alpha_is_not() {
    let t = ok(Texture2D::new(TexelFormat::Rgba32Float, 2, 1, false));
    let l = ok(ReadbackLayout::for_mip(t.image(), 0));
    let mut bad = rgba_bytes(&[[1.0, f32::INFINITY, 0.25, 1.0], [2.0, 4.0, 8.0, 1.0]]);
    bad.resize(l.buffer_size() as usize, 0);
    assert_eq!(err(encode_target(&l, &bad)), PipelineError::Encode(EncodeIssue::InfiniteChannel));
    let mut fine = rgba_bytes(&[[1.0, 0.5, 0.25, f32::INFINITY], [2.0, 4.0, 8.0, 1.0]]);
    fine.resize(l.buffer_size() as usize, 0);
    assert!(ok(encode_target(&l, &fine)).starts_with(b"#?RADIANCE"));
    assert!(has_infinite_channel(&f32::INFINITY.to_ne_bytes().to_vec()));
    assert!(!has_infinite_channel(&f32::MAX.to_ne_bytes().to_vec()));
    assert!(!has_infinite_channel(&Vec::new()));
}

#[test]
fn padding_and_alpha_do_not_change_the_file() {
    let t = ok(Texture2D::new(TexelFormat::Rgba32Float, 3, 2, false));
    let l = ok(ReadbackLayout::for_mip(t.image(), 0));
    let texels = [[0.1, 0.2, 0.3, 1.0], [1.5, 2.5, 3.5, 1.0], [7.0, 0.0, 0.5, 1.0]];
    let mut first = Vec::new();
    let mut second = Vec::new();
    for row in 0..2u8 {
        let mut a = rgba_bytes(&texels);
        let mut b = a.clone();
        for c in 0..3 {
            b[c * 16 + 12..c * 16 + 16].copy_from_slice(&(row as f32 + 42.0).to_ne_bytes());
        }
        a.resize(256, 0);
        b.resize(256, 0xAB);
        first.extend(a);
        second.extend(b);
    }
    assert_ne!(first, second);
    assert_eq!(ok(encode_target(&l, &first)), ok(encode_target(&l, &second)));
}

#[test]
fn a_cap_of_zero_plans_no_specular_level() {
    let cube = ok(CubeTexture::new(64, 64));
    let r = ok(IBLRenderer::with_mip_cap(&cube, TexelFormat::Rgba32Float, 32, 32, 64, 64, 8, 8, 0));
    assert_eq!(r.total_mips(), 0);
    assert!(r.render_specular_1().is_empty());
    assert_eq!(artifacts(0), vec![Artifact::Diffuse, Artifact::Specular2]);
}

#[test]
fn stage_plan_orders_projection_mips_and_convolutions() {
    let source = ok(HdrTexture::new(4096, 2048));
    let cube = ok(CubeTexture::new(512, 512));
    let projector = CubeMapRenderer::new(&cube, &source);
    let mipmap = CubeMipmapRenderer::new(&cube);
    let ibl = ok(IBLRenderer::new(&cube, TexelFormat::Rgba32Float, 32, 32, 512, 512, 128, 128));
    let stages = stage_plan(&projector, &mipmap, &ibl);
    assert_eq!(stages.len(), 1 + 54 + 1 + 5 + 1);
    assert_eq!(stages[0], Stage::Project(Dispatch { x: 32, y: 32, z: 6 }));
    assert!(stages[1..55].iter().all(|s| matches!(s, Stage::Mip(_))));
    assert_eq!(stages[55], Stage::Convolve(ibl.render_diffuse()));
    for k in 0..5 {
        assert_eq!(stages[56 + k], Stage::Convolve(ibl.render_specular_1()[k]));
    }
    assert_eq!(stages[61], Stage::Convolve(ibl.render_specular_2()));
}

#[test]
fn samplers_clamp_to_the_edge() {
    let cube = ok(CubeTexture::new(8, 8));
    assert_eq!(cube.sampler().address_mode, AddressMode::ClampToEdge);
    assert_eq!(CubeMipmapRenderer::new(&cube).sampler().address_mode, AddressMode::ClampToEdge);
    let ibl = ok(IBLRenderer::new(&cube, TexelFormat::Rgba32Float, 4, 4, 8, 8, 8, 8));
    assert_eq!(ibl.env_sampler().address_mode, AddressMode::ClampToEdge);
}

#[test]
fn eight_run_markers_in_a_row_are_refused_before_decoding() {
    let mut file = b"#?RADIANCE\nFORMAT=32-bit_rle_rgbe\n\n-Y 1 +X 4\n".to_vec();
    file.extend_from_slice(&[5, 5, 5, 128]);
    for _ in 0..8 {
        file.extend_from_slice(&[1, 1, 1, 0]);
    }
    assert!(contains_marker_run(&file));
    assert_eq!(err(load_source(&file)), PipelineError::SourceDecode);
    let mut seven = b"#?RADIANCE\n".to_vec();
    for _ in 0..7 {
        seven.extend_from_slice(&[1, 1, 1, 9]);
    }
    assert!(!contains_marker_run(&seven));
    assert!(!contains_marker_run(&Vec::new()));
}

#[test]
fn identical_colour_bytes_decode_back_to_the_same_texels() {
    let t = ok(Texture2D::new(TexelFormat::Rgba32Float, 2, 2, false));
    let l = ok(ReadbackLayout::for_mip(t.image(), 0));
    let mut mapped = Vec::new();
    for row in 0..2 {
        let mut r = rgba_bytes(&[[0.5 + row as f32, 1.0, 2.0, 1.0], [4.0, 8.0, 0.25, 1.0]]);
        r.resize(256, 0);
        mapped.extend(r);
    }
    let file = ok(encode_target(&l, &mapped));
    let decoded = ok(load_source(&file));
    assert_eq!(decoded.pixels.len(), 2 * 2 * 16);
    let red = f32::from_ne_bytes([decoded.pixels[32], decoded.pixels[33], decoded.pixels[34], decoded.pixels[35]]);
    assert_eq!(red, 1.5);
}
