use waymux::buffer::{BufferKind, ShmBufferData, ShmFormat};
use waymux::composite::{
    blit_over, blit_viewport, composite, composite_into_buf, composite_into_slice, offsets_fit,
    surface_dims, PlacedSurface, SurfaceNode,
};
use waymux::surface::{Fixed, ViewportData};

#[test]
fn blit_opaque_argb_overwrites() {
    let mut dst = vec![0u8; 2 * 2 * 4];
    let src: Vec<u8> = vec![
        10, 20, 30, 255, 11, 21, 31, 255, 12, 22, 32, 255, 13, 23, 33, 255,
    ];
    blit_over(
        &mut dst,
        2,
        2,
        8,
        0,
        0,
        &src,
        2,
        2,
        8,
        ShmFormat::Argb8888,
    );
    assert_eq!(dst, src);
}

#[test]
fn blit_xrgb_forces_opaque_alpha() {
    let mut dst = vec![0u8; 4];
    let src = vec![7, 8, 9, 0];
    blit_over(
        &mut dst,
        1,
        1,
        4,
        0,
        0,
        &src,
        1,
        1,
        4,
        ShmFormat::Xrgb8888,
    );
    assert_eq!(dst, [7, 8, 9, 0xFF]);
}

#[test]
fn blit_fully_transparent_argb_keeps_dst() {
    let mut dst = vec![100, 101, 102, 255];
    let src = vec![0, 0, 0, 0];
    blit_over(
        &mut dst,
        1,
        1,
        4,
        0,
        0,
        &src,
        1,
        1,
        4,
        ShmFormat::Argb8888,
    );
    assert_eq!(dst, [100, 101, 102, 255]);
}

#[test]
fn blit_offset_lands_at_destination() {
    let mut dst = vec![0u8; 4 * 4 * 4];
    let src = vec![1, 2, 3, 255];
    blit_over(
        &mut dst,
        4,
        4,
        16,
        2,
        1,
        &src,
        1,
        1,
        4,
        ShmFormat::Argb8888,
    );
    assert_eq!(&dst[24..28], &[1, 2, 3, 255]);
    assert_eq!(&dst[0..4], &[0, 0, 0, 0]);
}

#[test]
fn blit_clips_at_boundaries() {
    let mut dst = vec![0u8; 2 * 2 * 4];
    let src = vec![9u8; 4 * 4 * 4];
    blit_over(
        &mut dst,
        2,
        2,
        8,
        -1,
        -1,
        &src,
        4,
        4,
        16,
        ShmFormat::Argb8888,
    );
    assert!(dst.iter().all(|&b| b == 9));
}

#[test]
fn blit_viewport_scale_2x_opaque() {
    let src = vec![0u8, 0, 255, 255];
    let mut dst = vec![0u8; 2 * 2 * 4];
    blit_viewport(
        &mut dst,
        2,
        2,
        8,
        0,
        0,
        &src,
        4,
        ShmFormat::Argb8888,
        0,
        0,
        1,
        1,
        2,
        2,
    );
    for i in 0..4 {
        let b = i * 4;
        assert_eq!(dst[b], 0);
        assert_eq!(dst[b + 1], 0);
        assert_eq!(dst[b + 2], 255);
        assert_eq!(dst[b + 3], 255);
    }
}

#[test]
fn blit_viewport_crop_top_left() {
    let src = vec![
        0u8, 0, 255, 255, 0, 255, 0, 255, 0, 255, 0, 255, 0, 255, 0, 255,
    ];
    let mut dst = vec![0u8; 4];
    blit_viewport(
        &mut dst,
        1,
        1,
        4,
        0,
        0,
        &src,
        8,
        ShmFormat::Argb8888,
        0,
        0,
        1,
        1,
        1,
        1,
    );
    assert_eq!(&dst, &[0, 0, 255, 255]);
}

fn shm(width: i32, height: i32, pixels: &[[u8; 4]], format: ShmFormat) -> BufferKind {
    BufferKind::Shm(ShmBufferData {
        pool: pixels.concat(),
        offset: 0,
        width,
        height,
        stride: width * 4,
        format,
    })
}

fn leaf(buffer: BufferKind) -> SurfaceNode {
    SurfaceNode {
        viewport: ViewportData::default(),
        buffer: Some(buffer),
        children: vec![],
    }
}

#[test]
fn half_transparent_source_is_blended() {
    let mut dst = vec![200, 100, 50, 255];
    let src = vec![10, 20, 30, 128];
    blit_over(&mut dst, 1, 1, 4, 0, 0, &src, 1, 1, 4, ShmFormat::Argb8888);
    assert_eq!(dst, [10 + 99, 20 + 49, 30 + 24, 128 + 127]);
}

#[test]
fn children_are_drawn_over_their_parent() {
    let mut root = leaf(shm(
        2,
        1,
        &[[1, 1, 1, 255], [2, 2, 2, 255]],
        ShmFormat::Argb8888,
    ));
    root.children.push(PlacedSurface {
        surface: leaf(shm(1, 1, &[[9, 9, 9, 255]], ShmFormat::Argb8888)),
        x: 1,
        y: 0,
    });
    assert!(offsets_fit(&root, 0, 0));
    let frame = composite(&root, (2, 1)).unwrap();
    assert_eq!((frame.width, frame.height), (2, 1));
    assert_eq!(frame.bytes, [1, 1, 1, 255, 9, 9, 9, 255]);
}

#[test]
fn frame_size_follows_viewport_buffer_or_fallback() {
    let root = leaf(shm(
        2,
        1,
        &[[0, 0, 0, 255], [0, 0, 0, 255]],
        ShmFormat::Argb8888,
    ));
    assert_eq!(surface_dims(&root, (7, 8)), (2, 1));
    let mut scaled = leaf(BufferKind::SinglePixel([1, 2, 3, 255]));
    scaled.viewport.set_destination(3, 2);
    assert_eq!(surface_dims(&scaled, (7, 8)), (3, 2));
    let empty = SurfaceNode {
        viewport: ViewportData::default(),
        buffer: None,
        children: vec![],
    };
    assert_eq!(surface_dims(&empty, (7, 8)), (7, 8));
    assert!(composite(&empty, (0, 8)).is_none());
}

#[test]
fn single_pixel_fills_its_destination() {
    let mut root = leaf(BufferKind::SinglePixel([1, 2, 3, 255]));
    root.viewport.set_destination(4, 5);
    let mut buf = vec![7; 3];
    assert_eq!(
        composite_into_buf(&root, &mut buf, (9, 9)),
        Some((4, 5, 16))
    );
    assert_eq!(buf, [1, 2, 3, 255].repeat(20));
}

#[test]
fn tiny_root_gets_the_fallback_size() {
    let mut root = leaf(BufferKind::SinglePixel([1, 2, 3, 255]));
    root.children.push(PlacedSurface {
        surface: leaf(shm(1, 1, &[[9, 9, 9, 255]], ShmFormat::Argb8888)),
        x: 4,
        y: 0,
    });
    let frame = composite(&root, (5, 1)).unwrap();
    assert_eq!((frame.width, frame.height, frame.stride), (5, 1, 20));
    assert_eq!(frame.bytes[..4], [1, 2, 3, 255]);
    assert_eq!(frame.bytes[4..16], [0; 12]);
    assert_eq!(frame.bytes[16..], [9, 9, 9, 255]);
}

#[test]
fn slice_of_another_size_is_refused_untouched() {
    let root = leaf(BufferKind::SinglePixel([1, 2, 3, 255]));
    let mut out = vec![5u8; 7];
    assert!(!composite_into_slice(&root, &mut out, 1, 2));
    assert_eq!(out, vec![5u8; 7]);
    let mut out = vec![5u8; 8];
    assert!(composite_into_slice(&root, &mut out, 1, 2));
    assert_eq!(out, [1, 2, 3, 255, 0, 0, 0, 0]);
    let mut without = root;
    without.buffer = None;
    assert!(!composite_into_slice(&without, &mut out, 1, 2));
    assert_eq!(out, [1, 2, 3, 255, 0, 0, 0, 0]);
}

#[test]
fn fixed_point_is_truncated_towards_zero() {
    assert_eq!(Fixed(256 * 3 + 255).trunc(), 3);
    assert_eq!(Fixed(-256 * 3 - 255).trunc(), -3);
    assert_eq!(Fixed(i32::MIN).trunc(), i32::MIN / 256);
}

#[test]
fn buffers_show_their_pixels() {
    let b = shm(1, 1, &[[1, 2, 3, 4]], ShmFormat::Xrgb8888);
    let v = b.with_bytes().unwrap();
    assert_eq!(v.bytes, &[1, 2, 3, 4]);
    assert_eq!((v.width, v.height, v.stride), (1, 1, 4));
    assert_eq!(v.format, ShmFormat::Xrgb8888);
    assert!(BufferKind::Invalid.with_bytes().is_none());
    let single = BufferKind::SinglePixel([5, 6, 7, 8]);
    assert_eq!(single.with_bytes().unwrap().bytes, &[5, 6, 7, 8]);
}
