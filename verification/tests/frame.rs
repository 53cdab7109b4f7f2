use vulkan_fractal::frame::{
    dispatch_groups, readback_len, RgbaFrame, FRAME_EXTENT, RGBA_BYTES_PER_PIXEL, WORKGROUP_SIDE,
};

#[test]
fn dispatch_for_the_rendered_image() {
    assert_eq!(dispatch_groups(FRAME_EXTENT, FRAME_EXTENT), [128, 128, 1]);
}

#[test]
fn dispatch_covers_divisible_image_exactly() {
    let [gx, gy, gz] = dispatch_groups(64, 24);
    assert_eq!((gx, gy, gz), (8, 3, 1));
    assert_eq!(gx * WORKGROUP_SIDE, 64);
    assert_eq!(gy * WORKGROUP_SIDE, 24);
}

#[test]
fn dispatch_rounds_down() {
    assert_eq!(dispatch_groups(15, 7), [1, 0, 1]);
}

#[test]
fn readback_len_of_the_rendered_image() {
    assert_eq!(readback_len(FRAME_EXTENT, FRAME_EXTENT), 1024 * 1024 * 4);
    assert_eq!(readback_len(3, 5), 60);
    assert_eq!(readback_len(0, 9), 0);
    assert_eq!(RGBA_BYTES_PER_PIXEL, 4);
}

#[test]
fn readback_buffer_makes_a_frame() {
    let n = readback_len(FRAME_EXTENT, FRAME_EXTENT);
    let frame = RgbaFrame::from_readback(FRAME_EXTENT, FRAME_EXTENT, vec![7u8; n]).expect("fits");
    assert_eq!(frame.width(), 1024);
    assert_eq!(frame.height(), 1024);
    let bytes = frame.into_bytes();
    assert_eq!(bytes.len(), n);
    assert!(bytes.iter().all(|b| *b == 7));
}

#[test]
fn short_buffer_is_refused() {
    assert!(RgbaFrame::from_readback(2, 2, vec![0u8; 15]).is_none());
    assert!(RgbaFrame::from_readback(1, 1, vec![]).is_none());
}

#[test]
fn longer_buffer_is_kept_whole() {
    let bytes: Vec<u8> = (0..20u8).collect();
    let frame = RgbaFrame::from_readback(2, 2, bytes.clone()).expect("fits");
    assert_eq!(frame.into_bytes(), bytes);
}

#[test]
fn oversized_dimensions_are_refused() {
    assert!(RgbaFrame::from_readback(u32::MAX, u32::MAX, vec![0u8; 64]).is_none());
}
