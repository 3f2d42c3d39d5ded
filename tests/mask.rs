use transparente::compositor::RgbaBuffer;
use transparente::mask::{extract_channel, model_input_planes, restore_mask};

#[test]
fn channel_planes_pick_one_byte_per_pixel() {
    let px = vec![1, 2, 3, 4, 5, 6, 7, 8];
    assert_eq!(extract_channel(&px, 0), vec![1, 5]);
    assert_eq!(extract_channel(&px, 2), vec![3, 7]);
    assert_eq!(extract_channel(&px, 3), vec![4, 8]);
}

#[test]
fn input_planes_are_channel_major_and_square() {
    let mut pixels = Vec::new();
    for _ in 0..(7 * 5) {
        pixels.extend_from_slice(&[200, 100, 50, 0]);
    }
    let img = RgbaBuffer { width: 7, height: 5, pixels };
    let planes = model_input_planes(&img, 4);
    assert_eq!(planes.len(), 3 * 16);
    assert!(planes[..16].iter().all(|&v| v == 200));
    assert!(planes[16..32].iter().all(|&v| v == 100));
    assert!(planes[32..].iter().all(|&v| v == 50));
}

#[test]
fn input_planes_at_model_size_are_copies() {
    let img = RgbaBuffer { width: 2, height: 1, pixels: vec![1, 2, 3, 4, 5, 6, 7, 8] };
    let planes = model_input_planes(&img, 1);
    assert_eq!(planes.len(), 3);
    let same = RgbaBuffer { width: 1, height: 1, pixels: vec![9, 8, 7, 6] };
    assert_eq!(model_input_planes(&same, 1), vec![9, 8, 7]);
}

#[test]
fn restored_mask_has_image_size() {
    let small = vec![0u8, 255, 255, 0];
    let big = restore_mask(&small, 2, 4, 4);
    assert_eq!(big.len(), 16);
    assert_ne!(big, small);
}

#[test]
fn restore_at_same_size_is_identity() {
    let m = vec![3u8, 1, 4, 1, 5, 9, 2, 6, 5];
    assert_eq!(restore_mask(&m, 3, 3, 3), m);
}

#[test]
fn uniform_mask_stays_uniform() {
    let m = vec![255u8; 320 * 320];
    let r = restore_mask(&m, 320, 50, 30);
    assert_eq!(r.len(), 1500);
    assert!(r.iter().all(|&v| v == 255));
}

fn round_trip(res: u32, w: u32, h: u32) {
    let img = RgbaBuffer { width: w, height: h, pixels: vec![128u8; (w * h * 4) as usize] };
    let planes = model_input_planes(&img, res);
    assert_eq!(planes.len(), (3 * res * res) as usize);
    let model_mask = planes[..(res * res) as usize].to_vec();
    let back = restore_mask(&model_mask, res, w, h);
    assert_eq!(back.len(), (w * h) as usize);
}

#[test]
fn round_trip_320_single_pixel() {
    round_trip(320, 1, 1);
}

#[test]
fn round_trip_320_wide_and_tall() {
    round_trip(320, 4000, 1);
    round_trip(320, 1, 4000);
}

#[test]
fn round_trip_1024_single_pixel() {
    round_trip(1024, 1, 1);
}

#[test]
fn round_trip_1024_wide_and_tall() {
    round_trip(1024, 4000, 1);
    round_trip(1024, 1, 4000);
}

#[test]
fn restore_320_to_large_square() {
    let m = vec![7u8; 320 * 320];
    assert_eq!(restore_mask(&m, 320, 4000, 4000).len(), 4000 * 4000);
}
