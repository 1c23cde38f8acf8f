use world_sandbox::engine::texture::{prepare_texture, rgb_to_rgba, ImageData, PixelFormat};

#[test]
fn rgb_gets_opaque_alpha() {
    let out = rgb_to_rgba(&vec![1, 2, 3, 4, 5, 6]);
    assert_eq!(out, vec![1, 2, 3, 255, 4, 5, 6, 255]);
}

#[test]
fn incomplete_pixel_is_dropped() {
    assert_eq!(rgb_to_rgba(&vec![9, 8, 7, 6, 5]), vec![9, 8, 7, 255]);
    assert_eq!(rgb_to_rgba(&vec![1, 2]), Vec::<u8>::new());
    assert_eq!(rgb_to_rgba(&vec![]), Vec::<u8>::new());
}

#[test]
fn alpha_round_trip() {
    let rgb: Vec<u8> = (0..30u8).collect();
    let rgba = rgb_to_rgba(&rgb);
    assert_eq!(rgba.len() / 4, rgb.len() / 3);
    let back: Vec<u8> = rgba.chunks(4).flat_map(|c| c[..3].to_vec()).collect();
    assert_eq!(back, rgb);
    assert!(rgba.chunks(4).all(|c| c[3] == 255));
}

#[test]
fn rgb_image_is_expanded_for_upload() {
    let image = ImageData { pixels: vec![10, 20, 30, 40, 50, 60], format: PixelFormat::R8G8B8, width: 2, height: 1 };
    let up = prepare_texture(image, true);
    assert_eq!(up.pixels, vec![10, 20, 30, 255, 40, 50, 60, 255]);
    assert_eq!(up.width, 2);
    assert_eq!(up.height, 1);
    assert_eq!(up.bytes_per_row, 8);
    assert!(up.srgb);
}

#[test]
fn other_formats_are_uploaded_unchanged() {
    let image = ImageData { pixels: vec![1, 2, 3, 4], format: PixelFormat::R8G8B8A8, width: 1, height: 1 };
    let up = prepare_texture(image, false);
    assert_eq!(up.pixels, vec![1, 2, 3, 4]);
    assert_eq!(up.bytes_per_row, 4);
    assert!(!up.srgb);
    let gray = ImageData { pixels: vec![7, 8, 9], format: PixelFormat::R8, width: 3, height: 1 };
    let up = prepare_texture(gray, false);
    assert_eq!(up.pixels, vec![7, 8, 9]);
    assert_eq!(up.bytes_per_row, 12);
}
