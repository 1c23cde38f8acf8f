use world_sandbox::engine::texture::{ImageData, PixelFormat};
use world_sandbox::world::planet::{
    can_merge_indices, get_image, merge_primitive_indices, model_images, select_texture,
    select_textures, MaterialTextures, PrimitiveIndices, TextureSlot,
};

fn none() -> MaterialTextures {
    MaterialTextures { base_color: None, normal: None, metallic_roughness: None, occlusion: None }
}

fn image(byte: u8) -> ImageData {
    ImageData { pixels: vec![byte, byte, byte], format: PixelFormat::R8G8B8, width: 1, height: 1 }
}

#[test]
fn last_material_setting_a_slot_wins() {
    let mats = vec![
        MaterialTextures { base_color: Some(0), normal: Some(1), ..none() },
        MaterialTextures { base_color: Some(2), ..none() },
        none(),
    ];
    let t = select_textures(&mats);
    assert_eq!(t.base_color, Some(2));
    assert_eq!(t.normal, Some(1));
    assert_eq!(t.metallic_roughness, None);
    assert_eq!(t.occlusion, None);
    assert_eq!(select_texture(&mats, TextureSlot::Normal), Some(1));
    assert_eq!(select_texture(&vec![], TextureSlot::Occlusion), None);
}

#[test]
fn get_image_copies_existing_image() {
    let images = vec![image(1), image(2)];
    let got = get_image(&images, Some(1), [0, 0, 0, 0]);
    assert_eq!(got.pixels, vec![2, 2, 2]);
    assert_eq!(got.format, PixelFormat::R8G8B8);
}

#[test]
fn get_image_falls_back_on_missing_image() {
    let images = vec![image(1)];
    for index in [None, Some(1), Some(7)] {
        let got = get_image(&images, index, [9, 8, 7, 6]);
        assert_eq!(got.pixels, vec![9, 8, 7, 6]);
        assert_eq!(got.format, PixelFormat::R8G8B8A8);
        assert_eq!((got.width, got.height), (1, 1));
    }
}

#[test]
fn model_images_use_the_fallback_colours() {
    let images = vec![image(5)];
    let mats = vec![MaterialTextures { base_color: Some(0), normal: Some(3), ..none() }];
    let m = model_images(&images, &mats);
    assert_eq!(m.diffuse.pixels, vec![5, 5, 5]);
    assert_eq!(m.normal.pixels, vec![128, 128, 255, 255]);
    assert_eq!(m.metallic_roughness.pixels, vec![0, 128, 0, 255]);
    assert_eq!(m.occlusion.pixels, vec![255, 255, 255, 255]);
}

#[test]
fn merged_indices_follow_the_vertices() {
    let parts = vec![
        PrimitiveIndices { vertex_count: 3, indices: Some(vec![0, 1, 2]) },
        PrimitiveIndices { vertex_count: 2, indices: None },
        PrimitiveIndices { vertex_count: 4, indices: Some(vec![0, 1, 2, 2, 3, 0]) },
    ];
    assert!(can_merge_indices(&parts));
    let merged = merge_primitive_indices(&parts);
    assert_eq!(merged, vec![0, 1, 2, 5, 6, 7, 7, 8, 5]);
    assert!(merged.iter().all(|&i| i < 9));
}

#[test]
fn merging_nothing_gives_nothing() {
    assert!(can_merge_indices(&vec![]));
    assert_eq!(merge_primitive_indices(&vec![]), Vec::<u32>::new());
}

#[test]
fn overflowing_index_cannot_be_merged() {
    let parts = vec![
        PrimitiveIndices { vertex_count: 10, indices: Some(vec![0]) },
        PrimitiveIndices { vertex_count: 1, indices: Some(vec![u32::MAX - 5]) },
    ];
    assert!(!can_merge_indices(&parts));
    let fits = vec![
        PrimitiveIndices { vertex_count: 10, indices: Some(vec![0]) },
        PrimitiveIndices { vertex_count: 1, indices: Some(vec![u32::MAX - 10]) },
    ];
    assert!(can_merge_indices(&fits));
    assert_eq!(merge_primitive_indices(&fits), vec![0, u32::MAX]);
}

#[test]
fn offsets_are_truncated_to_32_bits() {
    let parts = vec![
        PrimitiveIndices { vertex_count: (u32::MAX as usize) + 3, indices: None },
        PrimitiveIndices { vertex_count: 1, indices: Some(vec![4]) },
    ];
    if usize::BITS > 32 {
        assert!(can_merge_indices(&parts));
        assert_eq!(merge_primitive_indices(&parts), vec![6]);
    }
}
