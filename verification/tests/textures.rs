use aurora::material::{SubTexture, Texture, TextureManager};
use aurora::renderer::PipelineManager;

#[test]
fn handles_start_after_the_null_handle() {
    let mut textures = TextureManager::new();
    assert!(textures.get_sub_texture(&0).is_none());
    let a = textures.create_texture_from_data(vec![0; 4 * 4 * 4], 4, 4);
    let b = textures.create_texture_from_data(vec![0; 4 * 4 * 4], 4, 4);
    assert_eq!(a, 1);
    assert_eq!(b, 2);
    assert!(textures.get_sub_texture(&0).is_none());
    assert_eq!(
        textures.get_sub_texture(&a),
        Some(&SubTexture { texture: 0, texture_position: [0, 0], texture_size: [4, 4] })
    );
    assert_eq!(
        textures.get_sub_texture(&b),
        Some(&SubTexture { texture: 1, texture_position: [0, 0], texture_size: [4, 4] })
    );
}

#[test]
fn sub_texture_that_runs_past_its_parent_is_refused() {
    let mut textures = TextureManager::new();
    let whole = textures.create_texture_from_data(vec![0; 64 * 32 * 4], 64, 32);
    assert_eq!(textures.create_sub_texture(whole, 33, 0, 32, 32), 0);
    assert_eq!(textures.create_sub_texture(whole, 0, 1, 32, 32), 0);
    assert_eq!(textures.create_sub_texture(whole, 64, 0, 1, 1), 0);
    assert_eq!(textures.create_sub_texture(whole, u32::MAX, 0, 2, 1), 0);
    assert_eq!(textures.create_sub_texture(whole, 0, 2, 1, u32::MAX), 0);
    assert_eq!(textures.create_sub_texture(0, 0, 0, 1, 1), 0);
    assert_eq!(textures.create_sub_texture(17, 0, 0, 1, 1), 0);
    // nothing was registered by the refused requests
    assert!(textures.get_sub_texture(&2).is_none());
    let next = textures.create_sub_texture(whole, 0, 0, 64, 32);
    assert_eq!(next, 2);
}

#[test]
fn sub_texture_offsets_add_up() {
    let mut textures = TextureManager::new();
    let whole = textures.create_texture_from_data(vec![0; 64 * 32 * 4], 64, 32);
    let right = textures.create_sub_texture(whole, 32, 0, 32, 32);
    assert_ne!(right, 0);
    assert_eq!(
        textures.get_sub_texture(&right),
        Some(&SubTexture { texture: 0, texture_position: [32, 0], texture_size: [32, 32] })
    );
    let inner = textures.create_sub_texture(right, 8, 16, 24, 16);
    assert_ne!(inner, 0);
    assert_eq!(
        textures.get_sub_texture(&inner),
        Some(&SubTexture { texture: 0, texture_position: [40, 16], texture_size: [24, 16] })
    );
    assert_eq!(textures.get_tl_br_coords_for(&inner), Some([40, 16, 64, 32]));
    assert_eq!(textures.get_tl_br_coords_for(&whole), Some([0, 0, 64, 32]));
    assert_eq!(textures.get_tl_br_coords_for(&0), None);
    // relative to the inner window, not to the backing texture
    assert_eq!(textures.create_sub_texture(inner, 0, 0, 25, 1), 0);
    let corner = textures.create_sub_texture(inner, 23, 15, 1, 1);
    assert_eq!(
        textures.get_sub_texture(&corner),
        Some(&SubTexture { texture: 0, texture_position: [63, 31], texture_size: [1, 1] })
    );
}

#[test]
fn required_dimensions_grow_with_the_largest_texture() {
    let mut textures = TextureManager::new();
    assert_eq!(textures.buffer_dimensions_required(), (256, 256));
    textures.create_texture_from_data(Vec::new(), 100, 300);
    assert_eq!(textures.buffer_dimensions_required(), (256, 300));
    textures.create_texture_from_data(Vec::new(), 512, 2);
    assert_eq!(textures.buffer_dimensions_required(), (512, 300));
    textures.create_texture_from_data(Vec::new(), 1, 1);
    assert_eq!(textures.buffer_dimensions_required(), (512, 300));
}

#[test]
fn prepare_uploads_each_texture_once() {
    let mut textures = TextureManager::new();
    assert!(!textures.needs_preparing());
    assert!(textures.prepare().is_empty());
    let a = textures.create_texture_from_data(vec![1, 2, 3, 4], 1, 1);
    let b = textures.create_texture_from_data(vec![5; 8], 2, 1);
    assert!(textures.needs_preparing());
    let backing_a = textures.get_sub_texture(&a).unwrap().texture;
    let backing_b = textures.get_sub_texture(&b).unwrap().texture;
    assert!(textures.get_texture(&backing_a).is_none());
    assert!(textures.resolve(&a).is_none());

    let uploads = textures.prepare();
    assert_eq!(uploads.len(), 2);
    assert_eq!(uploads[0].texture, backing_a);
    assert_eq!(uploads[0].raw.data, vec![1, 2, 3, 4]);
    assert_eq!((uploads[0].raw.width, uploads[0].raw.height), (1, 1));
    assert_eq!(uploads[1].texture, backing_b);
    assert_eq!(uploads[1].raw.data, vec![5; 8]);
    assert_eq!((uploads[1].raw.width, uploads[1].raw.height), (2, 1));
    assert!(!textures.needs_preparing());
    assert_eq!(textures.get_texture(&backing_a), Some(&Texture::new(1, 1)));
    assert_eq!(textures.get_texture(&backing_b).unwrap().get_size(), (2, 1));
    assert_eq!(textures.resolve(&b), Some(&Texture::new(2, 1)));
    assert_eq!(textures.resolve(&0), None);
    assert_eq!(textures.resolve(&3), None);
    assert_eq!(textures.get_texture(&backing_b).unwrap().get_extent().depth_or_array_layers, 1);

    // nothing is pending: a second step is a no-op
    assert!(textures.prepare().is_empty());
    assert_eq!(textures.get_texture(&backing_a), Some(&Texture::new(1, 1)));

    let c = textures.create_texture_from_data(vec![9; 4], 1, 1);
    let uploads = textures.prepare();
    assert_eq!(uploads.len(), 1);
    assert_eq!(uploads[0].texture, textures.get_sub_texture(&c).unwrap().texture);
}

#[test]
fn a_dropped_texture_leads_nowhere() {
    let mut textures = TextureManager::new();
    let a = textures.create_texture_from_data(vec![0; 4], 1, 1);
    let b = textures.create_texture_from_data(vec![0; 4], 1, 1);
    let backing_a = textures.get_sub_texture(&a).unwrap().texture;
    let backing_b = textures.get_sub_texture(&b).unwrap().texture;
    textures.drop(b);
    let uploads = textures.prepare();
    assert_eq!(uploads.len(), 1);
    assert_eq!(uploads[0].texture, backing_a);
    assert!(textures.get_texture(&backing_a).is_some());
    assert!(textures.get_texture(&backing_b).is_none());
    // the sub-texture stays registered
    assert!(textures.get_sub_texture(&b).is_some());
    assert!(textures.resolve(&b).is_none());
    assert!(textures.resolve(&a).is_some());
    textures.drop(a);
    assert!(textures.get_texture(&backing_a).is_none());
    textures.drop(0);
    textures.drop(42);
    assert!(textures.has_room());
}

#[test]
fn a_png_file_is_decoded_into_a_texture() {
    let pixels: Vec<u8> = vec![
        255, 0, 0, 255, 0, 255, 0, 255, 0, 0, 255, 255, //
        1, 2, 3, 4, 5, 6, 7, 8, 9, 10, 11, 12,
    ];
    let mut file: Vec<u8> = Vec::new();
    {
        let mut encoder = png::Encoder::new(&mut file, 3, 2);
        encoder.set_color(png::ColorType::Rgba);
        encoder.set_depth(png::BitDepth::Eight);
        let mut writer = encoder.write_header().unwrap();
        writer.write_image_data(&pixels).unwrap();
    }
    assert_ne!(file, pixels);

    let mut textures = TextureManager::new();
    let handle = textures.create_texture_from_file(&file).unwrap();
    assert_eq!(handle, 1);
    assert_eq!(
        textures.get_sub_texture(&handle),
        Some(&SubTexture { texture: 0, texture_position: [0, 0], texture_size: [3, 2] })
    );
    let uploads = textures.prepare();
    assert_eq!(uploads.len(), 1);
    assert_eq!(uploads[0].raw.data, pixels);
    assert_eq!((uploads[0].raw.width, uploads[0].raw.height), (3, 2));
}

#[test]
fn bytes_that_are_no_png_file_register_nothing() {
    let mut textures = TextureManager::new();
    assert_eq!(textures.create_texture_from_file(&[1, 2, 3]), None);
    assert_eq!(textures.create_texture_from_file(&[]), None);
    assert!(!textures.needs_preparing());
    assert_eq!(textures.create_texture_from_data(Vec::new(), 1, 1), 1);
}

#[test]
fn a_truncated_png_file_registers_nothing() {
    let mut file: Vec<u8> = Vec::new();
    {
        let mut encoder = png::Encoder::new(&mut file, 2, 2);
        encoder.set_color(png::ColorType::Rgba);
        encoder.set_depth(png::BitDepth::Eight);
        let mut writer = encoder.write_header().unwrap();
        writer.write_image_data(&[7; 16]).unwrap();
    }
    file.truncate(40);
    let mut textures = TextureManager::new();
    assert_eq!(textures.create_texture_from_file(&file), None);
    assert!(textures.get_sub_texture(&1).is_none());
}

#[test]
fn the_texture_slot_grows_to_what_is_required() {
    let mut pipelines = PipelineManager::new();
    assert_eq!(pipelines.texture_size, (256, 256));
    pipelines.bound_texture = Some(3);
    assert!(!pipelines.prepare_buffers((256, 256)));
    assert!(!pipelines.prepare_buffers((10, 20)));
    assert_eq!(pipelines.texture_size, (256, 256));
    assert_eq!(pipelines.bound_texture, Some(3));
    assert!(pipelines.prepare_buffers((256, 257)));
    assert_eq!(pipelines.texture_size, (256, 257));
    assert_eq!(pipelines.bound_texture, None);
    assert!(pipelines.prepare_buffers((300, 10)));
    assert_eq!(pipelines.texture_size, (300, 10));
}

#[test]
fn a_window_without_extent_fits_at_the_far_corner() {
    let mut textures = TextureManager::new();
    let whole = textures.create_texture_from_data(vec![0; 64 * 32 * 4], 64, 32);
    let corner = textures.create_sub_texture(whole, 64, 32, 0, 0);
    assert_eq!(corner, 2);
    assert_eq!(
        textures.get_sub_texture(&corner),
        Some(&SubTexture { texture: 0, texture_position: [64, 32], texture_size: [0, 0] })
    );
    assert_eq!(textures.create_sub_texture(corner, 0, 0, 1, 0), 0);
    assert_eq!(textures.create_sub_texture(corner, 0, 0, 0, 0), 3);
    let exact = textures.create_sub_texture(whole, 0, 0, 64, 32);
    assert_eq!(textures.get_sub_texture(&exact), textures.get_sub_texture(&whole));
}

#[test]
fn a_window_of_a_window_is_a_window_of_the_parent() {
    let mut textures = TextureManager::new();
    let whole = textures.create_texture_from_data(Vec::new(), 100, 100);
    let first = textures.create_sub_texture(whole, 10, 20, 50, 60);
    let second = textures.create_sub_texture(first, 5, 6, 7, 8);
    let direct = textures.create_sub_texture(whole, 15, 26, 7, 8);
    assert_ne!(second, 0);
    assert_ne!(direct, 0);
    assert_eq!(textures.get_sub_texture(&second), textures.get_sub_texture(&direct));
    assert_eq!(textures.get_tl_br_coords_for(&second), Some([15, 26, 22, 34]));
}

#[test]
fn sub_textures_of_a_texture_of_the_largest_size() {
    let mut textures = TextureManager::new();
    let whole = textures.create_texture_from_data(Vec::new(), u32::MAX, u32::MAX);
    assert_eq!(textures.buffer_dimensions_required(), (u32::MAX, u32::MAX));
    let last = textures.create_sub_texture(whole, u32::MAX - 1, u32::MAX - 1, 1, 1);
    assert_ne!(last, 0);
    assert_eq!(
        textures.get_tl_br_coords_for(&last),
        Some([u32::MAX - 1, u32::MAX - 1, u32::MAX, u32::MAX])
    );
    assert_eq!(textures.create_sub_texture(whole, u32::MAX, 0, 1, 1), 0);
    assert_eq!(textures.create_sub_texture(last, 1, 1, 0, 0), last + 1);
    assert_eq!(textures.create_sub_texture(last, 1, 1, 1, 0), 0);
}
