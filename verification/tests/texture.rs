use frame_harness::color::Rgba;
use frame_harness::texture::{TextureAsset, TextureError};

fn sample_pixels() -> Vec<u8> {
    vec![
        0u8, 0u8, 0u8, 0u8,
        255u8, 0u8, 0u8, 55u8,
        0u8, 255u8, 0u8, 155u8,
        0u8, 0u8, 255u8, 255u8,
    ]
}

#[test]
fn rows_are_stored_bottom_first() {
    let texture = TextureAsset::new(&sample_pixels(), 2, 2).unwrap();
    assert_eq!(
        texture.bytes(),
        &vec![0u8, 255, 0, 155, 0, 0, 255, 255, 0, 0, 0, 0, 255, 0, 0, 55]
    );
    assert_eq!(texture.width(), 2);
    assert_eq!(texture.height(), 2);
}

#[test]
fn texels_are_addressed_from_the_bottom_left() {
    let texture = TextureAsset::new(&sample_pixels(), 2, 2).unwrap();
    assert_eq!(texture.texel(0, 0), Some(Rgba::new(0, 255, 0, 155)));
    assert_eq!(texture.texel(1, 0), Some(Rgba::new(0, 0, 255, 255)));
    assert_eq!(texture.texel(0, 1), Some(Rgba::new(0, 0, 0, 0)));
    assert_eq!(texture.texel(1, 1), Some(Rgba::new(255, 0, 0, 55)));
}

#[test]
fn texel_outside_the_grid_is_none() {
    let texture = TextureAsset::new(&sample_pixels(), 2, 2).unwrap();
    assert_eq!(texture.texel(2, 0), None);
    assert_eq!(texture.texel(0, 2), None);
    assert_eq!(texture.texel(u32::MAX, u32::MAX), None);
}

#[test]
fn three_rows_of_one_texel_swap_first_and_last() {
    let pixels: Vec<u8> = vec![1, 2, 3, 4, 5, 6, 7, 8, 9, 10, 11, 12];
    let texture = TextureAsset::new(&pixels, 1, 3).unwrap();
    assert_eq!(texture.bytes(), &vec![9u8, 10, 11, 12, 5, 6, 7, 8, 1, 2, 3, 4]);
    assert_eq!(texture.texel(0, 1), Some(Rgba::new(5, 6, 7, 8)));
}

#[test]
fn single_row_is_kept_as_it_is() {
    let pixels: Vec<u8> = vec![1, 2, 3, 4, 5, 6, 7, 8];
    let texture = TextureAsset::new(&pixels, 2, 1).unwrap();
    assert_eq!(texture.bytes(), &pixels);
}

#[test]
fn flipping_twice_gives_the_image_back() {
    let once = TextureAsset::new(&sample_pixels(), 2, 2).unwrap();
    let twice = TextureAsset::new(once.bytes(), 2, 2).unwrap();
    assert_eq!(twice.bytes(), &sample_pixels());
}

#[test]
fn grid_without_columns_or_rows_is_refused() {
    assert_eq!(TextureAsset::new(&Vec::new(), 0, 2).err(), Some(TextureError::ZeroSized));
    assert_eq!(TextureAsset::new(&Vec::new(), 2, 0).err(), Some(TextureError::ZeroSized));
    assert_eq!(TextureAsset::new(&sample_pixels(), 0, 0).err(), Some(TextureError::ZeroSized));
}

#[test]
fn wrong_number_of_bytes_is_refused() {
    assert_eq!(
        TextureAsset::new(&sample_pixels(), 2, 3).err(),
        Some(TextureError::LengthMismatch)
    );
    assert_eq!(
        TextureAsset::new(&sample_pixels(), 1, 2).err(),
        Some(TextureError::LengthMismatch)
    );
    assert_eq!(TextureAsset::new(&Vec::new(), 1, 1).err(), Some(TextureError::LengthMismatch));
    assert_eq!(
        TextureAsset::new(&sample_pixels(), u32::MAX, u32::MAX).err(),
        Some(TextureError::LengthMismatch)
    );
}
