use tile_engine::texture_loader::{LoadError, Texture, TextureAtlas, out_of_range_message};

/// A `width` by `height` image whose every byte tells where it lies.
fn pattern(width: u32, height: u32) -> Vec<u8> {
    let mut pixels = Vec::new();
    for y in 0..height {
        for x in 0..width {
            pixels.push((x % 256) as u8);
            pixels.push((y % 256) as u8);
            pixels.push(((x / 32) * 16 + y / 32) as u8);
            pixels.push(255);
        }
    }
    pixels
}

/// The rectangle cut out of `pixels` by hand.
fn crop_by_hand(pixels: &[u8], width: u32, x: u32, y: u32, w: u32, h: u32) -> Vec<u8> {
    let mut out = Vec::new();
    for row in 0..h {
        for col in 0..w {
            let at = (((y + row) * width + x + col) * 4) as usize;
            out.extend_from_slice(&pixels[at..at + 4]);
        }
    }
    out
}

fn outside() -> TextureAtlas {
    TextureAtlas::from_pixels("outside", 256, 256, pattern(256, 256), [32, 32]).unwrap()
}

fn encode_png(width: u32, height: u32, pixels: Vec<u8>) -> Vec<u8> {
    let buffer = image::RgbaImage::from_raw(width, height, pixels).unwrap();
    let mut bytes = std::io::Cursor::new(Vec::new());
    image::DynamicImage::ImageRgba8(buffer)
        .write_to(&mut bytes, image::ImageFormat::Png)
        .unwrap();
    bytes.into_inner()
}

#[test]
fn outside_atlas_has_eight_rows_and_columns() {
    let atlas = outside();
    assert_eq!(atlas.get_rows(), 8);
    assert_eq!(atlas.get_columns(), 8);
    assert_eq!(atlas.tile_count(), 64);
    assert_eq!(atlas.atlas_width, 256);
    assert_eq!(atlas.atlas_height, 256);
}

#[test]
fn first_coordinate_is_the_top_left_cell() {
    let mut atlas = outside();
    let expected = crop_by_hand(&pattern(256, 256), 256, 0, 0, 32, 32);
    let tile = atlas.slice_at(1, 1);
    assert_eq!(tile.width, 32);
    assert_eq!(tile.height, 32);
    assert_eq!(tile.pixels, expected);
}

#[test]
fn every_coordinate_gives_its_crop() {
    let source = pattern(256, 256);
    let mut atlas = outside();
    for row in 1..=8u32 {
        for col in 1..=8u32 {
            let expected = crop_by_hand(&source, 256, (col - 1) * 32, (row - 1) * 32, 32, 32);
            let tile = atlas.slice_at(col, row);
            assert_eq!(tile.pixels, expected);
        }
    }
    assert_eq!(atlas.textures.len(), 64);
}

#[test]
fn flat_ids_run_row_by_row() {
    let source = pattern(256, 256);
    let mut atlas = outside();
    assert_eq!(atlas.slice(0).pixels, crop_by_hand(&source, 256, 0, 0, 32, 32));
    assert_eq!(atlas.slice(1).pixels, crop_by_hand(&source, 256, 32, 0, 32, 32));
    assert_eq!(atlas.slice(8).pixels, crop_by_hand(&source, 256, 0, 32, 32, 32));
    assert_eq!(atlas.slice(9).pixels, crop_by_hand(&source, 256, 32, 32, 32, 32));
    assert_eq!(atlas.slice(63).pixels, crop_by_hand(&source, 256, 224, 224, 32, 32));
}

#[test]
fn a_tile_is_not_the_whole_image() {
    let mut atlas = outside();
    let whole = pattern(256, 256);
    let tile = atlas.slice(9);
    assert_eq!(tile.pixels.len(), 32 * 32 * 4);
    assert_ne!(tile.pixels, whole);
    assert_eq!(atlas.atlas_image.pixels, whole);
}

#[test]
fn coordinates_and_flat_ids_name_the_same_cells() {
    let mut by_coordinate = outside();
    let mut by_id = outside();
    let a = by_coordinate.slice_at(3, 2).pixels.clone();
    let b = by_id.slice(10).pixels.clone();
    assert_eq!(a, b);
    assert!(by_coordinate.textures.contains_key(&10));
}

#[test]
fn ids_out_of_range_give_the_fallback() {
    let mut atlas = outside();
    for id in [-1i64, -64, 64, 65, 1 << 40, i64::MIN, i64::MAX] {
        let tile = atlas.slice(id);
        assert_eq!((tile.width, tile.height), (1, 1));
        assert_eq!(tile.pixels, vec![0, 0, 0, 0]);
        assert!(!atlas.has_tile(id));
    }
    assert!(atlas.textures.is_empty());
}

#[test]
fn coordinates_out_of_range_give_the_fallback() {
    let mut atlas = outside();
    for (col, row) in [(9u32, 9u32), (0, 1), (1, 0), (0, 0), (9, 1), (1, 9), (u32::MAX, u32::MAX)] {
        let tile = atlas.slice_at(col, row);
        assert_eq!(tile.pixels, vec![0, 0, 0, 0]);
        assert!(!atlas.has_tile_at(col, row));
    }
    assert!(atlas.textures.is_empty());
    assert!(atlas.has_tile_at(8, 8));
    assert!(atlas.has_tile(0));
    assert!(atlas.has_tile(63));
}

#[test]
fn the_installed_fallback_is_what_comes_back() {
    let mut atlas = outside();
    let placeholder = Texture::new(2, 1, vec![1, 2, 3, 4, 5, 6, 7, 8]).unwrap();
    atlas.set_fallback(placeholder);
    assert_eq!(atlas.slice(64).pixels, vec![1, 2, 3, 4, 5, 6, 7, 8]);
    assert_eq!(atlas.slice_at(9, 9).width, 2);
    assert_eq!(atlas.load_texture_from_map(3).pixels, vec![1, 2, 3, 4, 5, 6, 7, 8]);
}

#[test]
fn the_warning_names_the_atlas_and_its_grid() {
    let atlas = outside();
    let warning = atlas.out_of_range_warning();
    assert_eq!(
        warning,
        "Failed to load Texture <OUTSIDE>: the Texture Position is out of range! Max Rows: 8 Columns: 8"
    );
    assert_eq!(
        out_of_range_message("caves", 0, 12),
        "Failed to load Texture <caves>: the Texture Position is out of range! Max Rows: 0 Columns: 12"
    );
}

#[test]
fn asking_again_gives_the_cached_tile() {
    let mut atlas = outside();
    let first = atlas.slice(5).pixels.clone();
    assert_eq!(atlas.textures.len(), 1);
    let second = atlas.slice(5).pixels.clone();
    assert_eq!(first, second);
    assert_eq!(atlas.textures.len(), 1);
    let third = atlas.slice_at(6, 1).pixels.clone();
    assert_eq!(first, third);
    assert_eq!(atlas.textures.len(), 1);
}

#[test]
fn a_cached_tile_is_not_cut_again() {
    let mut atlas = outside();
    atlas.slice(5);
    // The cache is what answers: a tile changed there comes back changed.
    atlas.textures.get_mut(&5).unwrap().pixels[0] = 77;
    assert_eq!(atlas.slice(5).pixels[0], 77);
}

#[test]
fn the_whole_tileset_goes_into_the_map() {
    let source = pattern(256, 256);
    let mut atlas = outside();
    atlas.slice(3);
    atlas.load_texture_from_tileset_to_map();
    assert_eq!(atlas.textures.len(), 64);
    for id in 0..64u32 {
        let expected = crop_by_hand(&source, 256, (id % 8) * 32, (id / 8) * 32, 32, 32);
        assert_eq!(atlas.load_texture_from_map(id).pixels, expected);
    }
    assert_eq!(atlas.load_texture_from_map(64).pixels, vec![0, 0, 0, 0]);
}

#[test]
fn an_empty_map_answers_with_the_fallback() {
    let atlas = outside();
    assert_eq!(atlas.load_texture_from_map(0).pixels, vec![0, 0, 0, 0]);
}

#[test]
fn partial_cells_are_out_of_reach() {
    let mut atlas = TextureAtlas::from_pixels("odd", 70, 40, pattern(70, 40), [32, 32]).unwrap();
    assert_eq!(atlas.get_columns(), 2);
    assert_eq!(atlas.get_rows(), 1);
    assert_eq!(atlas.slice(1).pixels, crop_by_hand(&pattern(70, 40), 70, 32, 0, 32, 32));
    assert_eq!(atlas.slice(2).pixels, vec![0, 0, 0, 0]);
    assert_eq!(atlas.slice_at(1, 2).pixels, vec![0, 0, 0, 0]);
}

#[test]
fn an_image_smaller_than_a_cell_has_no_tiles() {
    let mut atlas = TextureAtlas::from_pixels("tiny", 8, 8, pattern(8, 8), [32, 32]).unwrap();
    assert_eq!(atlas.get_rows(), 0);
    assert_eq!(atlas.get_columns(), 0);
    assert_eq!(atlas.tile_count(), 0);
    assert_eq!(atlas.slice(0).pixels, vec![0, 0, 0, 0]);
    assert_eq!(atlas.slice_at(1, 1).pixels, vec![0, 0, 0, 0]);
}

#[test]
fn cells_need_not_be_square() {
    let source = pattern(64, 48);
    let mut atlas = TextureAtlas::from_pixels("wide", 64, 48, source.clone(), [16, 24]).unwrap();
    assert_eq!(atlas.get_columns(), 4);
    assert_eq!(atlas.get_rows(), 2);
    let tile = atlas.slice(6);
    assert_eq!((tile.width, tile.height), (16, 24));
    assert_eq!(tile.pixels, crop_by_hand(&source, 64, 32, 24, 16, 24));
}

#[test]
fn the_tile_count_grows_with_the_image() {
    let mut last = 0;
    for side in [0u32, 1, 31, 32, 33, 63, 64, 100, 256, 257] {
        let atlas =
            TextureAtlas::from_pixels("grow", side, side, pattern(side, side), [32, 32]).unwrap();
        let count = atlas.get_rows() as u64 * atlas.get_columns() as u64;
        assert!(count >= last);
        assert_eq!(count, ((side / 32) * (side / 32)) as u64);
        last = count;
    }
}

#[test]
fn a_buffer_of_the_wrong_length_is_refused() {
    let short = TextureAtlas::from_pixels("bad", 4, 4, vec![0; 63], [2, 2]);
    assert_eq!(short.err(), Some(LoadError::BadBuffer));
    let long = TextureAtlas::from_pixels("bad", 4, 4, vec![0; 68], [2, 2]);
    assert_eq!(long.err(), Some(LoadError::BadBuffer));
    assert!(Texture::new(4, 4, vec![0; 64]).is_some());
    assert!(Texture::new(4, 4, vec![0; 60]).is_none());
    assert!(Texture::new(0, 9, vec![]).is_some());
}

#[test]
fn the_empty_texture_is_one_clear_pixel() {
    let empty = Texture::empty();
    assert_eq!((empty.width, empty.height), (1, 1));
    assert_eq!(empty.pixels, vec![0, 0, 0, 0]);
}

#[test]
fn an_atlas_comes_out_of_a_png() {
    let source = pattern(64, 64);
    let png = encode_png(64, 64, source.clone());
    assert_ne!(png, source);
    let mut atlas = TextureAtlas::new("caves", &png, [32, 32]).unwrap();
    assert_eq!(atlas.atlas_width, 64);
    assert_eq!(atlas.atlas_height, 64);
    assert_eq!(atlas.atlas_image.pixels, source);
    assert_eq!(atlas.slice(3).pixels, crop_by_hand(&source, 64, 32, 32, 32, 32));
    assert_eq!(atlas.get_name(), "caves");
}

#[test]
fn bytes_that_are_no_image_are_refused() {
    let broken = TextureAtlas::new("broken", b"this is no image at all", [32, 32]);
    assert_eq!(broken.err(), Some(LoadError::Undecodable));
    let empty = TextureAtlas::new("empty", &[], [32, 32]);
    assert_eq!(empty.err(), Some(LoadError::Undecodable));
}

#[test]
fn the_outside_atlas_answers_as_expected() {
    let source = pattern(256, 256);
    let mut atlas = outside();
    assert_eq!((atlas.get_rows(), atlas.get_columns()), (8, 8));
    assert_eq!(atlas.slice_at(1, 1).pixels, crop_by_hand(&source, 256, 0, 0, 32, 32));
    assert!(!atlas.has_tile_at(9, 9));
    assert_eq!(atlas.slice_at(9, 9).pixels, Texture::empty().pixels);
    assert!(!atlas.has_tile(64));
    assert_eq!(atlas.slice(64).pixels, Texture::empty().pixels);
    let warning = atlas.out_of_range_warning();
    assert!(warning.contains("OUTSIDE"));
    assert!(warning.contains("Max Rows: 8 Columns: 8"));
}

#[test]
fn a_texture_comes_out_of_a_png() {
    let source = pattern(5, 3);
    let texture = Texture::from_encoded(&encode_png(5, 3, source.clone())).unwrap();
    assert_eq!((texture.width, texture.height), (5, 3));
    assert_eq!(texture.pixels, source);
    assert_eq!(Texture::from_encoded(b"no image").err(), Some(LoadError::Undecodable));
}
