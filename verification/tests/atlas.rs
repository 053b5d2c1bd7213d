use witness_gate::atlas::{
    glyph_index, Atlas, AtlasError, Glyph, PixelRect, Sprite, ATLAS_GAP,
};

fn sprite(width: usize, height: usize, fill: u8) -> Sprite {
    Sprite { bmp_width: width, bmp_height: height, bmp: vec![fill; 4 * width * height] }
}

fn glyph(id: u32, width: usize, height: usize, fill: u8) -> Glyph {
    Glyph { glyph_id: id, sprite: sprite(width, height, fill) }
}

#[test]
fn new_atlas_is_only_gap() {
    let atlas = Atlas::new();
    assert_eq!(ATLAS_GAP, 2);
    assert!(atlas.glyph_ids.is_empty());
    assert!(atlas.sprites.is_empty());
    assert!(atlas.x_pos.is_empty());
    assert_eq!(atlas.width, 2);
    assert_eq!(atlas.height, 4);
}

#[test]
fn glyphs_are_laid_out_left_to_right() {
    let mut atlas = Atlas::new();
    atlas.push(&vec![glyph(10, 3, 5, 1), glyph(11, 4, 2, 2), glyph(12, 1, 9, 3)]);
    assert_eq!(atlas.glyph_ids, vec![10, 11, 12]);
    assert_eq!(atlas.x_pos, vec![2, 7, 13]);
    assert_eq!(atlas.width, 16);
    assert_eq!(atlas.height, 13);
    assert_eq!(atlas.sprites[1].bmp_width, 4);
    assert_eq!(atlas.sprites[1].bmp, vec![2u8; 32]);
}

#[test]
fn a_glyph_is_kept_once() {
    let mut atlas = Atlas::new();
    atlas.push(&vec![glyph(10, 3, 5, 1), glyph(10, 8, 8, 2)]);
    atlas.push_glyph(&glyph(10, 1, 1, 3));
    atlas.push(&vec![glyph(11, 2, 1, 4), glyph(10, 3, 5, 1)]);
    assert_eq!(atlas.glyph_ids, vec![10, 11]);
    assert_eq!(atlas.x_pos, vec![2, 7]);
    assert_eq!(atlas.width, 11);
    assert_eq!(atlas.height, 9);
    assert_eq!(atlas.sprites[0].bmp, vec![1u8; 60]);
}

#[test]
fn glyph_index_finds_the_first_place() {
    let ids = vec![4, 9, 4, 7];
    assert_eq!(glyph_index(&ids, 4), Some(0));
    assert_eq!(glyph_index(&ids, 9), Some(1));
    assert_eq!(glyph_index(&ids, 7), Some(3));
    assert_eq!(glyph_index(&ids, 5), None);
    assert_eq!(glyph_index(&vec![], 5), None);
}

#[test]
fn sprite_copy_keeps_size_and_pixels() {
    let original = Sprite { bmp_width: 2, bmp_height: 1, bmp: vec![1, 2, 3, 4, 5, 6, 7, 8] };
    let copy = original.duplicate();
    assert_eq!(copy.bmp_width, 2);
    assert_eq!(copy.bmp_height, 1);
    assert_eq!(copy.bmp, vec![1, 2, 3, 4, 5, 6, 7, 8]);
}

#[test]
fn copy_image_writes_the_sprite_and_nothing_else() {
    // A 4 x 3 image, everything 9, and a 2 x 2 sprite copied to (1, 1).
    let mut image = vec![9u8; 4 * 4 * 3];
    let bmp: Vec<u8> = (1..=16).collect();
    let s = Sprite { bmp_width: 2, bmp_height: 2, bmp };
    witness_gate::atlas::copy_image(&s, 1, 1, &mut image, 4);
    let mut expected = vec![9u8; 48];
    // row 1, columns 1 and 2
    expected[20..28].copy_from_slice(&[1, 2, 3, 4, 5, 6, 7, 8]);
    // row 2, columns 1 and 2
    expected[36..44].copy_from_slice(&[9, 10, 11, 12, 13, 14, 15, 16]);
    assert_eq!(image, expected);
}

#[test]
fn copy_image_of_an_empty_sprite_changes_nothing() {
    let mut image = vec![3u8; 4 * 2 * 2];
    let s = Sprite { bmp_width: 0, bmp_height: 0, bmp: vec![] };
    witness_gate::atlas::copy_image(&s, 1, 1, &mut image, 2);
    assert_eq!(image, vec![3u8; 16]);
}

#[test]
fn render_of_an_empty_atlas_is_one_white_pixel() {
    let atlas = Atlas::new();
    let image = atlas.render();
    assert_eq!(image.len(), 4 * 2 * 4);
    assert_eq!(&image[0..4], &[255, 255, 255, 255]);
    assert!(image[4..].iter().all(|b| *b == 0));
}

#[test]
fn render_draws_each_sprite_at_its_place() {
    let mut atlas = Atlas::new();
    atlas.push(&vec![glyph(1, 1, 2, 7), glyph(2, 2, 1, 8)]);
    assert_eq!(atlas.width, 9);
    assert_eq!(atlas.height, 6);
    let image = atlas.render();
    assert_eq!(image.len(), 4 * 9 * 6);
    for row in 0..6usize {
        for col in 0..9usize {
            let at = 4 * (row * 9 + col);
            let expected: u8 = if row == 0 && col == 0 {
                255
            } else if col == 2 && (row == 2 || row == 3) {
                7
            } else if (col == 5 || col == 6) && row == 2 {
                8
            } else {
                0
            };
            assert_eq!(&image[at..at + 4], &[expected; 4]);
        }
    }
}

#[test]
fn blank_image_is_all_zero() {
    assert_eq!(witness_gate::atlas::blank_image(0), Vec::<u8>::new());
    assert_eq!(witness_gate::atlas::blank_image(5), vec![0u8; 5]);
}

#[test]
fn each_sprite_has_its_rectangle() {
    let mut atlas = Atlas::new();
    assert!(atlas.compute_uvs().is_empty());
    atlas.push(&vec![glyph(10, 3, 5, 1), glyph(11, 4, 2, 2)]);
    assert_eq!(
        atlas.compute_uvs(),
        vec![PixelRect { x: 2, y: 2, w: 3, h: 5 }, PixelRect { x: 7, y: 2, w: 4, h: 2 }]
    );
}

#[test]
fn copy_image_into_an_image_without_width_changes_nothing() {
    let mut image = vec![5u8; 12];
    let s = Sprite { bmp_width: 0, bmp_height: 3, bmp: vec![] };
    witness_gate::atlas::copy_image(&s, 0, 0, &mut image, 0);
    assert_eq!(image, vec![5u8; 12]);
    let flat = Sprite { bmp_width: 2, bmp_height: 0, bmp: vec![] };
    witness_gate::atlas::copy_image(&flat, 0, 1, &mut image, 3);
    assert_eq!(image, vec![5u8; 12]);
}

#[test]
fn can_push_tells_whether_the_line_fits() {
    let mut atlas = Atlas::new();
    assert!(atlas.can_push(&vec![]));
    assert!(atlas.can_push(&vec![glyph(1, 3, 5, 1), glyph(2, 4, 2, 2)]));
    let wide = Glyph {
        glyph_id: 7,
        sprite: Sprite { bmp_width: usize::MAX - 4, bmp_height: 1, bmp: vec![] },
    };
    // 2 + (MAX - 4) + 2 fits exactly.
    assert!(atlas.can_push(&vec![wide.clone()]));
    // One more glyph of any width does not.
    assert!(!atlas.can_push(&vec![wide.clone(), glyph(8, 0, 0, 0)]));
    // The same glyph twice counts once.
    assert!(atlas.can_push(&vec![wide.clone(), wide.clone()]));
    let high = Glyph {
        glyph_id: 9,
        sprite: Sprite { bmp_width: 1, bmp_height: usize::MAX - 3, bmp: vec![] },
    };
    assert!(!atlas.can_push(&vec![high.clone()]));
    atlas.push(&vec![glyph(9, 1, 1, 0)]);
    // Already there under this id: nothing would be added.
    assert!(atlas.can_push(&vec![high]));
}

#[test]
fn an_empty_atlas_has_no_texture() {
    assert_eq!(Atlas::new().texture_request(), Err(AtlasError::AtlasIsEmpty));
}

#[test]
fn texture_request_gives_size_and_image() {
    let mut atlas = Atlas::new();
    atlas.push(&vec![glyph(1, 1, 2, 7), glyph(2, 2, 1, 8)]);
    let (width, height, image) = atlas.texture_request().unwrap();
    assert_eq!(width, 9);
    assert_eq!(height, 6);
    assert_eq!(image, atlas.render());
    assert_eq!(image.len(), 4 * 9 * 6);
    assert_eq!(&image[4 * (2 * 9 + 2)..4 * (2 * 9 + 3)], &[7, 7, 7, 7]);
}

#[test]
fn texture_size_is_cut_to_sixteen_bits() {
    let mut atlas = Atlas::new();
    // 2 + 65534 + 2 = 65538, which is 2 in 16 bits.
    atlas.push(&vec![Glyph { glyph_id: 1, sprite: sprite(65534, 1, 3) }]);
    assert_eq!(atlas.width, 65538);
    let (width, height, image) = atlas.texture_request().unwrap();
    assert_eq!(width, 2);
    assert_eq!(height, 5);
    assert_eq!(image.len(), 4 * 65538 * 5);
}
