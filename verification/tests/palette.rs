use collider_render::palette::{ground_color, palette_color, Rgb, PALETTE_LEN};

#[test]
fn ground_is_sand() {
    assert_eq!(ground_color(), Rgb { r: 0xF3, g: 0xD9, b: 0xB1 });
    assert_eq!(ground_color(), Rgb { r: 243, g: 217, b: 177 });
}

#[test]
fn palette_has_three_entries() {
    assert_eq!(PALETTE_LEN, 3);
    assert_eq!(palette_color(0), Rgb { r: 0x98, g: 0xC1, b: 0xD9 });
    assert_eq!(palette_color(1), Rgb { r: 0x05, g: 0x3C, b: 0x5E });
    assert_eq!(palette_color(2), Rgb { r: 0x1F, g: 0x7A, b: 0x8C });
}

#[test]
fn palette_wraps_around() {
    for slot in 0..30usize {
        assert_eq!(palette_color(slot + 3), palette_color(slot));
    }
    assert_eq!(palette_color(3), Rgb { r: 0x98, g: 0xC1, b: 0xD9 });
    assert_eq!(palette_color(4), Rgb { r: 0x05, g: 0x3C, b: 0x5E });
    assert_eq!(palette_color(usize::MAX), palette_color(usize::MAX % 3));
}

#[test]
fn palette_entries_differ_from_ground() {
    for slot in 0..3usize {
        assert_ne!(palette_color(slot), ground_color());
    }
}
