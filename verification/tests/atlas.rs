//! Concrete checks of the atlas texel model.

use glyph_pipeline::cache::{Cache, Region};

#[test]
fn new_atlas_is_zeroed() {
    let c = Cache::new(8, 4);
    for y in 0..4 {
        for x in 0..8 {
            assert_eq!(c.texel(x, y), 0);
        }
    }
}

#[test]
fn update_places_rows_inside_the_rectangle() {
    let mut c = Cache::new(8, 8);
    let rect = Region {
        min_x: 2,
        min_y: 3,
        max_x: 5,
        max_y: 5,
    };
    // 3 wide, 2 high, row-major.
    let data = vec![10, 11, 12, 20, 21, 22];
    c.update(rect, &data);
    assert_eq!(c.texel(2, 3), 10);
    assert_eq!(c.texel(3, 3), 11);
    assert_eq!(c.texel(4, 3), 12);
    assert_eq!(c.texel(2, 4), 20);
    assert_eq!(c.texel(3, 4), 21);
    assert_eq!(c.texel(4, 4), 22);
}

#[test]
fn update_leaves_everything_outside_untouched() {
    let mut c = Cache::new(8, 8);
    let all = Region {
        min_x: 0,
        min_y: 0,
        max_x: 8,
        max_y: 8,
    };
    c.update(all, &vec![7u8; 64]);
    let rect = Region {
        min_x: 1,
        min_y: 1,
        max_x: 3,
        max_y: 2,
    };
    c.update(rect, &vec![9u8, 9u8]);
    for y in 0..8u32 {
        for x in 0..8u32 {
            let inside = (1..3).contains(&x) && y == 1;
            assert_eq!(c.texel(x, y), if inside { 9 } else { 7 });
        }
    }
}

#[test]
fn second_update_overwrites_overlap_only() {
    let mut c = Cache::new(4, 4);
    c.update(
        Region {
            min_x: 0,
            min_y: 0,
            max_x: 2,
            max_y: 2,
        },
        &vec![1, 1, 1, 1],
    );
    c.update(
        Region {
            min_x: 1,
            min_y: 1,
            max_x: 3,
            max_y: 3,
        },
        &vec![2, 2, 2, 2],
    );
    assert_eq!(c.texel(0, 0), 1);
    assert_eq!(c.texel(1, 0), 1);
    assert_eq!(c.texel(0, 1), 1);
    assert_eq!(c.texel(1, 1), 2);
    assert_eq!(c.texel(2, 2), 2);
    assert_eq!(c.texel(2, 0), 0);
    assert_eq!(c.texel(3, 3), 0);
}

#[test]
fn region_extent_helpers() {
    let r = Region {
        min_x: 2,
        min_y: 5,
        max_x: 7,
        max_y: 6,
    };
    assert_eq!(r.width(), 5);
    assert_eq!(r.height(), 1);
}
