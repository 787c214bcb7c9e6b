use scrollviews::{
    get_dynamic_render_range, get_fixed_start_offset, get_render_range, px, to_pixels, SUBPIXELS,
};

const PX: f32 = 16_777_216.0;

/// The range in single precision, for lengths of whole steps.
fn float_range(viewport: i64, scroll: i64, item: i64, length: usize) -> (usize, usize) {
    let viewport = viewport as f32 / PX;
    let scroll = scroll as f32 / PX;
    let item = item as f32 / PX;
    let length = length as f32;
    let start = (-scroll) / item;
    let shown = (viewport / item) + 1.0;
    let remaining = length - start;
    let end = if remaining <= shown { length } else { start + shown };
    (start as usize, end as usize)
}

fn sums(sizes: &[i64]) -> Vec<i128> {
    let mut starts = vec![0i128];
    for size in sizes {
        let last = starts[starts.len() - 1];
        starts.push(last + *size as i128);
    }
    starts
}

#[test]
fn pixels_convert_both_ways() {
    assert_eq!(px(3), 3 * SUBPIXELS);
    assert_eq!(px(-3), -3 * SUBPIXELS);
    assert_eq!(to_pixels(px(25) as i128), 25);
    assert_eq!(to_pixels(px(25) as i128 + 1), 25);
    assert_eq!(to_pixels(-(px(25) as i128) - 1), -25);
    assert_eq!(to_pixels(-1), 0);
    assert_eq!(to_pixels(i128::MAX), i32::MAX);
    assert_eq!(to_pixels(i128::MIN), i32::MIN);
}

#[test]
fn fixed_range_of_a_long_list() {
    assert_eq!(get_render_range(px(100), 0, px(25), 300), 0..5);
    assert_eq!(get_render_range(px(100), px(-50), px(25), 300), 2..7);
    assert_eq!(get_render_range(px(100), px(-60), px(25), 300), 2..7);
    assert_eq!(get_render_range(px(110), px(-60), px(25), 300), 2..7);
    assert_eq!(get_render_range(px(115), px(-60), px(25), 300), 2..8);
}

#[test]
fn fixed_range_stops_with_the_list() {
    assert_eq!(get_render_range(px(100), px(-7400), px(25), 300), 296..300);
    assert_eq!(get_render_range(px(100), 0, px(25), 3), 0..3);
    assert_eq!(get_render_range(px(100), 0, px(25), 0), 0..0);
    assert_eq!(get_render_range(px(100), 0, px(25), 5), 0..5);
    assert_eq!(get_render_range(px(100), 0, px(25), 6), 0..5);
}

#[test]
fn fixed_range_of_items_without_size() {
    assert_eq!(get_render_range(px(100), 0, 0, 300), 0..0);
    assert_eq!(get_render_range(0, 0, 0, 0), 0..0);
    assert_eq!(get_render_range(px(100), px(-10), 0, 300), usize::MAX..300);
    assert_eq!(get_render_range(0, px(-10), 0, 300), usize::MAX..0);
    assert_eq!(get_render_range(px(100), px(10), 0, 300), 0..300);
    assert_eq!(get_render_range(0, px(10), 0, 300), 0..0);
    assert_eq!(get_fixed_start_offset(px(-10), 0), None);
}

#[test]
fn fixed_range_agrees_with_single_precision() {
    let items = [px(25), px(8), px(1), px(10) + SUBPIXELS / 2, px(-25), 0, px(40) + SUBPIXELS / 4];
    let scrolls = [0, px(-1), px(-24), px(-25), px(-26), px(-1000), px(13), px(200)];
    let viewports = [0, px(1), px(100), px(250), px(-3)];
    let lengths = [0usize, 1, 2, 5, 41, 300];
    for item in items {
        for scroll in scrolls {
            for viewport in viewports {
                for length in lengths {
                    let range = get_render_range(viewport, scroll, item, length);
                    let expected = float_range(viewport, scroll, item, length);
                    assert_eq!((range.start, range.end), expected);
                }
            }
        }
    }
}

#[test]
fn fixed_start_is_where_the_first_item_starts() {
    assert_eq!(get_fixed_start_offset(0, px(25)), Some(0));
    assert_eq!(get_fixed_start_offset(px(-60), px(25)), Some(px(50) as i128));
    assert_eq!(get_fixed_start_offset(px(-75), px(25)), Some(px(75) as i128));
    assert_eq!(get_fixed_start_offset(px(1), px(25)), Some(px(-25) as i128));
    assert_eq!(get_fixed_start_offset(px(-60), px(-25)), Some(px(75) as i128));
}

#[test]
fn fixed_count_does_not_grow_with_the_list() {
    for length in [10usize, 1000, 1_000_000] {
        let range = get_render_range(px(100), px(-60), px(25), length);
        assert!(range.end - range.start <= 6);
    }
}

#[test]
fn dynamic_range_of_no_items() {
    let visible = get_dynamic_render_range(px(100), px(-50), &[]);
    assert_eq!(visible.range, 0..0);
    assert_eq!(visible.start_offset, 0);
}

#[test]
fn dynamic_range_starts_with_the_item_at_the_offset() {
    let sizes = [px(10), px(30), px(20), px(40), px(50), px(60)];
    let visible = get_dynamic_render_range(px(50), px(-15), &sizes);
    assert_eq!(visible.range, 1..5);
    assert_eq!(visible.start_offset, px(10) as i128);
    let visible = get_dynamic_render_range(px(50), px(-10), &sizes);
    assert_eq!(visible.range, 1..4);
    assert_eq!(visible.start_offset, px(10) as i128);
    let visible = get_dynamic_render_range(px(50), px(-9), &sizes);
    assert_eq!(visible.range, 0..4);
    assert_eq!(visible.start_offset, 0);
}

#[test]
fn dynamic_range_ends_with_the_list() {
    let sizes = [px(10), px(30), px(20)];
    assert_eq!(get_dynamic_render_range(px(500), 0, &sizes).range, 0..3);
    let beyond = get_dynamic_render_range(px(50), px(-900), &sizes);
    assert_eq!(beyond.range, 2..3);
    assert_eq!(beyond.start_offset, px(40) as i128);
    let before = get_dynamic_render_range(px(10), px(70), &sizes);
    assert_eq!(before.range, 0..2);
    assert_eq!(before.start_offset, 0);
}

#[test]
fn dynamic_range_skips_items_without_size() {
    let sizes = [0, 0, px(10), 0, px(10)];
    let visible = get_dynamic_render_range(px(5), 0, &sizes);
    assert_eq!(visible.range, 2..4);
    assert_eq!(visible.start_offset, 0);
}

#[test]
fn dynamic_range_covers_the_viewport() {
    let sizes: Vec<i64> = (0..60).map(|i| px(5 + (i * 37) % 41)).collect();
    let starts = sums(&sizes);
    for offset in 0..1300 {
        let visible = get_dynamic_render_range(px(200), px(-offset), &sizes);
        let from = px(offset) as i128;
        let to = from + px(200) as i128;
        assert_eq!(visible.start_offset, starts[visible.range.start]);
        assert!(visible.range.start < visible.range.end);
        for item in 0..sizes.len() {
            if starts[item] < to && from < starts[item + 1] {
                assert!(visible.range.contains(&item));
            }
        }
    }
}

#[test]
fn dynamic_range_mirrors_fixed_range() {
    let sizes = vec![px(25); 40];
    for offset in 0..999 {
        let fixed = get_render_range(px(110), px(-offset), px(25), 40);
        let dynamic = get_dynamic_render_range(px(110), px(-offset), &sizes).range;
        assert_eq!(fixed.start, dynamic.start);
        assert!(fixed.end <= dynamic.end && dynamic.end <= fixed.end + 1);
        if (offset + 110) % 25 == 0 {
            assert_eq!(fixed.end, dynamic.end);
        }
    }
}
