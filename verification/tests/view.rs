use scrollviews::item_sizes::MEASURE_TOLERANCE;
use scrollviews::{
    px, Axis, CursorPoint, Direction, Gestures, ItemSize, ItemSizes, Key, Layout, ScrollController, Size,
    VirtualScrollView, SUBPIXELS,
};

fn row(index: usize, _: &()) -> String {
    format!("Item {index}")
}

fn sized_list(length: usize) -> (VirtualScrollView<(), fn(usize, &()) -> String>, ItemSizes) {
    let builder: fn(usize, &()) -> String = row;
    let view = VirtualScrollView::new(builder)
        .length(length)
        .item_size(ItemSize::Dynamic { estimate: px(25) });
    let mut sizes = ItemSizes::new();
    sizes.sync(view.item_size, view.length);
    (view, sizes)
}

fn running_momentum() -> Gestures {
    let at = |y: i32| CursorPoint { x: 0, y: px(y) };
    let mut gestures = Gestures::new();
    gestures.pointer_down(true, at(100));
    gestures.pointer_move_at(true, at(90), at(0), at(0), at(0), 0);
    gestures.pointer_move_at(true, at(50), at(0), at(0), at(0), 10_000_000);
    assert!(gestures.pointer_press(true).fling.is_some());
    gestures
}

#[test]
fn sizes_follow_the_length_of_the_list() {
    let mut sizes = ItemSizes::new();
    sizes.sync(ItemSize::Dynamic { estimate: px(25) }, 3);
    assert_eq!(sizes.as_slice(), &[px(25); 3]);
    assert_eq!(sizes.total(), px(75) as i128);
    assert_eq!(sizes.measure(1, px(40)), Some(px(15) as i128));
    sizes.sync(ItemSize::Dynamic { estimate: px(10) }, 5);
    assert_eq!(sizes.as_slice(), &[px(25), px(40), px(25), px(10), px(10)]);
    assert_eq!(sizes.total(), px(110) as i128);
    sizes.sync(ItemSize::Dynamic { estimate: px(10) }, 2);
    assert_eq!(sizes.as_slice(), &[px(25), px(40)]);
    assert_eq!(sizes.total(), px(65) as i128);
    sizes.sync(ItemSize::Dynamic { estimate: px(99) }, 2);
    assert_eq!(sizes.total(), px(65) as i128);
    sizes.sync(ItemSize::Fixed(px(1)), 9);
    assert_eq!(sizes.as_slice(), &[px(25), px(40)]);
}

#[test]
fn only_news_is_measured() {
    let mut sizes = ItemSizes::new();
    sizes.sync(ItemSize::Dynamic { estimate: px(25) }, 2);
    assert_eq!(MEASURE_TOLERANCE, SUBPIXELS / 2);
    assert_eq!(sizes.measure(0, px(25) + MEASURE_TOLERANCE - 1), None);
    assert_eq!(sizes.measure(0, px(25) - MEASURE_TOLERANCE + 1), None);
    assert_eq!(sizes.measure(0, 0), None);
    assert_eq!(sizes.measure(0, -1), None);
    assert_eq!(sizes.measure(2, px(90)), None);
    assert_eq!(sizes.total(), px(50) as i128);
    assert_eq!(sizes.measure(0, px(25) + MEASURE_TOLERANCE), Some(MEASURE_TOLERANCE as i128));
    assert_eq!(sizes.measure(0, px(25) + MEASURE_TOLERANCE), None);
    assert_eq!(sizes.measure(1, px(5)), Some(px(-20) as i128));
    assert_eq!(sizes.total(), (px(30) + MEASURE_TOLERANCE) as i128);
}

#[test]
fn new_view_has_its_defaults() {
    let view = VirtualScrollView::new(row);
    assert_eq!(view.item_size, ItemSize::Fixed(0));
    assert_eq!(view.length, 0);
    let layout = Layout {
        width: Size::Fill,
        height: Size::Fill,
        maximum_width: Size::Inner,
        maximum_height: Size::Inner,
        direction: Direction::Vertical,
        other: 0,
    };
    assert_eq!(view.layout, layout);
    assert!(view.show_scrollbar && view.scroll_with_arrows && view.drag_scrolling);
    assert!(!view.invert_scroll_wheel);
    assert_eq!(view.scroll_controller, None);
    assert_eq!(view.key, None);
    let controller = ScrollController { handle: 7 };
    assert_eq!(VirtualScrollView::new_controlled(row, controller).scroll_controller, Some(controller));
    let view = VirtualScrollView::new_with_data(5u8, 0u8);
    assert_eq!((view.builder_data, view.builder, view.scroll_controller), (5, 0, None));
    let view = VirtualScrollView::new_with_data_controlled(5u8, 0u8, controller);
    assert_eq!((view.builder_data, view.scroll_controller), (5, Some(controller)));
}

#[test]
fn settings_are_set_one_by_one() {
    let controller = ScrollController { handle: 3 };
    let mut view = VirtualScrollView::new(row)
        .show_scrollbar(false)
        .direction(Direction::Horizontal)
        .scroll_with_arrows(false)
        .item_size(ItemSize::from(px(25)))
        .length(300usize)
        .invert_scroll_wheel(true)
        .drag_scrolling(false)
        .scroll_controller(Some(controller))
        .max_width(Size::Pixels(px(90)))
        .max_height(Size::Custom(4));
    view.get_layout().width = Size::Inner;
    *view.write_key() = Some(11);
    assert!(!view.show_scrollbar && !view.scroll_with_arrows && !view.drag_scrolling);
    assert!(view.invert_scroll_wheel);
    assert_eq!(view.item_size, ItemSize::Fixed(px(25)));
    assert_eq!(view.length, 300);
    assert_eq!(view.scroll_controller, Some(controller));
    assert_eq!(view.key, Some(11));
    let layout = Layout {
        width: Size::Inner,
        height: Size::Fill,
        maximum_width: Size::Pixels(px(90)),
        maximum_height: Size::Custom(4),
        direction: Direction::Horizontal,
        other: 0,
    };
    assert_eq!(view.layout, layout);
}

#[test]
fn settings_take_what_stands_for_them() {
    let controller = ScrollController { handle: 9 };
    let view = VirtualScrollView::new(row).item_size(px(25)).length(7u8).scroll_controller(controller);
    assert_eq!(view.item_size, ItemSize::Fixed(px(25)));
    assert_eq!(view.length, 7);
    assert_eq!(view.scroll_controller, Some(controller));
    let view = view.item_size(ItemSize::Dynamic { estimate: px(5) }).length(300u16);
    assert_eq!(view.item_size, ItemSize::Dynamic { estimate: px(5) });
    assert_eq!(view.length, 300);
    assert_eq!(view.scroll_controller(None).scroll_controller, None);
    assert_eq!(VirtualScrollView::new(row).length(true).length, 1);
    assert_eq!(VirtualScrollView::new(row).length(false).length, 0);
}

#[test]
fn view_is_rendered_under_its_own_key() {
    let mut view = VirtualScrollView::new(row);
    assert_eq!(view.render_key(8), 8);
    *view.write_key() = Some(11);
    assert_eq!(view.render_key(8), 11);
    let copy = view.clone();
    assert_eq!(copy.key, Some(11));
    assert!(copy == view);
}

#[test]
fn views_are_compared_by_what_they_render() {
    let view = || VirtualScrollView::new_with_data(vec![1, 2], 'a');
    assert!(view() == view());
    assert!(view() == VirtualScrollView::new_with_data(vec![1, 2], 'b'));
    assert!(view() == view().drag_scrolling(false));
    let mut keyed = view();
    *keyed.write_key() = Some(1);
    assert!(view() == keyed);
    assert!(view() != VirtualScrollView::new_with_data(vec![1, 3], 'a'));
    assert!(view() == view().max_width(Size::Inner).max_height(Size::Inner));
    assert!(view() != view().max_width(Size::Fill));
    let mut aligned = view();
    aligned.get_layout().other = 1;
    assert!(view() != aligned);
    assert!(view() != view().length(1usize));
    assert!(view() != view().item_size(ItemSize::Fixed(1)));
    assert!(view() != view().item_size(ItemSize::Dynamic { estimate: 0 }));
    assert!(view() != view().direction(Direction::Horizontal));
    assert!(view() != view().show_scrollbar(false));
    assert!(view() != view().scroll_with_arrows(false));
    assert!(view() != view().invert_scroll_wheel(true));
    assert!(view() != view().scroll_controller(Some(ScrollController { handle: 0 })));
}

#[test]
fn content_size_runs_along_the_direction() {
    let sizes = ItemSizes::new();
    let view = VirtualScrollView::new(row).length(300usize).item_size(ItemSize::Fixed(px(25)));
    assert_eq!(view.inner_sizes(&sizes, px(90), px(80)), (px(90) as i128, px(7500) as i128));
    let view = view.direction(Direction::Horizontal);
    assert_eq!(view.inner_sizes(&sizes, px(90), px(80)), (px(7500) as i128, px(80) as i128));
    let (view, mut sizes) = sized_list(4);
    sizes.measure(2, px(60));
    assert_eq!(view.inner_sizes(&sizes, px(90), px(80)), (px(90) as i128, px(135) as i128));
    let widest = VirtualScrollView::new(row).length(usize::MAX).item_size(ItemSize::Fixed(i64::MIN));
    let expected = i64::MIN as i128 * usize::MAX as i128;
    assert_eq!(widest.inner_sizes(&sizes, 0, 0).1, expected);
}

#[test]
fn plan_of_equal_items() {
    let sizes = ItemSizes::new();
    let view = VirtualScrollView::new(row).length(300usize).item_size(ItemSize::Fixed(px(25)));
    let scrolled = CursorPoint { x: px(-3), y: px(-60) };
    let plan = view.render_plan(&sizes, px(500), px(100), scrolled);
    assert_eq!(plan.range, 2..7);
    assert_eq!(plan.start_offset, Some(px(50) as i128));
    assert_eq!(plan.offset_x, Some(px(-3) as i128));
    assert_eq!(plan.offset_y, Some(px(-10) as i128));
    let plan = view.direction(Direction::Horizontal).render_plan(&sizes, px(500), px(100), scrolled);
    assert_eq!(plan.range, 0..21);
    assert_eq!(plan.offset_x, Some(px(-3) as i128));
    assert_eq!(plan.offset_y, Some(px(-60) as i128));
}

#[test]
fn plan_of_items_without_size_shows_none() {
    let sizes = ItemSizes::new();
    let view = VirtualScrollView::new(row).length(300usize);
    let plan = view.render_plan(&sizes, px(500), px(100), CursorPoint { x: 0, y: 0 });
    assert_eq!(plan.range, 0..0);
    assert_eq!((plan.start_offset, plan.offset_y), (None, None));
    assert_eq!(plan.offset_x, Some(0));
}

#[test]
fn plan_of_sized_items() {
    let (view, mut sizes) = sized_list(10);
    sizes.measure(0, px(100));
    let plan = view.render_plan(&sizes, px(500), px(50), CursorPoint { x: 0, y: px(-110) });
    assert_eq!(plan.range, 1..5);
    assert_eq!(plan.start_offset, Some(px(100) as i128));
    assert_eq!(plan.offset_y, Some(px(-10) as i128));
}

#[test]
fn only_the_range_is_built() {
    let view = VirtualScrollView::new(row).length(300usize);
    assert_eq!(view.build_items(2..5), vec!["Item 2", "Item 3", "Item 4"]);
    assert_eq!(view.build_items(5..2), Vec::<String>::new());
    let rows = VirtualScrollView::new_with_data(vec![4, 5, 6], |i: usize, rows: &Vec<i32>| rows[i]);
    assert_eq!(rows.build_items(1..3), vec![5, 6]);
}

#[test]
fn arrows_scroll_only_where_wanted() {
    let view = VirtualScrollView::new(row);
    let arrows = [Key::ArrowUp, Key::ArrowRight, Key::ArrowDown, Key::ArrowLeft];
    for key in arrows {
        assert!(view.accepts_key(key));
    }
    let view = view.scroll_with_arrows(false);
    for key in arrows {
        assert!(!view.accepts_key(key));
    }
    assert!(view.accepts_key(Key::Other));
    assert!(view.accepts_key(Key::Shift));
}

#[test]
fn measured_items_are_boxed_along_the_direction() {
    let view = VirtualScrollView::new(row);
    assert_eq!(view.item_box(), (Size::Fill, Size::Inner));
    assert_eq!(view.direction(Direction::Horizontal).item_box(), (Size::Inner, Size::Fill));
}

#[test]
fn growth_of_scrolled_past_item_moves_the_content_along() {
    let (view, mut sizes) = sized_list(10);
    let mut gestures = Gestures::new();
    let outcome = view.item_sized(&mut sizes, &mut gestures, 1, px(300), px(40), 0, -200, 5);
    assert_eq!(outcome.scroll_to, Some((Axis::Y, -215)));
    assert!(!outcome.cancel_momentum);
    assert_eq!(sizes.as_slice()[1], px(40));
    let outcome = view.item_sized(&mut sizes, &mut gestures, 5, 0, px(10), 0, -215, 5);
    assert_eq!(outcome.scroll_to, Some((Axis::Y, -200)));
    assert_eq!(sizes.total(), px(250) as i128);
}

#[test]
fn growth_of_visible_item_moves_nothing() {
    let (view, mut sizes) = sized_list(10);
    let mut gestures = Gestures::new();
    assert_eq!(view.item_sized(&mut sizes, &mut gestures, 6, 0, px(40), 0, -200, 5).scroll_to, None);
    assert_eq!(view.item_sized(&mut sizes, &mut gestures, 0, 0, px(40), -9, 0, 0).scroll_to, None);
    assert_eq!(sizes.total(), px(280) as i128);
}

#[test]
fn unusable_measurements_change_nothing() {
    let (view, mut sizes) = sized_list(3);
    let mut gestures = Gestures::new();
    assert_eq!(view.item_sized(&mut sizes, &mut gestures, 0, px(9), 0, 0, -50, 2).scroll_to, None);
    assert_eq!(view.item_sized(&mut sizes, &mut gestures, 3, 0, px(9), 0, -50, 5).scroll_to, None);
    assert_eq!(view.item_sized(&mut sizes, &mut gestures, 0, 0, px(25), 0, -50, 2).scroll_to, None);
    assert_eq!(sizes.total(), px(75) as i128);
    let fixed = view.item_size(ItemSize::Fixed(px(25)));
    assert_eq!(fixed.item_sized(&mut sizes, &mut gestures, 0, 0, px(90), 0, -50, 2).scroll_to, None);
    assert_eq!(sizes.total(), px(75) as i128);
}

#[test]
fn horizontal_items_are_measured_by_width() {
    let (view, mut sizes) = sized_list(10);
    let view = view.direction(Direction::Horizontal);
    let mut gestures = Gestures::new();
    let outcome = view.item_sized(&mut sizes, &mut gestures, 0, px(45), px(300), -60, 0, 1);
    assert_eq!(outcome.scroll_to, Some((Axis::X, -80)));
    assert_eq!(sizes.as_slice()[0], px(45));
}

#[test]
fn correction_drops_fractions_of_a_pixel() {
    let (view, mut sizes) = sized_list(10);
    let mut gestures = Gestures::new();
    let height = px(40) + SUBPIXELS / 4 * 3;
    let outcome = view.item_sized(&mut sizes, &mut gestures, 0, 0, height, 0, -100, 4);
    assert_eq!(outcome.scroll_to, Some((Axis::Y, -115)));
}

#[test]
fn correction_stops_momentum() {
    let (view, mut sizes) = sized_list(10);
    let mut gestures = running_momentum();
    let outcome = view.item_sized(&mut sizes, &mut gestures, 8, 0, px(40), 0, -100, 4);
    assert!(!outcome.cancel_momentum);
    assert!(gestures.is_scrolling().0);
    let outcome = view.item_sized(&mut sizes, &mut gestures, 0, 0, px(40), 0, -100, 4);
    assert!(outcome.cancel_momentum);
    assert!(!gestures.is_momentum_running());
    assert!(!gestures.is_scrolling().0);
}
