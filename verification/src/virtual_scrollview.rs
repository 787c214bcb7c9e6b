//! The virtual scroll view: its settings, what it renders of its items, and how
//! it takes in the sizes at which they were laid out.
use crate::geometry::{
    law_whole_pixels_reach_the_length, lemma_trunc_div_error, magnitude, to_pixels, trunc_div,
    whole_pixels, Axis, CursorPoint, Direction, Size, SUBPIXELS,
};
use crate::gestures::{Gestures, Key};
use crate::item_sizes::{
    lemma_item_start_update, measurement_counts, synced, total_size, ItemSize, ItemSizes,
};
use crate::render_range::{
    fixed_range_end, fixed_range_start, fixed_start, get_dynamic_render_range,
    get_fixed_start_offset, get_render_range, is_dynamic_range, item_start,
    law_dynamic_range_covers_viewport, law_dynamic_range_is_exact,
    law_fixed_range_covers_viewport, law_fixed_range_is_exact, law_fixed_start_is_exact,
    law_fixed_start_is_item_at_offset, lemma_item_start_fits, sizes_non_negative, VisibleRange,
};
use crate::setting::Setting;
use std::ops::Range;
use vstd::prelude::*;
use vstd::std_specs::cmp::PartialEqSpec;

verus! {

/// A controller that drives the position of a scroll view, by the number it is
/// kept under.
#[derive(Clone, Copy, Debug, PartialEq, Eq, Structural)]
pub struct ScrollController {
    pub handle: u64,
}

impl Setting<Option<ScrollController>> for Option<ScrollController> {
    open spec fn setting(self) -> Option<ScrollController> {
        self
    }

    fn into_setting(self) -> (value: Option<ScrollController>) {
        self
    }
}

impl Setting<Option<ScrollController>> for ScrollController {
    open spec fn setting(self) -> Option<ScrollController> {
        Some(self)
    }

    fn into_setting(self) -> (value: Option<ScrollController>) {
        Some(self)
    }
}

/// Layout of a scroll view.
#[derive(Clone, Copy, Debug, PartialEq, Eq, Structural)]
pub struct Layout {
    pub width: Size,
    pub height: Size,
    /// Cap on the width. The default, `Size::Inner`, caps nothing.
    pub maximum_width: Size,
    /// Cap on the height. The default, `Size::Inner`, caps nothing.
    pub maximum_height: Size,
    pub direction: Direction,
    /// The rest of the layout, which the view takes no part in, by the number
    /// the layout engine keeps it under. Zero stands for its defaults.
    pub other: u64,
}

/// One-direction scrollable area that builds and renders only the items that
/// its viewport shows.
///
/// Two things tell which items those are: `item_size`, the size of the items
/// along the scroll axis, and `length`, how many there are.
pub struct VirtualScrollView<D, B> {
    pub builder: B,
    pub builder_data: D,
    pub item_size: ItemSize,
    pub length: usize,
    pub layout: Layout,
    pub show_scrollbar: bool,
    pub scroll_with_arrows: bool,
    pub scroll_controller: Option<ScrollController>,
    pub invert_scroll_wheel: bool,
    pub drag_scrolling: bool,
    pub key: Option<u64>,
}

/// What a scroll view renders, and where.
pub struct RenderPlan {
    /// Items to build.
    pub range: Range<usize>,
    /// Where the first of them starts. `None` where the items have no size to
    /// count by.
    pub start_offset: Option<i128>,
    /// How far the built items are moved along the horizontal axis.
    pub offset_x: Option<i128>,
    /// How far the built items are moved along the vertical axis.
    pub offset_y: Option<i128>,
}

/// What the layout of an item calls for.
pub struct SizedOutcome {
    /// The content is to be scrolled along this axis to this position, in
    /// pixels.
    pub scroll_to: Option<(Axis, i64)>,
    /// The running momentum animation is to be stopped.
    pub cancel_momentum: bool,
}

/// The layout of a new scroll view: it fills the available space.
pub open spec fn filling_layout() -> Layout {
    Layout {
        width: Size::Fill,
        height: Size::Fill,
        maximum_width: Size::Inner,
        maximum_height: Size::Inner,
        direction: Direction::Vertical,
        other: 0,
    }
}

/// A new scroll view: no items, all settings at their defaults.
pub open spec fn new_view<D, B>(
    builder_data: D,
    builder: B,
    scroll_controller: Option<ScrollController>,
) -> VirtualScrollView<D, B> {
    VirtualScrollView {
        builder,
        builder_data,
        item_size: ItemSize::Fixed(0),
        length: 0,
        layout: filling_layout(),
        show_scrollbar: true,
        scroll_with_arrows: true,
        scroll_controller,
        invert_scroll_wheel: false,
        drag_scrolling: true,
        key: None,
    }
}

/// Size of the content along the scroll axis.
pub open spec fn content_size(item_size: ItemSize, length: int, sizes: Seq<i64>) -> int {
    match item_size {
        ItemSize::Fixed(size) => size * length,
        ItemSize::Dynamic { estimate: _ } => total_size(sizes),
    }
}

/// The one of two values that belongs to the axis that items flow along.
pub open spec fn by_direction<T>(direction: Direction, horizontal: T, vertical: T) -> T {
    match direction {
        Direction::Vertical => vertical,
        Direction::Horizontal => horizontal,
    }
}

/// The axis that items flow and scroll along.
pub open spec fn scroll_axis(direction: Direction) -> Axis {
    match direction {
        Direction::Vertical => Axis::Y,
        Direction::Horizontal => Axis::X,
    }
}

/// The items from `start` up to `end` are those to render, and the first of
/// them starts at `start_offset`.
pub open spec fn is_render_range(
    item_size: ItemSize,
    length: int,
    sizes: Seq<i64>,
    viewport_size: int,
    scroll_position: int,
    start: int,
    end: int,
    start_offset: Option<int>,
) -> bool {
    match item_size {
        ItemSize::Fixed(size) => {
            &&& start == fixed_range_start(scroll_position, size as int)
            &&& end == fixed_range_end(viewport_size, scroll_position, size as int, length)
            &&& start_offset == fixed_start(scroll_position, size as int)
        },
        ItemSize::Dynamic { estimate: _ } => {
            &&& start_offset is Some
            &&& is_dynamic_range(
                sizes,
                viewport_size,
                scroll_position,
                start,
                end,
                start_offset->0,
            )
        },
    }
}

/// An offset as a mathematical integer.
pub open spec fn offset_of(offset: Option<i128>) -> Option<int> {
    match offset {
        Some(v) => Some(v as int),
        None => None,
    }
}

/// `offset` moved by `by`.
pub open spec fn moved_offset(offset: Option<int>, by: int) -> Option<int> {
    match offset {
        Some(v) => Some(v + by),
        None => None,
    }
}

/// The change of item `index` moves what is on screen, unless the content is
/// scrolled along: the item lies before the first visible one, or is that one
/// while the content is scrolled at all.
pub open spec fn shifts_visible_content(index: int, first_visible: int, live: int) -> bool {
    index < first_visible || (index == first_visible && live != 0)
}

impl<D: Clone, B: Clone> Clone for VirtualScrollView<D, B> {
    fn clone(&self) -> (view: Self)
        ensures
            cloned(self.builder_data, view.builder_data),
            cloned(self.builder, view.builder),
            view == (VirtualScrollView {
                builder_data: view.builder_data,
                builder: view.builder,
                ..*self
            }),
    {
        VirtualScrollView {
            builder: self.builder.clone(),
            builder_data: self.builder_data.clone(),
            item_size: self.item_size,
            length: self.length,
            layout: self.layout,
            show_scrollbar: self.show_scrollbar,
            scroll_with_arrows: self.scroll_with_arrows,
            scroll_controller: self.scroll_controller,
            invert_scroll_wheel: self.invert_scroll_wheel,
            drag_scrolling: self.drag_scrolling,
            key: self.key,
        }
    }
}

impl<D: PartialEq, B> PartialEq for VirtualScrollView<D, B> {
    /// Views are equal where they render alike. Builders cannot be told apart:
    /// what they build from is part of the comparison as `builder_data`.
    fn eq(&self, other: &Self) -> (equal: bool) {
        self.builder_data == other.builder_data && self.item_size == other.item_size && self.length
            == other.length && self.layout == other.layout && self.show_scrollbar
            == other.show_scrollbar && self.scroll_with_arrows == other.scroll_with_arrows
            && self.scroll_controller == other.scroll_controller && self.invert_scroll_wheel
            == other.invert_scroll_wheel
    }
}

impl<D: PartialEq, B> vstd::std_specs::cmp::PartialEqSpecImpl for VirtualScrollView<D, B> {
    open spec fn obeys_eq_spec() -> bool {
        D::obeys_eq_spec()
    }

    open spec fn eq_spec(&self, other: &Self) -> bool {
        &&& self.builder_data.eq_spec(&other.builder_data)
        &&& self.item_size == other.item_size
        &&& self.length == other.length
        &&& self.layout == other.layout
        &&& self.show_scrollbar == other.show_scrollbar
        &&& self.scroll_with_arrows == other.scroll_with_arrows
        &&& self.scroll_controller == other.scroll_controller
        &&& self.invert_scroll_wheel == other.invert_scroll_wheel
    }
}

impl<B> VirtualScrollView<(), B> {
    /// Creates a virtual scroll view that builds each item on demand from its
    /// index.
    pub fn new(builder: B) -> (view: Self)
        ensures
            view == new_view((), builder, None),
    {
        Self::new_with_data((), builder)
    }

    /// Like `new` but driven by the given controller.
    pub fn new_controlled(builder: B, scroll_controller: ScrollController) -> (view: Self)
        ensures
            view == new_view((), builder, Some(scroll_controller)),
    {
        Self::new_with_data_controlled((), builder, scroll_controller)
    }
}

impl<D, B> VirtualScrollView<D, B> {
    fn with_controller(
        builder_data: D,
        builder: B,
        scroll_controller: Option<ScrollController>,
    ) -> (view: Self)
        ensures
            view == new_view(builder_data, builder, scroll_controller),
    {
        VirtualScrollView {
            builder,
            builder_data,
            item_size: ItemSize::Fixed(0),
            length: 0,
            layout: Layout {
                width: Size::Fill,
                height: Size::Fill,
                maximum_width: Size::Inner,
                maximum_height: Size::Inner,
                direction: Direction::Vertical,
                other: 0,
            },
            show_scrollbar: true,
            scroll_with_arrows: true,
            scroll_controller,
            invert_scroll_wheel: false,
            drag_scrolling: true,
            key: None,
        }
    }

    /// Like `new` but passes shared `builder_data` to every item build.
    ///
    /// Data captured inside the builder takes no part in comparing views.
    /// Passed here it does, so that the visible items are rebuilt when it
    /// changes.
    pub fn new_with_data(builder_data: D, builder: B) -> (view: Self)
        ensures
            view == new_view(builder_data, builder, None),
    {
        Self::with_controller(builder_data, builder, None)
    }

    /// Like `new_with_data` but driven by the given controller.
    pub fn new_with_data_controlled(
        builder_data: D,
        builder: B,
        scroll_controller: ScrollController,
    ) -> (view: Self)
        ensures
            view == new_view(builder_data, builder, Some(scroll_controller)),
    {
        Self::with_controller(builder_data, builder, Some(scroll_controller))
    }

    /// The layout, to be changed in place.
    pub fn get_layout(&mut self) -> (layout: &mut Layout)
        ensures
            *layout == old(self).layout,
            *final(self) == (VirtualScrollView { layout: *final(layout), ..*old(self) }),
    {
        &mut self.layout
    }

    /// The key, to be changed in place.
    pub fn write_key(&mut self) -> (key: &mut Option<u64>)
        ensures
            *key == old(self).key,
            *final(self) == (VirtualScrollView { key: *final(key), ..*old(self) }),
    {
        &mut self.key
    }

    /// The key that the view is rendered under: its own, or `default_key` where
    /// it has none.
    pub fn render_key(&self, default_key: u64) -> (key: u64)
        ensures
            self.key matches Some(own) ==> key == own,
            self.key is None ==> key == default_key,
    {
        match self.key {
            Some(own) => own,
            None => default_key,
        }
    }

    /// Toggles whether the scrollbar is shown when the content overflows.
    pub fn show_scrollbar(self, show_scrollbar: bool) -> (view: Self)
        ensures
            view == (VirtualScrollView { show_scrollbar, ..self }),
    {
        VirtualScrollView { show_scrollbar, ..self }
    }

    /// Sets the axis the items flow and scroll in.
    pub fn direction(self, direction: Direction) -> (view: Self)
        ensures
            view == (VirtualScrollView { layout: Layout { direction, ..self.layout }, ..self }),
    {
        let layout: Layout = Layout { direction, ..self.layout };
        VirtualScrollView { layout, ..self }
    }

    /// Toggles whether the arrow keys scroll the view while it is focused.
    pub fn scroll_with_arrows(self, scroll_with_arrows: impl Setting<bool>) -> (view: Self)
        ensures
            view == (VirtualScrollView {
                scroll_with_arrows: scroll_with_arrows.setting(),
                ..self
            }),
    {
        VirtualScrollView { scroll_with_arrows: scroll_with_arrows.into_setting(), ..self }
    }

    /// Sets the size of the items along the scroll axis, used to decide which
    /// items to render. A length by itself is the size of every item.
    pub fn item_size(self, item_size: impl Setting<ItemSize>) -> (view: Self)
        ensures
            view == (VirtualScrollView { item_size: item_size.setting(), ..self }),
    {
        VirtualScrollView { item_size: item_size.into_setting(), ..self }
    }

    /// Sets the total number of items the view can scroll through.
    pub fn length(self, length: impl Setting<usize>) -> (view: Self)
        ensures
            view == (VirtualScrollView { length: length.setting(), ..self }),
    {
        VirtualScrollView { length: length.into_setting(), ..self }
    }

    /// Inverts the direction of the mouse wheel relative to the content.
    pub fn invert_scroll_wheel(self, invert_scroll_wheel: impl Setting<bool>) -> (view: Self)
        ensures
            view == (VirtualScrollView {
                invert_scroll_wheel: invert_scroll_wheel.setting(),
                ..self
            }),
    {
        VirtualScrollView { invert_scroll_wheel: invert_scroll_wheel.into_setting(), ..self }
    }

    /// Toggles scrolling by dragging the content, useful mainly for touch
    /// input.
    pub fn drag_scrolling(self, drag_scrolling: bool) -> (view: Self)
        ensures
            view == (VirtualScrollView { drag_scrolling, ..self }),
    {
        VirtualScrollView { drag_scrolling, ..self }
    }

    /// Attaches a controller to drive this view externally, or detaches it.
    pub fn scroll_controller(
        self,
        scroll_controller: impl Setting<Option<ScrollController>>,
    ) -> (view: Self)
        ensures
            view == (VirtualScrollView { scroll_controller: scroll_controller.setting(), ..self }),
    {
        VirtualScrollView { scroll_controller: scroll_controller.into_setting(), ..self }
    }

    /// Caps the width of the scroll view.
    pub fn max_width(self, max_width: impl Setting<Size>) -> (view: Self)
        ensures
            view == (VirtualScrollView {
                layout: Layout { maximum_width: max_width.setting(), ..self.layout },
                ..self
            }),
    {
        let layout: Layout = Layout {
            maximum_width: max_width.into_setting(),
            ..self.layout
        };
        VirtualScrollView { layout, ..self }
    }

    /// Caps the height of the scroll view.
    pub fn max_height(self, max_height: impl Setting<Size>) -> (view: Self)
        ensures
            view == (VirtualScrollView {
                layout: Layout { maximum_height: max_height.setting(), ..self.layout },
                ..self
            }),
    {
        let layout: Layout = Layout {
            maximum_height: max_height.into_setting(),
            ..self.layout
        };
        VirtualScrollView { layout, ..self }
    }

    /// Size of the content as `(width, height)`. Across the scroll axis it is
    /// what was measured there, along it the sizes of the items add up to it.
    pub fn inner_sizes(
        &self,
        sizes: &ItemSizes,
        measured_width: i64,
        measured_height: i64,
    ) -> (inner: (i128, i128))
        requires
            sizes.wf(),
        ensures
            inner.0 == by_direction(
                self.layout.direction,
                content_size(self.item_size, self.length as int, sizes@),
                measured_width as int,
            ),
            inner.1 == by_direction(
                self.layout.direction,
                measured_height as int,
                content_size(self.item_size, self.length as int, sizes@),
            ),
    {
        let content: i128 = match self.item_size {
            ItemSize::Fixed(size) => {
                let length: usize = self.length;
                assert(i128::MIN <= size * length <= i128::MAX) by (nonlinear_arith)
                    requires
                        i64::MIN <= size <= i64::MAX,
                        0 <= length < 0x1_0000_0000_0000_0000,
                ;
                size as i128 * length as i128
            },
            ItemSize::Dynamic { estimate: _ } => sizes.total(),
        };
        match self.layout.direction {
            Direction::Vertical => (measured_width as i128, content),
            Direction::Horizontal => (content, measured_height as i128),
        }
    }

    /// What to render in a viewport of `viewport_width` by `viewport_height`
    /// when the content is scrolled to `scrolled`, and where.
    pub fn render_plan(
        &self,
        sizes: &ItemSizes,
        viewport_width: i64,
        viewport_height: i64,
        scrolled: CursorPoint,
    ) -> (plan: RenderPlan)
        ensures
            is_render_range(
                self.item_size,
                self.length as int,
                sizes@,
                by_direction(self.layout.direction, viewport_width as int, viewport_height as int),
                by_direction(self.layout.direction, scrolled.x as int, scrolled.y as int),
                plan.range.start as int,
                plan.range.end as int,
                offset_of(plan.start_offset),
            ),
            offset_of(plan.offset_x) == by_direction(
                self.layout.direction,
                moved_offset(offset_of(plan.start_offset), scrolled.x as int),
                Some(scrolled.x as int),
            ),
            offset_of(plan.offset_y) == by_direction(
                self.layout.direction,
                Some(scrolled.y as int),
                moved_offset(offset_of(plan.start_offset), scrolled.y as int),
            ),
    {
        let (viewport_size, scroll_position): (i64, i64) = match self.layout.direction {
            Direction::Vertical => (viewport_height, scrolled.y),
            Direction::Horizontal => (viewport_width, scrolled.x),
        };
        let (range, start_offset): (Range<usize>, Option<i128>) = match self.item_size {
            ItemSize::Fixed(size) => (
                get_render_range(viewport_size, scroll_position, size, self.length),
                get_fixed_start_offset(scroll_position, size),
            ),
            ItemSize::Dynamic { estimate: _ } => {
                let visible: VisibleRange = get_dynamic_render_range(
                    viewport_size,
                    scroll_position,
                    sizes.as_slice(),
                );
                proof {
                    if sizes@.len() > 0 {
                        lemma_item_start_fits(sizes@, visible.range.start as int);
                    }
                }
                (visible.range, Some(visible.start_offset))
            },
        };
        let offset: Option<i128> = match start_offset {
            Some(start) => Some(scroll_position as i128 + start),
            None => None,
        };
        match self.layout.direction {
            Direction::Vertical => RenderPlan {
                range,
                start_offset,
                offset_x: Some(scrolled.x as i128),
                offset_y: offset,
            },
            Direction::Horizontal => RenderPlan {
                range,
                start_offset,
                offset_x: offset,
                offset_y: Some(scrolled.y as i128),
            },
        }
    }

    /// Size of the box around an item that is laid out to be measured, as
    /// `(width, height)`: it takes the item's size along the scroll axis and
    /// fills the view across.
    pub fn item_box(&self) -> (size: (Size, Size))
        ensures
            size == by_direction(
                self.layout.direction,
                (Size::Inner, Size::Fill),
                (Size::Fill, Size::Inner),
            ),
    {
        match self.layout.direction {
            Direction::Vertical => (Size::Fill, Size::Inner),
            Direction::Horizontal => (Size::Inner, Size::Fill),
        }
    }

    /// Whether the view may scroll by `key`: by any, but by the arrow keys only
    /// where they are meant to scroll.
    pub fn accepts_key(&self, key: Key) -> (accepts: bool)
        ensures
            accepts <==> self.scroll_with_arrows || !(key == Key::ArrowUp || key
                == Key::ArrowRight || key == Key::ArrowDown || key == Key::ArrowLeft),
    {
        self.scroll_with_arrows || !(key == Key::ArrowUp || key == Key::ArrowRight || key
            == Key::ArrowDown || key == Key::ArrowLeft)
    }

    /// Builds the items of `range`, in order. No other item is built.
    pub fn build_items<E>(&self, range: Range<usize>) -> (items: Vec<E>) where
        B: Fn(usize, &D) -> E,

        requires
            forall|i: usize|
                range.start <= i < range.end ==> #[trigger] call_requires(
                    self.builder,
                    (i, &self.builder_data),
                ),
        ensures
            items@.len() == if range.start < range.end {
                range.end - range.start
            } else {
                0
            },
            forall|k: int|
                0 <= k < items@.len() ==> call_ensures(
                    self.builder,
                    ((range.start + k) as usize, &self.builder_data),
                    #[trigger] items@[k],
                ),
    {
        let mut items: Vec<E> = Vec::new();
        let mut index: usize = range.start;
        while index < range.end
            invariant
                range.start <= index,
                range.start < range.end ==> index <= range.end,
                range.start >= range.end ==> index == range.start,
                items@.len() == index - range.start,
                forall|i: usize|
                    range.start <= i < range.end ==> #[trigger] call_requires(
                        self.builder,
                        (i, &self.builder_data),
                    ),
                forall|k: int|
                    0 <= k < items@.len() ==> call_ensures(
                        self.builder,
                        ((range.start + k) as usize, &self.builder_data),
                        #[trigger] items@[k],
                    ),
            decreases range.end - index,
        {
            let item: E = (self.builder)(index, &self.builder_data);
            items.push(item);
            index = index + 1;
        }
        items
    }

    /// The item at `index` was laid out at `width` by `height`, while the
    /// content was at `(live_x, live_y)`, in pixels, and `first_visible` was
    /// the first item rendered.
    ///
    /// Its size is cached where it is news. Where the change would move what
    /// is on screen, the content is to be scrolled along, so that content that
    /// was scrolled past does not make the rest jump. That ends a momentum
    /// animation, whose bounds no longer hold.
    pub fn item_sized(
        &self,
        sizes: &mut ItemSizes,
        gestures: &mut Gestures,
        index: usize,
        width: i64,
        height: i64,
        live_x: i32,
        live_y: i32,
        first_visible: usize,
    ) -> (outcome: SizedOutcome)
        requires
            old(sizes).wf(),
            old(gestures)@.wf(),
        ensures
            final(sizes).wf(),
            final(gestures)@.wf(),
            final(gestures).clock_origin() == old(gestures).clock_origin(),
            ({
                let direction = self.layout.direction;
                let measured: i64 = by_direction(direction, width, height);
                let live = by_direction(direction, live_x as int, live_y as int);
                let counts = self.item_size is Dynamic && measurement_counts(
                    old(sizes)@,
                    index as int,
                    measured as int,
                );
                let corrects = counts && shifts_visible_content(
                    index as int,
                    first_visible as int,
                    live,
                );
                &&& final(sizes)@ == if counts {
                    old(sizes)@.update(index as int, measured)
                } else {
                    old(sizes)@
                }
                &&& final(gestures)@ == if corrects {
                    old(gestures)@.without_momentum()
                } else {
                    old(gestures)@
                }
                &&& outcome.cancel_momentum <==> corrects && old(gestures)@.momentum_running
                &&& outcome.scroll_to is Some <==> corrects
                &&& outcome.scroll_to matches Some((axis, position)) ==> {
                    &&& axis == scroll_axis(direction)
                    &&& position == anchored_position(live, measured - old(sizes)@[index as int])
                }
            }),
    {
        let nothing: SizedOutcome = SizedOutcome { scroll_to: None, cancel_momentum: false };
        let (axis, measured, live): (Axis, i64, i32) = match self.layout.direction {
            Direction::Vertical => (Axis::Y, height, live_y),
            Direction::Horizontal => (Axis::X, width, live_x),
        };
        match self.item_size {
            ItemSize::Fixed(_) => nothing,
            ItemSize::Dynamic { estimate: _ } => match sizes.measure(index, measured) {
                None => nothing,
                Some(growth) => if index < first_visible || (index == first_visible && live != 0) {
                    let cancel_momentum: bool = gestures.stop_momentum();
                    let position: i64 = live as i64 - to_pixels(growth) as i64;
                    SizedOutcome { scroll_to: Some((axis, position)), cancel_momentum }
                } else {
                    nothing
                },
            },
        }
    }
}

/// Where content at `live` pixels is scrolled to when an item before what is
/// on screen grows by `growth`.
pub open spec fn anchored_position(live: int, growth: int) -> int {
    live - whole_pixels(growth)
}

/// Content that was scrolled past does not make the rest jump: when an item
/// changes its size and the content is scrolled along, every item behind it
/// stays where it is on screen, to less than a pixel, and exactly where the
/// item changed by whole pixels.
pub proof fn law_measuring_keeps_content_in_place(
    sizes: Seq<i64>,
    index: int,
    measured: i64,
    live: i32,
    item: int,
)
    requires
        0 <= index < item <= sizes.len(),
        i32::MIN * SUBPIXELS <= measured - sizes[index] <= i32::MAX * SUBPIXELS,
    ensures
        ({
            let growth = measured - sizes[index];
            let before = item_start(sizes, item) + live * SUBPIXELS;
            let after = item_start(sizes.update(index, measured), item) + anchored_position(
                live as int,
                growth,
            ) * SUBPIXELS;
            &&& magnitude(after - before) < SUBPIXELS
            &&& growth % (SUBPIXELS as int) == 0 ==> after == before
        }),
{
    let s = SUBPIXELS as int;
    let growth = measured - sizes[index];
    lemma_item_start_update(sizes, index, measured, item);
    lemma_trunc_div_error(growth, s);
    let t = trunc_div(growth, s);
    assert(i32::MIN <= t <= i32::MAX);
    assert((live - t) * s == live * s - t * s) by (nonlinear_arith);
}

/// Items before the one that changes its size are not moved by the change.
pub proof fn law_measuring_moves_no_earlier_item(
    sizes: Seq<i64>,
    index: int,
    measured: i64,
    item: int,
)
    requires
        0 <= item <= index < sizes.len(),
    ensures
        item_start(sizes.update(index, measured), item) == item_start(sizes, item),
{
    lemma_item_start_update(sizes, index, measured, item);
}

/// Of a list of sized items whose cache is in line with it, only items of the
/// list are built.
pub proof fn law_only_items_of_the_list_are_built(
    estimate: i64,
    length: usize,
    sizes: Seq<i64>,
    viewport_size: int,
    scroll_position: int,
    start: int,
    end: int,
    start_offset: Option<int>,
)
    requires
        is_render_range(
            ItemSize::Dynamic { estimate },
            length as int,
            synced(sizes, ItemSize::Dynamic { estimate }, length as nat),
            viewport_size,
            scroll_position,
            start,
            end,
            start_offset,
        ),
    ensures
        0 <= start <= end <= length,
{
}

/// Where item `i` starts in the list.
pub open spec fn list_position(item_size: ItemSize, sizes: Seq<i64>, i: int) -> int {
    match item_size {
        ItemSize::Fixed(size) => i * size,
        ItemSize::Dynamic { estimate: _ } => item_start(sizes, i),
    }
}

/// Rendering only some of the items shows on none of them: laid out one after
/// the other from where the first one is moved to, each built item stands where
/// it would stand if the whole list were rendered.
pub proof fn law_built_items_stand_as_in_whole_list(
    item_size: ItemSize,
    length: usize,
    sizes: Seq<i64>,
    viewport_size: i64,
    scroll_position: i64,
    start: int,
    end: int,
    start_offset: Option<int>,
    i: int,
)
    requires
        is_render_range(
            item_size,
            length as int,
            sizes,
            viewport_size as int,
            scroll_position as int,
            start,
            end,
            start_offset,
        ),
        item_size matches ItemSize::Fixed(size) ==> size > 0 && scroll_position <= 0,
        start <= i < end,
    ensures
        moved_offset(start_offset, scroll_position as int) == Some(
            scroll_position + list_position(item_size, sizes, start),
        ),
        moved_offset(start_offset, scroll_position as int)->0 + (list_position(
            item_size,
            sizes,
            i,
        ) - list_position(item_size, sizes, start)) == scroll_position + list_position(
            item_size,
            sizes,
            i,
        ),
{
    match item_size {
        ItemSize::Fixed(size) => {
            law_fixed_start_is_item_at_offset(scroll_position, size);
        },
        ItemSize::Dynamic { estimate: _ } => {},
    }
}

/// Data that the items are built from tells views apart, whatever else they
/// have in common.
pub proof fn law_changed_data_changes_view<D: PartialEq, B>(
    a: VirtualScrollView<D, B>,
    b: VirtualScrollView<D, B>,
)
    requires
        !a.builder_data.eq_spec(&b.builder_data),
    ensures
        !a.eq_spec(&b),
{
}

/// A builder does not tell views apart, and neither do the key and whether
/// content can be dragged.
pub proof fn law_builder_is_not_compared<D: PartialEq, B>(
    a: VirtualScrollView<D, B>,
    b: VirtualScrollView<D, B>,
    builder: B,
    drag_scrolling: bool,
    key: Option<u64>,
)
    ensures
        a.eq_spec(&b) == a.eq_spec(&VirtualScrollView { builder, drag_scrolling, key, ..b }),
{
}

/// A controller given by itself is the one that drives the view.
pub proof fn law_controller_setting(controller: ScrollController, given: Option<ScrollController>)
    ensures
        Setting::<Option<ScrollController>>::setting(controller) == Some(controller),
        Setting::<Option<ScrollController>>::setting(given) == given,
{
}

/// What runs along the vertical axis is chosen for a vertical view, and what
/// runs along the horizontal axis for a horizontal one.
pub proof fn law_direction_picks_its_axis<T>(horizontal: T, vertical: T)
    ensures
        by_direction(Direction::Vertical, horizontal, vertical) == vertical,
        by_direction(Direction::Horizontal, horizontal, vertical) == horizontal,
        scroll_axis(Direction::Vertical) == Axis::Y,
        scroll_axis(Direction::Horizontal) == Axis::X,
{
}

/// The size of the content is that of an item times the length of the list for
/// equal items, and the end of the last item for sized ones.
pub proof fn law_content_holds_all_items(size: i64, estimate: i64, length: usize, sizes: Seq<i64>)
    ensures
        content_size(ItemSize::Fixed(size), length as int, sizes) == size * length,
        content_size(ItemSize::Dynamic { estimate }, length as int, sizes) == item_start(
            sizes,
            sizes.len() as int,
        ),
{
}

/// Every item of a list of equal items that any part of the viewport shows is
/// among those that the view renders, up to the last one of the list.
pub proof fn law_plan_covers_viewport_with_equal_items(
    size: i64,
    length: usize,
    sizes: Seq<i64>,
    viewport_size: i64,
    scroll_position: i64,
    start: int,
    end: int,
    start_offset: Option<int>,
    i: int,
)
    requires
        is_render_range(
            ItemSize::Fixed(size),
            length as int,
            sizes,
            viewport_size as int,
            scroll_position as int,
            start,
            end,
            start_offset,
        ),
        size > 0,
        0 <= i < length,
        i * size < viewport_size - scroll_position,
        -scroll_position < (i + 1) * size,
    ensures
        start <= i < end,
{
    law_fixed_range_covers_viewport(viewport_size, scroll_position, size, length, i as usize);
}

/// Every item of a list of sized items that any part of the viewport shows is
/// among those that the view renders, up to the last one of the list.
pub proof fn law_plan_covers_viewport_with_sized_items(
    estimate: i64,
    length: usize,
    sizes: Seq<i64>,
    viewport_size: i64,
    scroll_position: i64,
    start: int,
    end: int,
    start_offset: Option<int>,
    i: int,
)
    requires
        is_render_range(
            ItemSize::Dynamic { estimate },
            length as int,
            sizes,
            viewport_size as int,
            scroll_position as int,
            start,
            end,
            start_offset,
        ),
        sizes_non_negative(sizes),
        scroll_position <= 0,
        0 <= i < sizes.len(),
        item_start(sizes, i) < viewport_size - scroll_position,
        -scroll_position < item_start(sizes, i + 1),
    ensures
        start <= i < end,
{
    let offset = -scroll_position as int;
    law_dynamic_range_covers_viewport(sizes, offset, offset + viewport_size, start, end, i);
}

/// What a view renders of a list of equal items, in terms of where items start:
/// from the last item that starts at or before the offset `-scroll` up to the
/// first one that starts past the far edge of the viewport, or to the end of
/// the list where its last item starts no later than that edge. The first item
/// rendered is placed a whole number of items from the start of the list, with
/// the offset inside of it. With items of no size a view that is not scrolled
/// renders none.
pub proof fn law_plan_of_equal_items_is_exact(
    size: i64,
    length: usize,
    sizes: Seq<i64>,
    viewport_size: i64,
    scroll_position: i64,
    start: int,
    end: int,
    start_offset: Option<int>,
)
    requires
        is_render_range(
            ItemSize::Fixed(size),
            length as int,
            sizes,
            viewport_size as int,
            scroll_position as int,
            start,
            end,
            start_offset,
        ),
    ensures
        ({
            let offset = -(scroll_position as int);
            let far = viewport_size - scroll_position;
            let last = (length - 1) * size;
            &&& size > 0 ==> {
                &&& offset < 0 ==> start == 0
                &&& offset >= 0 ==> start * size <= offset && (offset < (start + 1) * size
                    || start == usize::MAX)
                &&& last <= far ==> end == length
                &&& last > far && far < 0 ==> end == 0
                &&& last > far && far >= 0 ==> (end - 1) * size <= far && (far < end * size
                    || end == usize::MAX)
                &&& start_offset matches Some(o) && o % (size as int) == 0 && o <= offset < o + size
            }
            &&& size == 0 ==> start_offset is None && (scroll_position == 0 ==> start == 0 && end
                == 0)
        }),
        start == fixed_range_start(scroll_position as int, size as int),
        end == fixed_range_end(
            viewport_size as int,
            scroll_position as int,
            size as int,
            length as int,
        ),
        start_offset == fixed_start(scroll_position as int, size as int),
{
    law_fixed_range_is_exact(viewport_size, scroll_position, size, length);
    law_fixed_start_is_exact(scroll_position, size);
}

/// What a view renders of a list of sized items, in terms of where items start:
/// all items up to the first one rendered start at or before the scroll offset,
/// and the next one does not; all items rendered but the last one start before
/// the far edge of the viewport, and the last one does not, unless it ends the
/// list. The first item rendered is placed where it starts.
pub proof fn law_plan_of_sized_items_is_exact(
    estimate: i64,
    length: usize,
    sizes: Seq<i64>,
    viewport_size: i64,
    scroll_position: i64,
    start: int,
    end: int,
    start_offset: Option<int>,
)
    requires
        is_render_range(
            ItemSize::Dynamic { estimate },
            length as int,
            sizes,
            viewport_size as int,
            scroll_position as int,
            start,
            end,
            start_offset,
        ),
    ensures
        ({
            let offset = if scroll_position < 0 {
                -(scroll_position as int)
            } else {
                0
            };
            let far = offset + viewport_size;
            &&& sizes.len() == 0 ==> start == 0 && end == 0 && start_offset == Some(0int)
            &&& sizes.len() > 0 ==> {
                &&& 0 <= start < end <= sizes.len()
                &&& start_offset == Some(item_start(sizes, start))
                &&& forall|j: int| 0 <= j <= start ==> #[trigger] item_start(sizes, j) <= offset
                &&& start + 1 < sizes.len() ==> item_start(sizes, start + 1) > offset
                &&& forall|j: int|
                    start <= j < end - 1 ==> #[trigger] item_start(sizes, j) < far
                &&& end < sizes.len() ==> item_start(sizes, end - 1) >= far
            }
        }),
{
    law_dynamic_range_is_exact(
        sizes,
        viewport_size as int,
        scroll_position as int,
        start,
        end,
        start_offset->0,
    );
}

/// An offset of the plan is the number that it holds, and moving it adds to it.
pub proof fn law_offsets_add_up(offset: Option<i128>, by: int)
    ensures
        offset is None <==> offset_of(offset) is None,
        offset matches Some(v) ==> offset_of(offset) == Some(v as int) && moved_offset(
            offset_of(offset),
            by,
        ) == Some(v + by),
        moved_offset(None, by) is None,
{
}

/// The content is scrolled along exactly where an item before the first visible
/// one changes, or the first visible one itself while the content is scrolled.
pub proof fn law_correction_is_due(index: usize, first_visible: usize, live: i32)
    ensures
        index < first_visible ==> shifts_visible_content(
            index as int,
            first_visible as int,
            live as int,
        ),
        index > first_visible ==> !shifts_visible_content(
            index as int,
            first_visible as int,
            live as int,
        ),
        index == first_visible ==> (shifts_visible_content(
            index as int,
            first_visible as int,
            live as int,
        ) <==> live != 0),
{
}

/// The content is scrolled back by the whole pixels that the item grew by.
pub proof fn law_correction_undoes_growth(live: i32, growth: int)
    ensures
        ({
            let shift = live - anchored_position(live as int, growth);
            &&& 0 <= growth < 2_147_483_648 * 16_777_216 ==> shift >= 0 && shift * 16_777_216
                <= growth < shift * 16_777_216 + 16_777_216
            &&& -2_147_483_649 * 16_777_216 < growth <= 0 ==> shift <= 0 && shift * 16_777_216
                - 16_777_216 < growth <= shift * 16_777_216
            &&& growth >= 2_147_483_648 * 16_777_216 ==> shift == 2_147_483_647
            &&& growth <= -2_147_483_649 * 16_777_216 ==> shift == -2_147_483_648
        }),
{
    law_whole_pixels_reach_the_length(growth);
}

/// Where an item stands in the list: after as many items of its size, or where
/// the sizes before it add up to.
pub proof fn law_list_position(size: i64, estimate: i64, sizes: Seq<i64>, i: int)
    ensures
        list_position(ItemSize::Fixed(size), sizes, i) == i * size,
        list_position(ItemSize::Dynamic { estimate }, sizes, i) == item_start(sizes, i),
{
}

/// A new view has no items and no key, fills the available space, scrolls
/// vertically, and has all settings on but the inverted wheel.
pub proof fn law_new_view<D, B>(data: D, builder: B, controller: Option<ScrollController>)
    ensures
        ({
            let view = new_view(data, builder, controller);
            &&& view.builder == builder
            &&& view.builder_data == data
            &&& view.scroll_controller == controller
            &&& view.item_size == ItemSize::Fixed(0)
            &&& view.length == 0
            &&& view.layout.width == Size::Fill
            &&& view.layout.height == Size::Fill
            &&& view.layout.maximum_width == Size::Inner
            &&& view.layout.maximum_height == Size::Inner
            &&& view.layout.direction == Direction::Vertical
            &&& view.layout.other == 0
            &&& view.show_scrollbar
            &&& view.scroll_with_arrows
            &&& view.drag_scrolling
            &&& !view.invert_scroll_wheel
            &&& view.key is None
        }),
{
}

/// Views are equal exactly where their data is, and their item size, length,
/// layout, scrollbar, arrow keys, controller and wheel.
pub proof fn law_equal_views_render_alike<D: PartialEq, B>(
    a: VirtualScrollView<D, B>,
    b: VirtualScrollView<D, B>,
)
    ensures
        D::obeys_eq_spec() ==> VirtualScrollView::<D, B>::obeys_eq_spec(),
        a.eq_spec(&b) ==> {
            &&& a.builder_data.eq_spec(&b.builder_data)
            &&& a.item_size == b.item_size
            &&& a.length == b.length
            &&& a.layout == b.layout
            &&& a.show_scrollbar == b.show_scrollbar
            &&& a.scroll_with_arrows == b.scroll_with_arrows
            &&& a.scroll_controller == b.scroll_controller
            &&& a.invert_scroll_wheel == b.invert_scroll_wheel
        },
        a.builder_data.eq_spec(&b.builder_data) ==> a.eq_spec(
            &VirtualScrollView {
                builder: b.builder,
                builder_data: b.builder_data,
                drag_scrolling: b.drag_scrolling,
                key: b.key,
                ..a
            },
        ),
{
}

} // verus!
