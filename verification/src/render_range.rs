//! Which items a viewport shows, for items of one size and for items that
//! each have their own.
use crate::geometry::{clamped, floor_div};
use std::ops::Range;
use vstd::prelude::*;

verus! {

/// Items that are rendered, with the offset at which the first of them starts.
pub struct VisibleRange {
    pub range: Range<usize>,
    pub start_offset: i128,
}

/// Where item `n` starts: the sum of the sizes before it.
pub open spec fn item_start(sizes: Seq<i64>, n: int) -> int
    decreases n,
{
    if n <= 0 {
        0
    } else {
        item_start(sizes, n - 1) + sizes[n - 1]
    }
}

/// How far the content is scrolled: positions grow as content moves back, and
/// a position before the content counts as its start.
pub open spec fn scroll_offset(scroll_position: int) -> int {
    if scroll_position < 0 {
        -scroll_position
    } else {
        0
    }
}

/// `first` is the item at `offset`: the last one of the run of items, from the
/// first on, that start at or before it.
pub open spec fn is_first_visible(sizes: Seq<i64>, offset: int, first: int) -> bool {
    &&& 0 <= first < sizes.len()
    &&& forall|j: int| 0 <= j <= first ==> #[trigger] item_start(sizes, j) <= offset
    &&& first + 1 == sizes.len() || item_start(sizes, first + 1) > offset
}

/// `end` is the first item from `first` on that starts at or after
/// `visible_end`, or the length of the list where none does.
pub open spec fn is_viewport_end(sizes: Seq<i64>, first: int, visible_end: int, end: int) -> bool {
    &&& first <= end <= sizes.len()
    &&& forall|j: int| first <= j < end ==> #[trigger] item_start(sizes, j) < visible_end
    &&& end == sizes.len() || item_start(sizes, end) >= visible_end
}

/// The range ends one item past the viewport, or with the list.
pub open spec fn is_render_end(sizes: Seq<i64>, first: int, visible_end: int, end: int) -> bool {
    exists|e: int| #[trigger]
        is_viewport_end(sizes, first, visible_end, e) && end == (if e < sizes.len() {
            e + 1
        } else {
            e
        })
}

/// The items from `start` up to `end` are those to render of a list of sized
/// items, and the first of them starts at `start_offset`. Of an empty list
/// there are none.
pub open spec fn is_dynamic_range(
    sizes: Seq<i64>,
    viewport_size: int,
    scroll_position: int,
    start: int,
    end: int,
    start_offset: int,
) -> bool {
    if sizes.len() == 0 {
        start == 0 && end == 0 && start_offset == 0
    } else {
        &&& is_first_visible(sizes, scroll_offset(scroll_position), start)
        &&& is_render_end(sizes, start, scroll_offset(scroll_position) + viewport_size, end)
        &&& start_offset == item_start(sizes, start)
    }
}

/// First item rendered of a list whose items all have `item_size`.
///
/// Items of no size have no quotient to count by: the first index is then the
/// limit that the quotient runs to, or zero where there is none.
pub open spec fn fixed_range_start(scroll_position: int, item_size: int) -> int {
    if item_size != 0 {
        clamped(floor_div(-scroll_position, item_size), 0, usize::MAX as int)
    } else if scroll_position < 0 {
        usize::MAX as int
    } else {
        0
    }
}

/// The list runs out no later than one item past the viewport:
/// `length - offset / item_size <= viewport_size / item_size + 1`.
pub open spec fn list_ends_in_view(
    viewport_size: int,
    scroll_position: int,
    item_size: int,
    length: int,
) -> bool {
    if item_size > 0 {
        (length - 1) * item_size <= viewport_size - scroll_position
    } else {
        (length - 1) * item_size >= viewport_size - scroll_position
    }
}

/// End of the range rendered of a list whose items all have `item_size`: the
/// item after the one at the far edge of the viewport, or the end of the list.
pub open spec fn fixed_range_end(
    viewport_size: int,
    scroll_position: int,
    item_size: int,
    length: int,
) -> int {
    if item_size != 0 {
        if list_ends_in_view(viewport_size, scroll_position, item_size, length) {
            length
        } else {
            clamped(
                floor_div(viewport_size - scroll_position, item_size) + 1,
                0,
                usize::MAX as int,
            )
        }
    } else if scroll_position < 0 && viewport_size != 0 || scroll_position > 0 && viewport_size
        > 0 {
        length
    } else {
        0
    }
}

/// Where the first rendered item of a list of equal items starts, as far as
/// the items have a size to count by.
pub open spec fn fixed_start(scroll_position: int, item_size: int) -> Option<int> {
    if item_size == 0 {
        None
    } else {
        Some(floor_div(-scroll_position, item_size) * item_size)
    }
}

proof fn lemma_floor_of_negative(n: int, b: int)
    requires
        n > 0,
        b > 0,
    ensures
        (-n) / b == if n % b == 0 {
            -(n / b)
        } else {
            -(n / b) - 1
        },
{
    vstd::arithmetic::div_mod::lemma_fundamental_div_mod(n, b);
    let q = n / b;
    let r = n % b;
    if r == 0 {
        assert(-n == b * (-q) + 0) by (nonlinear_arith)
            requires
                n == b * q,
        ;
        vstd::arithmetic::div_mod::lemma_fundamental_div_mod_converse(-n, b, -q, 0);
    } else {
        assert(-n == b * (-q - 1) + (b - r)) by (nonlinear_arith)
            requires
                n == b * q + r,
        ;
        vstd::arithmetic::div_mod::lemma_fundamental_div_mod_converse(-n, b, -q - 1, b - r);
    }
}

/// The quotient of two lengths, rounded down.
fn floor_quotient(a: i128, b: i128) -> (q: i128)
    requires
        b != 0,
        -0x1_0000_0000_0000_0000_0000 < a < 0x1_0000_0000_0000_0000_0000,
        -0x1_0000_0000_0000_0000_0000 < b < 0x1_0000_0000_0000_0000_0000,
    ensures
        q == floor_div(a as int, b as int),
        -0x1_0000_0000_0000_0000_0000 <= q <= 0x1_0000_0000_0000_0000_0000,
{
    let n: i128 = if b < 0 {
        -a
    } else {
        a
    };
    let d: i128 = if b < 0 {
        -b
    } else {
        b
    };
    if n >= 0 {
        let q: i128 = n / d;
        assert(0 <= q <= n) by (nonlinear_arith)
            requires
                n >= 0,
                d >= 1,
                q == n as int / d as int,
        ;
        q
    } else {
        let m: i128 = -n;
        let q: i128 = m / d;
        proof {
            lemma_floor_of_negative(m as int, d as int);
        }
        assert(0 <= q <= m) by (nonlinear_arith)
            requires
                m >= 0,
                d >= 1,
                q == m as int / d as int,
        ;
        if m % d == 0 {
            -q
        } else {
            -q - 1
        }
    }
}

/// A count held in the range of `usize`.
fn to_count(v: i128) -> (count: usize)
    ensures
        count == clamped(v as int, 0, usize::MAX as int),
{
    if v < 0 {
        0
    } else if v > usize::MAX as i128 {
        usize::MAX
    } else {
        v as usize
    }
}

/// Items of size `item_size` to render when `item_length` of them are scrolled
/// to `scroll_position` in a viewport of `viewport_size`.
pub fn get_render_range(
    viewport_size: i64,
    scroll_position: i64,
    item_size: i64,
    item_length: usize,
) -> (range: Range<usize>)
    ensures
        range.start == fixed_range_start(scroll_position as int, item_size as int),
        range.end == fixed_range_end(
            viewport_size as int,
            scroll_position as int,
            item_size as int,
            item_length as int,
        ),
{
    let offset: i128 = -(scroll_position as i128);
    if item_size == 0 {
        let start: usize = if offset > 0 {
            usize::MAX
        } else {
            0
        };
        let end: usize = if offset > 0 && viewport_size != 0 || offset < 0 && viewport_size > 0 {
            item_length
        } else {
            0
        };
        return start..end;
    }
    let size: i128 = item_size as i128;
    let far_edge: i128 = offset + viewport_size as i128;
    let count: i128 = item_length as i128 - 1;
    assert(i128::MIN <= count * size <= i128::MAX) by (nonlinear_arith)
        requires
            -1 <= count < 0x1_0000_0000_0000_0000,
            i64::MIN <= size <= i64::MAX,
    ;
    let last_start: i128 = count * size;
    let ends_in_view: bool = if size > 0 {
        last_start <= far_edge
    } else {
        last_start >= far_edge
    };
    let start: usize = to_count(floor_quotient(offset, size));
    let end: usize = if ends_in_view {
        item_length
    } else {
        to_count(floor_quotient(far_edge, size) + 1)
    };
    start..end
}

/// Where the first rendered item of a list of equal items starts. `None` where
/// the items have no size.
pub fn get_fixed_start_offset(scroll_position: i64, item_size: i64) -> (start_offset: Option<i128>)
    ensures
        start_offset is Some <==> item_size != 0,
        start_offset matches Some(v) ==> {
            &&& fixed_start(scroll_position as int, item_size as int) == Some(v as int)
            &&& 2 * i64::MIN <= v <= 2 * i64::MAX + 2
        },
{
    if item_size == 0 {
        return None;
    }
    let offset: i128 = -(scroll_position as i128);
    let size: i128 = item_size as i128;
    let q: i128 = floor_quotient(offset, size);
    proof {
        lemma_floor_div_span(offset as int, size as int);
        assert(q * size == size * q) by (nonlinear_arith);
    }
    Some(q * size)
}

/// The multiple of `b` that `floor_div` finds lies within one `b` of `a`.
proof fn lemma_floor_div_span(a: int, b: int)
    requires
        b != 0,
    ensures
        b > 0 ==> floor_div(a, b) * b <= a < (floor_div(a, b) + 1) * b,
        b < 0 ==> (floor_div(a, b) + 1) * b < a <= floor_div(a, b) * b,
        (floor_div(a, b) + 1) * b == floor_div(a, b) * b + b,
{
    let q = floor_div(a, b);
    assert((q + 1) * b == q * b + b) by (nonlinear_arith);
    if b > 0 {
        vstd::arithmetic::div_mod::lemma_fundamental_div_mod(a, b);
        assert(q * b == b * q) by (nonlinear_arith);
    } else {
        vstd::arithmetic::div_mod::lemma_fundamental_div_mod(-a, -b);
        assert((-b) * q == -(q * b)) by (nonlinear_arith);
    }
}

/// Sums of sizes stay within what the sizes' own range allows.
proof fn lemma_item_start_bounds(sizes: Seq<i64>, n: int)
    requires
        0 <= n <= sizes.len(),
    ensures
        n * i64::MIN <= item_start(sizes, n) <= n * i64::MAX,
    decreases n,
{
    if n > 0 {
        lemma_item_start_bounds(sizes, n - 1);
    }
}

/// A sum of sizes, `n` of them with `n` in the range of `usize`, fits `i128`.
pub proof fn lemma_item_start_fits(sizes: Seq<i64>, n: int)
    requires
        0 <= n <= sizes.len(),
        n <= usize::MAX,
    ensures
        i128::MIN + 0x8000_0000_0000_0000 <= item_start(sizes, n) <= i128::MAX
            - 0x8000_0000_0000_0000,
{
    lemma_item_start_bounds(sizes, n);
}

/// Items to render when items of `item_sizes` are scrolled to
/// `scroll_position` in a viewport of `viewport_size`: from the item at the
/// scroll offset up to one past the viewport.
pub fn get_dynamic_render_range(
    viewport_size: i64,
    scroll_position: i64,
    item_sizes: &[i64],
) -> (visible: VisibleRange)
    ensures
        is_dynamic_range(
            item_sizes@,
            viewport_size as int,
            scroll_position as int,
            visible.range.start as int,
            visible.range.end as int,
            visible.start_offset as int,
        ),
{
    let len: usize = item_sizes.len();
    if len == 0 {
        return VisibleRange { range: 0..0, start_offset: 0 };
    }
    let offset: i128 = if scroll_position < 0 {
        -(scroll_position as i128)
    } else {
        0
    };

    let mut start_index: usize = 0;
    let mut start_offset: i128 = 0;
    loop
        invariant_except_break
            len == item_sizes@.len(),
            start_index < len,
            start_offset == item_start(item_sizes@, start_index as int),
            forall|j: int| 0 <= j <= start_index ==> #[trigger] item_start(item_sizes@, j)
                <= offset,
        ensures
            len == item_sizes@.len(),
            is_first_visible(item_sizes@, offset as int, start_index as int),
            start_offset == item_start(item_sizes@, start_index as int),
        decreases len - start_index,
    {
        if start_index == len - 1 {
            break;
        }
        proof {
            lemma_item_start_fits(item_sizes@, start_index + 1);
        }
        let next: i128 = start_offset + item_sizes[start_index] as i128;
        assert(next == item_start(item_sizes@, start_index + 1));
        if next > offset {
            break;
        }
        start_index = start_index + 1;
        start_offset = next;
    }

    let visible_end: i128 = offset + viewport_size as i128;
    let mut end_index: usize = start_index;
    let mut covered: i128 = start_offset;
    while end_index < len && covered < visible_end
        invariant
            len == item_sizes@.len(),
            start_index <= end_index <= len,
            covered == item_start(item_sizes@, end_index as int),
            forall|j: int| start_index <= j < end_index ==> #[trigger] item_start(item_sizes@, j)
                < visible_end,
        decreases len - end_index,
    {
        proof {
            lemma_item_start_fits(item_sizes@, end_index + 1);
        }
        covered = covered + item_sizes[end_index] as i128;
        end_index = end_index + 1;
    }
    assert(is_viewport_end(
        item_sizes@,
        start_index as int,
        visible_end as int,
        end_index as int,
    ));
    if end_index < len {
        end_index = end_index + 1;
    }
    VisibleRange { range: start_index..end_index, start_offset }
}

/// No size is negative.
pub open spec fn sizes_non_negative(sizes: Seq<i64>) -> bool {
    forall|i: int| 0 <= i < sizes.len() ==> #[trigger] sizes[i] >= 0
}

proof fn lemma_item_start_monotone(sizes: Seq<i64>, i: int, j: int)
    requires
        sizes_non_negative(sizes),
        0 <= i <= j <= sizes.len(),
    ensures
        item_start(sizes, i) <= item_start(sizes, j),
    decreases j - i,
{
    if i < j {
        lemma_item_start_monotone(sizes, i, j - 1);
    }
}

proof fn lemma_item_start_uniform(sizes: Seq<i64>, size: int, n: int)
    requires
        0 <= n <= sizes.len(),
        forall|i: int| 0 <= i < sizes.len() ==> #[trigger] sizes[i] == size,
    ensures
        item_start(sizes, n) == n * size,
    decreases n,
{
    if n > 0 {
        lemma_item_start_uniform(sizes, size, n - 1);
        assert((n - 1) * size + size == n * size) by (nonlinear_arith);
        assert(sizes[n - 1] == size);
    } else {
        assert(n * size == 0) by (nonlinear_arith)
            requires
                n == 0,
        ;
    }
}

proof fn lemma_count_order(i: int, j: int, size: int)
    requires
        size > 0,
    ensures
        i <= j <==> i * size <= j * size,
        i < j <==> i * size < j * size,
{
    assert(i <= j <==> i * size <= j * size) by (nonlinear_arith)
        requires
            size > 0,
    ;
    assert(i < j <==> i * size < j * size) by (nonlinear_arith)
        requires
            size > 0,
    ;
}

/// While the content is scrolled within its own extent, the range rendered of
/// equal items lies inside the list.
pub proof fn law_fixed_range_in_list(
    viewport_size: i64,
    scroll_position: i64,
    item_size: i64,
    length: usize,
)
    requires
        item_size > 0,
        viewport_size >= 0,
        scroll_position <= 0,
        -scroll_position <= length * item_size,
    ensures
        0 <= fixed_range_start(scroll_position as int, item_size as int) <= fixed_range_end(
            viewport_size as int,
            scroll_position as int,
            item_size as int,
            length as int,
        ) <= length,
{
    let size = item_size as int;
    let offset = -scroll_position as int;
    let far = offset + viewport_size;
    lemma_floor_div_span(offset, size);
    lemma_floor_div_span(far, size);
    let a = floor_div(offset, size);
    let b = floor_div(far, size);
    lemma_count_order(a, length as int, size);
    lemma_count_order(a, b + 1, size);
    lemma_count_order(-1, a, size);
    lemma_count_order(0, a + 1, size);
    lemma_count_order(b, length - 1, size);
}

/// Every item of a list of equal items that any part of the viewport shows is
/// rendered.
pub proof fn law_fixed_range_covers_viewport(
    viewport_size: i64,
    scroll_position: i64,
    item_size: i64,
    length: usize,
    item: usize,
)
    requires
        item_size > 0,
        item < length,
        item * item_size < viewport_size - scroll_position,
        -scroll_position < (item + 1) * item_size,
    ensures
        fixed_range_start(scroll_position as int, item_size as int) <= item < fixed_range_end(
            viewport_size as int,
            scroll_position as int,
            item_size as int,
            length as int,
        ),
{
    let size = item_size as int;
    let offset = -scroll_position as int;
    let far = offset + viewport_size;
    lemma_floor_div_span(offset, size);
    lemma_floor_div_span(far, size);
    lemma_count_order(floor_div(offset, size), item + 1, size);
    lemma_count_order(item as int, floor_div(far, size) + 1, size);
}

/// How many equal items are rendered depends on the viewport alone, not on how
/// long the list is: at most two more than fit into it.
pub proof fn law_fixed_range_count(
    viewport_size: i64,
    scroll_position: i64,
    item_size: i64,
    length: usize,
)
    requires
        item_size > 0,
        viewport_size >= 0,
        scroll_position <= 0,
    ensures
        fixed_range_end(
            viewport_size as int,
            scroll_position as int,
            item_size as int,
            length as int,
        ) - fixed_range_start(scroll_position as int, item_size as int) <= viewport_size as int
            / item_size as int + 2,
{
    let size = item_size as int;
    let offset = -scroll_position as int;
    let far = offset + viewport_size;
    let a = floor_div(offset, size);
    let b = floor_div(far, size);
    let c = viewport_size as int / size;
    lemma_floor_div_span(offset, size);
    lemma_floor_div_span(far, size);
    lemma_floor_div_span(viewport_size as int, size);
    assert((a + c + 2) * size == (a + 1) * size + (c + 1) * size) by (nonlinear_arith);
    lemma_count_order(b, a + c + 2, size);
    lemma_count_order(length - 1, a + c + 2, size);
    lemma_count_order(a, c + a + 2, size);
    lemma_count_order(0, a + 1, size);
    lemma_count_order(0, c + 1, size);
    if a > usize::MAX {
        lemma_count_order(length - 1, a, size);
        assert(b >= a) by {
            lemma_count_order(a, b + 1, size);
        }
    }
}

/// The first rendered item of a list of equal items is the one at the scroll
/// offset, and it is placed where it starts.
pub proof fn law_fixed_start_is_item_at_offset(scroll_position: i64, item_size: i64)
    requires
        item_size > 0,
        scroll_position <= 0,
        fixed_range_start(scroll_position as int, item_size as int) < usize::MAX,
    ensures
        fixed_start(scroll_position as int, item_size as int) == Some(
            fixed_range_start(scroll_position as int, item_size as int) * item_size,
        ),
        fixed_range_start(scroll_position as int, item_size as int) * item_size
            <= -scroll_position,
        -scroll_position < (fixed_range_start(scroll_position as int, item_size as int) + 1)
            * item_size,
{
    let size = item_size as int;
    let offset = -scroll_position as int;
    lemma_floor_div_span(offset, size);
    lemma_count_order(0, floor_div(offset, size) + 1, size);
}

/// The item at an offset, and the end of the range rendered from it, are one
/// each: the description of a range of sized items leaves no choice.
pub proof fn law_dynamic_range_is_determined(
    sizes: Seq<i64>,
    offset: int,
    visible_end: int,
    first: int,
    other_first: int,
    end: int,
    other_end: int,
)
    requires
        is_first_visible(sizes, offset, first),
        is_first_visible(sizes, offset, other_first),
        is_render_end(sizes, first, visible_end, end),
        is_render_end(sizes, other_first, visible_end, other_end),
    ensures
        first == other_first,
        end == other_end,
{
    if first < other_first {
        assert(item_start(sizes, first + 1) <= offset);
    }
    if other_first < first {
        assert(item_start(sizes, other_first + 1) <= offset);
    }
    let e = choose|e: int| #[trigger]
        is_viewport_end(sizes, first, visible_end, e) && end == (if e < sizes.len() {
            e + 1
        } else {
            e
        });
    let f = choose|f: int| #[trigger]
        is_viewport_end(sizes, other_first, visible_end, f) && other_end == (if f
            < sizes.len() {
            f + 1
        } else {
            f
        });
    if e < f {
        assert(item_start(sizes, e) < visible_end);
    }
    if f < e {
        assert(item_start(sizes, f) < visible_end);
    }
}

/// The first rendered item of a list of sized items is the one that spans the
/// scroll offset, while there is content at that offset.
pub proof fn law_first_visible_spans_offset(sizes: Seq<i64>, offset: int, first: int)
    requires
        is_first_visible(sizes, offset, first),
        offset < item_start(sizes, sizes.len() as int),
    ensures
        item_start(sizes, first) <= offset < item_start(sizes, first + 1),
{
}

/// Every item of a list of sized items that any part of the viewport shows is
/// rendered.
pub proof fn law_dynamic_range_covers_viewport(
    sizes: Seq<i64>,
    offset: int,
    visible_end: int,
    first: int,
    end: int,
    item: int,
)
    requires
        sizes_non_negative(sizes),
        is_first_visible(sizes, offset, first),
        is_render_end(sizes, first, visible_end, end),
        0 <= item < sizes.len(),
        item_start(sizes, item) < visible_end,
        offset < item_start(sizes, item + 1),
    ensures
        first <= item < end,
{
    if item < first {
        lemma_item_start_monotone(sizes, item + 1, first);
    }
    let e = choose|e: int| #[trigger]
        is_viewport_end(sizes, first, visible_end, e) && end == (if e < sizes.len() {
            e + 1
        } else {
            e
        });
    if item >= end {
        lemma_item_start_monotone(sizes, e, item);
    }
}

/// The range of sized items lies inside the list and holds at least one item;
/// past the viewport it holds at most one. Where no size is negative and there
/// is content at the scroll offset, every item of the range but the last one
/// meets the viewport.
pub proof fn law_dynamic_range_in_list(
    sizes: Seq<i64>,
    offset: int,
    visible_end: int,
    first: int,
    end: int,
)
    requires
        is_first_visible(sizes, offset, first),
        is_render_end(sizes, first, visible_end, end),
    ensures
        0 <= first < end <= sizes.len(),
        forall|j: int|
            first <= j < end - 1 ==> #[trigger] item_start(sizes, j) < visible_end,
        sizes_non_negative(sizes) && offset < item_start(sizes, sizes.len() as int)
            ==> forall|j: int|
            first <= j < end - 1 ==> #[trigger] item_start(sizes, j) < visible_end && offset
                < item_start(sizes, j + 1),
{
    if sizes_non_negative(sizes) && offset < item_start(sizes, sizes.len() as int) {
        law_first_visible_spans_offset(sizes, offset, first);
        assert forall|j: int| first <= j < end - 1 implies #[trigger] item_start(sizes, j)
            < visible_end && offset < item_start(sizes, j + 1) by {
            lemma_item_start_monotone(sizes, first + 1, j + 1);
        }
    }
}

/// For items that all have one size, sized and equal items are rendered alike:
/// from the same item at the same place, and up to the same end or one item
/// further, to the same end where the far edge of the viewport is the edge of
/// an item.
pub proof fn law_dynamic_range_mirrors_fixed(
    viewport_size: i64,
    scroll_position: i64,
    item_size: i64,
    sizes: Seq<i64>,
    first: int,
    end: int,
)
    requires
        item_size > 0,
        viewport_size >= 0,
        scroll_position <= 0,
        sizes.len() <= usize::MAX,
        forall|i: int| 0 <= i < sizes.len() ==> #[trigger] sizes[i] == item_size,
        -scroll_position < sizes.len() * item_size,
        is_first_visible(sizes, scroll_offset(scroll_position as int), first),
        is_render_end(
            sizes,
            first,
            scroll_offset(scroll_position as int) + viewport_size,
            end,
        ),
    ensures
        first == fixed_range_start(scroll_position as int, item_size as int),
        fixed_range_end(
            viewport_size as int,
            scroll_position as int,
            item_size as int,
            sizes.len() as int,
        ) <= end <= fixed_range_end(
            viewport_size as int,
            scroll_position as int,
            item_size as int,
            sizes.len() as int,
        ) + 1,
        (viewport_size - scroll_position) % (item_size as int) == 0 ==> end == fixed_range_end(
            viewport_size as int,
            scroll_position as int,
            item_size as int,
            sizes.len() as int,
        ),
        item_start(sizes, first) == first * item_size,
        fixed_start(scroll_position as int, item_size as int) == Some(item_start(sizes, first)),
{
    let size = item_size as int;
    let len = sizes.len() as int;
    let offset = -scroll_position as int;
    let far = offset + viewport_size;
    let a = floor_div(offset, size);
    let b = floor_div(far, size);
    lemma_floor_div_span(offset, size);
    lemma_floor_div_span(far, size);
    lemma_item_start_uniform(sizes, size, first);
    lemma_item_start_uniform(sizes, size, first + 1);
    lemma_item_start_uniform(sizes, size, len);
    law_first_visible_spans_offset(sizes, offset, first);
    lemma_count_order(first, a + 1, size);
    lemma_count_order(a, first + 1, size);
    assert(first == a);
    let e = choose|e: int| #[trigger]
        is_viewport_end(sizes, first, far, e) && end == (if e < sizes.len() {
            e + 1
        } else {
            e
        });
    lemma_item_start_uniform(sizes, size, e);
    if e < len {
        // The items before `e` start inside the viewport, `e` does not.
        lemma_count_order(b, e, size);
        lemma_count_order(len - 1, e, size);
        lemma_count_order(e, len - 1, size);
    }
    if e > first {
        lemma_item_start_uniform(sizes, size, e - 1);
        assert(item_start(sizes, e - 1) < far);
        lemma_count_order(e - 1, b + 1, size);
        lemma_count_order(len - 1, e - 1, size);
        lemma_count_order(e - 1, len - 1, size);
    }
    lemma_count_order(a, b + 1, size);
    lemma_count_order(b, len - 1, size);
    if far % size == 0 {
        vstd::arithmetic::div_mod::lemma_fundamental_div_mod(far, size);
        assert(b * size == far) by (nonlinear_arith)
            requires
                far == size * b,
        ;
        if e > first {
            lemma_count_order(e - 1, b, size);
        }
        lemma_count_order(a, b, size);
    }
}

/// The first item starts at zero, and every other one where the item before it
/// ends.
pub proof fn law_items_follow_one_another(sizes: Seq<i64>, n: int)
    requires
        0 <= n < sizes.len(),
    ensures
        item_start(sizes, 0) == 0,
        item_start(sizes, n + 1) == item_start(sizes, n) + sizes[n],
{
}

/// The scroll offset is how far the position lies below zero, if it does.
pub proof fn law_scroll_offset_is_distance_scrolled(scroll_position: int)
    ensures
        scroll_position <= 0 ==> scroll_offset(scroll_position) == -scroll_position,
        scroll_position >= 0 ==> scroll_offset(scroll_position) == 0,
{
}

proof fn lemma_fixed_range_of_positive(offset: int, far: int, size: int)
    requires
        size > 0,
    ensures
        ({
            let s = clamped(floor_div(offset, size), 0, usize::MAX as int);
            let e = clamped(floor_div(far, size) + 1, 0, usize::MAX as int);
            &&& offset < 0 ==> s == 0
            &&& offset >= 0 ==> s * size <= offset && (offset < (s + 1) * size || s
                == usize::MAX)
            &&& far < 0 ==> e == 0
            &&& far >= 0 ==> (e - 1) * size <= far && (far < e * size || e == usize::MAX)
        }),
{
    let a = floor_div(offset, size);
    let b = floor_div(far, size);
    let s = clamped(a, 0, usize::MAX as int);
    let e = clamped(b + 1, 0, usize::MAX as int);
    lemma_floor_div_span(offset, size);
    lemma_floor_div_span(far, size);
    lemma_count_order(a, 0, size);
    lemma_count_order(0, a + 1, size);
    lemma_count_order(s, a, size);
    lemma_count_order(b, 0, size);
    lemma_count_order(0, b + 1, size);
    lemma_count_order(e - 1, b, size);
}

/// The range rendered of equal items, in terms of where items start. The first
/// item rendered is the last one to start at or before the offset `-scroll`.
/// The range ends with the list where the last item starts no later than the
/// far edge of the viewport, and else with the first item that starts past that
/// edge. Sizes below zero count the same with all signs turned, and items of no
/// size have the range that the quotients by zero run to.
pub proof fn law_fixed_range_is_exact(
    viewport_size: i64,
    scroll_position: i64,
    item_size: i64,
    length: usize,
)
    ensures
        ({
            let size = item_size as int;
            let offset = -(scroll_position as int);
            let far = viewport_size - scroll_position;
            let last = (length - 1) * size;
            let s = fixed_range_start(scroll_position as int, size);
            let e = fixed_range_end(
                viewport_size as int,
                scroll_position as int,
                size,
                length as int,
            );
            &&& 0 <= s <= usize::MAX
            &&& 0 <= e <= usize::MAX
            &&& size > 0 ==> {
                &&& offset < 0 ==> s == 0
                &&& offset >= 0 ==> s * size <= offset && (offset < (s + 1) * size || s
                    == usize::MAX)
                &&& last <= far ==> e == length
                &&& last > far && far < 0 ==> e == 0
                &&& last > far && far >= 0 ==> (e - 1) * size <= far && (far < e * size || e
                    == usize::MAX)
            }
            &&& size < 0 ==> {
                &&& offset > 0 ==> s == 0
                &&& offset <= 0 ==> s * size >= offset && (offset > (s + 1) * size || s
                    == usize::MAX)
                &&& last >= far ==> e == length
                &&& last < far && far > 0 ==> e == 0
                &&& last < far && far <= 0 ==> (e - 1) * size >= far && (far > e * size || e
                    == usize::MAX)
            }
            &&& size == 0 ==> {
                &&& offset == 0 ==> s == 0 && e == 0
                &&& offset > 0 ==> s == usize::MAX && e == (if viewport_size == 0 {
                    0
                } else {
                    length as int
                })
                &&& offset < 0 ==> s == 0 && e == (if viewport_size > 0 {
                    length as int
                } else {
                    0
                })
            }
        }),
{
    let size = item_size as int;
    let offset = -(scroll_position as int);
    let far = viewport_size - scroll_position;
    let s = fixed_range_start(scroll_position as int, size);
    let e = clamped(floor_div(far, size) + 1, 0, usize::MAX as int);
    if size > 0 {
        lemma_fixed_range_of_positive(offset, far, size);
    } else if size < 0 {
        lemma_fixed_range_of_positive(-offset, -far, -size);
        assert(s * (-size) == -(s * size)) by (nonlinear_arith);
        assert((s + 1) * (-size) == -((s + 1) * size)) by (nonlinear_arith);
        assert((e - 1) * (-size) == -((e - 1) * size)) by (nonlinear_arith);
        assert(e * (-size) == -(e * size)) by (nonlinear_arith);
    }
}

/// Where the first rendered item of a list of equal items is placed is a whole
/// number of items from the start of the list, and the offset lies within the
/// item that starts there.
pub proof fn law_fixed_start_is_exact(scroll_position: i64, item_size: i64)
    ensures
        ({
            let size = item_size as int;
            let offset = -(scroll_position as int);
            let start = fixed_start(scroll_position as int, size);
            &&& start is None <==> size == 0
            &&& size > 0 ==> start->0 % size == 0 && start->0 <= offset < start->0 + size
            &&& size < 0 ==> start->0 % (-size) == 0 && start->0 + size < offset <= start->0
        }),
{
    let size = item_size as int;
    let offset = -(scroll_position as int);
    if size != 0 {
        let q = floor_div(offset, size);
        lemma_floor_div_span(offset, size);
        if size > 0 {
            vstd::arithmetic::div_mod::lemma_mod_multiples_basic(q, size);
        } else {
            vstd::arithmetic::div_mod::lemma_mod_multiples_basic(-q, -size);
            assert((-q) * (-size) == q * size) by (nonlinear_arith);
        }
    }
}

/// The range rendered of sized items, in terms of where items start. All items
/// up to the first one rendered start at or before the scroll offset, and the
/// next one does not. All items rendered but the last one start before the far
/// edge of the viewport, and the last one does not, unless it ends the list.
pub proof fn law_dynamic_range_is_exact(
    sizes: Seq<i64>,
    viewport_size: int,
    scroll_position: int,
    start: int,
    end: int,
    start_offset: int,
)
    requires
        is_dynamic_range(sizes, viewport_size, scroll_position, start, end, start_offset),
    ensures
        ({
            let offset = if scroll_position < 0 {
                -scroll_position
            } else {
                0
            };
            let far = offset + viewport_size;
            &&& sizes.len() == 0 ==> start == 0 && end == 0 && start_offset == 0
            &&& sizes.len() > 0 ==> {
                &&& 0 <= start < end <= sizes.len()
                &&& start_offset == item_start(sizes, start)
                &&& forall|j: int| 0 <= j <= start ==> #[trigger] item_start(sizes, j) <= offset
                &&& start + 1 < sizes.len() ==> item_start(sizes, start + 1) > offset
                &&& forall|j: int|
                    start <= j < end - 1 ==> #[trigger] item_start(sizes, j) < far
                &&& end < sizes.len() ==> item_start(sizes, end - 1) >= far
            }
        }),
{
}

} // verus!
