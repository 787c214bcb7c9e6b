# scrollviews

The decision logic of a virtual scroll view, verified with Verus. A virtual
scroll view is a one-direction scrollable area that builds and renders only the
items its viewport shows, so that its cost stays about the same however long the
list is.

## Lengths

All lengths are integers: sub-pixel steps, `SUBPIXELS` (2^24) of them to a
logical pixel. A single-precision length of half a pixel or more is a whole
number of steps, and sums, differences, products and comparisons of lengths are
exact. Positions that the content is scrolled to are whole pixels.

## Modules

- `geometry`: lengths, points, axes and sizes.
- `render_range`: which items to render, for items of one size
  (`get_render_range`) and for items that each have their own
  (`get_dynamic_render_range`).
- `item_sizes`: the cache of measured item sizes and their sum.
- `scroll_physics`: the velocity tracker of drag gestures and the momentum that
  follows a fling.
- `gestures`: what pointer, wheel and shift key do to a view.
- `setting`: what the settings of a view can be given as.
- `virtual_scrollview`: the view's settings, its render plan, and how it takes
  in the sizes at which items were laid out.

Proof functions named `law_..` state what holds across functions: that the
rendered range covers the viewport, that measuring an item does not make visible
content jump, that momentum never scrolls past the content, that a tap reaches
the children.

`app/` shows a view with a UI toolkit: it converts single-precision pixels,
evaluates the deceleration curve, runs the frame loop, and performs what the
library calls for. The toolkit is a trait, `Toolkit`.
