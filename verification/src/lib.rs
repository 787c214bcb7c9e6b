//! The decision logic of a virtual scroll view: a one-direction scrollable
//! area that builds and renders only the items that its viewport shows.

pub mod geometry;
pub mod gestures;
pub mod item_sizes;
pub mod render_range;
pub mod scroll_physics;
pub mod setting;
pub mod virtual_scrollview;

pub use geometry::{px, to_pixels, Axis, CursorPoint, Direction, Size, SUBPIXELS};
pub use gestures::{
    Gestures, IsScrollingCtx, Key, MoveOutcome, PressOutcome, WheelOutcome, WheelSource,
};
pub use item_sizes::{ItemSize, ItemSizes};
pub use render_range::{
    get_dynamic_render_range, get_fixed_start_offset, get_render_range, VisibleRange,
};
pub use scroll_physics::{
    momentum_scroll, MomentumFrame, MomentumScroll, VelocityTracker, CURVE_ONE, MIN_FLING_VELOCITY,
};
pub use setting::Setting;
pub use virtual_scrollview::{Layout, RenderPlan, ScrollController, SizedOutcome, VirtualScrollView};
