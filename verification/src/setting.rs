//! Values that a setting of a view can be given as.
use crate::geometry::Size;
use crate::item_sizes::ItemSize;
use vstd::prelude::*;

verus! {

/// A value that a setting of type `T` can be given as.
pub trait Setting<T>: Sized {
    /// The setting that the value stands for.
    spec fn setting(self) -> T;

    /// Converts the value into the setting.
    fn into_setting(self) -> (value: T)
        ensures
            value == self.setting(),
    ;
}

impl Setting<bool> for bool {
    open spec fn setting(self) -> bool {
        self
    }

    fn into_setting(self) -> (value: bool) {
        self
    }
}

impl Setting<usize> for usize {
    open spec fn setting(self) -> usize {
        self
    }

    fn into_setting(self) -> (value: usize) {
        self
    }
}

impl Setting<usize> for u16 {
    open spec fn setting(self) -> usize {
        self as usize
    }

    fn into_setting(self) -> (value: usize) {
        self as usize
    }
}

impl Setting<usize> for u8 {
    open spec fn setting(self) -> usize {
        self as usize
    }

    fn into_setting(self) -> (value: usize) {
        self as usize
    }
}

/// As a count, `true` is one and `false` is none.
impl Setting<usize> for bool {
    open spec fn setting(self) -> usize {
        if self {
            1
        } else {
            0
        }
    }

    fn into_setting(self) -> (value: usize) {
        if self {
            1
        } else {
            0
        }
    }
}

impl Setting<Size> for Size {
    open spec fn setting(self) -> Size {
        self
    }

    fn into_setting(self) -> (value: Size) {
        self
    }
}

impl Setting<ItemSize> for ItemSize {
    open spec fn setting(self) -> ItemSize {
        self
    }

    fn into_setting(self) -> (value: ItemSize) {
        self
    }
}

/// A length by itself is the size of every item.
impl Setting<ItemSize> for i64 {
    open spec fn setting(self) -> ItemSize {
        ItemSize::Fixed(self)
    }

    fn into_setting(self) -> (value: ItemSize) {
        ItemSize::from(self)
    }
}

/// A setting given as itself is itself, a count keeps its value whatever type
/// it comes in, and a length stands for items that all have it.
pub proof fn law_settings_keep_their_value(
    flag: bool,
    count: usize,
    short: u16,
    byte: u8,
    size: Size,
    item_size: ItemSize,
    length: i64,
)
    ensures
        Setting::<bool>::setting(flag) == flag,
        Setting::<usize>::setting(count) == count,
        Setting::<usize>::setting(short) == short,
        Setting::<usize>::setting(byte) == byte,
        Setting::<usize>::setting(flag) == (if flag {
            1int
        } else {
            0
        }),
        Setting::<Size>::setting(size) == size,
        Setting::<ItemSize>::setting(item_size) == item_size,
        Setting::<ItemSize>::setting(length) == ItemSize::Fixed(length),
{
}

} // verus!
