//! The cache of item sizes behind lists whose items differ in size.
use crate::geometry::magnitude;
use crate::render_range::{item_start, lemma_item_start_fits};
use vstd::prelude::*;
use vstd::std_specs::convert::{FromSpec, FromSpecImpl};

verus! {

/// A measured size replaces the cached one only where the two differ by this
/// much or more: half a pixel.
pub const MEASURE_TOLERANCE: i64 = 8_388_608;

/// How the size of each item along the scroll axis is known.
#[derive(Clone, Copy, Debug, PartialEq, Eq, Structural)]
pub enum ItemSize {
    /// Every item has exactly this size.
    Fixed(i64),
    /// Items may differ in size. An item counts as `estimate` until it is
    /// measured.
    Dynamic { estimate: i64 },
}

impl From<i64> for ItemSize {
    fn from(value: i64) -> (size: Self) {
        ItemSize::Fixed(value)
    }
}

impl FromSpecImpl<i64> for ItemSize {
    open spec fn obeys_from_spec() -> bool {
        true
    }

    open spec fn from_spec(value: i64) -> ItemSize {
        ItemSize::Fixed(value)
    }
}

/// Cached sizes of the items, with their sum.
pub struct ItemSizes {
    sizes: Vec<i64>,
    total: i128,
}

impl View for ItemSizes {
    type V = Seq<i64>;

    closed spec fn view(&self) -> Seq<i64> {
        self.sizes@
    }
}

/// The cache for a list of `length` items: what is known of the items that
/// stay, the estimate for those that are new, nothing for those that are gone.
pub open spec fn synced(sizes: Seq<i64>, item_size: ItemSize, length: nat) -> Seq<i64> {
    match item_size {
        ItemSize::Fixed(_) => sizes,
        ItemSize::Dynamic { estimate } => Seq::new(
            length,
            |i: int|
                if i < sizes.len() {
                    sizes[i]
                } else {
                    estimate
                },
        ),
    }
}

/// A layout of item `index` at size `measured` changes the cache: the item is
/// still in the list, has a size, and that size is news.
pub open spec fn measurement_counts(sizes: Seq<i64>, index: int, measured: int) -> bool {
    &&& measured > 0
    &&& 0 <= index < sizes.len()
    &&& magnitude(measured - sizes[index]) >= MEASURE_TOLERANCE
}

/// The cache after item `index` was laid out at size `measured`.
pub open spec fn laid_out(sizes: Seq<i64>, index: int, measured: i64) -> Seq<i64> {
    if measurement_counts(sizes, index, measured as int) {
        sizes.update(index, measured)
    } else {
        sizes
    }
}

/// The sum of all sizes.
pub open spec fn total_size(sizes: Seq<i64>) -> int {
    item_start(sizes, sizes.len() as int)
}

impl ItemSizes {
    /// The kept sum is the sum of the kept sizes.
    pub closed spec fn wf(self) -> bool {
        self.total == total_size(self.sizes@)
    }

    /// An empty cache.
    pub fn new() -> (cache: Self)
        ensures
            cache.wf(),
            cache@ == Seq::<i64>::empty(),
    {
        ItemSizes { sizes: Vec::new(), total: 0 }
    }

    /// The sizes, in the order of the items.
    pub fn as_slice(&self) -> (sizes: &[i64])
        ensures
            sizes@ == self@,
    {
        self.sizes.as_slice()
    }

    /// The sum of all sizes.
    pub fn total(&self) -> (total: i128)
        requires
            self.wf(),
        ensures
            total == total_size(self@),
    {
        self.total
    }

    /// Brings the cache in line with a list of `length` items. Lists of equal
    /// items have no use for it and leave it as it is.
    pub fn sync(&mut self, item_size: ItemSize, length: usize)
        requires
            old(self).wf(),
        ensures
            final(self).wf(),
            final(self)@ == synced(old(self)@, item_size, length as nat),
    {
        match item_size {
            ItemSize::Fixed(_) => {},
            ItemSize::Dynamic { estimate } => {
                let ghost before = self.sizes@;
                while self.sizes.len() < length
                    invariant
                        self.wf(),
                        before.len() <= self.sizes@.len(),
                        before.len() <= length ==> self.sizes@.len() <= length,
                        forall|i: int|
                            0 <= i < self.sizes@.len() ==> #[trigger] self.sizes@[i] == (if i
                                < before.len() {
                                before[i]
                            } else {
                                estimate
                            }),
                        before.len() > length ==> self.sizes@ == before,
                    decreases length - self.sizes.len(),
                {
                    let ghost sizes = self.sizes@;
                    self.sizes.push(estimate);
                    proof {
                        lemma_item_start_prefix(sizes, self.sizes@, sizes.len() as int);
                        lemma_item_start_fits(self.sizes@, self.sizes@.len() as int);
                    }
                    self.total = self.total + estimate as i128;
                }
                while self.sizes.len() > length
                    invariant
                        self.wf(),
                        self.sizes@.len() >= length,
                        self.sizes@.len() > length ==> self.sizes@.len() <= before.len(),
                        forall|i: int|
                            0 <= i < self.sizes@.len() ==> #[trigger] self.sizes@[i] == (if i
                                < before.len() {
                                before[i]
                            } else {
                                estimate
                            }),
                    decreases self.sizes.len(),
                {
                    let ghost sizes = self.sizes@;
                    let last: Option<i64> = self.sizes.pop();
                    proof {
                        lemma_item_start_prefix(self.sizes@, sizes, self.sizes@.len() as int);
                        lemma_item_start_fits(self.sizes@, self.sizes@.len() as int);
                    }
                    if let Some(size) = last {
                        self.total = self.total - size as i128;
                    }
                }
                assert(self.sizes@ =~= synced(before, item_size, length as nat));
            },
        }
    }

    /// Takes in the size at which item `index` was laid out. Returns by how
    /// much the item grew, where that changes the cache.
    pub fn measure(&mut self, index: usize, measured: i64) -> (growth: Option<i128>)
        requires
            old(self).wf(),
        ensures
            final(self).wf(),
            growth is Some <==> measurement_counts(old(self)@, index as int, measured as int),
            growth matches Some(delta) ==> {
                &&& delta == measured - old(self)@[index as int]
                &&& final(self)@ == old(self)@.update(index as int, measured)
            },
            growth is None ==> final(self)@ == old(self)@,
            final(self)@ == laid_out(old(self)@, index as int, measured),
            index < old(self)@.len() && measured > 0 ==> -MEASURE_TOLERANCE
                < final(self)@[index as int] - measured < MEASURE_TOLERANCE,
    {
        if measured <= 0 || index >= self.sizes.len() {
            return None;
        }
        let delta: i128 = measured as i128 - self.sizes[index] as i128;
        if -(MEASURE_TOLERANCE as i128) < delta && delta < MEASURE_TOLERANCE as i128 {
            return None;
        }
        let ghost before = self.sizes@;
        self.sizes.set(index, measured);
        proof {
            lemma_item_start_update(before, index as int, measured, before.len() as int);
            lemma_item_start_fits(self.sizes@, self.sizes@.len() as int);
        }
        self.total = self.total + delta;
        Some(delta)
    }
}

proof fn lemma_item_start_prefix(a: Seq<i64>, b: Seq<i64>, n: int)
    requires
        0 <= n <= a.len(),
        n <= b.len(),
        forall|i: int| 0 <= i < n ==> a[i] == b[i],
    ensures
        item_start(a, n) == item_start(b, n),
    decreases n,
{
    if n > 0 {
        lemma_item_start_prefix(a, b, n - 1);
    }
}

/// A change of one size moves the start of every item behind it by as much,
/// and of no other.
pub proof fn lemma_item_start_update(sizes: Seq<i64>, index: int, size: i64, n: int)
    requires
        0 <= index < sizes.len(),
        0 <= n <= sizes.len(),
    ensures
        item_start(sizes.update(index, size), n) == item_start(sizes, n) + if index < n {
            size - sizes[index]
        } else {
            0
        },
    decreases n,
{
    if n > 0 {
        lemma_item_start_update(sizes, index, size, n - 1);
    }
}

/// Syncing again with the same list changes nothing more.
pub proof fn law_sync_is_idempotent(sizes: Seq<i64>, item_size: ItemSize, length: nat)
    ensures
        synced(synced(sizes, item_size, length), item_size, length) == synced(
            sizes,
            item_size,
            length,
        ),
{
    assert(synced(synced(sizes, item_size, length), item_size, length) =~= synced(
        sizes,
        item_size,
        length,
    ));
}

/// A synced cache has one size for each item, and an item that stays in the
/// list keeps the size that is known of it.
pub proof fn law_sync_keeps_known_sizes(sizes: Seq<i64>, estimate: i64, length: nat, index: int)
    requires
        0 <= index < length,
    ensures
        synced(sizes, ItemSize::Dynamic { estimate }, length).len() == length,
        index < sizes.len() ==> synced(sizes, ItemSize::Dynamic { estimate }, length)[index]
            == sizes[index],
        index >= sizes.len() ==> synced(sizes, ItemSize::Dynamic { estimate }, length)[index]
            == estimate,
{
}

/// An item that was measured is not taken for changed when it is laid out at
/// the same size again.
pub proof fn law_measuring_settles(sizes: Seq<i64>, index: int, measured: i64)
    requires
        measurement_counts(sizes, index, measured as int),
    ensures
        !measurement_counts(sizes.update(index, measured), index, measured as int),
{
}

/// After an item of the list was laid out the cache knows its size, to less
/// than half a pixel, and exactly where it was further off than that. No other
/// size changes, and a layout of no extent or of an item that is gone changes
/// nothing.
pub proof fn law_layout_is_cached(sizes: Seq<i64>, index: int, measured: i64)
    ensures
        laid_out(sizes, index, measured).len() == sizes.len(),
        forall|j: int|
            0 <= j < sizes.len() && j != index ==> #[trigger] laid_out(sizes, index, measured)[j]
                == sizes[j],
        0 <= index < sizes.len() && measured > 0 ==> -8_388_608 < laid_out(
            sizes,
            index,
            measured,
        )[index] - measured < 8_388_608,
        0 <= index < sizes.len() && measured > 0 && (measured - sizes[index] >= 8_388_608
            || sizes[index] - measured >= 8_388_608) ==> laid_out(sizes, index, measured)[index]
            == measured,
        0 <= index < sizes.len() && -8_388_608 < measured - sizes[index] < 8_388_608 ==> laid_out(
            sizes,
            index,
            measured,
        ) == sizes,
        measured <= 0 || index < 0 || index >= sizes.len() ==> laid_out(sizes, index, measured)
            == sizes,
{
}

/// A layout counts exactly where it changes the cache.
pub proof fn law_measurement_counts_where_it_changes(sizes: Seq<i64>, index: int, measured: i64)
    ensures
        measurement_counts(sizes, index, measured as int) <==> laid_out(sizes, index, measured)
            != sizes,
        measurement_counts(sizes, index, measured as int) <==> measured > 0 && 0 <= index
            < sizes.len() && (measured - sizes[index] >= 8_388_608 || sizes[index] - measured
            >= 8_388_608),
{
    if measurement_counts(sizes, index, measured as int) {
        assert(laid_out(sizes, index, measured)[index] == measured);
    }
}

/// The total of no sizes is nothing, and one more size adds itself to it.
pub proof fn law_total_adds_up(sizes: Seq<i64>, size: i64)
    ensures
        total_size(Seq::<i64>::empty()) == 0,
        total_size(sizes.push(size)) == total_size(sizes) + size,
{
    lemma_item_start_prefix(sizes, sizes.push(size), sizes.len() as int);
}

/// Lists of equal items leave the cache as it is.
pub proof fn law_sync_of_equal_items_changes_nothing(sizes: Seq<i64>, size: i64, length: nat)
    ensures
        synced(sizes, ItemSize::Fixed(size), length) == sizes,
{
}

/// A length by itself stands for items that all have it.
pub proof fn law_length_is_fixed_size(size: i64)
    ensures
        <ItemSize as FromSpec<i64>>::obeys_from_spec(),
        <ItemSize as FromSpec<i64>>::from_spec(size) == ItemSize::Fixed(size),
{
}

} // verus!
