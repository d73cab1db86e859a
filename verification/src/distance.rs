//! View-space distances, and the two orders that sorting goes by.

use vstd::prelude::*;

verus! {

/// A view-space distance: a single-precision floating-point number, held as its bits.
#[derive(Clone, Copy, Debug, PartialEq, Eq, Structural)]
pub struct Distance {
    pub bits: u32,
}

impl Distance {
    /// Whether the sign bit is set.
    pub open spec fn is_negative(self) -> bool {
        self.bits >= 0x8000_0000
    }

    /// The exponent and the mantissa as one number, which grows away from zero.
    pub open spec fn magnitude(self) -> int {
        if self.is_negative() {
            self.bits - 0x8000_0000
        } else {
            self.bits as int
        }
    }

    /// Whether the bits are those of a NaN: a magnitude beyond infinity.
    pub open spec fn is_nan(self) -> bool {
        self.magnitude() > 0x7f80_0000
    }

    /// The place on the number line, zero at zero: the numbers that are no NaN compare as their
    /// places do.
    pub open spec fn place(self) -> int {
        if self.is_negative() {
            -self.magnitude()
        } else {
            self.magnitude()
        }
    }

    /// The key that a radix sort of floating-point numbers goes by: negative numbers before
    /// positive ones, the larger magnitudes of negative numbers first.
    pub open spec fn spec_radix_key(self) -> u32 {
        if self.is_negative() {
            (0xffff_ffff - self.bits) as u32
        } else {
            (self.bits + 0x8000_0000) as u32
        }
    }

    /// The key that a radix sort of floating-point numbers goes by.
    pub fn radix_key(self) -> (key: u32)
        ensures
            key == self.spec_radix_key(),
    {
        if self.bits >= 0x8000_0000 {
            0xffff_ffff - self.bits
        } else {
            self.bits + 0x8000_0000
        }
    }
}

/// A distance as a key with a total order: a NaN is less than every number and equal to every
/// other NaN, the two zeros are equal, and numbers compare as numbers.
///
/// The derived order is that of the rank.
#[derive(Clone, Copy, Debug, PartialEq, Eq, PartialOrd, Ord, Hash, Structural)]
pub struct FloatOrd {
    pub rank: u32,
}

impl FloatOrd {
    /// The key of a distance.
    pub open spec fn spec_new(distance: Distance) -> FloatOrd {
        FloatOrd {
            rank: if distance.is_nan() {
                0
            } else {
                (distance.place() + 0x8000_0000) as u32
            },
        }
    }

    /// The key of a distance.
    pub fn new(distance: Distance) -> (key: FloatOrd)
        ensures
            key == FloatOrd::spec_new(distance),
    {
        let negative = distance.bits >= 0x8000_0000;
        let magnitude: u32 = if negative {
            distance.bits - 0x8000_0000
        } else {
            distance.bits
        };
        FloatOrd {
            rank: if magnitude > 0x7f80_0000 {
                0
            } else if negative {
                0x8000_0000 - magnitude
            } else {
                0x8000_0000 + magnitude
            },
        }
    }
}

/// A NaN is less than every number and equal to every other NaN; numbers compare as numbers.
pub proof fn float_ord_is_total(a: Distance, b: Distance)
    ensures
        FloatOrd::spec_new(a).rank <= FloatOrd::spec_new(b).rank <==> a.is_nan() || !b.is_nan()
            && a.place() <= b.place(),
        FloatOrd::spec_new(a) == FloatOrd::spec_new(b) <==> a.is_nan() && b.is_nan()
            || !a.is_nan() && !b.is_nan() && a.place() == b.place(),
{
}

/// The radix sort keys tell all distances apart, order the numbers as numbers, with the
/// negative zero before the positive one, and put the NaNs at the ends, by sign.
pub proof fn radix_keys_order_distances(a: Distance, b: Distance)
    ensures
        a.spec_radix_key() == b.spec_radix_key() <==> a == b,
        a.place() < b.place() ==> a.spec_radix_key() < b.spec_radix_key(),
        a.place() == b.place() && a.is_negative() && !b.is_negative() ==> a.spec_radix_key()
            < b.spec_radix_key(),
        !a.is_nan() && b.is_nan() ==> (a.spec_radix_key() < b.spec_radix_key()
            <==> !b.is_negative()),
{
}

/// A NaN, whose bits without the sign are beyond those of infinity, is less than every number and
/// equal to every NaN. Of two numbers without a sign, the one with the greater bits is greater;
/// with a sign, it is less. A number with a sign is less than one without, but for the two zeros,
/// which are equal.
pub proof fn float_ord_goes_by_sign_and_bits(a: Distance, b: Distance)
    ensures
        ({
            let (x, y) = (FloatOrd::spec_new(a).rank, FloatOrd::spec_new(b).rank);
            let a_nan = a.bits % 0x8000_0000 > 0x7f80_0000;
            let b_nan = b.bits % 0x8000_0000 > 0x7f80_0000;
            &&& a_nan && b_nan ==> x == y
            &&& a_nan && !b_nan ==> x < y
            &&& !a_nan && !b_nan && a.bits < 0x8000_0000 && b.bits < 0x8000_0000 ==> (x <= y
                <==> a.bits <= b.bits)
            &&& !a_nan && !b_nan && a.bits >= 0x8000_0000 && b.bits >= 0x8000_0000 ==> (x <= y
                <==> a.bits >= b.bits)
            &&& !a_nan && !b_nan && a.bits >= 0x8000_0000 && b.bits < 0x8000_0000 ==> x <= y && (x
                == y <==> a.bits == 0x8000_0000 && b.bits == 0)
        }),
{
}

/// Distances with a sign come before those without. Without a sign, those with the lesser bits
/// come first; with a sign, those with the greater. So negative numbers come before positive ones,
/// and numbers in the order of their values.
pub proof fn radix_keys_go_by_sign_and_bits(a: Distance, b: Distance)
    ensures
        a.bits >= 0x8000_0000 && b.bits < 0x8000_0000 ==> a.spec_radix_key() < b.spec_radix_key(),
        a.bits < 0x8000_0000 && b.bits < 0x8000_0000 ==> (a.spec_radix_key() < b.spec_radix_key()
            <==> a.bits < b.bits),
        a.bits >= 0x8000_0000 && b.bits >= 0x8000_0000 ==> (a.spec_radix_key() < b.spec_radix_key()
            <==> a.bits > b.bits),
        a.spec_radix_key() == b.spec_radix_key() <==> a.bits == b.bits,
{
}

/// An item that is drawn in the order of its distance.
pub trait DistanceSorted: Sized {
    /// The distance of the item.
    spec fn spec_distance(&self) -> Distance;

    /// The distance of the item.
    fn get_distance(&self) -> (distance: Distance)
        ensures
            distance == self.spec_distance(),
    ;
}

/// An item with something beside it goes by the distance of the item.
impl<T: DistanceSorted, U> DistanceSorted for (T, U) {
    open spec fn spec_distance(&self) -> Distance {
        self.0.spec_distance()
    }

    fn get_distance(&self) -> (distance: Distance) {
        self.0.get_distance()
    }
}

/// The items of one distance, in order.
pub open spec fn at_key<T: DistanceSorted>(items: Seq<T>, key: u32) -> Seq<T> {
    items.filter(|item: T| item.spec_distance().spec_radix_key() == key)
}

/// Whether the items go by increasing radix sort key.
pub open spec fn is_sorted<T: DistanceSorted>(items: Seq<T>) -> bool {
    forall|i: int, j: int|
        0 <= i <= j < items.len() ==> (#[trigger] items[i]).spec_distance().spec_radix_key() <= (
        #[trigger] items[j]).spec_distance().spec_radix_key()
}

/// Whether `after` has the items of `before`, sorted by distance, those of equal distance in
/// the order that they had.
pub open spec fn is_stable_sort<T: DistanceSorted>(before: Seq<T>, after: Seq<T>) -> bool {
    &&& after.to_multiset() == before.to_multiset()
    &&& is_sorted(after)
    &&& forall|key: u32| #[trigger] at_key(after, key) == at_key(before, key)
}

/// Calls `radsort::sort_by_key`, a stable sort by the key of each item in increasing order.
#[verifier::external_body]
fn radix_sort<T: DistanceSorted>(items: &mut [T])
    ensures
        is_stable_sort(old(items)@, final(items)@),
{
    radsort::sort_by_key(items, |item| item.get_distance().radix_key());
}

/// Sorts items by their distance; items at the same distance keep their order.
pub fn sort_by_distance<T: DistanceSorted>(items: &mut [T])
    ensures
        is_stable_sort(old(items)@, final(items)@),
{
    radix_sort(items);
}

/// A stable sort leaves no choice: there is one way to do it.
pub proof fn stable_sort_is_unique<T: DistanceSorted>(before: Seq<T>, a: Seq<T>, b: Seq<T>)
    requires
        is_stable_sort(before, a),
        is_stable_sort(before, b),
    ensures
        a == b,
{
    assert forall|key: u32| #[trigger] at_key(a, key) == at_key(b, key) by {
        assert(at_key(a, key) == at_key(before, key));
        assert(at_key(b, key) == at_key(before, key));
    }
    same_items_same_order(a, b);
}

/// Two sorted sequences with the same items at each key are the same.
proof fn same_items_same_order<T: DistanceSorted>(a: Seq<T>, b: Seq<T>)
    requires
        is_sorted(a),
        is_sorted(b),
        forall|key: u32| #[trigger] at_key(a, key) == at_key(b, key),
    ensures
        a == b,
    decreases a.len(),
{
    reveal(Seq::filter);
    if a.len() == 0 {
        if b.len() > 0 {
            let key = b.last().spec_distance().spec_radix_key();
            assert(at_key(a, key) == at_key(b, key));
            assert(at_key(b, key).len() > 0);
        }
        assert(a =~= b);
    } else {
        let key = a.last().spec_distance().spec_radix_key();
        assert(at_key(a, key).last() == a.last());
        assert(at_key(b, key).len() > 0);
        assert(b.len() > 0);
        let other = b.last().spec_distance().spec_radix_key();
        assert(at_key(b, other).last() == b.last());
        assert(at_key(a, other).len() > 0);
        in_filter(a, other);
        in_filter(b, key);
        assert(key == other);
        assert(a.last() == b.last());
        let (c, d) = (a.drop_last(), b.drop_last());
        assert forall|k: u32| #[trigger] at_key(c, k) == at_key(d, k) by {
            assert(at_key(a, k) == at_key(b, k));
            if k == key {
                assert(at_key(a, k) == at_key(c, k).push(a.last()));
                assert(at_key(b, k) == at_key(d, k).push(b.last()));
                assert(at_key(c, k) =~= at_key(a, k).drop_last());
                assert(at_key(d, k) =~= at_key(b, k).drop_last());
            }
        }
        assert(is_sorted(c)) by {
            assert forall|i: int, j: int| 0 <= i <= j < c.len() implies (
            #[trigger] c[i]).spec_distance().spec_radix_key() <= (
            #[trigger] c[j]).spec_distance().spec_radix_key() by {
                assert(c[i] == a[i] && c[j] == a[j]);
            }
        }
        assert(is_sorted(d)) by {
            assert forall|i: int, j: int| 0 <= i <= j < d.len() implies (
            #[trigger] d[i]).spec_distance().spec_radix_key() <= (
            #[trigger] d[j]).spec_distance().spec_radix_key() by {
                assert(d[i] == b[i] && d[j] == b[j]);
            }
        }
        same_items_same_order(c, d);
        assert(a =~= c.push(a.last()));
        assert(b =~= d.push(b.last()));
    }
}

/// A key that some item has is at most that of the last.
proof fn in_filter<T: DistanceSorted>(items: Seq<T>, key: u32)
    requires
        is_sorted(items),
        items.len() > 0,
        at_key(items, key).len() > 0,
    ensures
        key <= items.last().spec_distance().spec_radix_key(),
{
    let pred = |item: T| item.spec_distance().spec_radix_key() == key;
    let found = items.filter(pred)[0];
    items.lemma_filter_pred(pred, 0);
    filter_is_from(items, pred, 0);
    let i = items.index_of(found);
    assert(items[i] == found);
    assert(items[i].spec_distance().spec_radix_key() <= items[items.len()
        - 1].spec_distance().spec_radix_key());
}

/// What a filter keeps was there.
proof fn filter_is_from<T>(items: Seq<T>, pred: spec_fn(T) -> bool, i: int)
    requires
        0 <= i < items.filter(pred).len(),
    ensures
        items.contains(items.filter(pred)[i]),
    decreases items.len(),
{
    reveal(Seq::filter);
    let before = items.drop_last();
    if i < before.filter(pred).len() {
        filter_is_from(before, pred, i);
        let j = before.index_of(before.filter(pred)[i]);
        assert(items[j] == before.filter(pred)[i]);
    } else {
        assert(items[items.len() - 1] == items.filter(pred)[i]);
    }
}

/// After sorting there are the same items, in the order of the values of their distances, and the
/// items of any one distance are in the order that they had.
pub proof fn sorting_goes_by_sign_and_bits<T: DistanceSorted>(
    before: Seq<T>,
    after: Seq<T>,
    bits: u32,
)
    requires
        is_stable_sort(before, after),
    ensures
        after.to_multiset() == before.to_multiset(),
        forall|i: int, j: int|
            #![trigger after[i], after[j]]
            0 <= i <= j < after.len() ==> {
                let (a, b) = (after[i].spec_distance().bits, after[j].spec_distance().bits);
                &&& a >= 0x8000_0000 || b < 0x8000_0000
                &&& a < 0x8000_0000 && b < 0x8000_0000 ==> a <= b
                &&& a >= 0x8000_0000 && b >= 0x8000_0000 ==> a >= b
            },
        after.filter(|item: T| item.spec_distance().bits == bits) == before.filter(
            |item: T| item.spec_distance().bits == bits,
        ),
{
    assert forall|i: int, j: int| #![trigger after[i], after[j]] 0 <= i <= j < after.len() implies {
        let (a, b) = (after[i].spec_distance().bits, after[j].spec_distance().bits);
        &&& a >= 0x8000_0000 || b < 0x8000_0000
        &&& a < 0x8000_0000 && b < 0x8000_0000 ==> a <= b
        &&& a >= 0x8000_0000 && b >= 0x8000_0000 ==> a >= b
    } by {
        radix_keys_go_by_sign_and_bits(after[i].spec_distance(), after[j].spec_distance());
        radix_keys_go_by_sign_and_bits(after[j].spec_distance(), after[i].spec_distance());
    }
    let key = (Distance { bits }).spec_radix_key();
    let has_key = |item: T| item.spec_distance().spec_radix_key() == key;
    let has_bits = |item: T| item.spec_distance().bits == bits;
    assert forall|item: T| #[trigger] has_key(item) == has_bits(item) by {
        radix_keys_go_by_sign_and_bits(item.spec_distance(), Distance { bits });
    }
    assert(has_key =~= has_bits);
    assert(at_key(after, key) == at_key(before, key));
}

/// Items that are sorted already stay as they are.
pub proof fn sorted_items_stay<T: DistanceSorted>(before: Seq<T>, after: Seq<T>)
    requires
        is_stable_sort(before, after),
        is_sorted(before),
    ensures
        after == before,
{
    assert(is_stable_sort(before, before));
    stable_sort_is_unique(before, before, after);
}

/// Sorting by distance puts the items in the order of their sort keys, back to front, unless
/// a NaN with a clear sign bit meets a number: such a NaN ends up last, though its key is less
/// than that of the number.
pub proof fn sorting_orders_by_sort_key<T: DistanceSorted>(before: Seq<T>, after: Seq<T>)
    requires
        is_stable_sort(before, after),
        forall|i: int, j: int|
            0 <= i < before.len() && 0 <= j < before.len() ==> !((
            #[trigger] before[i]).spec_distance().is_nan()
                && !before[i].spec_distance().is_negative() && !(
            #[trigger] before[j]).spec_distance().is_nan()),
    ensures
        forall|i: int, j: int|
            0 <= i <= j < after.len() ==> FloatOrd::spec_new(
                (#[trigger] after[i]).spec_distance(),
            ).rank <= FloatOrd::spec_new((#[trigger] after[j]).spec_distance()).rank,
{
    assert forall|i: int, j: int| 0 <= i <= j < after.len() implies FloatOrd::spec_new(
        (#[trigger] after[i]).spec_distance(),
    ).rank <= FloatOrd::spec_new((#[trigger] after[j]).spec_distance()).rank by {
        let (a, b) = (after[i], after[j]);
        before.to_multiset_ensures();
        after.to_multiset_ensures();
        assert(after.to_multiset().count(a) > 0);
        assert(after.to_multiset().count(b) > 0);
        assert(before.contains(a) && before.contains(b));
        let (k, l) = (before.index_of(a), before.index_of(b));
        assert(before[k] == a && before[l] == b);
        float_ord_is_total(a.spec_distance(), b.spec_distance());
        radix_keys_order_distances(a.spec_distance(), b.spec_distance());
        radix_keys_order_distances(b.spec_distance(), a.spec_distance());
    }
}

} // verus!
