//! Advanced features: a safe split of a slice, operator overloading, the newtype pattern.

use vstd::prelude::*;
use core::ops::Add;

verus! {

/// Splits `values` at `mid` into two slices that can be changed independently.
pub fn split_at_mut(values: &mut [i32], mid: usize) -> (r: (&mut [i32], &mut [i32]))
    requires
        mid <= old(values).len(),
    ensures
        r.0@ == old(values)@.subrange(0, mid as int),
        r.1@ == old(values)@.subrange(mid as int, old(values)@.len() as int),
        final(values)@ == final(r.0)@ + final(r.1)@,
{
    values.split_at_mut(mid)
}

/// A point of the plane; points add coordinate by coordinate.
#[derive(Debug, Copy, Clone, PartialEq, Eq, Structural)]
pub struct Point {
    pub x: i32,
    pub y: i32,
}

impl Add for Point {
    type Output = Point;

    fn add(self, other: Point) -> (r: Point)
        ensures
            r.x == self.x + other.x,
            r.y == self.y + other.y,
    {
        Point { x: self.x + other.x, y: self.y + other.y }
    }
}

impl vstd::std_specs::ops::AddSpecImpl for Point {
    open spec fn obeys_add_spec() -> bool {
        true
    }

    open spec fn add_req(self, rhs: Point) -> bool {
        &&& i32::MIN <= self.x + rhs.x <= i32::MAX
        &&& i32::MIN <= self.y + rhs.y <= i32::MAX
    }

    open spec fn add_spec(self, rhs: Point) -> Point {
        Point { x: (self.x + rhs.x) as i32, y: (self.y + rhs.y) as i32 }
    }
}

/// A length in millimeters.
pub struct Millimeters(pub u32);

/// A length in meters.
pub struct Meters(pub u32);

impl Add<Meters> for Millimeters {
    type Output = Millimeters;

    fn add(self, other: Meters) -> (r: Millimeters)
        ensures
            r.0 == self.0 + other.0 * 1000,
    {
        Millimeters(self.0 + (other.0 * 1000))
    }
}

impl vstd::std_specs::ops::AddSpecImpl<Meters> for Millimeters {
    open spec fn obeys_add_spec() -> bool {
        true
    }

    open spec fn add_req(self, rhs: Meters) -> bool {
        self.0 + rhs.0 * 1000 <= u32::MAX
    }

    open spec fn add_spec(self, rhs: Meters) -> Millimeters {
        Millimeters((self.0 + rhs.0 * 1000) as u32)
    }
}

/// A list of strings, shown between brackets and separated by commas.
pub struct Wrapper(pub Vec<String>);

/// The items joined by `sep`.
pub open spec fn joined(items: Seq<Seq<char>>, sep: Seq<char>) -> Seq<char>
    decreases items.len(),
{
    if items.len() == 0 {
        Seq::empty()
    } else if items.len() == 1 {
        items[0]
    } else {
        joined(items.drop_last(), sep) + sep + items.last()
    }
}

impl Wrapper {
    /// The views of the strings held.
    pub open spec fn items(&self) -> Seq<Seq<char>> {
        self.0@.map_values(|s: String| s@)
    }

    /// The text that `Display` would show: `"[a, b, c]"`.
    pub fn to_string(&self) -> (r: String)
        ensures
            r@ == "["@ + joined(self.items(), ", "@) + "]"@,
    {
        let mut body = String::new();
        let n = self.0.len();
        let mut i: usize = 0;
        while i < n
            invariant
                i <= n,
                n == self.0.len(),
                body@ == joined(self.items().take(i as int), ", "@),
            decreases n - i,
        {
            assert(self.items().take(i + 1).drop_last() =~= self.items().take(i as int));
            if i > 0 {
                body.append(", ");
            }
            body.append(self.0[i].as_str());
            i = i + 1;
        }
        assert(self.items().take(n as int) =~= self.items());
        let mut text = "[".to_owned();
        text.append(body.as_str());
        text.append("]");
        text
    }
}

/// The sum of the lengths of the items.
pub open spec fn total_len(items: Seq<Seq<char>>) -> nat
    decreases items.len(),
{
    if items.len() == 0 {
        0
    } else {
        total_len(items.drop_last()) + items.last().len()
    }
}

/// Joining a single item gives the item itself.
pub proof fn law_join_single(item: Seq<char>, sep: Seq<char>)
    ensures
        joined(seq![item], sep) == item,
{
}

/// Joining splits at any point between two items: the items before it, joined, then one
/// separator, then the items after it, joined.
pub proof fn law_join_splits(items: Seq<Seq<char>>, sep: Seq<char>, k: int)
    requires
        0 < k < items.len(),
    ensures
        joined(items, sep) == joined(items.take(k), sep) + sep + joined(items.skip(k), sep),
    decreases items.len(),
{
    let n = items.len() as int;
    assert(items.drop_last().take(k) =~= items.take(k));
    if k == n - 1 {
        assert(items.skip(k) =~= seq![items.last()]);
        assert(items.drop_last() =~= items.take(k));
    } else {
        law_join_splits(items.drop_last(), sep, k);
        assert(items.drop_last().skip(k) =~= items.skip(k).drop_last());
        assert(items.skip(k).last() == items.last());
        assert(items.skip(k).len() >= 2);
    }
}

/// The joined text of n >= 1 items is as long as the items together plus n - 1 separators:
/// exactly one separator between every two neighbours.
pub proof fn law_join_length(items: Seq<Seq<char>>, sep: Seq<char>)
    requires
        items.len() >= 1,
    ensures
        joined(items, sep).len() == total_len(items) + (items.len() - 1) * sep.len(),
    decreases items.len(),
{
    if items.len() >= 2 {
        law_join_length(items.drop_last(), sep);
        let n = items.len() as int;
        let m = sep.len() as int;
        assert((n - 1) * m == (n - 2) * m + m) by (nonlinear_arith);
        assert(joined(items, sep) == joined(items.drop_last(), sep) + sep + items.last());
        assert(total_len(items) == total_len(items.drop_last()) + items.last().len());
    } else {
        assert(items.drop_last().len() == 0);
        assert(items.last() == items[0]);
        assert(total_len(items) == total_len(items.drop_last()) + items.last().len());
        assert(joined(items, sep) == items[0]);
    }
}

} // verus!
