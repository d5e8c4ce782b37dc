use vstd::prelude::*;
use std::collections::HashMap;

verus! {

broadcast use vstd::std_specs::hash::group_hash_axioms;

/// The colors of the shirts a store stocks.
#[derive(Debug, PartialEq, Eq, Structural, Hash, Copy, Clone)]
pub enum ShirtColor {
    Red,
    Blue,
}

/// How many times `color` occurs in `shirts`.
pub open spec fn count(shirts: Seq<ShirtColor>, color: ShirtColor) -> nat
    decreases shirts.len(),
{
    if shirts.len() == 0 {
        0
    } else {
        count(shirts.drop_last(), color) + if shirts.last() == color {
            1nat
        } else {
            0nat
        }
    }
}

/// `color` is stocked, and no color is stocked more.
pub open spec fn is_most_stocked(shirts: Seq<ShirtColor>, color: ShirtColor) -> bool {
    &&& count(shirts, color) > 0
    &&& forall|other: ShirtColor| #[trigger] count(shirts, other) <= count(shirts, color)
}

/// The key under which a color is counted.
pub open spec fn color_key(color: ShirtColor) -> u8 {
    match color {
        ShirtColor::Red => 0,
        ShirtColor::Blue => 1,
    }
}

/// The color counted under `key`.
pub open spec fn key_color(key: u8) -> ShirtColor {
    if key == 0 {
        ShirtColor::Red
    } else {
        ShirtColor::Blue
    }
}

fn key_of(color: ShirtColor) -> (k: u8)
    ensures
        k == color_key(color),
{
    match color {
        ShirtColor::Red => 0,
        ShirtColor::Blue => 1,
    }
}

fn color_of(key: u8) -> (c: ShirtColor)
    ensures
        c == key_color(key),
{
    if key == 0 {
        ShirtColor::Red
    } else {
        ShirtColor::Blue
    }
}

/// A store with the shirts it has in stock.
pub struct StoreInventory {
    pub shirts: Vec<ShirtColor>,
}

impl StoreInventory {
    /// The shirt a user gets as a present: the color they asked for, or else a color of
    /// which the store has the most.
    pub fn giveaway(&self, user_preference: Option<ShirtColor>) -> (r: ShirtColor)
        requires
            user_preference is None ==> self.shirts.len() > 0,
            self.shirts.len() <= i32::MAX,
        ensures
            match user_preference {
                Some(color) => r == color,
                None => is_most_stocked(self.shirts@, r),
            },
    {
        match user_preference {
            Some(color) => color,
            None => self.most_stocked(),
        }
    }

    /// A color of which the store has the most shirts. The colors are counted in a hash
    /// map and the first color met in the map's walk with a count above all earlier ones
    /// wins, so among colors with the same largest count the choice is not fixed.
    pub fn most_stocked(&self) -> (r: ShirtColor)
        requires
            self.shirts.len() > 0,
            self.shirts.len() <= i32::MAX,
        ensures
            is_most_stocked(self.shirts@, r),
    {
        let ghost shirts = self.shirts@;
        let mut counts: HashMap<u8, i32> = HashMap::new();
        let mut i: usize = 0;
        while i < self.shirts.len()
            invariant
                shirts == self.shirts@,
                i <= shirts.len() <= i32::MAX,
                forall|k: u8| #[trigger] counts@.contains_key(k) ==> {
                    &&& k <= 1
                    &&& counts@[k] == count(shirts.take(i as int), key_color(k))
                    &&& counts@[k] > 0
                },
                forall|c: ShirtColor|
                    count(shirts.take(i as int), c) > 0 ==> #[trigger] counts@.contains_key(
                        color_key(c),
                    ),
                forall|c: ShirtColor| #[trigger] count(shirts.take(i as int), c) <= i,
            decreases shirts.len() - i,
        {
            let color = self.shirts[i];
            let key = key_of(color);
            let current: i32 = match counts.get(&key) {
                Some(n) => *n,
                None => 0,
            };
            proof {
                assert(shirts.take(i + 1).drop_last() =~= shirts.take(i as int));
                assert forall|c: ShirtColor| #[trigger]
                    count(shirts.take(i + 1), c) == count(shirts.take(i as int), c) + if color
                        == c {
                        1nat
                    } else {
                        0nat
                    } by {}
                assert(key_color(key) == color);
                assert(current == count(shirts.take(i as int), color));
            }
            counts.insert(key, current + 1);
            i = i + 1;
        }
        assert(shirts.take(i as int) =~= shirts);
        let mut max_color: Option<ShirtColor> = None;
        let mut max_count: i32 = 0;
        for entry in it: counts.iter()
            invariant
                forall|k: u8| #[trigger] counts@.contains_key(k) ==> {
                    &&& k <= 1
                    &&& counts@[k] == count(shirts, key_color(k))
                    &&& counts@[k] > 0
                },
                max_color is None ==> max_count == 0,
                max_color matches Some(c) ==> count(shirts, c) == max_count && max_count > 0,
                forall|j: int|
                    0 <= j < it.index() ==> *(#[trigger] it.seq()[j]).1 <= max_count,
                forall|j: int|
                    0 <= j < it.seq().len() ==> counts@.contains_key(*(#[trigger] it.seq()[j]).0)
                        && counts@[*it.seq()[j].0] == *it.seq()[j].1,
                forall|k: u8| #[trigger]
                    counts@.contains_key(k) ==> it.seq().contains((&k, &counts@[k])),
                it.index() == it.seq().len() ==> forall|k: u8| #[trigger]
                    counts@.contains_key(k) ==> counts@[k] <= max_count,
        {
            let (key, n) = entry;
            if *n > max_count {
                max_color = Some(color_of(*key));
                max_count = *n;
            }
            proof {
                assert forall|k: u8|
                    it.index() == it.seq().len() && #[trigger] counts@.contains_key(k) implies counts@[k]
                        <= max_count by {
                    assert(it.seq().contains((&k, &counts@[k])));
                    let j = choose|j: int|
                        0 <= j < it.seq().len() && it.seq()[j] == (&k, &counts@[k]);
                    assert(*it.seq()[j].1 <= max_count);
                }
            }
        }
        proof {
            assert forall|other: ShirtColor| #[trigger] count(shirts, other) <= max_count by {
                if count(shirts, other) > 0 {
                    let k = color_key(other);
                    assert(counts@.contains_key(k));
                    assert(key_color(k) == other);
                }
            }
            let first = shirts[0];
            assert(count(shirts, first) > 0) by {
                assert(shirts.take(1).drop_last() =~= shirts.take(0));
                assert(count(shirts.take(1), first) > 0);
                lemma_count_prefix_monotone(shirts, first, 1);
            }
        }
        match max_color {
            Some(color) => color,
            None => {
                proof {
                    assert(false);
                }
                ShirtColor::Red
            },
        }
    }
}

/// Counts only grow along a sequence.
proof fn lemma_count_prefix_monotone(s: Seq<ShirtColor>, c: ShirtColor, i: int)
    requires
        0 <= i <= s.len(),
    ensures
        count(s.take(i), c) <= count(s, c),
    decreases s.len() - i,
{
    if i < s.len() {
        lemma_count_prefix_monotone(s, c, i + 1);
        assert(s.take(i + 1).drop_last() =~= s.take(i));
    } else {
        assert(s.take(i) =~= s);
    }
}

} // verus!
