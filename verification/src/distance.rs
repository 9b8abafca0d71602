//! Distances as the library sees them.
//!
//! The engine measures distances as single-precision numbers. The library
//! never does arithmetic on them; it only asks which of two is the smaller.
//! So a distance reaches it as a key: the number's bit pattern, read as an
//! unsigned integer. For numbers that are zero or more, keys compare exactly
//! as the numbers do, and the key of infinity is the largest of them. Any
//! pattern above that is not a number at all (or carries a minus sign, which
//! no measured distance does), and counts as no distance: it is in no range
//! and hits nothing.

use vstd::prelude::*;

verus! {

/// The key of an infinite distance, the largest key that is a distance.
pub const INFINITE: u32 = 0x7F80_0000;

/// Whether `key` stands for a distance at all.
pub open spec fn is_distance(key: u32) -> bool {
    key <= INFINITE
}

/// Whether distance `key` lies within `range`, the range's own end included.
/// Nothing lies within a range that is not a distance.
pub open spec fn within(key: u32, range: u32) -> bool {
    key <= range && is_distance(range)
}

/// Whether distance `key` lies strictly below `limit`.
pub open spec fn below(key: u32, limit: u32) -> bool {
    key < limit && is_distance(limit)
}

/// Whether `i` is the place of the nearest of `keys` within `range`: within
/// range, no farther than any other that is within range, and the first of
/// those that are equally near.
pub open spec fn is_nearest(keys: Seq<u32>, range: u32, i: int) -> bool {
    &&& 0 <= i < keys.len()
    &&& within(keys[i], range)
    &&& forall|j: int| 0 <= j < keys.len() && within(#[trigger] keys[j], range) ==> keys[i] <= keys[j]
    &&& forall|j: int| 0 <= j < i ==> #[trigger] keys[j] != keys[i]
}

/// Whether none of `keys` lies within `range`.
pub open spec fn none_within(keys: Seq<u32>, range: u32) -> bool {
    forall|j: int| 0 <= j < keys.len() ==> !within(#[trigger] keys[j], range)
}

/// Tells whether `key` lies within `range`.
pub fn in_range(key: u32, range: u32) -> (b: bool)
    ensures
        b == within(key, range),
{
    key <= range && range <= INFINITE
}

/// Finds the nearest of `keys` within `range`, the first one where several
/// are equally near; `None` where nothing is within range.
pub fn nearest_in_range(keys: &Vec<u32>, range: u32) -> (found: Option<usize>)
    ensures
        match found {
            Some(i) => is_nearest(keys@, range, i as int),
            None => none_within(keys@, range),
        },
{
    let mut best: Option<usize> = None;
    let mut i: usize = 0;
    while i < keys.len()
        invariant
            i <= keys.len(),
            match best {
                Some(b) => b < i && is_nearest(keys@.take(i as int), range, b as int),
                None => none_within(keys@.take(i as int), range),
            },
        decreases keys.len() - i,
    {
        let key = keys[i];
        let ghost before = keys@.take(i as int);
        let ghost after = keys@.take(i + 1);
        assert(forall|j: int| 0 <= j < i ==> before[j] == after[j]);
        assert(after[i as int] == key);
        if in_range(key, range) {
            match best {
                Some(b) => {
                    if key < keys[b] {
                        best = Some(i);
                    }
                },
                None => {
                    best = Some(i);
                },
            }
        }
        i += 1;
        proof {
            match best {
                Some(b) => {
                    assert(is_nearest(after, range, b as int));
                },
                None => {
                    assert(none_within(after, range));
                },
            }
        }
    }
    assert(keys@.take(i as int) =~= keys@);
    best
}

/// No list has two nearest places.
pub proof fn nearest_is_unique(keys: Seq<u32>, range: u32, i: int, j: int)
    requires
        is_nearest(keys, range, i),
        is_nearest(keys, range, j),
    ensures
        i == j,
{
    assert(keys[i] <= keys[j]);
    assert(keys[j] <= keys[i]);
    if i < j {
        assert(keys[i] != keys[j]);
    }
    if j < i {
        assert(keys[j] != keys[i]);
    }
}

/// A list has a nearest place exactly when something in it is within range.
pub proof fn nearest_exists(keys: Seq<u32>, range: u32)
    ensures
        none_within(keys, range) <==> !exists|i: int| is_nearest(keys, range, i),
    decreases keys.len(),
{
    if none_within(keys, range) {
        assert forall|i: int| !is_nearest(keys, range, i) by {
            if is_nearest(keys, range, i) {
                assert(!within(keys[i], range));
            }
        }
    } else {
        let w = choose|j: int| 0 <= j < keys.len() && within(#[trigger] keys[j], range);
        let shorter = keys.drop_last();
        let last = keys.len() - 1;
        nearest_exists(shorter, range);
        assert(forall|j: int| 0 <= j < last ==> shorter[j] == keys[j]);
        if none_within(shorter, range) {
            assert(w == last) by {
                if w < last {
                    assert(within(shorter[w], range));
                }
            }
            assert forall|j: int| 0 <= j < keys.len() && within(#[trigger] keys[j], range) implies keys[last]
                <= keys[j] by {
                if j < last {
                    assert(within(shorter[j], range));
                }
            }
            assert forall|j: int| 0 <= j < last implies #[trigger] keys[j] != keys[last] by {
                if keys[j] == keys[last] {
                    assert(within(shorter[j], range));
                }
            }
            assert(is_nearest(keys, range, last));
        } else {
            let b = choose|b: int| is_nearest(shorter, range, b);
            if within(keys[last], range) && keys[last] < keys[b] {
                assert forall|j: int| 0 <= j < keys.len() && within(#[trigger] keys[j], range) implies keys[last]
                    <= keys[j] by {
                    if j < last {
                        assert(within(shorter[j], range));
                        assert(shorter[b] <= shorter[j]);
                    }
                }
                assert forall|j: int| 0 <= j < last implies #[trigger] keys[j] != keys[last] by {
                    if keys[j] == keys[last] {
                        assert(within(shorter[j], range));
                        assert(shorter[b] <= shorter[j]);
                    }
                }
                assert(is_nearest(keys, range, last));
            } else {
                assert forall|j: int| 0 <= j < keys.len() && within(#[trigger] keys[j], range) implies keys[b]
                    <= keys[j] by {
                    if j < last {
                        assert(within(shorter[j], range));
                        assert(shorter[b] <= shorter[j]);
                    }
                }
                assert forall|j: int| 0 <= j < b implies #[trigger] keys[j] != keys[b] by {
                    assert(shorter[j] != shorter[b]);
                }
                assert(is_nearest(keys, range, b));
            }
        }
    }
}

} // verus!
