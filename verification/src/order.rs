//! Stable sorting by keys: the order in which a list comes out when it is
//! sorted by a key without moving items of equal keys past each other.
//!
//! A key is a sequence of integers, and keys are ordered as words are in a
//! dictionary. A text is ordered as its characters' code points are; a flag
//! that goes first, or a number that goes in descending order, is put in
//! front as one integer.

use vstd::prelude::*;

verus! {

/// What a list of keys holds, in order.
pub open spec fn key_rows(keys: Seq<Vec<i64>>) -> Seq<Seq<i64>> {
    keys.map_values(|k: Vec<i64>| k@)
}

/// `a` comes no later than `b`, looking from position `i` on.
pub open spec fn lex_le_from(a: Seq<i64>, b: Seq<i64>, i: int) -> bool
    decreases a.len() - i,
{
    if i < 0 || i >= a.len() {
        true
    } else if i >= b.len() {
        false
    } else if a[i] != b[i] {
        a[i] < b[i]
    } else {
        lex_le_from(a, b, i + 1)
    }
}

/// `a` comes no later than `b` in the dictionary's order.
pub open spec fn lex_le(a: Seq<i64>, b: Seq<i64>) -> bool {
    lex_le_from(a, b, 0)
}

/// Of two keys, one comes no later than the other.
pub proof fn lemma_lex_total(a: Seq<i64>, b: Seq<i64>, i: int)
    requires
        0 <= i,
    ensures
        lex_le_from(a, b, i) || lex_le_from(b, a, i),
    decreases a.len() - i,
{
    if i < a.len() && i < b.len() && a[i] == b[i] {
        lemma_lex_total(a, b, i + 1);
    }
}

/// What comes no later than a key that comes no later than a third comes
/// no later than the third.
pub proof fn lemma_lex_transitive(a: Seq<i64>, b: Seq<i64>, c: Seq<i64>, i: int)
    requires
        0 <= i,
        lex_le_from(a, b, i),
        lex_le_from(b, c, i),
    ensures
        lex_le_from(a, c, i),
    decreases a.len() - i,
{
    if i < a.len() {
        if a[i] == b[i] && b[i] == c[i] {
            lemma_lex_transitive(a, b, c, i + 1);
        }
    }
}

/// Whether `a` comes no later than `b`.
pub fn key_le(a: &Vec<i64>, b: &Vec<i64>) -> (le: bool)
    ensures
        le == lex_le(a@, b@),
{
    let mut i: usize = 0;
    while i < a.len()
        invariant
            i <= a.len(),
            lex_le(a@, b@) == lex_le_from(a@, b@, i as int),
        decreases a.len() - i,
    {
        if i >= b.len() {
            return false;
        }
        if a[i] != b[i] {
            return a[i] < b[i];
        }
        i += 1;
    }
    true
}

/// Every number below `n` occurs exactly once in `order`.
pub open spec fn is_permutation(order: Seq<usize>, n: nat) -> bool {
    &&& order.len() == n
    &&& forall|k: int| 0 <= k < order.len() ==> (#[trigger] order[k]) < n
    &&& forall|p: int, q: int|
        0 <= p < q < order.len() ==> (#[trigger] order[p]) != (#[trigger] order[q])
}

/// The item `first` may stand before the item `second`: its key comes no
/// later, and where the two keys are the same it stood first before.
pub open spec fn may_precede(keys: Seq<Seq<i64>>, first: int, second: int) -> bool {
    lex_le(keys[first], keys[second]) && (lex_le(keys[second], keys[first]) ==> first < second)
}

/// `order` lists the positions of the items in the order of their keys,
/// items of the same key in the order in which they stood.
pub open spec fn is_stable_order(keys: Seq<Seq<i64>>, order: Seq<usize>) -> bool {
    &&& is_permutation(order, keys.len())
    &&& forall|p: int, q: int|
        0 <= p < q < order.len() ==> may_precede(
            keys,
            (#[trigger] order[p]) as int,
            (#[trigger] order[q]) as int,
        )
}

/// The order in which the items of the keys `keys` come out of a stable
/// sort.
pub fn stable_order(keys: &Vec<Vec<i64>>) -> (order: Vec<usize>)
    ensures
        is_stable_order(key_rows(keys@), order@),
{
    let mut order: Vec<usize> = Vec::new();
    let ghost rows = key_rows(keys@);
    let mut i: usize = 0;
    while i < keys.len()
        invariant
            i <= keys.len(),
            rows == key_rows(keys@),
            is_permutation(order@, i as nat),
            forall|p: int, q: int|
                0 <= p < q < order.len() ==> may_precede(
                    rows,
                    (#[trigger] order[p]) as int,
                    (#[trigger] order[q]) as int,
                ),
        decreases keys.len() - i,
    {
        let mut p: usize = order.len();
        while p > 0 && !key_le(&keys[order[p - 1]], &keys[i])
            invariant
                p <= order.len(),
                i < keys.len(),
                rows == key_rows(keys@),
                is_permutation(order@, i as nat),
                forall|j: int|
                    p <= j < order.len() ==> !lex_le(rows[(#[trigger] order[j]) as int], rows[i as int]),
            decreases p,
        {
            p -= 1;
        }
        let ghost old_order = order@;
        let mut next: Vec<usize> = Vec::new();
        let mut j: usize = 0;
        while j < p
            invariant
                j <= p <= order.len(),
                next@ == order@.take(j as int),
            decreases p - j,
        {
            next.push(order[j]);
            j += 1;
        }
        next.push(i);
        while j < order.len()
            invariant
                p <= j <= order.len(),
                next@ == order@.take(p as int).push(i) + order@.subrange(p as int, j as int),
            decreases order.len() - j,
        {
            next.push(order[j]);
            j += 1;
        }
        proof {
            let fresh = next@;
            assert(fresh.len() == i + 1);
            assert forall|k: int| 0 <= k < fresh.len() implies (#[trigger] fresh[k]) < i + 1 by {
                if k < p {
                    assert(fresh[k] == old_order[k]);
                } else if k > p {
                    assert(fresh[k] == old_order[k - 1]);
                }
            }
            assert forall|a: int, b: int| 0 <= a < b < fresh.len() implies (#[trigger] fresh[a])
                != (#[trigger] fresh[b]) && may_precede(rows, fresh[a] as int, fresh[b] as int) by {
                if b < p {
                    assert(fresh[a] == old_order[a] && fresh[b] == old_order[b]);
                } else if b == p {
                    // the new item stands last of the two
                    assert(fresh[a] == old_order[a]);
                    assert(old_order[a] < i);
                    if a < p - 1 {
                        assert(may_precede(rows, old_order[a] as int, old_order[p - 1] as int));
                        lemma_lex_transitive(
                            rows[old_order[a] as int],
                            rows[old_order[p - 1] as int],
                            rows[i as int],
                            0,
                        );
                    }
                } else if a == p {
                    // the new item stands first of the two
                    assert(fresh[b] == old_order[b - 1]);
                    assert(old_order[b - 1] < i);
                    lemma_lex_total(rows[i as int], rows[old_order[b - 1] as int], 0);
                } else if a < p {
                    assert(fresh[a] == old_order[a] && fresh[b] == old_order[b - 1]);
                } else {
                    assert(fresh[a] == old_order[a - 1] && fresh[b] == old_order[b - 1]);
                }
            }
        }
        order = next;
        i += 1;
    }
    order
}

/// The key of a text: the code points of its characters.
pub open spec fn text_key(s: Seq<char>) -> Seq<i64> {
    s.map_values(|c: char| c as u32 as i64)
}

/// Appends the key of a text to a key.
pub fn push_text_key(key: &mut Vec<i64>, s: &Vec<char>)
    ensures
        final(key)@ == old(key)@ + text_key(s@),
{
    let mut i: usize = 0;
    while i < s.len()
        invariant
            i <= s.len(),
            key@ == old(key)@ + text_key(s@.take(i as int)),
        decreases s.len() - i,
    {
        let ghost before = key@;
        key.push(s[i] as u32 as i64);
        assert(key@ =~= old(key)@ + text_key(s@.take(i + 1)));
        i += 1;
    }
    assert(s@.take(s.len() as int) == s@);
}


/// The items in the order that `order` lists.
pub open spec fn arranged<T>(items: Seq<T>, order: Seq<usize>) -> Seq<T> {
    Seq::new(order.len(), |k: int| items[order[k] as int])
}

/// `out` holds the items of `items` sorted by their keys `keys`, items of
/// the same key in the order in which they stood.
pub open spec fn is_sorted_by<T>(items: Seq<T>, keys: Seq<Seq<i64>>, out: Seq<T>) -> bool {
    exists|order: Seq<usize>| is_stable_order(keys, order) && out == arranged(items, order)
}

} // verus!
