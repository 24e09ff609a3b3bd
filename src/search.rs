//! The "rightmost key not above the target" rule shared by the page-level and
//! the function-level searches.
use vstd::prelude::*;

verus! {

/// One past the index of the rightmost key that is `<= t`; zero when there is none.
pub open spec fn upper(keys: Seq<u32>, t: u32) -> int
    decreases keys.len(),
{
    if keys.len() == 0 {
        0
    } else if keys.last() <= t {
        keys.len() as int
    } else {
        upper(keys.drop_last(), t)
    }
}

/// Keys in strictly ascending order.
pub open spec fn strictly_ascending(keys: Seq<u32>) -> bool {
    forall|i: int, j: int| 0 <= i < j < keys.len() ==> keys[i] < keys[j]
}

/// `idx` splits the keys around `t`: the key just before it is `<= t`, the key
/// at it is `> t`.
pub open spec fn brackets(keys: Seq<u32>, t: u32, idx: int) -> bool {
    &&& 0 <= idx <= keys.len()
    &&& (idx == 0 || keys[idx - 1] <= t)
    &&& (idx == keys.len() || keys[idx] > t)
}

/// On ascending keys, the split point around a target is unique: it is `upper`.
pub proof fn lemma_brackets_is_upper(keys: Seq<u32>, t: u32, idx: int)
    requires
        strictly_ascending(keys),
        brackets(keys, t, idx),
    ensures
        idx == upper(keys, t),
    decreases keys.len(),
{
    if idx < keys.len() {
        assert(keys.last() > t) by {
            if idx < keys.len() - 1 {
                assert(keys[idx] < keys[keys.len() - 1]);
            }
        }
        let rest = keys.drop_last();
        assert(strictly_ascending(rest));
        assert(brackets(rest, t, idx));
        lemma_brackets_is_upper(rest, t, idx);
    }
}

/// On ascending keys, when key `i` is `<= t` and the next key (if any) is
/// above it, `upper` lands just past `i`.
pub proof fn lemma_upper_at(keys: Seq<u32>, t: u32, i: int)
    requires
        strictly_ascending(keys),
        0 <= i < keys.len(),
        keys[i] <= t,
        i + 1 == keys.len() || t < keys[i + 1],
    ensures
        upper(keys, t) == i + 1,
{
    lemma_brackets_is_upper(keys, t, i + 1);
}

/// On ascending keys, a target below the first key has no key at or before it.
pub proof fn lemma_upper_below_first(keys: Seq<u32>, t: u32)
    requires
        strictly_ascending(keys),
        keys.len() > 0,
        t < keys[0],
    ensures
        upper(keys, t) == 0,
{
    lemma_brackets_is_upper(keys, t, 0);
}

} // verus!
