//! Decoding of the register permutation of frameless x86 and x86_64 opcodes:
//! which of the six callee-saved registers were pushed, and in which order,
//! packed into a single index.
use vstd::prelude::*;

verus! {

/// The number of ordered choices of `count` of the six registers: the size of
/// the valid index range for that count.
pub open spec fn permutation_count(count: int) -> int
    decreases count,
{
    if count <= 0 {
        1
    } else {
        (7 - count) * permutation_count(count - 1)
    }
}

/// What remains of `encoding` once the digits of the slots after `i` are
/// divided out; slot `j` is a digit of radix `6 - j`, the last slot the least
/// significant.
pub open spec fn permutation_rest(count: int, encoding: int, i: int) -> int
    decreases count - i,
{
    if i + 1 >= count {
        encoding
    } else {
        permutation_rest(count, encoding, i + 1) / (6 - (i + 1))
    }
}

/// Digit `i` of `encoding`: which of the registers still free is chosen in slot `i`.
pub open spec fn permutation_digit(count: int, encoding: int, i: int) -> int {
    permutation_rest(count, encoding, i) % (6 - i)
}

/// The `d`-th (from zero) register number from `u` up to 6 that is not in `taken`;
/// zero where there is none.
pub open spec fn nth_free(taken: Seq<u8>, d: int, u: int) -> u8
    decreases 7 - u,
{
    if u > 6 || u < 1 {
        0
    } else if taken.contains(u as u8) {
        nth_free(taken, d, u + 1)
    } else if d == 0 {
        u as u8
    } else {
        nth_free(taken, d - 1, u + 1)
    }
}

/// The registers chosen in the first `i` slots.
pub open spec fn decoded_prefix(count: int, encoding: int, i: nat) -> Seq<u8>
    decreases i,
{
    if i == 0 {
        seq![]
    } else {
        let prev = decoded_prefix(count, encoding, (i - 1) as nat);
        prev.push(nth_free(prev, permutation_digit(count, encoding, i - 1), 1))
    }
}

/// Whether `(count, encoding)` names a permutation.
pub open spec fn valid_permutation(count: int, encoding: int) -> bool {
    0 <= count <= 6 && 0 <= encoding < permutation_count(count)
}

/// The decoded slots: `count` register numbers, then zeros up to six slots.
pub open spec fn decoded_permutation(count: int, encoding: int) -> Seq<u8> {
    decoded_prefix(count, encoding, count as nat) + Seq::new((6 - count) as nat, |j: int| 0u8)
}

/// The number of register numbers from `u` up to 6 that are not in `taken`.
pub open spec fn free_count(taken: Seq<u8>, u: int) -> int
    decreases 7 - u,
{
    if u > 6 || u < 1 {
        0
    } else {
        (if taken.contains(u as u8) {
            0int
        } else {
            1int
        }) + free_count(taken, u + 1)
    }
}

/// Register numbers: distinct, each in `1..=6`.
pub open spec fn distinct_registers(s: Seq<u8>) -> bool {
    &&& forall|i: int| 0 <= i < s.len() ==> 1 <= #[trigger] s[i] <= 6
    &&& forall|i: int, j: int| 0 <= i < j < s.len() ==> s[i] != s[j]
}

proof fn lemma_nth_free(taken: Seq<u8>, d: int, u: int)
    requires
        1 <= u,
        0 <= d < free_count(taken, u),
    ensures
        u <= nth_free(taken, d, u) <= 6,
        !taken.contains(nth_free(taken, d, u)),
    decreases 7 - u,
{
    if u <= 6 {
        if taken.contains(u as u8) {
            lemma_nth_free(taken, d, u + 1);
        } else if d != 0 {
            lemma_nth_free(taken, d - 1, u + 1);
        }
    }
}

proof fn lemma_contains_push(s: Seq<u8>, x: u8, v: u8)
    ensures
        s.push(x).contains(v) == (s.contains(v) || v == x),
{
    if s.push(x).contains(v) {
        let k = choose|k: int| 0 <= k < s.push(x).len() && s.push(x)[k] == v;
        if k < s.len() {
            assert(s[k] == v);
        }
    }
    if s.contains(v) {
        let k = choose|k: int| 0 <= k < s.len() && s[k] == v;
        assert(s.push(x)[k] == v);
    }
    if v == x {
        assert(s.push(x)[s.len() as int] == x);
    }
}

proof fn lemma_free_count_push(taken: Seq<u8>, x: u8, u: int)
    requires
        !taken.contains(x),
        1 <= u,
    ensures
        free_count(taken.push(x), u) == free_count(taken, u) - (if u <= x <= 6 {
            1int
        } else {
            0int
        }),
    decreases 7 - u,
{
    if u <= 6 {
        lemma_free_count_push(taken, x, u + 1);
        lemma_contains_push(taken, x, u as u8);
    }
}

proof fn lemma_free_count_empty(u: int)
    requires
        1 <= u <= 7,
    ensures
        free_count(Seq::<u8>::empty(), u) == 7 - u,
    decreases 7 - u,
{
    if u <= 6 {
        lemma_free_count_empty(u + 1);
    }
}

proof fn lemma_free_count(taken: Seq<u8>)
    requires
        distinct_registers(taken),
    ensures
        free_count(taken, 1) == 6 - taken.len(),
    decreases taken.len(),
{
    if taken.len() == 0 {
        lemma_free_count_empty(1);
        assert(taken =~= Seq::<u8>::empty());
    } else {
        let prev = taken.drop_last();
        let x = taken.last();
        assert(distinct_registers(prev));
        lemma_free_count(prev);
        assert(!prev.contains(x)) by {
            if prev.contains(x) {
                let k = choose|k: int| 0 <= k < prev.len() && prev[k] == x;
                assert(taken[k] == taken[taken.len() - 1]);
            }
        }
        assert(prev.push(x) =~= taken);
        lemma_free_count_push(prev, x, 1);
    }
}

proof fn lemma_decoded_prefix(count: int, encoding: int, i: nat)
    requires
        0 <= count <= 6,
        i <= count,
    ensures
        decoded_prefix(count, encoding, i).len() == i,
        distinct_registers(decoded_prefix(count, encoding, i)),
    decreases i,
{
    if i > 0 {
        let prev = decoded_prefix(count, encoding, (i - 1) as nat);
        lemma_decoded_prefix(count, encoding, (i - 1) as nat);
        lemma_free_count(prev);
        let d = permutation_digit(count, encoding, i - 1);
        lemma_nth_free(prev, d, 1);
        let x = nth_free(prev, d, 1);
        let s = prev.push(x);
        assert forall|a: int, b: int| 0 <= a < b < s.len() implies s[a] != s[b] by {
            if b == s.len() - 1 {
                assert(prev[a] == s[a]);
                if s[a] == s[b] {
                    assert(prev.contains(x));
                }
            } else {
                assert(prev[a] == s[a] && prev[b] == s[b]);
            }
        }
        assert forall|a: int| 0 <= a < s.len() implies 1 <= #[trigger] s[a] <= 6 by {
            if a < prev.len() {
                assert(prev[a] == s[a]);
            }
        }
    }
}

/// Every valid index decodes to `count` distinct register numbers in `1..=6`,
/// followed by empty slots.
pub proof fn lemma_decoded_permutation(count: int, encoding: int)
    requires
        valid_permutation(count, encoding),
    ensures
        decoded_permutation(count, encoding).len() == 6,
        distinct_registers(decoded_permutation(count, encoding).take(count)),
        forall|j: int| count <= j < 6 ==> #[trigger] decoded_permutation(count, encoding)[j] == 0,
{
    lemma_decoded_prefix(count, encoding, count as nat);
    assert(decoded_permutation(count, encoding).take(count) =~= decoded_prefix(
        count,
        encoding,
        count as nat,
    ));
}

/// The index of the free register that slot `i` takes: `d`, counted over the
/// register numbers from 1 up that the first `i` slots of `regs` do not hold.
fn nth_free_register(regs: &[u8; 6], i: usize, d: u32) -> (r: u8)
    requires
        i <= 6,
    ensures
        r == nth_free(regs@.take(i as int), d as int, 1),
{
    let ghost taken = regs@.take(i as int);
    let mut u: u8 = 1;
    let mut left = d;
    while u <= 6
        invariant
            1 <= u <= 7,
            i <= 6,
            taken == regs@.take(i as int),
            nth_free(taken, left as int, u as int) == nth_free(taken, d as int, 1),
        decreases 7 - u,
    {
        let mut used = false;
        let mut j: usize = 0;
        while j < i
            invariant
                j <= i <= 6,
                taken == regs@.take(i as int),
                used == taken.take(j as int).contains(u),
            decreases i - j,
        {
            assert(taken.take(j as int + 1) =~= taken.take(j as int).push(taken[j as int]));
            proof {
                lemma_contains_push(taken.take(j as int), taken[j as int], u);
            }
            if regs[j] == u {
                used = true;
            }
            j += 1;
        }
        assert(taken.take(i as int) =~= taken);
        if !used {
            if left == 0 {
                return u;
            }
            left = left - 1;
        }
        u = u + 1;
    }
    0
}

/// Decodes the register permutation of `count` saved registers packed into
/// `encoding`. Slot `i` (from the first pushed) holds a register number in
/// `1..=6`; slots past `count` hold zero. `None` where `count` exceeds six or
/// `encoding` lies outside the valid range for `count`.
pub fn decode_permutation_6(count: u32, encoding: u32) -> (r: Option<[u8; 6]>)
    ensures
        match r {
            Some(regs) => valid_permutation(count as int, encoding as int) && regs@
                == decoded_permutation(count as int, encoding as int),
            None => !valid_permutation(count as int, encoding as int),
        },
{
    if count > 6 {
        return None;
    }
    let limit: u32 = if count == 0 {
        1
    } else if count == 1 {
        6
    } else if count == 2 {
        30
    } else if count == 3 {
        120
    } else if count == 4 {
        360
    } else {
        720
    };
    assert(limit == permutation_count(count as int)) by {
        reveal_with_fuel(permutation_count, 7);
        assert(permutation_count(0) == 1);
        assert(permutation_count(1) == 6);
        assert(permutation_count(2) == 30);
        assert(permutation_count(3) == 120);
        assert(permutation_count(4) == 360);
        assert(permutation_count(5) == 720);
        assert(permutation_count(6) == 720);
    }
    if encoding >= limit {
        return None;
    }
    let ghost c = count as int;
    let ghost e = encoding as int;
    // Split the index into its digits, least significant (last slot) first.
    let mut digits: [u32; 6] = [0; 6];
    let mut rest: u32 = encoding;
    let mut i: u32 = count;
    while i > 0
        invariant
            0 <= i <= count <= 6,
            c == count as int,
            e == encoding as int,
            i < count ==> rest == permutation_rest(c, e, i as int) / (6 - i as int),
            i == count ==> rest == e,
            forall|j: int| i <= j < count ==> digits[j] == permutation_digit(c, e, j),
        decreases i,
    {
        let k = i - 1;
        assert(rest == permutation_rest(c, e, k as int)) by {
            if i < count {
                assert(permutation_rest(c, e, k as int) == permutation_rest(c, e, i as int) / (6
                    - i as int));
            }
        }
        digits[k as usize] = rest % (6 - k);
        rest = rest / (6 - k);
        i = k;
    }
    let mut regs: [u8; 6] = [0; 6];
    let mut i: usize = 0;
    while i < count as usize
        invariant
            0 <= i <= count <= 6,
            c == count as int,
            e == encoding as int,
            regs@.take(i as int) == decoded_prefix(c, e, i as nat),
            forall|j: int| i <= j < 6 ==> regs[j] == 0,
            forall|j: int| 0 <= j < count ==> digits[j] == permutation_digit(c, e, j),
        decreases count - i,
    {
        let x = nth_free_register(&regs, i, digits[i]);
        let ghost before = regs@;
        regs[i] = x;
        assert(regs@.take(i as int + 1) =~= before.take(i as int).push(x));
        i += 1;
    }
    assert(regs@ =~= decoded_permutation(c, e));
    Some(regs)
}

} // verus!
