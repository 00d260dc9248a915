//! The aggregation rules applied to repeated contributions for one key:
//! bitwise-OR accumulation of flags, and weighted dominant selection
//! with ties yielding no winner.

use vstd::prelude::*;
use vstd::seq_lib::lemma_fold_right_permutation;
use vstd::seq_lib::commutative_foldr;

verus! {

/// The bitwise OR of all contributions in a sequence.
pub open spec fn or_all_u8(s: Seq<u8>) -> u8 {
    s.fold_right(|x: u8, acc: u8| x | acc, 0u8)
}

/// The bitwise OR of all contributions in a sequence.
pub open spec fn or_all_u16(s: Seq<u16>) -> u16 {
    s.fold_right(|x: u16, acc: u16| x | acc, 0u16)
}

proof fn lemma_or_commutative_u8()
    ensures
        commutative_foldr(|x: u8, acc: u8| x | acc),
{
    let f = |x: u8, acc: u8| x | acc;
    assert forall|x: u8, y: u8, v: u8| #[trigger] f(x, f(y, v)) == f(y, f(x, v)) by {
        assert(x | (y | v) == y | (x | v)) by (bit_vector);
    }
}

proof fn lemma_or_commutative_u16()
    ensures
        commutative_foldr(|x: u16, acc: u16| x | acc),
{
    let f = |x: u16, acc: u16| x | acc;
    assert forall|x: u16, y: u16, v: u16| #[trigger] f(x, f(y, v)) == f(y, f(x, v)) by {
        assert(x | (y | v) == y | (x | v)) by (bit_vector);
    }
}

/// Bitflag accumulation is commutative: contributions applied in any
/// order yield the same final flags.
pub proof fn lemma_or_all_permutation_u8(s1: Seq<u8>, s2: Seq<u8>)
    requires
        s1.to_multiset() == s2.to_multiset(),
    ensures
        or_all_u8(s1) == or_all_u8(s2),
{
    lemma_or_commutative_u8();
    lemma_fold_right_permutation(s1, s2, |x: u8, acc: u8| x | acc, 0u8);
}

/// Bitflag accumulation is commutative: contributions applied in any
/// order yield the same final flags.
pub proof fn lemma_or_all_permutation_u16(s1: Seq<u16>, s2: Seq<u16>)
    requires
        s1.to_multiset() == s2.to_multiset(),
    ensures
        or_all_u16(s1) == or_all_u16(s2),
{
    lemma_or_commutative_u16();
    lemma_fold_right_permutation(s1, s2, |x: u16, acc: u16| x | acc, 0u16);
}

/// Bitflag accumulation is idempotent: merging the same flags twice has
/// no extra effect.
pub proof fn lemma_or_all_idempotent_u8(s: Seq<u8>, x: u8)
    ensures
        or_all_u8(s.push(x).push(x)) == or_all_u8(s.push(x)),
{
    let f = |y: u8, acc: u8| y | acc;
    reveal_with_fuel(Seq::fold_right, 3);
    assert(s.push(x).push(x).drop_last() =~= s.push(x));
    assert(s.push(x).drop_last() =~= s);
    assert(or_all_u8(s.push(x).push(x)) == s.fold_right(f, f(x, f(x, 0u8))));
    assert(or_all_u8(s.push(x)) == s.fold_right(f, f(x, 0u8)));
    assert(x | (x | 0u8) == x | 0u8) by (bit_vector);
}

/// Bitflag accumulation is idempotent: merging the same flags twice has
/// no extra effect.
pub proof fn lemma_or_all_idempotent_u16(s: Seq<u16>, x: u16)
    ensures
        or_all_u16(s.push(x).push(x)) == or_all_u16(s.push(x)),
{
    let f = |y: u16, acc: u16| y | acc;
    reveal_with_fuel(Seq::fold_right, 3);
    assert(s.push(x).push(x).drop_last() =~= s.push(x));
    assert(s.push(x).drop_last() =~= s);
    assert(or_all_u16(s.push(x).push(x)) == s.fold_right(f, f(x, f(x, 0u16))));
    assert(or_all_u16(s.push(x)) == s.fold_right(f, f(x, 0u16)));
    assert(x | (x | 0u16) == x | 0u16) by (bit_vector);
}

/// The candidate at `i` strictly outweighs every other candidate, and
/// contributes at all: a slot nothing contributed to is never dominant.
pub open spec fn is_dominant(w: Seq<u8>, i: int) -> bool {
    0 <= i < w.len() && w[i] > 0 && forall|j: int| 0 <= j < w.len() && j != i ==> w[j] < w[i]
}

/// Select the index of the strictly greatest weight: a tie for the
/// greatest weight yields no selection.
pub fn dominant_index(w: &Vec<u8>) -> (r: Option<usize>)
    ensures
        r matches Some(i) ==> is_dominant(w@, i as int),
        r is None ==> forall|i: int| !is_dominant(w@, i),
{
    let mut best: Option<usize> = None;
    let mut max_value: u8 = 0;
    let mut k: usize = 0;
    while k < w.len()
        invariant
            k <= w@.len(),
            forall|j: int| 0 <= j < k ==> w@[j] <= max_value,
            match best {
                Some(i) => 0 <= i < k && w@[i as int] == max_value && max_value > 0 && forall|
                    j: int,
                |
                    0 <= j < k && j != i ==> w@[j] < max_value,
                None => max_value == 0 || exists|a: int, b: int|
                    0 <= a < b < k && w@[a] == max_value && w@[b] == max_value,
            },
        decreases w@.len() - k,
    {
        let v = w[k];
        if v > max_value {
            best = Some(k);
            max_value = v;
        } else if v == max_value {
            proof {
                if max_value > 0 {
                    match best {
                        Some(i) => {
                            assert(w@[i as int] == max_value && w@[k as int] == max_value && i
                                < k);
                        },
                        None => {},
                    }
                }
            }
            best = None;
        }
        k = k + 1;
    }
    proof {
        match best {
            Some(i) => {
                assert(is_dominant(w@, i as int));
            },
            None => {
                assert forall|i: int| !is_dominant(w@, i) by {
                    if max_value == 0 {
                        if 0 <= i < w@.len() {
                            assert(w@[i] <= 0);
                        }
                    } else {
                        let (a, b) = choose|a: int, b: int|
                            0 <= a < b < w@.len() && w@[a] == max_value && w@[b] == max_value;
                        if 0 <= i < w@.len() && w@[i] > 0 {
                            if i != a {
                                assert(w@[a] == max_value >= w@[i]);
                            } else {
                                assert(w@[b] == max_value >= w@[i]);
                            }
                        }
                    }
                }
            },
        }
    }
    best
}


/// At most one candidate can strictly outweigh all others.
pub proof fn lemma_dominant_unique(w: Seq<u8>, i: int, j: int)
    requires
        is_dominant(w, i),
        is_dominant(w, j),
    ensures
        i == j,
{
    if i != j {
        assert(w[i] < w[j]);
        assert(w[j] < w[i]);
    }
}

} // verus!
