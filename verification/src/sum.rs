use vstd::prelude::*;

verus! {

use vstd::arithmetic::div_mod::{
    lemma_add_mod_noop,
    lemma_fundamental_div_mod,
    lemma_fundamental_div_mod_converse,
    lemma_mod_sub_multiples_vanish,
    lemma_small_mod,
};
use vstd::arithmetic::mul::{
    lemma_mul_by_zero_is_zero,
    lemma_mul_inequality,
    lemma_mul_is_commutative,
    lemma_mul_is_distributive_add_other_way,
    lemma_mul_is_distributive_sub_other_way,
};

/// The sum of a sequence of 32-bit words under native unsigned wraparound:
/// each addition is taken modulo 2^32, matching the device's `u32` adds.
pub open spec fn sum_wrap(s: Seq<u32>) -> u32
    decreases s.len(),
{
    if s.len() == 0 {
        0u32
    } else {
        sum_wrap(s.drop_last()).wrapping_add(s.last())
    }
}

/// The exact, unbounded integer sum of a sequence of 32-bit words.
pub open spec fn sum_int(s: Seq<u32>) -> int
    decreases s.len(),
{
    if s.len() == 0 {
        0
    } else {
        sum_int(s.drop_last()) + s.last()
    }
}

/// Law: the wrapped sum is the exact sum taken modulo 2^32, so wraparound
/// commutes with the order in which the additions are performed.
pub proof fn lemma_sum_wrap_is_mod(s: Seq<u32>)
    ensures
        sum_wrap(s) == sum_int(s) % 0x1_0000_0000,
    decreases s.len(),
{
    let m: int = 0x1_0000_0000;
    if s.len() == 0 {
        lemma_small_mod(0, m as nat);
    } else {
        let rest = s.drop_last();
        let y = s.last();
        lemma_sum_wrap_is_mod(rest);
        let x = sum_wrap(rest);
        lemma_small_mod(y as nat, m as nat);
        lemma_add_mod_noop(sum_int(rest), y as int, m);
        if x + y <= u32::MAX {
            lemma_small_mod((x + y) as nat, m as nat);
        } else {
            lemma_mod_sub_multiples_vanish(x + y, m);
            lemma_small_mod((x + y - m) as nat, m as nat);
        }
    }
}

/// The exact sum of a concatenation is the sum of the exact sums.
pub proof fn lemma_sum_int_concat(a: Seq<u32>, b: Seq<u32>)
    ensures
        sum_int(a + b) == sum_int(a) + sum_int(b),
    decreases b.len(),
{
    if b.len() == 0 {
        assert(a + b =~= a);
    } else {
        lemma_sum_int_concat(a, b.drop_last());
        assert((a + b).drop_last() =~= a + b.drop_last());
    }
}

/// The wrapped sum of a concatenation is the wrapped sum of the wrapped sums.
pub proof fn lemma_sum_wrap_concat(a: Seq<u32>, b: Seq<u32>)
    ensures
        sum_wrap(a + b) == sum_wrap(a).wrapping_add(sum_wrap(b)),
{
    let m: int = 0x1_0000_0000;
    lemma_sum_wrap_is_mod(a + b);
    lemma_sum_wrap_is_mod(a);
    lemma_sum_wrap_is_mod(b);
    lemma_sum_int_concat(a, b);
    lemma_add_mod_noop(sum_int(a), sum_int(b), m);
    let wa = sum_wrap(a);
    let wb = sum_wrap(b);
    if wa + wb <= u32::MAX {
        lemma_small_mod((wa + wb) as nat, m as nat);
    } else {
        lemma_mod_sub_multiples_vanish(wa + wb, m);
        lemma_small_mod((wa + wb - m) as nat, m as nat);
    }
}

/// The partial sums the parallel phase produces for an evenly divided input:
/// one wrapped sum per workgroup, landing in the slot of its slice, so slot
/// `i` holds the sum of input elements `[i * w, (i + 1) * w)`.
pub open spec fn partial_sums_spec(input: Seq<u32>, w: nat) -> Seq<u32> {
    Seq::new(
        input.len() / w,
        |i: int| sum_wrap(input.subrange(i * w as int, (i + 1) * w as int)),
    )
}

/// Law: aggregating the per-workgroup partial sums gives exactly the wrapped
/// sum of the whole input, so the two-phase reduction loses nothing.
pub proof fn lemma_partial_sums_preserve_sum(input: Seq<u32>, w: nat)
    requires
        w > 0,
        input.len() % w == 0,
    ensures
        sum_wrap(partial_sums_spec(input, w)) == sum_wrap(input),
    decreases input.len(),
{
    let k = (input.len() / w) as int;
    lemma_fundamental_div_mod(input.len() as int, w as int);
    lemma_mul_is_commutative(w as int, k);
    assert(input.len() == k * w);
    if input.len() == 0 {
        assert(partial_sums_spec(input, w) =~= Seq::<u32>::empty());
    } else {
        assert(k >= 1) by {
            if k == 0 {
                lemma_mul_by_zero_is_zero(w as int);
            }
        }
        let cut = (k - 1) * (w as int);
        assert(cut + w == k * w) by {
            lemma_mul_is_distributive_sub_other_way(w as int, k, 1);
        }
        assert(0 <= cut) by {
            lemma_mul_inequality(0, k - 1, w as int);
            lemma_mul_by_zero_is_zero(w as int);
        }
        let prefix = input.subrange(0, cut);
        let last_chunk = input.subrange(cut, input.len() as int);
        assert(prefix.len() % w == 0 && prefix.len() / w == k - 1) by {
            lemma_fundamental_div_mod_converse(cut, w as int, k - 1, 0);
        }
        lemma_partial_sums_preserve_sum(prefix, w);
        let partials = partial_sums_spec(input, w);
        assert(partial_sums_spec(prefix, w) =~= partials.drop_last()) by {
            assert forall|i: int| 0 <= i < k - 1 implies partial_sums_spec(prefix, w)[i]
                == partials[i] by {
                assert((i + 1) * w <= cut) by {
                    lemma_mul_inequality(i + 1, k - 1, w as int);
                }
                assert(0 <= i * w && i * w + w == (i + 1) * w) by {
                    lemma_mul_inequality(0, i, w as int);
                    lemma_mul_by_zero_is_zero(w as int);
                    lemma_mul_is_distributive_add_other_way(w as int, i, 1);
                }
                assert(prefix.subrange(i * w as int, (i + 1) * w as int) =~= input.subrange(
                    i * w as int,
                    (i + 1) * w as int,
                ));
            }
        }
        assert(partials.last() == sum_wrap(last_chunk));
        assert(input =~= prefix + last_chunk);
        lemma_sum_wrap_concat(prefix, last_chunk);
    }
}

} // verus!
