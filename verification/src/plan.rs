use vstd::prelude::*;

use crate::error::ReduceError;

verus! {

use vstd::arithmetic::div_mod::{
    lemma_fundamental_div_mod,
    lemma_fundamental_div_mod_converse,
    lemma_mod_division_less_than_divisor,
};
use vstd::arithmetic::mul::{
    lemma_mul_by_zero_is_zero,
    lemma_mul_inequality,
    lemma_mul_is_commutative,
    lemma_mul_is_distributive_add_other_way,
};

/// The number of workgroups the planner assigns to an input of the given
/// length: one workgroup per full slice of `workgroup_width` elements.
pub open spec fn partition_count_spec(input_length: nat, workgroup_width: nat) -> nat {
    input_length / workgroup_width
}

/// True when input element `j` lies in the slice assigned to workgroup `i`,
/// that is in `[i * w, (i + 1) * w)`.
pub open spec fn in_slice(j: int, i: int, w: int) -> bool {
    i * w <= j < (i + 1) * w
}

/// The workgroup whose slice holds input element `j`.
pub open spec fn slot_of(j: int, w: int) -> int {
    j / w
}

/// Partition Planner: splits an input of `input_length` elements into
/// workgroup-sized slices. Succeeds with the partition count exactly when
/// the length is a multiple of the width; an uneven length is rejected as
/// `InvalidPartition` rather than silently truncated.
pub fn plan(input_length: usize, workgroup_width: usize) -> (r: Result<usize, ReduceError>)
    requires
        input_length > 0,
        workgroup_width > 0,
    ensures
        input_length as int % workgroup_width as int == 0 ==> r == Ok::<usize, ReduceError>(
            partition_count_spec(input_length as nat, workgroup_width as nat) as usize,
        ),
        input_length as int % workgroup_width as int != 0 ==> r == Err::<usize, ReduceError>(
            ReduceError::InvalidPartition,
        ),
        r matches Ok(count) ==> count * workgroup_width == input_length && count > 0,
{
    if input_length % workgroup_width == 0 {
        let count = input_length / workgroup_width;
        proof {
            lemma_fundamental_div_mod(input_length as int, workgroup_width as int);
            lemma_mul_is_commutative(workgroup_width as int, count as int);
            lemma_mul_by_zero_is_zero(workgroup_width as int);
        }
        Ok(count)
    } else {
        Err(ReduceError::InvalidPartition)
    }
}

/// Law: slot assignment is a bijection between input elements and slice
/// positions. Every element of an evenly divided input lies in the slice of
/// exactly one workgroup, slice `i` being the contiguous range
/// `[i * w, (i + 1) * w)`; distinct workgroups therefore own disjoint,
/// adjacent slices that together cover the input.
pub proof fn lemma_partition_bijection(n: int, w: int)
    requires
        w > 0,
        n >= 0,
        n % w == 0,
    ensures
        forall|j: int|
            0 <= j < n ==> 0 <= slot_of(j, w) < n / w && in_slice(j, slot_of(j, w), w),
        forall|j: int, i: int| 0 <= j < n && in_slice(j, i, w) ==> i == slot_of(j, w),
{
    assert forall|j: int| 0 <= j < n implies 0 <= slot_of(j, w) < n / w && in_slice(
        j,
        slot_of(j, w),
        w,
    ) by {
        lemma_fundamental_div_mod(j, w);
        lemma_mod_division_less_than_divisor(j, w);
        let q = j / w;
        lemma_mul_is_commutative(w, q);
        assert((q + 1) * w == q * w + w) by {
            lemma_mul_is_distributive_add_other_way(w, q, 1);
        }
        assert(in_slice(j, q, w));
        // If the slot were at or past the partition count, its slice would
        // begin at or past the end of the input.
        lemma_fundamental_div_mod(n, w);
        lemma_mul_is_commutative(w, n / w);
        if q >= n / w {
            lemma_mul_inequality(n / w, q, w);
            assert(j >= (n / w) * w);
            assert(j >= n);
        }
    }
    assert forall|j: int, i: int| 0 <= j < n && in_slice(j, i, w) implies i == slot_of(j, w) by {
        assert((i + 1) * w == i * w + w) by {
            lemma_mul_is_distributive_add_other_way(w, i, 1);
        }
        lemma_fundamental_div_mod_converse(j, w, i, j - i * w);
    }
}

} // verus!
