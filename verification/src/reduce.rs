use vstd::prelude::*;

use crate::error::ReduceError;
use crate::plan::plan;
use crate::sum::{
    lemma_partial_sums_preserve_sum,
    lemma_sum_wrap_is_mod,
    partial_sums_spec,
    sum_int,
    sum_wrap,
};

verus! {

use vstd::arithmetic::div_mod::lemma_fundamental_div_mod;
use vstd::arithmetic::mul::{
    lemma_mul_basics,
    lemma_mul_inequality,
    lemma_mul_is_commutative,
    lemma_mul_is_distributive_add_other_way,
};

/// What one whole reduction of an immutable input returns: the wrapped sum
/// of the input when its length is a multiple of the workgroup width, and
/// `InvalidPartition` otherwise.
pub open spec fn reduce_spec(input: Seq<u32>, w: nat) -> Result<u32, ReduceError> {
    if input.len() % w == 0 {
        Ok(sum_wrap(input))
    } else {
        Err(ReduceError::InvalidPartition)
    }
}

/// The parallel phase of the reduction, executed slice by slice: each
/// workgroup-sized slice is summed independently under wraparound and its
/// result written to the slot of its slice index.
pub fn partial_sums(input: &Vec<u32>, workgroup_width: usize) -> (partials: Vec<u32>)
    requires
        workgroup_width > 0,
        input@.len() % workgroup_width as nat == 0,
    ensures
        partials@ == partial_sums_spec(input@, workgroup_width as nat),
{
    let w = workgroup_width;
    let len = input.len();
    let ghost n = input@.len() as int;
    let count = len / w;
    proof {
        lemma_fundamental_div_mod(n, w as int);
        lemma_mul_is_commutative(w as int, count as int);
        assert(n == count * w);
    }
    let mut partials: Vec<u32> = Vec::new();
    let mut i: usize = 0;
    let mut base: usize = 0;
    proof {
        assert(partials@ =~= partial_sums_spec(input@, w as nat).subrange(0, 0));
    }
    while i < count
        invariant
            0 < w,
            i <= count,
            n == input@.len(),
            n == len,
            n == count * w,
            count == n / w as int,
            base == i * w,
            partials@ == partial_sums_spec(input@, w as nat).subrange(0, i as int),
        decreases count - i,
    {
        proof {
            lemma_mul_basics(w as int);
            lemma_mul_inequality(i as int + 1, count as int, w as int);
            lemma_mul_is_distributive_add_other_way(w as int, i as int, 1);
            assert((i as int + 1) * w == i * w + w);
            assert(base + w <= n);
        }
        let end = base + w;
        let mut sum: u32 = 0;
        let mut j = base;
        proof {
            assert(input@.subrange(base as int, base as int) =~= Seq::<u32>::empty());
        }
        while j < end
            invariant
                base <= j <= end,
                end <= n,
                n == input@.len(),
                sum == sum_wrap(input@.subrange(base as int, j as int)),
            decreases end - j,
        {
            proof {
                let with_next = input@.subrange(base as int, j as int + 1);
                assert(with_next.drop_last() =~= input@.subrange(base as int, j as int));
                assert(with_next.last() == input@[j as int]);
            }
            sum = sum.wrapping_add(input[j]);
            j = j + 1;
        }
        partials.push(sum);
        proof {
            assert(partial_sums_spec(input@, w as nat)[i as int] == sum);
            assert(partials@ =~= partial_sums_spec(input@, w as nat).subrange(0, i as int + 1));
        }
        base = end;
        i = i + 1;
    }
    proof {
        assert(partials@ =~= partial_sums_spec(input@, w as nat));
    }
    partials
}

/// The aggregation phase: sums the partial-sum sequence sequentially, in
/// slot order, under the same wraparound semantics as the parallel phase.
pub fn aggregate(partials: &Vec<u32>) -> (total: u32)
    ensures
        total == sum_wrap(partials@),
{
    let mut total: u32 = 0;
    let mut idx: usize = 0;
    proof {
        assert(partials@.subrange(0, 0) =~= Seq::<u32>::empty());
    }
    while idx < partials.len()
        invariant
            idx <= partials@.len(),
            total == sum_wrap(partials@.subrange(0, idx as int)),
        decreases partials@.len() - idx,
    {
        proof {
            let with_next = partials@.subrange(0, idx as int + 1);
            assert(with_next.drop_last() =~= partials@.subrange(0, idx as int));
            assert(with_next.last() == partials@[idx as int]);
        }
        total = total.wrapping_add(partials[idx]);
        idx = idx + 1;
    }
    proof {
        assert(partials@.subrange(0, partials@.len() as int) =~= partials@);
    }
    total
}

/// Reduction Executor, host reference path: plans the partition, runs the
/// parallel phase slice by slice, then aggregates the partial sums. Returns
/// the exact wrapped sum of the input, or `InvalidPartition` when the input
/// length is not a multiple of the workgroup width.
pub fn reduce(input: &Vec<u32>, workgroup_width: usize) -> (r: Result<u32, ReduceError>)
    requires
        workgroup_width > 0,
        input@.len() > 0,
    ensures
        r == reduce_spec(input@, workgroup_width as nat),
        r matches Ok(total) ==> total == sum_int(input@) % 0x1_0000_0000,
{
    match plan(input.len(), workgroup_width) {
        Err(e) => Err(e),
        Ok(_count) => {
            let partials = partial_sums(input, workgroup_width);
            let total = aggregate(&partials);
            proof {
                lemma_partial_sums_preserve_sum(input@, workgroup_width as nat);
                lemma_sum_wrap_is_mod(input@);
            }
            Ok(total)
        },
    }
}

/// Law: reduction is idempotent. The result is a function of the input
/// sequence and the workgroup width alone, so two calls on the same
/// immutable input yield the same final result.
pub proof fn lemma_reduce_deterministic(
    input: Seq<u32>,
    w: nat,
    r1: Result<u32, ReduceError>,
    r2: Result<u32, ReduceError>,
)
    requires
        r1 == reduce_spec(input, w),
        r2 == reduce_spec(input, w),
    ensures
        r1 == r2,
{
}

} // verus!
