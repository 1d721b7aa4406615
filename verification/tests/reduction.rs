use webgpu_sum::error::ReduceError;
use webgpu_sum::plan::plan;
use webgpu_sum::reduce::{aggregate, partial_sums, reduce};

#[test]
fn plan_divides_1024_by_64_into_16_workgroups() {
    assert_eq!(plan(1024, 64), Ok(16));
}

#[test]
fn plan_rejects_length_100_at_width_64() {
    assert_eq!(plan(100, 64), Err(ReduceError::InvalidPartition));
}

#[test]
fn plan_accepts_a_single_workgroup() {
    assert_eq!(plan(64, 64), Ok(1));
}

#[test]
fn reduce_sums_one_to_1024() {
    let input: Vec<u32> = (1..=1024).collect();
    assert_eq!(reduce(&input, 64), Ok(524800));
}

#[test]
fn reduce_of_64_zeros_is_zero() {
    let input = vec![0u32; 64];
    assert_eq!(plan(input.len(), 64), Ok(1));
    assert_eq!(reduce(&input, 64), Ok(0));
}

#[test]
fn reduce_rejects_uneven_input_without_partial_result() {
    let input = vec![7u32; 100];
    assert_eq!(reduce(&input, 64), Err(ReduceError::InvalidPartition));
}

#[test]
fn reduce_twice_on_the_same_input_agrees() {
    let input: Vec<u32> = (0..4096).map(|x| x * 3 + 1).collect();
    let first = reduce(&input, 64);
    let second = reduce(&input, 64);
    assert_eq!(first, second);
    assert!(first.is_ok());
}

#[test]
fn reduce_wraps_at_two_to_the_32() {
    // 64 elements of 2^26 sum to exactly 2^32, which wraps to 0.
    let input = vec![1u32 << 26; 64];
    assert_eq!(reduce(&input, 64), Ok(0));
}

#[test]
fn partial_sums_land_in_slice_order() {
    // Slice 0 holds 1..=64, slice 1 holds 65..=128.
    let input: Vec<u32> = (1..=128).collect();
    let partials = partial_sums(&input, 64);
    assert_eq!(partials, vec![2080, 6176]);
}

#[test]
fn partial_sums_of_one_slice_is_its_sum() {
    let input = vec![5u32; 64];
    assert_eq!(partial_sums(&input, 64), vec![320]);
}

#[test]
fn aggregate_sums_in_index_order() {
    assert_eq!(aggregate(&vec![1, 2, 3]), 6);
    assert_eq!(aggregate(&vec![]), 0);
}

#[test]
fn aggregate_wraps_like_native_unsigned_add() {
    assert_eq!(aggregate(&vec![u32::MAX, 1]), 0);
    assert_eq!(aggregate(&vec![u32::MAX, 2]), 1);
}

#[test]
fn reduce_agrees_with_aggregated_partials() {
    let input: Vec<u32> = (0..256).map(|x| x * x).collect();
    let partials = partial_sums(&input, 64);
    assert_eq!(partials.len(), 4);
    assert_eq!(reduce(&input, 64), Ok(aggregate(&partials)));
}
