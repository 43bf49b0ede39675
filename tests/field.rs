use epyc_mining::batch::{BatchProcessor, KernelStrategy};
use epyc_mining::field::{
    badd, badd_batch_avx512, bmul, bmul_batch_avx512, poly_eval_optimized, reduce_128_optimized,
    PRIME, PRIME_128,
};

#[test]
fn test_batch_operations() {
    let a = vec![1, 2, 3, 4, 5, 6, 7, 8];
    let b = vec![8, 7, 6, 5, 4, 3, 2, 1];

    let mut processor = BatchProcessor::new(16);
    let result = processor.process_batch_add(&a, &b);

    for i in 0..a.len() {
        assert_eq!(result[i], badd(a[i], b[i]));
    }
}

#[test]
fn test_reduce_128_optimized() {
    let test_cases = [
        0u128,
        PRIME_128 - 1,
        PRIME_128,
        PRIME_128 + 1,
        u64::MAX as u128,
        (u64::MAX as u128) * (u64::MAX as u128),
    ];

    for &test_val in &test_cases {
        let optimized = reduce_128_optimized(test_val);
        let reference = (test_val % PRIME_128) as u64;
        assert_eq!(optimized, reference, "Mismatch for input {}", test_val);
    }
}

#[test]
fn reduce_matches_modulus_on_wide_sample() {
    let mut x: u128 = 0x9E37_79B9_7F4A_7C15_F39C_C060_5CED_C834;
    for _ in 0..10_000 {
        x = x.wrapping_mul(0x2360_ED05_1FC6_5DA4_4385_DF64_9FCC_F645).wrapping_add(1);
        assert_eq!(reduce_128_optimized(x) as u128, x % PRIME_128);
        let shifted = x >> (x as u32 % 128);
        assert_eq!(reduce_128_optimized(shifted) as u128, shifted % PRIME_128);
    }
    assert_eq!(reduce_128_optimized(u128::MAX) as u128, u128::MAX % PRIME_128);
    assert_eq!(reduce_128_optimized(1u128 << 96) as u128, (1u128 << 96) % PRIME_128);
    assert_eq!(reduce_128_optimized(1u128 << 64) as u128, 0xFFFF_FFFF);
}

#[test]
fn reduce_of_max_square_is_exact() {
    assert_eq!(
        reduce_128_optimized((u64::MAX as u128) * (u64::MAX as u128)),
        0xFFFF_FFFC_0000_0004
    );
}

#[test]
fn add_wraps_past_the_prime() {
    assert_eq!(badd(3, 4), 7);
    assert_eq!(badd(PRIME - 1, 1), 0);
    assert_eq!(badd(PRIME - 1, PRIME - 1), PRIME - 2);
    assert_eq!(badd(0, 0), 0);
}

#[test]
fn mul_reduces_the_product() {
    assert_eq!(bmul(3, 5), 15);
    assert_eq!(bmul(PRIME - 1, PRIME - 1), 1);
    assert_eq!(bmul(1u64 << 32, 1u64 << 32), 0xFFFF_FFFF);
    assert_eq!(bmul(u64::MAX, u64::MAX), 0xFFFF_FFFC_0000_0004);
}

fn sample(seed: u64, n: usize) -> Vec<u64> {
    let mut v = Vec::new();
    let mut x = seed;
    for _ in 0..n {
        x = x.wrapping_mul(6364136223846793005).wrapping_add(1442695040888963407);
        v.push(x % PRIME);
    }
    v
}

#[test]
fn vector_kernels_match_scalar() {
    let a = sample(1, 64);
    let b = sample(2, 64);
    let mut sum = vec![0u64; 64];
    let mut prod = vec![0u64; 64];
    badd_batch_avx512(&a, &b, &mut sum);
    bmul_batch_avx512(&a, &b, &mut prod);
    for i in 0..64 {
        assert_eq!(sum[i], badd(a[i], b[i]));
        assert_eq!(prod[i], bmul(a[i], b[i]));
        assert_eq!(sum[i] as u128, (a[i] as u128 + b[i] as u128) % PRIME_128);
        assert_eq!(prod[i] as u128, (a[i] as u128 * b[i] as u128) % PRIME_128);
    }
}

#[test]
fn strategies_give_identical_results() {
    let a = sample(3, 37);
    let b = sample(4, 37);
    let mut vector = BatchProcessor::with_strategy(16, KernelStrategy::Vectorized);
    let mut scalar = BatchProcessor::with_strategy(16, KernelStrategy::Scalar);
    let vs = vector.process_batch_add(&a, &b);
    let ss = scalar.process_batch_add(&a, &b);
    assert_eq!(vs.len(), 37);
    assert_eq!(vs, ss);
    let vm = vector.process_batch_mul(&a, &b);
    let sm = scalar.process_batch_mul(&a, &b);
    assert_eq!(vm, sm);
    for i in 0..37 {
        assert_eq!(vm[i], bmul(a[i], b[i]));
    }
}

#[test]
fn batch_size_rounds_up_to_width() {
    assert_eq!(BatchProcessor::new(16).batch_size(), 16);
    assert_eq!(BatchProcessor::new(17).batch_size(), 24);
    assert_eq!(BatchProcessor::new(1).batch_size(), 8);
    assert_eq!(BatchProcessor::new(0).batch_size(), 0);
}

#[test]
fn empty_and_zero_sized_batches() {
    let mut p = BatchProcessor::new(0);
    assert!(p.process_batch_add(&[], &[]).is_empty());
    assert_eq!(p.process_batch_mul(&[2, 3, 4], &[5, 7, 11]), vec![10, 21, 44]);
}

#[test]
fn poly_eval_degenerate_cases() {
    assert_eq!(poly_eval_optimized(&[], 12345), 0);
    assert_eq!(poly_eval_optimized(&[42], 12345), 42);
    assert_eq!(poly_eval_optimized(&[u64::MAX], 7), u64::MAX);
}

#[test]
fn poly_eval_by_horner() {
    // 1 + 2x + 3x^2 at x = 10
    assert_eq!(poly_eval_optimized(&[1, 2, 3], 10), 321);
    // x^2 at p - 1 is 1
    assert_eq!(poly_eval_optimized(&[0, 0, 1], PRIME - 1), 1);
}

#[test]
fn processor_keeps_its_strategy() {
    let p = BatchProcessor::with_strategy(9, KernelStrategy::Scalar);
    assert_eq!(p.strategy(), KernelStrategy::Scalar);
    assert_eq!(p.batch_size(), 16);
    assert_eq!(KernelStrategy::for_support(true), KernelStrategy::Vectorized);
    assert_eq!(KernelStrategy::for_support(false), KernelStrategy::Scalar);
    let detected = KernelStrategy::detect();
    assert!(detected == KernelStrategy::Scalar || detected == KernelStrategy::Vectorized);
}
