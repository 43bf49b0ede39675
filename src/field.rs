//! Arithmetic over the prime field of order `p = 2^64 - 2^32 + 1`.
use vstd::prelude::*;
use vstd::arithmetic::div_mod::{lemma_fundamental_div_mod, lemma_mod_multiples_vanish};

verus! {

/// The field prime `2^64 - 2^32 + 1`.
pub const PRIME: u64 = 0xFFFF_FFFF_0000_0001;

/// The field prime widened to 128 bits.
pub const PRIME_128: u128 = 0xFFFF_FFFF_0000_0001;

/// `2^32 - 1`, the value of `2^64` modulo the prime.
pub const EPSILON: u64 = 0xFFFF_FFFF;

/// Number of 64-bit lanes that one batch step of the vector kernels handles.
pub const SIMD_WIDTH: usize = 8;

/// The field prime as an integer.
pub open spec fn p() -> int {
    PRIME as int
}

proof fn lemma_reduce_congruent(lo: int, hh: int, hl: int)
    requires
        0 <= lo,
        0 <= hh,
        0 <= hl,
    ensures
        (lo + (hh * 0x1_0000_0000 + hl) * 0x1_0000_0000_0000_0000) % p()
            == (lo - hh + hl * 0xFFFF_FFFF) % p(),
{
    let k = hh * 0x1_0000_0001 + hl;
    let q = p();
    assert((lo + (hh * 0x1_0000_0000 + hl) * 0x1_0000_0000_0000_0000) == q * k + (lo - hh + hl
        * 0xFFFF_FFFF)) by (nonlinear_arith)
        requires
            q == 0xFFFF_FFFF_0000_0001,
            k == hh * 0x1_0000_0001 + hl,
    ;
    lemma_mod_multiples_vanish(k, lo - hh + hl * 0xFFFF_FFFF, p());
}

/// Reduces a 128-bit value modulo the field prime, using `2^64 = 2^32 - 1`
/// and `2^96 = -1` modulo the prime.
pub fn reduce_128_optimized(n: u128) -> (r: u64)
    ensures
        r as int == n as int % p(),
{
    let high: u64 = (n / 0x1_0000_0000_0000_0000u128) as u64;
    let low: u64 = (n % 0x1_0000_0000_0000_0000u128) as u64;
    let high_hi: u64 = high / 0x1_0000_0000u64;
    let high_lo: u64 = high % 0x1_0000_0000u64;
    proof {
        lemma_fundamental_div_mod(n as int, 0x1_0000_0000_0000_0000);
        lemma_fundamental_div_mod(high as int, 0x1_0000_0000);
        lemma_reduce_congruent(low as int, high_hi as int, high_lo as int);
    }
    // Subtract the 2^96 part; on a borrow the wrapped value is too large by p.
    let t0: u64 = if low >= high_hi {
        low - high_hi
    } else {
        (low as u128 + 0x1_0000_0000_0000_0000u128 - high_hi as u128 - EPSILON as u128) as u64
    };
    proof {
        assert(t0 as int == low - high_hi || t0 as int == low - high_hi + p());
    }
    // Add the 2^64 part; on a carry the wrapped value is too small by 2^64 - p.
    assert(high_lo * EPSILON <= 0xFFFF_FFFF * 0xFFFF_FFFF) by (nonlinear_arith)
        requires high_lo < 0x1_0000_0000, EPSILON == 0xFFFF_FFFF;
    let t1: u64 = high_lo * EPSILON;
    let sum: u128 = t0 as u128 + t1 as u128;
    let t2: u64 = if sum >= 0x1_0000_0000_0000_0000u128 {
        (sum - PRIME_128) as u64
    } else {
        sum as u64
    };
    proof {
        assert(t2 as int == sum || t2 as int == sum - p());
        vstd::arithmetic::div_mod::lemma_mod_sub_multiples_vanish(sum as int, p());
        vstd::arithmetic::div_mod::lemma_mod_add_multiples_vanish(
            low as int - high_hi as int + high_lo as int * 0xFFFF_FFFF,
            p(),
        );
    }
    if t2 >= PRIME {
        proof {
            vstd::arithmetic::div_mod::lemma_mod_sub_multiples_vanish(t2 as int, p());
            vstd::arithmetic::div_mod::lemma_small_mod((t2 - PRIME) as nat, PRIME as nat);
        }
        t2 - PRIME
    } else {
        proof {
            vstd::arithmetic::div_mod::lemma_small_mod(t2 as nat, PRIME as nat);
        }
        t2
    }
}

/// What the field addition computes on any two words: `a + (p - b)` in
/// wrapping arithmetic, with `p` added back once when the subtraction wraps.
pub open spec fn badd_spec(a: u64, b: u64) -> u64 {
    let neg_b = PRIME.wrapping_sub(b);
    if a < neg_b {
        a.wrapping_sub(neg_b).wrapping_add(PRIME)
    } else {
        (a - neg_b) as u64
    }
}

/// Field multiplication: the product reduced modulo the prime.
pub open spec fn bmul_spec(a: u64, b: u64) -> u64 {
    ((a * b) % p()) as u64
}

/// On field elements, the addition is the sum modulo the prime.
pub proof fn lemma_badd_canonical(a: u64, b: u64)
    requires
        a < PRIME,
        b < PRIME,
    ensures
        badd_spec(a, b) as int == (a + b) % p(),
        badd_spec(a, b) < PRIME,
{
    if a + b < p() {
        vstd::arithmetic::div_mod::lemma_small_mod((a + b) as nat, PRIME as nat);
    } else {
        vstd::arithmetic::div_mod::lemma_mod_sub_multiples_vanish((a + b) as int, p());
        vstd::arithmetic::div_mod::lemma_small_mod((a + b - p()) as nat, PRIME as nat);
    }
}

/// Adds two field elements: `a + (p - b)`, corrected by `p` on underflow.
pub fn badd(a: u64, b: u64) -> (r: u64)
    ensures
        r == badd_spec(a, b),
        a < PRIME && b < PRIME ==> r as int == (a + b) % p(),
{
    let neg_b = PRIME.wrapping_sub(b);
    let r = if a < neg_b {
        a.wrapping_sub(neg_b).wrapping_add(PRIME)
    } else {
        a - neg_b
    };
    proof {
        if a < PRIME && b < PRIME {
            lemma_badd_canonical(a, b);
        }
    }
    r
}

/// Multiplies two words and reduces the 128-bit product modulo the prime.
pub fn bmul(a: u64, b: u64) -> (r: u64)
    ensures
        r == bmul_spec(a, b),
        r < PRIME,
{
    assert(a * b <= 0xFFFF_FFFF_FFFF_FFFF * 0xFFFF_FFFF_FFFF_FFFF) by (nonlinear_arith)
        requires a <= 0xFFFF_FFFF_FFFF_FFFF, b <= 0xFFFF_FFFF_FFFF_FFFF;
    reduce_128_optimized(a as u128 * b as u128)
}

/// The scalar addition applied to each pair of lanes, over the common length.
pub open spec fn add_all(a: Seq<u64>, b: Seq<u64>) -> Seq<u64> {
    Seq::new(
        if a.len() <= b.len() {
            a.len()
        } else {
            b.len()
        },
        |k: int| badd_spec(a[k], b[k]),
    )
}

/// The scalar multiplication applied to each pair of lanes, over the common
/// length.
pub open spec fn mul_all(a: Seq<u64>, b: Seq<u64>) -> Seq<u64> {
    Seq::new(
        if a.len() <= b.len() {
            a.len()
        } else {
            b.len()
        },
        |k: int| bmul_spec(a[k], b[k]),
    )
}

/// Element-wise field addition over whole batches of `SIMD_WIDTH` lanes.
/// Each lane computes `p - b` and `a - (p - b)` and selects the correction
/// `p` by the lane's underflow mask, as a vector unit does.
pub fn badd_batch_avx512(a: &[u64], b: &[u64], result: &mut [u64])
    requires
        a@.len() == b@.len(),
        a@.len() == old(result)@.len(),
        a@.len() % (SIMD_WIDTH as nat) == 0,
    ensures
        final(result)@ == add_all(a@, b@),
{
    let len = a.len();
    let mut i: usize = 0;
    while i < len
        invariant
            len == a@.len(),
            a@.len() == b@.len(),
            result@.len() == len,
            len % SIMD_WIDTH == 0,
            i <= len,
            i % SIMD_WIDTH == 0,
            forall|k: int| 0 <= k < i ==> result@[k] == badd_spec(a@[k], b@[k]),
        decreases len - i,
    {
        let mut j: usize = 0;
        while j < SIMD_WIDTH
            invariant
                len == a@.len(),
                a@.len() == b@.len(),
                result@.len() == len,
                i + SIMD_WIDTH <= len,
                j <= SIMD_WIDTH,
                forall|k: int| 0 <= k < i + j ==> result@[k] == badd_spec(a@[k], b@[k]),
            decreases SIMD_WIDTH - j,
        {
            let x = a[i + j];
            let neg_b = PRIME.wrapping_sub(b[i + j]);
            let diff = x.wrapping_sub(neg_b);
            let correction: u64 = if x < neg_b {
                PRIME
            } else {
                0
            };
            result[i + j] = diff.wrapping_add(correction);
            j = j + 1;
        }
        i = i + SIMD_WIDTH;
    }
    assert(result@ =~= add_all(a@, b@));
}

/// Element-wise field multiplication over whole batches of `SIMD_WIDTH`
/// lanes: each lane forms the low and high words of the 128-bit product and
/// reduces it.
pub fn bmul_batch_avx512(a: &[u64], b: &[u64], result: &mut [u64])
    requires
        a@.len() == b@.len(),
        a@.len() == old(result)@.len(),
        a@.len() % (SIMD_WIDTH as nat) == 0,
    ensures
        final(result)@ == mul_all(a@, b@),
{
    let len = a.len();
    let mut i: usize = 0;
    while i < len
        invariant
            len == a@.len(),
            a@.len() == b@.len(),
            result@.len() == len,
            len % SIMD_WIDTH == 0,
            i <= len,
            i % SIMD_WIDTH == 0,
            forall|k: int| 0 <= k < i ==> result@[k] == bmul_spec(a@[k], b@[k]),
        decreases len - i,
    {
        let mut j: usize = 0;
        while j < SIMD_WIDTH
            invariant
                len == a@.len(),
                a@.len() == b@.len(),
                result@.len() == len,
                i + SIMD_WIDTH <= len,
                j <= SIMD_WIDTH,
                forall|k: int| 0 <= k < i + j ==> result@[k] == bmul_spec(a@[k], b@[k]),
            decreases SIMD_WIDTH - j,
        {
            let x = a[i + j];
            let y = b[i + j];
            assert(x * y <= 0xFFFF_FFFF_FFFF_FFFF * 0xFFFF_FFFF_FFFF_FFFF) by (nonlinear_arith)
                requires x <= 0xFFFF_FFFF_FFFF_FFFF, y <= 0xFFFF_FFFF_FFFF_FFFF;
            let wide: u128 = x as u128 * y as u128;
            let lo: u64 = x.wrapping_mul(y);
            let hi: u64 = (wide / 0x1_0000_0000_0000_0000u128) as u64;
            proof {
                lemma_fundamental_div_mod(wide as int, 0x1_0000_0000_0000_0000);
            }
            let product: u128 = hi as u128 * 0x1_0000_0000_0000_0000u128 + lo as u128;
            result[i + j] = reduce_128_optimized(product);
            j = j + 1;
        }
        i = i + SIMD_WIDTH;
    }
    assert(result@ =~= mul_all(a@, b@));
}

/// Horner evaluation `c0 + x * (c1 + x * (...))` with the field operations;
/// a single coefficient is returned as it is, and no coefficients give 0.
pub open spec fn horner(coeffs: Seq<u64>, x: u64) -> u64
    decreases coeffs.len(),
{
    if coeffs.len() == 0 {
        0
    } else if coeffs.len() == 1 {
        coeffs[0]
    } else {
        badd_spec(bmul_spec(horner(coeffs.drop_first(), x), x), coeffs[0])
    }
}

/// The value of the polynomial with the given coefficients (lowest degree
/// first) at `x`, over the integers.
pub open spec fn poly_value(coeffs: Seq<u64>, x: u64) -> int
    decreases coeffs.len(),
{
    if coeffs.len() == 0 {
        0
    } else {
        coeffs[0] + x * poly_value(coeffs.drop_first(), x)
    }
}

/// When every coefficient is a field element, Horner evaluation gives the
/// polynomial's value modulo the prime.
pub proof fn lemma_horner_is_poly_mod(coeffs: Seq<u64>, x: u64)
    requires
        forall|k: int| 0 <= k < coeffs.len() ==> coeffs[k] < PRIME,
    ensures
        horner(coeffs, x) as int == poly_value(coeffs, x) % p(),
    decreases coeffs.len(),
{
    if coeffs.len() == 0 {
    } else if coeffs.len() == 1 {
        assert(poly_value(coeffs.drop_first(), x) == 0);
        vstd::arithmetic::div_mod::lemma_small_mod(coeffs[0] as nat, PRIME as nat);
    } else {
        let tail = coeffs.drop_first();
        lemma_horner_is_poly_mod(tail, x);
        let h = horner(tail, x);
        let v = poly_value(tail, x);
        let m = bmul_spec(h, x);
        vstd::arithmetic::div_mod::lemma_mod_pos_bound(h * x, p());
        lemma_badd_canonical(m, coeffs[0]);
        // m == (h * x) % p == ((v % p) * x) % p == (v * x) % p
        vstd::arithmetic::div_mod::lemma_mul_mod_noop_left(v, x as int, p());
        assert(m as int == (v * x) % p());
        // (m + c0) % p == (v * x + c0) % p
        vstd::arithmetic::div_mod::lemma_add_mod_noop(v * x, coeffs[0] as int, p());
        vstd::arithmetic::div_mod::lemma_small_mod(coeffs[0] as nat, PRIME as nat);
        vstd::arithmetic::div_mod::lemma_mod_twice(v * x, p());
        vstd::arithmetic::div_mod::lemma_add_mod_noop(m as int, coeffs[0] as int, p());
        vstd::arithmetic::div_mod::lemma_small_mod(m as nat, PRIME as nat);
        assert(x * v == v * x) by (nonlinear_arith);
    }
}

/// Evaluates a polynomial (lowest degree first) at `x` by Horner's method.
pub fn poly_eval_optimized(coeffs: &[u64], x: u64) -> (r: u64)
    ensures
        r == horner(coeffs@, x),
        (forall|k: int| 0 <= k < coeffs@.len() ==> coeffs@[k] < PRIME) ==> r as int == poly_value(
            coeffs@,
            x,
        ) % p(),
{
    proof {
        if forall|k: int| 0 <= k < coeffs@.len() ==> coeffs@[k] < PRIME {
            lemma_horner_is_poly_mod(coeffs@, x);
        }
    }
    let n = coeffs.len();
    if n == 0 {
        return 0;
    }
    let mut i: usize = n - 1;
    let mut result = coeffs[i];
    assert(coeffs@.subrange(i as int, n as int).drop_first().len() == 0);
    while i > 0
        invariant
            n == coeffs@.len(),
            i < n,
            result == horner(coeffs@.subrange(i as int, n as int), x),
        decreases i,
    {
        i = i - 1;
        assert(coeffs@.subrange(i as int, n as int).drop_first() =~= coeffs@.subrange(
            i + 1,
            n as int,
        ));
        result = badd(bmul(result, x), coeffs[i]);
    }
    assert(coeffs@.subrange(0, n as int) =~= coeffs@);
    result
}

/// The empty polynomial evaluates to 0 and a constant polynomial to its
/// coefficient, at every point.
pub proof fn lemma_poly_eval_degenerate(x: u64, c: u64)
    ensures
        horner(Seq::<u64>::empty(), x) == 0,
        horner(seq![c], x) == c,
{
}

} // verus!
