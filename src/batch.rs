//! Chunked element-wise field operations over long inputs, with the kernel
//! strategy chosen once when the processor is made.
use vstd::prelude::*;
use crate::field::{
    add_all, badd, badd_batch_avx512, bmul, bmul_batch_avx512, mul_all, SIMD_WIDTH,
};

verus! {

/// Which kernel processes the chunks; both give identical results.
#[derive(Clone, Copy, Debug, PartialEq, Eq, Structural)]
pub enum KernelStrategy {
    /// Whole batches of `SIMD_WIDTH` lanes at a time.
    Vectorized,
    /// One element at a time.
    Scalar,
}

/// Relies on raw_cpuid's `CpuId::new`, `CpuId::get_extended_feature_info` and
/// `ExtendedFeatures::has_avx512f`: whether the host advertises the 512-bit
/// vector extension. The answer depends on the machine, so nothing is stated.
#[verifier::external_body]
fn host_has_avx512f() -> (r: bool) {
    match raw_cpuid::CpuId::new().get_extended_feature_info() {
        Some(features) => features.has_avx512f(),
        None => false,
    }
}

impl KernelStrategy {
    /// The vector kernel where the host advertises wide vector support, the
    /// scalar kernel elsewhere.
    pub fn for_support(avx512f: bool) -> (r: KernelStrategy)
        ensures
            r == (if avx512f {
                KernelStrategy::Vectorized
            } else {
                KernelStrategy::Scalar
            }),
    {
        if avx512f {
            KernelStrategy::Vectorized
        } else {
            KernelStrategy::Scalar
        }
    }

    /// The kernel for this host: asks the processor whether it advertises
    /// wide vector support and picks by `for_support`.
    pub fn detect() -> (r: KernelStrategy)
        ensures
            r == KernelStrategy::Vectorized || r == KernelStrategy::Scalar,
    {
        Self::for_support(host_has_avx512f())
    }
}

/// `n` rounded up to a multiple of `SIMD_WIDTH`.
pub open spec fn round_up_to_width(n: int) -> int {
    ((n + SIMD_WIDTH - 1) / (SIMD_WIDTH as int)) * SIMD_WIDTH
}

/// Processes long inputs in chunks of `batch_size` elements.
///
/// It keeps no cache-aligned scratch buffer: the padding that would align one
/// depends on the address the allocator hands out, which safe code cannot
/// read, and it changes no result. Each chunk is copied into buffers padded
/// to whole batches instead.
pub struct BatchProcessor {
    batch_size: usize,
    strategy: KernelStrategy,
}

impl BatchProcessor {
    /// Chunks are whole batches.
    #[verifier::type_invariant]
    spec fn whole_batches(&self) -> bool {
        self.batch_size % SIMD_WIDTH == 0
    }

    /// The chunk length in elements.
    pub closed spec fn spec_batch_size(&self) -> usize {
        self.batch_size
    }

    /// The kernel that processes the chunks.
    pub closed spec fn spec_strategy(&self) -> KernelStrategy {
        self.strategy
    }

    /// A processor whose chunks hold `max_elements` rounded up to the batch
    /// width, using the kernel that the host supports.
    pub fn new(max_elements: usize) -> (r: BatchProcessor)
        requires
            max_elements + SIMD_WIDTH - 1 <= usize::MAX,
        ensures
            r.spec_batch_size() == round_up_to_width(max_elements as int),
    {
        Self::with_strategy(max_elements, KernelStrategy::detect())
    }

    /// A processor with a chosen kernel strategy.
    pub fn with_strategy(max_elements: usize, strategy: KernelStrategy) -> (r: BatchProcessor)
        requires
            max_elements + SIMD_WIDTH - 1 <= usize::MAX,
        ensures
            r.spec_batch_size() == round_up_to_width(max_elements as int),
            r.spec_strategy() == strategy,
    {
        let batches = (max_elements + (SIMD_WIDTH - 1)) / SIMD_WIDTH;
        assert(batches * SIMD_WIDTH <= max_elements + (SIMD_WIDTH - 1)) by (nonlinear_arith)
            requires batches == (max_elements + 7) / 8, SIMD_WIDTH == 8;
        let batch_size = batches * SIMD_WIDTH;
        proof {
            vstd::arithmetic::div_mod::lemma_mod_multiples_basic(batches as int, SIMD_WIDTH as int);
        }
        BatchProcessor { batch_size, strategy }
    }

    /// The chunk length in elements.
    pub fn batch_size(&self) -> (r: usize)
        ensures
            r == self.spec_batch_size(),
    {
        self.batch_size
    }

    /// The kernel strategy in use.
    pub fn strategy(&self) -> (r: KernelStrategy)
        ensures
            r == self.spec_strategy(),
    {
        self.strategy
    }

    /// Field sums of corresponding elements; the inputs have one length.
    pub fn process_batch_add(&mut self, a: &[u64], b: &[u64]) -> (r: Vec<u64>)
        requires
            a@.len() == b@.len(),
        ensures
            r@ == add_all(a@, b@),
            *final(self) == *old(self),
    {
        self.process_chunks(a, b, false)
    }

    /// Field products of corresponding elements; the inputs have one length.
    pub fn process_batch_mul(&mut self, a: &[u64], b: &[u64]) -> (r: Vec<u64>)
        requires
            a@.len() == b@.len(),
        ensures
            r@ == mul_all(a@, b@),
            *final(self) == *old(self),
    {
        self.process_chunks(a, b, true)
    }

    fn process_chunks(&self, a: &[u64], b: &[u64], multiply: bool) -> (r: Vec<u64>)
        requires
            a@.len() == b@.len(),
        ensures
            r@ == (if multiply {
                mul_all(a@, b@)
            } else {
                add_all(a@, b@)
            }),
    {
        let len = a.len();
        proof {
            use_type_invariant(self);
        }
        let chunk_size = if self.batch_size == 0 {
            SIMD_WIDTH
        } else {
            self.batch_size
        };
        assert(chunk_size <= usize::MAX - (SIMD_WIDTH - 1)) by {
            assert(chunk_size % 8 == 0 && chunk_size <= 0xFFFF_FFFF_FFFF_FFFF ==> chunk_size
                <= 0xFFFF_FFFF_FFFF_FFF8) by (nonlinear_arith);
        }
        let ghost want = if multiply {
            mul_all(a@, b@)
        } else {
            add_all(a@, b@)
        };
        let mut result: Vec<u64> = Vec::new();
        let mut start: usize = 0;
        while start < len
            invariant
                len <= a@.len(),
                len <= b@.len(),
                want.len() == len,
                forall|k: int|
                    0 <= k < len ==> #[trigger] want[k] == (if multiply {
                        crate::field::bmul_spec(a@[k], b@[k])
                    } else {
                        crate::field::badd_spec(a@[k], b@[k])
                    }),
                chunk_size > 0,
                chunk_size <= usize::MAX - (SIMD_WIDTH - 1),
                start <= len,
                result@ == want.subrange(0, start as int),
            decreases len - start,
        {
            let end = if len - start < chunk_size {
                len
            } else {
                start + chunk_size
            };
            let chunk = self.process_chunk(a, b, start, end, multiply);
            let mut k: usize = 0;
            while k < end - start
                invariant
                    start < end <= len,
                    want.len() == len,
                    chunk@.len() == end - start,
                    forall|t: int|
                        0 <= t < end - start ==> chunk@[t] == want[start + t],
                    k <= end - start,
                    result@ == want.subrange(0, start + k),
                decreases end - start - k,
            {
                result.push(chunk[k]);
                assert(want.subrange(0, start + k + 1) =~= want.subrange(0, start + k).push(
                    want[start + k],
                ));
                k = k + 1;
            }
            start = end;
        }
        assert(want.subrange(0, len as int) =~= want);
        result
    }

    /// One chunk `[start, end)`, padded with zeros to whole batches and run
    /// through the selected kernel.
    fn process_chunk(&self, a: &[u64], b: &[u64], start: usize, end: usize, multiply: bool) -> (r:
        Vec<u64>)
        requires
            start < end,
            end - start <= usize::MAX - (SIMD_WIDTH - 1),
            end <= a@.len(),
            end <= b@.len(),
        ensures
            r@.len() == end - start,
            forall|t: int|
                0 <= t < end - start ==> r@[t] == (if multiply {
                    crate::field::bmul_spec(a@[start + t], b@[start + t])
                } else {
                    crate::field::badd_spec(a@[start + t], b@[start + t])
                }),
    {
        let chunk_len = end - start;
        let batches = (chunk_len + (SIMD_WIDTH - 1)) / SIMD_WIDTH;
        assert(chunk_len <= batches * SIMD_WIDTH <= chunk_len + (SIMD_WIDTH - 1))
            by (nonlinear_arith)
            requires batches == (chunk_len + 7) / 8, SIMD_WIDTH == 8;
        let padded_len = batches * SIMD_WIDTH;
        proof {
            vstd::arithmetic::div_mod::lemma_mod_multiples_basic(batches as int, SIMD_WIDTH as int);
        }
        let a_chunk = padded_copy(a, start, end, padded_len);
        let b_chunk = padded_copy(b, start, end, padded_len);
        let mut out: Vec<u64> = vec![0u64; padded_len];
        match self.strategy {
            KernelStrategy::Vectorized => {
                if multiply {
                    bmul_batch_avx512(a_chunk.as_slice(), b_chunk.as_slice(), out.as_mut_slice());
                } else {
                    badd_batch_avx512(a_chunk.as_slice(), b_chunk.as_slice(), out.as_mut_slice());
                }
            },
            KernelStrategy::Scalar => {
                let mut i: usize = 0;
                while i < chunk_len
                    invariant
                        chunk_len <= padded_len,
                        a_chunk@.len() == padded_len,
                        b_chunk@.len() == padded_len,
                        out@.len() == padded_len,
                        i <= chunk_len,
                        forall|t: int|
                            0 <= t < i ==> out@[t] == (if multiply {
                                crate::field::bmul_spec(a_chunk@[t], b_chunk@[t])
                            } else {
                                crate::field::badd_spec(a_chunk@[t], b_chunk@[t])
                            }),
                    decreases chunk_len - i,
                {
                    let v = if multiply {
                        bmul(a_chunk[i], b_chunk[i])
                    } else {
                        badd(a_chunk[i], b_chunk[i])
                    };
                    out.set(i, v);
                    i = i + 1;
                }
            },
        }
        out.truncate(chunk_len);
        out
    }
}

/// `src[start..end]` followed by zeros up to `padded_len` elements.
fn padded_copy(src: &[u64], start: usize, end: usize, padded_len: usize) -> (r: Vec<u64>)
    requires
        start <= end <= src@.len(),
        end - start <= padded_len,
    ensures
        r@.len() == padded_len,
        forall|t: int| 0 <= t < end - start ==> r@[t] == src@[start + t],
{
    let mut r: Vec<u64> = Vec::new();
    let mut i: usize = start;
    while i < end
        invariant
            start <= i <= end <= src@.len(),
            r@.len() == i - start,
            forall|t: int| 0 <= t < i - start ==> r@[t] == src@[start + t],
        decreases end - i,
    {
        r.push(src[i]);
        i = i + 1;
    }
    while r.len() < padded_len
        invariant
            r@.len() <= padded_len,
            end - start <= r@.len(),
            forall|t: int| 0 <= t < end - start ==> r@[t] == src@[start + t],
        decreases padded_len - r@.len(),
    {
        r.push(0);
    }
    r
}

} // verus!
