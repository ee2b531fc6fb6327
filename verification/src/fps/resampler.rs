//! [Fps] resampling utilities: a [Resampler] that caches the reduced ratio
//! between two frame rates, and freestanding functions for one-off use.

use vstd::prelude::*;

use super::{
    lemma_div_ceil_no_overflow, lemma_index_product_fits, lemma_reduced_ratio_duration_alike,
    lemma_reduced_ratio_resamples_alike, lemma_reduced_ratio_resamples_back_alike,
    lemma_reduced_ratio_translates, lemma_translate_same_ratio, ratio_u128, resample_back_index,
    resample_duration_value, resample_index, src_per_dest, Fps,
};
use crate::arith::{div_ceil, gcd_u64, lemma_reduced_is_simplified};

verus! {

/// Given a stream of data `S` that produces data `src` times per second, this
/// can be used to get the index of the piece of data from `S` that should be
/// used for index `dest_idx` in a new stream of data `D`, where `D` produces
/// resampled data from `S` `dest` times per second.
#[derive(Debug, Clone, Copy, PartialEq, Eq, Structural)]
pub struct Resampler {
    src_per_dest_num: u64,
    src_per_dest_den: u64,
}

impl Resampler {
    #[verifier::type_invariant]
    spec fn inv(self) -> bool {
        self.src_per_dest_num > 0 && self.src_per_dest_den > 0
    }

    /// The stored `src / dest` ratio (numerator, denominator); both parts
    /// are positive.
    pub closed spec fn ratio(self) -> (nat, nat) {
        (
            if self.src_per_dest_num > 0 {
                self.src_per_dest_num as nat
            } else {
                1
            },
            if self.src_per_dest_den > 0 {
                self.src_per_dest_den as nat
            } else {
                1
            },
        )
    }

    /// Both parts of a resampler's ratio are positive.
    pub proof fn lemma_ratio_positive(self)
        ensures
            self.ratio().0 > 0,
            self.ratio().1 > 0,
    {
    }

    /// Create a [Resampler] for resampling a `src` stream to a `dest` stream.
    pub fn new(src: Fps, dest: Fps) -> (r: Self)
        ensures
            r.ratio() == src_per_dest(src, dest),
            r.ratio().0 > 0,
            r.ratio().1 > 0,
    {
        let (sn, sd) = src.as_frac();
        let (dn, dd) = dest.as_frac();
        proof {
            vstd::arithmetic::mul::lemma_mul_upper_bound(sn as int, u32::MAX as int, dd as int, u32::MAX as int);
            vstd::arithmetic::mul::lemma_mul_upper_bound(sd as int, u32::MAX as int, dn as int, u32::MAX as int);
            vstd::arithmetic::mul::lemma_mul_strictly_positive(sn as int, dd as int);
            vstd::arithmetic::mul::lemma_mul_strictly_positive(sd as int, dn as int);
        }
        let n = sn as u64 * dd as u64;
        let d = sd as u64 * dn as u64;
        let g = gcd_u64(n, d);
        proof {
            lemma_reduced_is_simplified(n as nat, d as nat);
        }
        Self { src_per_dest_num: n / g, src_per_dest_den: d / g }
    }

    /// A [Resampler] for when no resampling is needed.
    pub fn no_op() -> (r: Self)
        ensures
            r.ratio() == (1nat, 1nat),
    {
        Self { src_per_dest_num: 1, src_per_dest_den: 1 }
    }

    /// The source index for `dest_idx`, like [resample] with the `src` and
    /// `dest` given to [Self::new]. The product `dest_idx * num` must fit in
    /// a `u64`.
    pub fn resample(&self, dest_idx: usize) -> (r: usize)
        requires
            (dest_idx as nat) * self.ratio().0 <= u64::MAX,
        ensures
            r == (((dest_idx as nat) * self.ratio().0) / self.ratio().1) as usize,
    {
        proof {
            use_type_invariant(self);
        }
        let x = dest_idx as u64 * self.src_per_dest_num;
        (x / self.src_per_dest_den) as usize
    }

    /// The first destination index for `src_idx`, like [resample_back] with
    /// the `src` and `dest` given to [Self::new]. The product
    /// `src_idx * den` must fit in a `u64`.
    pub fn resample_back(&self, src_idx: usize) -> (r: usize)
        requires
            (src_idx as nat) * self.ratio().1 <= u64::MAX,
        ensures
            r == div_ceil((src_idx as nat) * self.ratio().1, self.ratio().0) as usize,
    {
        proof {
            use_type_invariant(self);
        }
        let x = src_idx as u64 * self.src_per_dest_den;
        let q = x / self.src_per_dest_num;
        proof {
            lemma_div_ceil_no_overflow(x as nat, self.src_per_dest_num as nat, u64::MAX as nat);
        }
        let q = if x % self.src_per_dest_num == 0 { q } else { q + 1 };
        q as usize
    }

    /// The destination duration for `src_duration` source frames, like
    /// [resample_duration] with the `src` and `dest` given to [Self::new].
    /// This can be 0. The product `src_duration * den` must fit in a `u64`.
    pub fn duration(&self, src_duration: usize) -> (r: usize)
        requires
            (src_duration as nat) * self.ratio().1 <= u64::MAX,
        ensures
            r == (((src_duration as nat) * self.ratio().1) / self.ratio().0) as usize,
    {
        proof {
            use_type_invariant(self);
        }
        let x = src_duration as u64 * self.src_per_dest_den;
        (x / self.src_per_dest_num) as usize
    }

    /// Translates a `dest` index from another resampler into a `dest` index for
    /// this resampler. The product of the index with the old numerator and
    /// the new denominator must fit in a `u128`.
    pub fn translate_old_dest_idx(&self, old_resampler: Resampler, old_dest_idx: usize) -> (r: usize)
        requires
            (old_dest_idx as nat) * old_resampler.ratio().0 * self.ratio().1 <= u128::MAX,
        ensures
            r == (((old_dest_idx as nat) * old_resampler.ratio().0 * self.ratio().1) / (
            old_resampler.ratio().1 * self.ratio().0)) as usize,
    {
        proof {
            use_type_invariant(self);
            use_type_invariant(&old_resampler);
        }
        let old_num = old_resampler.src_per_dest_num as u128;
        let old_den = old_resampler.src_per_dest_den as u128;
        let new_num = self.src_per_dest_num as u128;
        let new_den = self.src_per_dest_den as u128;
        proof {
            vstd::arithmetic::mul::lemma_mul_upper_bound(old_den as int, u64::MAX as int, new_num as int, u64::MAX as int);
            vstd::arithmetic::mul::lemma_mul_strictly_positive(old_den as int, new_num as int);
            let a = old_dest_idx as int * old_num as int;
            vstd::arithmetic::mul::lemma_mul_nonnegative(old_dest_idx as int, old_num as int);
            if a > 0 {
                vstd::arithmetic::mul::lemma_mul_increases(new_den as int, a);
                vstd::arithmetic::mul::lemma_mul_is_commutative(new_den as int, a);
            }
        }
        let x = old_dest_idx as u128 * old_num;
        let x = x * new_den;
        (x / (old_den * new_num)) as usize
    }
}

/// Given a stream of data `S` that produces data `src` times per second, this
/// function returns the index of the piece of data from `S` that should be used
/// for index `dest_idx` in a new stream of data `D`, where `D` produces
/// resampled data from `S` `dest` times per second.
pub fn resample(dest_idx: usize, src: Fps, dest: Fps) -> (r: usize)
    ensures
        r == resample_index(dest_idx as nat, src, dest) as usize,
{
    let (n, d) = ratio_u128(src, dest);
    proof {
        lemma_index_product_fits(dest_idx as nat, n as nat);
    }
    ((dest_idx as u128 * n) / d) as usize
}

/// The inverse of [resample]: the first index in `D` whose resampled index is
/// at least `src_idx` (see [lemma_resample_back_is_first]).
pub fn resample_back(src_idx: usize, src: Fps, dest: Fps) -> (r: usize)
    ensures
        r == resample_back_index(src_idx as nat, src, dest) as usize,
{
    let (n, d) = ratio_u128(src, dest);
    proof {
        lemma_index_product_fits(src_idx as nat, d as nat);
    }
    let x = src_idx as u128 * d;
    let q = x / n;
    proof {
        lemma_div_ceil_no_overflow(x as nat, n as nat, u128::MAX as nat);
    }
    let q = if x % n == 0 { q } else { q + 1 };
    q as usize
}

/// Given a resampled stream of data (see [resample]), the duration of the
/// `dest` stream given the duration of the `src` stream. This can be 0.
pub fn resample_duration(src_duration: usize, src: Fps, dest: Fps) -> (r: usize)
    ensures
        r == resample_duration_value(src_duration as nat, src, dest) as usize,
{
    let (n, d) = ratio_u128(src, dest);
    proof {
        lemma_index_product_fits(src_duration as nat, d as nat);
        vstd::arithmetic::mul::lemma_mul_is_commutative(dest.numer() as int, src.denom() as int);
        vstd::arithmetic::mul::lemma_mul_is_commutative(dest.denom() as int, src.numer() as int);
    }
    ((src_duration as u128 * d) / n) as usize
}

/// A [Resampler] made by [Resampler::new] resamples exactly like [resample]
/// with the same `src` and `dest`: reducing the ratio never changes the
/// result.
pub proof fn lemma_resampler_matches_resample(src: Fps, dest: Fps, r: Resampler, dest_idx: nat)
    requires
        src.valid(),
        dest.valid(),
        r.ratio() == src_per_dest(src, dest),
    ensures
        (dest_idx * r.ratio().0) / r.ratio().1 == resample_index(dest_idx, src, dest),
{
    lemma_reduced_ratio_resamples_alike(src, dest, dest_idx);
}

/// A [Resampler] made by [Resampler::new] finds the first destination index
/// exactly like [resample_back] with the same `src` and `dest`, and that
/// index resamples to at least `src_idx`.
pub proof fn lemma_resampler_matches_resample_back(src: Fps, dest: Fps, r: Resampler, src_idx: nat)
    requires
        src.valid(),
        dest.valid(),
        r.ratio() == src_per_dest(src, dest),
    ensures
        div_ceil(src_idx * r.ratio().1, r.ratio().0) == resample_back_index(src_idx, src, dest),
        resample_index(resample_back_index(src_idx, src, dest), src, dest) >= src_idx,
{
    lemma_reduced_ratio_resamples_back_alike(src, dest, src_idx);
}

/// A [Resampler] made by [Resampler::new] computes the destination duration
/// exactly like [resample_duration] with the same `src` and `dest`.
pub proof fn lemma_resampler_matches_duration(src: Fps, dest: Fps, r: Resampler, src_duration: nat)
    requires
        src.valid(),
        dest.valid(),
        r.ratio() == src_per_dest(src, dest),
    ensures
        (src_duration * r.ratio().1) / r.ratio().0 == resample_duration_value(
            src_duration,
            src,
            dest,
        ),
{
    lemma_reduced_ratio_duration_alike(src, dest, src_duration);
}

/// Translating an index from a resampler of `src` to `d1` into one of `src`
/// to `d2` rescales it by the ratio of the destination rates:
/// `floor(i * d2 / d1)`.
pub proof fn lemma_translate_between_rates(
    src: Fps,
    d1: Fps,
    d2: Fps,
    old_resampler: Resampler,
    new_resampler: Resampler,
    i: nat,
)
    requires
        src.valid(),
        d1.valid(),
        d2.valid(),
        old_resampler.ratio() == src_per_dest(src, d1),
        new_resampler.ratio() == src_per_dest(src, d2),
    ensures
        (i * old_resampler.ratio().0 * new_resampler.ratio().1) / (old_resampler.ratio().1
            * new_resampler.ratio().0) == (i * d1.denom() * d2.numer()) / (d1.numer()
            * d2.denom()),
{
    lemma_reduced_ratio_translates(src, d1, d2, i);
}

/// Translating an index from a resampler to the same resampler leaves it
/// alone.
pub proof fn lemma_translate_same_resampler(r: Resampler, i: nat)
    ensures
        (i * r.ratio().0 * r.ratio().1) / (r.ratio().1 * r.ratio().0) == i,
{
    r.lemma_ratio_positive();
    lemma_translate_same_ratio(i, r.ratio().0, r.ratio().1);
}

} // verus!
