//! Defines [Fps], a numeric type used to represent a frame rate, along with
//! some helpers for resampling streams from one frame rate to another.

pub mod consts;
pub mod resampler;
pub mod switch_timer;

use core::cmp::Ordering;

use vstd::prelude::*;
use vstd::std_specs::cmp::PartialOrdSpecImpl;

use crate::arith::{
    div_ceil, gcd, gcd_u32, gcd_u64, is_simplified, lemma_div_ceil_le_iff, lemma_div_ge_iff,
    lemma_div_scaled, lemma_exact_div, lemma_gcd_divides, lemma_gcd_pos,
    lemma_reduced_is_simplified,
};

verus! {

/// A number of frames per second (i.e. Hz), stored as a positive fraction in
/// lowest terms. Two frame rates are equal exactly when they denote the same
/// number, because the stored fraction is always simplified.
#[derive(Debug, Clone, Copy, PartialEq, Eq, Structural)]
pub struct Fps {
    num: u32,
    den: u32,
}

/// Indicates that an operation with an [Fps] object failed.
#[derive(Debug, Clone, Copy, PartialEq, Eq, Structural)]
pub enum FpsError {
    /// A frame rate cannot be created with a non-positive numerator.
    NonPositiveNum,
    /// A frame rate cannot be created with a non-positive denominator.
    NonPositiveDen,
    /// A frame rate cannot be created from an non-positive float.
    NonPositiveFloat,
    /// A frame rate cannot be created from an near-zero float.
    NearZeroFloat,
    /// A frame rate cannot be created from a float over `u32::MAX`.
    TooLargeFloat,
    /// A frame rate cannot be created from an abnormal float.
    AbnormalFloat,
    /// A frame rate cannot be created from a float with no reasonable fraction
    /// approximation.
    NoFracApproximation,
    /// A frame rate cannot be converted to an integer if it has a denominator
    /// over 1.
    NoIntRepresentation,
}

/// The message that describes each [FpsError].
pub open spec fn fps_error_message(e: FpsError) -> Seq<char> {
    match e {
        FpsError::NonPositiveNum => "A frame rate cannot be created with a non-positive numerator."@,
        FpsError::NonPositiveDen => "A frame rate cannot be created with a non-positive denominator."@,
        FpsError::NonPositiveFloat => "A frame rate cannot be created from an non-positive float."@,
        FpsError::NearZeroFloat => "A frame rate cannot be created from an near-zero float."@,
        FpsError::TooLargeFloat => "A frame rate cannot be created from an exceptionally large float."@,
        FpsError::AbnormalFloat => "A frame rate cannot be created from an abnormal float."@,
        FpsError::NoFracApproximation => "A frame rate cannot be created from a float with no reasonable fraction approximation."@,
        FpsError::NoIntRepresentation => "A frame rate cannot be converted to an integer if it has a denominator over 1."@,
    }
}

impl FpsError {
    /// The message that describes this error.
    pub fn message(&self) -> (r: &'static str)
        ensures
            r@ == fps_error_message(*self),
    {
        match self {
            FpsError::NonPositiveNum => "A frame rate cannot be created with a non-positive numerator.",
            FpsError::NonPositiveDen => "A frame rate cannot be created with a non-positive denominator.",
            FpsError::NonPositiveFloat => "A frame rate cannot be created from an non-positive float.",
            FpsError::NearZeroFloat => "A frame rate cannot be created from an near-zero float.",
            FpsError::TooLargeFloat => "A frame rate cannot be created from an exceptionally large float.",
            FpsError::AbnormalFloat => "A frame rate cannot be created from an abnormal float.",
            FpsError::NoFracApproximation => "A frame rate cannot be created from a float with no reasonable fraction approximation.",
            FpsError::NoIntRepresentation => "A frame rate cannot be converted to an integer if it has a denominator over 1.",
        }
    }
}

/// The numerator of `num/den` in lowest terms.
pub open spec fn reduced_num(num: nat, den: nat) -> nat {
    num / gcd(num, den)
}

/// The denominator of `num/den` in lowest terms.
pub open spec fn reduced_den(num: nat, den: nat) -> nat {
    den / gcd(num, den)
}

impl Fps {
    #[verifier::type_invariant]
    spec fn inv(self) -> bool {
        is_simplified(self.num as nat, self.den as nat)
    }

    /// The numerator of the stored fraction.
    pub closed spec fn numer(self) -> nat {
        self.num as nat
    }

    /// The denominator of the stored fraction.
    pub closed spec fn denom(self) -> nat {
        self.den as nat
    }

    /// The fraction this frame rate denotes, in lowest terms.
    pub open spec fn valid(self) -> bool {
        is_simplified(self.numer(), self.denom())
    }

    /// Constructs an [Fps] object from an integer. Also see [Self::from_frac].
    pub fn from_int(fps: u32) -> (r: Result<Self, FpsError>)
        ensures
            fps == 0 <==> r == Err::<Fps, FpsError>(FpsError::NonPositiveNum),
            fps > 0 ==> r is Ok,
            r matches Ok(f) ==> f.numer() == fps && f.denom() == 1 && f.valid(),
    {
        if fps == 0 {
            return Err(FpsError::NonPositiveNum);
        }
        Ok(Self::from_non_zero_int(fps))
    }

    /// Like [Self::from_int] but for a frame rate already known to be
    /// non-zero.
    pub fn from_non_zero_int(fps: u32) -> (r: Self)
        requires
            fps > 0,
        ensures
            r.numer() == fps,
            r.denom() == 1,
            r.valid(),
    {
        assert(gcd(fps as nat, 1) == 1) by {
            assert(gcd(1, (fps as nat) % 1) == 1);
        }
        Self { num: fps, den: 1 }
    }

    /// Constructs an [Fps] object from a fraction (which gets simplified). Also
    /// see [Self::from_int].
    pub fn from_frac(num: u32, den: u32) -> (r: Result<Self, FpsError>)
        ensures
            num == 0 <==> r == Err::<Fps, FpsError>(FpsError::NonPositiveNum),
            num != 0 && den == 0 <==> r == Err::<Fps, FpsError>(FpsError::NonPositiveDen),
            num > 0 && den > 0 ==> r is Ok,
            r matches Ok(f) ==> {
                &&& f.numer() == reduced_num(num as nat, den as nat)
                &&& f.denom() == reduced_den(num as nat, den as nat)
                &&& f.valid()
            },
    {
        if num == 0 {
            return Err(FpsError::NonPositiveNum);
        }
        if den == 0 {
            return Err(FpsError::NonPositiveDen);
        }
        Ok(Self::from_non_zero_frac(num, den))
    }

    /// Like [Self::from_frac] for a numerator and denominator already known to
    /// be non-zero.
    pub fn from_non_zero_frac(num: u32, den: u32) -> (r: Self)
        requires
            num > 0,
            den > 0,
        ensures
            r.numer() == reduced_num(num as nat, den as nat),
            r.denom() == reduced_den(num as nat, den as nat),
            r.valid(),
    {
        let g = gcd_u32(num, den);
        proof {
            lemma_reduced_is_simplified(num as nat, den as nat);
        }
        Self { num: num / g, den: den / g }
    }

    /// Like [Self::from_frac] but without simplifying the fraction: the
    /// fraction must already be in lowest terms.
    pub fn from_simplified_frac(num: u32, den: u32) -> (r: Result<Self, FpsError>)
        requires
            gcd(num as nat, den as nat) == 1,
        ensures
            num == 0 <==> r == Err::<Fps, FpsError>(FpsError::NonPositiveNum),
            num != 0 && den == 0 <==> r == Err::<Fps, FpsError>(FpsError::NonPositiveDen),
            num > 0 && den > 0 ==> r is Ok,
            r matches Ok(f) ==> f.numer() == num && f.denom() == den && f.valid(),
    {
        if num == 0 {
            return Err(FpsError::NonPositiveNum);
        }
        if den == 0 {
            return Err(FpsError::NonPositiveDen);
        }
        Ok(Self::from_simplified_non_zero_frac(num, den))
    }

    /// Like [Self::from_simplified_frac] for a numerator and denominator
    /// already known to be non-zero.
    pub fn from_simplified_non_zero_frac(num: u32, den: u32) -> (r: Self)
        requires
            is_simplified(num as nat, den as nat),
        ensures
            r.numer() == num,
            r.denom() == den,
            r.valid(),
    {
        Self { num, den }
    }

    /// Get the frame rate as a simplified fraction (numerator and denominator
    /// pair).
    pub fn as_frac(&self) -> (r: (u32, u32))
        ensures
            r.0 == self.numer(),
            r.1 == self.denom(),
            is_simplified(r.0 as nat, r.1 as nat),
    {
        proof {
            use_type_invariant(self);
        }
        (self.num, self.den)
    }

    /// Like [Self::as_frac]; both values are non-zero.
    pub fn as_non_zero_frac(&self) -> (r: (u32, u32))
        ensures
            r.0 == self.numer(),
            r.1 == self.denom(),
            r.0 > 0,
            r.1 > 0,
    {
        proof {
            use_type_invariant(self);
        }
        (self.num, self.den)
    }

    /// The numerator from [Self::as_frac].
    pub fn num(&self) -> (r: u32)
        ensures
            r == self.numer(),
            r > 0,
            self.valid(),
    {
        proof {
            use_type_invariant(self);
        }
        self.num
    }

    /// The denominator from [Self::as_frac].
    pub fn den(&self) -> (r: u32)
        ensures
            r == self.denom(),
            r > 0,
            self.valid(),
    {
        proof {
            use_type_invariant(self);
        }
        self.den
    }

    /// Like [Self::num]; the value is non-zero.
    pub fn num_non_zero(&self) -> (r: u32)
        ensures
            r == self.numer(),
            r > 0,
    {
        self.num()
    }

    /// Like [Self::den]; the value is non-zero.
    pub fn den_non_zero(&self) -> (r: u32)
        ensures
            r == self.denom(),
            r > 0,
    {
        self.den()
    }

    /// This frame rate as a whole number of frames per second, if its
    /// denominator is 1.
    pub fn as_int(&self) -> (r: Result<u32, FpsError>)
        ensures
            self.denom() == 1 ==> r == Ok::<u32, FpsError>(self.numer() as u32),
            self.denom() != 1 ==> r == Err::<u32, FpsError>(FpsError::NoIntRepresentation),
    {
        if self.den == 1 {
            Ok(self.num)
        } else {
            Err(FpsError::NoIntRepresentation)
        }
    }

    /// Like [Self::as_int]; the value is non-zero.
    pub fn as_non_zero_int(&self) -> (r: Result<u32, FpsError>)
        ensures
            self.denom() == 1 ==> r == Ok::<u32, FpsError>(self.numer() as u32),
            self.denom() != 1 ==> r == Err::<u32, FpsError>(FpsError::NoIntRepresentation),
            r matches Ok(n) ==> n > 0,
    {
        proof {
            use_type_invariant(self);
        }
        self.as_int()
    }

    /// The inverse of this frame rate (e.g. `1/2` becomes `2/1`).
    pub fn inverse(&self) -> (r: Self)
        ensures
            r.numer() == self.denom(),
            r.denom() == self.numer(),
            r.valid(),
    {
        proof {
            use_type_invariant(self);
            crate::arith::lemma_gcd_comm(self.num as nat, self.den as nat);
        }
        Self { num: self.den, den: self.num }
    }

    /// The product of two frame rates.
    ///
    /// The numerators and the denominators must multiply without overflowing
    /// a `u32`.
    pub fn mul(self, rhs: Fps) -> (r: Fps)
        requires
            self.numer() * rhs.numer() <= u32::MAX,
            self.denom() * rhs.denom() <= u32::MAX,
        ensures
            r.numer() == reduced_num(self.numer() * rhs.numer(), self.denom() * rhs.denom()),
            r.denom() == reduced_den(self.numer() * rhs.numer(), self.denom() * rhs.denom()),
            r.valid(),
    {
        let (n1, d1) = self.as_frac();
        let (n2, d2) = rhs.as_frac();
        proof {
            vstd::arithmetic::mul::lemma_mul_strictly_positive(n1 as int, n2 as int);
            vstd::arithmetic::mul::lemma_mul_strictly_positive(d1 as int, d2 as int);
        }
        Self::from_non_zero_frac(n1 * n2, d1 * d2)
    }

    /// The quotient of two frame rates: `self` times the inverse of `rhs`.
    pub fn div(self, rhs: Fps) -> (r: Fps)
        requires
            self.numer() * rhs.denom() <= u32::MAX,
            self.denom() * rhs.numer() <= u32::MAX,
        ensures
            r.numer() == reduced_num(self.numer() * rhs.denom(), self.denom() * rhs.numer()),
            r.denom() == reduced_den(self.numer() * rhs.denom(), self.denom() * rhs.numer()),
            r.valid(),
    {
        self.mul(rhs.inverse())
    }

    /// Combines two frame rates the way `+` does: both fractions are brought
    /// to the common denominator `d1 * d2`, and both the numerators and these
    /// equal denominators are summed, so the result is half the sum of the
    /// two rates.
    ///
    /// Every intermediate product and sum must fit in a `u32`.
    pub fn add(self, rhs: Fps) -> (r: Fps)
        requires
            self.numer() * rhs.denom() + rhs.numer() * self.denom() <= u32::MAX,
            2 * (self.denom() * rhs.denom()) <= u32::MAX,
        ensures
            r.numer() == reduced_num(
                self.numer() * rhs.denom() + rhs.numer() * self.denom(),
                2 * (self.denom() * rhs.denom()),
            ),
            r.denom() == reduced_den(
                self.numer() * rhs.denom() + rhs.numer() * self.denom(),
                2 * (self.denom() * rhs.denom()),
            ),
            r.valid(),
    {
        let (n1, d1) = self.as_frac();
        let (n2, d2) = rhs.as_frac();
        proof {
            vstd::arithmetic::mul::lemma_mul_strictly_positive(n1 as int, d2 as int);
            vstd::arithmetic::mul::lemma_mul_strictly_positive(n2 as int, d1 as int);
            vstd::arithmetic::mul::lemma_mul_strictly_positive(d1 as int, d2 as int);
            vstd::arithmetic::mul::lemma_mul_is_commutative(d1 as int, d2 as int);
        }
        let lhs_num = n1 * d2;
        let lhs_den = d1 * d2;
        let rhs_num = n2 * d1;
        let rhs_den = d2 * d1;
        Self::from_non_zero_frac(lhs_num + rhs_num, lhs_den + rhs_den)
    }

    /// The two cross products `self.num * other.den` and
    /// `other.num * self.den`, whose order is the order of the two rates.
    fn cross_products(&self, other: &Fps) -> (r: (u64, u64))
        ensures
            r.0 == self.numer() * other.denom(),
            r.1 == other.numer() * self.denom(),
    {
        proof {
            vstd::arithmetic::mul::lemma_mul_upper_bound(
                self.num as int,
                u32::MAX as int,
                other.den as int,
                u32::MAX as int,
            );
            vstd::arithmetic::mul::lemma_mul_upper_bound(
                other.num as int,
                u32::MAX as int,
                self.den as int,
                u32::MAX as int,
            );
        }
        (self.num as u64 * other.den as u64, other.num as u64 * self.den as u64)
    }
}

/// `a` denotes a smaller rate than `b`.
pub open spec fn fps_lt(a: Fps, b: Fps) -> bool {
    a.numer() * b.denom() < b.numer() * a.denom()
}

impl PartialOrd for Fps {
    fn partial_cmp(&self, other: &Self) -> (r: Option<Ordering>) {
        let (lhs, rhs) = self.cross_products(other);
        if lhs < rhs {
            Some(Ordering::Less)
        } else if lhs == rhs {
            Some(Ordering::Equal)
        } else {
            Some(Ordering::Greater)
        }
    }
}

impl PartialOrdSpecImpl for Fps {
    open spec fn obeys_partial_cmp_spec() -> bool {
        true
    }

    open spec fn partial_cmp_spec(&self, other: &Self) -> Option<Ordering> {
        if fps_lt(*self, *other) {
            Some(Ordering::Less)
        } else if fps_lt(*other, *self) {
            Some(Ordering::Greater)
        } else {
            Some(Ordering::Equal)
        }
    }
}

/// Frame rates are ordered by the numbers they denote: one is below another
/// exactly when its fraction is smaller (cross products), they compare equal
/// exactly when they denote the same number, which for valid rates means
/// they are the same rate.
pub proof fn lemma_fps_order_by_value(a: Fps, b: Fps)
    ensures
        (vstd::std_specs::cmp::PartialOrdSpec::partial_cmp_spec(&a, &b) == Some(Ordering::Less)) <==> a.numer() * b.denom() < b.numer()
            * a.denom(),
        (vstd::std_specs::cmp::PartialOrdSpec::partial_cmp_spec(&a, &b) == Some(Ordering::Greater)) <==> a.numer() * b.denom() > b.numer()
            * a.denom(),
        (vstd::std_specs::cmp::PartialOrdSpec::partial_cmp_spec(&a, &b) == Some(Ordering::Equal)) <==> a.numer() * b.denom() == b.numer()
            * a.denom(),
        a.valid() && b.valid() ==> ((vstd::std_specs::cmp::PartialOrdSpec::partial_cmp_spec(&a, &b) == Some(Ordering::Equal)) <==> a == b),
{
    if a.valid() && b.valid() && a.numer() * b.denom() == b.numer() * a.denom() {
        lemma_fps_value_eq(a, b);
    }
}

/// Two valid frame rates that denote the same number are the same value.
pub proof fn lemma_fps_value_eq(a: Fps, b: Fps)
    requires
        a.valid(),
        b.valid(),
        a.numer() * b.denom() == b.numer() * a.denom(),
    ensures
        a == b,
{
    crate::arith::lemma_equal_fractions_in_lowest_terms(a.numer(), a.denom(), b.numer(), b.denom());
}

/// Taking the inverse twice gives back the same frame rate.
pub proof fn lemma_inverse_involution(a: Fps, b: Fps, c: Fps)
    requires
        b.numer() == a.denom() && b.denom() == a.numer(),
        c.numer() == b.denom() && c.denom() == b.numer(),
    ensures
        c == a,
{
}

// ---------------------------------------------------------------------------
// Resampling
// ---------------------------------------------------------------------------

/// The index in a stream `S` of `src` frames per second that index `dest_idx`
/// of a stream of `dest` frames per second resamples to:
/// `floor(dest_idx * src / dest)`.
pub open spec fn resample_index(dest_idx: nat, src: Fps, dest: Fps) -> nat {
    (dest_idx * (src.numer() * dest.denom())) / (src.denom() * dest.numer())
}

/// The first index of the `dest` stream whose resampled index is at least
/// `src_idx`: `ceil(src_idx * dest / src)`.
pub open spec fn resample_back_index(src_idx: nat, src: Fps, dest: Fps) -> nat {
    div_ceil(src_idx * (src.denom() * dest.numer()), src.numer() * dest.denom())
}

/// The duration of the `dest` stream for a `src` stream of `src_duration`
/// frames: `floor(src_duration * dest / src)`.
pub open spec fn resample_duration_value(src_duration: nat, src: Fps, dest: Fps) -> nat {
    (src_duration * (dest.numer() * src.denom())) / (dest.denom() * src.numer())
}

/// The ratio `src / dest` in lowest terms, as stored by [Resampler::new].
pub open spec fn src_per_dest(src: Fps, dest: Fps) -> (nat, nat) {
    let n = src.numer() * dest.denom();
    let d = src.denom() * dest.numer();
    (reduced_num(n, d), reduced_den(n, d))
}

/// Given a stream of data `S` that produces data `src` times per second, this
/// can be used to get the index of the piece of data from `S` that should be
/// used for index `dest_idx` in a new stream of data `D`, where `D` produces
/// resampled data from `S` `dest` times per second.
#[derive(Debug, Clone, Copy, PartialEq, Eq, Structural)]
pub struct Resampler {
    src_per_dest_num: u64,
    src_per_dest_den: u64,
}

impl Resampler {
    #[verifier::type_invariant]
    spec fn inv(self) -> bool {
        self.src_per_dest_num > 0 && self.src_per_dest_den > 0
    }

    /// The stored `src / dest` ratio (numerator, denominator); both parts
    /// are positive.
    pub closed spec fn ratio(self) -> (nat, nat) {
        (
            if self.src_per_dest_num > 0 {
                self.src_per_dest_num as nat
            } else {
                1
            },
            if self.src_per_dest_den > 0 {
                self.src_per_dest_den as nat
            } else {
                1
            },
        )
    }

    /// Both parts of a resampler's ratio are positive.
    pub proof fn lemma_ratio_positive(self)
        ensures
            self.ratio().0 > 0,
            self.ratio().1 > 0,
    {
    }

    /// Both parts of the stored ratio fit in a `u64`.
    pub proof fn lemma_ratio_fits(self)
        ensures
            self.ratio().0 <= u64::MAX,
            self.ratio().1 <= u64::MAX,
    {
    }

    /// Create a [Resampler] for resampling a `src` stream to a `dest` stream.
    pub fn new(src: Fps, dest: Fps) -> (r: Self)
        ensures
            r.ratio() == src_per_dest(src, dest),
            r.ratio().0 > 0,
            r.ratio().1 > 0,
    {
        let (sn, sd) = src.as_frac();
        let (dn, dd) = dest.as_frac();
        proof {
            vstd::arithmetic::mul::lemma_mul_upper_bound(sn as int, u32::MAX as int, dd as int, u32::MAX as int);
            vstd::arithmetic::mul::lemma_mul_upper_bound(sd as int, u32::MAX as int, dn as int, u32::MAX as int);
            vstd::arithmetic::mul::lemma_mul_strictly_positive(sn as int, dd as int);
            vstd::arithmetic::mul::lemma_mul_strictly_positive(sd as int, dn as int);
        }
        let n = sn as u64 * dd as u64;
        let d = sd as u64 * dn as u64;
        let g = gcd_u64(n, d);
        proof {
            lemma_reduced_is_simplified(n as nat, d as nat);
        }
        Self { src_per_dest_num: n / g, src_per_dest_den: d / g }
    }

    /// A [Resampler] for when no resampling is needed.
    pub fn no_op() -> (r: Self)
        ensures
            r.ratio() == (1nat, 1nat),
    {
        Self { src_per_dest_num: 1, src_per_dest_den: 1 }
    }

    /// The source index for `dest_idx`, like [resample] with the `src` and
    /// `dest` given to [Self::new]. The product `dest_idx * num` must fit in
    /// a `u64`.
    pub fn resample(&self, dest_idx: usize) -> (r: usize)
        requires
            (dest_idx as nat) * self.ratio().0 <= u64::MAX,
        ensures
            r == (((dest_idx as nat) * self.ratio().0) / self.ratio().1) as usize,
    {
        proof {
            use_type_invariant(self);
        }
        let x = dest_idx as u64 * self.src_per_dest_num;
        (x / self.src_per_dest_den) as usize
    }

    /// The first destination index for `src_idx`, like [resample_back] with
    /// the `src` and `dest` given to [Self::new]. The product
    /// `src_idx * den` must fit in a `u64`.
    pub fn resample_back(&self, src_idx: usize) -> (r: usize)
        requires
            (src_idx as nat) * self.ratio().1 <= u64::MAX,
        ensures
            r == div_ceil((src_idx as nat) * self.ratio().1, self.ratio().0) as usize,
    {
        proof {
            use_type_invariant(self);
        }
        let x = src_idx as u64 * self.src_per_dest_den;
        let q = x / self.src_per_dest_num;
        proof {
            lemma_div_ceil_no_overflow(x as nat, self.src_per_dest_num as nat, u64::MAX as nat);
        }
        let q = if x % self.src_per_dest_num == 0 { q } else { q + 1 };
        q as usize
    }

    /// The destination duration for `src_duration` source frames, like
    /// [resample_duration] with the `src` and `dest` given to [Self::new].
    /// This can be 0. The product `src_duration * den` must fit in a `u64`.
    pub fn duration(&self, src_duration: usize) -> (r: usize)
        requires
            (src_duration as nat) * self.ratio().1 <= u64::MAX,
        ensures
            r == (((src_duration as nat) * self.ratio().1) / self.ratio().0) as usize,
    {
        proof {
            use_type_invariant(self);
        }
        let x = src_duration as u64 * self.src_per_dest_den;
        (x / self.src_per_dest_num) as usize
    }

    /// Translates a `dest` index from another resampler into a `dest` index for
    /// this resampler. The product of the index with the old numerator and
    /// the new denominator must fit in a `u128`.
    pub fn translate_old_dest_idx(&self, old_resampler: Resampler, old_dest_idx: usize) -> (r: usize)
        requires
            (old_dest_idx as nat) * old_resampler.ratio().0 * self.ratio().1 <= u128::MAX,
        ensures
            r == (((old_dest_idx as nat) * old_resampler.ratio().0 * self.ratio().1) / (
            old_resampler.ratio().1 * self.ratio().0)) as usize,
    {
        proof {
            use_type_invariant(self);
            use_type_invariant(&old_resampler);
        }
        let old_num = old_resampler.src_per_dest_num as u128;
        let old_den = old_resampler.src_per_dest_den as u128;
        let new_num = self.src_per_dest_num as u128;
        let new_den = self.src_per_dest_den as u128;
        proof {
            vstd::arithmetic::mul::lemma_mul_upper_bound(old_den as int, u64::MAX as int, new_num as int, u64::MAX as int);
            vstd::arithmetic::mul::lemma_mul_strictly_positive(old_den as int, new_num as int);
            let a = old_dest_idx as int * old_num as int;
            vstd::arithmetic::mul::lemma_mul_nonnegative(old_dest_idx as int, old_num as int);
            if a > 0 {
                vstd::arithmetic::mul::lemma_mul_increases(new_den as int, a);
                vstd::arithmetic::mul::lemma_mul_is_commutative(new_den as int, a);
            }
        }
        let x = old_dest_idx as u128 * old_num;
        let x = x * new_den;
        (x / (old_den * new_num)) as usize
    }
}

/// Given a stream of data `S` that produces data `src` times per second, this
/// function returns the index of the piece of data from `S` that should be used
/// for index `dest_idx` in a new stream of data `D`, where `D` produces
/// resampled data from `S` `dest` times per second.
pub fn resample(dest_idx: usize, src: Fps, dest: Fps) -> (r: usize)
    ensures
        r == resample_index(dest_idx as nat, src, dest) as usize,
{
    let (n, d) = ratio_u128(src, dest);
    proof {
        lemma_index_product_fits(dest_idx as nat, n as nat);
    }
    ((dest_idx as u128 * n) / d) as usize
}

/// The inverse of [resample]: the first index in `D` whose resampled index is
/// at least `src_idx` (see [lemma_resample_back_is_first]).
pub fn resample_back(src_idx: usize, src: Fps, dest: Fps) -> (r: usize)
    ensures
        r == resample_back_index(src_idx as nat, src, dest) as usize,
{
    let (n, d) = ratio_u128(src, dest);
    proof {
        lemma_index_product_fits(src_idx as nat, d as nat);
    }
    let x = src_idx as u128 * d;
    let q = x / n;
    proof {
        lemma_div_ceil_no_overflow(x as nat, n as nat, u128::MAX as nat);
    }
    let q = if x % n == 0 { q } else { q + 1 };
    q as usize
}

/// Given a resampled stream of data (see [resample]), the duration of the
/// `dest` stream given the duration of the `src` stream. This can be 0.
pub fn resample_duration(src_duration: usize, src: Fps, dest: Fps) -> (r: usize)
    ensures
        r == resample_duration_value(src_duration as nat, src, dest) as usize,
{
    let (n, d) = ratio_u128(src, dest);
    proof {
        lemma_index_product_fits(src_duration as nat, d as nat);
        vstd::arithmetic::mul::lemma_mul_is_commutative(dest.numer() as int, src.denom() as int);
        vstd::arithmetic::mul::lemma_mul_is_commutative(dest.denom() as int, src.numer() as int);
    }
    ((src_duration as u128 * d) / n) as usize
}

/// The unreduced ratio `src / dest` as `(src.num * dest.den, src.den * dest.num)`.
pub(crate) fn ratio_u128(src: Fps, dest: Fps) -> (r: (u128, u128))
    ensures
        r.0 == src.numer() * dest.denom(),
        r.1 == src.denom() * dest.numer(),
        r.0 > 0,
        r.1 > 0,
        r.0 <= u64::MAX,
        r.1 <= u64::MAX,
{
    let (sn, sd) = src.as_frac();
    let (dn, dd) = dest.as_frac();
    proof {
        vstd::arithmetic::mul::lemma_mul_upper_bound(sn as int, u32::MAX as int, dd as int, u32::MAX as int);
        vstd::arithmetic::mul::lemma_mul_upper_bound(sd as int, u32::MAX as int, dn as int, u32::MAX as int);
        vstd::arithmetic::mul::lemma_mul_strictly_positive(sn as int, dd as int);
        vstd::arithmetic::mul::lemma_mul_strictly_positive(sd as int, dn as int);
    }
    (sn as u128 * dd as u128, sd as u128 * dn as u128)
}

/// Rounding a quotient up never overflows the type of the dividend.
pub(crate) proof fn lemma_div_ceil_no_overflow(x: nat, n: nat, max: nat)
    requires
        n > 0,
        x <= max,
    ensures
        x % n != 0 ==> x / n + 1 <= max,
{
    if x % n != 0 {
        assert(n != 1);
        if x == 0 {
            vstd::arithmetic::div_mod::lemma_small_mod(0, n);
        }
        vstd::arithmetic::div_mod::lemma_div_is_ordered_by_denominator(x as int, 2, n as int);
        vstd::arithmetic::div_mod::lemma_fundamental_div_mod(x as int, 2);
        vstd::arithmetic::div_mod::lemma_mod_bound(x as int, 2);
    }
}

/// An index below `2^64` times a ratio part below `2^64` fits in a `u128`.
pub(crate) proof fn lemma_index_product_fits(i: nat, n: nat)
    requires
        i <= u64::MAX,
        n <= u64::MAX,
    ensures
        i * n <= u128::MAX,
{
    vstd::arithmetic::mul::lemma_mul_upper_bound(i as int, u64::MAX as int, n as int, u64::MAX as int);
}

/// Resampling with the reduced ratio [src_per_dest] gives the same index as
/// [resample_index], which uses the unreduced ratio.
pub proof fn lemma_reduced_ratio_resamples_alike(src: Fps, dest: Fps, dest_idx: nat)
    requires
        src.valid(),
        dest.valid(),
    ensures
        (dest_idx * src_per_dest(src, dest).0) / src_per_dest(src, dest).1 == resample_index(
            dest_idx,
            src,
            dest,
        ),
{
    let n = src.numer() * dest.denom();
    let d = src.denom() * dest.numer();
    vstd::arithmetic::mul::lemma_mul_strictly_positive(src.numer() as int, dest.denom() as int);
    vstd::arithmetic::mul::lemma_mul_strictly_positive(src.denom() as int, dest.numer() as int);
    let g = gcd(n, d);
    lemma_gcd_pos(n, d);
    lemma_gcd_divides(n, d);
    lemma_exact_div(n, g);
    lemma_exact_div(d, g);
    let rn = n / g;
    let rd = d / g;
    assert(rd > 0);
    lemma_div_scaled(dest_idx * rn, rd, g);
    assert((dest_idx * rn) * g == dest_idx * n) by {
        vstd::arithmetic::mul::lemma_mul_is_associative(dest_idx as int, rn as int, g as int);
        vstd::arithmetic::mul::lemma_mul_is_commutative(rn as int, g as int);
    }
    assert(rd * g == d) by {
        vstd::arithmetic::mul::lemma_mul_is_commutative(rd as int, g as int);
    }
}

/// A [Resampler] made by [Resampler::new] resamples exactly like [resample]
/// with the same `src` and `dest`: reducing the ratio never changes the
/// result.
pub proof fn lemma_resampler_matches_resample(src: Fps, dest: Fps, r: Resampler, dest_idx: nat)
    requires
        src.valid(),
        dest.valid(),
        r.ratio() == src_per_dest(src, dest),
    ensures
        (dest_idx * r.ratio().0) / r.ratio().1 == resample_index(dest_idx, src, dest),
{
    lemma_reduced_ratio_resamples_alike(src, dest, dest_idx);
}

/// Resampling always starts at 0: the first destination index shows the
/// first source index, whatever the two frame rates.
pub proof fn lemma_resample_starts_at_zero(src: Fps, dest: Fps)
    requires
        src.valid(),
        dest.valid(),
    ensures
        resample_index(0, src, dest) == 0,
{
    vstd::arithmetic::mul::lemma_mul_strictly_positive(src.denom() as int, dest.numer() as int);
}

/// [resample_back] gives the first destination index whose resampled source
/// index reaches `src_idx`: an index resamples to at least `src_idx` exactly
/// when it is at least `resample_back(src_idx)`.
pub proof fn lemma_resample_back_is_first(src: Fps, dest: Fps, src_idx: nat, dest_idx: nat)
    requires
        src.valid(),
        dest.valid(),
    ensures
        resample_index(dest_idx, src, dest) >= src_idx <==> dest_idx >= resample_back_index(src_idx, src, dest),
{
    let n = src.numer() * dest.denom();
    let d = src.denom() * dest.numer();
    vstd::arithmetic::mul::lemma_mul_strictly_positive(src.numer() as int, dest.denom() as int);
    vstd::arithmetic::mul::lemma_mul_strictly_positive(src.denom() as int, dest.numer() as int);
    lemma_div_ge_iff(dest_idx * n, d, src_idx);
    lemma_div_ceil_le_iff(src_idx * d, n, dest_idx);
    vstd::arithmetic::mul::lemma_mul_is_commutative(src_idx as int, d as int);
    vstd::arithmetic::mul::lemma_mul_is_commutative(dest_idx as int, n as int);
}

/// Every destination index below [resample_duration] resamples to a source
/// index below the source duration.
pub proof fn lemma_resample_within_duration(src: Fps, dest: Fps, src_duration: nat, dest_idx: nat)
    requires
        src.valid(),
        dest.valid(),
        dest_idx < resample_duration_value(src_duration, src, dest),
    ensures
        resample_index(dest_idx, src, dest) < src_duration,
{
    let n = src.numer() * dest.denom();
    let d = src.denom() * dest.numer();
    vstd::arithmetic::mul::lemma_mul_strictly_positive(src.numer() as int, dest.denom() as int);
    vstd::arithmetic::mul::lemma_mul_strictly_positive(src.denom() as int, dest.numer() as int);
    vstd::arithmetic::mul::lemma_mul_is_commutative(dest.numer() as int, src.denom() as int);
    vstd::arithmetic::mul::lemma_mul_is_commutative(dest.denom() as int, src.numer() as int);
    // dest_idx + 1 <= floor(src_duration * d / n), so (dest_idx + 1) * n <= src_duration * d.
    lemma_div_ge_iff(src_duration * d, n, dest_idx + 1);
    vstd::arithmetic::mul::lemma_mul_is_distributive_add_other_way(n as int, dest_idx as int, 1);
    vstd::arithmetic::mul::lemma_mul_is_commutative(dest_idx as int, n as int);
    vstd::arithmetic::mul::lemma_mul_is_commutative(src_duration as int, d as int);
    lemma_div_ge_iff(dest_idx * n, d, src_duration);
}

/// The unreduced ratio `src / dest` is `gcd` times the reduced one.
proof fn lemma_src_per_dest_parts(src: Fps, dest: Fps)
    requires
        src.valid(),
        dest.valid(),
    ensures
        ({
            let n = src.numer() * dest.denom();
            let d = src.denom() * dest.numer();
            let g = gcd(n, d);
            &&& g > 0
            &&& n == g * src_per_dest(src, dest).0
            &&& d == g * src_per_dest(src, dest).1
            &&& src_per_dest(src, dest).0 > 0
            &&& src_per_dest(src, dest).1 > 0
        }),
{
    let n = src.numer() * dest.denom();
    let d = src.denom() * dest.numer();
    vstd::arithmetic::mul::lemma_mul_strictly_positive(src.numer() as int, dest.denom() as int);
    vstd::arithmetic::mul::lemma_mul_strictly_positive(src.denom() as int, dest.numer() as int);
    lemma_gcd_pos(n, d);
    lemma_gcd_divides(n, d);
    lemma_exact_div(n, gcd(n, d));
    lemma_exact_div(d, gcd(n, d));
}

/// Rounding a quotient up is unchanged when both parts are scaled by the
/// same positive factor.
pub proof fn lemma_div_ceil_scaled(x: nat, y: nat, g: nat)
    requires
        y > 0,
        g > 0,
    ensures
        div_ceil(x * g, y * g) == div_ceil(x, y),
{
    vstd::arithmetic::mul::lemma_mul_strictly_positive(y as int, g as int);
    let c = div_ceil(x, y);
    let c2 = div_ceil(x * g, y * g);
    lemma_div_ceil_le_iff(x, y, c);
    lemma_div_ceil_le_iff(x, y, c2);
    lemma_div_ceil_le_iff(x * g, y * g, c);
    lemma_div_ceil_le_iff(x * g, y * g, c2);
    assert(x <= c * y <==> x * g <= c * (y * g)) by (nonlinear_arith)
        requires
            g > 0,
    ;
    assert(x <= c2 * y <==> x * g <= c2 * (y * g)) by (nonlinear_arith)
        requires
            g > 0,
    ;
}

/// Rounding `src_idx * d / n` up with the reduced ratio `n / d` of
/// `src / dest` gives [resample_back_index], and the index found resamples to
/// at least `src_idx`.
pub proof fn lemma_reduced_ratio_resamples_back_alike(src: Fps, dest: Fps, src_idx: nat)
    requires
        src.valid(),
        dest.valid(),
    ensures
        div_ceil(src_idx * src_per_dest(src, dest).1, src_per_dest(src, dest).0)
            == resample_back_index(src_idx, src, dest),
        resample_index(resample_back_index(src_idx, src, dest), src, dest) >= src_idx,
{
    lemma_src_per_dest_parts(src, dest);
    let n = src.numer() * dest.denom();
    let d = src.denom() * dest.numer();
    let g = gcd(n, d);
    let (rn, rd) = src_per_dest(src, dest);
    lemma_div_ceil_scaled(src_idx * rd, rn, g);
    assert((src_idx * rd) * g == src_idx * d) by (nonlinear_arith)
        requires
            d == g * rd,
    ;
    assert(rn * g == n) by (nonlinear_arith)
        requires
            n == g * rn,
    ;
    lemma_resample_back_is_first(src, dest, src_idx, resample_back_index(src_idx, src, dest));
}

/// Flooring `src_duration * d / n` with the reduced ratio `n / d` of
/// `src / dest` gives [resample_duration_value].
pub proof fn lemma_reduced_ratio_duration_alike(src: Fps, dest: Fps, src_duration: nat)
    requires
        src.valid(),
        dest.valid(),
    ensures
        (src_duration * src_per_dest(src, dest).1) / src_per_dest(src, dest).0
            == resample_duration_value(src_duration, src, dest),
{
    lemma_src_per_dest_parts(src, dest);
    let n = src.numer() * dest.denom();
    let d = src.denom() * dest.numer();
    let g = gcd(n, d);
    let (rn, rd) = src_per_dest(src, dest);
    lemma_div_scaled(src_duration * rd, rn, g);
    assert((src_duration * rd) * g == src_duration * (dest.numer() * src.denom())) by (
    nonlinear_arith)
        requires
            d == g * rd,
            d == src.denom() * dest.numer(),
    ;
    assert(rn * g == dest.denom() * src.numer()) by (nonlinear_arith)
        requires
            n == g * rn,
            n == src.numer() * dest.denom(),
    ;
}

/// Translating index `i` from the reduced ratio of `src / d1` to that of
/// `src / d2` rescales it by the ratio of the two destination rates:
/// `floor(i * d2 / d1)`.
pub proof fn lemma_reduced_ratio_translates(src: Fps, d1: Fps, d2: Fps, i: nat)
    requires
        src.valid(),
        d1.valid(),
        d2.valid(),
    ensures
        (i * src_per_dest(src, d1).0 * src_per_dest(src, d2).1) / (src_per_dest(src, d1).1
            * src_per_dest(src, d2).0) == (i * d1.denom() * d2.numer()) / (d1.numer()
            * d2.denom()),
{
    lemma_src_per_dest_parts(src, d1);
    lemma_src_per_dest_parts(src, d2);
    let a1 = src.numer() * d1.denom();
    let b1 = src.denom() * d1.numer();
    let g1 = gcd(a1, b1);
    let a2 = src.numer() * d2.denom();
    let b2 = src.denom() * d2.numer();
    let g2 = gcd(a2, b2);
    let (o0, o1) = src_per_dest(src, d1);
    let (n0, n1) = src_per_dest(src, d2);
    let x = i * o0 * n1;
    let y = o1 * n0;
    let p = i * d1.denom() * d2.numer();
    let q = d1.numer() * d2.denom();
    let k = src.numer() * src.denom();
    vstd::arithmetic::mul::lemma_mul_strictly_positive(g1 as int, g2 as int);
    vstd::arithmetic::mul::lemma_mul_strictly_positive(o1 as int, n0 as int);
    vstd::arithmetic::mul::lemma_mul_strictly_positive(d1.numer() as int, d2.denom() as int);
    vstd::arithmetic::mul::lemma_mul_strictly_positive(src.numer() as int, src.denom() as int);
    lemma_div_scaled(x, y, g1 * g2);
    lemma_div_scaled(p, q, k);
    assert(x * (g1 * g2) == p * k) by {
        lemma_regroup3(i, o0, n1, g1, g2);
        lemma_regroup3(i, d1.denom(), d2.numer(), src.numer(), src.denom());
        assert(i * (g1 * o0) * (g2 * n1) == i * a1 * b2);
        assert(i * (d1.denom() * src.numer()) * (d2.numer() * src.denom()) == i * a1 * b2) by {
            vstd::arithmetic::mul::lemma_mul_is_commutative(d1.denom() as int, src.numer() as int);
            vstd::arithmetic::mul::lemma_mul_is_commutative(d2.numer() as int, src.denom() as int);
        }
    }
    assert(y * (g1 * g2) == q * k) by {
        lemma_regroup2(o1, n0, g1, g2);
        lemma_regroup2(d1.numer(), d2.denom(), src.denom(), src.numer());
        assert((g1 * o1) * (g2 * n0) == b1 * a2);
        assert((d1.numer() * src.denom()) * (d2.denom() * src.numer()) == b1 * a2) by {
            vstd::arithmetic::mul::lemma_mul_is_commutative(d1.numer() as int, src.denom() as int);
            vstd::arithmetic::mul::lemma_mul_is_commutative(d2.denom() as int, src.numer() as int);
        }
        vstd::arithmetic::mul::lemma_mul_is_commutative(src.denom() as int, src.numer() as int);
    }
}

/// `i * a * b * (c * d) == i * (c * a) * (d * b)`.
proof fn lemma_regroup3(i: nat, a: nat, b: nat, c: nat, d: nat)
    ensures
        i * a * b * (c * d) == i * (c * a) * (d * b),
{
    assert(i * a * b * (c * d) == i * (c * a) * (d * b)) by (nonlinear_arith);
}

/// `a * b * (c * d) == (c * a) * (d * b)`.
proof fn lemma_regroup2(a: nat, b: nat, c: nat, d: nat)
    ensures
        a * b * (c * d) == (c * a) * (d * b),
{
    assert(a * b * (c * d) == (c * a) * (d * b)) by (nonlinear_arith);
}

/// Translating an index between two equal positive ratios leaves it alone.
pub proof fn lemma_translate_same_ratio(i: nat, a: nat, b: nat)
    requires
        a > 0,
        b > 0,
    ensures
        (i * a * b) / (b * a) == i,
{
    vstd::arithmetic::mul::lemma_mul_strictly_positive(b as int, a as int);
    assert(i * a * b == i * (b * a)) by (nonlinear_arith);
    vstd::arithmetic::div_mod::lemma_div_by_multiple(i as int, (b * a) as int);
}

/// A [Resampler] made by [Resampler::new] finds the first destination index
/// exactly like [resample_back] with the same `src` and `dest`, and that
/// index resamples to at least `src_idx`.
pub proof fn lemma_resampler_matches_resample_back(src: Fps, dest: Fps, r: Resampler, src_idx: nat)
    requires
        src.valid(),
        dest.valid(),
        r.ratio() == src_per_dest(src, dest),
    ensures
        div_ceil(src_idx * r.ratio().1, r.ratio().0) == resample_back_index(src_idx, src, dest),
        resample_index(resample_back_index(src_idx, src, dest), src, dest) >= src_idx,
{
    lemma_reduced_ratio_resamples_back_alike(src, dest, src_idx);
}

/// A [Resampler] made by [Resampler::new] computes the destination duration
/// exactly like [resample_duration] with the same `src` and `dest`.
pub proof fn lemma_resampler_matches_duration(src: Fps, dest: Fps, r: Resampler, src_duration: nat)
    requires
        src.valid(),
        dest.valid(),
        r.ratio() == src_per_dest(src, dest),
    ensures
        (src_duration * r.ratio().1) / r.ratio().0 == resample_duration_value(
            src_duration,
            src,
            dest,
        ),
{
    lemma_reduced_ratio_duration_alike(src, dest, src_duration);
}

/// Translating an index from a resampler of `src` to `d1` into one of `src`
/// to `d2` rescales it by the ratio of the destination rates:
/// `floor(i * d2 / d1)`.
pub proof fn lemma_translate_between_rates(
    src: Fps,
    d1: Fps,
    d2: Fps,
    old_resampler: Resampler,
    new_resampler: Resampler,
    i: nat,
)
    requires
        src.valid(),
        d1.valid(),
        d2.valid(),
        old_resampler.ratio() == src_per_dest(src, d1),
        new_resampler.ratio() == src_per_dest(src, d2),
    ensures
        (i * old_resampler.ratio().0 * new_resampler.ratio().1) / (old_resampler.ratio().1
            * new_resampler.ratio().0) == (i * d1.denom() * d2.numer()) / (d1.numer()
            * d2.denom()),
{
    lemma_reduced_ratio_translates(src, d1, d2, i);
}

/// Translating an index from a resampler to the same resampler leaves it
/// alone.
pub proof fn lemma_translate_same_resampler(r: Resampler, i: nat)
    ensures
        (i * r.ratio().0 * r.ratio().1) / (r.ratio().1 * r.ratio().0) == i,
{
    r.lemma_ratio_positive();
    lemma_translate_same_ratio(i, r.ratio().0, r.ratio().1);
}

} // verus!
