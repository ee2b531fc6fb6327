//! Declares a [Dimensions] type with `u32` sides, for code that shares sizes
//! with libraries that measure in `u32`.

use core::cmp::Ordering;

use vstd::arithmetic::div_mod::*;
use vstd::arithmetic::mul::*;
use vstd::prelude::*;
use vstd::std_specs::cmp::PartialOrdSpecImpl;

use crate::arith::{gcd, gcd_u32, is_simplified, lemma_exact_div, lemma_gcd_divides, lemma_reduced_is_simplified};
use crate::fps::{reduced_den, reduced_num};

verus! {

/// A width and a height, both guaranteed to be non-zero.
#[derive(Debug, Clone, Copy, PartialEq, Eq, Hash, Structural)]
pub struct Dimensions {
    width: u32,
    height: u32,
}

/// `x / d` rounded to the nearest integer, halves rounded up.
pub open spec fn div_round(x: nat, d: nat) -> nat {
    (2 * x + d) / (2 * d)
}

/// The side that [Dimensions::rescale_height_rounded] and
/// [Dimensions::rescale_width_rounded] compute: `other * new_side / side`
/// rounded to the nearest integer, and at least 1.
pub open spec fn rounded_side(other: nat, new_side: nat, side: nat) -> nat {
    let s = div_round(other * new_side, side);
    if s < 1 {
        1
    } else {
        s
    }
}

impl View for Dimensions {
    type V = (nat, nat);

    /// The width and the height.
    closed spec fn view(&self) -> (nat, nat) {
        (self.width as nat, self.height as nat)
    }
}

impl Dimensions {
    #[verifier::type_invariant]
    spec fn inv(self) -> bool {
        self.width > 0 && self.height > 0
    }

    /// Both sides are positive and fit in a `u32`.
    pub open spec fn valid(self) -> bool {
        self@.0 > 0 && self@.1 > 0 && self@.0 <= u32::MAX && self@.1 <= u32::MAX
    }

    /// Construct from a width and a height; [None] if either is 0. Also see
    /// [Self::from_non_zero].
    pub fn new(width: u32, height: u32) -> (r: Option<Self>)
        ensures
            r is Some <==> width > 0 && height > 0,
            r matches Some(d) ==> d@ == (width as nat, height as nat) && d.valid(),
    {
        if width == 0 || height == 0 {
            return None;
        }
        Some(Self::from_non_zero(width, height))
    }

    /// Construct from a width and a height that are both non-zero.
    pub fn from_non_zero(width: u32, height: u32) -> (r: Self)
        requires
            width > 0,
            height > 0,
        ensures
            r@ == (width as nat, height as nat),
            r.valid(),
    {
        Self { width, height }
    }

    /// The same as [Self::new] for sides the caller knows to be non-zero.
    pub fn new_unchecked(width: u32, height: u32) -> (r: Self)
        requires
            width > 0,
            height > 0,
        ensures
            r@ == (width as nat, height as nat),
            r.valid(),
    {
        Self::from_non_zero(width, height)
    }

    /// The dimensions' width (never 0).
    pub fn width(&self) -> (r: u32)
        ensures
            r == self@.0,
            r > 0,
            self.valid(),
    {
        proof {
            use_type_invariant(self);
        }
        self.width
    }

    /// The dimensions' width; it is non-zero.
    pub fn width_non_zero(&self) -> (r: u32)
        ensures
            r == self@.0,
            r > 0,
    {
        self.width()
    }

    /// The dimensions' height (never 0).
    pub fn height(&self) -> (r: u32)
        ensures
            r == self@.1,
            r > 0,
            self.valid(),
    {
        proof {
            use_type_invariant(self);
        }
        self.height
    }

    /// The dimensions' height; it is non-zero.
    pub fn height_non_zero(&self) -> (r: u32)
        ensures
            r == self@.1,
            r > 0,
    {
        self.height()
    }

    /// The area of a rectangle with these sides (never 0). The product must
    /// fit in a `u32`.
    pub fn area(&self) -> (r: u32)
        requires
            self@.0 * self@.1 <= u32::MAX,
        ensures
            r == self@.0 * self@.1,
            r > 0,
    {
        proof {
            use_type_invariant(self);
            lemma_mul_strictly_positive(self.width as int, self.height as int);
        }
        self.width * self.height
    }

    /// Like [Self::area]; the value is non-zero.
    pub fn area_non_zero(&self) -> (r: u32)
        requires
            self@.0 * self@.1 <= u32::MAX,
        ensures
            r == self@.0 * self@.1,
            r > 0,
    {
        self.area()
    }

    /// The aspect ratio of these dimensions: both sides divided by their
    /// greatest common divisor (e.g. `1920x1080` gives `16x9`).
    pub fn aspect_ratio(&self) -> (r: Self)
        ensures
            r@ == (reduced_num(self@.0, self@.1), reduced_den(self@.0, self@.1)),
            is_simplified(r@.0, r@.1),
    {
        proof {
            use_type_invariant(self);
            lemma_reduced_is_simplified(self.width as nat, self.height as nat);
            lemma_gcd_divides(self.width as nat, self.height as nat);
            lemma_exact_div(self.width as nat, gcd(self.width as nat, self.height as nat));
            lemma_exact_div(self.height as nat, gcd(self.width as nat, self.height as nat));
        }
        let g = gcd_u32(self.width, self.height);
        Self::from_non_zero(self.width / g, self.height / g)
    }

    /// Try to rescale to match a new height, keeping the aspect ratio. Fails
    /// ([None]) if the new width would not be a whole number or if
    /// `new_height` is 0. The product `width * new_height` must fit in a
    /// `u32`.
    pub fn rescale_height(&self, new_height: u32) -> (r: Option<Self>)
        requires
            self@.0 * new_height <= u32::MAX,
        ensures
            r is Some <==> new_height > 0 && (self@.0 * (new_height as nat)) % self@.1 == 0,
            r matches Some(d) ==> d@ == ((self@.0 * (new_height as nat)) / self@.1, new_height as nat),
            r matches Some(d) ==> d@.0 * self@.1 == self@.0 * d@.1,
    {
        proof {
            use_type_invariant(self);
        }
        let scaled_width = self.width * new_height;
        if scaled_width % self.height != 0 {
            return None;
        }
        proof {
            lemma_fundamental_div_mod(scaled_width as int, self.height as int);
            if new_height > 0 {
                lemma_mul_strictly_positive(self.width as int, new_height as int);
            }
            lemma_exact_div(scaled_width as nat, self.height as nat);
            lemma_mul_is_commutative(self.height as int, (scaled_width / self.height) as int);
        }
        Self::new(scaled_width / self.height, new_height)
    }

    /// Like [Self::rescale_height], but rounds the new width to the closest
    /// whole number (and to at least 1) instead of failing, so the aspect
    /// ratio may not be preserved. [None] if `new_height` is 0.
    pub fn rescale_height_rounded(&self, new_height: u32) -> (r: Option<Self>)
        requires
            self@.0 * new_height <= u32::MAX,
        ensures
            r is Some <==> new_height > 0,
            r matches Some(d) ==> d@ == (rounded_side(self@.0, new_height as nat, self@.1), new_height as nat),
    {
        proof {
            use_type_invariant(self);
        }
        let new_width = rounded_div(self.width * new_height, self.height);
        let new_width = if new_width < 1 { 1 } else { new_width };
        Self::new(new_width, new_height)
    }

    /// Try to rescale to match a new width, keeping the aspect ratio. Fails
    /// ([None]) if the new height would not be a whole number or if
    /// `new_width` is 0. The product `height * new_width` must fit in a
    /// `u32`.
    pub fn rescale_width(&self, new_width: u32) -> (r: Option<Self>)
        requires
            self@.1 * new_width <= u32::MAX,
        ensures
            r is Some <==> new_width > 0 && (self@.1 * (new_width as nat)) % self@.0 == 0,
            r matches Some(d) ==> d@ == (new_width as nat, (self@.1 * (new_width as nat)) / self@.0),
            r matches Some(d) ==> d@.0 * self@.1 == self@.0 * d@.1,
    {
        proof {
            use_type_invariant(self);
        }
        let scaled_height = self.height * new_width;
        if scaled_height % self.width != 0 {
            return None;
        }
        proof {
            lemma_fundamental_div_mod(scaled_height as int, self.width as int);
            if new_width > 0 {
                lemma_mul_strictly_positive(self.height as int, new_width as int);
            }
            lemma_exact_div(scaled_height as nat, self.width as nat);
            lemma_mul_is_commutative(self.width as int, (scaled_height / self.width) as int);
            lemma_mul_is_commutative(self.height as int, new_width as int);
        }
        Self::new(new_width, scaled_height / self.width)
    }

    /// Like [Self::rescale_width], but rounds the new height to the closest
    /// whole number (and to at least 1) instead of failing, so the aspect
    /// ratio may not be preserved. [None] if `new_width` is 0.
    pub fn rescale_width_rounded(&self, new_width: u32) -> (r: Option<Self>)
        requires
            self@.1 * new_width <= u32::MAX,
        ensures
            r is Some <==> new_width > 0,
            r matches Some(d) ==> d@ == (new_width as nat, rounded_side(self@.1, new_width as nat, self@.0)),
    {
        proof {
            use_type_invariant(self);
        }
        let new_height = rounded_div(self.height * new_width, self.width);
        let new_height = if new_height < 1 { 1 } else { new_height };
        Self::new(new_width, new_height)
    }

    /// The area as a wide integer, which cannot overflow.
    fn wide_area(&self) -> (r: u64)
        ensures
            r == self@.0 * self@.1,
    {
        proof {
            lemma_mul_upper_bound(self.width as int, u32::MAX as int, self.height as int, u32::MAX as int);
        }
        self.width as u64 * self.height as u64
    }
}

/// `x / d` rounded to the nearest integer, halves rounded up.
fn rounded_div(x: u32, d: u32) -> (r: u32)
    requires
        d > 0,
    ensures
        r == div_round(x as nat, d as nat),
{
    let wide = (2 * (x as u64) + d as u64) / (2 * (d as u64));
    proof {
        lemma_div_round_le(x as nat, d as nat);
    }
    wide as u32
}

/// Rounding `x / d` to the nearest integer gives at most `x`.
proof fn lemma_div_round_le(x: nat, d: nat)
    requires
        d > 0,
    ensures
        div_round(x, d) <= x,
{
    if x == 0 {
        lemma_basic_div(d as int, (2 * d) as int);
    } else {
        assert(2 * x + d < (2 * d) * (x + 1)) by (nonlinear_arith)
            requires
                x >= 1,
                d >= 1,
        ;
        lemma_multiply_divide_lt((2 * x + d) as int, (2 * d) as int, (x + 1) as int);
    }
}

/// `a` is smaller than `b` by area.
pub open spec fn area_lt(a: Dimensions, b: Dimensions) -> bool {
    a@.0 * a@.1 < b@.0 * b@.1
}

/// Ordering depends on [area](Dimensions::area).
impl PartialOrd for Dimensions {
    fn partial_cmp(&self, other: &Self) -> (r: Option<Ordering>) {
        let lhs = self.wide_area();
        let rhs = other.wide_area();
        if lhs < rhs {
            Some(Ordering::Less)
        } else if lhs == rhs {
            Some(Ordering::Equal)
        } else {
            Some(Ordering::Greater)
        }
    }
}

impl PartialOrdSpecImpl for Dimensions {
    open spec fn obeys_partial_cmp_spec() -> bool {
        true
    }

    open spec fn partial_cmp_spec(&self, other: &Self) -> Option<Ordering> {
        if area_lt(*self, *other) {
            Some(Ordering::Less)
        } else if area_lt(*other, *self) {
            Some(Ordering::Greater)
        } else {
            Some(Ordering::Equal)
        }
    }
}

/// Rescaling to a new height keeps the aspect ratio, so rescaling the result
/// back to the old height gives the old dimensions back.
pub proof fn lemma_rescale_height_round_trip(d: Dimensions, e: Dimensions)
    requires
        d.valid(),
        e.valid(),
        e@.0 * d@.1 == d@.0 * e@.1,
    ensures
        (e@.0 * d@.1) % e@.1 == 0,
        (e@.0 * d@.1) / e@.1 == d@.0,
{
    lemma_mul_is_commutative(d@.0 as int, e@.1 as int);
    lemma_mod_multiples_basic(d@.0 as int, e@.1 as int);
    lemma_div_by_multiple(d@.0 as int, e@.1 as int);
}

} // verus!
