//! Declares the types frames are made of: [Dimensions] (with `usize`
//! sides), [Pixel] and [Uid].

use core::cmp::Ordering;

use vstd::arithmetic::div_mod::*;
use vstd::arithmetic::mul::*;
use vstd::prelude::*;
use vstd::std_specs::cmp::PartialOrdSpecImpl;
use vstd::string::StringSliceAdditionalSpecFns;

use crate::arith::{gcd, gcd_usize, is_simplified, lemma_exact_div, lemma_gcd_divides, lemma_reduced_is_simplified};
use crate::fps::{reduced_den, reduced_num};

verus! {

/// A width and a height, both guaranteed to be non-zero.
#[derive(Debug, Clone, Copy, PartialEq, Eq, Hash, Structural)]
pub struct Dimensions {
    width: usize,
    height: usize,
}

/// `x / d` rounded to the nearest integer, halves rounded up.
pub open spec fn div_round(x: nat, d: nat) -> nat {
    (2 * x + d) / (2 * d)
}

/// The side that [Dimensions::rescale_height_rounded] and
/// [Dimensions::rescale_width_rounded] compute: `other * new_side / side`
/// rounded to the nearest integer, and at least 1.
pub open spec fn rounded_side(other: nat, new_side: nat, side: nat) -> nat {
    let s = div_round(other * new_side, side);
    if s < 1 {
        1
    } else {
        s
    }
}

impl View for Dimensions {
    type V = (nat, nat);

    /// The width and the height.
    closed spec fn view(&self) -> (nat, nat) {
        (self.width as nat, self.height as nat)
    }
}

impl Dimensions {
    #[verifier::type_invariant]
    spec fn inv(self) -> bool {
        self.width > 0 && self.height > 0
    }

    /// Both sides are positive and fit in a `usize`.
    pub open spec fn valid(self) -> bool {
        self@.0 > 0 && self@.1 > 0 && self@.0 <= usize::MAX && self@.1 <= usize::MAX
    }

    /// Construct from a width and a height; [None] if either is 0. Also see
    /// [Self::from_non_zero].
    pub fn new(width: usize, height: usize) -> (r: Option<Self>)
        ensures
            r is Some <==> width > 0 && height > 0,
            r matches Some(d) ==> d@ == (width as nat, height as nat) && d.valid(),
    {
        if width == 0 || height == 0 {
            return None;
        }
        Some(Self::from_non_zero(width, height))
    }

    /// Construct from a width and a height that are both non-zero.
    pub fn from_non_zero(width: usize, height: usize) -> (r: Self)
        requires
            width > 0,
            height > 0,
        ensures
            r@ == (width as nat, height as nat),
            r.valid(),
    {
        Self { width, height }
    }

    /// The same as [Self::new] for sides the caller knows to be non-zero.
    pub fn new_unchecked(width: usize, height: usize) -> (r: Self)
        requires
            width > 0,
            height > 0,
        ensures
            r@ == (width as nat, height as nat),
            r.valid(),
    {
        Self::from_non_zero(width, height)
    }

    /// The dimensions' width (never 0).
    pub fn width(&self) -> (r: usize)
        ensures
            r == self@.0,
            r > 0,
            self.valid(),
    {
        proof {
            use_type_invariant(self);
        }
        self.width
    }

    /// The dimensions' width; it is non-zero.
    pub fn width_non_zero(&self) -> (r: usize)
        ensures
            r == self@.0,
            r > 0,
    {
        self.width()
    }

    /// The dimensions' height (never 0).
    pub fn height(&self) -> (r: usize)
        ensures
            r == self@.1,
            r > 0,
            self.valid(),
    {
        proof {
            use_type_invariant(self);
        }
        self.height
    }

    /// The dimensions' height; it is non-zero.
    pub fn height_non_zero(&self) -> (r: usize)
        ensures
            r == self@.1,
            r > 0,
    {
        self.height()
    }

    /// The area of a rectangle with these sides (never 0). The product must
    /// fit in a `usize`.
    pub fn area(&self) -> (r: usize)
        requires
            self@.0 * self@.1 <= usize::MAX,
        ensures
            r == self@.0 * self@.1,
            r > 0,
    {
        proof {
            use_type_invariant(self);
            lemma_mul_strictly_positive(self.width as int, self.height as int);
        }
        self.width * self.height
    }

    /// Like [Self::area]; the value is non-zero.
    pub fn area_non_zero(&self) -> (r: usize)
        requires
            self@.0 * self@.1 <= usize::MAX,
        ensures
            r == self@.0 * self@.1,
            r > 0,
    {
        self.area()
    }

    /// The aspect ratio of these dimensions: both sides divided by their
    /// greatest common divisor (e.g. `1920x1080` gives `16x9`).
    pub fn aspect_ratio(&self) -> (r: Self)
        ensures
            r@ == (reduced_num(self@.0, self@.1), reduced_den(self@.0, self@.1)),
            is_simplified(r@.0, r@.1),
    {
        proof {
            use_type_invariant(self);
            lemma_reduced_is_simplified(self.width as nat, self.height as nat);
            lemma_gcd_divides(self.width as nat, self.height as nat);
            lemma_exact_div(self.width as nat, gcd(self.width as nat, self.height as nat));
            lemma_exact_div(self.height as nat, gcd(self.width as nat, self.height as nat));
        }
        let g = gcd_usize(self.width, self.height);
        Self::from_non_zero(self.width / g, self.height / g)
    }

    /// Try to rescale to match a new height, keeping the aspect ratio. Fails
    /// ([None]) if the new width would not be a whole number or if
    /// `new_height` is 0. The product `width * new_height` must fit in a
    /// `usize`.
    pub fn rescale_height(&self, new_height: usize) -> (r: Option<Self>)
        requires
            self@.0 * new_height <= usize::MAX,
        ensures
            r is Some <==> new_height > 0 && (self@.0 * (new_height as nat)) % self@.1 == 0,
            r matches Some(d) ==> d@ == ((self@.0 * (new_height as nat)) / self@.1, new_height as nat),
            r matches Some(d) ==> d@.0 * self@.1 == self@.0 * d@.1,
    {
        proof {
            use_type_invariant(self);
        }
        let scaled_width = self.width * new_height;
        if scaled_width % self.height != 0 {
            return None;
        }
        proof {
            lemma_fundamental_div_mod(scaled_width as int, self.height as int);
            if new_height > 0 {
                lemma_mul_strictly_positive(self.width as int, new_height as int);
            }
            lemma_exact_div(scaled_width as nat, self.height as nat);
            lemma_mul_is_commutative(self.height as int, (scaled_width / self.height) as int);
        }
        Self::new(scaled_width / self.height, new_height)
    }

    /// Like [Self::rescale_height], but rounds the new width to the closest
    /// whole number (and to at least 1) instead of failing, so the aspect
    /// ratio may not be preserved. [None] if `new_height` is 0.
    pub fn rescale_height_rounded(&self, new_height: usize) -> (r: Option<Self>)
        requires
            self@.0 * new_height <= usize::MAX,
        ensures
            r is Some <==> new_height > 0,
            r matches Some(d) ==> d@ == (rounded_side(self@.0, new_height as nat, self@.1), new_height as nat),
    {
        proof {
            use_type_invariant(self);
        }
        let new_width = rounded_div(self.width * new_height, self.height);
        let new_width = if new_width < 1 { 1 } else { new_width };
        Self::new(new_width, new_height)
    }

    /// Try to rescale to match a new width, keeping the aspect ratio. Fails
    /// ([None]) if the new height would not be a whole number or if
    /// `new_width` is 0. The product `height * new_width` must fit in a
    /// `usize`.
    pub fn rescale_width(&self, new_width: usize) -> (r: Option<Self>)
        requires
            self@.1 * new_width <= usize::MAX,
        ensures
            r is Some <==> new_width > 0 && (self@.1 * (new_width as nat)) % self@.0 == 0,
            r matches Some(d) ==> d@ == (new_width as nat, (self@.1 * (new_width as nat)) / self@.0),
            r matches Some(d) ==> d@.0 * self@.1 == self@.0 * d@.1,
    {
        proof {
            use_type_invariant(self);
        }
        let scaled_height = self.height * new_width;
        if scaled_height % self.width != 0 {
            return None;
        }
        proof {
            lemma_fundamental_div_mod(scaled_height as int, self.width as int);
            if new_width > 0 {
                lemma_mul_strictly_positive(self.height as int, new_width as int);
            }
            lemma_exact_div(scaled_height as nat, self.width as nat);
            lemma_mul_is_commutative(self.width as int, (scaled_height / self.width) as int);
            lemma_mul_is_commutative(self.height as int, new_width as int);
        }
        Self::new(new_width, scaled_height / self.width)
    }

    /// Like [Self::rescale_width], but rounds the new height to the closest
    /// whole number (and to at least 1) instead of failing, so the aspect
    /// ratio may not be preserved. [None] if `new_width` is 0.
    pub fn rescale_width_rounded(&self, new_width: usize) -> (r: Option<Self>)
        requires
            self@.1 * new_width <= usize::MAX,
        ensures
            r is Some <==> new_width > 0,
            r matches Some(d) ==> d@ == (new_width as nat, rounded_side(self@.1, new_width as nat, self@.0)),
    {
        proof {
            use_type_invariant(self);
        }
        let new_height = rounded_div(self.height * new_width, self.width);
        let new_height = if new_height < 1 { 1 } else { new_height };
        Self::new(new_width, new_height)
    }

    /// The area as a wide integer, which cannot overflow.
    fn wide_area(&self) -> (r: u128)
        ensures
            r == self@.0 * self@.1,
    {
        proof {
            lemma_mul_upper_bound(self.width as int, u64::MAX as int, self.height as int, u64::MAX as int);
        }
        self.width as u128 * self.height as u128
    }
}

/// `x / d` rounded to the nearest integer, halves rounded up.
fn rounded_div(x: usize, d: usize) -> (r: usize)
    requires
        d > 0,
    ensures
        r == div_round(x as nat, d as nat),
{
    let wide = (2 * (x as u128) + d as u128) / (2 * (d as u128));
    proof {
        lemma_div_round_le(x as nat, d as nat);
    }
    wide as usize
}

/// Rounding `x / d` to the nearest integer gives at most `x`.
proof fn lemma_div_round_le(x: nat, d: nat)
    requires
        d > 0,
    ensures
        div_round(x, d) <= x,
{
    if x == 0 {
        lemma_basic_div(d as int, (2 * d) as int);
    } else {
        assert(2 * x + d < (2 * d) * (x + 1)) by (nonlinear_arith)
            requires
                x >= 1,
                d >= 1,
        ;
        lemma_multiply_divide_lt((2 * x + d) as int, (2 * d) as int, (x + 1) as int);
    }
}

/// `a` is smaller than `b` by area.
pub open spec fn area_lt(a: Dimensions, b: Dimensions) -> bool {
    a@.0 * a@.1 < b@.0 * b@.1
}

/// Ordering depends on [area](Dimensions::area).
impl PartialOrd for Dimensions {
    fn partial_cmp(&self, other: &Self) -> (r: Option<Ordering>) {
        let lhs = self.wide_area();
        let rhs = other.wide_area();
        if lhs < rhs {
            Some(Ordering::Less)
        } else if lhs == rhs {
            Some(Ordering::Equal)
        } else {
            Some(Ordering::Greater)
        }
    }
}

impl PartialOrdSpecImpl for Dimensions {
    open spec fn obeys_partial_cmp_spec() -> bool {
        true
    }

    open spec fn partial_cmp_spec(&self, other: &Self) -> Option<Ordering> {
        if area_lt(*self, *other) {
            Some(Ordering::Less)
        } else if area_lt(*other, *self) {
            Some(Ordering::Greater)
        } else {
            Some(Ordering::Equal)
        }
    }
}

/// Rescaling to a new height keeps the aspect ratio, so rescaling the result
/// back to the old height gives the old dimensions back.
pub proof fn lemma_rescale_height_round_trip(d: Dimensions, e: Dimensions)
    requires
        d.valid(),
        e.valid(),
        e@.0 * d@.1 == d@.0 * e@.1,
    ensures
        (e@.0 * d@.1) % e@.1 == 0,
        (e@.0 * d@.1) / e@.1 == d@.0,
{
    lemma_mul_is_commutative(d@.0 as int, e@.1 as int);
    lemma_mod_multiples_basic(d@.0 as int, e@.1 as int);
    lemma_div_by_multiple(d@.0 as int, e@.1 as int);
}

/// A 32-bit RGBA pixel in the sRGB color space with four 8-bit channels: red,
/// green, blue, and alpha (opacity), stored in that order.
///
/// For the color channels, a higher number means more color. For the alpha
/// channel, a higher number means more opacity (`0` is completely
/// transparent, `0xFF` is completely opaque).
#[derive(Debug, Clone, Copy, Eq, PartialOrd, Ord, Hash)]
pub struct Pixel {
    channels: [u8; 4],
}

/// The value of an ASCII hexadecimal digit, if `c` is one.
pub open spec fn hex_digit(c: u8) -> Option<u8> {
    if 48 <= c <= 57 {
        Some((c - 48) as u8)
    } else if 97 <= c <= 102 {
        Some((c - 87) as u8)
    } else if 65 <= c <= 70 {
        Some((c - 55) as u8)
    } else {
        None
    }
}

/// The byte written by the two hexadecimal digits at `s[i]` and `s[i + 1]`.
pub open spec fn hex_byte(s: Seq<u8>, i: int) -> Option<u8> {
    match (hex_digit(s[i]), hex_digit(s[i + 1])) {
        (Some(hi), Some(lo)) => Some((hi * 16 + lo) as u8),
        _ => None,
    }
}

/// The channels written by a string of the form `#RRGGBB` or `#RRGGBBAA`
/// (hexadecimal digits of either case); the alpha channel is `0xFF` when it
/// is left out.
pub open spec fn parse_hex_pixel(s: Seq<u8>) -> Option<(u8, u8, u8, u8)> {
    if (s.len() != 9 && s.len() != 7) || s[0] != 35 {
        None
    } else {
        match (hex_byte(s, 1), hex_byte(s, 3), hex_byte(s, 5)) {
            (Some(r), Some(g), Some(b)) => if s.len() == 7 {
                Some((r, g, b, 0xFFu8))
            } else {
                match hex_byte(s, 7) {
                    Some(a) => Some((r, g, b, a)),
                    None => None,
                }
            },
            _ => None,
        }
    }
}

impl View for Pixel {
    type V = (u8, u8, u8, u8);

    /// The red, green, blue and alpha channels.
    closed spec fn view(&self) -> (u8, u8, u8, u8) {
        (self.channels@[0], self.channels@[1], self.channels@[2], self.channels@[3])
    }
}

/// Two pixels are equal when all four channels are.
impl PartialEq for Pixel {
    fn eq(&self, other: &Self) -> (r: bool) {
        self.channels[0] == other.channels[0] && self.channels[1] == other.channels[1]
            && self.channels[2] == other.channels[2] && self.channels[3] == other.channels[3]
    }
}

impl vstd::std_specs::cmp::PartialEqSpecImpl for Pixel {
    open spec fn obeys_eq_spec() -> bool {
        true
    }

    open spec fn eq_spec(&self, other: &Self) -> bool {
        self@ == other@
    }
}

/// The value of an ASCII hexadecimal digit (`0-9`, `a-f`, `A-F`), if `c` is
/// one.
fn chr_to_u8(c: u8) -> (r: Option<u8>)
    ensures
        r == hex_digit(c),
        r matches Some(d) ==> d < 16,
{
    if 48u8 <= c && c <= 57u8 {
        Some(c - 48u8)
    } else if 97u8 <= c && c <= 102u8 {
        Some(c - 97u8 + 10)
    } else if 65u8 <= c && c <= 70u8 {
        Some(c - 65u8 + 10)
    } else {
        None
    }
}

/// The byte written by the two hexadecimal digits at `s[i]` and `s[i + 1]`.
fn two_digits(s: &[u8], i: usize) -> (r: Option<u8>)
    requires
        i + 1 < s@.len(),
    ensures
        r == hex_byte(s@, i as int),
{
    let digit1 = match chr_to_u8(s[i]) {
        Some(d) => d,
        None => return None,
    };
    let digit2 = match chr_to_u8(s[i + 1]) {
        Some(d) => d,
        None => return None,
    };
    assert((digit1 << 4u8) | digit2 == digit1 * 16 + digit2) by (bit_vector)
        requires
            digit1 < 16,
            digit2 < 16,
    ;
    Some(digit1 << 4 | digit2)
}

impl Pixel {
    /// The byte offset of the red channel.
    pub const RED_OFFSET: usize = 0;

    /// The byte offset of the green channel.
    pub const GREEN_OFFSET: usize = 1;

    /// The byte offset of the blue channel.
    pub const BLUE_OFFSET: usize = 2;

    /// The byte offset of the alpha (opacity) channel.
    pub const ALPHA_OFFSET: usize = 3;

    /// The color BLACK (`#000000FF`).
    #[allow(non_snake_case)]
    pub fn BLACK() -> (r: Self)
        ensures
            r@ == (0x00u8, 0x00u8, 0x00u8, 0xFFu8),
    {
        Self::from_rgb(0x00, 0x00, 0x00)
    }

    /// The color RED (`#AA0000FF`).
    #[allow(non_snake_case)]
    pub fn RED() -> (r: Self)
        ensures
            r@ == (0xAAu8, 0x00u8, 0x00u8, 0xFFu8),
    {
        Self::from_rgb(0xAA, 0x00, 0x00)
    }

    /// The color GREEN (`#00AA00FF`).
    #[allow(non_snake_case)]
    pub fn GREEN() -> (r: Self)
        ensures
            r@ == (0x00u8, 0xAAu8, 0x00u8, 0xFFu8),
    {
        Self::from_rgb(0x00, 0xAA, 0x00)
    }

    /// The color YELLOW (`#AA5500FF`).
    #[allow(non_snake_case)]
    pub fn YELLOW() -> (r: Self)
        ensures
            r@ == (0xAAu8, 0x55u8, 0x00u8, 0xFFu8),
    {
        Self::from_rgb(0xAA, 0x55, 0x00)
    }

    /// The color BLUE (`#0000AAFF`).
    #[allow(non_snake_case)]
    pub fn BLUE() -> (r: Self)
        ensures
            r@ == (0x00u8, 0x00u8, 0xAAu8, 0xFFu8),
    {
        Self::from_rgb(0x00, 0x00, 0xAA)
    }

    /// The color MAGENTA (`#AA00AAFF`).
    #[allow(non_snake_case)]
    pub fn MAGENTA() -> (r: Self)
        ensures
            r@ == (0xAAu8, 0x00u8, 0xAAu8, 0xFFu8),
    {
        Self::from_rgb(0xAA, 0x00, 0xAA)
    }

    /// The color CYAN (`#00AAAAFF`).
    #[allow(non_snake_case)]
    pub fn CYAN() -> (r: Self)
        ensures
            r@ == (0x00u8, 0xAAu8, 0xAAu8, 0xFFu8),
    {
        Self::from_rgb(0x00, 0xAA, 0xAA)
    }

    /// The color WHITE (`#AAAAAAFF`).
    #[allow(non_snake_case)]
    pub fn WHITE() -> (r: Self)
        ensures
            r@ == (0xAAu8, 0xAAu8, 0xAAu8, 0xFFu8),
    {
        Self::from_rgb(0xAA, 0xAA, 0xAA)
    }

    /// The color BRIGHT_BLACK (`#555555FF`).
    #[allow(non_snake_case)]
    pub fn BRIGHT_BLACK() -> (r: Self)
        ensures
            r@ == (0x55u8, 0x55u8, 0x55u8, 0xFFu8),
    {
        Self::from_rgb(0x55, 0x55, 0x55)
    }

    /// The color BRIGHT_RED (`#FF5555FF`).
    #[allow(non_snake_case)]
    pub fn BRIGHT_RED() -> (r: Self)
        ensures
            r@ == (0xFFu8, 0x55u8, 0x55u8, 0xFFu8),
    {
        Self::from_rgb(0xFF, 0x55, 0x55)
    }

    /// The color BRIGHT_GREEN (`#55FF55FF`).
    #[allow(non_snake_case)]
    pub fn BRIGHT_GREEN() -> (r: Self)
        ensures
            r@ == (0x55u8, 0xFFu8, 0x55u8, 0xFFu8),
    {
        Self::from_rgb(0x55, 0xFF, 0x55)
    }

    /// The color BRIGHT_YELLOW (`#FFFF55FF`).
    #[allow(non_snake_case)]
    pub fn BRIGHT_YELLOW() -> (r: Self)
        ensures
            r@ == (0xFFu8, 0xFFu8, 0x55u8, 0xFFu8),
    {
        Self::from_rgb(0xFF, 0xFF, 0x55)
    }

    /// The color BRIGHT_BLUE (`#5555FFFF`).
    #[allow(non_snake_case)]
    pub fn BRIGHT_BLUE() -> (r: Self)
        ensures
            r@ == (0x55u8, 0x55u8, 0xFFu8, 0xFFu8),
    {
        Self::from_rgb(0x55, 0x55, 0xFF)
    }

    /// The color BRIGHT_MAGENTA (`#FF55FFFF`).
    #[allow(non_snake_case)]
    pub fn BRIGHT_MAGENTA() -> (r: Self)
        ensures
            r@ == (0xFFu8, 0x55u8, 0xFFu8, 0xFFu8),
    {
        Self::from_rgb(0xFF, 0x55, 0xFF)
    }

    /// The color BRIGHT_CYAN (`#55FFFFFF`).
    #[allow(non_snake_case)]
    pub fn BRIGHT_CYAN() -> (r: Self)
        ensures
            r@ == (0x55u8, 0xFFu8, 0xFFu8, 0xFFu8),
    {
        Self::from_rgb(0x55, 0xFF, 0xFF)
    }

    /// The color BRIGHT_WHITE (`#FFFFFFFF`).
    #[allow(non_snake_case)]
    pub fn BRIGHT_WHITE() -> (r: Self)
        ensures
            r@ == (0xFFu8, 0xFFu8, 0xFFu8, 0xFFu8),
    {
        Self::from_rgb(0xFF, 0xFF, 0xFF)
    }

    /// Create a new pixel from each of the RGBA channels.
    pub fn from_rgba(red: u8, green: u8, blue: u8, alpha: u8) -> (r: Self)
        ensures
            r@ == (red, green, blue, alpha),
    {
        let r = Self { channels: [red, green, blue, alpha] };
        assert(r.channels@ =~= seq![red, green, blue, alpha]);
        r
    }

    /// Create a new pixel from only the RGB channels, setting the alpha
    /// channel to `0xFF` (completely opaque).
    pub fn from_rgb(red: u8, green: u8, blue: u8) -> (r: Self)
        ensures
            r@ == (red, green, blue, 0xFFu8),
    {
        Self::from_rgba(red, green, blue, 0xFF)
    }

    /// Create a [Pixel] from a string in the format `#RRGGBBAA` or `#RRGGBB`.
    /// If `s` is not in the above format, [None] is returned.
    pub fn from_hex(s: &str) -> (r: Option<Self>)
        ensures
            r matches Some(p) ==> parse_hex_pixel(s.spec_bytes()) == Some(p@),
            r is None <==> parse_hex_pixel(s.spec_bytes()) is None,
    {
        Self::from_hex_str(s)
    }

    /// Create a [Pixel] from a string in the format `#RRGGBBAA` or `#RRGGBB`.
    /// If `s` is not in the above format, [None] is returned.
    pub fn from_hex_str(s: &str) -> (r: Option<Self>)
        ensures
            r matches Some(p) ==> parse_hex_pixel(s.spec_bytes()) == Some(p@),
            r is None <==> parse_hex_pixel(s.spec_bytes()) is None,
    {
        let s = s.as_bytes();
        if (s.len() != 9 && s.len() != 7) || s[0] != 35u8 {
            return None;
        }
        let red = match two_digits(s, 1) {
            Some(v) => v,
            None => return None,
        };
        let green = match two_digits(s, 3) {
            Some(v) => v,
            None => return None,
        };
        let blue = match two_digits(s, 5) {
            Some(v) => v,
            None => return None,
        };
        let alpha = if s.len() == 7 {
            0xFF
        } else {
            match two_digits(s, 7) {
                Some(v) => v,
                None => return None,
            }
        };
        Some(Self::from_rgba(red, green, blue, alpha))
    }

    /// The red channel.
    pub fn red(&self) -> (r: u8)
        ensures
            r == self@.0,
    {
        self.channels[0]
    }

    /// The green channel.
    pub fn green(&self) -> (r: u8)
        ensures
            r == self@.1,
    {
        self.channels[1]
    }

    /// The blue channel.
    pub fn blue(&self) -> (r: u8)
        ensures
            r == self@.2,
    {
        self.channels[2]
    }

    /// The alpha (opacity) channel.
    pub fn alpha(&self) -> (r: u8)
        ensures
            r == self@.3,
    {
        self.channels[3]
    }

    /// An array of all 4 channels, ordered red, green, blue, alpha.
    pub fn channels(&self) -> (r: [u8; 4])
        ensures
            r@ == seq![self@.0, self@.1, self@.2, self@.3],
    {
        self.channels
    }

    /// A *mutable* reference to the red channel.
    pub fn red_mut(&mut self) -> (r: &mut u8)
        ensures
            *r == old(self)@.0,
            final(self)@ == (*final(r), old(self)@.1, old(self)@.2, old(self)@.3),
    {
        &mut self.channels[0]
    }

    /// A *mutable* reference to the green channel.
    pub fn green_mut(&mut self) -> (r: &mut u8)
        ensures
            *r == old(self)@.1,
            final(self)@ == (old(self)@.0, *final(r), old(self)@.2, old(self)@.3),
    {
        &mut self.channels[1]
    }

    /// A *mutable* reference to the blue channel.
    pub fn blue_mut(&mut self) -> (r: &mut u8)
        ensures
            *r == old(self)@.2,
            final(self)@ == (old(self)@.0, old(self)@.1, *final(r), old(self)@.3),
    {
        &mut self.channels[2]
    }

    /// A *mutable* reference to the alpha (opacity) channel.
    pub fn alpha_mut(&mut self) -> (r: &mut u8)
        ensures
            *r == old(self)@.3,
            final(self)@ == (old(self)@.0, old(self)@.1, old(self)@.2, *final(r)),
    {
        &mut self.channels[3]
    }

    /// A *mutable* reference to all four channels, ordered red, green, blue,
    /// alpha.
    pub fn channels_mut(&mut self) -> (r: &mut [u8; 4])
        ensures
            r@ == seq![old(self)@.0, old(self)@.1, old(self)@.2, old(self)@.3],
            final(self)@ == (final(r)@[0], final(r)@[1], final(r)@[2], final(r)@[3]),
    {
        &mut self.channels
    }

    /// Whether this pixel is completely transparent.
    pub fn is_transparent(&self) -> (r: bool)
        ensures
            r == (self@.3 == 0),
    {
        self.alpha() == 0x00
    }

    /// Whether this pixel is completely opaque.
    pub fn is_opaque(&self) -> (r: bool)
        ensures
            r == (self@.3 == 0xFF),
    {
        self.alpha() == 0xFF
    }

    /// Whether this pixel is neither completely transparent nor completely
    /// opaque.
    pub fn is_translucent(&self) -> (r: bool)
        ensures
            r == (self@.3 != 0 && self@.3 != 0xFF),
    {
        !self.is_transparent() && !self.is_opaque()
    }

    /// A new pixel with the alpha channel set to `0xFF`, making it completely
    /// opaque.
    pub fn remove_transparency(&self) -> (r: Self)
        ensures
            r@ == (self@.0, self@.1, self@.2, 0xFFu8),
    {
        Self::from_rgb(self.red(), self.green(), self.blue())
    }

    /// A new pixel with a different red channel.
    pub fn set_red(&self, red: u8) -> (r: Self)
        ensures
            r@ == (red, self@.1, self@.2, self@.3),
    {
        Self::from_rgba(red, self.green(), self.blue(), self.alpha())
    }

    /// A new pixel with a different green channel.
    pub fn set_green(&self, green: u8) -> (r: Self)
        ensures
            r@ == (self@.0, green, self@.2, self@.3),
    {
        Self::from_rgba(self.red(), green, self.blue(), self.alpha())
    }

    /// A new pixel with a different blue channel.
    pub fn set_blue(&self, blue: u8) -> (r: Self)
        ensures
            r@ == (self@.0, self@.1, blue, self@.3),
    {
        Self::from_rgba(self.red(), self.green(), blue, self.alpha())
    }

    /// A new pixel with a different alpha (opacity) channel.
    pub fn set_alpha(&self, alpha: u8) -> (r: Self)
        ensures
            r@ == (self@.0, self@.1, self@.2, alpha),
    {
        Self::from_rgba(self.red(), self.green(), self.blue(), alpha)
    }

    /// Create a pixel from an array of the four channels, ordered red, green,
    /// blue, alpha.
    pub fn from_channels(channels: [u8; 4]) -> (r: Self)
        ensures
            r@ == (channels@[0], channels@[1], channels@[2], channels@[3]),
    {
        Self { channels }
    }
}

/// The default for [Pixel] is black (`#000000FF`).
impl Default for Pixel {
    fn default() -> (r: Self)
        ensures
            r@ == (0u8, 0u8, 0u8, 0xFFu8),
    {
        Self::from_rgb(0, 0, 0)
    }
}

/// Two pixels with equal channels are the same pixel.
pub proof fn lemma_pixel_view_injective(a: Pixel, b: Pixel)
    requires
        a@ == b@,
    ensures
        a == b,
{
    assert(a.channels@ =~= b.channels@);
    vstd::array::axiom_array_ext_equal(a.channels, b.channels);
}

/// A unique identifier for a frame: for the duration of a frame's lifetime,
/// no other frame has an equal [Uid]. `major_id` identifies the thread that
/// generated it and `minor_id` counts the identifiers that thread generated.
#[derive(Debug, Clone, Copy, PartialEq, Eq, PartialOrd, Ord, Hash, Structural)]
pub struct Uid {
    major_id: usize,
    minor_id: usize,
}

impl Uid {
    /// The identifier of the generating thread.
    pub closed spec fn major(self) -> usize {
        self.major_id
    }

    /// The count of the identifier within its thread.
    pub closed spec fn minor(self) -> usize {
        self.minor_id
    }

    /// The [Uid] numbered `minor_id` among those generated by thread
    /// `major_id`. The generator that hands out fresh ids lives with the
    /// caller, which owns the thread-local counters.
    pub fn from_parts(major_id: usize, minor_id: usize) -> (r: Self)
        ensures
            r.major() == major_id,
            r.minor() == minor_id,
    {
        Self { major_id, minor_id }
    }

    /// The identifier of the thread that generated this [Uid].
    pub fn major_id(&self) -> (r: usize)
        ensures
            r == self.major(),
    {
        self.major_id
    }

    /// The count of this [Uid] among those its thread generated.
    pub fn minor_id(&self) -> (r: usize)
        ensures
            r == self.minor(),
    {
        self.minor_id
    }
}

} // verus!
