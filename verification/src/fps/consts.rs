//! Common frame rates. Each one is a function that returns the [Fps]; see
//! [COMMON_FRAME_RATES] and [common_frame_rate_name].

use vstd::prelude::*;

use super::Fps;
use crate::arith::gcd;

verus! {

/// 1 frame per second.
#[allow(non_snake_case)]
pub fn FPS_1() -> (r: Fps)
    ensures
        r.numer() == 1,
        r.denom() == 1,
        r.valid(),
{
    Fps::from_non_zero_int(1)
}

/// 8 frames per second (animation on 3s).
#[allow(non_snake_case)]
pub fn FPS_8() -> (r: Fps)
    ensures
        r.numer() == 8,
        r.denom() == 1,
        r.valid(),
{
    Fps::from_non_zero_int(8)
}

/// 15 frames per second.
#[allow(non_snake_case)]
pub fn FPS_15() -> (r: Fps)
    ensures
        r.numer() == 15,
        r.denom() == 1,
        r.valid(),
{
    Fps::from_non_zero_int(15)
}

/// 12 frames per second (animation on 2s).
#[allow(non_snake_case)]
pub fn FPS_12() -> (r: Fps)
    ensures
        r.numer() == 12,
        r.denom() == 1,
        r.valid(),
{
    Fps::from_non_zero_int(12)
}

/// 23.976 frames per second (NTSC film): exactly `24000/1001`.
#[allow(non_snake_case)]
pub fn FPS_23_976() -> (r: Fps)
    ensures
        r.numer() == 24000,
        r.denom() == 1001,
        r.valid(),
{
    proof {
        reveal_with_fuel(gcd, 10);
        assert(gcd(24000, 1001) == 1);
    }
    Fps::from_simplified_non_zero_frac(24000, 1001)
}

/// 24 frames per second (film).
#[allow(non_snake_case)]
pub fn FPS_24() -> (r: Fps)
    ensures
        r.numer() == 24,
        r.denom() == 1,
        r.valid(),
{
    Fps::from_non_zero_int(24)
}

/// 25 frames per second (PAL).
#[allow(non_snake_case)]
pub fn FPS_25() -> (r: Fps)
    ensures
        r.numer() == 25,
        r.denom() == 1,
        r.valid(),
{
    Fps::from_non_zero_int(25)
}

/// 29.97 frames per second (NTSC): exactly `30000/1001`.
#[allow(non_snake_case)]
pub fn FPS_29_97() -> (r: Fps)
    ensures
        r.numer() == 30000,
        r.denom() == 1001,
        r.valid(),
{
    proof {
        reveal_with_fuel(gcd, 10);
        assert(gcd(30000, 1001) == 1);
    }
    Fps::from_simplified_non_zero_frac(30000, 1001)
}

/// 30 frames per second.
#[allow(non_snake_case)]
pub fn FPS_30() -> (r: Fps)
    ensures
        r.numer() == 30,
        r.denom() == 1,
        r.valid(),
{
    Fps::from_non_zero_int(30)
}

/// 48 frames per second (HFR).
#[allow(non_snake_case)]
pub fn FPS_48() -> (r: Fps)
    ensures
        r.numer() == 48,
        r.denom() == 1,
        r.valid(),
{
    Fps::from_non_zero_int(48)
}

/// 50 frames per second.
#[allow(non_snake_case)]
pub fn FPS_50() -> (r: Fps)
    ensures
        r.numer() == 50,
        r.denom() == 1,
        r.valid(),
{
    Fps::from_non_zero_int(50)
}

/// 59.94 frames per second (NTSC high-frame-rate): exactly `60000/1001`.
#[allow(non_snake_case)]
pub fn FPS_59_94() -> (r: Fps)
    ensures
        r.numer() == 60000,
        r.denom() == 1001,
        r.valid(),
{
    proof {
        reveal_with_fuel(gcd, 10);
        assert(gcd(60000, 1001) == 1);
    }
    Fps::from_simplified_non_zero_frac(60000, 1001)
}

/// 60 frames per second.
#[allow(non_snake_case)]
pub fn FPS_60() -> (r: Fps)
    ensures
        r.numer() == 60,
        r.denom() == 1,
        r.valid(),
{
    Fps::from_non_zero_int(60)
}

/// 75 frames per second.
#[allow(non_snake_case)]
pub fn FPS_75() -> (r: Fps)
    ensures
        r.numer() == 75,
        r.denom() == 1,
        r.valid(),
{
    Fps::from_non_zero_int(75)
}

/// 90 frames per second.
#[allow(non_snake_case)]
pub fn FPS_90() -> (r: Fps)
    ensures
        r.numer() == 90,
        r.denom() == 1,
        r.valid(),
{
    Fps::from_non_zero_int(90)
}

/// 100 frames per second.
#[allow(non_snake_case)]
pub fn FPS_100() -> (r: Fps)
    ensures
        r.numer() == 100,
        r.denom() == 1,
        r.valid(),
{
    Fps::from_non_zero_int(100)
}

/// 120 frames per second.
#[allow(non_snake_case)]
pub fn FPS_120() -> (r: Fps)
    ensures
        r.numer() == 120,
        r.denom() == 1,
        r.valid(),
{
    Fps::from_non_zero_int(120)
}

/// 144 frames per second.
#[allow(non_snake_case)]
pub fn FPS_144() -> (r: Fps)
    ensures
        r.numer() == 144,
        r.denom() == 1,
        r.valid(),
{
    Fps::from_non_zero_int(144)
}

/// 165 frames per second.
#[allow(non_snake_case)]
pub fn FPS_165() -> (r: Fps)
    ensures
        r.numer() == 165,
        r.denom() == 1,
        r.valid(),
{
    Fps::from_non_zero_int(165)
}

/// 240 frames per second.
#[allow(non_snake_case)]
pub fn FPS_240() -> (r: Fps)
    ensures
        r.numer() == 240,
        r.denom() == 1,
        r.valid(),
{
    Fps::from_non_zero_int(240)
}

/// 280 frames per second.
#[allow(non_snake_case)]
pub fn FPS_280() -> (r: Fps)
    ensures
        r.numer() == 280,
        r.denom() == 1,
        r.valid(),
{
    Fps::from_non_zero_int(280)
}

/// 360 frames per second.
#[allow(non_snake_case)]
pub fn FPS_360() -> (r: Fps)
    ensures
        r.numer() == 360,
        r.denom() == 1,
        r.valid(),
{
    Fps::from_non_zero_int(360)
}

/// The fraction of the `i`-th entry of [COMMON_FRAME_RATES].
pub open spec fn common_frame_rate_fraction(i: int) -> (nat, nat) {
    if i == 0 {
        (1, 1)
    } else if i == 1 {
        (8, 1)
    } else if i == 2 {
        (15, 1)
    } else if i == 3 {
        (12, 1)
    } else if i == 4 {
        (24000, 1001)
    } else if i == 5 {
        (24, 1)
    } else if i == 6 {
        (25, 1)
    } else if i == 7 {
        (30000, 1001)
    } else if i == 8 {
        (30, 1)
    } else if i == 9 {
        (48, 1)
    } else if i == 10 {
        (50, 1)
    } else if i == 11 {
        (60000, 1001)
    } else if i == 12 {
        (60, 1)
    } else if i == 13 {
        (75, 1)
    } else if i == 14 {
        (90, 1)
    } else if i == 15 {
        (100, 1)
    } else if i == 16 {
        (120, 1)
    } else if i == 17 {
        (144, 1)
    } else if i == 18 {
        (165, 1)
    } else if i == 19 {
        (240, 1)
    } else if i == 20 {
        (280, 1)
    } else {
        (360, 1)
    }
}

/// All of the frame rates above, in the order they are declared. Also see
/// [common_frame_rate_name].
#[allow(non_snake_case)]
pub fn COMMON_FRAME_RATES() -> (r: Vec<Fps>)
    ensures
        r.len() == 22,
        forall|i: int|
            0 <= i < r.len() ==> (#[trigger] r[i]).numer() == common_frame_rate_fraction(i).0
                && r[i].denom() == common_frame_rate_fraction(i).1,
{
    let mut r: Vec<Fps> = Vec::new();
    r.push(FPS_1());
    r.push(FPS_8());
    r.push(FPS_15());
    r.push(FPS_12());
    r.push(FPS_23_976());
    r.push(FPS_24());
    r.push(FPS_25());
    r.push(FPS_29_97());
    r.push(FPS_30());
    r.push(FPS_48());
    r.push(FPS_50());
    r.push(FPS_59_94());
    r.push(FPS_60());
    r.push(FPS_75());
    r.push(FPS_90());
    r.push(FPS_100());
    r.push(FPS_120());
    r.push(FPS_144());
    r.push(FPS_165());
    r.push(FPS_240());
    r.push(FPS_280());
    r.push(FPS_360());
    r
}

/// The printable name of a frame rate from [COMMON_FRAME_RATES], if it is one
/// of them.
pub open spec fn frame_rate_name(num: nat, den: nat) -> Option<&'static str> {
    if num == 1 && den == 1 {
        Some("1")
    } else if num == 8 && den == 1 {
        Some("8")
    } else if num == 15 && den == 1 {
        Some("15")
    } else if num == 12 && den == 1 {
        Some("12")
    } else if num == 24000 && den == 1001 {
        Some("23.976 (NTSC film)")
    } else if num == 24 && den == 1 {
        Some("24 (film)")
    } else if num == 25 && den == 1 {
        Some("25 (PAL)")
    } else if num == 30000 && den == 1001 {
        Some("29.97 (NTSC)")
    } else if num == 30 && den == 1 {
        Some("30")
    } else if num == 48 && den == 1 {
        Some("48 (HFR)")
    } else if num == 50 && den == 1 {
        Some("50")
    } else if num == 60000 && den == 1001 {
        Some("59.94 (NTSC high-frame-rate)")
    } else if num == 60 && den == 1 {
        Some("60")
    } else if num == 75 && den == 1 {
        Some("60")
    } else if num == 90 && den == 1 {
        Some("90")
    } else if num == 100 && den == 1 {
        Some("100")
    } else if num == 120 && den == 1 {
        Some("120")
    } else if num == 144 && den == 1 {
        Some("144")
    } else if num == 165 && den == 1 {
        Some("165")
    } else if num == 240 && den == 1 {
        Some("240")
    } else if num == 280 && den == 1 {
        Some("280")
    } else if num == 360 && den == 1 {
        Some("360")
    } else {
        None
    }
}

/// Every common frame rate has a name, and distinct common frame rates have
/// distinct names, but for 75 fps, which is listed under the name of 60 fps.
pub proof fn lemma_common_frame_rate_names_distinct(i: int, j: int)
    requires
        0 <= i < 22,
        0 <= j < 22,
    ensures
        frame_rate_name(common_frame_rate_fraction(i).0, common_frame_rate_fraction(i).1) is Some,
        i != j && !(i == 12 && j == 13) && !(i == 13 && j == 12) ==> frame_rate_name(
            common_frame_rate_fraction(i).0,
            common_frame_rate_fraction(i).1,
        ) != frame_rate_name(common_frame_rate_fraction(j).0, common_frame_rate_fraction(j).1),
{
    reveal_strlit("1");
    reveal_strlit("100");
    reveal_strlit("12");
    reveal_strlit("120");
    reveal_strlit("144");
    reveal_strlit("15");
    reveal_strlit("165");
    reveal_strlit("23.976 (NTSC film)");
    reveal_strlit("24 (film)");
    reveal_strlit("240");
    reveal_strlit("25 (PAL)");
    reveal_strlit("280");
    reveal_strlit("29.97 (NTSC)");
    reveal_strlit("30");
    reveal_strlit("360");
    reveal_strlit("48 (HFR)");
    reveal_strlit("50");
    reveal_strlit("59.94 (NTSC high-frame-rate)");
    reveal_strlit("60");
    reveal_strlit("8");
    reveal_strlit("90");
}

/// The decimal digits of `n`, most significant first.
pub open spec fn decimal_digits(n: nat) -> Seq<char>
    decreases n,
{
    if n < 10 {
        seq![(48 + n) as char]
    } else {
        decimal_digits(n / 10).push((48 + n % 10) as char)
    }
}

/// The name of each common frame rate but 75 fps (listed under the name of
/// 60 fps) begins with its whole number of frames per second, written in
/// decimal and not followed by a further digit.
pub proof fn lemma_common_frame_rate_names_begin_with_rate(i: int)
    requires
        0 <= i < 22,
        i != 13,
    ensures
        ({
            let (num, den) = common_frame_rate_fraction(i);
            let name = frame_rate_name(num, den)->0@;
            let digits = decimal_digits(num / den);
            &&& digits.len() <= name.len()
            &&& name.subrange(0, digits.len() as int) == digits
            &&& digits.len() < name.len() ==> !('0' <= name[digits.len() as int] <= '9')
        }),
{
    reveal_strlit("1");
    reveal_strlit("100");
    reveal_strlit("12");
    reveal_strlit("120");
    reveal_strlit("144");
    reveal_strlit("15");
    reveal_strlit("165");
    reveal_strlit("23.976 (NTSC film)");
    reveal_strlit("24 (film)");
    reveal_strlit("240");
    reveal_strlit("25 (PAL)");
    reveal_strlit("280");
    reveal_strlit("29.97 (NTSC)");
    reveal_strlit("30");
    reveal_strlit("360");
    reveal_strlit("48 (HFR)");
    reveal_strlit("50");
    reveal_strlit("59.94 (NTSC high-frame-rate)");
    reveal_strlit("60");
    reveal_strlit("8");
    reveal_strlit("90");
    reveal_with_fuel(decimal_digits, 4);
}

/// Printable names for all frame rates in [COMMON_FRAME_RATES].
pub fn common_frame_rate_name(fps: Fps) -> (r: Option<&'static str>)
    ensures
        r == frame_rate_name(fps.numer(), fps.denom()),
{
    let (num, den) = fps.as_frac();
    if num == 1 && den == 1 {
        Some("1")
    } else if num == 8 && den == 1 {
        Some("8")
    } else if num == 15 && den == 1 {
        Some("15")
    } else if num == 12 && den == 1 {
        Some("12")
    } else if num == 24000 && den == 1001 {
        Some("23.976 (NTSC film)")
    } else if num == 24 && den == 1 {
        Some("24 (film)")
    } else if num == 25 && den == 1 {
        Some("25 (PAL)")
    } else if num == 30000 && den == 1001 {
        Some("29.97 (NTSC)")
    } else if num == 30 && den == 1 {
        Some("30")
    } else if num == 48 && den == 1 {
        Some("48 (HFR)")
    } else if num == 50 && den == 1 {
        Some("50")
    } else if num == 60000 && den == 1001 {
        Some("59.94 (NTSC high-frame-rate)")
    } else if num == 60 && den == 1 {
        Some("60")
    } else if num == 75 && den == 1 {
        Some("60")
    } else if num == 90 && den == 1 {
        Some("90")
    } else if num == 100 && den == 1 {
        Some("100")
    } else if num == 120 && den == 1 {
        Some("120")
    } else if num == 144 && den == 1 {
        Some("144")
    } else if num == 165 && den == 1 {
        Some("165")
    } else if num == 240 && den == 1 {
        Some("240")
    } else if num == 280 && den == 1 {
        Some("280")
    } else if num == 360 && den == 1 {
        Some("360")
    } else {
        None
    }
}

} // verus!
