//! Converting frame rates to and from the signed fractions FFmpeg uses for
//! rates (a numerator and a denominator, both `i32`).

use vstd::prelude::*;

use crate::fps::{reduced_den, reduced_num, Fps, FpsError};

verus! {

/// The frame rate of the signed fraction `num/den`: the numerator must be
/// positive, then the denominator.
pub fn fps_from_rational(num: i32, den: i32) -> (r: Result<Fps, FpsError>)
    ensures
        num <= 0 <==> r == Err::<Fps, FpsError>(FpsError::NonPositiveNum),
        num > 0 && den <= 0 <==> r == Err::<Fps, FpsError>(FpsError::NonPositiveDen),
        r is Ok <==> num > 0 && den > 0,
        r matches Ok(f) ==> {
            &&& f.numer() == reduced_num(num as nat, den as nat)
            &&& f.denom() == reduced_den(num as nat, den as nat)
            &&& f.valid()
        },
{
    if num <= 0 {
        return Err(FpsError::NonPositiveNum);
    }
    if den <= 0 {
        return Err(FpsError::NonPositiveDen);
    }
    Ok(Fps::from_non_zero_frac(num as u32, den as u32))
}

/// The frame rate as a signed fraction, in lowest terms. A numerator or a
/// denominator over `i32::MAX` cannot be written so (the numerator is
/// reported first).
pub fn fps_to_rational(fps: Fps) -> (r: Result<(i32, i32), FpsError>)
    ensures
        fps.numer() > i32::MAX <==> r == Err::<(i32, i32), FpsError>(FpsError::NonPositiveNum),
        fps.numer() <= i32::MAX && fps.denom() > i32::MAX <==> r == Err::<(i32, i32), FpsError>(
            FpsError::NonPositiveDen,
        ),
        r is Ok <==> fps.numer() <= i32::MAX && fps.denom() <= i32::MAX,
        r matches Ok((num, den)) ==> num == fps.numer() && den == fps.denom(),
{
    let (num, den) = fps.as_frac();
    if num > i32::MAX as u32 {
        return Err(FpsError::NonPositiveNum);
    }
    if den > i32::MAX as u32 {
        return Err(FpsError::NonPositiveDen);
    }
    Ok((num as i32, den as i32))
}

} // verus!
