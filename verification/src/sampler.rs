//! The samples of one pixel, gathered.
use crate::vec3::{Color, Vec3};
use vstd::prelude::*;

verus! {

/// Whether `total` is a sum of `count` samples: black for none, and
/// otherwise what `accumulate` makes of a sum of one sample fewer and one
/// more sample.
pub open spec fn accumulated<S, A>(sample: S, accumulate: A, count: int, total: Color) -> bool where
    S: Fn() -> Color,
    A: Fn(Color, Color) -> Color,

    decreases count,
{
    if count <= 0 {
        total == Vec3::spec_black()
    } else {
        exists|before: Color, next: Color|
            accumulated(sample, accumulate, count - 1, before) && call_ensures(sample, (), next)
                && #[trigger] call_ensures(accumulate, (before, next), total)
    }
}

/// The sum of `samples_per_pixel` samples of one pixel, starting from
/// black. `sample` traces one jittered ray through the pixel and
/// `accumulate` adds two colours. A count of zero or less takes no sample.
pub fn pixel_color<S, A>(samples_per_pixel: i32, sample: &S, accumulate: &A) -> (total:
    Color) where S: Fn() -> Color, A: Fn(Color, Color) -> Color
    requires
        call_requires(*sample, ()),
        forall|a: Color, b: Color| call_requires(*accumulate, (a, b)),
    ensures
        accumulated(*sample, *accumulate, samples_per_pixel as int, total),
        samples_per_pixel <= 0 ==> total == Vec3::spec_black(),
{
    let mut total = Vec3::black();
    let mut taken: i32 = 0;
    while taken < samples_per_pixel
        invariant
            0 <= taken,
            taken <= samples_per_pixel || samples_per_pixel <= 0,
            samples_per_pixel <= 0 ==> taken == 0,
            call_requires(*sample, ()),
            forall|a: Color, b: Color| call_requires(*accumulate, (a, b)),
            accumulated(*sample, *accumulate, taken as int, total),
        decreases samples_per_pixel - taken,
    {
        let next = sample();
        let sum = accumulate(total, next);
        assert(accumulated(*sample, *accumulate, taken as int, total) && call_ensures(
            *sample,
            (),
            next,
        ) && call_ensures(*accumulate, (total, next), sum));
        total = sum;
        taken += 1;
    }
    total
}

} // verus!
