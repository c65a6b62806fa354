//! The light-transport recursion.
//!
//! A path is followed from the eye into the scene. At each level the ray
//! either escapes to the sky, is absorbed, or scatters into a new ray that
//! is followed one level deeper. A depth budget, counted down by one at
//! every scatter, cuts every path off.
use crate::hittable::Crossing;
use crate::hittable_list::nearest;
use crate::ray::Ray;
use crate::scalar::Scalar;
use crate::vec3::{Color, Vec3};
use vstd::prelude::*;

verus! {

/// The pattern of the near end of the interval in which hits count: the
/// double nearest to one thousandth. It keeps a scattered ray from hitting
/// the surface it starts on.
pub const T_MIN_BITS: u64 = 0x3F50_624D_D2F1_A9FC;

/// The pattern of the far end of that interval: the largest finite double.
pub const T_MAX_BITS: u64 = 0x7FEF_FFFF_FFFF_FFFF;

/// What a ray contributes, as far as one level of the recursion can tell.
#[derive(Clone, Copy, Debug, PartialEq, Eq, Structural)]
pub enum Radiance {
    /// Nothing: the budget is spent, or the surface absorbed the light.
    Black,
    /// The sky's gradient along the ray: nothing was hit.
    Sky,
    /// `attenuation` times, channel by channel, what the ray `scattered`
    /// contributes with `depth` left.
    Bounce { attenuation: Color, scattered: Ray, depth: i32 },
}

/// One level of the recursion. `found` is what became of the ray: `None`
/// when it hit nothing, `Some(None)` when the surface it hit absorbed it,
/// and `Some(Some(..))` with the attenuation and the outgoing ray when the
/// surface scattered it.
pub open spec fn spec_step(depth: i32, found: Option<Option<(Color, Ray)>>) -> Radiance {
    if depth <= 0 {
        Radiance::Black
    } else {
        match found {
            None => Radiance::Sky,
            Some(None) => Radiance::Black,
            Some(Some((attenuation, scattered))) => Radiance::Bounce {
                attenuation,
                scattered,
                depth: (depth - 1) as i32,
            },
        }
    }
}

/// The number of scatters along a path that starts with `depth` left and
/// whose rays, in order, find `found`.
pub open spec fn bounces(depth: i32, found: Seq<Option<Option<(Color, Ray)>>>) -> nat
    decreases found.len(),
{
    if found.len() == 0 {
        0
    } else {
        match spec_step(depth, found[0]) {
            Radiance::Bounce { depth: left, .. } => 1 + bounces(left, found.skip(1)),
            _ => 0,
        }
    }
}

/// The near end of the interval in which hits count.
pub fn t_min() -> (t: Scalar)
    ensures
        t.bits == T_MIN_BITS,
        !t.nan(),
{
    Scalar::from_bits(T_MIN_BITS)
}

/// The far end of the interval in which hits count.
pub fn t_max() -> (t: Scalar)
    ensures
        t.bits == T_MAX_BITS,
        !t.nan(),
{
    Scalar::from_bits(T_MAX_BITS)
}

/// Whether the budget is spent. This is asked before the ray is traced: a
/// spent path is black whatever the ray would have found.
pub fn exhausted(depth: i32) -> (r: bool)
    ensures
        r == (depth <= 0),
        r ==> forall|found: Option<Option<(Color, Ray)>>|
            #[trigger] spec_step(depth, found) == Radiance::Black,
{
    depth <= 0
}

/// One level of the recursion: black when the budget is spent or the light
/// was absorbed, the sky when nothing was hit, and otherwise a bounce with
/// exactly one less left.
pub fn step(depth: i32, found: Option<Option<(Color, Ray)>>) -> (r: Radiance)
    ensures
        r == spec_step(depth, found),
        depth <= 0 ==> r == Radiance::Black,
{
    if depth <= 0 {
        return Radiance::Black;
    }
    match found {
        None => Radiance::Sky,
        Some(None) => Radiance::Black,
        Some(Some((attenuation, scattered))) => Radiance::Bounce {
            attenuation,
            scattered,
            depth: depth - 1,
        },
    }
}

/// Whether `color` is a colour of `ray` with `depth` left, in a world where
/// `trace` says what becomes of a ray, `sky` gives the sky's colour along a
/// ray, and `tint` multiplies two colours channel by channel. With nothing
/// left the colour is black. Otherwise it is black for absorbed light, the
/// sky's colour for a ray that hits nothing, and for a scattered ray the
/// attenuation times a colour of the outgoing ray with one less left.
pub open spec fn renders<T, K, M>(
    trace: T,
    sky: K,
    tint: M,
    ray: Ray,
    depth: i32,
    color: Color,
) -> bool where
    T: Fn(Ray) -> Option<Option<(Color, Ray)>>,
    K: Fn(Ray) -> Color,
    M: Fn(Color, Color) -> Color,

    decreases depth,
{
    if depth <= 0 {
        color == Vec3::spec_black()
    } else {
        exists|found: Option<Option<(Color, Ray)>>| #[trigger]
            call_ensures(trace, (ray,), found) && match found {
                None => call_ensures(sky, (ray,), color),
                Some(None) => color == Vec3::spec_black(),
                Some(Some((attenuation, scattered))) => exists|inner: Color|
                    renders(trace, sky, tint, scattered, (depth - 1) as i32, inner)
                        && #[trigger] call_ensures(tint, (attenuation, inner), color),
            }
    }
}

/// The colour of a ray: the recursion, run to its end. `trace`, `sky` and
/// `tint` do the arithmetic; which of them is asked, in what order and how
/// often is decided here. With no budget left nothing is asked and the
/// colour is black.
pub fn ray_color<T, K, M>(ray: Ray, depth: i32, trace: &T, sky: &K, tint: &M) -> (color:
    Color) where
    T: Fn(Ray) -> Option<Option<(Color, Ray)>>,
    K: Fn(Ray) -> Color,
    M: Fn(Color, Color) -> Color,

    requires
        forall|r: Ray| call_requires(*trace, (r,)),
        forall|r: Ray| call_requires(*sky, (r,)),
        forall|a: Color, c: Color| call_requires(*tint, (a, c)),
    ensures
        renders(*trace, *sky, *tint, ray, depth, color),
        depth <= 0 ==> color == Vec3::spec_black(),
    decreases depth,
{
    if exhausted(depth) {
        return Vec3::black();
    }
    let found = trace(ray);
    match step(depth, found) {
        Radiance::Black => Vec3::black(),
        Radiance::Sky => sky(ray),
        Radiance::Bounce { attenuation, scattered, depth: left } => {
            let inner = ray_color(scattered, left, trace, sky, tint);
            tint(attenuation, inner)
        },
    }
}

/// No path scatters more often than its budget allows, whatever its rays
/// find.
pub proof fn lemma_bounces_within_depth(depth: i32, found: Seq<Option<Option<(Color, Ray)>>>)
    ensures
        bounces(depth, found) <= if depth <= 0 {
            0
        } else {
            depth as int
        },
    decreases found.len(),
{
    if found.len() > 0 {
        match spec_step(depth, found[0]) {
            Radiance::Bounce { depth: left, .. } => {
                lemma_bounces_within_depth(left, found.skip(1));
            },
            _ => {},
        }
    }
}

/// In a scene without primitives no ray hits anything, so every path with
/// a budget left ends at once in the sky.
pub proof fn lemma_empty_scene_is_sky(depth: i32, t_min: Scalar, t_max: Scalar)
    requires
        depth > 0,
    ensures
        nearest(Seq::<Crossing>::empty(), t_min, t_max) is None,
        spec_step(depth, None) == Radiance::Sky,
{
}

/// Where no ray ever hits anything, the colour of every ray with a budget
/// left is the sky's colour along that ray, and nothing else.
pub proof fn lemma_nothing_hit_renders_sky<T, K, M>(
    trace: T,
    sky: K,
    tint: M,
    ray: Ray,
    depth: i32,
    color: Color,
) where
    T: Fn(Ray) -> Option<Option<(Color, Ray)>>,
    K: Fn(Ray) -> Color,
    M: Fn(Color, Color) -> Color,

    requires
        depth > 0,
        forall|r: Ray, found: Option<Option<(Color, Ray)>>|
            call_ensures(trace, (r,), found) ==> found is None,
        renders(trace, sky, tint, ray, depth, color),
    ensures
        call_ensures(sky, (ray,), color),
{
}

/// The same answers give the same colour. Where tracing, the sky and the
/// product of colours each have a single answer to every question, a ray
/// has a single colour.
pub proof fn lemma_renders_one_color<T, K, M>(
    trace: T,
    sky: K,
    tint: M,
    ray: Ray,
    depth: i32,
    first: Color,
    second: Color,
) where
    T: Fn(Ray) -> Option<Option<(Color, Ray)>>,
    K: Fn(Ray) -> Color,
    M: Fn(Color, Color) -> Color,

    requires
        forall|r: Ray, f: Option<Option<(Color, Ray)>>, g: Option<Option<(Color, Ray)>>|
            call_ensures(trace, (r,), f) && call_ensures(trace, (r,), g) ==> f == g,
        forall|r: Ray, c: Color, e: Color|
            call_ensures(sky, (r,), c) && call_ensures(sky, (r,), e) ==> c == e,
        forall|a: Color, b: Color, c: Color, e: Color|
            call_ensures(tint, (a, b), c) && call_ensures(tint, (a, b), e) ==> c == e,
        renders(trace, sky, tint, ray, depth, first),
        renders(trace, sky, tint, ray, depth, second),
    ensures
        first == second,
    decreases depth,
{
    if depth > 0 {
        let f = choose|f: Option<Option<(Color, Ray)>>| #[trigger]
            call_ensures(trace, (ray,), f) && match f {
                None => call_ensures(sky, (ray,), first),
                Some(None) => first == Vec3::spec_black(),
                Some(Some((attenuation, scattered))) => exists|inner: Color|
                    renders(trace, sky, tint, scattered, (depth - 1) as i32, inner)
                        && #[trigger] call_ensures(tint, (attenuation, inner), first),
            };
        let g = choose|g: Option<Option<(Color, Ray)>>| #[trigger]
            call_ensures(trace, (ray,), g) && match g {
                None => call_ensures(sky, (ray,), second),
                Some(None) => second == Vec3::spec_black(),
                Some(Some((attenuation, scattered))) => exists|inner: Color|
                    renders(trace, sky, tint, scattered, (depth - 1) as i32, inner)
                        && #[trigger] call_ensures(tint, (attenuation, inner), second),
            };
        assert(f == g);
        match f {
            Some(Some((attenuation, scattered))) => {
                let left = (depth - 1) as i32;
                let inner_first = choose|inner: Color|
                    renders(trace, sky, tint, scattered, left, inner) && #[trigger] call_ensures(
                        tint,
                        (attenuation, inner),
                        first,
                    );
                let inner_second = choose|inner: Color|
                    renders(trace, sky, tint, scattered, left, inner) && #[trigger] call_ensures(
                        tint,
                        (attenuation, inner),
                        second,
                    );
                lemma_renders_one_color(
                    trace,
                    sky,
                    tint,
                    scattered,
                    left,
                    inner_first,
                    inner_second,
                );
            },
            _ => {},
        }
    }
}

/// With no budget left, the colour of every ray is black, whatever the
/// scene holds.
pub proof fn lemma_spent_budget_renders_black<T, K, M>(
    trace: T,
    sky: K,
    tint: M,
    ray: Ray,
    depth: i32,
    color: Color,
) where
    T: Fn(Ray) -> Option<Option<(Color, Ray)>>,
    K: Fn(Ray) -> Color,
    M: Fn(Color, Color) -> Color,

    requires
        depth <= 0,
        renders(trace, sky, tint, ray, depth, color),
    ensures
        color == Vec3::spec_black(),
{
}

} // verus!
