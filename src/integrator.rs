use vstd::prelude::*;
use crate::color::Rgba;

verus! {

/// Deepest recursion level that is still geometry-tested; a ray at a greater
/// depth samples the environment instead.
pub const MAX_DEPTH: u32 = 3;

/// The scene-specific work of the integrator: intersection, shading,
/// secondary-ray construction and colour blending. Implementations hold the
/// geometry, materials, lights and environment, and are read-only while a
/// frame is traced: each method is a function of its arguments, named by the
/// spec function of the same role (`nearest_hit` by `hit_of`, and so on).
/// An implementation outside verified code defines each such function as
/// the result of its method.
pub trait Tracer {
    type Ray;

    type Hit;

    type Color;

    spec fn primary_of(&self, x: u32, y: u32, width: u32, height: u32) -> Self::Ray;

    spec fn pixel_of(&self, color: Self::Color) -> Rgba;

    spec fn hit_of(&self, ray: Self::Ray) -> Option<Self::Hit>;

    spec fn env_of(&self, ray: Self::Ray) -> Self::Color;

    spec fn local_of(&self, ray: Self::Ray, hit: Self::Hit) -> Self::Color;

    spec fn reflected_of(&self, ray: Self::Ray, hit: Self::Hit) -> Option<Self::Ray>;

    spec fn refracted_of(&self, ray: Self::Ray, hit: Self::Hit) -> Option<Self::Ray>;

    spec fn blend_reflected_of(&self, hit: Self::Hit, base: Self::Color, seen: Self::Color) -> Self::Color;

    spec fn blend_refracted_of(&self, hit: Self::Hit, base: Self::Color, seen: Self::Color) -> Self::Color;

    /// The primary ray through pixel `(x, y)` of a `width` by `height` grid.
    fn primary_ray(&self, x: u32, y: u32, width: u32, height: u32) -> (r: Self::Ray)
        ensures
            r == self.primary_of(x, y, width, height),
    ;

    /// The pixel value that a traced colour is written as.
    fn to_pixel(&self, color: &Self::Color) -> (r: Rgba)
        ensures
            r == self.pixel_of(*color),
    ;

    /// The nearest surface hit along `ray`, if any.
    fn nearest_hit(&self, ray: &Self::Ray) -> (r: Option<Self::Hit>)
        ensures
            r == self.hit_of(*ray),
    ;

    /// The colour seen along a ray that leaves the scene.
    fn environment(&self, ray: &Self::Ray) -> (r: Self::Color)
        ensures
            r == self.env_of(*ray),
    ;

    /// Direct lighting at `hit`, summed over the lights.
    fn local_shade(&self, ray: &Self::Ray, hit: &Self::Hit) -> (r: Self::Color)
        ensures
            r == self.local_of(*ray, *hit),
    ;

    /// The mirror-reflected ray leaving `hit`, with its origin stepped off the
    /// surface; `None` when the surface has no reflective weight.
    fn reflected(&self, ray: &Self::Ray, hit: &Self::Hit) -> (r: Option<Self::Ray>)
        ensures
            r == self.reflected_of(*ray, *hit),
    ;

    /// The refracted ray leaving `hit`; `None` when the surface has no
    /// transmissive weight or the ray is totally internally reflected.
    fn refracted(&self, ray: &Self::Ray, hit: &Self::Hit) -> (r: Option<Self::Ray>)
        ensures
            r == self.refracted_of(*ray, *hit),
    ;

    /// `base` blended with the colour seen along the reflected ray, by the
    /// hit's reflective weight.
    fn blend_reflected(&self, hit: &Self::Hit, base: Self::Color, seen: Self::Color) -> (r: Self::Color)
        ensures
            r == self.blend_reflected_of(*hit, base, seen),
    ;

    /// `base` blended with the colour seen along the refracted ray, by the
    /// hit's transmissive weight.
    fn blend_refracted(&self, hit: &Self::Hit, base: Self::Color, seen: Self::Color) -> (r: Self::Color)
        ensures
            r == self.blend_refracted_of(*hit, base, seen),
    ;
}

/// A traced colour together with the shape of the recursion that produced
/// it: the length of the longest chain of secondary rays, and the number of
/// tracing calls made in all.
pub struct Traced<C> {
    pub color: C,
    pub nested: u32,
    pub calls: u32,
}

/// How many more levels of recursion a call at `depth` may start.
pub open spec fn remaining_levels(depth: u32) -> nat {
    if depth <= MAX_DEPTH {
        (MAX_DEPTH + 1 - depth) as nat
    } else {
        0
    }
}

/// The most tracing calls that one call at `depth` can lead to, itself
/// included: at most two secondary rays per level.
pub open spec fn max_calls(depth: u32) -> nat
    decreases remaining_levels(depth),
{
    if depth > MAX_DEPTH {
        1
    } else {
        2 * max_calls((depth + 1) as u32) + 1
    }
}

/// The colour seen along `ray` at recursion `depth`: past `MAX_DEPTH`, or
/// when nothing is hit, the environment; otherwise the local shading, then
/// the reflected colour blended in (when there is a reflected ray), then the
/// refracted colour blended in (when there is a refracted ray).
pub open spec fn traced<T: Tracer>(t: &T, ray: T::Ray, depth: u32) -> T::Color
    decreases remaining_levels(depth),
{
    if depth > MAX_DEPTH {
        t.env_of(ray)
    } else {
        match t.hit_of(ray) {
            None => t.env_of(ray),
            Some(hit) => {
                let local = t.local_of(ray, hit);
                let with_reflection = match t.reflected_of(ray, hit) {
                    Some(r) => t.blend_reflected_of(hit, local, traced(t, r, (depth + 1) as u32)),
                    None => local,
                };
                match t.refracted_of(ray, hit) {
                    Some(r) => t.blend_refracted_of(
                        hit,
                        with_reflection,
                        traced(t, r, (depth + 1) as u32),
                    ),
                    None => with_reflection,
                }
            },
        }
    }
}

proof fn lemma_max_calls_bound(depth: u32)
    ensures
        1 <= max_calls(depth) <= 31,
        depth <= MAX_DEPTH ==> max_calls(depth) == 2 * max_calls((depth + 1) as u32) + 1,
    decreases remaining_levels(depth),
{
    if depth <= MAX_DEPTH {
        lemma_max_calls_bound((depth + 1) as u32);
        if depth == 0 {
            assert(max_calls(0) == 31) by {
                reveal_with_fuel(max_calls, 6);
            }
        } else {
            assert(max_calls(depth) <= 15) by {
                reveal_with_fuel(max_calls, 5);
            }
        }
    }
}

/// Traces `ray` at recursion `depth`: past `MAX_DEPTH` the environment is
/// sampled without any geometry test; otherwise the nearest hit is shaded
/// locally, then the reflected and the refracted colours are blended in, in
/// that order, each traced one level deeper. A primary call at depth 0 nests
/// at most `MAX_DEPTH + 1` recursive calls and makes at most 31 calls in all.
pub fn ray_color<T: Tracer>(tracer: &T, ray: &T::Ray, depth: u32) -> (r: Traced<T::Color>)
    ensures
        r.color == traced(tracer, *ray, depth),
        r.nested <= remaining_levels(depth),
        r.nested <= MAX_DEPTH + 1,
        1 <= r.calls <= max_calls(depth),
        depth > MAX_DEPTH ==> r.nested == 0 && r.calls == 1,
        tracer.hit_of(*ray) is None ==> r.nested == 0 && r.calls == 1,
    decreases remaining_levels(depth),
{
    proof {
        lemma_max_calls_bound(depth);
    }
    if depth > MAX_DEPTH {
        return Traced { color: tracer.environment(ray), nested: 0, calls: 1 };
    }
    match tracer.nearest_hit(ray) {
        None => Traced { color: tracer.environment(ray), nested: 0, calls: 1 },
        Some(hit) => {
            proof {
                lemma_max_calls_bound((depth + 1) as u32);
            }
            let mut color = tracer.local_shade(ray, &hit);
            let mut nested: u32 = 0;
            let mut calls: u32 = 1;
            if let Some(rray) = tracer.reflected(ray, &hit) {
                let seen = ray_color(tracer, &rray, depth + 1);
                color = tracer.blend_reflected(&hit, color, seen.color);
                nested = seen.nested + 1;
                calls = calls + seen.calls;
            }
            if let Some(tray) = tracer.refracted(ray, &hit) {
                let seen = ray_color(tracer, &tray, depth + 1);
                color = tracer.blend_refracted(&hit, color, seen.color);
                if seen.nested + 1 > nested {
                    nested = seen.nested + 1;
                }
                calls = calls + seen.calls;
            }
            Traced { color, nested, calls }
        },
    }
}

} // verus!
