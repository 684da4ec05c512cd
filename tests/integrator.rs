use raytracer::color::Rgba;
use raytracer::framebuffer::{render, Framebuffer};
use raytracer::integrator::{ray_color, Tracer, MAX_DEPTH};
use std::cell::Cell;

/// Two mirrors facing each other: every ray hits, every hit reflects, and
/// each bounce keeps half of what it sees.
struct FacingMirrors {
    hit_tests: Cell<u32>,
    env_samples: Cell<u32>,
}

impl Tracer for FacingMirrors {
    type Ray = u32;
    type Hit = u32;
    type Color = f32;

    fn primary_of(&self, x: u32, y: u32, width: u32, height: u32) -> Self::Ray {
        self.primary_ray(x, y, width, height)
    }
    fn pixel_of(&self, color: Self::Color) -> Rgba {
        self.to_pixel(&color)
    }
    fn hit_of(&self, ray: Self::Ray) -> Option<Self::Hit> {
        self.nearest_hit(&ray)
    }
    fn env_of(&self, ray: Self::Ray) -> Self::Color {
        self.environment(&ray)
    }
    fn local_of(&self, ray: Self::Ray, hit: Self::Hit) -> Self::Color {
        self.local_shade(&ray, &hit)
    }
    fn reflected_of(&self, ray: Self::Ray, hit: Self::Hit) -> Option<Self::Ray> {
        self.reflected(&ray, &hit)
    }
    fn refracted_of(&self, ray: Self::Ray, hit: Self::Hit) -> Option<Self::Ray> {
        self.refracted(&ray, &hit)
    }
    fn blend_reflected_of(&self, hit: Self::Hit, base: Self::Color, seen: Self::Color) -> Self::Color {
        self.blend_reflected(&hit, base, seen)
    }
    fn blend_refracted_of(&self, hit: Self::Hit, base: Self::Color, seen: Self::Color) -> Self::Color {
        self.blend_refracted(&hit, base, seen)
    }

    fn primary_ray(&self, _x: u32, _y: u32, _w: u32, _h: u32) -> u32 {
        0
    }
    fn to_pixel(&self, c: &f32) -> Rgba {
        Rgba::new((c * 255.0) as u8, 0, 0, 255)
    }
    fn nearest_hit(&self, ray: &u32) -> Option<u32> {
        self.hit_tests.set(self.hit_tests.get() + 1);
        Some(*ray)
    }
    fn environment(&self, _ray: &u32) -> f32 {
        self.env_samples.set(self.env_samples.get() + 1);
        1.0
    }
    fn local_shade(&self, _ray: &u32, _hit: &u32) -> f32 {
        0.0
    }
    fn reflected(&self, ray: &u32, _hit: &u32) -> Option<u32> {
        Some(ray + 1)
    }
    fn refracted(&self, _ray: &u32, _hit: &u32) -> Option<u32> {
        None
    }
    fn blend_reflected(&self, _hit: &u32, base: f32, seen: f32) -> f32 {
        base * 0.5 + seen * 0.5
    }
    fn blend_refracted(&self, _hit: &u32, base: f32, _seen: f32) -> f32 {
        base
    }
}

fn mirrors() -> FacingMirrors {
    FacingMirrors { hit_tests: Cell::new(0), env_samples: Cell::new(0) }
}

#[test]
fn facing_mirrors_stop_after_max_depth() {
    let m = mirrors();
    let r = ray_color(&m, &0, 0);
    assert_eq!(r.nested, MAX_DEPTH + 1);
    assert_eq!(m.hit_tests.get(), MAX_DEPTH + 1);
    assert_eq!(m.env_samples.get(), 1);
    assert_eq!(r.calls, MAX_DEPTH + 2);
    assert!((r.color - 0.0625).abs() < 1e-6);
}

#[test]
fn deeper_start_recurses_less() {
    let m = mirrors();
    let r = ray_color(&m, &0, 2);
    assert_eq!(r.nested, 2);
    assert_eq!(m.hit_tests.get(), 2);
}

#[test]
fn past_max_depth_samples_environment_only() {
    let m = mirrors();
    let r = ray_color(&m, &0, MAX_DEPTH + 1);
    assert_eq!(r.color, 1.0);
    assert_eq!(r.nested, 0);
    assert_eq!(r.calls, 1);
    assert_eq!(m.hit_tests.get(), 0);
    assert_eq!(m.env_samples.get(), 1);
}

#[derive(Clone, Copy, PartialEq, Debug)]
enum Surface {
    Mirror,
    Plane,
    Glass,
}

#[derive(Clone, Copy, PartialEq, Debug)]
enum Path {
    Primary,
    Bounced,
    Transmitted,
    Escaping,
}

/// A fully reflective box (reflective weight 1, transmissive 0) in front of
/// a plane lit only by ambient light.
struct MirrorAndPlane {
    ambient: f32,
}

impl Tracer for MirrorAndPlane {
    type Ray = Path;
    type Hit = Surface;
    type Color = f32;

    fn primary_of(&self, x: u32, y: u32, width: u32, height: u32) -> Self::Ray {
        self.primary_ray(x, y, width, height)
    }
    fn pixel_of(&self, color: Self::Color) -> Rgba {
        self.to_pixel(&color)
    }
    fn hit_of(&self, ray: Self::Ray) -> Option<Self::Hit> {
        self.nearest_hit(&ray)
    }
    fn env_of(&self, ray: Self::Ray) -> Self::Color {
        self.environment(&ray)
    }
    fn local_of(&self, ray: Self::Ray, hit: Self::Hit) -> Self::Color {
        self.local_shade(&ray, &hit)
    }
    fn reflected_of(&self, ray: Self::Ray, hit: Self::Hit) -> Option<Self::Ray> {
        self.reflected(&ray, &hit)
    }
    fn refracted_of(&self, ray: Self::Ray, hit: Self::Hit) -> Option<Self::Ray> {
        self.refracted(&ray, &hit)
    }
    fn blend_reflected_of(&self, hit: Self::Hit, base: Self::Color, seen: Self::Color) -> Self::Color {
        self.blend_reflected(&hit, base, seen)
    }
    fn blend_refracted_of(&self, hit: Self::Hit, base: Self::Color, seen: Self::Color) -> Self::Color {
        self.blend_refracted(&hit, base, seen)
    }

    fn primary_ray(&self, _x: u32, _y: u32, _w: u32, _h: u32) -> Path {
        Path::Primary
    }
    fn to_pixel(&self, c: &f32) -> Rgba {
        Rgba::new((c * 255.0) as u8, 0, 0, 255)
    }
    fn nearest_hit(&self, ray: &Path) -> Option<Surface> {
        match ray {
            Path::Primary => Some(Surface::Mirror),
            Path::Bounced => Some(Surface::Plane),
            _ => None,
        }
    }
    fn environment(&self, _ray: &Path) -> f32 {
        0.9
    }
    fn local_shade(&self, _ray: &Path, hit: &Surface) -> f32 {
        match hit {
            Surface::Plane => self.ambient,
            _ => 0.0,
        }
    }
    fn reflected(&self, _ray: &Path, hit: &Surface) -> Option<Path> {
        match hit {
            Surface::Mirror => Some(Path::Bounced),
            _ => None,
        }
    }
    fn refracted(&self, _ray: &Path, _hit: &Surface) -> Option<Path> {
        None
    }
    fn blend_reflected(&self, _hit: &Surface, base: f32, seen: f32) -> f32 {
        base * 0.0 + seen * 1.0
    }
    fn blend_refracted(&self, _hit: &Surface, base: f32, _seen: f32) -> f32 {
        base
    }
}

#[test]
fn full_mirror_shows_the_plane_colour() {
    let s = MirrorAndPlane { ambient: 0.3 };
    let r = ray_color(&s, &Path::Primary, 0);
    assert_eq!(r.color, 0.3);
    assert_eq!(r.nested, 1);
}

#[test]
fn render_writes_every_pixel() {
    let s = MirrorAndPlane { ambient: 0.5 };
    let mut fb = Framebuffer::new(3, 2);
    render(&mut fb, &s);
    for y in 0..2 {
        for x in 0..3 {
            assert_eq!(fb.pixel(x, y), Rgba::new(127, 0, 0, 255));
        }
    }
}

/// Glass that both reflects and transmits: the local term comes first, the
/// reflected colour is blended in next and the transmitted colour last.
struct GlassPane {
    tir: bool,
}

impl Tracer for GlassPane {
    type Ray = Path;
    type Hit = Surface;
    type Color = Vec<&'static str>;

    fn primary_of(&self, x: u32, y: u32, width: u32, height: u32) -> Self::Ray {
        self.primary_ray(x, y, width, height)
    }
    fn pixel_of(&self, color: Self::Color) -> Rgba {
        self.to_pixel(&color)
    }
    fn hit_of(&self, ray: Self::Ray) -> Option<Self::Hit> {
        self.nearest_hit(&ray)
    }
    fn env_of(&self, ray: Self::Ray) -> Self::Color {
        self.environment(&ray)
    }
    fn local_of(&self, ray: Self::Ray, hit: Self::Hit) -> Self::Color {
        self.local_shade(&ray, &hit)
    }
    fn reflected_of(&self, ray: Self::Ray, hit: Self::Hit) -> Option<Self::Ray> {
        self.reflected(&ray, &hit)
    }
    fn refracted_of(&self, ray: Self::Ray, hit: Self::Hit) -> Option<Self::Ray> {
        self.refracted(&ray, &hit)
    }
    fn blend_reflected_of(&self, hit: Self::Hit, base: Self::Color, seen: Self::Color) -> Self::Color {
        self.blend_reflected(&hit, base, seen)
    }
    fn blend_refracted_of(&self, hit: Self::Hit, base: Self::Color, seen: Self::Color) -> Self::Color {
        self.blend_refracted(&hit, base, seen)
    }

    fn primary_ray(&self, _x: u32, _y: u32, _w: u32, _h: u32) -> Path {
        Path::Primary
    }
    fn to_pixel(&self, _c: &Vec<&'static str>) -> Rgba {
        Rgba::black()
    }
    fn nearest_hit(&self, ray: &Path) -> Option<Surface> {
        match ray {
            Path::Primary => Some(Surface::Glass),
            _ => None,
        }
    }
    fn environment(&self, ray: &Path) -> Vec<&'static str> {
        match ray {
            Path::Bounced => vec!["sky-reflected"],
            Path::Transmitted => vec!["sky-transmitted"],
            _ => vec!["sky"],
        }
    }
    fn local_shade(&self, _ray: &Path, _hit: &Surface) -> Vec<&'static str> {
        vec!["local"]
    }
    fn reflected(&self, _ray: &Path, _hit: &Surface) -> Option<Path> {
        Some(Path::Bounced)
    }
    fn refracted(&self, _ray: &Path, _hit: &Surface) -> Option<Path> {
        if self.tir {
            None
        } else {
            Some(Path::Transmitted)
        }
    }
    fn blend_reflected(&self, _hit: &Surface, mut base: Vec<&'static str>, seen: Vec<&'static str>) -> Vec<&'static str> {
        base.extend(seen);
        base
    }
    fn blend_refracted(&self, _hit: &Surface, mut base: Vec<&'static str>, seen: Vec<&'static str>) -> Vec<&'static str> {
        base.extend(seen);
        base
    }
}

#[test]
fn blend_order_is_local_reflected_refracted() {
    let r = ray_color(&GlassPane { tir: false }, &Path::Primary, 0);
    assert_eq!(r.color, vec!["local", "sky-reflected", "sky-transmitted"]);
    assert_eq!(r.nested, 1);
    assert_eq!(r.calls, 3);
}

#[test]
fn miss_samples_environment() {
    let r = ray_color(&GlassPane { tir: false }, &Path::Escaping, 0);
    assert_eq!(r.color, vec!["sky"]);
    assert_eq!(r.nested, 0);
    assert_eq!(r.calls, 1);
}

/// Every ray hits a surface that both reflects and transmits: the call tree
/// is full, and the reflected and refracted colours are summed.
struct HallOfGlass;

impl Tracer for HallOfGlass {
    type Ray = u32;
    type Hit = ();
    type Color = u32;

    fn primary_of(&self, x: u32, y: u32, width: u32, height: u32) -> Self::Ray {
        self.primary_ray(x, y, width, height)
    }
    fn pixel_of(&self, color: Self::Color) -> Rgba {
        self.to_pixel(&color)
    }
    fn hit_of(&self, ray: Self::Ray) -> Option<Self::Hit> {
        self.nearest_hit(&ray)
    }
    fn env_of(&self, ray: Self::Ray) -> Self::Color {
        self.environment(&ray)
    }
    fn local_of(&self, ray: Self::Ray, hit: Self::Hit) -> Self::Color {
        self.local_shade(&ray, &hit)
    }
    fn reflected_of(&self, ray: Self::Ray, hit: Self::Hit) -> Option<Self::Ray> {
        self.reflected(&ray, &hit)
    }
    fn refracted_of(&self, ray: Self::Ray, hit: Self::Hit) -> Option<Self::Ray> {
        self.refracted(&ray, &hit)
    }
    fn blend_reflected_of(&self, hit: Self::Hit, base: Self::Color, seen: Self::Color) -> Self::Color {
        self.blend_reflected(&hit, base, seen)
    }
    fn blend_refracted_of(&self, hit: Self::Hit, base: Self::Color, seen: Self::Color) -> Self::Color {
        self.blend_refracted(&hit, base, seen)
    }

    fn primary_ray(&self, _x: u32, _y: u32, _w: u32, _h: u32) -> u32 {
        0
    }
    fn to_pixel(&self, c: &u32) -> Rgba {
        Rgba::new(*c as u8, 0, 0, 255)
    }
    fn nearest_hit(&self, _ray: &u32) -> Option<()> {
        Some(())
    }
    fn environment(&self, _ray: &u32) -> u32 {
        1
    }
    fn local_shade(&self, _ray: &u32, _hit: &()) -> u32 {
        0
    }
    fn reflected(&self, ray: &u32, _hit: &()) -> Option<u32> {
        Some(ray + 1)
    }
    fn refracted(&self, ray: &u32, _hit: &()) -> Option<u32> {
        Some(ray + 1)
    }
    fn blend_reflected(&self, _hit: &(), base: u32, seen: u32) -> u32 {
        base + seen
    }
    fn blend_refracted(&self, _hit: &(), base: u32, seen: u32) -> u32 {
        base + seen
    }
}

#[test]
fn full_call_tree_is_bounded() {
    let r = ray_color(&HallOfGlass, &0, 0);
    assert_eq!(r.calls, 31);
    assert_eq!(r.nested, MAX_DEPTH + 1);
    // one environment sample per leaf
    assert_eq!(r.color, 16);
}

#[test]
fn total_internal_reflection_adds_nothing() {
    // past the critical angle there is no refracted ray: the colour is the
    // local term and the reflection only, and no call is made for refraction
    let r = ray_color(&GlassPane { tir: true }, &Path::Primary, 0);
    assert_eq!(r.color, vec!["local", "sky-reflected"]);
    assert_eq!(r.calls, 2);
}
