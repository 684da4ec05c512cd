use raytracer::color::{Rgba, HALF, UNIT};
use raytracer::texture::TextureCPU;

/// A texture whose texel at `(x, y)` is coloured `(x, y, 0)`.
fn coords_texture(w: i32, h: i32) -> TextureCPU {
    let mut data = Vec::new();
    for y in 0..h {
        for x in 0..w {
            data.push(Rgba::new(x as u8, y as u8, 0, 255));
        }
    }
    TextureCPU::from_pixels(w, h, data).unwrap()
}

#[test]
fn from_pixels_checks_size() {
    assert!(TextureCPU::from_pixels(2, 2, vec![Rgba::black(); 3]).is_none());
    assert!(TextureCPU::from_pixels(0, 2, vec![]).is_none());
    assert!(TextureCPU::from_pixels(-1, -1, vec![Rgba::black()]).is_none());
    let t = TextureCPU::from_pixels(2, 1, vec![Rgba::black(), Rgba::white()]).unwrap();
    assert_eq!(t.texel(1, 0), Rgba::white());
}

#[test]
fn repeat_sampling_picks_nearest_texel() {
    let t = coords_texture(4, 4);
    // u = 0.3 -> column 1; v = 0.3 -> row floor(0.7 * 4) = 2
    let u = (0.3 * UNIT as f64) as i64;
    assert_eq!(t.sample_repeat(u, u), Rgba::new(1, 2, 0, 255));
    // the top of the texture (v just under 1) is row 0
    assert_eq!(t.sample_repeat(0, UNIT - 1), Rgba::new(0, 0, 0, 255));
    // v = 0 is the bottom row
    assert_eq!(t.sample_repeat(0, 0), Rgba::new(0, 3, 0, 255));
}

#[test]
fn repeat_sampling_wraps() {
    let t = coords_texture(4, 4);
    assert_eq!(t.sample_repeat(UNIT, HALF), t.sample_repeat(0, HALF));
    assert_eq!(t.sample_repeat(3 * UNIT + HALF, HALF), t.sample_repeat(HALF, HALF));
    // -0.25 wraps to 0.75, column 3
    assert_eq!(t.sample_repeat(-UNIT / 4, HALF), Rgba::new(3, 2, 0, 255));
}

#[test]
fn clamp_sampling_sticks_to_border() {
    let t = coords_texture(4, 4);
    assert_eq!(t.sample_clamp(UNIT, UNIT), Rgba::new(3, 0, 0, 255));
    assert_eq!(t.sample_clamp(5 * UNIT, -UNIT), Rgba::new(3, 3, 0, 255));
    assert_eq!(t.sample_clamp(-7, 2 * UNIT), Rgba::new(0, 0, 0, 255));
}
