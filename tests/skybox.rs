use raytracer::color::{Rgba, HALF, UNIT};
use raytracer::skybox::{cubemap_face_uv, CubeFace, Skybox};
use raytracer::texture::TextureCPU;

/// A 4x4 face whose texel at `(x, y)` is coloured `(id, x, y)`.
fn face(id: u8) -> TextureCPU {
    let mut data = Vec::new();
    for y in 0..4u8 {
        for x in 0..4u8 {
            data.push(Rgba::new(id, x, y, 255));
        }
    }
    TextureCPU::from_pixels(4, 4, data).unwrap()
}

fn sky() -> Skybox {
    Skybox::new(face(0), face(1), face(2), face(3), face(4), face(5))
}

#[test]
fn axis_directions_hit_face_centres() {
    assert_eq!(cubemap_face_uv(UNIT, 0, 0), (CubeFace::PosX, HALF, HALF));
    assert_eq!(cubemap_face_uv(-UNIT, 0, 0), (CubeFace::NegX, HALF, HALF));
    assert_eq!(cubemap_face_uv(0, UNIT, 0), (CubeFace::PosY, HALF, HALF));
    assert_eq!(cubemap_face_uv(0, -UNIT, 0), (CubeFace::NegY, HALF, HALF));
    assert_eq!(cubemap_face_uv(0, 0, UNIT), (CubeFace::PosZ, HALF, HALF));
    assert_eq!(cubemap_face_uv(0, 0, -UNIT), (CubeFace::NegZ, HALF, HALF));
}

#[test]
fn face_coordinates_follow_the_other_components() {
    // +X: u = 0.5 - z / 2x, v = 0.5 - y / 2x
    assert_eq!(cubemap_face_uv(1000, 500, -250), (CubeFace::PosX, HALF + 8192, HALF - 16384));
    // -Z: u = 0.5 - x / 2|z|
    assert_eq!(cubemap_face_uv(100, 0, -200), (CubeFace::NegZ, HALF - 16384, HALF));
    // ties go to X, then Y
    assert_eq!(cubemap_face_uv(7, 7, 7).0, CubeFace::PosX);
    assert_eq!(cubemap_face_uv(1, -7, 7).0, CubeFace::NegY);
}

#[test]
fn zero_direction_falls_back_to_a_face_centre() {
    assert_eq!(cubemap_face_uv(0, 0, 0), (CubeFace::NegX, HALF, HALF));
}

#[test]
fn samples_pick_face_and_texel() {
    let s = sky();
    assert_eq!(s.sample(UNIT, 0, 0), Rgba::new(1, 2, 2, 255));
    assert_eq!(s.sample(0, 0, -UNIT), Rgba::new(4, 2, 2, 255));
    assert_eq!(s.sample(0, -UNIT, 0), Rgba::new(2, 2, 2, 255));
}

#[test]
fn seam_neighbours_are_adjacent_texels() {
    let s = sky();
    // just on the +X side of the +X/+Y edge: bottom row of +X
    let a = s.sample(UNIT, UNIT - 1, 0);
    // just on the +Y side: last column of +Y
    let b = s.sample(UNIT - 1, UNIT, 0);
    assert_eq!(a, Rgba::new(1, 2, 3, 255));
    assert_eq!(b, Rgba::new(3, 3, 2, 255));
    // the texel along the edge matches: column of +X equals row of +Y
    assert_eq!(a.g, b.b);
}
