use vstd::prelude::*;
use crate::color::{Rgba, UNIT, HALF};
use crate::texture::TextureCPU;

verus! {

/// Largest magnitude accepted for a fixed-point direction component.
pub const DIR_LIMIT: i64 = 0x100_0000_0000;

/// One face of a cube map, named by the axis direction it faces.
#[derive(Clone, Copy, Debug, PartialEq, Eq, Structural)]
pub enum CubeFace {
    NegX,
    PosX,
    NegY,
    PosY,
    NegZ,
    PosZ,
}

pub open spec fn abs_int(a: int) -> int {
    if a < 0 {
        -a
    } else {
        a
    }
}

/// `a / m` in fixed point (`HALF` standing for 1), rounded toward zero;
/// zero when `m` is zero.
pub open spec fn scaled(a: int, m: int) -> int {
    if m == 0 {
        0
    } else if a >= 0 {
        a * HALF / m
    } else {
        -((-a) * HALF / m)
    }
}

/// The face whose axis carries the largest absolute component; ties go to
/// X before Y before Z, and a zero component counts as negative.
pub open spec fn dominant_face(x: int, y: int, z: int) -> CubeFace {
    let (ax, ay, az) = (abs_int(x), abs_int(y), abs_int(z));
    if ax >= ay && ax >= az {
        if x > 0 { CubeFace::PosX } else { CubeFace::NegX }
    } else if ay >= ax && ay >= az {
        if y > 0 { CubeFace::PosY } else { CubeFace::NegY }
    } else {
        if z > 0 { CubeFace::PosZ } else { CubeFace::NegZ }
    }
}

/// The component of `(x, y, z)` along the axis of `face`.
pub open spec fn axis_component(face: CubeFace, x: int, y: int, z: int) -> int {
    match face {
        CubeFace::NegX | CubeFace::PosX => x,
        CubeFace::NegY | CubeFace::PosY => y,
        CubeFace::NegZ | CubeFace::PosZ => z,
    }
}

/// Face-local `(u, v)` in `[0, UNIT]` of the direction `(x, y, z)` projected
/// onto `face`: the two other components divided by the magnitude of the
/// face's own component, remapped from `[-1, 1]` to `[0, 1]`.
pub open spec fn project(face: CubeFace, x: int, y: int, z: int) -> (int, int) {
    let m = abs_int(axis_component(face, x, y, z));
    match face {
        CubeFace::PosX => (HALF - scaled(z, m), HALF - scaled(y, m)),
        CubeFace::NegX => (HALF + scaled(z, m), HALF - scaled(y, m)),
        CubeFace::PosY => (HALF + scaled(x, m), HALF + scaled(z, m)),
        CubeFace::NegY => (HALF + scaled(x, m), HALF - scaled(z, m)),
        CubeFace::PosZ => (HALF + scaled(x, m), HALF - scaled(y, m)),
        CubeFace::NegZ => (HALF - scaled(x, m), HALF - scaled(y, m)),
    }
}

/// The point of the cube `[-HALF, HALF]^3` that face-local `(u, v)` on
/// `face` stands for.
pub open spec fn face_point(face: CubeFace, u: int, v: int) -> (int, int, int) {
    match face {
        CubeFace::PosX => (HALF as int, HALF - v, HALF - u),
        CubeFace::NegX => (-HALF, HALF - v, u - HALF),
        CubeFace::PosY => (u - HALF, HALF as int, v - HALF),
        CubeFace::NegY => (u - HALF, -HALF, HALF - v),
        CubeFace::PosZ => (u - HALF, HALF - v, HALF as int),
        CubeFace::NegZ => (HALF - u, HALF - v, -HALF),
    }
}

/// `face` faces `(x, y, z)`: its axis component is nonzero, has the face's
/// sign, and is at least as large in magnitude as the other two.
pub open spec fn faces(face: CubeFace, x: int, y: int, z: int) -> bool {
    let c = axis_component(face, x, y, z);
    let m = abs_int(c);
    &&& c != 0
    &&& (c > 0 <==> (face == CubeFace::PosX || face == CubeFace::PosY || face == CubeFace::PosZ))
    &&& abs_int(x) <= m
    &&& abs_int(y) <= m
    &&& abs_int(z) <= m
}

/// The cube face and face-local coordinates that a direction samples.
pub open spec fn face_uv(x: int, y: int, z: int) -> (CubeFace, int, int) {
    let f = dominant_face(x, y, z);
    let (u, v) = project(f, x, y, z);
    (f, u, v)
}

/// Every component of the direction lies within `DIR_LIMIT`.
pub open spec fn direction_in_range(x: int, y: int, z: int) -> bool {
    &&& -DIR_LIMIT <= x <= DIR_LIMIT
    &&& -DIR_LIMIT <= y <= DIR_LIMIT
    &&& -DIR_LIMIT <= z <= DIR_LIMIT
}

proof fn lemma_scaled_self(m: int)
    requires
        m > 0,
    ensures
        scaled(m, m) == HALF,
        scaled(-m, m) == -HALF,
{
    assert(m * HALF / m == HALF as int) by (nonlinear_arith)
        requires
            m > 0,
    ;
}

proof fn lemma_scaled_range(a: int, m: int)
    requires
        abs_int(a) <= m,
    ensures
        -HALF <= scaled(a, m) <= HALF,
{
    if m > 0 {
        let b = abs_int(a);
        assert(0 <= b * HALF / m <= HALF as int) by (nonlinear_arith)
            requires
                0 <= b <= m,
                m > 0,
        ;
    }
}

/// Projecting a direction onto any face that faces it lands on the same
/// point of the cube: the direction scaled so that its largest component
/// has magnitude `HALF`.
pub proof fn lemma_face_point_of_projection(face: CubeFace, x: int, y: int, z: int)
    requires
        faces(face, x, y, z),
    ensures
        ({
            let (u, v) = project(face, x, y, z);
            let m = abs_int(axis_component(face, x, y, z));
            face_point(face, u, v) == (scaled(x, m), scaled(y, m), scaled(z, m))
        }),
{
    lemma_scaled_self(abs_int(axis_component(face, x, y, z)));
}

/// Sampling is continuous across cube seams: where two faces both face a
/// direction (it lies on their shared edge, or corner), the coordinates
/// that either face gives stand for the same point of the cube.
pub proof fn lemma_seam_continuity(a: CubeFace, b: CubeFace, x: int, y: int, z: int)
    requires
        faces(a, x, y, z),
        faces(b, x, y, z),
    ensures
        ({
            let (ua, va) = project(a, x, y, z);
            let (ub, vb) = project(b, x, y, z);
            face_point(a, ua, va) == face_point(b, ub, vb)
        }),
{
    lemma_face_point_of_projection(a, x, y, z);
    lemma_face_point_of_projection(b, x, y, z);
    let ma = abs_int(axis_component(a, x, y, z));
    let mb = abs_int(axis_component(b, x, y, z));
    assert(ma == mb);
}

/// The face chosen for a nonzero direction faces it, and its face-local
/// coordinates lie in `[0, UNIT]`.
pub proof fn lemma_dominant_face_faces(x: int, y: int, z: int)
    requires
        x != 0 || y != 0 || z != 0,
    ensures
        faces(dominant_face(x, y, z), x, y, z),
        0 <= face_uv(x, y, z).1 <= UNIT,
        0 <= face_uv(x, y, z).2 <= UNIT,
{
    let f = dominant_face(x, y, z);
    let m = abs_int(axis_component(f, x, y, z));
    lemma_scaled_range(x, m);
    lemma_scaled_range(y, m);
    lemma_scaled_range(z, m);
}

fn abs_i64(a: i64) -> (r: i64)
    requires
        -DIR_LIMIT <= a <= DIR_LIMIT,
    ensures
        r as int == abs_int(a as int),
{
    if a < 0 {
        -a
    } else {
        a
    }
}

fn scaled_exec(a: i64, m: i64) -> (r: i64)
    requires
        -DIR_LIMIT <= a <= DIR_LIMIT,
        0 <= m <= DIR_LIMIT,
    ensures
        r as int == scaled(a as int, m as int),
{
    if m == 0 {
        return 0;
    }
    let b = abs_i64(a);
    assert(0 <= (b as int) * 32768 <= 0x100_0000_0000 * 32768) by (nonlinear_arith)
        requires
            0 <= b <= 0x100_0000_0000,
    ;
    assert(0 <= (b as int) * 32768 / (m as int) <= (b as int) * 32768) by (nonlinear_arith)
        requires
            0 <= b,
            m > 0,
    ;
    let q = b * HALF / m;
    if a >= 0 {
        q
    } else {
        -q
    }
}

/// The cube face and fixed-point face-local `(u, v)` that the direction
/// `(x, y, z)` samples. The zero direction falls back to the centre of the
/// `NegX` face.
pub fn cubemap_face_uv(x: i64, y: i64, z: i64) -> (r: (CubeFace, i64, i64))
    requires
        direction_in_range(x as int, y as int, z as int),
    ensures
        (r.0, r.1 as int, r.2 as int) == face_uv(x as int, y as int, z as int),
        0 <= r.1 <= UNIT,
        0 <= r.2 <= UNIT,
{
    let ax = abs_i64(x);
    let ay = abs_i64(y);
    let az = abs_i64(z);
    proof {
        if x != 0 || y != 0 || z != 0 {
            lemma_dominant_face_faces(x as int, y as int, z as int);
        }
    }
    if ax >= ay && ax >= az {
        if x > 0 {
            (CubeFace::PosX, HALF - scaled_exec(z, ax), HALF - scaled_exec(y, ax))
        } else {
            (CubeFace::NegX, HALF + scaled_exec(z, ax), HALF - scaled_exec(y, ax))
        }
    } else if ay >= ax && ay >= az {
        if y > 0 {
            (CubeFace::PosY, HALF + scaled_exec(x, ay), HALF + scaled_exec(z, ay))
        } else {
            (CubeFace::NegY, HALF + scaled_exec(x, ay), HALF - scaled_exec(z, ay))
        }
    } else {
        if z > 0 {
            (CubeFace::PosZ, HALF + scaled_exec(x, az), HALF - scaled_exec(y, az))
        } else {
            (CubeFace::NegZ, HALF - scaled_exec(x, az), HALF - scaled_exec(y, az))
        }
    }
}

/// Six square images forming an environment cube.
pub struct Skybox {
    pub nx: TextureCPU,
    pub px: TextureCPU,
    pub ny: TextureCPU,
    pub py: TextureCPU,
    pub nz: TextureCPU,
    pub pz: TextureCPU,
}

impl Skybox {
    pub open spec fn wf(&self) -> bool {
        &&& self.nx.wf()
        &&& self.px.wf()
        &&& self.ny.wf()
        &&& self.py.wf()
        &&& self.nz.wf()
        &&& self.pz.wf()
    }

    /// The image of `face`.
    pub open spec fn face(&self, face: CubeFace) -> TextureCPU {
        match face {
            CubeFace::NegX => self.nx,
            CubeFace::PosX => self.px,
            CubeFace::NegY => self.ny,
            CubeFace::PosY => self.py,
            CubeFace::NegZ => self.nz,
            CubeFace::PosZ => self.pz,
        }
    }

    /// The colour the cube shows in direction `(x, y, z)`.
    pub open spec fn color_toward(&self, x: int, y: int, z: int) -> Rgba {
        let (f, u, v) = face_uv(x, y, z);
        self.face(f).clamp_texel(u, v)
    }

    pub fn new(
        nx: TextureCPU,
        px: TextureCPU,
        ny: TextureCPU,
        py: TextureCPU,
        nz: TextureCPU,
        pz: TextureCPU,
    ) -> (s: Skybox)
        ensures
            s == (Skybox { nx, px, ny, py, nz, pz }),
    {
        Skybox { nx, px, ny, py, nz, pz }
    }

    /// Samples the cube in the fixed-point direction `(x, y, z)`, by nearest
    /// neighbour on the face that the direction points at most.
    pub fn sample(&self, x: i64, y: i64, z: i64) -> (c: Rgba)
        requires
            self.wf(),
            direction_in_range(x as int, y as int, z as int),
        ensures
            c == self.color_toward(x as int, y as int, z as int),
    {
        let (face, u, v) = cubemap_face_uv(x, y, z);
        match face {
            CubeFace::NegX => self.nx.sample_clamp(u, v),
            CubeFace::PosX => self.px.sample_clamp(u, v),
            CubeFace::NegY => self.ny.sample_clamp(u, v),
            CubeFace::PosY => self.py.sample_clamp(u, v),
            CubeFace::NegZ => self.nz.sample_clamp(u, v),
            CubeFace::PosZ => self.pz.sample_clamp(u, v),
        }
    }
}

} // verus!
