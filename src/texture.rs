use vstd::prelude::*;
use crate::color::{Rgba, UNIT, clamp_int};

verus! {

/// A decoded image held row-major in memory, sampled by nearest neighbour.
pub struct TextureCPU {
    pub w: i32,
    pub h: i32,
    pub data: Vec<Rgba>,
}

/// The fractional part of a fixed-point coordinate, in `[0, UNIT)`.
pub open spec fn wrap_unit(u: int) -> int {
    u % (UNIT as int)
}

/// Column of a coordinate in `[0, UNIT]` on a row of `n` texels: the texel
/// that holds it, with the right edge itself mapped to the last texel.
pub open spec fn cell_of(u: int, n: int) -> int {
    clamp_int(u * n / (UNIT as int), 0, n - 1)
}

impl TextureCPU {
    pub open spec fn wf(&self) -> bool {
        &&& self.w > 0
        &&& self.h > 0
        &&& self.data@.len() == self.w as int * self.h as int
    }

    /// The texel at column `x`, row `y`.
    pub open spec fn texel_at(&self, x: int, y: int) -> Rgba {
        self.data@[y * self.w as int + x]
    }

    /// The texel that repeat addressing picks for `(u, v)`: both coordinates
    /// are wrapped into `[0, 1)` and `v` runs from the bottom row upwards.
    pub open spec fn repeat_texel(&self, u: int, v: int) -> Rgba {
        self.texel_at(
            cell_of(wrap_unit(u), self.w as int),
            cell_of(UNIT - wrap_unit(v), self.h as int),
        )
    }

    /// The texel that clamp addressing picks for `(u, v)`: both coordinates
    /// are clamped into `[0, 1]` and `v` runs from the bottom row upwards.
    pub open spec fn clamp_texel(&self, u: int, v: int) -> Rgba {
        self.texel_at(
            cell_of(clamp_int(u, 0, UNIT as int), self.w as int),
            cell_of(UNIT - clamp_int(v, 0, UNIT as int), self.h as int),
        )
    }

    /// A texture of `w` by `h` texels from row-major `data`; `None` when the
    /// size is not positive or does not match the number of texels.
    pub fn from_pixels(w: i32, h: i32, data: Vec<Rgba>) -> (r: Option<TextureCPU>)
        ensures
            r is Some <==> (w > 0 && h > 0 && data@.len() == w as int * h as int),
            r matches Some(t) ==> t.wf() && t.w == w && t.h == h && t.data@ == data@,
    {
        if w <= 0 || h <= 0 {
            return None;
        }
        assert((w as int) * (h as int) < 0x1_0000_0000_0000_0000) by (nonlinear_arith)
            requires
                0 < w < 0x8000_0000,
                0 < h < 0x8000_0000,
        ;
        let n: u64 = w as u64 * h as u64;
        if data.len() as u64 != n {
            return None;
        }
        Some(TextureCPU { w, h, data })
    }

    /// The texel at column `x`, row `y`.
    pub fn texel(&self, x: i32, y: i32) -> (c: Rgba)
        requires
            self.wf(),
            0 <= x < self.w,
            0 <= y < self.h,
        ensures
            c == self.texel_at(x as int, y as int),
    {
        let idx: usize = index_of(x, y, self.w, self.h, self.data.len());
        self.data[idx]
    }

    /// Nearest-neighbour sample with repeat (tiling) addressing. The
    /// coordinates are fixed-point, `UNIT` standing for one texture width.
    pub fn sample_repeat(&self, u: i64, v: i64) -> (c: Rgba)
        requires
            self.wf(),
        ensures
            c == self.repeat_texel(u as int, v as int),
    {
        let fu = wrap_fixed(u);
        let fv = wrap_fixed(v);
        let x = cell(fu, self.w);
        let y = cell(UNIT - fv, self.h);
        self.texel(x, y)
    }

    /// Nearest-neighbour sample with clamp addressing: coordinates outside
    /// `[0, UNIT]` stick to the border texels.
    pub fn sample_clamp(&self, u: i64, v: i64) -> (c: Rgba)
        requires
            self.wf(),
        ensures
            c == self.clamp_texel(u as int, v as int),
    {
        let cu = clamp_fixed(u);
        let cv = clamp_fixed(v);
        let x = cell(cu, self.w);
        let y = cell(UNIT - cv, self.h);
        self.texel(x, y)
    }
}

/// Row-major index of texel `(x, y)` in a `w`-wide image.
fn index_of(x: i32, y: i32, w: i32, h: i32, len: usize) -> (i: usize)
    requires
        0 <= x < w,
        0 <= y < h,
        len == w as int * h as int,
    ensures
        i as int == y as int * w as int + x as int,
        i < w as int * h as int,
{
    assert(0 <= (y as int) * (w as int) + (x as int) < (w as int) * (h as int)) by (nonlinear_arith)
        requires
            0 <= x < w,
            0 <= y < h,
    ;
    (y as usize) * (w as usize) + (x as usize)
}

fn wrap_fixed(u: i64) -> (r: i64)
    ensures
        r as int == wrap_unit(u as int),
        0 <= r < UNIT,
{
    let m = u % UNIT;
    if m < 0 {
        m + UNIT
    } else {
        m
    }
}

fn clamp_fixed(u: i64) -> (r: i64)
    ensures
        r as int == clamp_int(u as int, 0, UNIT as int),
{
    if u < 0 {
        0
    } else if u > UNIT {
        UNIT
    } else {
        u
    }
}

fn cell(u: i64, n: i32) -> (r: i32)
    requires
        0 <= u <= UNIT,
        n > 0,
    ensures
        r as int == cell_of(u as int, n as int),
        0 <= r < n,
{
    assert(0 <= (u as int) * (n as int) / 65536 <= n as int) by (nonlinear_arith)
        requires
            0 <= u <= 65536,
            n > 0,
    ;
    let c: i64 = u * (n as i64) / UNIT;
    if c >= n as i64 {
        n - 1
    } else {
        c as i32
    }
}

} // verus!
