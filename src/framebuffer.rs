use vstd::prelude::*;
use crate::color::{Rgba, black, white};
use crate::integrator::{Tracer, ray_color, traced};

verus! {

/// A row-major RGBA pixel buffer with a background colour (used by `clear`)
/// and a current drawing colour (used by `set_pixel`).
pub struct Framebuffer {
    pub width: u32,
    pub height: u32,
    pub color: Vec<Rgba>,
    pub bg: Rgba,
    pub cur: Rgba,
}

/// The source coordinate that nearest-neighbour scaling from `src` cells to
/// `dst` cells reads for destination coordinate `d`.
pub open spec fn nearest_source(d: int, src: int, dst: int) -> int {
    d * src / dst
}

impl Framebuffer {
    pub open spec fn wf(&self) -> bool {
        self.color@.len() == self.width as int * self.height as int
    }

    /// The pixel at column `x`, row `y`.
    pub open spec fn pixel_at(&self, x: int, y: int) -> Rgba {
        self.color@[y * self.width as int + x]
    }

    /// A `w` by `h` buffer cleared to black, drawing in white.
    pub fn new(w: u32, h: u32) -> (fb: Framebuffer)
        requires
            w as int * h as int <= usize::MAX,
        ensures
            fb.wf(),
            fb.width == w,
            fb.height == h,
            fb.bg == black(),
            fb.cur == white(),
            forall|i: int| 0 <= i < fb.color@.len() ==> fb.color@[i] == black(),
    {
        let bg = Rgba::black();
        let n: usize = (w as usize) * (h as usize);
        Framebuffer { width: w, height: h, color: filled(bg, n), bg, cur: Rgba::white() }
    }

    /// Fills every pixel with the background colour.
    pub fn clear(&mut self)
        requires
            old(self).wf(),
        ensures
            final(self).wf(),
            final(self).width == old(self).width,
            final(self).height == old(self).height,
            final(self).bg == old(self).bg,
            final(self).cur == old(self).cur,
            forall|i: int| 0 <= i < final(self).color@.len() ==> final(self).color@[i] == old(self).bg,
    {
        let n = self.color.len();
        self.color = filled(self.bg, n);
    }

    /// The colour that `set_pixel` draws with.
    pub fn current_color(&self) -> (c: Rgba)
        ensures
            c == self.cur,
    {
        self.cur
    }

    /// The colour that `clear` fills with.
    pub fn background_color(&self) -> (c: Rgba)
        ensures
            c == self.bg,
    {
        self.bg
    }

    pub fn set_current_color(&mut self, c: Rgba)
        ensures
            final(self).cur == c,
            final(self).bg == old(self).bg,
            final(self).width == old(self).width,
            final(self).height == old(self).height,
            final(self).color@ == old(self).color@,
    {
        self.cur = c;
    }

    pub fn set_background_color(&mut self, c: Rgba)
        ensures
            final(self).bg == c,
            final(self).cur == old(self).cur,
            final(self).width == old(self).width,
            final(self).height == old(self).height,
            final(self).color@ == old(self).color@,
    {
        self.bg = c;
    }

    /// Paints pixel `(x, y)` in the current colour; coordinates outside the
    /// buffer leave it unchanged.
    pub fn set_pixel(&mut self, x: u32, y: u32)
        requires
            old(self).wf(),
        ensures
            final(self).wf(),
            final(self).width == old(self).width,
            final(self).height == old(self).height,
            final(self).bg == old(self).bg,
            final(self).cur == old(self).cur,
            final(self).color@ == (if x < old(self).width && y < old(self).height {
                old(self).color@.update(y as int * old(self).width as int + x as int, old(self).cur)
            } else {
                old(self).color@
            }),
    {
        if x < self.width && y < self.height {
            let idx = flat_index(x, y, self.width, self.height, self.color.len());
            let c = self.cur;
            self.color.set(idx, c);
        }
    }

    /// The pixel at column `x`, row `y`.
    pub fn pixel(&self, x: u32, y: u32) -> (c: Rgba)
        requires
            self.wf(),
            x < self.width,
            y < self.height,
        ensures
            c == self.pixel_at(x as int, y as int),
    {
        let idx = flat_index(x, y, self.width, self.height, self.color.len());
        self.color[idx]
    }

    /// This buffer scaled to `out_w` by `out_h` pixels by nearest neighbour:
    /// output pixel `(x, y)` copies pixel `(x * width / out_w, y * height / out_h)`.
    pub fn upscale_nearest(&self, out_w: u32, out_h: u32) -> (r: Framebuffer)
        requires
            self.wf(),
            self.width > 0,
            self.height > 0,
            out_w as int * out_h as int <= usize::MAX,
        ensures
            r.wf(),
            r.width == out_w,
            r.height == out_h,
            r.bg == self.bg,
            r.cur == self.cur,
            forall|x: int, y: int|
                0 <= x < out_w && 0 <= y < out_h ==> #[trigger] r.pixel_at(x, y) == self.pixel_at(
                    nearest_source(x, self.width as int, out_w as int),
                    nearest_source(y, self.height as int, out_h as int),
                ),
    {
        let n: usize = (out_w as usize) * (out_h as usize);
        let mut out: Vec<Rgba> = Vec::with_capacity(n);
        let mut k: usize = 0;
        while k < n
            invariant
                self.wf(),
                self.width > 0,
                self.height > 0,
                n == out_w as int * out_h as int,
                k <= n,
                out@.len() == k,
                forall|j: int|
                    0 <= j < k ==> #[trigger] out@[j] == self.pixel_at(
                        nearest_source(j % out_w as int, self.width as int, out_w as int),
                        nearest_source(j / out_w as int, self.height as int, out_h as int),
                    ),
            decreases n - k,
        {
            proof {
                assert(out_w > 0 && (k as int) / (out_w as int) < out_h as int) by (nonlinear_arith)
                    requires
                        0 <= k < out_w as int * out_h as int,
                ;
            }
            let ox: u32 = (k % (out_w as usize)) as u32;
            let oy: u32 = (k / (out_w as usize)) as u32;
            let sx = scale_coord(ox, self.width, out_w);
            let sy = scale_coord(oy, self.height, out_h);
            let c = self.pixel(sx, sy);
            out.push(c);
            k = k + 1;
        }
        let r = Framebuffer { width: out_w, height: out_h, color: out, bg: self.bg, cur: self.cur };
        assert forall|x: int, y: int| 0 <= x < out_w && 0 <= y < out_h implies #[trigger] r.pixel_at(
            x,
            y,
        ) == self.pixel_at(
            nearest_source(x, self.width as int, out_w as int),
            nearest_source(y, self.height as int, out_h as int),
        ) by {
            let j = y * out_w as int + x;
            vstd::arithmetic::div_mod::lemma_fundamental_div_mod_converse(j, out_w as int, y, x);
            assert(j < out_w as int * out_h as int) by (nonlinear_arith)
                requires
                    0 <= x < out_w,
                    0 <= y < out_h,
                    j == y * out_w + x,
            ;
            assert(out@[j] == r.color@[j]);
        }
        r
    }
}

/// The pixel value that `render` writes at `(x, y)` of a `w` by `h` frame:
/// the colour traced from depth 0 along the primary ray through it.
pub open spec fn rendered_pixel<T: Tracer>(t: &T, x: int, y: int, w: u32, h: u32) -> Rgba {
    t.pixel_of(traced(t, t.primary_of(x as u32, y as u32, w, h), 0))
}

proof fn lemma_flat_index_injective(x1: int, y1: int, x2: int, y2: int, w: int)
    requires
        0 <= x1 < w,
        0 <= x2 < w,
        0 <= y1,
        0 <= y2,
        y1 * w + x1 == y2 * w + x2,
    ensures
        x1 == x2,
        y1 == y2,
{
    vstd::arithmetic::div_mod::lemma_fundamental_div_mod_converse(y1 * w + x1, w, y1, x1);
    vstd::arithmetic::div_mod::lemma_fundamental_div_mod_converse(y2 * w + x2, w, y2, x2);
}

/// Renders a whole frame: every pixel `(x, y)` of `fb` receives the colour
/// traced along the primary ray through it. Pixels do not depend on one
/// another.
pub fn render<T: Tracer>(fb: &mut Framebuffer, tracer: &T)
    requires
        old(fb).wf(),
    ensures
        final(fb).wf(),
        final(fb).width == old(fb).width,
        final(fb).height == old(fb).height,
        final(fb).bg == old(fb).bg,
        forall|x: int, y: int|
            0 <= x < old(fb).width && 0 <= y < old(fb).height ==> #[trigger] final(fb).pixel_at(x, y)
                == rendered_pixel(tracer, x, y, old(fb).width, old(fb).height),
{
    let w = fb.width;
    let h = fb.height;
    let mut y: u32 = 0;
    while y < h
        invariant
            fb.wf(),
            fb.width == w,
            fb.height == h,
            y <= h,
            fb.bg == old(fb).bg,
            forall|px: int, py: int|
                0 <= px < w && 0 <= py < y ==> #[trigger] fb.pixel_at(px, py) == rendered_pixel(
                    tracer,
                    px,
                    py,
                    w,
                    h,
                ),
        decreases h - y,
    {
        let mut x: u32 = 0;
        while x < w
            invariant
                fb.wf(),
                fb.width == w,
                fb.height == h,
                y < h,
                x <= w,
                fb.bg == old(fb).bg,
                forall|px: int, py: int|
                    0 <= px < w && 0 <= py < h && (py < y || (py == y && px < x))
                        ==> #[trigger] fb.pixel_at(px, py) == rendered_pixel(tracer, px, py, w, h),
            decreases w - x,
        {
            let ray = tracer.primary_ray(x, y, w, h);
            let traced_ray = ray_color(tracer, &ray, 0);
            let c = tracer.to_pixel(&traced_ray.color);
            let ghost before = fb.color@;
            let ghost fb0 = *fb;
            fb.set_current_color(c);
            fb.set_pixel(x, y);
            assert forall|px: int, py: int|
                0 <= px < w && 0 <= py < h && (py < y || (py == y && px < x + 1))
                    implies #[trigger] fb.pixel_at(px, py) == rendered_pixel(tracer, px, py, w, h) by {
                assert(0 <= py * (w as int) + px < (w as int) * (h as int)) by (nonlinear_arith)
                    requires
                        0 <= px < w,
                        0 <= py < h,
                ;
                assert(0 <= (y as int) * (w as int) + (x as int) < (w as int) * (h as int)) by (nonlinear_arith)
                    requires
                        x < w,
                        y < h,
                ;
                if px == x && py == y {
                    assert(fb.pixel_at(px, py) == c);
                    assert(px as u32 == x && py as u32 == y);
                } else {
                    if py * (w as int) + px == (y as int) * (w as int) + (x as int) {
                        lemma_flat_index_injective(px, py, x as int, y as int, w as int);
                    }
                    assert(fb.color@[py * (w as int) + px] == before[py * (w as int) + px]);
                    assert(fb0.pixel_at(px, py) == rendered_pixel(tracer, px, py, w, h));
                }
            }
            x = x + 1;
        }
        y = y + 1;
    }
}

/// A vector of `n` copies of `c`.
fn filled(c: Rgba, n: usize) -> (v: Vec<Rgba>)
    ensures
        v@.len() == n,
        forall|i: int| 0 <= i < n ==> v@[i] == c,
{
    let mut v: Vec<Rgba> = Vec::with_capacity(n);
    let mut i: usize = 0;
    while i < n
        invariant
            i <= n,
            v@.len() == i,
            forall|j: int| 0 <= j < i ==> v@[j] == c,
        decreases n - i,
    {
        v.push(c);
        i = i + 1;
    }
    v
}

fn flat_index(x: u32, y: u32, w: u32, h: u32, len: usize) -> (i: usize)
    requires
        x < w,
        y < h,
        len == w as int * h as int,
    ensures
        i as int == y as int * w as int + x as int,
        i < len,
{
    assert((y as int) * (w as int) + (x as int) < (w as int) * (h as int)) by (nonlinear_arith)
        requires
            x < w,
            y < h,
    ;
    (y as usize) * (w as usize) + (x as usize)
}

/// `d * src / dst`, the nearest-neighbour source coordinate.
fn scale_coord(d: u32, src: u32, dst: u32) -> (s: u32)
    requires
        d < dst,
        src > 0,
    ensures
        s as int == nearest_source(d as int, src as int, dst as int),
        s < src,
{
    assert((d as int) * (src as int) / (dst as int) < src as int) by (nonlinear_arith)
        requires
            d < dst,
            src > 0,
    ;
    assert((d as int) * (src as int) < 0x1_0000_0000_0000_0000) by (nonlinear_arith)
        requires
            d < 0x1_0000_0000,
            src < 0x1_0000_0000,
    ;
    ((d as u64) * (src as u64) / (dst as u64)) as u32
}

} // verus!
