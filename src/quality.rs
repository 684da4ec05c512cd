use vstd::prelude::*;

verus! {

/// The render scale of full resolution, in thousandths.
pub const SCALE_ONE: u32 = 1000;

/// Closed-loop control of the internal render resolution. Frame times are
/// folded into an exponentially weighted moving average (weight 1/10 for the
/// newest frame); while that average is over the budget the scale shrinks by
/// about 5% per frame, while it is under the budget it grows by about 5%, and
/// it always stays within `[min_scale, max_scale]`.
pub struct QualityController {
    /// Current render scale, in thousandths of full resolution.
    pub scale: u32,
    pub min_scale: u32,
    pub max_scale: u32,
    /// Frame-time budget, in microseconds.
    pub target_us: u64,
    /// Moving average of the frame time, in microseconds.
    pub avg_us: u64,
}

/// The moving average after folding in one frame time: a tenth of the way
/// from `avg` toward `frame`, rounded toward `avg`.
pub open spec fn fold_average(avg: int, frame: int) -> int {
    if frame >= avg {
        avg + (frame - avg) / 10
    } else {
        avg - (avg - frame) / 10
    }
}

/// The multiplicative step applied to `scale`: a twentieth of it, and at
/// least one.
pub open spec fn scale_step(scale: int) -> int {
    if scale / 20 >= 1 {
        scale / 20
    } else {
        1
    }
}

pub open spec fn clamp_scale(s: int, lo: int, hi: int) -> int {
    if s < lo {
        lo
    } else if s > hi {
        hi
    } else {
        s
    }
}

impl QualityController {
    pub open spec fn wf(&self) -> bool {
        self.min_scale <= self.scale <= self.max_scale <= SCALE_ONE
    }

    /// The controller after one frame that took `frame_us` microseconds.
    pub open spec fn after_frame(self, frame_us: u64) -> QualityController {
        let avg = fold_average(self.avg_us as int, frame_us as int);
        let s = self.scale as int;
        let scale = if avg > self.target_us {
            clamp_scale(s - scale_step(s), self.min_scale as int, self.max_scale as int)
        } else if avg < self.target_us {
            clamp_scale(s + scale_step(s), self.min_scale as int, self.max_scale as int)
        } else {
            s
        };
        QualityController { scale: scale as u32, avg_us: avg as u64, ..self }
    }

    /// The controller after a run of frames, oldest first.
    pub open spec fn after_frames(self, frames: Seq<u64>) -> QualityController
        decreases frames.len(),
    {
        if frames.len() == 0 {
            self
        } else {
            self.after_frames(frames.drop_last()).after_frame(frames.last())
        }
    }

    /// A controller at full scale `max_scale`, whose average starts on the
    /// budget.
    pub fn new(target_us: u64, min_scale: u32, max_scale: u32) -> (q: QualityController)
        requires
            min_scale <= max_scale <= SCALE_ONE,
        ensures
            q.wf(),
            q == (QualityController {
                scale: max_scale,
                min_scale,
                max_scale,
                target_us,
                avg_us: target_us,
            }),
    {
        QualityController { scale: max_scale, min_scale, max_scale, target_us, avg_us: target_us }
    }

    /// Folds the time of the frame just rendered into the average and
    /// adjusts the scale.
    pub fn update(&mut self, frame_us: u64)
        requires
            old(self).wf(),
        ensures
            *final(self) == old(self).after_frame(frame_us),
            final(self).wf(),
    {
        let avg: u64 = if frame_us >= self.avg_us {
            self.avg_us + (frame_us - self.avg_us) / 10
        } else {
            self.avg_us - (self.avg_us - frame_us) / 10
        };
        let s = self.scale;
        let step: u32 = if s / 20 >= 1 {
            s / 20
        } else {
            1
        };
        let scale: u32 = if avg > self.target_us {
            if s < self.min_scale + step {
                self.min_scale
            } else {
                s - step
            }
        } else if avg < self.target_us {
            if s + step > self.max_scale {
                self.max_scale
            } else {
                s + step
            }
        } else {
            s
        };
        self.scale = scale;
        self.avg_us = avg;
    }

    /// The current scale, in thousandths of full resolution.
    pub fn scale(&self) -> (s: u32)
        ensures
            s == self.scale,
    {
        self.scale
    }

    /// The internal render size for a display of `w` by `h` pixels: each
    /// side scaled and rounded down, but at least one pixel.
    pub fn internal_size(&self, w: u32, h: u32) -> (r: (u32, u32))
        requires
            self.wf(),
        ensures
            r.0 == scaled_side(w, self.scale),
            r.1 == scaled_side(h, self.scale),
            r.0 <= w || w == 0,
            r.1 <= h || h == 0,
    {
        (scale_side(w, self.scale), scale_side(h, self.scale))
    }
}

/// `side * scale / SCALE_ONE`, rounded down, and at least one.
pub open spec fn scaled_side(side: u32, scale: u32) -> u32 {
    let s = side as int * scale as int / SCALE_ONE as int;
    if s >= 1 {
        s as u32
    } else {
        1
    }
}

fn scale_side(side: u32, scale: u32) -> (r: u32)
    requires
        scale <= SCALE_ONE,
    ensures
        r == scaled_side(side, scale),
        r <= side || side == 0,
{
    assert((side as int) * (scale as int) / 1000 <= side as int) by (nonlinear_arith)
        requires
            scale <= 1000,
    ;
    let s: u64 = (side as u64) * (scale as u64) / (SCALE_ONE as u64);
    if s >= 1 {
        s as u32
    } else {
        1
    }
}

/// The scale never leaves its configured bounds, whatever the frame times.
pub proof fn lemma_scale_stays_bounded(q: QualityController, frames: Seq<u64>)
    requires
        q.wf(),
    ensures
        q.after_frames(frames).wf(),
        q.after_frames(frames).min_scale == q.min_scale,
        q.after_frames(frames).max_scale == q.max_scale,
        q.after_frames(frames).target_us == q.target_us,
    decreases frames.len(),
{
    if frames.len() > 0 {
        lemma_scale_stays_bounded(q, frames.drop_last());
    }
}

/// One over-budget frame, with the average already over budget, keeps the
/// average over budget and lowers the scale by at least one, down to the
/// floor.
pub proof fn lemma_over_budget_frame(q: QualityController, frame_us: u64)
    requires
        q.wf(),
        q.avg_us > q.target_us,
        frame_us > q.target_us,
    ensures
        q.after_frame(frame_us).avg_us > q.target_us,
        q.after_frame(frame_us).scale <= q.scale,
        q.after_frame(frame_us).scale == q.min_scale || q.after_frame(frame_us).scale < q.scale,
{
}

/// One under-budget frame, with the average already under budget, keeps
/// the average under budget and raises the scale by at least one, up to the
/// ceiling.
pub proof fn lemma_under_budget_frame(q: QualityController, frame_us: u64)
    requires
        q.wf(),
        q.avg_us < q.target_us,
        frame_us < q.target_us,
    ensures
        q.after_frame(frame_us).avg_us < q.target_us,
        q.after_frame(frame_us).scale >= q.scale,
        q.after_frame(frame_us).scale == q.max_scale || q.after_frame(frame_us).scale > q.scale,
{
}

/// Under sustained over-budget frame times (the average over budget to
/// begin with), the scale decreases monotonically toward its floor: each
/// frame lowers it by at least one until it rests on `min_scale`.
pub proof fn lemma_sustained_over_budget(q: QualityController, frames: Seq<u64>)
    requires
        q.wf(),
        q.avg_us > q.target_us,
        forall|i: int| 0 <= i < frames.len() ==> frames[i] > q.target_us,
    ensures
        q.after_frames(frames).avg_us > q.target_us,
        q.after_frames(frames).scale <= q.scale,
        q.after_frames(frames).scale == q.min_scale
            || q.after_frames(frames).scale <= q.scale - frames.len(),
        forall|i: int|
            0 <= i < frames.len() ==> {
                let before = #[trigger] q.after_frames(frames.take(i));
                let after = q.after_frames(frames.take(i + 1));
                after.scale <= before.scale && (after.scale == q.min_scale || after.scale
                    < before.scale)
            },
    decreases frames.len(),
{
    if frames.len() > 0 {
        let init = frames.drop_last();
        lemma_sustained_over_budget(q, init);
        lemma_scale_stays_bounded(q, init);
        lemma_over_budget_frame(q.after_frames(init), frames.last());
        assert forall|i: int| 0 <= i < frames.len() implies {
            let before = #[trigger] q.after_frames(frames.take(i));
            let after = q.after_frames(frames.take(i + 1));
            after.scale <= before.scale && (after.scale == q.min_scale || after.scale
                < before.scale)
        } by {
            assert(frames.take(i + 1).drop_last() =~= frames.take(i));
            assert(frames.take(i + 1).last() == frames[i]);
            if i < init.len() {
                assert(init.take(i) =~= frames.take(i));
                assert(init.take(i + 1) =~= frames.take(i + 1));
            } else {
                assert(frames.take(i) =~= init);
            }
        }
    }
}

/// Under sustained under-budget frame times (the average under budget to
/// begin with), the scale increases monotonically toward its ceiling: each
/// frame raises it by at least one until it rests on `max_scale`.
pub proof fn lemma_sustained_under_budget(q: QualityController, frames: Seq<u64>)
    requires
        q.wf(),
        q.avg_us < q.target_us,
        forall|i: int| 0 <= i < frames.len() ==> frames[i] < q.target_us,
    ensures
        q.after_frames(frames).avg_us < q.target_us,
        q.after_frames(frames).scale >= q.scale,
        q.after_frames(frames).scale == q.max_scale
            || q.after_frames(frames).scale >= q.scale + frames.len(),
        forall|i: int|
            0 <= i < frames.len() ==> {
                let before = #[trigger] q.after_frames(frames.take(i));
                let after = q.after_frames(frames.take(i + 1));
                after.scale >= before.scale && (after.scale == q.max_scale || after.scale
                    > before.scale)
            },
    decreases frames.len(),
{
    if frames.len() > 0 {
        let init = frames.drop_last();
        lemma_sustained_under_budget(q, init);
        lemma_scale_stays_bounded(q, init);
        lemma_under_budget_frame(q.after_frames(init), frames.last());
        assert forall|i: int| 0 <= i < frames.len() implies {
            let before = #[trigger] q.after_frames(frames.take(i));
            let after = q.after_frames(frames.take(i + 1));
            after.scale >= before.scale && (after.scale == q.max_scale || after.scale
                > before.scale)
        } by {
            assert(frames.take(i + 1).drop_last() =~= frames.take(i));
            assert(frames.take(i + 1).last() == frames[i]);
            if i < init.len() {
                assert(init.take(i) =~= frames.take(i));
                assert(init.take(i + 1) =~= frames.take(i + 1));
            } else {
                assert(frames.take(i) =~= init);
            }
        }
    }
}

} // verus!
