use vstd::prelude::*;

use crate::canvas::{blank_canvas, canvas_dims, canvas_rgba, copy_window, source_rgba, source_size, Canvas};

verus! {

/// A rectangle of the source image: its top-left corner and its size.
#[derive(Clone, Copy, Debug, PartialEq, Eq, Structural)]
pub struct Window {
    pub x: u32,
    pub y: u32,
    pub width: u32,
    pub height: u32,
}

/// Where the window would stand next: whether the fractional origin has
/// gone above or left of the image, and the origin rounded to pixels.
#[derive(Clone, Copy, Debug, PartialEq, Eq, Structural)]
pub struct Probe {
    pub below_origin: bool,
    pub x: u32,
    pub y: u32,
}

/// What one step of the walk did. Every variant but `Captured` ends the walk.
#[derive(Clone, Copy, Debug, PartialEq, Eq, Structural)]
pub enum Step {
    /// A frame was taken at the probed origin.
    Captured,
    /// As many frames as allowed have been taken.
    LimitReached,
    /// The fractional origin went negative on some axis.
    BelowOrigin,
    /// The window would cross the right or bottom edge of the image.
    PastEdge,
}

/// Why a walk cannot start.
#[derive(Clone, Copy, Debug, PartialEq, Eq, Structural)]
pub enum WalkError {
    /// The first window does not lie wholly inside the image.
    FirstFrameOutside,
}

/// Why the frames cannot be stacked onto a canvas.
#[derive(Clone, Copy, Debug, PartialEq, Eq, Structural)]
pub enum AssembleError {
    /// The source image is not the size the walk was planned for.
    SizeMismatch,
    /// The canvas would be taller than 32 bits can say, or its pixels would
    /// not fit in memory.
    TooLarge,
}

/// Frame `b / frame_height` covers row `b` of the canvas, at row
/// `b % frame_height` of the frame.
proof fn lemma_row_in_slot(b: int, idx: int, fh: int)
    requires
        0 <= idx,
        idx * fh <= b < idx * fh + fh,
    ensures
        b / fh == idx,
        b % fh == b - idx * fh,
{
    vstd::arithmetic::div_mod::lemma_fundamental_div_mod_converse(b, fh, idx, b - idx * fh);
}

/// The sizes that stay fixed for a whole walk.
#[derive(Clone, Copy, Debug, PartialEq, Eq, Structural)]
pub struct Geometry {
    pub frame_width: u32,
    pub frame_height: u32,
    pub max_frames: u32,
    pub image_width: u32,
    pub image_height: u32,
}

impl Geometry {
    /// Whether a frame with its corner at `(x, y)` lies wholly inside the image.
    pub open spec fn fits(self, x: u32, y: u32) -> bool {
        &&& x + self.frame_width <= self.image_width
        &&& y + self.frame_height <= self.image_height
    }

    /// The frame with its corner at `(x, y)`.
    pub open spec fn window_at(self, x: u32, y: u32) -> Window {
        Window { x, y, width: self.frame_width, height: self.frame_height }
    }

    /// What a step does after `count` frames have been taken; the stop rules
    /// are tried in this order.
    pub open spec fn outcome(self, count: nat, p: Probe) -> Step {
        if count >= self.max_frames {
            Step::LimitReached
        } else if p.below_origin {
            Step::BelowOrigin
        } else if !self.fits(p.x, p.y) {
            Step::PastEdge
        } else {
            Step::Captured
        }
    }

    /// The frames held after the probes are tried in order, starting from
    /// `done`, until the first step that stops.
    pub open spec fn walk(self, done: Seq<Window>, probes: Seq<Probe>) -> Seq<Window>
        decreases probes.len(),
    {
        if probes.len() == 0 {
            done
        } else if self.outcome(done.len(), probes[0]) is Captured {
            self.walk(done.push(self.window_at(probes[0].x, probes[0].y)), probes.drop_first())
        } else {
            done
        }
    }

    /// The height of a canvas that stacks `count` frames top to bottom.
    pub open spec fn canvas_height(self, count: nat) -> int {
        self.frame_height * count
    }

    /// Whether the frame at `(x, y)` lies wholly inside the image, computed
    /// without overflow.
    pub fn window_fits(&self, x: u32, y: u32) -> (r: bool)
        ensures
            r == self.fits(x, y),
    {
        (x as u64) + (self.frame_width as u64) <= (self.image_width as u64)
            && (y as u64) + (self.frame_height as u64) <= (self.image_height as u64)
    }
}

/// The state of a walk: the frames taken so far, in order, and the reason it
/// stopped once it has.
pub struct Walker {
    geometry: Geometry,
    windows: Vec<Window>,
    stopped: Option<Step>,
}

impl Walker {
    /// The sizes this walk was started with.
    pub closed spec fn geometry(&self) -> Geometry {
        self.geometry
    }

    /// The frames taken so far, in the order they were taken.
    pub closed spec fn captured(&self) -> Seq<Window> {
        self.windows@
    }

    /// The step that ended the walk, or `None` while it goes on.
    pub closed spec fn stop_reason(&self) -> Option<Step> {
        self.stopped
    }

    /// Never more frames than allowed, each of them the frame size and inside
    /// the image, and a walk only ever stops for a reason other than a capture.
    pub closed spec fn wf(&self) -> bool {
        &&& self.windows@.len() <= self.geometry.max_frames
        &&& forall|i: int|
            0 <= i < self.windows@.len() ==> {
                let w = #[trigger] self.windows@[i];
                &&& self.geometry.fits(w.x, w.y)
                &&& w == self.geometry.window_at(w.x, w.y)
            }
        &&& !(self.stopped matches Some(Step::Captured))
    }

    /// Starts a walk whose first frame has its corner at `(x, y)`; that frame
    /// must lie wholly inside the image. No frame is taken yet: the first
    /// step, probed at `(x, y)`, takes it.
    pub fn start(geometry: Geometry, x: u32, y: u32) -> (r: Result<Walker, WalkError>)
        ensures
            r is Ok <==> geometry.fits(x, y),
            r is Err ==> r == Err::<Walker, WalkError>(WalkError::FirstFrameOutside),
            r matches Ok(w) ==> {
                &&& w.wf()
                &&& w.geometry() == geometry
                &&& w.captured() == Seq::<Window>::empty()
                &&& w.stop_reason() is None
            },
    {
        if !geometry.window_fits(x, y) {
            return Err(WalkError::FirstFrameOutside);
        }
        Ok(Walker { geometry, windows: Vec::new(), stopped: None })
    }

    /// Tries the next origin. While the walk goes on, this takes a frame
    /// there unless the limit is reached, the fractional origin went
    /// negative, or the frame would leave the image; the first of these that
    /// holds ends the walk. A walk that has ended stays as it is and reports
    /// why it ended.
    pub fn step(&mut self, probe: Probe) -> (r: Step)
        requires
            old(self).wf(),
        ensures
            final(self).wf(),
            final(self).geometry() == old(self).geometry(),
            final(self).captured().len() <= final(self).geometry().max_frames,
            old(self).stop_reason() matches Some(s) ==> {
                &&& r == s
                &&& final(self).captured() == old(self).captured()
                &&& final(self).stop_reason() == old(self).stop_reason()
            },
            old(self).stop_reason() is None ==> {
                &&& r == old(self).geometry().outcome(old(self).captured().len(), probe)
                &&& final(self).captured() == if r is Captured {
                    old(self).captured().push(old(self).geometry().window_at(probe.x, probe.y))
                } else {
                    old(self).captured()
                }
                &&& final(self).stop_reason() == if r is Captured {
                    None
                } else {
                    Some(r)
                }
            },
    {
        if let Some(s) = self.stopped {
            return s;
        }
        let g = self.geometry;
        let r = if self.windows.len() >= g.max_frames as usize {
            Step::LimitReached
        } else if probe.below_origin {
            Step::BelowOrigin
        } else if !g.window_fits(probe.x, probe.y) {
            Step::PastEdge
        } else {
            Step::Captured
        };
        if r == Step::Captured {
            self.windows.push(Window {
                x: probe.x,
                y: probe.y,
                width: g.frame_width,
                height: g.frame_height,
            });
        } else {
            self.stopped = Some(r);
        }
        r
    }

    /// The size of the canvas that stacks the frames taken so far: one frame
    /// wide and as tall as all of them together, or `None` when that height
    /// does not fit in 32 bits.
    pub fn canvas_size(&self) -> (r: Option<(u32, u32)>)
        ensures
            r is Some <==> self.geometry().canvas_height(self.captured().len()) <= u32::MAX,
            r matches Some((w, h)) ==> {
                &&& w == self.geometry().frame_width
                &&& h == self.geometry().canvas_height(self.captured().len())
            },
    {
        let fh = self.geometry.frame_height;
        let n = self.windows.len();
        proof {
            assert(fh * n <= 0xffff_ffffu128 * 0xffff_ffff_ffff_ffffu128) by (nonlinear_arith)
                requires
                    fh <= 0xffff_ffffu128,
                    n <= 0xffff_ffff_ffff_ffffu128,
            ;
        }
        let h: u128 = (fh as u128) * (n as u128);
        if h > u32::MAX as u128 {
            None
        } else {
            Some((self.geometry.frame_width, h as u32))
        }
    }

    /// The row of the canvas at which the frame with this index goes: the
    /// frames before it, stacked, end there.
    pub fn slot_offset(&self, index: usize) -> (r: u32)
        requires
            index < self.captured().len(),
            self.geometry().canvas_height(self.captured().len()) <= u32::MAX,
        ensures
            r == self.geometry().frame_height * index,
            r + self.geometry().frame_height <= self.geometry().canvas_height(
                self.captured().len(),
            ),
    {
        let fh = self.geometry.frame_height;
        let n = self.windows.len();
        proof {
            assert(fh * index <= fh * n) by (nonlinear_arith)
                requires
                    index < n,
            ;
            assert(fh * index + fh <= fh * n) by (nonlinear_arith)
                requires
                    index < n,
            ;
        }
        ((fh as u128) * (index as u128)) as u32
    }

    /// Stacks the frames taken so far, in order, onto a new canvas one frame
    /// wide: frame `j` covers the rows from `j * frame_height` on, so row `b`
    /// of the canvas is row `b % frame_height` of frame `b / frame_height`.
    /// Fails when the source is not the size the walk was planned for, or
    /// when the canvas would be too large.
    pub fn assemble(&self, source: &image::DynamicImage) -> (r: Result<Canvas, AssembleError>)
        requires
            self.wf(),
        ensures
            r matches Err(AssembleError::SizeMismatch) <==> source_size(*source) != (
                self.geometry().image_width,
                self.geometry().image_height,
            ),
            r matches Err(AssembleError::TooLarge) <==> {
                &&& source_size(*source) == (
                    self.geometry().image_width,
                    self.geometry().image_height,
                )
                &&& !{
                    &&& self.geometry().canvas_height(self.captured().len()) <= u32::MAX
                    &&& 4 * self.geometry().frame_width * self.geometry().canvas_height(
                        self.captured().len(),
                    ) <= usize::MAX
                }
            },
            r matches Ok(c) ==> {
                let g = self.geometry();
                let frames = self.captured();
                &&& canvas_dims(c).0 == g.frame_width
                &&& canvas_dims(c).1 == g.canvas_height(frames.len())
                &&& forall|a: int, b: int|
                    0 <= a < g.frame_width && 0 <= b < g.canvas_height(frames.len())
                        ==> #[trigger] canvas_rgba(c)[(a, b)] == source_rgba(*source)[(
                        frames[b / g.frame_height as int].x + a,
                        frames[b / g.frame_height as int].y + b % g.frame_height as int,
                    )]
            },
    {
        let g = self.geometry;
        if source.width() != g.image_width || source.height() != g.image_height {
            return Err(AssembleError::SizeMismatch);
        }
        let (w, h) = match self.canvas_size() {
            Some(size) => size,
            None => {
                return Err(AssembleError::TooLarge);
            },
        };
        proof {
            assert(4 * w * h <= 4 * 0xffff_ffffu128 * 0xffff_ffffu128) by (nonlinear_arith)
                requires
                    w <= 0xffff_ffffu128,
                    h <= 0xffff_ffffu128,
            ;
        }
        if 4u128 * (w as u128) * (h as u128) > usize::MAX as u128 {
            return Err(AssembleError::TooLarge);
        }
        let mut canvas = blank_canvas(w, h);
        let fh = g.frame_height;
        let n = self.windows.len();
        let mut idx: usize = 0;
        while idx < n
            invariant
                idx <= n,
                n == self.windows@.len(),
                self.wf(),
                g == self.geometry,
                w == g.frame_width,
                fh == g.frame_height,
                h == g.canvas_height(n as nat),
                h <= u32::MAX,
                canvas_dims(canvas) == (w, h),
                source_size(*source) == (g.image_width, g.image_height),
                forall|a: int, b: int|
                    0 <= a < w && 0 <= b < idx * fh ==> #[trigger] canvas_rgba(canvas)[(a, b)]
                        == source_rgba(*source)[(
                        self.windows@[b / fh as int].x + a,
                        self.windows@[b / fh as int].y + b % fh as int,
                    )],
            decreases n - idx,
        {
            let win = self.windows[idx];
            let y = self.slot_offset(idx);
            proof {
                assert(self.windows@[idx as int] == win);
            }
            match copy_window(&mut canvas, source, win, y) {
                Ok(()) => {},
                Err(_) => {
                    return Err(AssembleError::TooLarge);
                },
            }
            proof {
                assert((idx + 1) * fh == idx * fh + fh) by (nonlinear_arith);
                assert forall|a: int, b: int|
                    0 <= a < w && 0 <= b < (idx + 1) * fh implies #[trigger] canvas_rgba(canvas)[(
                    a,
                    b,
                )] == source_rgba(*source)[(
                    self.windows@[b / fh as int].x + a,
                    self.windows@[b / fh as int].y + b % fh as int,
                )] by {
                    assert(b < h) by (nonlinear_arith)
                        requires
                            b < (idx + 1) * fh,
                            idx + 1 <= n,
                            h == fh * n,
                            0 <= fh,
                    ;
                    if b >= y {
                        lemma_row_in_slot(b, idx as int, fh as int);
                    }
                }
            }
            idx = idx + 1;
        }
        proof {
            assert(n * fh == h) by (nonlinear_arith)
                requires
                    h == fh * n,
            ;
        }
        Ok(canvas)
    }

    /// The frames taken so far, in order.
    pub fn windows(&self) -> (r: &Vec<Window>)
        ensures
            r@ == self.captured(),
    {
        &self.windows
    }
}

/// Starts a walk at `(x, y)` and tries the probes in order until a step
/// stops it, giving the frames taken; fails as `Walker::start` does.
pub fn walk_windows(geometry: Geometry, x: u32, y: u32, probes: &Vec<Probe>) -> (r: Result<
    Vec<Window>,
    WalkError,
>)
    ensures
        r is Ok <==> geometry.fits(x, y),
        r is Err ==> r == Err::<Vec<Window>, WalkError>(WalkError::FirstFrameOutside),
        r matches Ok(ws) ==> ws@ == geometry.walk(Seq::empty(), probes@),
{
    let mut walker = match Walker::start(geometry, x, y) {
        Ok(w) => w,
        Err(e) => {
            return Err(e);
        },
    };
    let mut i: usize = 0;
    let mut running = true;
    proof {
        assert(probes@.subrange(0, probes@.len() as int) =~= probes@);
    }
    while running && i < probes.len()
        invariant
            i <= probes@.len(),
            walker.wf(),
            walker.geometry() == geometry,
            running ==> walker.stop_reason() is None,
            running ==> geometry.walk(
                walker.captured(),
                probes@.subrange(i as int, probes@.len() as int),
            ) == geometry.walk(Seq::empty(), probes@),
            !running ==> walker.captured() == geometry.walk(Seq::empty(), probes@),
        decreases probes@.len() - i,
    {
        let ghost rest = probes@.subrange(i as int, probes@.len() as int);
        let ghost before = walker.captured();
        proof {
            assert(rest[0] == probes@[i as int]);
            assert(rest.drop_first() =~= probes@.subrange(i + 1, probes@.len() as int));
        }
        let s = walker.step(probes[i]);
        proof {
            let p = probes@[i as int];
            let ps = seq![p];
            assert(ps.drop_first() =~= Seq::<Probe>::empty());
            assert(ps[0] == p);
            if s == Step::Captured {
                let next = before.push(geometry.window_at(p.x, p.y));
                assert(geometry.walk(next, Seq::<Probe>::empty()) == next);
                assert(geometry.walk(before, rest) == geometry.walk(next, rest.drop_first()));
            } else {
                assert(geometry.walk(before, rest) == before);
            }
        }
        i = i + 1;
        if s != Step::Captured {
            running = false;
        }
    }
    proof {
        if running {
            assert(probes@.subrange(i as int, probes@.len() as int) =~= Seq::<Probe>::empty());
        }
    }
    Ok(walker.windows().clone())
}

/// However the origins fall, a walk never holds more frames than the limit.
pub proof fn walk_within_limit(g: Geometry, done: Seq<Window>, probes: Seq<Probe>)
    requires
        done.len() <= g.max_frames,
    ensures
        g.walk(done, probes).len() <= g.max_frames,
    decreases probes.len(),
{
    if probes.len() > 0 && g.outcome(done.len(), probes[0]) is Captured {
        walk_within_limit(
            g,
            done.push(g.window_at(probes[0].x, probes[0].y)),
            probes.drop_first(),
        );
    }
}

proof fn stationary_walk_from(g: Geometry, x: u32, y: u32, done: Seq<Window>, probes: Seq<Probe>)
    requires
        g.fits(x, y),
        done.len() <= g.max_frames,
        forall|j: int| 0 <= j < done.len() ==> #[trigger] done[j] == g.window_at(x, y),
        forall|i: int|
            0 <= i < probes.len() ==> #[trigger] probes[i] == (Probe { below_origin: false, x, y }),
    ensures
        g.walk(done, probes) =~= Seq::new(
            vstd::math::min((done.len() + probes.len()) as int, g.max_frames as int) as nat,
            |i: int| g.window_at(x, y),
        ),
    decreases probes.len(),
{
    if probes.len() > 0 && done.len() < g.max_frames {
        assert(probes[0] == (Probe { below_origin: false, x, y }));
        let next = done.push(g.window_at(x, y));
        let rest = probes.drop_first();
        assert forall|i: int| 0 <= i < rest.len() implies #[trigger] rest[i] == (Probe {
            below_origin: false,
            x,
            y,
        }) by {
            assert(rest[i] == probes[i + 1]);
        }
        stationary_walk_from(g, x, y, next, rest);
    }
}

/// A window that never moves (both steps zero) gives the first frame again
/// and again: as many copies as there are probes, but no more than the limit.
pub proof fn stationary_walk_repeats_first_frame(g: Geometry, x: u32, y: u32, probes: Seq<Probe>)
    requires
        g.fits(x, y),
        forall|i: int|
            0 <= i < probes.len() ==> #[trigger] probes[i] == (Probe { below_origin: false, x, y }),
    ensures
        g.walk(Seq::empty(), probes) =~= Seq::new(
            vstd::math::min(probes.len() as int, g.max_frames as int) as nat,
            |i: int| g.window_at(x, y),
        ),
{
    stationary_walk_from(g, x, y, Seq::empty(), probes);
}

} // verus!
