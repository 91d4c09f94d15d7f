//! Animation sequencing: an ordered sequence of decoded frames with display
//! durations, a clock reference, and the arithmetic that decides which
//! frame is visible after any amount of elapsed time.
//!
//! The sequence loops to index 0 after the last frame, and the index
//! computation is exact and index-stable no matter how many times it has
//! looped; that law is proved in this module.  Durations are clamped to a
//! minimum at construction so a degenerate zero-duration frame cannot make
//! the driver busy-loop.

use vstd::prelude::*;

use crate::buffer::PixelBuffer;
use crate::buffer::PixelBufferV;
use vstd::arithmetic::div_mod::lemma_mod_add_multiples_vanish;
use vstd::arithmetic::div_mod::lemma_mod_multiples_vanish;
use vstd::arithmetic::div_mod::lemma_small_mod;
use vstd::arithmetic::div_mod::lemma_mod_pos_bound;

verus! {

/// Shortest display duration a frame may keep, in milliseconds.
pub const MIN_FRAME_MS: u32 = 10;

/// One animation frame: a decoded buffer and how long it stays on screen.
pub struct AnimFrame {
    pub buffer: PixelBuffer,
    pub duration_ms: u32,
}

/// Mathematical model of an `AnimFrame`.
pub struct AnimFrameV {
    pub buffer: PixelBufferV,
    pub duration_ms: int,
}

impl View for AnimFrame {
    type V = AnimFrameV;

    open spec fn view(&self) -> AnimFrameV {
        AnimFrameV { buffer: self.buffer@, duration_ms: self.duration_ms as int }
    }
}

/// The models of a sequence of frames.
pub open spec fn views_of(raw: Seq<AnimFrame>) -> Seq<AnimFrameV> {
    raw.map_values(|f: AnimFrame| f@)
}

/// Total display time of the first `j` frames.
pub open spec fn cum_duration(frames: Seq<AnimFrameV>, j: int) -> int
    decreases j,
{
    if j <= 0 {
        0
    } else {
        cum_duration(frames, j - 1) + frames[j - 1].duration_ms
    }
}

/// Total display time of one loop of the sequence.
pub open spec fn total_duration(frames: Seq<AnimFrameV>) -> int {
    cum_duration(frames, frames.len() as int)
}

/// Every duration is positive (established by clamping at construction).
pub open spec fn durations_positive(frames: Seq<AnimFrameV>) -> bool {
    forall|i: int| 0 <= i < frames.len() ==> #[trigger] frames[i].duration_ms > 0
}

/// The frame index visible at offset `r` into one loop: the first index
/// whose cumulative duration window contains `r`.
pub open spec fn frame_at_offset(frames: Seq<AnimFrameV>, r: int) -> int
    decreases frames.len(),
{
    if frames.len() <= 1 {
        0
    } else if r < frames[0].duration_ms {
        0
    } else {
        1 + frame_at_offset(frames.drop_first(), r - frames[0].duration_ms)
    }
}

/// The frame index visible after `elapsed` milliseconds, looping forever.
pub open spec fn frame_index_at(frames: Seq<AnimFrameV>, elapsed: int) -> int
    recommends
        total_duration(frames) > 0,
{
    frame_at_offset(frames, elapsed % total_duration(frames))
}

/// A cumulative sum taken one frame in is the first duration plus the
/// cumulative sum over the remaining frames.
proof fn lemma_cum_drop_first(frames: Seq<AnimFrameV>, j: int)
    requires
        frames.len() >= 1,
        0 <= j < frames.len(),
    ensures
        cum_duration(frames, j + 1) == frames[0].duration_ms + cum_duration(
            frames.drop_first(),
            j,
        ),
    decreases j,
{
    if j > 0 {
        lemma_cum_drop_first(frames, j - 1);
        assert(frames.drop_first()[j - 1] == frames[j]);
    } else {
        assert(cum_duration(frames, 0) == 0);
        assert(cum_duration(frames.drop_first(), 0) == 0);
    }
}

/// With positive durations, every prefix of `j` frames lasts at least `j`.
pub proof fn lemma_cum_bounds(frames: Seq<AnimFrameV>, j: int)
    requires
        durations_positive(frames),
        0 <= j <= frames.len(),
    ensures
        j <= cum_duration(frames, j),
    decreases j,
{
    if j > 0 {
        lemma_cum_bounds(frames, j - 1);
    }
}

/// Cumulative duration is monotone in the number of frames.
pub proof fn lemma_cum_monotone(frames: Seq<AnimFrameV>, j1: int, j2: int)
    requires
        durations_positive(frames),
        0 <= j1 <= j2 <= frames.len(),
    ensures
        cum_duration(frames, j1) <= cum_duration(frames, j2),
    decreases j2 - j1,
{
    if j1 < j2 {
        lemma_cum_monotone(frames, j1, j2 - 1);
    }
}

/// Law, first half: for an offset within one loop, the frame on display is
/// exactly the one whose cumulative duration window contains the offset.
pub proof fn lemma_offset_window(frames: Seq<AnimFrameV>, r: int)
    requires
        frames.len() >= 1,
        durations_positive(frames),
        0 <= r < total_duration(frames),
    ensures
        ({
            let j = frame_at_offset(frames, r);
            0 <= j < frames.len() && cum_duration(frames, j) <= r < cum_duration(frames, j + 1)
        }),
    decreases frames.len(),
{
    let j = frame_at_offset(frames, r);
    assert(cum_duration(frames, 0) == 0);
    if frames.len() == 1 {
        assert(cum_duration(frames, 1) == frames[0].duration_ms);
    } else if r < frames[0].duration_ms {
        assert(cum_duration(frames, 1) == frames[0].duration_ms);
    } else {
        let rest = frames.drop_first();
        assert(durations_positive(rest)) by {
            assert forall|i: int| 0 <= i < rest.len() implies #[trigger] rest[i].duration_ms
                > 0 by {
                assert(rest[i] == frames[i + 1]);
            }
        }
        lemma_cum_drop_first(frames, frames.len() - 1);
        lemma_offset_window(rest, r - frames[0].duration_ms);
        let j2 = frame_at_offset(rest, r - frames[0].duration_ms);
        lemma_cum_drop_first(frames, j2);
        lemma_cum_drop_first(frames, j2 + 1);
    }
}

/// Law, second half: looping is exact and index-stable.  Adding one whole
/// loop to the elapsed time shows the same frame, no matter how many loops
/// have already passed.
pub proof fn lemma_loop_stable(frames: Seq<AnimFrameV>, elapsed: int)
    requires
        frames.len() >= 1,
        durations_positive(frames),
        0 <= elapsed,
    ensures
        frame_index_at(frames, elapsed + total_duration(frames)) == frame_index_at(
            frames,
            elapsed,
        ),
{
    let t = total_duration(frames);
    lemma_cum_bounds(frames, frames.len() as int);
    lemma_mod_add_multiples_vanish(elapsed, t);
    assert(elapsed + t == t + elapsed);
}

/// Law, combined: after `m` whole loops plus a remainder `r` of elapsed
/// time, the visible frame is exactly the one whose cumulative duration
/// window contains `r` - looping never drifts the index, however many
/// loops have passed.
pub proof fn lemma_loops_vanish(frames: Seq<AnimFrameV>, m: int, r: int)
    requires
        frames.len() >= 1,
        durations_positive(frames),
        m >= 0,
        0 <= r < total_duration(frames),
    ensures
        frame_index_at(frames, m * total_duration(frames) + r) == frame_at_offset(frames, r),
{
    let t = total_duration(frames);
    lemma_cum_bounds(frames, frames.len() as int);
    lemma_mod_multiples_vanish(m, r, t);
    lemma_small_mod(r as nat, t as nat);
    assert(t * m == m * t) by (nonlinear_arith);
}

/// The duration a raw frame keeps after clamping.
pub open spec fn clamped_duration(raw: int) -> int {
    if raw < MIN_FRAME_MS {
        MIN_FRAME_MS as int
    } else {
        raw
    }
}

/// A frame sequence after clamping every duration.
pub open spec fn clamp_frames(s: Seq<AnimFrameV>) -> Seq<AnimFrameV> {
    s.map_values(
        |f: AnimFrameV| AnimFrameV { buffer: f.buffer, duration_ms: clamped_duration(f.duration_ms) },
    )
}

/// The animation state of one decoded multi-frame source: the frames and
/// the monotonic clock value at which the sequence started.
pub struct AnimationState {
    frames: Vec<AnimFrame>,
    started_at_ms: u64,
}

/// Mathematical model of an `AnimationState`.
pub struct AnimationStateV {
    pub frames: Seq<AnimFrameV>,
    pub started_at_ms: int,
}

impl View for AnimationState {
    type V = AnimationStateV;

    closed spec fn view(&self) -> AnimationStateV {
        AnimationStateV {
            frames: views_of(self.frames@),
            started_at_ms: self.started_at_ms as int,
        }
    }
}

impl AnimationState {
    pub open spec fn wf(self) -> bool {
        self@.frames.len() >= 1 && durations_positive(self@.frames) && total_duration(self@.frames)
            <= u64::MAX
    }

    /// Builds the state from decoded frames, clamping each duration to the
    /// sane minimum.  `None` exactly when the sequence is empty or the
    /// total clamped duration of one loop overflows `u64` milliseconds.
    pub fn new(raw: Vec<AnimFrame>, now_ms: u64) -> (r: Option<Self>)
        ensures
            r is Some <==> raw@.len() >= 1 && total_duration(clamp_frames(views_of(raw@)))
                <= u64::MAX,
            r matches Some(a) ==> a.wf() && a@.started_at_ms == now_ms && a@.frames
                == clamp_frames(views_of(raw@)),
    {
        let ghost orig = views_of(raw@);
        let ghost goal = clamp_frames(orig);
        if raw.len() == 0 {
            return None;
        }
        let n = raw.len();
        proof {
            assert(durations_positive(goal)) by {
                assert forall|k: int| 0 <= k < goal.len() implies #[trigger] goal[k].duration_ms
                    > 0 by {
                    assert(goal[k].duration_ms == clamped_duration(orig[k].duration_ms));
                }
            }
        }
        // First pass: check that one loop's total clamped duration fits.
        let mut total: u64 = 0;
        let mut i: usize = 0;
        while i < n
            invariant
                goal == clamp_frames(views_of(raw@)),
                durations_positive(goal),
                n == raw@.len(),
                n == goal.len(),
                i <= n,
                total == cum_duration(goal, i as int),
                total <= u64::MAX,
            decreases n - i,
        {
            let d: u32 = if raw[i].duration_ms < MIN_FRAME_MS {
                MIN_FRAME_MS
            } else {
                raw[i].duration_ms
            };
            proof {
                assert(views_of(raw@)[i as int] == raw@[i as int]@);
                assert(goal[i as int].duration_ms == clamped_duration(raw@[i as int]@.duration_ms));
            }
            if total > u64::MAX - d as u64 {
                proof {
                    assert(cum_duration(goal, i as int + 1) == total + d);
                    lemma_cum_monotone(goal, i as int + 1, goal.len() as int);
                }
                return None;
            }
            total = total + d as u64;
            i = i + 1;
        }
        // Second pass: consume the frames front to back, clamping as we go.
        let mut rest = raw;
        let mut frames: Vec<AnimFrame> = Vec::new();
        let mut i: usize = 0;
        while i < n
            invariant
                n == orig.len(),
                goal == clamp_frames(orig),
                goal.len() == orig.len(),
                i <= n,
                rest@.len() == n - i,
                frames@.len() == i,
                views_of(rest@) =~= orig.subrange(i as int, n as int),
                views_of(frames@) =~= goal.subrange(0, i as int),
            decreases n - i,
        {
            let ghost prev = rest@;
            let f = rest.remove(0);
            proof {
                assert(f == prev[0]);
                assert(views_of(prev)[0] == prev[0]@);
                assert(views_of(prev) =~= orig.subrange(i as int, n as int));
                assert(f@ == orig[i as int]);
                assert(views_of(rest@) =~= orig.subrange(i as int + 1, n as int)) by {
                    assert forall|k: int| 0 <= k < rest@.len() implies views_of(rest@)[k]
                        == orig.subrange(i as int + 1, n as int)[k] by {
                        assert(rest@[k] == prev[k + 1]);
                        assert(views_of(prev)[k + 1] == prev[k + 1]@);
                        assert(orig.subrange(i as int, n as int)[k + 1] == orig[i as int + 1 + k]);
                    }
                }
            }
            let d: u32 = if f.duration_ms < MIN_FRAME_MS {
                MIN_FRAME_MS
            } else {
                f.duration_ms
            };
            let nf = AnimFrame { buffer: f.buffer, duration_ms: d };
            let ghost pre = frames@;
            proof {
                assert(goal[i as int] == (AnimFrameV {
                    buffer: orig[i as int].buffer,
                    duration_ms: clamped_duration(orig[i as int].duration_ms),
                }));
                assert(nf@ == goal[i as int]);
            }
            frames.push(nf);
            proof {
                assert(frames@ == pre.push(nf));
                assert(frames@.len() == i + 1);
                assert(views_of(frames@) =~= goal.subrange(0, i as int + 1)) by {
                    assert forall|k: int| 0 <= k < i + 1 implies views_of(frames@)[k]
                        == goal.subrange(0, i as int + 1)[k] by {
                        assert(frames@.len() == i + 1);
                        assert(views_of(frames@)[k] == frames@[k]@);
                        if k < i {
                            assert(frames@[k] == pre[k]);
                            assert(views_of(pre)[k] == pre[k]@);
                        } else {
                            assert(frames@[i as int] == nf);
                        }
                    }
                }
            }
            i = i + 1;
        }
        proof {
            assert(goal.subrange(0, n as int) =~= goal);
            assert(views_of(frames@) == goal);
            assert(durations_positive(goal)) by {
                assert forall|k: int| 0 <= k < goal.len() implies #[trigger] goal[k].duration_ms
                    > 0 by {
                    assert(goal[k].duration_ms == clamped_duration(orig[k].duration_ms));
                }
            }
            assert(total_duration(goal) <= u64::MAX);
        }
        Some(AnimationState { frames, started_at_ms: now_ms })
    }

    pub fn frame_count(&self) -> (r: usize)
        ensures
            r == self@.frames.len(),
    {
        self.frames.len()
    }

    /// The clamped display duration of one frame, for the pacing driver.
    pub fn duration_at(&self, idx: usize) -> (r: u32)
        requires
            idx < self@.frames.len(),
        ensures
            r == self@.frames[idx as int].duration_ms,
    {
        self.frames[idx].duration_ms
    }

    /// An owned copy of one frame's buffer, for publishing to the channel.
    pub fn frame_buffer(&self, idx: usize) -> (r: PixelBuffer)
        requires
            idx < self@.frames.len(),
        ensures
            r@ == self@.frames[idx as int].buffer,
    {
        self.frames[idx].buffer.duplicate()
    }

    /// Total display time of one loop, in milliseconds.
    pub fn total_ms(&self) -> (t: u64)
        requires
            self.wf(),
        ensures
            t == total_duration(self@.frames),
            t >= 1,
    {
        let n = self.frames.len();
        let mut total: u64 = 0;
        let mut i: usize = 0;
        while i < n
            invariant
                self.wf(),
                n == self@.frames.len(),
                i <= n,
                total == cum_duration(self@.frames, i as int),
                total <= u64::MAX,
            decreases n - i,
        {
            proof {
                lemma_cum_monotone(self@.frames, i as int + 1, n as int);
            }
            total = total + self.frames[i].duration_ms as u64;
            i = i + 1;
        }
        proof {
            lemma_cum_bounds(self@.frames, n as int);
        }
        total
    }

    /// The frame visible at monotonic clock value `now_ms`: elapsed time
    /// modulo one loop, walked through the cumulative duration windows.
    pub fn frame_index(&self, now_ms: u64) -> (idx: usize)
        requires
            self.wf(),
            now_ms >= self@.started_at_ms,
        ensures
            idx == frame_index_at(self@.frames, now_ms - self@.started_at_ms),
            idx < self@.frames.len(),
    {
        let elapsed = now_ms - self.started_at_ms;
        let total = self.total_ms();
        let r0 = elapsed % total;
        proof {
            lemma_mod_pos_bound(elapsed as int, total as int);
        }
        let n = self.frames.len();
        let mut r = r0;
        let mut idx: usize = 0;
        proof {
            assert(self@.frames.subrange(0, n as int) =~= self@.frames);
        }
        while idx + 1 < n && r >= self.frames[idx].duration_ms as u64
            invariant
                self.wf(),
                n == self@.frames.len(),
                idx < n,
                frame_at_offset(self@.frames, r0 as int) == idx + frame_at_offset(
                    self@.frames.subrange(idx as int, n as int),
                    r as int,
                ),
            decreases n - idx,
        {
            let d = self.frames[idx].duration_ms;
            proof {
                let sub = self@.frames.subrange(idx as int, n as int);
                assert(sub.len() >= 2);
                assert(sub[0] == self@.frames[idx as int]);
                assert(sub.drop_first() =~= self@.frames.subrange(idx as int + 1, n as int));
            }
            r = r - d as u64;
            idx = idx + 1;
        }
        proof {
            let sub = self@.frames.subrange(idx as int, n as int);
            assert(sub.len() >= 1);
            assert(sub[0] == self@.frames[idx as int]);
            assert(frame_at_offset(sub, r as int) == 0);
        }
        idx
    }
}

} // verus!
