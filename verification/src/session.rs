//! The viewer session: the state owned by the presentation thread, and the
//! per-tick logic that drains the frame channel.
//!
//! The session issues load generations, drains at most one pending frame
//! per tick to bound per-tick work, discards frames whose generation is not
//! the latest request - the core correctness invariant of the pipeline,
//! proved as a law at the end of the module - and keeps the view transform
//! and the operation stack that pointer input mutates.  Nothing outside the
//! presentation thread ever touches a session.

use vstd::prelude::*;

use crate::buffer::PixelBuffer;
use crate::buffer::PixelBufferV;
use crate::buffer::Rgba;
use crate::channel::FrameChannel;
use crate::channel::FrameMsg;
use crate::channel::FrameMsgV;
use crate::decode::LoadError;
use crate::ops::OpItem;
use crate::ops::OpItemV;
use crate::ops::OperationStack;
use crate::ops::PixelPoint;
use crate::ops::apply_all_spec;
use crate::ops::has_active_of_kind;
use crate::ops::is_singleton_kind;
use crate::ops::items_written;
use crate::rational::Rat;
use crate::rational::rat_add;
use crate::rational::rat_floor_sat;
use crate::transform::MAX_DIM;
use crate::transform::Vec2;
use crate::transform::Vec2r;
use crate::transform::ViewTransform;
use crate::transform::ViewTransformV;
use crate::transform::centered_axis;
use crate::transform::fit_scale;
use crate::transform::window_to_image_axis;
use crate::transform::window_to_image_axis_fits;
use crate::transform::zoom_applies;
use crate::transform::zoom_offset_axis;
use crate::transform::zoom_scale;
use crate::transform::pan_fits;

verus! {

/// Mathematical model of a `Session`.
pub struct SessionV {
    pub transform: ViewTransformV,
    pub win_w: u32,
    pub win_h: u32,
    pub stack: Seq<OpItemV>,
    pub current: Option<PixelBufferV>,
    pub channel: Seq<FrameMsgV>,
    pub latest_generation: u64,
    pub is_loaded: bool,
    pub last_error: Option<LoadError>,
}

/// The fit-to-window transform for the given window and image sizes.
pub open spec fn fit_transform(win_w: int, win_h: int, img_w: int, img_h: int) -> ViewTransformV {
    let scale = fit_scale(win_w, win_h, img_w, img_h);
    ViewTransformV {
        scale: scale,
        offset: Vec2r {
            x: centered_axis(win_w, img_w, scale),
            y: centered_axis(win_h, img_h, scale),
        },
        fit_mode: true,
    }
}

/// Accepting a frame: it becomes the displayed buffer, the session counts
/// as loaded, and the transform is reset to fit the new image when its
/// dimensions allow the fit computation.
pub open spec fn accept_spec(s: SessionV, m: FrameMsgV) -> SessionV {
    let dims_ok = 1 <= m.buffer.width <= MAX_DIM && 1 <= m.buffer.height <= MAX_DIM;
    SessionV {
        transform: if dims_ok {
            fit_transform(s.win_w as int, s.win_h as int, m.buffer.width, m.buffer.height)
        } else {
            s.transform
        },
        current: Some(m.buffer),
        is_loaded: true,
        ..s
    }
}

/// One presentation tick: at most one pending frame is drained, in publish
/// order; a frame of the latest requested generation is accepted, any other
/// is discarded silently.
pub open spec fn tick_spec(s: SessionV) -> SessionV {
    if s.channel.len() == 0 {
        s
    } else {
        let m = s.channel[0];
        let s1 = SessionV { channel: s.channel.drop_first(), ..s };
        if m.generation == s.latest_generation {
            accept_spec(s1, m)
        } else {
            s1
        }
    }
}

/// The integer pixel under an image-space coordinate: negative coordinates
/// clamp to 0, and the floor saturates at `u32::MAX`.
pub open spec fn pixel_coord(a: Rat) -> u32 {
    if a.num < 0 {
        0
    } else {
        rat_floor_sat(a)
    }
}

/// Where the cursor lands in image space, as integer pixels; `None` exactly
/// when the inverse mapping's unreduced fractions no longer fit.
pub open spec fn cursor_pixel_spec(t: ViewTransformV, c: Vec2r) -> Option<PixelPoint> {
    if window_to_image_axis_fits(t.scale, t.offset.x, c.x) && window_to_image_axis_fits(
        t.scale,
        t.offset.y,
        c.y,
    ) {
        Some(
            PixelPoint {
                x: pixel_coord(window_to_image_axis(t.scale, t.offset.x, c.x)),
                y: pixel_coord(window_to_image_axis(t.scale, t.offset.y, c.y)),
            },
        )
    } else {
        None
    }
}

/// The cursor sample: the pixel coordinate under the cursor and its color,
/// or `None` when no image is shown, the cursor is off the image, or the
/// inverse mapping's fractions no longer fit.
pub open spec fn sample_spec(s: SessionV, c: Vec2r) -> Option<(PixelPoint, Rgba)> {
    match s.current {
        None => None,
        Some(b) => {
            let t = s.transform;
            if window_to_image_axis_fits(t.scale, t.offset.x, c.x) && window_to_image_axis_fits(
                t.scale,
                t.offset.y,
                c.y,
            ) {
                let ix = window_to_image_axis(t.scale, t.offset.x, c.x);
                let iy = window_to_image_axis(t.scale, t.offset.y, c.y);
                if ix.num < 0 || iy.num < 0 {
                    None
                } else {
                    let p = PixelPoint { x: rat_floor_sat(ix), y: rat_floor_sat(iy) };
                    if p.x < b.width && p.y < b.height {
                        Some((p, b.pixel(p.x as int, p.y as int)))
                    } else {
                        None
                    }
                }
            } else {
                None
            }
        },
    }
}

/// One viewer session.
pub struct Session {
    transform: ViewTransform,
    win_w: u32,
    win_h: u32,
    stack: OperationStack,
    current: Option<PixelBuffer>,
    channel: FrameChannel,
    latest_generation: u64,
    is_loaded: bool,
    last_error: Option<LoadError>,
}

impl View for Session {
    type V = SessionV;

    closed spec fn view(&self) -> SessionV {
        SessionV {
            transform: self.transform@,
            win_w: self.win_w,
            win_h: self.win_h,
            stack: self.stack@,
            current: match self.current {
                Some(b) => Some(b@),
                None => None,
            },
            channel: self.channel@,
            latest_generation: self.latest_generation,
            is_loaded: self.is_loaded,
            last_error: self.last_error,
        }
    }
}

impl Session {
    pub open spec fn wf(self) -> bool {
        self@.transform.wf() && 1 <= self@.win_w <= MAX_DIM && 1 <= self@.win_h <= MAX_DIM
            && (self@.current matches Some(b) ==> b.wf()) && (forall|i: int|
            0 <= i < self@.channel.len() ==> (#[trigger] self@.channel[i]).buffer.wf())
    }

    /// A fresh session for a window of the given size: identity transform,
    /// empty stack and channel, nothing loaded, generation 0.
    pub fn new(win_w: u32, win_h: u32) -> (r: Self)
        requires
            1 <= win_w <= MAX_DIM,
            1 <= win_h <= MAX_DIM,
        ensures
            r.wf(),
            r@.win_w == win_w,
            r@.win_h == win_h,
            r@.stack == Seq::<OpItemV>::empty(),
            r@.current is None,
            r@.channel == Seq::<FrameMsgV>::empty(),
            r@.latest_generation == 0,
            !r@.is_loaded,
            r@.last_error is None,
    {
        Session {
            transform: ViewTransform::identity(),
            win_w,
            win_h,
            stack: OperationStack::new(),
            current: None,
            channel: FrameChannel::new(),
            latest_generation: 0,
            is_loaded: false,
            last_error: None,
        }
    }

    pub fn latest_generation(&self) -> (r: u64)
        ensures
            r == self@.latest_generation,
    {
        self.latest_generation
    }

    pub fn is_loaded(&self) -> (r: bool)
        ensures
            r == self@.is_loaded,
    {
        self.is_loaded
    }

    pub fn last_error(&self) -> (r: Option<LoadError>)
        ensures
            r == self@.last_error,
    {
        self.last_error
    }

    pub fn transform(&self) -> (r: ViewTransform)
        ensures
            r@ == self@.transform,
    {
        self.transform
    }

    pub fn window_size(&self) -> (r: (u32, u32))
        ensures
            r.0 == self@.win_w,
            r.1 == self@.win_h,
    {
        (self.win_w, self.win_h)
    }

    pub fn current_buffer(&self) -> (r: &Option<PixelBuffer>)
        ensures
            self@.current is Some <==> r is Some,
            r matches Some(b) ==> self@.current == Some(b@),
    {
        &self.current
    }

    pub fn stack_len(&self) -> (r: usize)
        ensures
            r == self@.stack.len(),
    {
        self.stack.len()
    }

    pub fn stack_item(&self, i: usize) -> (r: &OpItem)
        requires
            i < self@.stack.len(),
        ensures
            r@ == self@.stack[i as int],
    {
        self.stack.get(i)
    }

    /// Begins a new load: the next generation becomes current, so every
    /// frame of an earlier generation will from now on be discarded.  The
    /// session shows a load in flight and forgets the previous failure.
    pub fn request_load(&mut self) -> (g: u64)
        requires
            old(self)@.latest_generation < u64::MAX,
        ensures
            g == old(self)@.latest_generation + 1,
            final(self)@ == (SessionV {
                latest_generation: g,
                is_loaded: false,
                last_error: None::<LoadError>,
                ..old(self)@
            }),
    {
        self.latest_generation = self.latest_generation + 1;
        self.is_loaded = false;
        self.last_error = None;
        self.latest_generation
    }

    /// Records a terminal load failure.  The previously displayed image is
    /// left intact; only the failure message and the in-flight flag change.
    pub fn record_error(&mut self, e: LoadError)
        ensures
            final(self)@ == (SessionV {
                last_error: Some(e),
                is_loaded: true,
                ..old(self)@
            }),
    {
        self.last_error = Some(e);
        self.is_loaded = true;
    }

    /// Publishes a frame into the session's channel, behind every frame
    /// published before it.
    pub fn publish(&mut self, msg: FrameMsg)
        requires
            msg.buffer.wf(),
        ensures
            final(self)@ == (SessionV { channel: old(self)@.channel.push(msg@), ..old(self)@ }),
    {
        self.channel.publish(msg);
    }

    /// One presentation tick.  Returns whether another redraw should be
    /// requested right away: more frames are pending or a load is still in
    /// flight.
    pub fn on_tick(&mut self) -> (redraw: bool)
        requires
            old(self).wf(),
        ensures
            final(self).wf(),
            final(self)@ == tick_spec(old(self)@),
            redraw == (final(self)@.channel.len() > 0 || !final(self)@.is_loaded),
    {
        let polled = self.channel.poll();
        match polled {
            None => {},
            Some(m) => {
                if m.generation == self.latest_generation {
                    let w = m.buffer.width();
                    let h = m.buffer.height();
                    if 1 <= w && w <= MAX_DIM && 1 <= h && h <= MAX_DIM {
                        self.transform.reset(self.win_w, self.win_h, w, h);
                    }
                    self.current = Some(m.buffer);
                    self.is_loaded = true;
                }
            },
        }
        self.channel.len() > 0 || !self.is_loaded
    }

    /// Cursor-anchored zoom, forwarded to the view transform.
    pub fn on_zoom(&mut self, wheel: i32, cursor: Vec2) -> (applied: bool)
        requires
            old(self).wf(),
            cursor.wf(),
        ensures
            final(self).wf(),
            applied == zoom_applies(old(self)@.transform, wheel as int, cursor@),
            applied ==> final(self)@ == (SessionV {
                transform: ViewTransformV {
                    scale: zoom_scale(old(self)@.transform.scale, wheel as int),
                    offset: Vec2r {
                        x: zoom_offset_axis(
                            old(self)@.transform.offset.x,
                            cursor@.x,
                            old(self)@.transform.scale,
                            zoom_scale(old(self)@.transform.scale, wheel as int),
                        ),
                        y: zoom_offset_axis(
                            old(self)@.transform.offset.y,
                            cursor@.y,
                            old(self)@.transform.scale,
                            zoom_scale(old(self)@.transform.scale, wheel as int),
                        ),
                    },
                    fit_mode: false,
                },
                ..old(self)@
            }),
            !applied ==> final(self)@ == old(self)@,
    {
        self.transform.on_zoom(wheel, cursor)
    }

    /// Pan by a window-space delta, forwarded to the view transform.
    pub fn on_pan(&mut self, delta: Vec2) -> (applied: bool)
        requires
            old(self).wf(),
            delta.wf(),
        ensures
            final(self).wf(),
            applied == pan_fits(old(self)@.transform, delta@),
            applied ==> final(self)@ == (SessionV {
                transform: ViewTransformV {
                    scale: old(self)@.transform.scale,
                    offset: Vec2r {
                        x: rat_add(old(self)@.transform.offset.x, delta@.x),
                        y: rat_add(old(self)@.transform.offset.y, delta@.y),
                    },
                    fit_mode: false,
                },
                ..old(self)@
            }),
            !applied ==> final(self)@ == old(self)@,
    {
        self.transform.on_pan(delta)
    }

    /// Explicit fit-to-window reset, on user request or when a new frame
    /// demands it.  Does nothing without an image or with one whose
    /// dimensions the fit computation cannot take.
    pub fn reset_view(&mut self) -> (applied: bool)
        requires
            old(self).wf(),
        ensures
            final(self).wf(),
            applied == (old(self)@.current matches Some(b) && 1 <= b.width <= MAX_DIM && 1
                <= b.height <= MAX_DIM),
            applied ==> (old(self)@.current matches Some(b) && final(self)@ == (SessionV {
                transform: fit_transform(
                    old(self)@.win_w as int,
                    old(self)@.win_h as int,
                    b.width,
                    b.height,
                ),
                ..old(self)@
            })),
            !applied ==> final(self)@ == old(self)@,
    {
        match &self.current {
            None => false,
            Some(b) => {
                let w = b.width();
                let h = b.height();
                if 1 <= w && w <= MAX_DIM && 1 <= h && h <= MAX_DIM {
                    self.transform.reset(self.win_w, self.win_h, w, h);
                    true
                } else {
                    false
                }
            },
        }
    }

    /// Window resize: the stored window size always follows; the transform
    /// recomputes the fit in fit mode, or re-centers a centered image, as
    /// its own contract states.
    pub fn on_resize(&mut self, new_w: u32, new_h: u32) -> (recentered: bool)
        requires
            old(self).wf(),
            1 <= new_w <= MAX_DIM,
            1 <= new_h <= MAX_DIM,
        ensures
            final(self).wf(),
            final(self)@.win_w == new_w,
            final(self)@.win_h == new_h,
            final(self)@.stack == old(self)@.stack,
            final(self)@.current == old(self)@.current,
            final(self)@.channel == old(self)@.channel,
            final(self)@.latest_generation == old(self)@.latest_generation,
            final(self)@.is_loaded == old(self)@.is_loaded,
            final(self)@.last_error == old(self)@.last_error,
            (old(self)@.current matches Some(b) && 1 <= b.width <= MAX_DIM && 1 <= b.height
                <= MAX_DIM) ==> (old(self)@.transform.fit_mode ==> final(self)@.transform
                == fit_transform(
                new_w as int,
                new_h as int,
                old(self)@.current.unwrap().width,
                old(self)@.current.unwrap().height,
            )),
            !(old(self)@.current matches Some(b) && 1 <= b.width <= MAX_DIM && 1 <= b.height
                <= MAX_DIM) ==> final(self)@.transform == old(self)@.transform,
    {
        let (iw, ih) = match &self.current {
            None => (0u32, 0u32),
            Some(b) => (b.width(), b.height()),
        };
        let mut recentered = false;
        if 1 <= iw && iw <= MAX_DIM && 1 <= ih && ih <= MAX_DIM {
            recentered = self.transform.on_resize(new_w, new_h, iw, ih, self.win_w, self.win_h);
        }
        self.win_w = new_w;
        self.win_h = new_h;
        recentered
    }

    /// Appends an operation, under the stack's singleton rule.
    pub fn push_operation(&mut self, item: OpItem) -> (accepted: bool)
        ensures
            accepted == !(is_singleton_kind(item@.operation.kind()) && has_active_of_kind(
                old(self)@.stack,
                item@.operation.kind(),
            )),
            accepted ==> final(self)@ == (SessionV {
                stack: old(self)@.stack.push(item@),
                ..old(self)@
            }),
            !accepted ==> final(self)@ == old(self)@,
    {
        self.stack.push(item)
    }

    /// The displayed buffer: every active operation applied, in stack
    /// order, on top of the current frame.
    pub fn displayed(&self) -> (r: Option<PixelBuffer>)
        requires
            self.wf(),
        ensures
            self@.current is None ==> r is None,
            self@.current matches Some(b) ==> (r matches Some(d) && d@ == apply_all_spec(
                self@.stack,
                b,
            ) && d.wf()),
    {
        match &self.current {
            None => None,
            Some(b) => Some(self.stack.apply_all(b)),
        }
    }

    /// The pixel coordinate under the cursor and its color, if the cursor
    /// is over the image.
    pub fn cursor_sample(&self, cursor: Vec2) -> (r: Option<(PixelPoint, Rgba)>)
        requires
            self.wf(),
            cursor.wf(),
        ensures
            r == sample_spec(self@, cursor@),
    {
        let b = match &self.current {
            None => {
                return None;
            },
            Some(b) => b,
        };
        let mapped = match self.transform.window_to_image(cursor) {
            None => {
                return None;
            },
            Some(v) => v,
        };
        if mapped.x.is_negative() || mapped.y.is_negative() {
            return None;
        }
        let px = mapped.x.floor_saturating();
        let py = mapped.y.floor_saturating();
        if px < b.width() && py < b.height() {
            Some((PixelPoint { x: px, y: py }, b.get_pixel(px, py)))
        } else {
            None
        }
    }

    /// Press phase of the pointer gesture: converts the cursor to image
    /// space and begins a fresh shape on every active measurement entry.
    /// Without a usable mapping the stack is untouched.
    pub fn pointer_press(&mut self, cursor: Vec2) -> (applied: bool)
        requires
            old(self).wf(),
            cursor.wf(),
        ensures
            final(self).wf(),
            applied == (cursor_pixel_spec(old(self)@.transform, cursor@) is Some),
            applied ==> final(self)@ == (SessionV {
                stack: items_written(
                    old(self)@.stack,
                    cursor_pixel_spec(old(self)@.transform, cursor@).unwrap(),
                    true,
                ),
                ..old(self)@
            }),
            !applied ==> final(self)@ == old(self)@,
    {
        match self.cursor_to_pixel(cursor) {
            None => false,
            Some(p) => {
                self.stack.gesture_begin(p);
                true
            },
        }
    }

    /// Drag phase of the pointer gesture: extends the shape's end point.
    pub fn pointer_drag(&mut self, cursor: Vec2) -> (applied: bool)
        requires
            old(self).wf(),
            cursor.wf(),
        ensures
            final(self).wf(),
            applied == (cursor_pixel_spec(old(self)@.transform, cursor@) is Some),
            applied ==> final(self)@ == (SessionV {
                stack: items_written(
                    old(self)@.stack,
                    cursor_pixel_spec(old(self)@.transform, cursor@).unwrap(),
                    false,
                ),
                ..old(self)@
            }),
            !applied ==> final(self)@ == old(self)@,
    {
        match self.cursor_to_pixel(cursor) {
            None => false,
            Some(p) => {
                self.stack.gesture_extend(p);
                true
            },
        }
    }

    /// Release phase of the pointer gesture: finalizes the shape's end
    /// point where the pointer was released.
    pub fn pointer_release(&mut self, cursor: Vec2) -> (applied: bool)
        requires
            old(self).wf(),
            cursor.wf(),
        ensures
            final(self).wf(),
            applied == (cursor_pixel_spec(old(self)@.transform, cursor@) is Some),
            applied ==> final(self)@ == (SessionV {
                stack: items_written(
                    old(self)@.stack,
                    cursor_pixel_spec(old(self)@.transform, cursor@).unwrap(),
                    false,
                ),
                ..old(self)@
            }),
            !applied ==> final(self)@ == old(self)@,
    {
        match self.cursor_to_pixel(cursor) {
            None => false,
            Some(p) => {
                self.stack.gesture_finalize(p);
                true
            },
        }
    }

    fn cursor_to_pixel(&self, cursor: Vec2) -> (r: Option<PixelPoint>)
        requires
            self.wf(),
            cursor.wf(),
        ensures
            r == cursor_pixel_spec(self@.transform, cursor@),
    {
        let mapped = match self.transform.window_to_image(cursor) {
            None => {
                return None;
            },
            Some(v) => v,
        };
        let px: u32 = if mapped.x.is_negative() {
            0
        } else {
            mapped.x.floor_saturating()
        };
        let py: u32 = if mapped.y.is_negative() {
            0
        } else {
            mapped.y.floor_saturating()
        };
        Some(PixelPoint { x: px, y: py })
    }
}

/// Law: generation discard.  Once a newer load has been requested, a tick
/// that meets a frame of any other generation leaves the displayed buffer,
/// the loaded flag and the view transform exactly as they were: a slow,
/// superseded load can never clobber a fresher one, whatever the publish
/// interleaving, because every tick takes frames in publish order and this
/// holds of each one.
pub proof fn lemma_generation_discard(s: SessionV)
    requires
        s.channel.len() > 0,
        s.channel[0].generation != s.latest_generation,
    ensures
        tick_spec(s).current == s.current,
        tick_spec(s).is_loaded == s.is_loaded,
        tick_spec(s).transform == s.transform,
        tick_spec(s).channel == s.channel.drop_first(),
{
}

/// Law: a request makes every earlier generation stale.  After
/// `request_load` the latest generation exceeds every generation issued
/// before it, so the discard law applies to all of their frames.
pub proof fn lemma_request_supersedes(s: SessionV, g: u64)
    requires
        g <= s.latest_generation,
        s.latest_generation < u64::MAX,
    ensures
        g != s.latest_generation + 1,
{
}

} // verus!
