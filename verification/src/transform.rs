//! The view-space transform: scale and offset of the displayed image
//! relative to the window, with the forward (image to window) and inverse
//! (window to image) coordinate mappings.
//!
//! The transform is mutated by zoom, pan, resize and fit-to-window reset
//! events; nothing else touches it.  All arithmetic is exact, so the inverse
//! mapping really inverts the forward one, and zooming keeps the image point
//! under the cursor fixed; both laws are proved at the end of the module.
//!
//! A mutation whose unreduced intermediate fractions would no longer fit in
//! `i64` parts leaves the transform unchanged instead of committing a wrong
//! value; each contract says exactly when that happens.

use vstd::prelude::*;

use crate::rational::Frac;
use crate::rational::Rat;
use crate::rational::lemma_add_cong_left;
use crate::rational::lemma_add_sub_cancel;
use crate::rational::lemma_div_cong_left;
use crate::rational::lemma_mul_div_cancel;
use crate::rational::lemma_pos_prod;
use crate::rational::lemma_prod_bounds;
use crate::rational::lemma_rat_eq_trans;
use crate::rational::lemma_wf_add;
use crate::rational::lemma_wf_div;
use crate::rational::lemma_wf_mul;
use crate::rational::lemma_wf_sub;
use crate::rational::rat_add;
use crate::rational::rat_div;
use crate::rational::rat_eq;
use crate::rational::rat_fits;
use crate::rational::rat_le;
use crate::rational::rat_mul;
use crate::rational::rat_of_int;
use crate::rational::rat_sub;
use crate::rational::rat_wf;

verus! {

/// Largest window or image dimension the fit computation accepts; keeps
/// every unreduced fraction of the fit rule inside `i64` parts.
pub const MAX_DIM: u32 = 0x4000_0000;

/// A point or displacement in window space, as exact fractions.
#[derive(Clone, Copy, Debug)]
pub struct Vec2 {
    pub x: Frac,
    pub y: Frac,
}

/// Mathematical model of a `Vec2`.
pub struct Vec2r {
    pub x: Rat,
    pub y: Rat,
}

impl View for Vec2 {
    type V = Vec2r;

    open spec fn view(&self) -> Vec2r {
        Vec2r { x: self.x@, y: self.y@ }
    }
}

impl Vec2 {
    pub open spec fn wf(self) -> bool {
        self.x.wf() && self.y.wf()
    }

    pub fn new(x: Frac, y: Frac) -> (r: Self)
        ensures
            r@ == (Vec2r { x: x@, y: y@ }),
    {
        Vec2 { x, y }
    }
}

/// Forward mapping of one axis: image-space p to window space.
pub open spec fn image_to_window_axis(scale: Rat, offset: Rat, p: Rat) -> Rat {
    rat_add(rat_mul(p, scale), offset)
}

/// Inverse mapping of one axis: window-space w to image space.
pub open spec fn window_to_image_axis(scale: Rat, offset: Rat, w: Rat) -> Rat {
    rat_div(rat_sub(w, offset), scale)
}

/// Mathematical model of a `ViewTransform`.
pub struct ViewTransformV {
    pub scale: Rat,
    pub offset: Vec2r,
    pub fit_mode: bool,
}

impl ViewTransformV {
    /// Well-formed model: positive scale, positive denominators.
    pub open spec fn wf(self) -> bool {
        rat_wf(self.scale) && self.scale.num > 0 && rat_wf(self.offset.x) && rat_wf(
            self.offset.y,
        )
    }
}

/// Current scale and offset of the displayed image relative to the window.
/// `offset` is the window-space position of the image's top-left corner.
/// While `fit_mode` holds, scale and offset follow the fit-to-window rule
/// for the last window and image sizes the transform was reset with.
#[derive(Clone, Copy, Debug)]
pub struct ViewTransform {
    scale: Frac,
    offset: Vec2,
    fit_mode: bool,
}

impl View for ViewTransform {
    type V = ViewTransformV;

    closed spec fn view(&self) -> ViewTransformV {
        ViewTransformV { scale: self.scale@, offset: self.offset@, fit_mode: self.fit_mode }
    }
}

/// Whether the inverse mapping of one axis stays within `i64` fraction parts.
pub open spec fn window_to_image_axis_fits(scale: Rat, offset: Rat, w: Rat) -> bool {
    rat_fits(rat_sub(w, offset)) && rat_fits(window_to_image_axis(scale, offset, w))
}

/// Whether the forward mapping of one axis stays within `i64` fraction parts.
pub open spec fn image_to_window_axis_fits(scale: Rat, offset: Rat, p: Rat) -> bool {
    rat_fits(rat_mul(p, scale)) && rat_fits(image_to_window_axis(scale, offset, p))
}

impl ViewTransform {
    pub open spec fn wf(self) -> bool {
        self@.wf()
    }

    /// Identity transform: scale 1, offset 0, not in fit mode.
    pub fn identity() -> (r: Self)
        ensures
            r@.scale == rat_of_int(1),
            r@.offset.x == rat_of_int(0),
            r@.offset.y == rat_of_int(0),
            !r@.fit_mode,
            r.wf(),
    {
        ViewTransform {
            scale: Frac::from_int(1),
            offset: Vec2::new(Frac::from_int(0), Frac::from_int(0)),
            fit_mode: false,
        }
    }

    pub fn scale(&self) -> (r: Frac)
        ensures
            r@ == self@.scale,
    {
        self.scale
    }

    pub fn offset(&self) -> (r: Vec2)
        ensures
            r@ == self@.offset,
    {
        self.offset
    }

    pub fn fit_mode(&self) -> (r: bool)
        ensures
            r == self@.fit_mode,
    {
        self.fit_mode
    }

    /// Maps a window-space position to the image-space point under it:
    /// `(w - offset) / scale` on each axis.  Returns `None` exactly when an
    /// unreduced intermediate fraction no longer fits.
    pub fn window_to_image(&self, w: Vec2) -> (r: Option<Vec2>)
        requires
            self.wf(),
            w.wf(),
        ensures
            r is Some <==> window_to_image_axis_fits(self@.scale, self@.offset.x, w@.x)
                && window_to_image_axis_fits(self@.scale, self@.offset.y, w@.y),
            r matches Some(v) ==> v@.x == window_to_image_axis(self@.scale, self@.offset.x, w@.x)
                && v@.y == window_to_image_axis(self@.scale, self@.offset.y, w@.y) && v.wf(),
    {
        let dx = match w.x.checked_sub(self.offset.x) {
            Some(d) => d,
            None => {
                return None;
            },
        };
        let dy = match w.y.checked_sub(self.offset.y) {
            Some(d) => d,
            None => {
                return None;
            },
        };
        let ix = match dx.checked_div(self.scale) {
            Some(v) => v,
            None => {
                return None;
            },
        };
        let iy = match dy.checked_div(self.scale) {
            Some(v) => v,
            None => {
                return None;
            },
        };
        Some(Vec2::new(ix, iy))
    }

    /// Maps an image-space point to its window-space position:
    /// `p * scale + offset` on each axis.  Returns `None` exactly when an
    /// unreduced intermediate fraction no longer fits.
    pub fn image_to_window(&self, p: Vec2) -> (r: Option<Vec2>)
        requires
            self.wf(),
            p.wf(),
        ensures
            r is Some <==> image_to_window_axis_fits(self@.scale, self@.offset.x, p@.x)
                && image_to_window_axis_fits(self@.scale, self@.offset.y, p@.y),
            r matches Some(v) ==> v@.x == image_to_window_axis(self@.scale, self@.offset.x, p@.x)
                && v@.y == image_to_window_axis(self@.scale, self@.offset.y, p@.y) && v.wf(),
    {
        let sx = match p.x.checked_mul(self.scale) {
            Some(v) => v,
            None => {
                return None;
            },
        };
        let sy = match p.y.checked_mul(self.scale) {
            Some(v) => v,
            None => {
                return None;
            },
        };
        let wx = match sx.checked_add(self.offset.x) {
            Some(v) => v,
            None => {
                return None;
            },
        };
        let wy = match sy.checked_add(self.offset.y) {
            Some(v) => v,
            None => {
                return None;
            },
        };
        Some(Vec2::new(wx, wy))
    }
}

/// The fit-to-window scale: `min(win_w / img_w, win_h / img_h, 1)`.
pub open spec fn fit_scale(win_w: int, win_h: int, img_w: int, img_h: int) -> Rat {
    let rx = Rat { num: win_w, den: img_w };
    let ry = Rat { num: win_h, den: img_h };
    let m = if rat_le(rx, ry) {
        rx
    } else {
        ry
    };
    if rat_le(m, rat_of_int(1)) {
        m
    } else {
        rat_of_int(1)
    }
}

/// Offset of one axis that centers an image of size `img` scaled by `scale`
/// in a window of size `win`: `(win - img * scale) / 2`.
pub open spec fn centered_axis(win: int, img: int, scale: Rat) -> Rat {
    rat_mul(rat_sub(rat_of_int(win), rat_mul(rat_of_int(img), scale)), Rat { num: 1, den: 2 })
}

/// Computes `(win - img * s) / 2` exactly.
fn center_axis(win: u32, img: u32, s: Frac) -> (r: Frac)
    requires
        1 <= win <= MAX_DIM,
        1 <= img <= MAX_DIM,
        s.wf(),
        0 < s@.num <= MAX_DIM,
        s@.den <= MAX_DIM,
    ensures
        r@ == centered_axis(win as int, img as int, s@),
        r.wf(),
{
    let imgf = Frac::from_int(img as i64);
    let prod = match imgf.checked_mul(s) {
        Some(p) => p,
        None => {
            proof {
                lemma_prod_bounds(img as int, s@.num, MAX_DIM as int, MAX_DIM as int);
                lemma_prod_bounds(1, s@.den, 1, MAX_DIM as int);
            }
            unreached()
        },
    };
    let winf = Frac::from_int(win as i64);
    let diff = match winf.checked_sub(prod) {
        Some(d) => d,
        None => {
            proof {
                lemma_prod_bounds(win as int, prod@.den, MAX_DIM as int, MAX_DIM as int);
                lemma_prod_bounds(img as int, s@.num, MAX_DIM as int, MAX_DIM as int);
            }
            unreached()
        },
    };
    let half = Frac::new(1, 2);
    match diff.checked_mul(half) {
        Some(r) => r,
        None => {
            proof {
                crate::rational::lemma_frac_fits(diff);
                lemma_prod_bounds(diff@.den, 2, MAX_DIM as int * MAX_DIM as int, 2);
            }
            unreached()
        },
    }
}

impl ViewTransform {
    /// Fit-to-window reset: scale becomes `min(win_w/img_w, win_h/img_h, 1)`
    /// and the offset centers the scaled image in the window.  Triggered on
    /// new-frame arrival and on explicit user request; enters fit mode.
    pub fn reset(&mut self, win_w: u32, win_h: u32, img_w: u32, img_h: u32)
        requires
            1 <= win_w <= MAX_DIM,
            1 <= win_h <= MAX_DIM,
            1 <= img_w <= MAX_DIM,
            1 <= img_h <= MAX_DIM,
        ensures
            final(self)@.scale == fit_scale(win_w as int, win_h as int, img_w as int, img_h as int),
            final(self)@.offset.x == centered_axis(win_w as int, img_w as int, final(self)@.scale),
            final(self)@.offset.y == centered_axis(win_h as int, img_h as int, final(self)@.scale),
            final(self)@.fit_mode,
            final(self).wf(),
    {
        let rx = Frac::new(win_w as i64, img_w as i64);
        let ry = Frac::new(win_h as i64, img_h as i64);
        let one = Frac::from_int(1);
        let s = rx.min(ry).min(one);
        let off_x = center_axis(win_w, img_w, s);
        let off_y = center_axis(win_h, img_h, s);
        self.scale = s;
        self.offset = Vec2::new(off_x, off_y);
        self.fit_mode = true;
    }
}

/// New scale after a wheel step: `scale * (10 + wheel) / 10`.  The step is
/// proportional to the current scale, so zooming feels the same at every
/// zoom level, and a step of `wheel <= -10` is rejected before this is used,
/// which keeps the scale positive.
pub open spec fn zoom_scale(scale: Rat, wheel: int) -> Rat {
    rat_mul(scale, Rat { num: 10 + wheel, den: 10 })
}

/// Offset of one axis after a cursor-anchored zoom:
/// `offset - (cursor - offset) * ((new_scale - scale) / scale)`.
pub open spec fn zoom_offset_axis(offset: Rat, cursor: Rat, scale: Rat, new_scale: Rat) -> Rat {
    rat_sub(offset, rat_mul(rat_sub(cursor, offset), rat_div(rat_sub(new_scale, scale), scale)))
}

/// Whether one axis of the zoom update stays within `i64` fraction parts.
pub open spec fn zoom_axis_fits(offset: Rat, cursor: Rat, scale: Rat, new_scale: Rat) -> bool {
    let x = rat_sub(cursor, offset);
    let q = rat_div(rat_sub(new_scale, scale), scale);
    rat_fits(x) && rat_fits(rat_mul(x, q)) && rat_fits(rat_sub(offset, rat_mul(x, q)))
}

/// Whether the whole zoom update stays within `i64` fraction parts.
pub open spec fn zoom_fits(t: ViewTransformV, wheel: int, c: Vec2r) -> bool {
    let ns = zoom_scale(t.scale, wheel);
    rat_fits(ns) && rat_fits(rat_sub(ns, t.scale)) && rat_fits(
        rat_div(rat_sub(ns, t.scale), t.scale),
    ) && zoom_axis_fits(t.offset.x, c.x, t.scale, ns) && zoom_axis_fits(
        t.offset.y,
        c.y,
        t.scale,
        ns,
    )
}

/// Whether a zoom event mutates the transform at all: the step must keep the
/// scale positive and every unreduced fraction must fit.
pub open spec fn zoom_applies(t: ViewTransformV, wheel: int, c: Vec2r) -> bool {
    wheel > -10 && zoom_fits(t, wheel, c)
}

/// Whether a pan update stays within `i64` fraction parts.
pub open spec fn pan_fits(t: ViewTransformV, d: Vec2r) -> bool {
    rat_fits(rat_add(t.offset.x, d.x)) && rat_fits(rat_add(t.offset.y, d.y))
}

/// Whether the transform's offset centers an image of the given size in the
/// given window at the transform's own scale.
pub open spec fn centered_at(
    t: ViewTransformV,
    win_w: int,
    win_h: int,
    img_w: int,
    img_h: int,
) -> bool {
    rat_eq(t.offset.x, centered_axis(win_w, img_w, t.scale)) && rat_eq(
        t.offset.y,
        centered_axis(win_h, img_h, t.scale),
    )
}

/// Whether the centering offsets for this window and image at scale `s` stay
/// within `i64` fraction parts.
pub open spec fn center_fits(win_w: int, win_h: int, img_w: int, img_h: int, s: Rat) -> bool {
    center_axis_fits(win_w, img_w, s) && center_axis_fits(win_h, img_h, s)
}

pub open spec fn center_axis_fits(win: int, img: int, s: Rat) -> bool {
    rat_fits(rat_mul(rat_of_int(img), s)) && rat_fits(
        rat_sub(rat_of_int(win), rat_mul(rat_of_int(img), s)),
    ) && rat_fits(centered_axis(win, img, s))
}

/// Computes `(win - img * s) / 2` exactly, or `None` when an unreduced
/// fraction no longer fits (possible here because `s` is arbitrary).
fn center_axis_checked(win: u32, img: u32, s: Frac) -> (r: Option<Frac>)
    requires
        s.wf(),
    ensures
        r is Some <==> center_axis_fits(win as int, img as int, s@),
        r matches Some(v) ==> v@ == centered_axis(win as int, img as int, s@) && v.wf(),
{
    let imgf = Frac::from_int(img as i64);
    let prod = match imgf.checked_mul(s) {
        Some(p) => p,
        None => {
            return None;
        },
    };
    let winf = Frac::from_int(win as i64);
    let diff = match winf.checked_sub(prod) {
        Some(d) => d,
        None => {
            return None;
        },
    };
    let half = Frac::new(1, 2);
    diff.checked_mul(half)
}

impl ViewTransform {
    /// Cursor-anchored zoom.  The new scale is `scale * (10 + wheel) / 10`
    /// and the offset moves so the image point under `cursor` stays under
    /// the cursor (the anchoring law is proved below).  The update is
    /// rejected - transform unchanged, `false` returned - when the step
    /// would make the scale non-positive or an unreduced fraction would no
    /// longer fit.  A zoom leaves fit mode: the scale is now user-chosen.
    pub fn on_zoom(&mut self, wheel: i32, cursor: Vec2) -> (applied: bool)
        requires
            old(self).wf(),
            cursor.wf(),
        ensures
            final(self).wf(),
            applied == zoom_applies(old(self)@, wheel as int, cursor@),
            applied ==> final(self)@.scale == zoom_scale(old(self)@.scale, wheel as int)
                && final(self)@.offset.x == zoom_offset_axis(
                old(self)@.offset.x,
                cursor@.x,
                old(self)@.scale,
                final(self)@.scale,
            ) && final(self)@.offset.y == zoom_offset_axis(
                old(self)@.offset.y,
                cursor@.y,
                old(self)@.scale,
                final(self)@.scale,
            ) && !final(self)@.fit_mode,
            !applied ==> *final(self) == *old(self),
    {
        if wheel <= -10 {
            return false;
        }
        let factor = Frac::new(wheel as i64 + 10, 10);
        let ns = match self.scale.checked_mul(factor) {
            Some(v) => v,
            None => {
                return false;
            },
        };
        proof {
            lemma_pos_prod(self@.scale.num, wheel as int + 10);
        }
        let d = match ns.checked_sub(self.scale) {
            Some(v) => v,
            None => {
                return false;
            },
        };
        let q = match d.checked_div(self.scale) {
            Some(v) => v,
            None => {
                return false;
            },
        };
        let cx = match cursor.x.checked_sub(self.offset.x) {
            Some(v) => v,
            None => {
                return false;
            },
        };
        let mx = match cx.checked_mul(q) {
            Some(v) => v,
            None => {
                return false;
            },
        };
        let ox = match self.offset.x.checked_sub(mx) {
            Some(v) => v,
            None => {
                return false;
            },
        };
        let cy = match cursor.y.checked_sub(self.offset.y) {
            Some(v) => v,
            None => {
                return false;
            },
        };
        let my = match cy.checked_mul(q) {
            Some(v) => v,
            None => {
                return false;
            },
        };
        let oy = match self.offset.y.checked_sub(my) {
            Some(v) => v,
            None => {
                return false;
            },
        };
        self.scale = ns;
        self.offset = Vec2::new(ox, oy);
        self.fit_mode = false;
        true
    }

    /// Pan: `offset += delta`, with no clamping - the image may be dragged
    /// fully off-window on purpose.  Rejected only when the unreduced sum no
    /// longer fits.  A pan leaves fit mode: the offset is now user-chosen.
    pub fn on_pan(&mut self, delta: Vec2) -> (applied: bool)
        requires
            old(self).wf(),
            delta.wf(),
        ensures
            final(self).wf(),
            applied == pan_fits(old(self)@, delta@),
            applied ==> final(self)@.scale == old(self)@.scale && final(self)@.offset.x == rat_add(
                old(self)@.offset.x,
                delta@.x,
            ) && final(self)@.offset.y == rat_add(old(self)@.offset.y, delta@.y) && !final(self)@.fit_mode,
            !applied ==> *final(self) == *old(self),
    {
        let ox = match self.offset.x.checked_add(delta.x) {
            Some(v) => v,
            None => {
                return false;
            },
        };
        let oy = match self.offset.y.checked_add(delta.y) {
            Some(v) => v,
            None => {
                return false;
            },
        };
        self.offset = Vec2::new(ox, oy);
        self.fit_mode = false;
        true
    }

    /// Window resize.  In fit mode the fit rule is recomputed for the new
    /// window.  Outside fit mode the scale is preserved, and the offset is
    /// re-centered only if the image was centered in the old window (decided
    /// exactly, where the centering fractions fit; when they do not fit the
    /// transform is left unchanged).
    pub fn on_resize(
        &mut self,
        win_w: u32,
        win_h: u32,
        img_w: u32,
        img_h: u32,
        old_win_w: u32,
        old_win_h: u32,
    ) -> (recentered: bool)
        requires
            old(self).wf(),
            1 <= win_w <= MAX_DIM,
            1 <= win_h <= MAX_DIM,
            1 <= img_w <= MAX_DIM,
            1 <= img_h <= MAX_DIM,
            1 <= old_win_w <= MAX_DIM,
            1 <= old_win_h <= MAX_DIM,
        ensures
            final(self).wf(),
            old(self)@.fit_mode ==> recentered && final(self)@.scale == fit_scale(
                win_w as int,
                win_h as int,
                img_w as int,
                img_h as int,
            ) && final(self)@.offset.x == centered_axis(
                win_w as int,
                img_w as int,
                final(self)@.scale,
            ) && final(self)@.offset.y == centered_axis(
                win_h as int,
                img_h as int,
                final(self)@.scale,
            ) && final(self)@.fit_mode,
            !old(self)@.fit_mode ==> {
                let was = center_fits(
                    old_win_w as int,
                    old_win_h as int,
                    img_w as int,
                    img_h as int,
                    old(self)@.scale,
                ) && centered_at(
                    old(self)@,
                    old_win_w as int,
                    old_win_h as int,
                    img_w as int,
                    img_h as int,
                ) && center_fits(
                    win_w as int,
                    win_h as int,
                    img_w as int,
                    img_h as int,
                    old(self)@.scale,
                );
                recentered == was && (was ==> final(self)@.scale == old(self)@.scale && final(self)@.offset.x == centered_axis(win_w as int, img_w as int, old(self)@.scale) && final(self)@.offset.y == centered_axis(win_h as int, img_h as int, old(self)@.scale) && !final(self)@.fit_mode) && (!was ==> *final(self) == *old(self))
            },
    {
        if self.fit_mode {
            self.reset(win_w, win_h, img_w, img_h);
            return true;
        }
        let cx_old = match center_axis_checked(old_win_w, img_w, self.scale) {
            Some(v) => v,
            None => {
                return false;
            },
        };
        let cy_old = match center_axis_checked(old_win_h, img_h, self.scale) {
            Some(v) => v,
            None => {
                return false;
            },
        };
        if !(self.offset.x.eq_rat(cx_old) && self.offset.y.eq_rat(cy_old)) {
            return false;
        }
        let cx_new = match center_axis_checked(win_w, img_w, self.scale) {
            Some(v) => v,
            None => {
                return false;
            },
        };
        let cy_new = match center_axis_checked(win_h, img_h, self.scale) {
            Some(v) => v,
            None => {
                return false;
            },
        };
        self.offset = Vec2::new(cx_new, cy_new);
        true
    }
}

/// Law: for any well-formed transform (positive scale) and any window-space
/// coordinate, mapping into image space and back to window space returns the
/// original coordinate, exactly.  Stated per axis; both axes of the
/// two-dimensional mappings are instances of it.
pub proof fn lemma_window_round_trip(scale: Rat, offset: Rat, w: Rat)
    requires
        rat_wf(scale),
        scale.num > 0,
        rat_wf(offset),
        rat_wf(w),
    ensures
        rat_eq(image_to_window_axis(scale, offset, window_to_image_axis(scale, offset, w)), w),
{
    let x = rat_sub(w, offset);
    let q = rat_div(x, scale);
    let m = rat_mul(q, scale);
    lemma_wf_sub(w, offset);
    lemma_wf_div(x, scale);
    lemma_wf_mul(q, scale);
    lemma_wf_add(m, offset);
    lemma_wf_add(x, offset);
    // m == (w - offset) / scale * scale collapses to w - offset ...
    lemma_mul_div_cancel(x, scale);
    // ... so adding the offset back on both shapes agrees ...
    lemma_add_cong_left(m, x, offset);
    // ... and subtracting then adding the offset returns w.
    lemma_add_sub_cancel(w, offset);
    lemma_rat_eq_trans(rat_add(m, offset), rat_add(x, offset), w);
}

/// Law: cursor-anchored zoom.  For any positive scales before and after the
/// zoom and any cursor position, the image-space point under the cursor
/// before the zoom equals the image-space point under the cursor after it,
/// exactly, when the offset moves by the zoom rule.  Stated per axis; the
/// new scale is arbitrary, so the law covers any step formula.
pub proof fn lemma_zoom_anchor(scale: Rat, new_scale: Rat, offset: Rat, cursor: Rat)
    requires
        rat_wf(scale),
        scale.num > 0,
        rat_wf(new_scale),
        new_scale.num > 0,
        rat_wf(offset),
        rat_wf(cursor),
    ensures
        rat_eq(
            window_to_image_axis(
                new_scale,
                zoom_offset_axis(offset, cursor, scale, new_scale),
                cursor,
            ),
            window_to_image_axis(scale, offset, cursor),
        ),
{
    let x = rat_sub(cursor, offset);
    let d = rat_sub(new_scale, scale);
    let e = rat_div(d, scale);
    let m = rat_mul(x, e);
    let o2 = rat_sub(offset, m);
    let ratio = rat_div(new_scale, scale);
    lemma_wf_sub(cursor, offset);
    lemma_wf_sub(new_scale, scale);
    lemma_wf_div(d, scale);
    lemma_wf_mul(x, e);
    lemma_wf_sub(offset, m);
    lemma_wf_sub(cursor, o2);
    lemma_wf_add(x, m);
    lemma_wf_div(new_scale, scale);
    lemma_wf_mul(x, ratio);
    // cursor - (offset - m) rearranges to (cursor - offset) + m ...
    crate::rational::lemma_sub_sub(cursor, offset, m);
    // ... which factors into x * (new_scale / scale) ...
    crate::rational::lemma_zoom_factor(x, scale, new_scale);
    lemma_rat_eq_trans(rat_sub(cursor, o2), rat_add(x, m), rat_mul(x, ratio));
    // ... so dividing by the new scale collapses back to x / scale.
    lemma_div_cong_left(rat_sub(cursor, o2), rat_mul(x, ratio), new_scale);
    crate::rational::lemma_div_mul_div(x, scale, new_scale);
    lemma_wf_div(rat_sub(cursor, o2), new_scale);
    lemma_wf_div(rat_mul(x, ratio), new_scale);
    lemma_wf_div(x, scale);
    lemma_rat_eq_trans(
        rat_div(rat_sub(cursor, o2), new_scale),
        rat_div(rat_mul(x, ratio), new_scale),
        rat_div(x, scale),
    );
}

} // verus!
