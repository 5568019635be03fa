//! The scaling between the pixel grid and its on-screen view.

use vstd::prelude::*;
use crate::error::CanvasError;

verus! {

/// The quotient of `a` by a positive `d`, rounded toward zero.
pub open spec fn trunc_div(a: int, d: int) -> int {
    if a >= 0 {
        a / d
    } else {
        -((-a) / d)
    }
}

/// The mathematical value of a viewport: the zoom factor and the size of
/// the view in screen pixels.
pub struct Viewport {
    pub scale: nat,
    pub view_width: nat,
    pub view_height: nat,
}

impl Viewport {
    /// A viewport is well formed when its scale is at least one, both view
    /// dimensions are whole multiples of the scale, and all three fit in
    /// 32 bits.
    pub open spec fn wf(self) -> bool {
        &&& 1 <= self.scale <= u32::MAX
        &&& self.view_width <= u32::MAX
        &&& self.view_height <= u32::MAX
        &&& self.view_width % self.scale == 0
        &&& self.view_height % self.scale == 0
    }

    /// Whether the view is exactly a grid of `width` by `height` pixels
    /// magnified by the scale.
    pub open spec fn frames(self, width: nat, height: nat) -> bool {
        self.view_width == width * self.scale && self.view_height == height * self.scale
    }

    /// Whether a grid of `width` by `height` pixels, magnified by the
    /// scale, has a view that fits in 32 bits.
    pub open spec fn fits(self, width: nat, height: nat) -> bool {
        width * self.scale <= u32::MAX && height * self.scale <= u32::MAX
    }

    /// This viewport aimed at a grid of `width` by `height` pixels, at the
    /// same scale.
    pub open spec fn retargeted(self, width: nat, height: nat) -> Viewport {
        Viewport {
            scale: self.scale,
            view_width: width * self.scale,
            view_height: height * self.scale,
        }
    }

    /// Whether doubling the scale keeps the scale and the view within
    /// 32 bits.
    pub open spec fn can_zoom_in(self) -> bool {
        &&& 2 * self.scale <= u32::MAX
        &&& 2 * self.view_width <= u32::MAX
        &&& 2 * self.view_height <= u32::MAX
    }

    /// The viewport after zooming in: scale and view doubled, or the
    /// viewport itself where the doubled values would not fit.
    pub open spec fn zoomed_in(self) -> Viewport {
        if self.can_zoom_in() {
            Viewport {
                scale: 2 * self.scale,
                view_width: 2 * self.view_width,
                view_height: 2 * self.view_height,
            }
        } else {
            self
        }
    }

    /// The viewport after zooming out: the scale halved and the view
    /// recomputed for the same grid, or the viewport itself at scale one.
    pub open spec fn zoomed_out(self) -> Viewport {
        if self.scale >= 2 {
            Viewport {
                scale: self.scale / 2,
                view_width: (self.view_width / self.scale) * (self.scale / 2),
                view_height: (self.view_height / self.scale) * (self.scale / 2),
            }
        } else {
            self
        }
    }

    /// The grid position under the view position `(view_x, view_y)`: each
    /// coordinate divided by the scale and rounded toward zero.
    pub open spec fn screen_to_buffer(self, view_x: int, view_y: int) -> (int, int) {
        (trunc_div(view_x, self.scale as int), trunc_div(view_y, self.scale as int))
    }

    /// Whether the view position `(view_x, view_y)` lies inside the view.
    pub open spec fn in_view(self, view_x: int, view_y: int) -> bool {
        0 <= view_x < self.view_width && 0 <= view_y < self.view_height
    }
}

/// The scale factor and the on-screen size that it gives the grid.
#[derive(Clone, Copy, Debug)]
pub struct ViewportTransform {
    scale: u32,
    view_width: u32,
    view_height: u32,
}

impl View for ViewportTransform {
    type V = Viewport;

    closed spec fn view(&self) -> Viewport {
        Viewport {
            scale: self.scale as nat,
            view_width: self.view_width as nat,
            view_height: self.view_height as nat,
        }
    }
}

impl ViewportTransform {
    /// The invariant of a viewport transform.
    pub open spec fn wf(&self) -> bool {
        self@.wf()
    }

    /// The zoom factor.
    pub fn scale(&self) -> (s: u32)
        ensures
            s == self@.scale,
    {
        self.scale
    }

    /// The width of the view in screen pixels.
    pub fn view_width(&self) -> (w: u32)
        ensures
            w == self@.view_width,
    {
        self.view_width
    }

    /// The height of the view in screen pixels.
    pub fn view_height(&self) -> (h: u32)
        ensures
            h == self@.view_height,
    {
        self.view_height
    }

    /// The grid position under a view position: each coordinate divided by
    /// the scale, rounded toward zero.
    pub fn screen_to_buffer(&self, view_x: i32, view_y: i32) -> (r: (i32, i32))
        requires
            self.wf(),
        ensures
            (r.0 as int, r.1 as int) == self@.screen_to_buffer(view_x as int, view_y as int),
    {
        let s: i64 = self.scale as i64;
        let x: i64 = view_x as i64 / s;
        let y: i64 = view_y as i64 / s;
        (x as i32, y as i32)
    }

    /// Whether a view position lies inside the view.
    pub fn contains(&self, view_x: i32, view_y: i32) -> (inside: bool)
        ensures
            inside == self@.in_view(view_x as int, view_y as int),
    {
        view_x >= 0 && view_y >= 0 && (view_x as u32) < self.view_width && (view_y as u32)
            < self.view_height
    }

    /// The viewport that shows a grid of `buffer_width` by `buffer_height`
    /// pixels at `scale`. There is none at scale zero, nor where the view
    /// would not fit in 32 bits.
    pub fn new(scale: u32, buffer_width: u32, buffer_height: u32) -> (r: Option<ViewportTransform>)
        ensures
            r is Some <==> scale >= 1 && buffer_width * scale <= u32::MAX && buffer_height * scale
                <= u32::MAX,
            r matches Some(v) ==> v.wf() && v@.scale == scale && v@.frames(
                buffer_width as nat,
                buffer_height as nat,
            ),
    {
        if scale == 0 {
            return None;
        }
        match (buffer_width.checked_mul(scale), buffer_height.checked_mul(scale)) {
            (Some(view_width), Some(view_height)) => {
                proof {
                    lemma_multiple_divides(buffer_width as nat, scale as nat);
                    lemma_multiple_divides(buffer_height as nat, scale as nat);
                }
                Some(ViewportTransform { scale, view_width, view_height })
            },
            _ => None,
        }
    }

    /// Aims the viewport at a grid of `width` by `height` pixels, keeping
    /// the scale. A grid whose view would not fit in 32 bits is refused,
    /// and the viewport stays as it was.
    pub fn retarget(&mut self, width: u32, height: u32) -> (r: Result<(), CanvasError>)
        requires
            old(self).wf(),
        ensures
            final(self).wf(),
            r is Ok <==> old(self)@.fits(width as nat, height as nat),
            r is Err ==> r == Err::<(), CanvasError>(CanvasError::InvalidDimension),
            r is Ok ==> final(self)@ == old(self)@.retargeted(width as nat, height as nat),
            r is Err ==> final(self)@ == old(self)@,
    {
        match (width.checked_mul(self.scale), height.checked_mul(self.scale)) {
            (Some(view_width), Some(view_height)) => {
                proof {
                    lemma_multiple_divides(width as nat, self.scale as nat);
                    lemma_multiple_divides(height as nat, self.scale as nat);
                }
                self.view_width = view_width;
                self.view_height = view_height;
                Ok(())
            },
            _ => Err(CanvasError::InvalidDimension),
        }
    }

    /// Doubles the scale and the view. Where the doubled values would not
    /// fit in 32 bits the call changes nothing.
    pub fn zoom_in(&mut self)
        requires
            old(self).wf(),
        ensures
            final(self).wf(),
            final(self)@ == old(self)@.zoomed_in(),
    {
        match (
            self.scale.checked_mul(2),
            self.view_width.checked_mul(2),
            self.view_height.checked_mul(2),
        ) {
            (Some(scale), Some(view_width), Some(view_height)) => {
                proof {
                    lemma_zoom_in_wf(self@);
                }
                self.scale = scale;
                self.view_width = view_width;
                self.view_height = view_height;
            },
            _ => {},
        }
    }

    /// Halves the scale and recomputes the view for the same grid. At
    /// scale one the call changes nothing.
    pub fn zoom_out(&mut self)
        requires
            old(self).wf(),
        ensures
            final(self).wf(),
            final(self)@ == old(self)@.zoomed_out(),
    {
        if self.scale >= 2 {
            let half: u32 = self.scale / 2;
            let width: u32 = self.view_width / self.scale;
            let height: u32 = self.view_height / self.scale;
            proof {
                lemma_zoom_out_wf(self@);
            }
            self.scale = half;
            self.view_width = width * half;
            self.view_height = height * half;
        }
    }
}

/// A multiple of a positive number is divisible by it, and dividing gives
/// the other factor back.
pub proof fn lemma_multiple_divides(n: nat, d: nat)
    requires
        d >= 1,
    ensures
        (n * d) % d == 0,
        (n * d) / d == n,
{
    vstd::arithmetic::div_mod::lemma_mod_multiples_basic(n as int, d as int);
    vstd::arithmetic::div_mod::lemma_div_multiples_vanish(n as int, d as int);
}

/// A length that is a whole number of cells at some scale is, doubled, the
/// same number of cells at twice the scale.
pub proof fn lemma_doubled_cells(length: nat, scale: nat)
    requires
        scale >= 1,
        length % scale == 0,
    ensures
        (length / scale) * scale == length,
        (2 * length) % (2 * scale) == 0,
        (2 * length) / (2 * scale) == length / scale,
{
    let cells = length / scale;
    vstd::arithmetic::div_mod::lemma_fundamental_div_mod(length as int, scale as int);
    assert(cells * scale == length && 2 * length == cells * (2 * scale)) by (nonlinear_arith)
        requires
            length == scale * cells,
    ;
    lemma_multiple_divides(cells, 2 * scale);
}

/// Zooming in keeps a viewport well formed.
pub proof fn lemma_zoom_in_wf(v: Viewport)
    requires
        v.wf(),
    ensures
        v.zoomed_in().wf(),
{
    lemma_doubled_cells(v.view_width, v.scale);
    lemma_doubled_cells(v.view_height, v.scale);
}

/// A length that is a whole number of cells at some scale is no shorter
/// than the same number of cells at half the scale, which is again a whole
/// number of cells.
pub proof fn lemma_halved_cells(length: nat, scale: nat)
    requires
        scale >= 2,
        length % scale == 0,
    ensures
        (length / scale) * (scale / 2) <= length,
        ((length / scale) * (scale / 2)) % (scale / 2) == 0,
{
    let cells = length / scale;
    let half = scale / 2;
    vstd::arithmetic::div_mod::lemma_fundamental_div_mod(length as int, scale as int);
    assert(cells * half <= length) by (nonlinear_arith)
        requires
            length == scale * cells,
            0 <= half <= scale,
            0 <= cells,
    ;
    lemma_multiple_divides(cells, half);
}

/// Zooming out keeps a viewport well formed, and the view never grows.
pub proof fn lemma_zoom_out_wf(v: Viewport)
    requires
        v.wf(),
    ensures
        v.zoomed_out().wf(),
        v.zoomed_out().view_width <= v.view_width,
        v.zoomed_out().view_height <= v.view_height,
{
    if v.scale >= 2 {
        lemma_halved_cells(v.view_width, v.scale);
        lemma_halved_cells(v.view_height, v.scale);
    }
}

/// A viewport that frames a grid still frames the same grid after zooming
/// in and after zooming out: the view stays `width * scale` by
/// `height * scale`.
pub proof fn lemma_zoom_keeps_frame(v: Viewport, width: nat, height: nat)
    requires
        v.wf(),
        v.frames(width, height),
    ensures
        v.zoomed_in().wf(),
        v.zoomed_in().frames(width, height),
        v.zoomed_out().wf(),
        v.zoomed_out().frames(width, height),
{
    lemma_zoom_in_wf(v);
    lemma_zoom_out_wf(v);
    lemma_multiple_divides(width, v.scale);
    lemma_multiple_divides(height, v.scale);
    assert(2 * (width * v.scale) == width * (2 * v.scale)) by (nonlinear_arith);
    assert(2 * (height * v.scale) == height * (2 * v.scale)) by (nonlinear_arith);
}

/// A retargeted viewport is well formed where the new grid fits, frames
/// the new grid, and keeps its scale.
pub proof fn lemma_retarget_frames(v: Viewport, width: nat, height: nat)
    requires
        v.wf(),
        v.fits(width, height),
    ensures
        v.retargeted(width, height).wf(),
        v.retargeted(width, height).frames(width, height),
        v.retargeted(width, height).scale == v.scale,
{
    lemma_multiple_divides(width, v.scale);
    lemma_multiple_divides(height, v.scale);
}

/// Zooming out never takes the scale below one, and at scale one it
/// changes nothing, however often it is repeated.
pub proof fn lemma_zoom_out_floor(v: Viewport)
    requires
        v.wf(),
    ensures
        v.zoomed_out().scale >= 1,
        v.zoomed_out().scale <= v.scale,
        v.scale == 1 ==> v.zoomed_out() == v,
        v.zoomed_out().scale == 1 ==> v.zoomed_out().zoomed_out() == v.zoomed_out(),
{
}

/// Zooming out undoes a zoom in that took effect.
pub proof fn lemma_zoom_in_then_out(v: Viewport)
    requires
        v.wf(),
        v.can_zoom_in(),
    ensures
        v.zoomed_in().zoomed_out() == v,
{
    lemma_doubled_cells(v.view_width, v.scale);
    lemma_doubled_cells(v.view_height, v.scale);
}

/// Division rounded toward zero undoes multiplication by the divisor,
/// whatever the sign.
pub proof fn lemma_trunc_div_multiple(x: int, d: int)
    requires
        d >= 1,
    ensures
        trunc_div(x * d, d) == x,
{
    if x >= 0 {
        assert(x * d >= 0 && x * d == d * x) by (nonlinear_arith)
            requires
                x >= 0,
                d >= 1,
        ;
        vstd::arithmetic::div_mod::lemma_div_multiples_vanish(x, d);
    } else {
        assert(x * d < 0 && -(x * d) == d * (-x)) by (nonlinear_arith)
            requires
                x < 0,
                d >= 1,
        ;
        vstd::arithmetic::div_mod::lemma_div_multiples_vanish(-x, d);
    }
}

/// Mapping a view position to the grid is the exact inverse of scaling:
/// the view position `(x * scale, y * scale)` maps to `(x, y)`.
pub proof fn lemma_screen_to_buffer_inverse(v: Viewport, x: int, y: int)
    requires
        v.wf(),
    ensures
        v.screen_to_buffer(x * v.scale, y * v.scale) == (x, y),
{
    lemma_trunc_div_multiple(x, v.scale as int);
    lemma_trunc_div_multiple(y, v.scale as int);
}

/// Every view position inside the magnified cell of a grid position maps
/// to that grid position.
pub proof fn lemma_screen_to_buffer_cell(v: Viewport, x: int, y: int, dx: int, dy: int)
    requires
        v.wf(),
        0 <= x,
        0 <= y,
        0 <= dx < v.scale,
        0 <= dy < v.scale,
    ensures
        v.screen_to_buffer(x * v.scale + dx, y * v.scale + dy) == (x, y),
{
    let s = v.scale as int;
    assert(x * s >= 0 && y * s >= 0) by (nonlinear_arith)
        requires
            x >= 0,
            y >= 0,
            s >= 1,
    ;
    vstd::arithmetic::div_mod::lemma_fundamental_div_mod_converse(x * s + dx, s, x, dx);
    vstd::arithmetic::div_mod::lemma_fundamental_div_mod_converse(y * s + dy, s, y, dy);
}

/// A view position inside the view of a viewport that frames a grid maps
/// to a position inside that grid.
pub proof fn lemma_in_view_maps_into_grid(
    v: Viewport,
    width: nat,
    height: nat,
    view_x: int,
    view_y: int,
)
    requires
        v.wf(),
        v.frames(width, height),
        v.in_view(view_x, view_y),
    ensures
        0 <= v.screen_to_buffer(view_x, view_y).0 < width,
        0 <= v.screen_to_buffer(view_x, view_y).1 < height,
{
    let s = v.scale as int;
    vstd::arithmetic::div_mod::lemma_fundamental_div_mod(view_x, s);
    vstd::arithmetic::div_mod::lemma_fundamental_div_mod(view_y, s);
    vstd::arithmetic::div_mod::lemma_div_pos_is_pos(view_x, s);
    vstd::arithmetic::div_mod::lemma_div_pos_is_pos(view_y, s);
    let bx = view_x / s;
    let by = view_y / s;
    assert(bx < width) by (nonlinear_arith)
        requires
            view_x == s * bx + view_x % s,
            0 <= view_x % s,
            view_x < width * s,
            s >= 1,
    ;
    assert(by < height) by (nonlinear_arith)
        requires
            view_y == s * by + view_y % s,
            0 <= view_y % s,
            view_y < height * s,
            s >= 1,
    ;
}

} // verus!
