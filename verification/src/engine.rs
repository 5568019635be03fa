//! The canvas engine: one pixel buffer, the viewport that shows it, and the
//! operations that edit, zoom and resize them together.

use vstd::prelude::*;
use crate::buffer::{PixelBuffer, PixelGrid};
use crate::decimal::{parse_dimension, parsed};
use crate::error::CanvasError;
use crate::pixel::Pixel;
use crate::viewport::{Viewport, ViewportTransform};

verus! {

/// The scale of a new canvas.
pub const DEFAULT_SCALE: u32 = 8;

/// The share of the available space that is left free as a margin: one
/// part in this many.
pub const MARGIN_DIVISOR: u32 = 4;

/// The space that remains of `available` screen pixels once the margin is
/// taken off.
pub open spec fn usable(available: nat) -> nat {
    (available - available / (MARGIN_DIVISOR as nat)) as nat
}

/// What a user or the refresh timer asks of the canvas.
#[derive(Debug, PartialEq, Eq)]
pub enum Msg {
    /// The refresh timer fired: the canvas is to be painted.
    RenderCanvas,
    /// Clear the canvas.
    ResetCanvas,
    /// Fit the canvas to a display area of this width and height.
    FitCanvas(u32, u32),
    /// Give every pixel a random colour.
    RandomizeCanvas,
    /// A click at this view position: invert the pixel under it.
    TogglePixel(i32, i32),
    /// Zoom in.
    ZoomIn,
    /// Zoom out.
    ZoomOut,
    /// The width input now holds this text.
    WidthInput(String),
    /// The height input now holds this text.
    HeightInput(String),
    /// Apply the pending size input.
    SetSize,
}

/// One painted image of the canvas, as a renderer takes it: the pixels as
/// RGBA bytes with the size of the grid they come from, and the size of
/// the view to scale them to.
#[derive(Debug, PartialEq, Eq)]
pub struct Frame {
    pub bytes: Vec<u8>,
    pub src_width: u32,
    pub src_height: u32,
    pub dst_width: u32,
    pub dst_height: u32,
}

/// What the display has to do after the engine has handled a message.
#[derive(Debug, PartialEq, Eq)]
pub enum Action {
    /// Nothing.
    Idle,
    /// Paint this frame.
    Blit(Frame),
    /// Give the display surface this size.
    ResizeSurface { width: u32, height: u32 },
}

/// The mathematical value of an engine.
pub struct EngineState {
    pub grid: PixelGrid,
    pub viewport: Viewport,
    pub pixels_placed: nat,
    pub boundary: Seq<Pixel>,
    pub width_input: Seq<char>,
    pub height_input: Seq<char>,
}

impl EngineState {
    /// An engine is well formed when its grid and viewport are, and the
    /// view is exactly the grid magnified by the scale.
    pub open spec fn wf(self) -> bool {
        &&& self.grid.wf()
        &&& self.viewport.wf()
        &&& self.viewport.frames(self.grid.width, self.grid.height)
    }

    /// Whether the view position `(view_x, view_y)` maps to a position
    /// inside the grid.
    pub open spec fn hits(self, view_x: int, view_y: int) -> bool {
        let (x, y) = self.viewport.screen_to_buffer(view_x, view_y);
        self.grid.contains(x, y)
    }

    /// This state with the pixel under `(view_x, view_y)` colour-inverted.
    pub open spec fn toggled(self, view_x: int, view_y: int) -> EngineState {
        let (x, y) = self.viewport.screen_to_buffer(view_x, view_y);
        EngineState { grid: self.grid.toggled(x, y), ..self }
    }

    /// This state with every pixel black, no pixel counted as placed and
    /// no boundary pixel tracked.
    pub open spec fn cleared(self) -> EngineState {
        EngineState {
            grid: PixelGrid::filled(
                self.grid.width,
                self.grid.height,
                Pixel { red: 0, green: 0, blue: 0 },
            ),
            pixels_placed: 0,
            boundary: Seq::empty(),
            ..self
        }
    }

    /// This state zoomed in.
    pub open spec fn zoomed_in(self) -> EngineState {
        EngineState { viewport: self.viewport.zoomed_in(), ..self }
    }

    /// This state zoomed out.
    pub open spec fn zoomed_out(self) -> EngineState {
        EngineState { viewport: self.viewport.zoomed_out(), ..self }
    }

    /// Whether `next` differs from this state in the colours of its pixels
    /// at most.
    pub open spec fn repainted(self, next: EngineState) -> bool {
        &&& next.grid.same_size(self.grid)
        &&& next == (EngineState { grid: next.grid, ..self })
    }

    /// Whether a grid of `width` by `height` pixels is one that this engine
    /// can hold: neither is zero, and the view fits in 32 bits at the
    /// current scale.
    pub open spec fn accepts_size(self, width: nat, height: nat) -> bool {
        width >= 1 && height >= 1 && self.viewport.fits(width, height)
    }

    /// Whether `next` is this state after a resize to `width` by `height`:
    /// a new grid of that size, the viewport retargeted at it, the
    /// tracking of placed and boundary pixels cleared, the rest kept.
    pub open spec fn resized(self, next: EngineState, width: nat, height: nat) -> bool {
        &&& next.grid.width == width
        &&& next.grid.height == height
        &&& next == (EngineState {
            grid: next.grid,
            viewport: self.viewport.retargeted(width, height),
            pixels_placed: 0,
            boundary: Seq::empty(),
            ..self
        })
    }

    /// Whether `frame` is the painted image of this state.
    pub open spec fn paints(self, frame: Frame) -> bool {
        &&& frame.bytes@ == self.grid.rgba_bytes()
        &&& frame.src_width == self.grid.width
        &&& frame.src_height == self.grid.height
        &&& frame.dst_width == self.viewport.view_width
        &&& frame.dst_height == self.viewport.view_height
    }

    /// Whether `action` asks the display surface to take the size of the
    /// view of this state.
    pub open spec fn sizes_surface(self, action: Action) -> bool {
        action == (Action::ResizeSurface {
            width: self.viewport.view_width as u32,
            height: self.viewport.view_height as u32,
        })
    }

    /// The number of grid pixels that fit along `available` screen pixels
    /// at the current scale, once the margin is taken off.
    pub open spec fn fitted(self, available: nat) -> nat {
        usable(available) / self.viewport.scale
    }

    /// The grid size that the pending size input asks for: the typed width
    /// and the typed height, in grid pixels. There is none while either
    /// text is not a number.
    pub open spec fn requested_size(self) -> Option<(nat, nat)> {
        match (parsed(self.width_input), parsed(self.height_input)) {
            (Some(w), Some(h)) => Some((w as nat, h as nat)),
            _ => None,
        }
    }

    /// The grid size that applying the pending size input gives: the
    /// requested size, where there is one and the engine can hold it.
    pub open spec fn applicable_size(self) -> Option<(nat, nat)> {
        match self.requested_size() {
            Some(size) => if self.accepts_size(size.0, size.1) {
                Some(size)
            } else {
                None
            },
            None => None,
        }
    }
}

/// A pixel canvas: the image, its magnified view, and the pending size
/// input of the user.
#[derive(Debug)]
pub struct CanvasEngine {
    buffer: PixelBuffer,
    viewport: ViewportTransform,
    pixels_placed_count: u64,
    boundary_pixels: Vec<Pixel>,
    width_input: String,
    height_input: String,
}

impl View for CanvasEngine {
    type V = EngineState;

    closed spec fn view(&self) -> EngineState {
        EngineState {
            grid: self.buffer@,
            viewport: self.viewport@,
            pixels_placed: self.pixels_placed_count as nat,
            boundary: self.boundary_pixels@,
            width_input: self.width_input@,
            height_input: self.height_input@,
        }
    }
}

impl CanvasEngine {
    /// The invariant of an engine.
    pub open spec fn wf(&self) -> bool {
        self@.wf()
    }

    /// An engine with a black grid of `width` by `height` pixels shown at
    /// `scale`, nothing placed or tracked, and empty size input. A width,
    /// height or scale of zero is refused, and so is a grid whose view
    /// would not fit in 32 bits.
    pub fn with_scale(width: u32, height: u32, scale: u32) -> (r: Result<CanvasEngine, CanvasError>)
        ensures
            r is Ok <==> width >= 1 && height >= 1 && scale >= 1 && width * scale <= u32::MAX
                && height * scale <= u32::MAX,
            r is Err ==> r == Err::<CanvasEngine, CanvasError>(CanvasError::InvalidDimension),
            r matches Ok(e) ==> {
                &&& e.wf()
                &&& e@.grid == PixelGrid::filled(
                    width as nat,
                    height as nat,
                    Pixel { red: 0, green: 0, blue: 0 },
                )
                &&& e@.viewport.scale == scale
                &&& e@.pixels_placed == 0
                &&& e@.boundary == Seq::<Pixel>::empty()
                &&& e@.width_input == Seq::<char>::empty()
                &&& e@.height_input == Seq::<char>::empty()
            },
    {
        match ViewportTransform::new(scale, width, height) {
            None => Err(CanvasError::InvalidDimension),
            Some(viewport) => match PixelBuffer::create(width, height, Pixel::black()) {
                Err(e) => Err(e),
                Ok(buffer) => Ok(
                    CanvasEngine {
                        buffer,
                        viewport,
                        pixels_placed_count: 0,
                        boundary_pixels: Vec::new(),
                        width_input: String::new(),
                        height_input: String::new(),
                    },
                ),
            },
        }
    }

    /// The engine for a display area of `available_width` by
    /// `available_height` screen pixels: at the default scale, with the
    /// largest black grid whose view fits once the margin is taken off.
    /// An area too small for a single grid pixel is refused.
    pub fn new(available_width: u32, available_height: u32) -> (r: Result<
        CanvasEngine,
        CanvasError,
    >)
        ensures
            r is Ok <==> usable(available_width as nat) >= DEFAULT_SCALE && usable(
                available_height as nat,
            ) >= DEFAULT_SCALE,
            r is Err ==> r == Err::<CanvasEngine, CanvasError>(CanvasError::InvalidDimension),
            r matches Ok(e) ==> {
                &&& e.wf()
                &&& e@.grid == PixelGrid::filled(
                    usable(available_width as nat) / (DEFAULT_SCALE as nat),
                    usable(available_height as nat) / (DEFAULT_SCALE as nat),
                    Pixel { red: 0, green: 0, blue: 0 },
                )
                &&& e@.viewport.scale == DEFAULT_SCALE
                &&& e@.pixels_placed == 0
                &&& e@.boundary == Seq::<Pixel>::empty()
                &&& e@.width_input == Seq::<char>::empty()
                &&& e@.height_input == Seq::<char>::empty()
            },
    {
        let width: u32 = (available_width - available_width / MARGIN_DIVISOR) / DEFAULT_SCALE;
        let height: u32 = (available_height - available_height / MARGIN_DIVISOR) / DEFAULT_SCALE;
        CanvasEngine::with_scale(width, height, DEFAULT_SCALE)
    }

    /// The number of columns of the grid.
    pub fn width(&self) -> (w: u32)
        ensures
            w == self@.grid.width,
    {
        self.buffer.width()
    }

    /// The number of rows of the grid.
    pub fn height(&self) -> (h: u32)
        ensures
            h == self@.grid.height,
    {
        self.buffer.height()
    }

    /// The zoom factor.
    pub fn scale(&self) -> (s: u32)
        ensures
            s == self@.viewport.scale,
    {
        self.viewport.scale()
    }

    /// The width of the view in screen pixels.
    pub fn view_width(&self) -> (w: u32)
        ensures
            w == self@.viewport.view_width,
    {
        self.viewport.view_width()
    }

    /// The height of the view in screen pixels.
    pub fn view_height(&self) -> (h: u32)
        ensures
            h == self@.viewport.view_height,
    {
        self.viewport.view_height()
    }

    /// The pixel buffer.
    pub fn buffer(&self) -> (b: &PixelBuffer)
        ensures
            b@ == self@.grid,
    {
        &self.buffer
    }

    /// The viewport.
    pub fn viewport(&self) -> (v: &ViewportTransform)
        ensures
            v@ == self@.viewport,
    {
        &self.viewport
    }

    /// The number of pixels counted as placed since the canvas was last
    /// cleared or resized.
    pub fn pixels_placed_count(&self) -> (n: u64)
        ensures
            n == self@.pixels_placed,
    {
        self.pixels_placed_count
    }

    /// The boundary pixels tracked since the canvas was last cleared or
    /// resized.
    pub fn boundary_pixels(&self) -> (b: &Vec<Pixel>)
        ensures
            b@ == self@.boundary,
    {
        &self.boundary_pixels
    }

    /// Replaces the pending width input.
    pub fn width_input(&mut self, input: String)
        ensures
            final(self)@ == (EngineState { width_input: input@, ..old(self)@ }),
    {
        self.width_input = input;
    }

    /// Replaces the pending height input.
    pub fn height_input(&mut self, input: String)
        ensures
            final(self)@ == (EngineState { height_input: input@, ..old(self)@ }),
    {
        self.height_input = input;
    }

    /// Clears the canvas: every pixel black, no pixel counted as placed,
    /// no boundary pixel tracked. Size, view and size input stay.
    pub fn reset(&mut self)
        requires
            old(self).wf(),
        ensures
            final(self).wf(),
            final(self)@ == old(self)@.cleared(),
    {
        match PixelBuffer::create(self.buffer.width(), self.buffer.height(), Pixel::black()) {
            Ok(buffer) => {
                self.buffer = buffer;
                self.pixels_placed_count = 0;
                self.boundary_pixels = Vec::new();
            },
            Err(_) => {},
        }
    }

    /// Gives every pixel a colour drawn at random. Everything but the
    /// colours stays.
    pub fn randomize(&mut self)
        requires
            old(self).wf(),
        ensures
            final(self).wf(),
            old(self)@.repainted(final(self)@),
    {
        self.buffer.randomize();
    }

    /// Colour-inverts the pixel under the view position
    /// `(view_x, view_y)`. The position is divided by the scale and
    /// rounded toward zero, so a position less than one cell left of or
    /// above the view still lands in the first column or row. A position
    /// that maps outside the grid is an error and changes nothing.
    pub fn toggle_pixel(&mut self, view_x: i32, view_y: i32) -> (r: Result<(), CanvasError>)
        requires
            old(self).wf(),
        ensures
            final(self).wf(),
            r is Ok <==> old(self)@.hits(view_x as int, view_y as int),
            r is Err ==> r == Err::<(), CanvasError>(CanvasError::OutOfBounds),
            r is Ok ==> final(self)@ == old(self)@.toggled(view_x as int, view_y as int),
            r is Err ==> final(self)@ == old(self)@,
    {
        let (x, y) = self.viewport.screen_to_buffer(view_x, view_y);
        if x < 0 || y < 0 {
            return Err(CanvasError::OutOfBounds);
        }
        self.buffer.toggle(x as u32, y as u32)
    }

    /// Doubles the scale and the view; the grid stays. Where the doubled
    /// view would not fit in 32 bits the call changes nothing.
    pub fn zoom_in(&mut self)
        requires
            old(self).wf(),
        ensures
            final(self).wf(),
            final(self)@ == old(self)@.zoomed_in(),
    {
        proof {
            crate::viewport::lemma_zoom_keeps_frame(
                self@.viewport,
                self@.grid.width,
                self@.grid.height,
            );
        }
        self.viewport.zoom_in();
    }

    /// Halves the scale and shrinks the view to match; the grid stays. At
    /// scale one the call changes nothing.
    pub fn zoom_out(&mut self)
        requires
            old(self).wf(),
        ensures
            final(self).wf(),
            final(self)@ == old(self)@.zoomed_out(),
    {
        proof {
            crate::viewport::lemma_zoom_keeps_frame(
                self@.viewport,
                self@.grid.width,
                self@.grid.height,
            );
        }
        self.viewport.zoom_out();
    }

    /// Replaces the grid by one of `width` by `height` pixels with random
    /// colours, aims the viewport at it at the current scale, and clears
    /// the tracking of placed and boundary pixels. A size that the engine
    /// cannot hold is refused and changes nothing.
    pub fn resize(&mut self, width: u32, height: u32) -> (r: Result<(), CanvasError>)
        requires
            old(self).wf(),
        ensures
            final(self).wf(),
            r is Ok <==> old(self)@.accepts_size(width as nat, height as nat),
            r is Err ==> r == Err::<(), CanvasError>(CanvasError::InvalidDimension),
            r is Ok ==> old(self)@.resized(final(self)@, width as nat, height as nat),
            r is Err ==> final(self)@ == old(self)@,
    {
        if width == 0 || height == 0 {
            return Err(CanvasError::InvalidDimension);
        }
        match self.viewport.retarget(width, height) {
            Err(e) => Err(e),
            Ok(()) => {
                match PixelBuffer::create(width, height, Pixel::black()) {
                    Ok(mut buffer) => {
                        buffer.randomize();
                        self.buffer = buffer;
                        self.pixels_placed_count = 0;
                        self.boundary_pixels = Vec::new();
                    },
                    Err(_) => {},
                }
                Ok(())
            },
        }
    }

    /// Resizes the grid to the largest size whose view, at the current
    /// scale, fits in `available_width` by `available_height` screen
    /// pixels once the margin is taken off. An area too small for a single
    /// grid pixel is refused and changes nothing.
    pub fn fit_to_available_space(&mut self, available_width: u32, available_height: u32) -> (r:
        Result<(), CanvasError>)
        requires
            old(self).wf(),
        ensures
            final(self).wf(),
            r is Ok <==> old(self)@.fitted(available_width as nat) >= 1 && old(self)@.fitted(
                available_height as nat,
            ) >= 1,
            r is Err ==> r == Err::<(), CanvasError>(CanvasError::InvalidDimension),
            r is Ok ==> old(self)@.resized(
                final(self)@,
                old(self)@.fitted(available_width as nat),
                old(self)@.fitted(available_height as nat),
            ),
            r is Err ==> final(self)@ == old(self)@,
    {
        let scale: u32 = self.viewport.scale();
        let width: u32 = (available_width - available_width / MARGIN_DIVISOR) / scale;
        let height: u32 = (available_height - available_height / MARGIN_DIVISOR) / scale;
        proof {
            lemma_fitted_is_largest(self@, available_width as nat);
            lemma_fitted_is_largest(self@, available_height as nat);
        }
        self.resize(width, height)
    }

    /// Applies the pending size input: the typed width and height become
    /// the dimensions of the new grid, as in `resize`, and the view grows
    /// or shrinks with them at the current scale. Input that is not a
    /// number, or a size that the engine cannot hold, is refused and
    /// changes nothing.
    pub fn set_canvas_size(&mut self) -> (r: Result<(), CanvasError>)
        requires
            old(self).wf(),
        ensures
            final(self).wf(),
            r is Ok <==> old(self)@.applicable_size() is Some,
            r is Err ==> r == Err::<(), CanvasError>(CanvasError::InvalidDimension),
            r is Ok ==> old(self)@.resized(
                final(self)@,
                old(self)@.applicable_size().unwrap().0,
                old(self)@.applicable_size().unwrap().1,
            ),
            r is Err ==> final(self)@ == old(self)@,
    {
        let typed_width: Option<u32> = parse_dimension(self.width_input.as_str());
        let typed_height: Option<u32> = parse_dimension(self.height_input.as_str());
        match (typed_width, typed_height) {
            (Some(width), Some(height)) => self.resize(width, height),
            _ => Err(CanvasError::InvalidDimension),
        }
    }

    /// The current frame: the grid as RGBA bytes, its size, and the size of
    /// the view. The engine stays as it is.
    pub fn tick(&self) -> (frame: Frame)
        requires
            self.wf(),
        ensures
            self@.paints(frame),
    {
        Frame {
            bytes: self.buffer.to_rgba_bytes(),
            src_width: self.buffer.width(),
            src_height: self.buffer.height(),
            dst_width: self.viewport.view_width(),
            dst_height: self.viewport.view_height(),
        }
    }

    /// Handles one message and says what the display has to do next.
    ///
    /// A render request yields the frame to paint. A zoom in, and any
    /// resize that was accepted, yield the new size of the surface; a zoom
    /// out does so where it changed the scale. Everything else leaves the
    /// display alone. A refused message changes nothing and returns the
    /// error.
    pub fn update(&mut self, msg: Msg) -> (r: Result<Action, CanvasError>)
        requires
            old(self).wf(),
        ensures
            final(self).wf(),
            r is Err ==> final(self)@ == old(self)@,
            match msg {
                Msg::RenderCanvas => {
                    &&& final(self)@ == old(self)@
                    &&& r matches Ok(Action::Blit(frame))
                    &&& old(self)@.paints(frame)
                },
                Msg::ResetCanvas => {
                    &&& final(self)@ == old(self)@.cleared()
                    &&& r == Ok::<Action, CanvasError>(Action::Idle)
                },
                Msg::RandomizeCanvas => {
                    &&& old(self)@.repainted(final(self)@)
                    &&& r == Ok::<Action, CanvasError>(Action::Idle)
                },
                Msg::TogglePixel(view_x, view_y) => {
                    if old(self)@.hits(view_x as int, view_y as int) {
                        &&& final(self)@ == old(self)@.toggled(view_x as int, view_y as int)
                        &&& r == Ok::<Action, CanvasError>(Action::Idle)
                    } else {
                        r == Err::<Action, CanvasError>(CanvasError::OutOfBounds)
                    }
                },
                Msg::ZoomIn => {
                    &&& final(self)@ == old(self)@.zoomed_in()
                    &&& r matches Ok(action)
                    &&& final(self)@.sizes_surface(action)
                },
                Msg::ZoomOut => {
                    &&& final(self)@ == old(self)@.zoomed_out()
                    &&& r matches Ok(action)
                    &&& if old(self)@.viewport.scale >= 2 {
                        final(self)@.sizes_surface(action)
                    } else {
                        action == Action::Idle
                    }
                },
                Msg::FitCanvas(available_width, available_height) => {
                    let width = old(self)@.fitted(available_width as nat);
                    let height = old(self)@.fitted(available_height as nat);
                    if width >= 1 && height >= 1 {
                        &&& old(self)@.resized(final(self)@, width, height)
                        &&& r matches Ok(action)
                        &&& final(self)@.sizes_surface(action)
                    } else {
                        r == Err::<Action, CanvasError>(CanvasError::InvalidDimension)
                    }
                },
                Msg::SetSize => match old(self)@.applicable_size() {
                    Some(size) => {
                        &&& old(self)@.resized(final(self)@, size.0, size.1)
                        &&& r matches Ok(action)
                        &&& final(self)@.sizes_surface(action)
                    },
                    None => r == Err::<Action, CanvasError>(CanvasError::InvalidDimension),
                },
                Msg::WidthInput(text) => {
                    &&& final(self)@ == (EngineState { width_input: text@, ..old(self)@ })
                    &&& r == Ok::<Action, CanvasError>(Action::Idle)
                },
                Msg::HeightInput(text) => {
                    &&& final(self)@ == (EngineState { height_input: text@, ..old(self)@ })
                    &&& r == Ok::<Action, CanvasError>(Action::Idle)
                },
            },
    {
        match msg {
            Msg::RenderCanvas => Ok(Action::Blit(self.tick())),
            Msg::ResetCanvas => {
                self.reset();
                Ok(Action::Idle)
            },
            Msg::RandomizeCanvas => {
                self.randomize();
                Ok(Action::Idle)
            },
            Msg::TogglePixel(view_x, view_y) => match self.toggle_pixel(view_x, view_y) {
                Ok(()) => Ok(Action::Idle),
                Err(e) => Err(e),
            },
            Msg::ZoomIn => {
                self.zoom_in();
                Ok(self.surface_size())
            },
            Msg::ZoomOut => {
                let scale: u32 = self.viewport.scale();
                self.zoom_out();
                if scale >= 2 {
                    Ok(self.surface_size())
                } else {
                    Ok(Action::Idle)
                }
            },
            Msg::FitCanvas(available_width, available_height) => {
                match self.fit_to_available_space(available_width, available_height) {
                    Ok(()) => Ok(self.surface_size()),
                    Err(e) => Err(e),
                }
            },
            Msg::SetSize => match self.set_canvas_size() {
                Ok(()) => Ok(self.surface_size()),
                Err(e) => Err(e),
            },
            Msg::WidthInput(text) => {
                self.width_input(text);
                Ok(Action::Idle)
            },
            Msg::HeightInput(text) => {
                self.height_input(text);
                Ok(Action::Idle)
            },
        }
    }

    /// The request to give the display surface the size of the view.
    fn surface_size(&self) -> (action: Action)
        requires
            self.wf(),
        ensures
            self@.sizes_surface(action),
    {
        Action::ResizeSurface {
            width: self.viewport.view_width(),
            height: self.viewport.view_height(),
        }
    }
}

/// The fitted length is the largest whose magnified view fits in the
/// usable space: one grid pixel more would not fit.
pub proof fn lemma_fitted_is_largest(state: EngineState, available: nat)
    requires
        state.viewport.wf(),
    ensures
        state.fitted(available) * state.viewport.scale <= usable(available),
        usable(available) < (state.fitted(available) + 1) * state.viewport.scale,
        usable(available) <= available,
{
    let s = state.viewport.scale as int;
    let u = usable(available) as int;
    vstd::arithmetic::div_mod::lemma_fundamental_div_mod(u, s);
    vstd::arithmetic::div_mod::lemma_mod_bound(u, s);
    assert((u / s) * s == s * (u / s)) by (nonlinear_arith);
    assert((u / s + 1) * s == s * (u / s) + s) by (nonlinear_arith);
}

/// Zooming, clearing and toggling keep an engine well formed: the grid
/// still holds `width * height` pixels and the view is still the grid
/// magnified by the scale.
pub proof fn lemma_edits_keep_invariant(state: EngineState, view_x: int, view_y: int)
    requires
        state.wf(),
    ensures
        state.zoomed_in().wf(),
        state.zoomed_out().wf(),
        state.cleared().wf(),
        state.hits(view_x, view_y) ==> state.toggled(view_x, view_y).wf(),
{
    crate::viewport::lemma_zoom_keeps_frame(state.viewport, state.grid.width, state.grid.height);
    crate::buffer::lemma_filled(
        state.grid.width,
        state.grid.height,
        Pixel { red: 0, green: 0, blue: 0 },
    );
    if state.hits(view_x, view_y) {
        let (x, y) = state.viewport.screen_to_buffer(view_x, view_y);
        crate::buffer::lemma_toggle_inverts(state.grid, x, y);
    }
}

/// A resize to a size that the engine accepts leaves it well formed,
/// whatever the new pixels are: the view is the new grid magnified by the
/// unchanged scale.
pub proof fn lemma_resize_keeps_invariant(
    state: EngineState,
    next: EngineState,
    width: nat,
    height: nat,
)
    requires
        state.wf(),
        state.accepts_size(width, height),
        state.resized(next, width, height),
        next.grid.pixels.len() == width * height,
    ensures
        next.wf(),
        next.viewport.scale == state.viewport.scale,
        next.viewport.view_width == width * next.viewport.scale,
        next.viewport.view_height == height * next.viewport.scale,
{
    crate::viewport::lemma_retarget_frames(state.viewport, width, height);
}

/// Fitting to a display area asks for a size that the engine accepts
/// whenever it is at least one pixel each way, and the view then fits in
/// the usable area.
pub proof fn lemma_fit_is_accepted(state: EngineState, available_width: u32, available_height: u32)
    requires
        state.wf(),
        state.fitted(available_width as nat) >= 1,
        state.fitted(available_height as nat) >= 1,
    ensures
        state.accepts_size(
            state.fitted(available_width as nat),
            state.fitted(available_height as nat),
        ),
        state.fitted(available_width as nat) * state.viewport.scale <= usable(
            available_width as nat,
        ),
        state.fitted(available_height as nat) * state.viewport.scale <= usable(
            available_height as nat,
        ),
{
    lemma_fitted_is_largest(state, available_width as nat);
    lemma_fitted_is_largest(state, available_height as nat);
}

/// Toggling the pixel under the same view position twice restores the
/// engine exactly.
pub proof fn lemma_toggle_pixel_twice(state: EngineState, view_x: int, view_y: int)
    requires
        state.wf(),
        state.hits(view_x, view_y),
    ensures
        state.toggled(view_x, view_y).hits(view_x, view_y),
        state.toggled(view_x, view_y).toggled(view_x, view_y) == state,
{
    let (x, y) = state.viewport.screen_to_buffer(view_x, view_y);
    crate::buffer::lemma_toggle_twice(state.grid, x, y);
}

/// A click inside the view always lands on a pixel of the grid.
pub proof fn lemma_click_in_view_hits(state: EngineState, view_x: int, view_y: int)
    requires
        state.wf(),
        state.viewport.in_view(view_x, view_y),
    ensures
        state.hits(view_x, view_y),
{
    crate::viewport::lemma_in_view_maps_into_grid(
        state.viewport,
        state.grid.width,
        state.grid.height,
        view_x,
        view_y,
    );
}

/// A cleared canvas is uniformly black and keeps its size.
pub proof fn lemma_cleared_is_black(state: EngineState)
    requires
        state.wf(),
    ensures
        state.cleared().grid.uniform(Pixel { red: 0, green: 0, blue: 0 }),
        state.cleared().grid.same_size(state.grid),
        state.cleared().grid.pixels.len() == state.grid.width * state.grid.height,
{
}

/// Once the scale is one, zooming out changes nothing, however often it
/// is repeated; and zooming out never takes the scale below one.
pub proof fn lemma_zoom_out_floor(state: EngineState)
    requires
        state.wf(),
    ensures
        state.zoomed_out().viewport.scale >= 1,
        state.viewport.scale == 1 ==> state.zoomed_out() == state,
        state.zoomed_out().viewport.scale == 1 ==> state.zoomed_out().zoomed_out()
            == state.zoomed_out(),
{
    crate::viewport::lemma_zoom_out_floor(state.viewport);
}

} // verus!
