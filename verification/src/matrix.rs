//! The matrix resource: owner of the configuration record and of the buffer
//! that drives the display, and home of the double-buffer swap protocol.
//!
//! The protocol is a two-state ping-pong machine. The matrix always owns the
//! buffer the panel shows; the caller draws on an offscreen buffer and hands
//! it to [`LedMatrix::swap`], which installs it as the displayed buffer and
//! returns the previously displayed one as the next drawing target. On real
//! hardware the exchange is gated by the vertical refresh; this layer models
//! the exchange itself, which is what makes rendering tear-free.

use vstd::prelude::*;

use crate::canvas::CanvasView;
use crate::canvas::LedCanvas;
use crate::led_matrix_options::default_options;
use crate::led_matrix_options::Options;
use crate::led_matrix_options::OptionsView;

verus! {

/// The error type for [`LedMatrix::new`], returned when the driver cannot be
/// brought up on the requested configuration.
#[derive(Clone, Debug, PartialEq, Eq, Structural)]
pub struct NewMatrixError;

/// The mathematical model of a matrix: the configuration it retains and the
/// buffer currently driving the display.
#[verifier::ext_equal]
pub struct MatrixView {
    pub options: OptionsView,
    pub displayed: CanvasView,
}

impl MatrixView {
    /// The canvas width a configuration yields: panel columns times the
    /// number of daisy-chained panels.
    pub open spec fn width_of(o: OptionsView) -> int {
        o.cols * o.chain_length
    }

    /// The canvas height a configuration yields: panel rows times the number
    /// of parallel chains.
    pub open spec fn height_of(o: OptionsView) -> int {
        o.rows * o.parallel
    }

    /// A matrix is well formed when its configuration and its displayed
    /// buffer are, the configuration fits the machine, and the buffer has
    /// exactly the configured dimensions.
    pub open spec fn wf(self) -> bool {
        &&& self.options.wf()
        &&& Self::fits(self.options)
        &&& self.displayed.wf()
        &&& self.displayed.width == Self::width_of(self.options)
        &&& self.displayed.height == Self::height_of(self.options)
    }

    /// Whether a configuration's canvas fits the machine: both dimensions
    /// must fit the driver's 32-bit size type and the pixel count must be
    /// addressable.
    pub open spec fn fits(o: OptionsView) -> bool {
        &&& Self::width_of(o) <= i32::MAX
        &&& Self::height_of(o) <= i32::MAX
        &&& Self::width_of(o) * Self::height_of(o) <= usize::MAX
    }
}

/// One step of the swap protocol on the mathematical model: the offered
/// canvas becomes the displayed buffer, and the previously displayed buffer
/// is returned.
pub open spec fn swap_view(m: MatrixView, c: CanvasView) -> (MatrixView, CanvasView) {
    (MatrixView { displayed: c, ..m }, m.displayed)
}

/// The ping-pong law of the swap protocol: swapping a canvas in and then
/// swapping the returned buffer back restores the matrix to its original
/// state and hands the first canvas back unchanged — in particular, whatever
/// was drawn on it is still there after the round trip.
pub proof fn lemma_swap_round_trip(m: MatrixView, c: CanvasView)
    ensures
        swap_view(swap_view(m, c).0, swap_view(m, c).1).0 == m,
        swap_view(swap_view(m, c).0, swap_view(m, c).1).1 == c,
{
    assert(swap_view(swap_view(m, c).0, swap_view(m, c).1).0 =~= m);
}

/// The current LED matrix. It owns the configuration record for its whole
/// lifetime — the native driver may keep reading the record's string buffers
/// — and the pixel buffer that drives the display.
pub struct LedMatrix {
    options: Options,
    displayed: LedCanvas,
}

impl View for LedMatrix {
    type V = MatrixView;

    closed spec fn view(&self) -> MatrixView {
        MatrixView { options: self.options@, displayed: self.displayed@ }
    }
}

impl LedMatrix {
    /// Attempts to construct a new LED matrix with the provided options, or
    /// the defaults when none are given. Creation fails exactly when the
    /// configured canvas does not fit the machine; on success the matrix
    /// retains the record and starts with every pixel off.
    pub fn new(options: Option<Options>) -> (r: Result<LedMatrix, NewMatrixError>)
        requires
            options is Some ==> options->0@.wf(),
        ensures
            ({
                let o = if options is Some {
                    options->0@
                } else {
                    default_options()
                };
                &&& r is Ok <==> MatrixView::fits(o)
                &&& r is Err ==> r == Err::<LedMatrix, NewMatrixError>(NewMatrixError)
                &&& r is Ok ==> {
                    let m = r->Ok_0@;
                    &&& m.wf()
                    &&& m.options == o
                    &&& forall|i: int|
                        0 <= i < m.displayed.pixels.len() ==> m.displayed.pixels[i]
                            == (crate::canvas::LedColor { red: 0, green: 0, blue: 0 })
                }
            }),
    {
        let options = match options {
            Some(o) => o,
            None => Options::new(),
        };
        let ghost o = options@;
        let cols = options.cols();
        let chain = options.chain_length();
        let rows = options.rows();
        let parallel = options.parallel();
        proof {
            assert(0 <= o.cols * o.chain_length <= 0xffff * 0xffff) by (nonlinear_arith)
                requires
                    0 <= o.cols <= 0xffff,
                    0 <= o.chain_length <= 0xffff,
            ;
            assert(0 <= o.rows * o.parallel <= 0xffff * 3) by (nonlinear_arith)
                requires
                    0 <= o.rows <= 0xffff,
                    0 <= o.parallel <= 3,
            ;
        }
        let width64: i64 = (cols as i64) * (chain as i64);
        let height64: i64 = (rows as i64) * (parallel as i64);
        if width64 > (i32::MAX as i64) || height64 > (i32::MAX as i64) {
            return Err(NewMatrixError);
        }
        proof {
            assert(0 <= width64 * height64 <= 0xffff * 0xffff * (0xffff * 3)) by (nonlinear_arith)
                requires
                    0 <= width64 <= 0xffff * 0xffff,
                    0 <= height64 <= 0xffff * 3,
            ;
        }
        let total: u64 = (width64 as u64) * (height64 as u64);
        if total > (usize::MAX as u64) {
            return Err(NewMatrixError);
        }
        let displayed = LedCanvas::blank(width64 as i32, height64 as i32);
        Ok(LedMatrix { options, displayed })
    }

    /// Creates a new offscreen canvas for buffered drawing, decoupled from
    /// the display until it is swapped in. It starts with every pixel off.
    pub fn offscreen_canvas(&self) -> (c: LedCanvas)
        requires
            self@.wf(),
        ensures
            c@.wf(),
            c@.width == self@.displayed.width,
            c@.height == self@.displayed.height,
            forall|i: int| 0 <= i < c@.pixels.len() ==> c@.pixels[i]
                == (crate::canvas::LedColor { red: 0, green: 0, blue: 0 }),
    {
        let (width, height) = self.displayed.size();
        LedCanvas::blank(width, height)
    }

    /// Borrows the canvas currently driving the display; writes through it
    /// are visible immediately, without buffering.
    pub fn canvas(&mut self) -> (c: &mut LedCanvas)
        ensures
            c@ == old(self)@.displayed,
            final(self)@.displayed == final(c)@,
            final(self)@.options == old(self)@.options,
    {
        &mut self.displayed
    }

    /// Swaps the given canvas in as the displayed buffer and returns the
    /// previously displayed buffer for drawing the next frame. On hardware
    /// this blocks until the next vertical refresh, so the exchange is
    /// tear-free; the exchange itself is exactly one step of the ping-pong
    /// protocol.
    pub fn swap(&mut self, canvas: LedCanvas) -> (r: LedCanvas)
        requires
            old(self)@.wf(),
            canvas@.wf(),
            canvas@.width == old(self)@.displayed.width,
            canvas@.height == old(self)@.displayed.height,
        ensures
            final(self)@ == swap_view(old(self)@, canvas@).0,
            r@ == swap_view(old(self)@, canvas@).1,
            final(self)@.wf(),
            r@.wf(),
    {
        let mut incoming = canvas;
        core::mem::swap(&mut self.displayed, &mut incoming);
        proof {
            assert(final(self)@ =~= swap_view(old(self)@, canvas@).0);
        }
        incoming
    }
}

} // verus!
