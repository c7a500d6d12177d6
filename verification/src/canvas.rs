//! The frame canvas: a monochrome pixel buffer of fixed dimensions, owned
//! by the library, with the drawing operations the control loop needs — a
//! full clear, a filled rectangle, and the incremental one-column bar
//! render.  The transfer of the buffer to the physical device happens
//! outside the library, which exposes the pixels as plain values for it.

use vstd::prelude::*;

verus! {

/// Failures of the display subsystem.  Always recoverable: the loop
/// reports them and carries on, possibly with a stale frame.
#[derive(Clone, Copy, Debug, PartialEq, Eq, Structural)]
pub enum DisplayError {
    /// A drawing command addressed a column or row outside the frame.
    OutOfBounds,
    /// The transfer of the buffer to the device failed on the bus.
    BusWrite,
}

/// A pixel index stays within the buffer when its coordinates stay within
/// the frame.
proof fn lemma_index_in_range(width: int, height: int, x: int, y: int)
    by (nonlinear_arith)
    requires
        0 <= x < width,
        0 <= y < height,
    ensures
        0 <= y * width + x < width * height,
{
}

/// Distinct in-frame coordinates map to distinct buffer indices.
proof fn lemma_index_distinct(width: int, x1: int, y1: int, x2: int, y2: int)
    by (nonlinear_arith)
    requires
        0 <= x1 < width,
        0 <= x2 < width,
        0 <= y1,
        0 <= y2,
        !(x1 == x2 && y1 == y2),
    ensures
        y1 * width + x1 != y2 * width + x2,
{
}

/// A row-major buffer of `total` unlit pixels.
fn blank_pixels(total: usize) -> (v: Vec<bool>)
    ensures
        v@.len() == total,
        forall|k: int| 0 <= k < total ==> !v@[k],
{
    let mut v: Vec<bool> = Vec::new();
    while v.len() < total
        invariant
            v@.len() <= total,
            forall|k: int| 0 <= k < v@.len() ==> !v@[k],
        decreases total - v@.len(),
    {
        v.push(false);
    }
    v
}

/// A two-dimensional bitmap of fixed width and height, each pixel a
/// binary on/off state, stored row-major.  The dimensions are fixed for
/// the life of the canvas.
pub struct FrameCanvas {
    pixels: Vec<bool>,
    width: usize,
    height: usize,
}

impl FrameCanvas {
    /// The buffer holds exactly one cell per pixel of a non-empty frame.
    pub closed spec fn wf(&self) -> bool {
        &&& 0 < self.width
        &&& 0 < self.height
        &&& self.width * self.height <= usize::MAX
        &&& self.pixels@.len() == self.width * self.height
    }

    /// The frame's width in pixels.
    pub closed spec fn width(&self) -> nat {
        self.width as nat
    }

    /// The frame's height in pixels.
    pub closed spec fn height(&self) -> nat {
        self.height as nat
    }

    /// The pixel in column `x` of row `y`; `true` is lit.
    pub closed spec fn pixel(&self, x: int, y: int) -> bool {
        self.pixels@[y * self.width + x]
    }

    /// The coordinates of all lit pixels of the frame.
    pub open spec fn lit_set(&self) -> Set<(int, int)> {
        Set::new(
            |p: (int, int)|
                0 <= p.0 < self.width() && 0 <= p.1 < self.height() && self.pixel(p.0, p.1),
        )
    }

    /// A fresh canvas of the given dimensions, all pixels unlit.
    pub fn new(width: usize, height: usize) -> (c: Self)
        requires
            0 < width,
            0 < height,
            width * height <= usize::MAX,
        ensures
            c.wf(),
            c.width() == width,
            c.height() == height,
            forall|x: int, y: int| 0 <= x < width && 0 <= y < height ==> !c.pixel(x, y),
    {
        let total = width * height;
        let c = FrameCanvas { pixels: blank_pixels(total), width, height };
        proof {
            assert forall|x: int, y: int|
                0 <= x < width && 0 <= y < height implies !c.pixel(x, y) by {
                lemma_index_in_range(width as int, height as int, x, y);
            }
        }
        c
    }

    /// Turn every pixel off.
    pub fn clear(&mut self)
        requires
            old(self).wf(),
        ensures
            final(self).wf(),
            final(self).width() == old(self).width(),
            final(self).height() == old(self).height(),
            forall|x: int, y: int|
                0 <= x < old(self).width() && 0 <= y < old(self).height()
                    ==> !final(self).pixel(x, y),
    {
        let total = self.width * self.height;
        self.pixels = blank_pixels(total);
        proof {
            assert forall|x: int, y: int|
                0 <= x < self.width() && 0 <= y < self.height() implies !self.pixel(x, y) by {
                lemma_index_in_range(self.width as int, self.height as int, x, y);
            }
        }
    }

    /// Light or darken the single pixel at `(x, y)`.
    fn set_pixel(&mut self, x: usize, y: usize, on: bool)
        requires
            old(self).wf(),
            x < old(self).width(),
            y < old(self).height(),
        ensures
            final(self).wf(),
            final(self).width() == old(self).width(),
            final(self).height() == old(self).height(),
            final(self).pixel(x as int, y as int) == on,
            forall|i: int, j: int|
                0 <= i < old(self).width() && 0 <= j < old(self).height()
                    && !(i == x && j == y)
                    ==> final(self).pixel(i, j) == old(self).pixel(i, j),
    {
        proof {
            lemma_index_in_range(self.width as int, self.height as int, x as int, y as int);
        }
        let idx = y * self.width + x;
        self.pixels.set(idx, on);
        proof {
            assert forall|i: int, j: int|
                0 <= i < old(self).width() && 0 <= j < old(self).height()
                    && !(i == x && j == y) implies self.pixel(i, j) == old(self).pixel(i, j) by {
                lemma_index_in_range(self.width as int, self.height as int, i, j);
                lemma_index_distinct(self.width as int, i, j, x as int, y as int);
            }
        }
    }

    /// Draw a filled `w` by `h` rectangle with its top-left corner at
    /// `(x, y)`, lighting every pixel it covers and no other.  A rectangle
    /// that does not lie entirely within the frame is rejected with
    /// `OutOfBounds` and the buffer is left untouched.
    pub fn fill_rect(&mut self, x: usize, y: usize, w: usize, h: usize) -> (r: Result<
        (),
        DisplayError,
    >)
        requires
            old(self).wf(),
        ensures
            final(self).wf(),
            final(self).width() == old(self).width(),
            final(self).height() == old(self).height(),
            r is Ok <==> x + w <= old(self).width() && y + h <= old(self).height(),
            r is Err ==> r == Err::<(), DisplayError>(DisplayError::OutOfBounds),
            r is Ok ==> forall|i: int, j: int|
                0 <= i < old(self).width() && 0 <= j < old(self).height()
                    ==> final(self).pixel(i, j) == (old(self).pixel(i, j) || (x <= i < x + w
                        && y <= j < y + h)),
            r is Err ==> forall|i: int, j: int|
                0 <= i < old(self).width() && 0 <= j < old(self).height()
                    ==> final(self).pixel(i, j) == old(self).pixel(i, j),
    {
        if x > self.width || w > self.width - x || y > self.height || h > self.height - y {
            return Err(DisplayError::OutOfBounds);
        }
        let mut dy: usize = 0;
        while dy < h
            invariant
                self.wf(),
                self.width == old(self).width,
                self.height == old(self).height,
                x + w <= self.width,
                y + h <= self.height,
                dy <= h,
                forall|i: int, j: int|
                    0 <= i < self.width() && 0 <= j < self.height()
                        ==> self.pixel(i, j) == (old(self).pixel(i, j) || (x <= i < x + w
                            && y <= j < y + dy)),
            decreases h - dy,
        {
            let mut dx: usize = 0;
            while dx < w
                invariant
                    self.wf(),
                    self.width == old(self).width,
                    self.height == old(self).height,
                    x + w <= self.width,
                    y + h <= self.height,
                    dy < h,
                    dx <= w,
                    forall|i: int, j: int|
                        0 <= i < self.width() && 0 <= j < self.height()
                            ==> self.pixel(i, j) == (old(self).pixel(i, j) || (x <= i < x + w
                                && y <= j < y + dy) || (x <= i < x + dx && j == y + dy)),
                decreases w - dx,
            {
                self.set_pixel(x + dx, y + dy, true);
                dx = dx + 1;
            }
            dy = dy + 1;
        }
        Ok(())
    }

    /// Incremental bar render: light the one-pixel-wide, full-height
    /// column `col`.  Nothing else changes — bars from earlier cycles
    /// persist, so a sweep leaves a growing trail until the canvas is
    /// cleared; the buffer is deliberately not cleared between bars.  A
    /// column outside `[0, width)` is rejected with `OutOfBounds` and the
    /// buffer is left untouched.
    pub fn draw_bar(&mut self, col: usize) -> (r: Result<(), DisplayError>)
        requires
            old(self).wf(),
        ensures
            final(self).wf(),
            final(self).width() == old(self).width(),
            final(self).height() == old(self).height(),
            r is Ok <==> col < old(self).width(),
            r is Err ==> r == Err::<(), DisplayError>(DisplayError::OutOfBounds),
            forall|i: int, j: int|
                0 <= i < old(self).width() && 0 <= j < old(self).height()
                    ==> final(self).pixel(i, j) == (old(self).pixel(i, j) || (i == col
                        && col < old(self).width())),
    {
        if col >= self.width {
            return Err(DisplayError::OutOfBounds);
        }
        self.fill_rect(col, 0, 1, self.height)
    }

    /// Read one pixel, e.g. to mirror the buffer onto a device.
    pub fn pixel_at(&self, x: usize, y: usize) -> (r: bool)
        requires
            self.wf(),
            x < self.width(),
            y < self.height(),
        ensures
            r == self.pixel(x as int, y as int),
    {
        proof {
            lemma_index_in_range(self.width as int, self.height as int, x as int, y as int);
        }
        self.pixels[y * self.width + x]
    }

    /// The frame's fixed (width, height) in pixels.
    pub fn dimensions(&self) -> (r: (usize, usize))
        ensures
            r.0 == self.width(),
            r.1 == self.height(),
    {
        (self.width, self.height)
    }
}

} // verus!
