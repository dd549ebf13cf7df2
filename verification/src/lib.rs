//! A minimal pixel-surface abstraction: a `Surface` owns a flat buffer of
//! packed 24-bit colors and offers a single clamped `put_pixel` drawing
//! primitive, plus a fixed-rate draw loop that hands each frame to a
//! caller-supplied callback and pushes the buffer to a display.
//!
//! The coordinate system has its origin at the top left, with the X and Y
//! axes running left-to-right and top-to-bottom, respectively.

use vstd::prelude::*;

verus! {

/// A channel magnitude clamped to the 8-bit range: values above 255 map to
/// 255, everything else is kept as is.
pub open spec fn clamp_channel(v: u32) -> u32 {
    if v > 255 {
        255
    } else {
        v
    }
}

/// The packed 24-bit color value built from three channel magnitudes:
/// the clamped red channel in bits 16-23, green in bits 8-15, blue in
/// bits 0-7.
pub open spec fn pack_rgb(r: u32, g: u32, b: u32) -> u32 {
    (clamp_channel(r) << 16u32) | (clamp_channel(g) << 8u32) | clamp_channel(b)
}

/// An immutable color: three 8-bit channels packed into one integer.
#[derive(Clone, Copy, PartialEq, Eq, Structural, Debug)]
pub struct Color {
    val: u32,
}

impl Color {
    /// The packed value this color carries.
    pub closed spec fn packed(self) -> u32 {
        self.val
    }

    /// Returns a color value constructed from the given red, green and blue
    /// components. Individual component values are clamped to 255.
    pub fn rgb(r: u32, g: u32, b: u32) -> (c: Color)
        ensures
            c.packed() == pack_rgb(r, g, b),
    {
        let rc: u32 = if r > 255 {
            255
        } else {
            r
        };
        let gc: u32 = if g > 255 {
            255
        } else {
            g
        };
        let bc: u32 = if b > 255 {
            255
        } else {
            b
        };
        Color { val: (rc << 16u32) | (gc << 8u32) | bc }
    }

    /// Returns the packed color value: red in bits 16-23, green in bits
    /// 8-15, blue in bits 0-7.
    pub fn value(&self) -> (v: u32)
        ensures
            v == self.packed(),
    {
        self.val
    }
}

/// Each channel occupies its own bit range of the packed value and can be
/// read back unharmed: red from bits 16-23, green from bits 8-15, blue from
/// bits 0-7, each clamped to 255; nothing lands above bit 23.
pub proof fn lemma_pack_rgb_channels(r: u32, g: u32, b: u32)
    ensures
        (pack_rgb(r, g, b) >> 16u32) & 0xffu32 == clamp_channel(r),
        (pack_rgb(r, g, b) >> 8u32) & 0xffu32 == clamp_channel(g),
        pack_rgb(r, g, b) & 0xffu32 == clamp_channel(b),
        pack_rgb(r, g, b) <= 0xffffffu32,
{
    let rc = clamp_channel(r);
    let gc = clamp_channel(g);
    let bc = clamp_channel(b);
    assert((((rc << 16u32) | (gc << 8u32) | bc) >> 16u32) & 0xffu32 == rc
        && (((rc << 16u32) | (gc << 8u32) | bc) >> 8u32) & 0xffu32 == gc
        && ((rc << 16u32) | (gc << 8u32) | bc) & 0xffu32 == bc
        && ((rc << 16u32) | (gc << 8u32) | bc) <= 0xffffffu32) by (bit_vector)
        requires
            rc <= 255u32,
            gc <= 255u32,
            bc <= 255u32,
    ;
}

/// A coordinate clamped into a row or column of the given extent:
/// `min(v, size - 1)`.
pub open spec fn clamp_coord(v: usize, size: usize) -> int
    recommends
        1 <= size,
{
    if v < size {
        v as int
    } else {
        size - 1
    }
}

/// The linear buffer index addressed by a pixel write at `(x, y)` on a
/// `width` by `height` surface: coordinates are clamped to the nearest
/// in-bounds cell, and the grid is row-major.
pub open spec fn pixel_index(x: usize, y: usize, width: usize, height: usize) -> int
    recommends
        1 <= width,
        1 <= height,
{
    clamp_coord(y, height) * width + clamp_coord(x, width)
}

/// A clamped pixel write always lands inside the buffer, wherever the
/// caller aimed it.
pub proof fn lemma_pixel_index_in_range(x: usize, y: usize, width: usize, height: usize)
    requires
        1 <= width,
        1 <= height,
    ensures
        0 <= pixel_index(x, y, width, height) < width * height,
{
    let xc = clamp_coord(x, width);
    let yc = clamp_coord(y, height);
    assert(0 <= yc * width + xc < width * height) by (nonlinear_arith)
        requires
            0 <= xc < width,
            0 <= yc < height,
    ;
}

/// Pixel writes overwrite: of two writes to the same cell the last one
/// alone is in effect, and repeating a write changes nothing further.
pub proof fn lemma_last_write_wins(p: Seq<u32>, idx: int, c1: u32, c2: u32)
    requires
        0 <= idx < p.len(),
    ensures
        p.update(idx, c1).update(idx, c2) == p.update(idx, c2),
        p.update(idx, c1).update(idx, c1) == p.update(idx, c1),
{
    assert(p.update(idx, c1).update(idx, c2) =~= p.update(idx, c2));
    assert(p.update(idx, c1).update(idx, c1) =~= p.update(idx, c1));
}

/// An owned pixel buffer with its dimensions: a row-major grid of
/// `width * height` packed color values.
pub struct Surface {
    width: usize,
    height: usize,
    buffer: Vec<u32>,
}

impl Surface {
    #[verifier::type_invariant]
    spec fn wf(self) -> bool {
        &&& 1 <= self.width
        &&& 1 <= self.height
        &&& self.width * self.height <= usize::MAX
        &&& self.buffer@.len() == self.width * self.height
    }

    /// Width of the surface in pixels.
    pub closed spec fn spec_width(self) -> usize {
        self.width
    }

    /// Height of the surface in pixels.
    pub closed spec fn spec_height(self) -> usize {
        self.height
    }

    /// The buffer contents: one packed color value per pixel, row-major.
    pub closed spec fn pixels(self) -> Seq<u32> {
        self.buffer@
    }

    /// Creates a new surface of the given size, with every pixel black
    /// (the zero packed value).
    ///
    /// # Arguments
    /// * `width` - Width of the surface in pixels
    /// * `height` - Height of the surface in pixels
    pub fn new(width: usize, height: usize) -> (s: Surface)
        requires
            1 <= width,
            1 <= height,
            width * height <= usize::MAX,
        ensures
            s.spec_width() == width,
            s.spec_height() == height,
            s.pixels().len() == width * height,
            forall|i: int| 0 <= i < s.pixels().len() ==> s.pixels()[i] == 0u32,
    {
        let buffer: Vec<u32> = vec![0u32; width * height];
        proof {
            assert forall|i: int| 0 <= i < buffer@.len() implies buffer@[i] == 0u32 by {
                assert(cloned(0u32, buffer@[i]));
            }
        }
        Surface { width, height, buffer }
    }

    /// Returns the size of the surface as a (width, height) tuple.
    pub fn size(&self) -> (wh: (usize, usize))
        ensures
            wh.0 == self.spec_width(),
            wh.1 == self.spec_height(),
            1 <= wh.0,
            1 <= wh.1,
            self.pixels().len() == wh.0 * wh.1,
    {
        proof {
            use_type_invariant(self);
        }
        (self.width, self.height)
    }

    /// Puts a pixel on the surface.
    ///
    /// Coordinates are clamped to the nearest in-bounds cell, so a write
    /// beyond an edge lands on the boundary pixel; it is never dropped and
    /// never an error. Exactly the addressed cell changes.
    ///
    /// # Arguments
    /// * `x` - X-coordinate
    /// * `y` - Y-coordinate
    /// * `color` - Color of the pixel
    pub fn put_pixel(&mut self, x: usize, y: usize, color: Color)
        ensures
            final(self).spec_width() == old(self).spec_width(),
            final(self).spec_height() == old(self).spec_height(),
            final(self).pixels() == old(self).pixels().update(
                pixel_index(x, y, old(self).spec_width(), old(self).spec_height()),
                color.packed(),
            ),
            final(self).pixels().len() == old(self).pixels().len(),
            forall|i: int|
                0 <= i < old(self).pixels().len() && i != pixel_index(
                    x,
                    y,
                    old(self).spec_width(),
                    old(self).spec_height(),
                ) ==> final(self).pixels()[i] == old(self).pixels()[i],
    {
        proof {
            use_type_invariant(&*self);
            lemma_pixel_index_in_range(x, y, self.width, self.height);
        }
        let x_clamp: usize = if x < self.width {
            x
        } else {
            self.width - 1
        };
        let y_clamp: usize = if y < self.height {
            y
        } else {
            self.height - 1
        };
        self.buffer[y_clamp * self.width + x_clamp] = color.value();
    }

    /// Reads the pixel at `(x, y)`, with the same clamp-to-bounds policy as
    /// `put_pixel`: an out-of-range coordinate reads the boundary pixel.
    pub fn pixel(&self, x: usize, y: usize) -> (v: u32)
        ensures
            v == self.pixels()[pixel_index(x, y, self.spec_width(), self.spec_height())],
    {
        proof {
            use_type_invariant(self);
            lemma_pixel_index_in_range(x, y, self.width, self.height);
        }
        let x_clamp: usize = if x < self.width {
            x
        } else {
            self.width - 1
        };
        let y_clamp: usize = if y < self.height {
            y
        } else {
            self.height - 1
        };
        self.buffer[y_clamp * self.width + x_clamp]
    }
}

/// Target interval between presented frames, in microseconds: one frame
/// roughly every 1/60 of a second.
pub const FRAME_INTERVAL_MICROS: u64 = 16600;

/// Why a draw loop could not run, or stopped abnormally.
#[derive(Clone, Copy, PartialEq, Eq, Structural, Debug)]
pub enum DrawError {
    /// No display target could be created; the loop never started.
    DisplayUnavailable,
    /// The display target rejected a presented frame, which indicates a
    /// broken environment rather than a recoverable condition.
    PresentFailed,
}

/// The display collaborator: a windowing capability that shows a pixel
/// buffer and reports window and key state. The draw loop drives any
/// implementation of this trait; a real one wraps a native window, and a
/// scripted one serves tests.
///
/// The polling methods take `&mut self` so that an implementation may
/// update its own state while it answers.
pub trait DisplayTarget: Sized {
    /// Opens a displayable target of the given size, titled for
    /// identification, that paces updates to at most one per
    /// `interval_micros` microseconds (`None` means unpaced). Returns
    /// `None` when no display can be created.
    fn open(title: &str, width: usize, height: usize, interval_micros: Option<u64>) -> (r: Option<
        Self,
    >)
        requires
            1 <= width,
            1 <= height,
    ;

    /// Reports whether the window is still open.
    fn is_open(&mut self) -> bool;

    /// Reports whether the designated exit key (Escape) is currently
    /// pressed.
    fn is_exit_key_down(&mut self) -> bool;

    /// Shows a frame: `width * height` packed color values in row-major
    /// order. Reports whether the frame was accepted; pacing may make the
    /// call block until the next scheduled frame slot.
    fn present(&mut self, buffer: &Vec<u32>, width: usize, height: usize) -> (accepted: bool)
        requires
            buffer@.len() == width * height,
    ;
}

/// One frame of caller-supplied drawing: the unit of behavior the draw
/// loop invokes once per frame, before that frame is presented.
pub trait DrawFrame {
    /// Draws one frame onto the surface. An implementation may write any
    /// pixels and read the size; the dimensions of the surface are not its
    /// to change.
    fn draw_frame(&mut self, surface: &mut Surface)
        ensures
            final(surface).spec_width() == old(surface).spec_width(),
            final(surface).spec_height() == old(surface).spec_height(),
    ;
}

/// A minimal frame callback: paints the center pixel of the surface with
/// one fixed color, each frame.
pub struct CenterDot {
    /// The color painted onto the center pixel.
    pub color: Color,
}

impl DrawFrame for CenterDot {
    fn draw_frame(&mut self, surface: &mut Surface) {
        let (width, height) = surface.size();
        surface.put_pixel(width / 2, height / 2, self.color);
    }
}

impl Surface {
    /// Runs the draw loop against an already-open display target.
    ///
    /// Each iteration invokes the callback exactly once and then presents
    /// the buffer, in that order: no frame is shown without first offering
    /// the callback a chance to draw on it. The loop runs for as long as
    /// the target reports itself open and its exit key up; either
    /// condition failing ends it with `Ok`. A rejected frame ends it with
    /// `Err(DrawError::PresentFailed)` instead, the only error this
    /// function returns.
    ///
    /// The loop keeps a frame counter as its termination measure; should
    /// the counter ever be exhausted — at 60 frames per second that point
    /// lies billions of years out — the loop ends with `Ok` as if the
    /// window had closed.
    pub fn run_draw_loop<D: DisplayTarget, F: DrawFrame>(
        &mut self,
        display: &mut D,
        draw_frame: &mut F,
    ) -> (r: Result<(), DrawError>)
        ensures
            final(self).spec_width() == old(self).spec_width(),
            final(self).spec_height() == old(self).spec_height(),
            r is Err ==> r == Err::<(), DrawError>(DrawError::PresentFailed),
    {
        let mut frames: u64 = 0;
        loop
            invariant
                self.spec_width() == old(self).spec_width(),
                self.spec_height() == old(self).spec_height(),
            decreases u64::MAX - frames,
        {
            if !display.is_open() {
                break;
            }
            if display.is_exit_key_down() {
                break;
            }
            draw_frame.draw_frame(self);
            proof {
                use_type_invariant(&*self);
            }
            let accepted = display.present(&self.buffer, self.width, self.height);
            if !accepted {
                return Err(DrawError::PresentFailed);
            }
            if frames == u64::MAX {
                break;
            }
            frames = frames + 1;
        }
        Ok(())
    }

    /// Begins drawing on the surface.
    ///
    /// Opens a display target of the surface's size, paced to roughly 60
    /// frames per second, and runs the draw loop on it: `draw_frame` is
    /// called once per frame, strictly before that frame is presented,
    /// until the window is closed or Escape is pressed.
    ///
    /// Returns `Err(DrawError::DisplayUnavailable)` when no display target
    /// could be created (the callback is then never invoked), and
    /// `Err(DrawError::PresentFailed)` when the target rejected a frame;
    /// both are fatal to the loop. A loop that ended through the window
    /// closing or the exit key returns `Ok`.
    pub fn begin_draw<D: DisplayTarget, F: DrawFrame>(&mut self, draw_frame: &mut F) -> (r: Result<
        (),
        DrawError,
    >)
        ensures
            final(self).spec_width() == old(self).spec_width(),
            final(self).spec_height() == old(self).spec_height(),
    {
        proof {
            use_type_invariant(&*self);
        }
        let opened = D::open(
            "fbdraw - ESC to exit",
            self.width,
            self.height,
            Some(FRAME_INTERVAL_MICROS),
        );
        match opened {
            Some(mut display) => self.run_draw_loop(&mut display, draw_frame),
            None => Err(DrawError::DisplayUnavailable),
        }
    }
}

} // verus!
