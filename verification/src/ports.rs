//! What the picture unit hands to its host: a frame of pixels and a sink
//! that shows it.

use vstd::prelude::*;

verus! {

/// Width of a frame in pixels.
pub const WIDTH: usize = 256;

/// Height of a frame in pixels.
pub const HEIGHT: usize = 240;

/// The frame before anything is drawn: every pixel zero.
pub open spec fn blank_frame() -> Seq<u32> {
    Seq::new(61440, |i: int| 0u32)
}

/// A frame of 256 by 240 ARGB pixels, row by row.
pub struct PixelBuffer {
    cells: Vec<u32>,
}

impl View for PixelBuffer {
    type V = Seq<u32>;

    closed spec fn view(&self) -> Seq<u32> {
        self.cells@
    }
}

impl PixelBuffer {
    /// The frame holds one cell for each pixel.
    pub open spec fn wf(&self) -> bool {
        self@.len() == 61440
    }

    /// A frame of zeroes.
    pub fn new() -> (buffer: PixelBuffer)
        ensures
            buffer.wf(),
            buffer@ == blank_frame(),
    {
        PixelBuffer { cells: vec![0u32; 61440] }
    }

    /// Sets the pixel in column `x` of row `y`.
    pub fn write(&mut self, x: usize, y: usize, argb: u32)
        requires
            old(self).wf(),
            x < 256,
            y < 240,
        ensures
            final(self).wf(),
            final(self)@ == old(self)@.update(y * 256 + x, argb),
    {
        self.cells[y * 256 + x] = argb;
    }

    /// The pixel in column `x` of row `y`.
    pub fn pixel(&self, x: usize, y: usize) -> (argb: u32)
        requires
            self.wf(),
            x < 256,
            y < 240,
        ensures
            argb == self@[y * 256 + x],
    {
        self.cells[y * 256 + x]
    }

    /// The pixels in a vector of their own.
    pub fn to_vec(&self) -> (pixels: Vec<u32>)
        requires
            self.wf(),
        ensures
            pixels@ == self@,
    {
        let mut pixels: Vec<u32> = Vec::with_capacity(61440);
        let mut i: usize = 0;
        while i < 61440
            invariant
                i <= 61440,
                self.wf(),
                pixels@ == self@.take(i as int),
            decreases 61440 - i,
        {
            pixels.push(self.cells[i]);
            i += 1;
        }
        pixels
    }
}

/// A host surface that shows finished frames.
pub trait VideoDevice {
    /// The frames shown so far, oldest first.
    spec fn frames(&self) -> Seq<Seq<u32>>;

    /// Shows a finished frame.
    fn blit_pixels(&mut self, pixels: &PixelBuffer)
        requires
            pixels.wf(),
        ensures
            final(self).frames() == old(self).frames().push(pixels@),
    ;
}

/// A sink that keeps every frame it is shown.
pub struct FrameLog {
    shown: Vec<Vec<u32>>,
}

impl FrameLog {
    pub fn new() -> (log: FrameLog)
        ensures
            log.frames() == Seq::<Seq<u32>>::empty(),
    {
        FrameLog { shown: Vec::new() }
    }

    /// How many frames were shown.
    pub fn count(&self) -> (n: usize)
        ensures
            n == self.frames().len(),
    {
        self.shown.len()
    }

    /// Pixel `i` of the frame shown `k`-th.
    pub fn pixel(&self, k: usize, i: usize) -> (argb: u32)
        requires
            k < self.frames().len(),
            i < self.frames()[k as int].len(),
        ensures
            argb == self.frames()[k as int][i as int],
    {
        self.shown[k][i]
    }
}

impl VideoDevice for FrameLog {
    closed spec fn frames(&self) -> Seq<Seq<u32>> {
        Seq::new(self.shown@.len(), |k: int| self.shown@[k]@)
    }

    fn blit_pixels(&mut self, pixels: &PixelBuffer) {
        let frame = pixels.to_vec();
        self.shown.push(frame);
    }
}

/// A sink that keeps the frame shown last, for a host to pick up.
pub struct FrameSlot {
    latest: Vec<u32>,
    fresh: bool,
    shown: Ghost<Seq<Seq<u32>>>,
}

impl FrameSlot {
    /// The frame that the slot holds.
    pub closed spec fn held(&self) -> Seq<u32> {
        self.latest@
    }

    /// Whether a frame has arrived that was not yet taken.
    pub closed spec fn is_fresh(&self) -> bool {
        self.fresh
    }

    /// An empty slot.
    pub fn new() -> (slot: FrameSlot)
        ensures
            slot.frames() == Seq::<Seq<u32>>::empty(),
            slot.held() == Seq::<u32>::empty(),
            !slot.is_fresh(),
    {
        FrameSlot { latest: Vec::new(), fresh: false, shown: Ghost(Seq::empty()) }
    }

    /// Says whether a frame has arrived since the last call, and marks it
    /// as taken.
    pub fn take_fresh(&mut self) -> (fresh: bool)
        ensures
            fresh == old(self).is_fresh(),
            !final(self).is_fresh(),
            final(self).held() == old(self).held(),
            final(self).frames() == old(self).frames(),
    {
        let fresh = self.fresh;
        self.fresh = false;
        fresh
    }

    /// The pixels of the frame held.
    pub fn latest(&self) -> (pixels: &Vec<u32>)
        ensures
            pixels@ == self.held(),
    {
        &self.latest
    }
}

impl VideoDevice for FrameSlot {
    closed spec fn frames(&self) -> Seq<Seq<u32>> {
        self.shown@
    }

    fn blit_pixels(&mut self, pixels: &PixelBuffer)
        ensures
            final(self).held() == pixels@,
            final(self).is_fresh(),
    {
        self.latest = pixels.to_vec();
        self.fresh = true;
        self.shown = Ghost(self.shown@.push(pixels@));
    }
}

} // verus!
