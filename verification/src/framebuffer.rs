//! The pixel framebuffer as a text console.
//!
//! Pixel drawing itself is an opaque sink outside this core; what matters
//! here is the text handed to it. The writer keeps the boot-supplied
//! geometry and the lines written so far, in order.

use vstd::prelude::*;

verus! {

/// Geometry of the boot-supplied framebuffer, fixed at startup.
#[derive(Clone, Copy, PartialEq, Eq, Structural, Debug)]
pub struct FrameBufferInfo {
    /// Visible width in pixels.
    pub width: usize,
    /// Visible height in pixels.
    pub height: usize,
    /// Pixels per row in memory, including padding.
    pub stride: usize,
    /// Bytes each pixel occupies.
    pub bytes_per_pixel: usize,
}

/// The text console drawn onto the framebuffer.
pub struct FrameBufferWriter {
    /// The boot-supplied geometry.
    pub info: FrameBufferInfo,
    /// Every line written, in order.
    pub lines: Vec<String>,
}

impl FrameBufferWriter {
    /// A fresh console over the given framebuffer geometry.
    pub fn new(info: FrameBufferInfo) -> (w: FrameBufferWriter)
        ensures
            w.info == info,
            w.lines@ == Seq::<String>::empty(),
    {
        let w = FrameBufferWriter { info: info, lines: Vec::new() };
        proof {
            assert(w.lines@ =~= Seq::<String>::empty());
        }
        w
    }

    /// Draws one line of text.
    pub fn write_line(&mut self, line: String)
        ensures
            final(self).info == old(self).info,
            final(self).lines@ == old(self).lines@.push(line),
    {
        self.lines.push(line);
    }
}

} // verus!
