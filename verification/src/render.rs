//! Label Renderer geometry: the size and text position of one label
//! overlay surface.
//!
//! An overlay sits at its anchor window's origin and is sized to fit its
//! text in a fixed-width bitmap font plus fixed padding. The surrounding
//! program creates the surface over the protocol connection; this module
//! supplies the numbers it must use.

use vstd::prelude::*;

verus! {

/// Height of a label overlay, in pixels.
pub const LABEL_HEIGHT: u16 = 18;

/// Width of one glyph of the fixed-width label font, in pixels.
pub const LABEL_GLYPH_WIDTH: u16 = 9;

/// Horizontal padding added around the text of a label, in pixels.
pub const LABEL_PADDING: u16 = 6;

/// The size and the text position of one label overlay surface.
#[derive(Clone, Copy, Debug, PartialEq, Eq, Structural)]
pub struct LabelGeometry {
    /// Surface width in pixels.
    pub width: u16,
    /// Surface height in pixels.
    pub height: u16,
    /// X position of the text baseline start inside the surface.
    pub text_x: i16,
    /// Y position of the text baseline inside the surface.
    pub text_y: i16,
}

/// The geometry of a label that shows `glyph_count` glyphs: wide enough
/// for the glyphs plus padding, fixed height, text inset by half the
/// padding horizontally and sitting on the font baseline.
pub fn label_geometry(glyph_count: u16) -> (g: LabelGeometry)
    requires
        glyph_count * LABEL_GLYPH_WIDTH + LABEL_PADDING <= u16::MAX,
    ensures
        g.width == glyph_count * LABEL_GLYPH_WIDTH + LABEL_PADDING,
        g.height == LABEL_HEIGHT,
        g.text_x == 4,
        g.text_y == 14,
{
    LabelGeometry { width: glyph_count * LABEL_GLYPH_WIDTH + LABEL_PADDING, height: LABEL_HEIGHT, text_x: 4, text_y: 14 }
}

} // verus!
