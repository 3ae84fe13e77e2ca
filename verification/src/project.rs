//! The coordinate projector.
//!
//! Fragment bounds are produced in scaled milli-point space with the
//! origin at the page's bottom-left corner and y growing upward; a raster
//! is painted with the origin at its top-left corner and y growing
//! downward. The projector turns a fragment's bounds into the overlay
//! placement on a raster of pixel height `H`: the left offset is the
//! fragment's left edge, and the top offset is `H` (in milli-pixels)
//! minus the fragment's top edge. One scaled milli-point is one
//! milli-pixel, because the raster is produced at the very same scale.
//!
//! The projection is stateless and pure: it must be recomputed from the
//! fragment and the raster of the current render cycle, never cached
//! across scale changes.

use crate::builder::spec_build;
use crate::fragments::PdfTextWord;
use crate::geometry::{scale_value, Rect, MILLI, PIXEL_LIMIT, SCALE_LIMIT};
use crate::glyphs::{GlyphView, TextLayerConfig};
use crate::words::clone_chars;
use vstd::prelude::*;

verus! {

/// A fragment placed in raster pixel space, ready for the presentation
/// surface: a span of text at `(left, top)` with a font family and size.
/// Offsets are in milli-pixels from the raster's top-left corner; `top`
/// may be negative when a fragment protrudes above the page.
#[derive(Debug, Clone)]
pub struct ProjectedFragment {
    /// The fragment's characters.
    pub text: Vec<char>,
    /// Font family to set the span in.
    pub font_family: String,
    /// Font size in milli-pixels, scaled by the same factor as the raster.
    pub font_size: u64,
    /// Offset of the span from the raster's left edge, milli-pixels.
    pub left: u64,
    /// Offset of the span from the raster's top edge, milli-pixels.
    pub top: i64,
}

/// The top offset of a fragment on a raster `height_px` pixels tall.
pub open spec fn projected_top(height_px: int, bounds: Rect) -> int {
    height_px * (MILLI as int) - bounds.top
}

/// Project one fragment onto a raster of the given pixel height.
pub fn project_fragment(frag: &PdfTextWord, height_px: u64) -> (p: ProjectedFragment)
    requires
        frag@.wf(),
        height_px <= PIXEL_LIMIT,
    ensures
        p.text@ == frag@.text,
        p.font_family@ == frag@.family,
        p.font_size == frag@.size,
        p.left == frag@.bounds.left,
        p.top == projected_top(height_px as int, frag@.bounds),
{
    ProjectedFragment {
        text: clone_chars(&frag.text),
        font_family: frag.font_family.clone(),
        font_size: frag.font_size,
        left: frag.bounds.left,
        top: (height_px * MILLI) as i64 - frag.bounds.top as i64,
    }
}

/// Project a whole page's fragments onto its raster.
pub fn project_fragments(frags: &Vec<PdfTextWord>, height_px: u64) -> (ps: Vec<ProjectedFragment>)
    requires
        forall|j: int| 0 <= j < frags@.len() ==> (#[trigger] frags@[j])@.wf(),
        height_px <= PIXEL_LIMIT,
    ensures
        ps@.len() == frags@.len(),
        forall|j: int|
            0 <= j < frags@.len() ==> {
                &&& (#[trigger] ps@[j]).text@ == frags@[j]@.text
                &&& ps@[j].font_family@ == frags@[j]@.family
                &&& ps@[j].font_size == frags@[j]@.size
                &&& ps@[j].left == frags@[j]@.bounds.left
                &&& ps@[j].top == projected_top(height_px as int, frags@[j]@.bounds)
            },
{
    let mut ps: Vec<ProjectedFragment> = Vec::new();
    let mut i: usize = 0;
    while i < frags.len()
        invariant
            i <= frags@.len(),
            ps@.len() == i,
            height_px <= PIXEL_LIMIT,
            forall|j: int| 0 <= j < frags@.len() ==> (#[trigger] frags@[j])@.wf(),
            forall|j: int|
                0 <= j < i ==> {
                    &&& (#[trigger] ps@[j]).text@ == frags@[j]@.text
                    &&& ps@[j].font_family@ == frags@[j]@.family
                    &&& ps@[j].font_size == frags@[j]@.size
                    &&& ps@[j].left == frags@[j]@.bounds.left
                    &&& ps@[j].top == projected_top(height_px as int, frags@[j]@.bounds)
                },
        decreases frags@.len() - i,
    {
        let p = project_fragment(&frags[i], height_px);
        ps.push(p);
        i = i + 1;
    }
    ps
}

/// Scale consistency: on a raster at least as tall as the page scaled by
/// the very factor the fragments were built with, every fragment whose
/// glyphs lie within the page's own bounds gets a top offset between zero
/// and the raster's height.
pub proof fn lemma_projection_within_raster(
    text: Seq<char>,
    glyphs: Seq<GlyphView>,
    cfg: TextLayerConfig,
    s: int,
    page: Rect,
    height_px: int,
    j: int,
)
    requires
        page.wf_unscaled(),
        0 <= s <= SCALE_LIMIT,
        forall|i: int|
            0 <= i < glyphs.len() ==> (#[trigger] glyphs[i]).wf() && page.contains(
                glyphs[i].tight,
            ) && page.contains(glyphs[i].loose),
        height_px * (MILLI as int) >= scale_value(page.top as int, s),
        0 <= j < spec_build(text, glyphs, cfg, s).frags.len(),
    ensures
        0 <= projected_top(height_px, spec_build(text, glyphs, cfg, s).frags[j].bounds),
        projected_top(height_px, spec_build(text, glyphs, cfg, s).frags[j].bounds) <= height_px * (
        MILLI as int),
{
    crate::builder::lemma_build_frags_within(
        crate::words::split_words(text),
        glyphs,
        cfg,
        s,
        0,
        page,
    );
    crate::geometry::lemma_scale_bounded(page.top as int, s);
    let scaled_page = crate::geometry::rect_scaled(page, s);
    let frag = spec_build(text, glyphs, cfg, s).frags[j];
    assert(scaled_page.contains(frag.bounds));
    assert(frag.bounds.top <= scaled_page.top);
}

} // verus!
