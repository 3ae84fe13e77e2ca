//! The per-page render pipeline.
//!
//! For one page and one render cycle the pipeline computes a single
//! effective scale, derives from it the raster target size handed to the
//! raster producer, and assembles the producer's outcome together with the
//! text-layer reconstruction into one page view. The correctness invariant
//! of the whole overlay is that the raster and the fragments are produced
//! from the identical scale value of one render cycle: `render_request`
//! computes it once, and `assemble_page` builds the fragments with the
//! same value the request carries.
//!
//! A rasterization failure is page-fatal and surfaces as a `RenderError`;
//! a text-extraction failure only degrades the page to an empty text
//! layer.

use crate::builder::{create_lines, glyph_views, spec_build};
use crate::errors::PdfError;
use crate::fragments::{frag_views, PdfTextWord};
use crate::geometry::{
    ceil_milli, ceil_to_unit, scale_len, scale_value, MILLI, COORD_LIMIT, PIXEL_LIMIT,
    SCALE_LIMIT,
};
use crate::glyphs::{GlyphRecord, TextLayerConfig};
use vstd::prelude::*;

verus! {

/// Presentation configuration read at render time; it owns no state and
/// does not outlive the render call that consumed it.
#[derive(Debug, Clone)]
pub struct ViewerLayout {
    /// Padding around the document, in pixels.
    pub padding_px: u64,
    /// Gap between consecutive pages, in pixels.
    pub gap_px: u64,
    /// Background color of the document container, as a CSS color.
    pub background: String,
    /// The page zoom factor, in milli-units (`1000` is natural size).
    pub page_zoom: u64,
}

impl ViewerLayout {
    /// The zoom factor stays below the scale cap.
    pub open spec fn wf(self) -> bool {
        self.page_zoom <= SCALE_LIMIT
    }
}

impl Default for ViewerLayout {
    /// Twenty pixels of padding and gap, a gray background, and half
    /// natural size.
    fn default() -> (r: Self)
        ensures
            r.padding_px == 20,
            r.gap_px == 20,
            r.background@ == "gray"@,
            r.page_zoom == 500,
            r.wf(),
    {
        ViewerLayout {
            padding_px: 20,
            gap_px: 20,
            background: "gray".to_owned(),
            page_zoom: 500,
        }
    }
}

/// The effective milli-scale factor of a render cycle, derived from the
/// zoom factor and, when the container drives the width, from the measured
/// container width: the scale at which the page, `page_width` milli-points
/// wide, fills `container * zoom` pixels.
pub open spec fn spec_effective_scale(
    zoom: int,
    container_width_px: Option<u64>,
    page_width: int,
) -> Option<int> {
    match container_width_px {
        None => Some(zoom),
        Some(w) => {
            if w == 0 || page_width == 0 {
                None
            } else {
                let s = (w * zoom * (MILLI as int)) / page_width;
                if s <= SCALE_LIMIT as int {
                    Some(s)
                } else {
                    None
                }
            }
        },
    }
}

/// Compute the effective scale of one render cycle.
///
/// With no container measurement the zoom factor itself is the scale.
/// A measured width of zero means "not yet measurable": the render is
/// deferred, not performed at a made-up scale. A scale beyond the cap is
/// likewise refused.
pub fn effective_scale(
    layout: &ViewerLayout,
    container_width_px: Option<u64>,
    page_width: u64,
) -> (r: Option<u64>)
    requires
        layout.wf(),
        container_width_px matches Some(w) ==> w <= PIXEL_LIMIT,
        page_width <= COORD_LIMIT,
    ensures
        match spec_effective_scale(
            layout.page_zoom as int,
            container_width_px,
            page_width as int,
        ) {
            Some(s) => r == Some(s as u64) && s <= SCALE_LIMIT,
            None => r is None,
        },
{
    match container_width_px {
        None => Some(layout.page_zoom),
        Some(w) => {
            if w == 0 || page_width == 0 {
                None
            } else {
                proof {
                    vstd::arithmetic::mul::lemma_mul_upper_bound(
                        w as int,
                        PIXEL_LIMIT as int,
                        layout.page_zoom as int,
                        SCALE_LIMIT as int,
                    );
                    vstd::arithmetic::mul::lemma_mul_upper_bound(
                        (w * layout.page_zoom) as int,
                        PIXEL_LIMIT as int * SCALE_LIMIT as int,
                        MILLI as int,
                        MILLI as int,
                    );
                    vstd::arithmetic::mul::lemma_mul_nonnegative(w as int, layout.page_zoom as int);
                    vstd::arithmetic::mul::lemma_mul_nonnegative(
                        (w * layout.page_zoom) as int,
                        MILLI as int,
                    );
                    vstd::arithmetic::div_mod::lemma_div_pos_is_pos(
                        (w * layout.page_zoom * MILLI) as int,
                        page_width as int,
                    );
                }
                let s = (w * layout.page_zoom * MILLI) / page_width;
                if s <= SCALE_LIMIT {
                    Some(s)
                } else {
                    None
                }
            }
        },
    }
}

/// The raster request of one render cycle: the effective scale and the
/// pixel size the raster producer is asked for, all derived from the one
/// scale value.
#[derive(Debug, Clone, Copy, PartialEq, Eq, Structural)]
pub struct RenderPlan {
    /// The effective milli-scale factor of this cycle.
    pub scale: u64,
    /// Raster width to request, whole pixels, rounded up.
    pub target_width_px: u64,
    /// Raster height to request, whole pixels, rounded up.
    pub target_height_px: u64,
}

/// Derive the raster target size of a page from the page's size and the
/// effective scale of the cycle. Rounding is upward, so the raster always
/// covers the whole scaled page.
pub fn plan_render(page_width: u64, page_height: u64, scale: u64) -> (plan: RenderPlan)
    requires
        page_width <= COORD_LIMIT,
        page_height <= COORD_LIMIT,
        scale <= SCALE_LIMIT,
    ensures
        plan.scale == scale,
        plan.target_width_px == ceil_milli(scale_value(page_width as int, scale as int)),
        plan.target_height_px == ceil_milli(scale_value(page_height as int, scale as int)),
        plan.target_width_px * MILLI >= scale_value(page_width as int, scale as int),
        plan.target_height_px * MILLI >= scale_value(page_height as int, scale as int),
        plan.target_width_px <= PIXEL_LIMIT,
        plan.target_height_px <= PIXEL_LIMIT,
{
    let w = scale_len(page_width, scale);
    let h = scale_len(page_height, scale);
    RenderPlan {
        scale,
        target_width_px: ceil_to_unit(w),
        target_height_px: ceil_to_unit(h),
    }
}

/// Compute one render cycle's request: the effective scale, computed
/// once, and the raster target size derived from that same value. `None`
/// defers the render until the container width is measurable.
pub fn render_request(
    layout: &ViewerLayout,
    container_width_px: Option<u64>,
    page_width: u64,
    page_height: u64,
) -> (r: Option<RenderPlan>)
    requires
        layout.wf(),
        container_width_px matches Some(w) ==> w <= PIXEL_LIMIT,
        page_width <= COORD_LIMIT,
        page_height <= COORD_LIMIT,
    ensures
        match spec_effective_scale(
            layout.page_zoom as int,
            container_width_px,
            page_width as int,
        ) {
            Some(s) => r matches Some(plan) && plan.scale == s && plan.target_width_px
                == ceil_milli(scale_value(page_width as int, s)) && plan.target_height_px
                == ceil_milli(scale_value(page_height as int, s)) && plan.target_height_px * MILLI
                >= scale_value(page_height as int, s) && plan.target_height_px <= PIXEL_LIMIT,
            None => r is None,
        },
{
    match effective_scale(layout, container_width_px, page_width) {
        None => None,
        Some(s) => Some(plan_render(page_width, page_height, s)),
    }
}

/// A page's raster: the pixel image of the page at one scale.
#[derive(Debug, Clone)]
pub struct PageRaster {
    /// Width in whole pixels.
    pub width: u32,
    /// Height in whole pixels.
    pub height: u32,
    /// RGBA bytes, row-major, four bytes per pixel.
    pub pixels: Vec<u8>,
    /// The milli-scale factor the raster was produced at.
    pub scale: u64,
}

impl PageRaster {
    /// The buffer holds exactly four bytes per pixel and the scale is
    /// within the cap.
    pub open spec fn wf(self) -> bool {
        &&& self.pixels@.len() == self.width as int * self.height as int * 4
        &&& self.scale <= SCALE_LIMIT
    }
}

/// What the raster producer came back with for one page.
#[derive(Debug, Clone)]
pub enum RasterOutcome {
    /// The page rasterized; the raster is attached.
    Rendered(PageRaster),
    /// The page could not be rasterized; the producer's message.
    Failed(String),
}

/// A page's text as delivered by the glyph geometry source: the full
/// logical text and the ordered glyph stream.
#[derive(Debug, Clone)]
pub struct PageTextData {
    /// The page's full logical text, in reading order.
    pub full_text: Vec<char>,
    /// The page's glyph records, in stream order.
    pub glyphs: Vec<GlyphRecord>,
}

impl PageTextData {
    /// Every glyph respects the geometric caps.
    pub open spec fn wf(self) -> bool {
        forall|i: int| 0 <= i < self.glyphs@.len() ==> (#[trigger] self.glyphs@[i]).wf()
    }
}

/// What the glyph geometry source came back with for one page.
#[derive(Debug, Clone)]
pub enum TextOutcome {
    /// The page's text stream was extractable.
    Extracted(PageTextData),
    /// The text stream could not be read; the source's message. The page
    /// keeps its raster and gets an empty text layer.
    Unavailable(String),
}

/// One rendered page as handed to the presentation surface: the raster,
/// the reconstructed fragments, the characters skipped during
/// reconstruction, and the page's plain text for document-level
/// accumulation.
#[derive(Debug, Clone)]
pub struct PageView {
    /// The page's raster.
    pub raster: PageRaster,
    /// The text fragments, in reading order, at the raster's scale.
    pub fragments: Vec<PdfTextWord>,
    /// Characters of the logical text that matched no glyph.
    pub skipped: Vec<char>,
    /// The page's full logical text; empty when no text layer was built.
    pub text: Vec<char>,
}

/// Assemble one page's render cycle from the raster outcome and the text
/// outcome, both produced at the one effective scale `scale` of the cycle.
///
/// A failed raster aborts the page with a `RenderError` carrying the
/// producer's message. A failed text extraction, or an absent text-layer
/// configuration, yields the raster with an empty text layer.
pub fn assemble_page(
    raster: RasterOutcome,
    text: TextOutcome,
    cfg: Option<&TextLayerConfig>,
    scale: u64,
) -> (r: Result<PageView, PdfError>)
    requires
        scale <= SCALE_LIMIT,
        text matches TextOutcome::Extracted(d) ==> d.wf(),
        raster matches RasterOutcome::Rendered(pr) ==> pr.wf(),
    ensures
        match raster {
            RasterOutcome::Failed(m) => r == Err::<PageView, PdfError>(PdfError::RenderError(m)),
            RasterOutcome::Rendered(pr) => match r {
                Ok(v) => {
                    &&& v.raster == pr
                    &&& v.raster.wf()
                    &&& match (cfg, text) {
                        (Some(c), TextOutcome::Extracted(d)) => {
                            &&& frag_views(v.fragments@) == spec_build(
                                d.full_text@,
                                glyph_views(d.glyphs@),
                                *c,
                                scale as int,
                            ).frags
                            &&& v.skipped@ == spec_build(
                                d.full_text@,
                                glyph_views(d.glyphs@),
                                *c,
                                scale as int,
                            ).skipped
                            &&& v.text@ == d.full_text@
                            &&& forall|j: int|
                                0 <= j < v.fragments@.len() ==> (#[trigger] v.fragments@[j])@.wf()
                        },
                        _ => {
                            &&& v.fragments@.len() == 0
                            &&& v.skipped@.len() == 0
                            &&& v.text@.len() == 0
                        },
                    }
                },
                Err(_) => false,
            },
        },
{
    match raster {
        RasterOutcome::Failed(m) => Err(PdfError::RenderError(m)),
        RasterOutcome::Rendered(pr) => {
            match (cfg, text) {
                (Some(c), TextOutcome::Extracted(d)) => {
                    let out = create_lines(&d.full_text, &d.glyphs, c, scale);
                    Ok(
                        PageView {
                            raster: pr,
                            fragments: out.fragments,
                            skipped: out.skipped,
                            text: d.full_text,
                        },
                    )
                },
                _ => {
                    Ok(
                        PageView {
                            raster: pr,
                            fragments: Vec::new(),
                            skipped: Vec::new(),
                            text: Vec::new(),
                        },
                    )
                },
            }
        },
    }
}

} // verus!
