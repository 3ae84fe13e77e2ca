//! Per-character glyph data and the text-layer configuration.
//!
//! A `GlyphRecord` is what the glyph geometry source reports for one
//! character of a page: the Unicode character, a tight and a loose bounding
//! box in PDF point space, the font family, and the font size both as the
//! device-scaled and as the raw value. A `CharacterMapping` is the
//! contribution such a record makes to the text layer once the active scale
//! factor and the configuration have been applied.

use crate::geometry::{
    lemma_rect_scaled_wf, lemma_scale_bounded, rect_scaled, scale_len, scale_rect, scale_value,
    Rect, COORD_LIMIT, SCALED_LIMIT, SCALE_LIMIT,
};
use vstd::prelude::*;

verus! {

/// Policy deciding whether two adjacent characters' font sizes belong to
/// the same text fragment. Sizes and tolerances are in milli-points.
#[derive(Debug, Clone, Copy, PartialEq, Eq, Structural)]
pub enum FontSizeMatch {
    /// Only sizes that round to the same whole number of points are grouped.
    Strict,
    /// Sizes may differ by up to this many milli-points.
    Tolerant(u64),
    /// Font size is ignored: any two sizes are considered part of the same
    /// word.
    Any,
}

impl Default for FontSizeMatch {
    /// The default policy tolerates a difference of five points.
    fn default() -> (r: Self)
        ensures
            r == FontSizeMatch::Tolerant(5000u64),
    {
        FontSizeMatch::Tolerant(5000)
    }
}

/// A milli-point size rounded to the nearest whole point, halves away from
/// zero.
pub open spec fn round_points(v: int) -> int {
    (v + 500) / 1000
}

/// The absolute difference of two sizes.
pub open spec fn size_diff(a: int, b: int) -> int {
    if a >= b {
        a - b
    } else {
        b - a
    }
}

/// Whether two font sizes satisfy the matching policy.
pub open spec fn font_size_matches(m: FontSizeMatch, a: int, b: int) -> bool {
    match m {
        FontSizeMatch::Strict => round_points(a) == round_points(b),
        FontSizeMatch::Tolerant(t) => size_diff(a, b) <= t,
        FontSizeMatch::Any => true,
    }
}

/// Decide whether font sizes `a` and `b` (milli-points) match under `m`.
pub fn font_size_ok(m: &FontSizeMatch, a: u64, b: u64) -> (r: bool)
    requires
        a <= SCALED_LIMIT,
        b <= SCALED_LIMIT,
    ensures
        r == font_size_matches(*m, a as int, b as int),
{
    match m {
        FontSizeMatch::Strict => (a + 500) / 1000 == (b + 500) / 1000,
        FontSizeMatch::Tolerant(t) => {
            if a >= b {
                a - b <= *t
            } else {
                b - a <= *t
            }
        },
        FontSizeMatch::Any => true,
    }
}

/// Configuration of the text-fragment reconstruction. When a document has
/// no such configuration, no text layer is produced at all.
#[derive(Debug, Clone, Copy, PartialEq, Eq, Structural)]
pub struct TextLayerConfig {
    /// Use each character's tight bounding box instead of the loose one.
    pub use_precise_char_bounds: bool,
    /// Use the device-scaled font size instead of the raw one.
    pub use_precise_font_size: bool,
    /// Characters of different font families never share a fragment.
    pub require_same_font: bool,
    /// Policy for grouping adjacent characters by font size.
    pub font_size_match: FontSizeMatch,
}

impl Default for TextLayerConfig {
    /// Loose bounds, raw font size, no family requirement, and the default
    /// size tolerance.
    fn default() -> (r: Self)
        ensures
            r == (TextLayerConfig {
                use_precise_char_bounds: false,
                use_precise_font_size: false,
                require_same_font: false,
                font_size_match: FontSizeMatch::Tolerant(5000u64),
            }),
    {
        TextLayerConfig {
            use_precise_char_bounds: false,
            use_precise_font_size: false,
            require_same_font: false,
            font_size_match: FontSizeMatch::Tolerant(5000),
        }
    }
}

/// Mathematical image of a `GlyphRecord`.
pub struct GlyphView {
    pub ch: char,
    pub tight: Rect,
    pub loose: Rect,
    pub family: Seq<char>,
    pub scaled_size: int,
    pub unscaled_size: int,
}

impl GlyphView {
    /// Bounds are well formed and unscaled, sizes within the unscaled cap.
    pub open spec fn wf(self) -> bool {
        &&& self.tight.wf_unscaled()
        &&& self.loose.wf_unscaled()
        &&& 0 <= self.scaled_size <= COORD_LIMIT
        &&& 0 <= self.unscaled_size <= COORD_LIMIT
    }
}

/// One character of a page as reported by the glyph geometry source, in
/// PDF point space (milli-points).
#[derive(Debug, Clone)]
pub struct GlyphRecord {
    /// The Unicode character the glyph renders.
    pub character: char,
    /// Tight bounding box of the rendered outline.
    pub tight_bounds: Rect,
    /// Loose bounding box including the font's full line extent.
    pub loose_bounds: Rect,
    /// Name of the font family the glyph is set in.
    pub font_family: String,
    /// Font size after the page's device transform, milli-points.
    pub scaled_font_size: u64,
    /// Raw font size as stated by the text object, milli-points.
    pub unscaled_font_size: u64,
}

impl View for GlyphRecord {
    type V = GlyphView;

    open spec fn view(&self) -> GlyphView {
        GlyphView {
            ch: self.character,
            tight: self.tight_bounds,
            loose: self.loose_bounds,
            family: self.font_family@,
            scaled_size: self.scaled_font_size as int,
            unscaled_size: self.unscaled_font_size as int,
        }
    }
}

impl GlyphRecord {
    /// The record respects the geometric caps.
    pub open spec fn wf(self) -> bool {
        self@.wf()
    }
}

/// Mathematical image of a `CharacterMapping`.
pub struct CharView {
    pub ch: char,
    pub family: Seq<char>,
    pub size: int,
    pub bounds: Rect,
}

impl CharView {
    /// Scaled bounds and size stay under the scaled cap.
    pub open spec fn wf(self) -> bool {
        &&& self.bounds.wf()
        &&& 0 <= self.size <= SCALED_LIMIT
    }
}

/// The contribution of one matched glyph to the text layer: its character,
/// font family, and the bounds and font size already multiplied by the
/// active scale factor.
#[derive(Debug, Clone)]
pub struct CharacterMapping {
    /// The character contributed to the fragment's text.
    pub text: char,
    /// Font family as reported by the glyph source.
    pub font_family: String,
    /// Font size in milli-points, scaled by the active scale factor.
    pub font_size: u64,
    /// Bounding box in milli-points, scaled by the active scale factor.
    pub bounds: Rect,
}

impl View for CharacterMapping {
    type V = CharView;

    open spec fn view(&self) -> CharView {
        CharView {
            ch: self.text,
            family: self.font_family@,
            size: self.font_size as int,
            bounds: self.bounds,
        }
    }
}

/// The contribution a glyph makes under a configuration and a milli-scale
/// factor: the configured choice of bounds and font size, both scaled.
pub open spec fn glyph_contribution(g: GlyphView, cfg: TextLayerConfig, s: int) -> CharView {
    CharView {
        ch: g.ch,
        family: g.family,
        size: scale_value(
            if cfg.use_precise_font_size {
                g.scaled_size
            } else {
                g.unscaled_size
            },
            s,
        ),
        bounds: rect_scaled(
            if cfg.use_precise_char_bounds {
                g.tight
            } else {
                g.loose
            },
            s,
        ),
    }
}

/// Compute the scaled contribution of one glyph.
pub fn char_contribution(g: &GlyphRecord, cfg: &TextLayerConfig, scale: u64) -> (c:
    CharacterMapping)
    requires
        g.wf(),
        scale <= SCALE_LIMIT,
    ensures
        c@ == glyph_contribution(g@, *cfg, scale as int),
        c@.wf(),
{
    proof {
        lemma_rect_scaled_wf(g@.tight, scale as int);
        lemma_rect_scaled_wf(g@.loose, scale as int);
        lemma_scale_bounded(g@.scaled_size, scale as int);
        lemma_scale_bounded(g@.unscaled_size, scale as int);
    }
    let bounds_src: &Rect = if cfg.use_precise_char_bounds {
        &g.tight_bounds
    } else {
        &g.loose_bounds
    };
    let size_src: u64 = if cfg.use_precise_font_size {
        g.scaled_font_size
    } else {
        g.unscaled_font_size
    };
    CharacterMapping {
        text: g.character,
        font_family: g.font_family.clone(),
        font_size: scale_len(size_src, scale),
        bounds: scale_rect(bounds_src, scale),
    }
}

} // verus!
