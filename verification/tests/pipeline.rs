use pdf_viewer_core::errors::PdfError;
use pdf_viewer_core::fragments::PdfTextWord;
use pdf_viewer_core::geometry::{scale_len, Rect, COORD_LIMIT, SCALED_LIMIT, SCALE_LIMIT};
use pdf_viewer_core::glyphs::{FontSizeMatch, GlyphRecord, TextLayerConfig};
use pdf_viewer_core::pipeline::{
    assemble_page, effective_scale, plan_render, render_request, PageRaster, PageTextData,
    RasterOutcome, TextOutcome, ViewerLayout,
};
use pdf_viewer_core::project::{project_fragment, project_fragments};

fn layout(zoom: u64) -> ViewerLayout {
    ViewerLayout {
        padding_px: 20,
        gap_px: 20,
        background: "gray".to_string(),
        page_zoom: zoom,
    }
}

fn rect(left: u64, bottom: u64, right: u64, top: u64) -> Rect {
    Rect { left, bottom, right, top }
}

fn raster(width: u32, height: u32, scale: u64) -> PageRaster {
    PageRaster {
        width,
        height,
        pixels: vec![0u8; (width as usize) * (height as usize) * 4],
        scale,
    }
}

fn glyph(c: char, bounds: Rect) -> GlyphRecord {
    GlyphRecord {
        character: c,
        tight_bounds: bounds,
        loose_bounds: bounds,
        font_family: "Sans".to_string(),
        scaled_font_size: 12_000,
        unscaled_font_size: 12_000,
    }
}

fn config() -> TextLayerConfig {
    TextLayerConfig {
        use_precise_char_bounds: false,
        use_precise_font_size: false,
        require_same_font: false,
        font_size_match: FontSizeMatch::Tolerant(5_000),
    }
}

#[test]
fn effective_scale_is_zoom_without_container() {
    assert_eq!(effective_scale(&layout(500), None, 612_000), Some(500));
}

#[test]
fn unmeasured_container_defers_render() {
    assert_eq!(effective_scale(&layout(500), Some(0), 612_000), None);
    assert_eq!(render_request(&layout(500), Some(0), 612_000, 792_000), None);
}

#[test]
fn container_width_drives_scale() {
    // 612 px at zoom 1.0 over a 612 pt page: scale 1.0 (1000 milli).
    assert_eq!(effective_scale(&layout(1_000), Some(612), 612_000), Some(1_000));
    // Same container at zoom 0.5: scale 0.5.
    assert_eq!(effective_scale(&layout(500), Some(612), 612_000), Some(500));
    // Double container width: scale 2.0.
    assert_eq!(effective_scale(&layout(1_000), Some(1_224), 612_000), Some(2_000));
}

#[test]
fn plan_targets_cover_the_scaled_page() {
    let plan = plan_render(612_000, 792_000, 1_000);
    assert_eq!(plan.scale, 1_000);
    assert_eq!(plan.target_width_px, 612);
    assert_eq!(plan.target_height_px, 792);

    let half = plan_render(612_000, 792_000, 500);
    assert_eq!(half.target_width_px, 306);
    assert_eq!(half.target_height_px, 396);

    // An odd scale rounds the target up, never down.
    let odd = plan_render(612_000, 792_000, 333);
    assert_eq!(odd.target_width_px, 204); // 203.796 rounded up
    assert_eq!(odd.target_height_px, 264); // 263.736 rounded up
    assert!(odd.target_height_px as u64 * 1_000 >= 792_000 * 333 / 1_000);
}

#[test]
fn request_uses_one_scale_for_raster_and_text() {
    // A 612 pt wide page in a 612 px container at zoom 0.5: scale 0.5,
    // and the raster target is derived from that same scale value.
    let plan = render_request(&layout(500), Some(612), 612_000, 792_000).unwrap();
    assert_eq!(plan.scale, 500);
    assert_eq!(plan.target_width_px, 306);
    assert_eq!(plan.target_height_px, 396);
}

#[test]
fn raster_failure_is_a_page_render_error() {
    let text = TextOutcome::Unavailable("no text".to_string());
    let out = assemble_page(
        RasterOutcome::Failed("bad page".to_string()),
        text,
        None,
        1_000,
    );
    match out {
        Err(PdfError::RenderError(m)) => assert_eq!(m, "bad page"),
        _ => panic!("expected a render error"),
    }
}

#[test]
fn text_extraction_failure_degrades_to_empty_layer() {
    let cfg = config();
    let out = assemble_page(
        RasterOutcome::Rendered(raster(10, 10, 1_000)),
        TextOutcome::Unavailable("stream unreadable".to_string()),
        Some(&cfg),
        1_000,
    )
    .unwrap();
    assert_eq!(out.raster.width, 10);
    assert!(out.fragments.is_empty());
    assert!(out.skipped.is_empty());
    assert!(out.text.is_empty());
}

#[test]
fn absent_config_disables_the_text_layer() {
    let data = PageTextData {
        full_text: "ab".chars().collect(),
        glyphs: vec![
            glyph('a', rect(0, 0, 1_000, 2_000)),
            glyph('b', rect(1_000, 0, 2_000, 2_000)),
        ],
    };
    let out = assemble_page(
        RasterOutcome::Rendered(raster(10, 10, 1_000)),
        TextOutcome::Extracted(data),
        None,
        1_000,
    )
    .unwrap();
    assert!(out.fragments.is_empty());
    assert!(out.text.is_empty());
}

#[test]
fn assembled_page_carries_raster_fragments_and_text() {
    let cfg = config();
    let data = PageTextData {
        full_text: "ab".chars().collect(),
        glyphs: vec![
            glyph('a', rect(0, 0, 1_000, 2_000)),
            glyph('b', rect(1_000, 0, 2_000, 2_000)),
        ],
    };
    let out = assemble_page(
        RasterOutcome::Rendered(raster(10, 10, 1_000)),
        TextOutcome::Extracted(data),
        Some(&cfg),
        1_000,
    )
    .unwrap();
    assert_eq!(out.raster.height, 10);
    assert_eq!(out.fragments.len(), 1);
    assert_eq!(out.fragments[0].text, vec!['a', 'b']);
    assert_eq!(out.fragments[0].bounds, rect(0, 0, 2_000, 2_000));
    let collected: String = out.text.iter().collect();
    assert_eq!(collected, "ab");
}

#[test]
fn projection_flips_the_vertical_axis() {
    let frag = PdfTextWord {
        text: vec!['a'],
        font_family: "Sans".to_string(),
        font_size: 12_000,
        bounds: rect(500, 1_000, 1_500, 9_000),
    };
    // Raster of 10 px: top offset = 10'000 - 9'000 milli-pixels.
    let p = project_fragment(&frag, 10);
    assert_eq!(p.left, 500);
    assert_eq!(p.top, 1_000);
    assert_eq!(p.font_size, 12_000);
    assert_eq!(p.font_family, "Sans");
    assert_eq!(p.text, vec!['a']);
}

#[test]
fn projected_top_stays_within_the_raster_for_in_page_fragments() {
    // A page 612x792 pt at scale 0.5: raster 306x396 px. A fragment whose
    // bounds lie within the page projects to a top offset in [0, H].
    let plan = plan_render(612_000, 792_000, 500);
    let h = plan.target_height_px;
    let frag = PdfTextWord {
        text: vec!['a'],
        font_family: "Sans".to_string(),
        font_size: 6_000,
        // Scaled bounds of a glyph near the top of the page.
        bounds: rect(0, 380_000, 10_000, 395_500),
    };
    let p = project_fragment(&frag, h);
    assert!(0 <= p.top && p.top <= (h as i64) * 1_000);

    let ps = project_fragments(&vec![frag], h);
    assert_eq!(ps.len(), 1);
    assert_eq!(ps[0].top, p.top);
}

#[test]
fn fragment_protruding_above_the_raster_projects_negative() {
    let frag = PdfTextWord {
        text: vec!['a'],
        font_family: "Sans".to_string(),
        font_size: 12_000,
        bounds: rect(0, 0, 1_000, 11_000),
    };
    let p = project_fragment(&frag, 10);
    assert_eq!(p.top, -1_000);
}

#[test]
fn default_layout_matches_the_documented_defaults() {
    let l = ViewerLayout::default();
    assert_eq!(l.padding_px, 20);
    assert_eq!(l.gap_px, 20);
    assert_eq!(l.background, "gray");
    assert_eq!(l.page_zoom, 500);
}

#[test]
fn default_text_layer_config_is_loose_and_tolerant() {
    let c = TextLayerConfig::default();
    assert!(!c.use_precise_char_bounds);
    assert!(!c.use_precise_font_size);
    assert!(!c.require_same_font);
    assert!(matches!(c.font_size_match, FontSizeMatch::Tolerant(5_000)));
}

#[test]
fn scaling_at_the_caps_stays_exact() {
    assert_eq!(scale_len(COORD_LIMIT, SCALE_LIMIT), SCALED_LIMIT);
    assert_eq!(scale_len(0, SCALE_LIMIT), 0);
    assert_eq!(scale_len(COORD_LIMIT, 0), 0);
    assert_eq!(scale_len(1_000, 1), 1);
    assert_eq!(scale_len(999, 1), 0);
}

#[test]
fn error_messages_are_carried_verbatim() {
    let e = PdfError::LoadingError("wrong password".to_string());
    assert_eq!(e.message().as_str(), "wrong password");
    let e = PdfError::TextExtractionError("no stream".to_string());
    assert_eq!(e.message().as_str(), "no stream");
    let e = pdf_viewer_core::errors::FetchError::FailedToFetch("404".to_string());
    assert_eq!(e.message().as_str(), "404");
}
