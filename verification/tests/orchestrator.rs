use pdf_viewer_core::engine::{EngineCell, EngineRequest, EngineState};
use pdf_viewer_core::errors::{FetchError, PdfError};
use pdf_viewer_core::orchestrator::{
    DocAction, DocEvent, DocFatal, DocPhase, Orchestrator, PageOutcome,
};
use pdf_viewer_core::pipeline::{PageRaster, PageView};

fn page_view(text: &str) -> PageView {
    PageView {
        raster: PageRaster { width: 2, height: 2, pixels: vec![0u8; 16], scale: 1_000 },
        fragments: Vec::new(),
        skipped: Vec::new(),
        text: text.chars().collect(),
    }
}

fn opened(o: &mut Orchestrator, pages: usize) -> (u64, DocAction) {
    let g = o.start();
    assert_eq!(o.step(g, DocEvent::EngineReady), DocAction::Wait);
    assert_eq!(o.step(g, DocEvent::BytesFetched), DocAction::OpenDocument);
    let a = o.step(g, DocEvent::Opened(pages));
    (g, a)
}

#[test]
fn wrong_password_is_document_fatal_with_no_pages() {
    // Document open rejected (wrong password): a loading error, zero pages
    // rendered, and no render error anywhere.
    let mut o = Orchestrator::new();
    let g = o.start();
    assert_eq!(o.phase, DocPhase::FetchingAndInitializing);
    assert_eq!(o.step(g, DocEvent::BytesFetched), DocAction::Wait);
    assert_eq!(o.step(g, DocEvent::EngineReady), DocAction::OpenDocument);
    assert_eq!(o.phase, DocPhase::Opening);
    let a = o.step(g, DocEvent::OpenRejected("wrong password".to_string()));
    assert_eq!(a, DocAction::Halt);
    assert_eq!(o.phase, DocPhase::Failed);
    assert!(o.pages.is_empty());
    match &o.failure {
        Some(DocFatal::Load(PdfError::LoadingError(m))) => assert_eq!(m.as_str(), "wrong password"),
        _ => panic!("expected a loading failure"),
    }
}

#[test]
fn one_page_fails_and_the_next_still_renders() {
    // Page 0 renders, page 1 fails rasterization, page 2 renders: one
    // render error for the failing page and the document still completes.
    let mut o = Orchestrator::new();
    let (g, a) = opened(&mut o, 3);
    assert_eq!(a, DocAction::RenderPage(0));
    assert_eq!(o.phase, DocPhase::RenderingPages);

    let a = o.step(g, DocEvent::PageRendered(page_view("first")));
    assert_eq!(a, DocAction::RenderPage(1));

    let e = PdfError::RenderError("rasterizer choked".to_string());
    let a = o.step(g, DocEvent::PageFailed(e));
    assert_eq!(a, DocAction::RenderPage(2));
    assert_eq!(o.phase, DocPhase::RenderingPages);

    let a = o.step(g, DocEvent::PageRendered(page_view("third")));
    assert_eq!(a, DocAction::Done);
    assert_eq!(o.phase, DocPhase::Ready);

    assert_eq!(o.pages.len(), 3);
    assert!(matches!(o.pages[0], PageOutcome::Rendered(_)));
    match &o.pages[1] {
        PageOutcome::Failed(PdfError::RenderError(m)) => assert_eq!(m.as_str(), "rasterizer choked"),
        _ => panic!("expected the page's render error"),
    }
    assert!(matches!(o.pages[2], PageOutcome::Rendered(_)));
    assert!(o.failure.is_none());
}

#[test]
fn page_texts_accumulate_in_document_order() {
    let mut o = Orchestrator::new();
    let (g, _) = opened(&mut o, 2);
    o.step(g, DocEvent::PageRendered(page_view("alpha")));
    o.step(g, DocEvent::PageRendered(page_view("beta")));
    let texts: Vec<String> = o.texts.iter().map(|t| t.iter().collect()).collect();
    assert_eq!(texts, vec!["alpha".to_string(), "beta".to_string()]);
}

#[test]
fn failed_page_leaves_an_empty_text_slot() {
    let mut o = Orchestrator::new();
    let (g, _) = opened(&mut o, 2);
    o.step(g, DocEvent::PageRendered(page_view("alpha")));
    o.step(g, DocEvent::PageFailed(PdfError::RenderError("x".to_string())));
    assert_eq!(o.texts.len(), 2);
    assert!(o.texts[1].is_empty());
}

#[test]
fn fetch_failure_is_document_fatal() {
    let mut o = Orchestrator::new();
    let g = o.start();
    let a = o.step(g, DocEvent::BytesFailed(FetchError::FailedToFetch("404".to_string())));
    assert_eq!(a, DocAction::Halt);
    assert_eq!(o.phase, DocPhase::Failed);
    assert!(o.pages.is_empty());
    assert!(matches!(o.failure, Some(DocFatal::Fetch(_))));
}

#[test]
fn engine_failure_is_document_fatal() {
    let mut o = Orchestrator::new();
    let g = o.start();
    let a = o.step(g, DocEvent::EngineFailed("no module".to_string()));
    assert_eq!(a, DocAction::Halt);
    assert_eq!(o.phase, DocPhase::Failed);
    assert!(matches!(o.failure, Some(DocFatal::Load(PdfError::LoadingError(_)))));
}

#[test]
fn empty_document_is_ready_at_once() {
    let mut o = Orchestrator::new();
    let (_, a) = opened(&mut o, 0);
    assert_eq!(a, DocAction::Done);
    assert_eq!(o.phase, DocPhase::Ready);
    assert!(o.pages.is_empty());
}

#[test]
fn stale_generation_events_are_ignored() {
    // The document identity changes mid-flight: outcomes of the superseded
    // fetch must not write into the new document's state.
    let mut o = Orchestrator::new();
    let g1 = o.start();
    assert_eq!(o.step(g1, DocEvent::EngineReady), DocAction::Wait);
    let g2 = o.start();
    assert_ne!(g1, g2);
    // A late outcome of the first load arrives after the restart.
    assert_eq!(o.step(g1, DocEvent::BytesFetched), DocAction::Ignore);
    assert_eq!(o.phase, DocPhase::FetchingAndInitializing);
    assert!(!o.bytes_ready);
    // The current load proceeds normally.
    assert_eq!(o.step(g2, DocEvent::EngineReady), DocAction::Wait);
    assert_eq!(o.step(g2, DocEvent::BytesFetched), DocAction::OpenDocument);
}

#[test]
fn unexpected_events_change_nothing() {
    let mut o = Orchestrator::new();
    let g = o.start();
    // A page outcome before any page was requested is ignored.
    let a = o.step(g, DocEvent::PageFailed(PdfError::RenderError("x".to_string())));
    assert_eq!(a, DocAction::Ignore);
    assert_eq!(o.phase, DocPhase::FetchingAndInitializing);
    assert!(o.pages.is_empty());
}

#[test]
fn restart_discards_recorded_outcomes() {
    let mut o = Orchestrator::new();
    let (g, _) = opened(&mut o, 1);
    o.step(g, DocEvent::PageRendered(page_view("old")));
    assert_eq!(o.phase, DocPhase::Ready);
    o.start();
    assert!(o.pages.is_empty());
    assert!(o.texts.is_empty());
    assert_eq!(o.phase, DocPhase::FetchingAndInitializing);
}

#[test]
fn engine_initializes_exactly_once() {
    let mut cell = EngineCell::new();
    assert_eq!(cell.state, EngineState::Uninitialized);
    // The first caller begins the initialization.
    assert_eq!(cell.request(), EngineRequest::BeginInit);
    // Concurrent callers await the same in-flight initialization.
    assert_eq!(cell.request(), EngineRequest::AwaitExisting);
    assert_eq!(cell.request(), EngineRequest::AwaitExisting);
    cell.initialized();
    // Every later caller gets the cached engine.
    assert_eq!(cell.request(), EngineRequest::UseEngine);
    assert_eq!(cell.request(), EngineRequest::UseEngine);
}

#[test]
fn failed_engine_initialization_may_be_retried() {
    let mut cell = EngineCell::new();
    assert_eq!(cell.request(), EngineRequest::BeginInit);
    cell.init_failed();
    assert_eq!(cell.state, EngineState::Uninitialized);
    assert_eq!(cell.request(), EngineRequest::BeginInit);
}
