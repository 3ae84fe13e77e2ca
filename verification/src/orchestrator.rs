//! The document load orchestrator.
//!
//! One document's load is a sequence of phases: engine initialization and
//! byte acquisition run independently and are joined, then the engine
//! opens the document, then the pages render one after the other in
//! document order. A fetch or open failure is document-fatal and renders
//! no page; a page's render failure is recorded for that page alone and
//! the following pages still render.
//!
//! The orchestrator is the decision logic of that cycle: the host performs
//! the asynchronous work (fetch, engine init, open, rasterize) and feeds
//! the outcomes in as events; `step` answers with the next action. Every
//! event carries the generation it belongs to, and an event of a stale
//! generation — work begun for a superseded document identity — is ignored
//! without touching the current document's state.

use crate::errors::{FetchError, PdfError};
use crate::pipeline::PageView;
use crate::words::{clone_chars, word_views};
use vstd::prelude::*;

verus! {

/// Phase of one document's load cycle.
#[derive(Debug, Clone, Copy, PartialEq, Eq, Structural)]
pub enum DocPhase {
    /// No document load has been requested.
    Idle,
    /// Byte fetch and engine initialization are in flight, independently.
    FetchingAndInitializing,
    /// Bytes and engine are there; the engine is opening the document.
    Opening,
    /// Pages render one after the other, in document order.
    RenderingPages,
    /// All pages were visited; per-page outcomes are recorded.
    Ready,
    /// A document-fatal failure: no page of this document renders.
    Failed,
}

/// A document-fatal failure.
#[derive(Debug, Clone)]
pub enum DocFatal {
    /// The document bytes could not be acquired.
    Fetch(FetchError),
    /// The engine could not be initialized or could not open the document
    /// (wrong or missing password, corrupt or unsupported bytes).
    Load(PdfError),
}

/// The outcome recorded for one page.
#[derive(Debug, Clone)]
pub enum PageOutcome {
    /// The page rendered; its view is attached.
    Rendered(PageView),
    /// The page could not be rasterized; later pages still render.
    Failed(PdfError),
}

/// An outcome of asynchronous host work, fed back to the orchestrator.
#[derive(Debug)]
pub enum DocEvent {
    /// The process-wide engine became ready.
    EngineReady,
    /// The engine initialization failed; the message explains it.
    EngineFailed(String),
    /// The document bytes arrived; the host holds them.
    BytesFetched,
    /// The document bytes could not be acquired.
    BytesFailed(FetchError),
    /// The engine opened the document and counted its pages.
    Opened(usize),
    /// The engine rejected the document; the message explains it.
    OpenRejected(String),
    /// The current page's render cycle succeeded.
    PageRendered(PageView),
    /// The current page's render cycle failed with this page-scoped error.
    PageFailed(PdfError),
}

/// What the host must do next.
#[derive(Debug, Clone, Copy, PartialEq, Eq, Structural)]
pub enum DocAction {
    /// The event was stale or unexpected in this phase; nothing changed.
    Ignore,
    /// Keep waiting: a joined dependency is still in flight.
    Wait,
    /// Both dependencies are there: open the document now.
    OpenDocument,
    /// Run the render pipeline for this page index.
    RenderPage(usize),
    /// Every page was visited: the document is ready.
    Done,
    /// The document failed fatally: stop all work for it.
    Halt,
}

/// The per-document state machine.
#[derive(Debug)]
pub struct Orchestrator {
    /// Current phase.
    pub phase: DocPhase,
    /// Generation of the document identity currently loading; events of
    /// other generations are stale and ignored.
    pub generation: u64,
    /// Whether the engine is ready.
    pub engine_ready: bool,
    /// Whether the document bytes have arrived.
    pub bytes_ready: bool,
    /// Number of pages of the opened document.
    pub page_count: usize,
    /// Index of the next page to visit.
    pub next_page: usize,
    /// Outcome of every visited page, in document order.
    pub pages: Vec<PageOutcome>,
    /// Every visited page's plain text, in document order; empty for a
    /// page without a text layer.
    pub texts: Vec<Vec<char>>,
    /// The document-fatal failure, when the phase is `Failed`.
    pub failure: Option<DocFatal>,
}

impl Orchestrator {
    /// The state invariant: outcomes are recorded exactly for the visited
    /// pages, a failure exists exactly in the failed phase, a fatal
    /// failure precedes all rendering, and errors keep their taxonomy
    /// (document-fatal failures are fetch or loading errors, per-page
    /// failures are render errors).
    pub open spec fn wf(self) -> bool {
        &&& self.next_page <= self.page_count
        &&& self.pages@.len() == self.next_page
        &&& self.texts@.len() == self.next_page
        &&& (self.phase is Failed <==> self.failure is Some)
        &&& ((self.phase is Idle || self.phase is FetchingAndInitializing || self.phase
            is Opening || self.phase is Failed) ==> self.next_page == 0 && self.page_count == 0)
        &&& (self.phase is Ready ==> self.next_page == self.page_count)
        &&& (self.phase is RenderingPages ==> self.next_page < self.page_count)
        &&& (match self.failure {
            Some(DocFatal::Load(e)) => e is LoadingError,
            _ => true,
        })
        &&& (forall|i: int|
            0 <= i < self.pages@.len() ==> match #[trigger] self.pages@[i] {
                PageOutcome::Failed(e) => e is RenderError,
                PageOutcome::Rendered(_) => true,
            })
    }

    /// A fresh orchestrator: idle, generation zero, nothing recorded.
    pub fn new() -> (o: Self)
        ensures
            o.wf(),
            o.phase is Idle,
            o.generation == 0,
            !o.engine_ready,
            !o.bytes_ready,
            o.page_count == 0,
            o.next_page == 0,
            o.pages@.len() == 0,
            o.texts@.len() == 0,
            o.failure is None,
    {
        Orchestrator {
            phase: DocPhase::Idle,
            generation: 0,
            engine_ready: false,
            bytes_ready: false,
            page_count: 0,
            next_page: 0,
            pages: Vec::new(),
            texts: Vec::new(),
            failure: None,
        }
    }

    /// Begin loading a (new) document identity: every recorded outcome of
    /// the superseded identity is discarded and the generation advances,
    /// so in-flight work of the old identity can no longer write into this
    /// document's state. The host then starts the byte fetch and requests
    /// the engine, concurrently.
    pub fn start(&mut self) -> (g: u64)
        requires
            old(self).generation < u64::MAX,
        ensures
            final(self).wf(),
            g == old(self).generation + 1,
            final(self).phase is FetchingAndInitializing,
            final(self).generation == g,
            !final(self).engine_ready,
            !final(self).bytes_ready,
            final(self).page_count == 0,
            final(self).next_page == 0,
            final(self).pages@.len() == 0,
            final(self).texts@.len() == 0,
            final(self).failure is None,
    {
        self.phase = DocPhase::FetchingAndInitializing;
        self.generation = self.generation + 1;
        self.engine_ready = false;
        self.bytes_ready = false;
        self.page_count = 0;
        self.next_page = 0;
        self.pages = Vec::new();
        self.texts = Vec::new();
        self.failure = None;
        self.generation
    }

    /// Feed one outcome of host work into the machine and learn the next
    /// action. An event whose generation is not the current one is stale
    /// and changes nothing; so does an event that its phase does not
    /// expect.
    pub fn step(&mut self, generation: u64, event: DocEvent) -> (a: DocAction)
        requires
            old(self).wf(),
            event matches DocEvent::PageFailed(e) ==> e is RenderError,
        ensures
            final(self).wf(),
            final(self).generation == old(self).generation,
            generation != old(self).generation ==> *final(self) == *old(self) && a is Ignore,
            generation == old(self).generation ==> match event {
                DocEvent::EngineReady => match old(self).phase {
                    DocPhase::FetchingAndInitializing => {
                        &&& *final(self) == (Orchestrator {
                            engine_ready: true,
                            phase: final(self).phase,
                            ..*old(self)
                        })
                        &&& if old(self).bytes_ready {
                            final(self).phase is Opening && a is OpenDocument
                        } else {
                            final(self).phase is FetchingAndInitializing && a is Wait
                        }
                    },
                    _ => *final(self) == *old(self) && a is Ignore,
                },
                DocEvent::BytesFetched => match old(self).phase {
                    DocPhase::FetchingAndInitializing => {
                        &&& *final(self) == (Orchestrator {
                            bytes_ready: true,
                            phase: final(self).phase,
                            ..*old(self)
                        })
                        &&& if old(self).engine_ready {
                            final(self).phase is Opening && a is OpenDocument
                        } else {
                            final(self).phase is FetchingAndInitializing && a is Wait
                        }
                    },
                    _ => *final(self) == *old(self) && a is Ignore,
                },
                DocEvent::EngineFailed(m) => match old(self).phase {
                    DocPhase::FetchingAndInitializing => {
                        &&& *final(self) == (Orchestrator {
                            phase: DocPhase::Failed,
                            failure: Some(DocFatal::Load(PdfError::LoadingError(m))),
                            ..*old(self)
                        })
                        &&& a is Halt
                    },
                    _ => *final(self) == *old(self) && a is Ignore,
                },
                DocEvent::BytesFailed(e) => match old(self).phase {
                    DocPhase::FetchingAndInitializing => {
                        &&& *final(self) == (Orchestrator {
                            phase: DocPhase::Failed,
                            failure: Some(DocFatal::Fetch(e)),
                            ..*old(self)
                        })
                        &&& a is Halt
                    },
                    _ => *final(self) == *old(self) && a is Ignore,
                },
                DocEvent::Opened(n) => match old(self).phase {
                    DocPhase::Opening => {
                        &&& *final(self) == (Orchestrator {
                            phase: final(self).phase,
                            page_count: n,
                            ..*old(self)
                        })
                        &&& if n == 0 {
                            final(self).phase is Ready && a is Done
                        } else {
                            final(self).phase is RenderingPages && a == DocAction::RenderPage(
                                0usize,
                            )
                        }
                    },
                    _ => *final(self) == *old(self) && a is Ignore,
                },
                DocEvent::OpenRejected(m) => match old(self).phase {
                    DocPhase::Opening => {
                        &&& *final(self) == (Orchestrator {
                            phase: DocPhase::Failed,
                            failure: Some(DocFatal::Load(PdfError::LoadingError(m))),
                            ..*old(self)
                        })
                        &&& a is Halt
                    },
                    _ => *final(self) == *old(self) && a is Ignore,
                },
                DocEvent::PageRendered(v) => match old(self).phase {
                    DocPhase::RenderingPages => {
                        &&& final(self).pages@ == old(self).pages@.push(PageOutcome::Rendered(v))
                        &&& word_views(final(self).texts@) == word_views(old(self).texts@).push(
                            v.text@,
                        )
                        &&& final(self).next_page == old(self).next_page + 1
                        &&& final(self).page_count == old(self).page_count
                        &&& final(self).engine_ready == old(self).engine_ready
                        &&& final(self).bytes_ready == old(self).bytes_ready
                        &&& final(self).failure is None
                        &&& if old(self).next_page + 1 == old(self).page_count {
                            final(self).phase is Ready && a is Done
                        } else {
                            final(self).phase is RenderingPages && a == DocAction::RenderPage(
                                (old(self).next_page + 1) as usize,
                            )
                        }
                    },
                    _ => *final(self) == *old(self) && a is Ignore,
                },
                DocEvent::PageFailed(e) => match old(self).phase {
                    DocPhase::RenderingPages => {
                        &&& final(self).pages@ == old(self).pages@.push(PageOutcome::Failed(e))
                        &&& word_views(final(self).texts@) == word_views(old(self).texts@).push(
                            Seq::<char>::empty(),
                        )
                        &&& final(self).next_page == old(self).next_page + 1
                        &&& final(self).page_count == old(self).page_count
                        &&& final(self).engine_ready == old(self).engine_ready
                        &&& final(self).bytes_ready == old(self).bytes_ready
                        &&& final(self).failure is None
                        &&& if old(self).next_page + 1 == old(self).page_count {
                            final(self).phase is Ready && a is Done
                        } else {
                            final(self).phase is RenderingPages && a == DocAction::RenderPage(
                                (old(self).next_page + 1) as usize,
                            )
                        }
                    },
                    _ => *final(self) == *old(self) && a is Ignore,
                },
            },
    {
        if generation != self.generation {
            return DocAction::Ignore;
        }
        match event {
            DocEvent::EngineReady => {
                match self.phase {
                    DocPhase::FetchingAndInitializing => {
                        self.engine_ready = true;
                        if self.bytes_ready {
                            self.phase = DocPhase::Opening;
                            DocAction::OpenDocument
                        } else {
                            DocAction::Wait
                        }
                    },
                    _ => DocAction::Ignore,
                }
            },
            DocEvent::BytesFetched => {
                match self.phase {
                    DocPhase::FetchingAndInitializing => {
                        self.bytes_ready = true;
                        if self.engine_ready {
                            self.phase = DocPhase::Opening;
                            DocAction::OpenDocument
                        } else {
                            DocAction::Wait
                        }
                    },
                    _ => DocAction::Ignore,
                }
            },
            DocEvent::EngineFailed(m) => {
                match self.phase {
                    DocPhase::FetchingAndInitializing => {
                        self.phase = DocPhase::Failed;
                        self.failure = Some(DocFatal::Load(PdfError::LoadingError(m)));
                        DocAction::Halt
                    },
                    _ => DocAction::Ignore,
                }
            },
            DocEvent::BytesFailed(e) => {
                match self.phase {
                    DocPhase::FetchingAndInitializing => {
                        self.phase = DocPhase::Failed;
                        self.failure = Some(DocFatal::Fetch(e));
                        DocAction::Halt
                    },
                    _ => DocAction::Ignore,
                }
            },
            DocEvent::Opened(n) => {
                match self.phase {
                    DocPhase::Opening => {
                        self.page_count = n;
                        if n == 0 {
                            self.phase = DocPhase::Ready;
                            DocAction::Done
                        } else {
                            self.phase = DocPhase::RenderingPages;
                            DocAction::RenderPage(0)
                        }
                    },
                    _ => DocAction::Ignore,
                }
            },
            DocEvent::OpenRejected(m) => {
                match self.phase {
                    DocPhase::Opening => {
                        self.phase = DocPhase::Failed;
                        self.failure = Some(DocFatal::Load(PdfError::LoadingError(m)));
                        DocAction::Halt
                    },
                    _ => DocAction::Ignore,
                }
            },
            DocEvent::PageRendered(v) => {
                match self.phase {
                    DocPhase::RenderingPages => {
                        let text_copy = clone_chars(&v.text);
                        let ghost texts_pre = self.texts@;
                        self.pages.push(PageOutcome::Rendered(v));
                        self.texts.push(text_copy);
                        proof {
                            assert(word_views(self.texts@) =~= word_views(texts_pre).push(
                                text_copy@,
                            ));
                        }
                        self.next_page = self.next_page + 1;
                        if self.next_page == self.page_count {
                            self.phase = DocPhase::Ready;
                            DocAction::Done
                        } else {
                            DocAction::RenderPage(self.next_page)
                        }
                    },
                    _ => DocAction::Ignore,
                }
            },
            DocEvent::PageFailed(e) => {
                match self.phase {
                    DocPhase::RenderingPages => {
                        let ghost texts_pre = self.texts@;
                        self.pages.push(PageOutcome::Failed(e));
                        self.texts.push(Vec::new());
                        proof {
                            assert(word_views(self.texts@) =~= word_views(texts_pre).push(
                                Seq::<char>::empty(),
                            ));
                        }
                        self.next_page = self.next_page + 1;
                        if self.next_page == self.page_count {
                            self.phase = DocPhase::Ready;
                            DocAction::Done
                        } else {
                            DocAction::RenderPage(self.next_page)
                        }
                    },
                    _ => DocAction::Ignore,
                }
            },
        }
    }

    /// A document-fatal failure renders no page and records no page error:
    /// the recorded failure is a fetch or loading error, never a render
    /// error, and the page outcomes are empty.
    pub proof fn lemma_document_failure_renders_no_pages(self)
        requires
            self.wf(),
            self.phase is Failed,
        ensures
            self.pages@.len() == 0,
            self.texts@.len() == 0,
            self.failure is Some,
            match self.failure {
                Some(DocFatal::Load(e)) => e is LoadingError,
                Some(DocFatal::Fetch(_)) => true,
                None => false,
            },
    {
    }
}

} // verus!
